//! The file-playback capture backend's chunking: it replays a fixed PCM
//! recording as a sequence of chunks, as a real capture source would
//! produce them. The pacing interval and the cancellation check live with
//! the caller; everything that decides chunk boundaries is here.

use vstd::prelude::*;
use vstd::string::StringExecFns;

use crate::error::DictypeError;

verus! {

/// The canonical WAV header length of the replayed recording.
pub const WAV_HEADER_SIZE: usize = 44;

/// 16 kHz, single channel, 16-bit samples.
pub const BYTES_PER_SECOND_16K_MONO_PCM16: usize = 32000;

/// How much audio one chunk carries, in milliseconds.
pub const CHUNK_MILLIS: usize = 100;

/// A capture backend replaying a fixed recording.
#[derive(Debug)]
pub struct PcmPlaybackRecorder {
    pub pcm: Vec<u8>,
    pub chunk_size: usize,
}

/// A byte-for-byte copy.
fn copy_bytes(v: &Vec<u8>) -> (r: Vec<u8>)
    ensures
        r@ == v@,
{
    let mut r: Vec<u8> = Vec::new();
    let mut i: usize = 0;
    while i < v.len()
        invariant
            i <= v.len(),
            r@ == v@.take(i as int),
        decreases v.len() - i,
    {
        r.push(v[i]);
        i = i + 1;
        proof {
            assert(r@ =~= v@.take(i as int));
        }
    }
    proof {
        assert(r@ =~= v@);
    }
    r
}

impl PcmPlaybackRecorder {
    /// Prepares the recording for replay: the WAV header is stripped and
    /// the chunk size fixed at one hundred milliseconds of PCM. A recording
    /// with no payload beyond the header is refused.
    pub fn new(wav: Vec<u8>) -> (r: Result<Self, DictypeError>)
        ensures
            wav@.len() <= WAV_HEADER_SIZE ==> r is Err,
            wav@.len() > WAV_HEADER_SIZE ==> (r matches Ok(p) && p.pcm@ == wav@.skip(
                WAV_HEADER_SIZE as int,
            ) && p.chunk_size == (BYTES_PER_SECOND_16K_MONO_PCM16 * CHUNK_MILLIS) / 1000),
    {
        if wav.len() <= WAV_HEADER_SIZE {
            return Err(DictypeError::Io(String::from_str("wav payload is empty")));
        }
        let chunk_size_raw = (BYTES_PER_SECOND_16K_MONO_PCM16 * CHUNK_MILLIS) / 1000;
        let chunk_size = if chunk_size_raw < 1 {
            1
        } else {
            chunk_size_raw
        };
        let mut pcm: Vec<u8> = Vec::new();
        let mut i: usize = WAV_HEADER_SIZE;
        while i < wav.len()
            invariant
                WAV_HEADER_SIZE <= i <= wav.len(),
                pcm@ == wav@.subrange(WAV_HEADER_SIZE as int, i as int),
            decreases wav.len() - i,
        {
            pcm.push(wav[i]);
            i = i + 1;
            proof {
                assert(pcm@ =~= wav@.subrange(WAV_HEADER_SIZE as int, i as int));
            }
        }
        proof {
            assert(pcm@ =~= wav@.skip(WAV_HEADER_SIZE as int));
        }
        Ok(PcmPlaybackRecorder { pcm, chunk_size })
    }

    /// Opens one replay pass over the recording from the start.
    pub fn create(&self) -> (r: PcmPlaybackStream)
        ensures
            r.pcm@ == self.pcm@,
            r.offset == 0,
            r.chunk_size == self.chunk_size,
    {
        PcmPlaybackStream { pcm: copy_bytes(&self.pcm), offset: 0, chunk_size: self.chunk_size }
    }
}

/// One replay pass: a cursor over the recording.
#[derive(Debug)]
pub struct PcmPlaybackStream {
    pub pcm: Vec<u8>,
    pub offset: usize,
    pub chunk_size: usize,
}

impl PcmPlaybackStream {
    /// The next chunk: the following `chunk_size` bytes of the recording,
    /// fewer at the end, and nothing once the recording is exhausted.
    pub fn next_chunk(&mut self) -> (r: Option<Vec<u8>>)
        requires
            old(self).chunk_size > 0,
        ensures
            final(self).pcm@ == old(self).pcm@,
            final(self).chunk_size == old(self).chunk_size,
            old(self).offset >= old(self).pcm@.len() ==> (r is None && final(self).offset == old(
                self,
            ).offset),
            old(self).offset < old(self).pcm@.len() ==> ({
                let end = if old(self).offset + old(self).chunk_size <= old(self).pcm@.len() {
                    old(self).offset + old(self).chunk_size
                } else {
                    old(self).pcm@.len() as int
                };
                r matches Some(c) && c@ == old(self).pcm@.subrange(old(self).offset as int, end)
                    && final(self).offset == end
            }),
    {
        if self.offset >= self.pcm.len() {
            return None;
        }
        let remaining = self.pcm.len() - self.offset;
        let end = if remaining < self.chunk_size {
            self.pcm.len()
        } else {
            self.offset + self.chunk_size
        };
        let mut chunk: Vec<u8> = Vec::new();
        let mut i: usize = self.offset;
        while i < end
            invariant
                self.offset <= i <= end <= self.pcm@.len(),
                chunk@ == self.pcm@.subrange(self.offset as int, i as int),
                *self == *old(self),
            decreases end - i,
        {
            chunk.push(self.pcm[i]);
            i = i + 1;
            proof {
                assert(chunk@ =~= self.pcm@.subrange(self.offset as int, i as int));
            }
        }
        self.offset = end;
        Some(chunk)
    }
}

} // verus!
