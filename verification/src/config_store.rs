//! The loaded profile configuration: audio-capture options plus a mapping
//! from profile name to backend configuration. Reading and parsing the
//! configuration file happens outside the library; this module holds the
//! parsed values and keeps the names unique.

use vstd::prelude::*;
use vstd::pervasive::VecAdditionalExecFns;

use crate::profile_config::ProfileConfig;
use crate::pulseaudio_config::PulseAudioConfig;

verus! {

/// The first value bound to `name` in a list of named entries, scanning in
/// order. With unique names this is the only one.
pub open spec fn lookup_pairs<T>(pairs: Seq<(String, T)>, name: Seq<char>) -> Option<T>
    decreases pairs.len(),
{
    if pairs.len() == 0 {
        None
    } else if pairs[0].0@ == name {
        Some(pairs[0].1)
    } else {
        lookup_pairs(pairs.drop_first(), name)
    }
}

/// The names of a list of named entries are unique.
pub open spec fn wf_pairs<T>(pairs: Seq<(String, T)>) -> bool {
    forall|i: int, j: int| 0 <= i < j < pairs.len() ==> pairs[i].0@ != pairs[j].0@
}

/// Replacing the entry at `i` rebinds exactly its name.
pub proof fn lemma_lookup_update<T>(
    profiles: Seq<(String, T)>,
    i: int,
    p: (String, T),
    name: Seq<char>,
)
    requires
        0 <= i < profiles.len(),
        wf_pairs(profiles),
        profiles[i].0@ == p.0@,
    ensures
        p.0@ == name ==> lookup_pairs(profiles.update(i, p), name) == Some(p.1),
        p.0@ != name ==> lookup_pairs(profiles.update(i, p), name) == lookup_pairs(
            profiles,
            name,
        ),
        wf_pairs(profiles.update(i, p)),
    decreases i,
{
    let updated = profiles.update(i, p);
    assert forall|x: int, y: int| 0 <= x < y < updated.len() implies updated[x].0@
        != updated[y].0@ by {
        assert(profiles[x].0@ != profiles[y].0@);
    }
    if i == 0 {
        assert(updated[0] == p);
        if p.0@ != name {
            assert(updated.drop_first() =~= profiles.drop_first());
        }
    } else {
        assert(updated[0] == profiles[0]);
        assert(profiles[0].0@ != profiles[i].0@);
        assert(updated.drop_first() =~= profiles.drop_first().update(i - 1, p));
        assert(wf_pairs(profiles.drop_first()));
        lemma_lookup_update(profiles.drop_first(), i - 1, p, name);
    }
}

/// Appending a fresh name binds it and leaves every other name alone.
pub proof fn lemma_lookup_push<T>(
    profiles: Seq<(String, T)>,
    p: (String, T),
    name: Seq<char>,
)
    requires
        forall|i: int| 0 <= i < profiles.len() ==> profiles[i].0@ != p.0@,
    ensures
        p.0@ == name ==> lookup_pairs(profiles.push(p), name) == Some(p.1),
        p.0@ != name ==> lookup_pairs(profiles.push(p), name) == lookup_pairs(
            profiles,
            name,
        ),
        wf_pairs(profiles) ==> wf_pairs(profiles.push(p)),
    decreases profiles.len(),
{
    let pushed = profiles.push(p);
    if profiles.len() == 0 {
        assert(pushed[0] == p);
        assert(pushed.drop_first() =~= Seq::<(String, T)>::empty());
    } else {
        assert(pushed[0] == profiles[0]);
        assert(pushed.drop_first() =~= profiles.drop_first().push(p));
        lemma_lookup_push(profiles.drop_first(), p, name);
    }
}

/// The parsed configuration file: capture options and the named profiles.
pub struct ConfigFile {
    pub pulseaudio: PulseAudioConfig,
    pub profiles: Vec<(String, ProfileConfig)>,
}

impl ConfigFile {
    /// Whether the profile names are unique, as a loaded mapping guarantees.
    pub open spec fn wf(&self) -> bool {
        wf_pairs(self.profiles@)
    }

    /// An empty configuration with the given capture options.
    pub fn new(pulseaudio: PulseAudioConfig) -> (r: Self)
        ensures
            r.wf(),
            r.pulseaudio == pulseaudio,
            r.profiles@.len() == 0,
    {
        ConfigFile { pulseaudio, profiles: Vec::new() }
    }

    /// Binds `name` to `config`, replacing an earlier binding of the same
    /// name and leaving every other binding alone.
    pub fn insert_profile(&mut self, name: String, config: ProfileConfig)
        requires
            old(self).wf(),
        ensures
            final(self).wf(),
            final(self).pulseaudio == old(self).pulseaudio,
            lookup_pairs(final(self).profiles@, name@) == Some(config),
            forall|other: Seq<char>|
                other != name@ ==> lookup_pairs(final(self).profiles@, other)
                    == lookup_pairs(old(self).profiles@, other),
    {
        let n = self.profiles.len();
        let mut i: usize = 0;
        while i < n
            invariant
                n == self.profiles@.len(),
                i <= n,
                self.wf(),
                *self == *old(self),
                forall|k: int| 0 <= k < i ==> self.profiles@[k].0@ != name@,
            decreases n - i,
        {
            if string_eq(&self.profiles[i].0, &name) {
                let ghost pre = self.profiles@;
                self.profiles.set(i, (name, config));
                proof {
                    let p = self.profiles@[i as int];
                    assert(self.profiles@ =~= pre.update(i as int, p));
                    lemma_lookup_update(pre, i as int, p, name@);
                    assert forall|other: Seq<char>| other != name@ implies lookup_pairs(
                        self.profiles@,
                        other,
                    ) == lookup_pairs(pre, other) by {
                        lemma_lookup_update(pre, i as int, p, other);
                    }
                }
                return ;
            }
            i = i + 1;
        }
        let ghost pre = self.profiles@;
        self.profiles.push((name, config));
        proof {
            let p = self.profiles@[pre.len() as int];
            assert(self.profiles@ =~= pre.push(p));
            lemma_lookup_push(pre, p, name@);
            assert forall|other: Seq<char>| other != name@ implies lookup_pairs(
                self.profiles@,
                other,
            ) == lookup_pairs(pre, other) by {
                lemma_lookup_push(pre, p, other);
            }
        }
    }

    /// The loaded profiles, in insertion order.
    pub fn profiles(&self) -> (r: &Vec<(String, ProfileConfig)>)
        ensures
            r == &self.profiles,
    {
        &self.profiles
    }

    /// The capture options.
    pub fn pulseaudio(&self) -> (r: &PulseAudioConfig)
        ensures
            r == &self.pulseaudio,
    {
        &self.pulseaudio
    }
}

impl Default for ConfigFile {
    /// No capture preference and no profiles.
    fn default() -> (r: Self)
        ensures
            r.wf(),
            r.pulseaudio.preferred_source_name is None,
            r.profiles@.len() == 0,
    {
        ConfigFile {
            pulseaudio: PulseAudioConfig { preferred_source_name: None },
            profiles: Vec::new(),
        }
    }
}

/// Whether two strings spell the same text.
pub fn string_eq(a: &String, b: &String) -> (r: bool)
    ensures
        r == (a@ == b@),
{
    a.eq(b)
}

} // verus!
