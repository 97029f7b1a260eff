//! The finish-task request of the Paraformer-style protocol: sent when
//! local audio is exhausted, it asks the backend to complete the task.

use vstd::prelude::*;
use vstd::string::StringExecFns;

use crate::paraformer_run_task::EmptyObj;
use crate::paraformer_run_task::Streaming;

verus! {

/// The payload of the finish-task request: an empty input.
#[derive(Clone, Copy, Debug, PartialEq, Eq, Structural, Default)]
pub struct Payload {
    pub input: EmptyObj,
}

/// The header of the finish-task request.
pub struct Header {
    pub action: String,
    pub task_id: String,
    pub streaming: Streaming,
}

impl Header {
    /// Builds the header addressed to the running task.
    pub fn new(task_id: &str) -> (r: Self)
        ensures
            r.action@ == "finish-task"@,
            r.task_id@ == task_id@,
            r.streaming is Duplex,
    {
        Header {
            action: String::from_str("finish-task"),
            task_id: task_id.to_owned(),
            streaming: Streaming::Duplex,
        }
    }
}

/// The whole finish-task request.
pub struct Request {
    pub header: Header,
    pub payload: Payload,
}

impl Request {
    /// Builds the finish-task request addressed to the running task.
    pub fn new(task_id: &str) -> (r: Self)
        ensures
            r.header.action@ == "finish-task"@,
            r.header.task_id@ == task_id@,
            r.header.streaming is Duplex,
            r.payload == (Payload { input: EmptyObj {  } }),
    {
        Request { header: Header::new(task_id), payload: Payload { input: EmptyObj {  } } }
    }
}

} // verus!
