//! The messages the transfer tools print for the test harness: `ready`
//! with the destination to dial, and `result` with the measurements.
use vstd::prelude::*;

verus! {

/// The kind of a harness message.
#[derive(Debug, Clone, Copy, PartialEq, Eq)]
pub enum MsgType {
    Ready,
    Result,
}

impl MsgType {
    /// The kind's name on the wire.
    pub fn name(&self) -> (s: &'static str)
        ensures
            s@ == match self {
                MsgType::Ready => "ready"@,
                MsgType::Result => "result"@,
            },
    {
        match self {
            MsgType::Ready => "ready",
            MsgType::Result => "result",
        }
    }
}

/// Says that a receiver is listening, and at which destination.
#[derive(Debug, Clone)]
pub struct ReadyMsg {
    pub msg_type: String,
    pub dest: String,
}

impl ReadyMsg {
    /// A `ready` message for `dest`.
    pub fn new(dest: String) -> (m: Self)
        ensures
            m.msg_type@ == "ready"@,
            m.dest@ == dest@,
    {
        ReadyMsg { msg_type: "ready".to_owned(), dest }
    }
}

} // verus!
