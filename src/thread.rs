use vstd::prelude::*;
use crate::frame::Frame;

verus! {

/// A thread of the interpreter: its name and its stack of frames, the
/// running frame last.
pub struct VmThread {
    pub name: String,
    pub frame_stack: Vec<Frame>,
}

impl VmThread {
    pub fn new(name: String) -> (r: VmThread)
        ensures
            r.name == name,
            r.frame_stack@.len() == 0,
    {
        VmThread { name, frame_stack: Vec::new() }
    }
}

} // verus!
