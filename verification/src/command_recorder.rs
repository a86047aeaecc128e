//! The command recorder: the object GPU commands are recorded onto before
//! submission.
//!
//! A recorder is created by a device and identified by an opaque handle.
//! The recording operations themselves marshal engine-owned command
//! descriptors straight across the native boundary and live with the
//! native bindings, outside this crate.

use vstd::prelude::*;

use crate::types::SmallString;

verus! {

/// Creation descriptor for a command recorder: only a debug name.
#[derive(Clone, Copy, Debug)]
pub struct CommandRecorderInfo {
    pub name: SmallString,
}

impl Default for CommandRecorderInfo {
    /// The default recorder descriptor carries an empty debug name.
    fn default() -> (r: CommandRecorderInfo)
        ensures
            r.name@ == Seq::<u8>::empty(),
    {
        CommandRecorderInfo { name: SmallString::default() }
    }
}

/// Owning wrapper around the opaque native handle of a command recorder.
#[derive(Clone, Copy, Debug, PartialEq, Eq, Structural)]
pub struct CommandRecorder {
    pub handle: u64,
}

impl CommandRecorder {
    /// The raw handle value this wrapper owns.
    pub open spec fn id_spec(self) -> u64 {
        self.handle
    }

    pub fn id(&self) -> (r: u64)
        ensures
            r == self.id_spec(),
    {
        self.handle
    }
}

} // verus!
