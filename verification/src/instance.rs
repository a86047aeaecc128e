//! The instance: the top-level connection to the native engine and the
//! root from which devices are created.
//!
//! The native creation call reports an integer result code; this module
//! holds the mapping from that code to the typed creation outcome. The
//! code on which the mapping yields each variant is pinned exactly: the
//! success code and only it yields an instance, the missing-extension code
//! yields `MissingExtension`, and every other code collapses into
//! `Unknown`.

use vstd::prelude::*;

use crate::device::{Device, DeviceInfo};
use crate::types::{RESULT_MISSING_EXTENSION, RESULT_SUCCESS};

verus! {

pub const INSTANCE_FLAG_DEBUG_UTIL: u64 = 0x1;

/// Instance-level configuration requests; one bit per request.
#[derive(Clone, Copy, Debug, PartialEq, Eq, Structural)]
pub struct InstanceFlags {
    pub bits: u64,
}

impl InstanceFlags {
    /// The set with no bits raised.
    pub fn empty() -> (r: InstanceFlags)
        ensures
            r.bits == 0,
    {
        InstanceFlags { bits: 0 }
    }

    /// The set holding exactly the given bits.
    pub fn from_bits(bits: u64) -> (r: InstanceFlags)
        ensures
            r.bits == bits,
    {
        InstanceFlags { bits }
    }

    /// Raise every bit that is raised in either set.
    pub fn union(self, other: InstanceFlags) -> (r: InstanceFlags)
        ensures
            r.bits == self.bits | other.bits,
    {
        InstanceFlags { bits: self.bits | other.bits }
    }

    /// Keep only the bits raised in both sets.
    pub fn intersection(self, other: InstanceFlags) -> (r: InstanceFlags)
        ensures
            r.bits == self.bits & other.bits,
    {
        InstanceFlags { bits: self.bits & other.bits }
    }

    /// Whether every bit of `other` is raised in `self`.
    pub fn contains(self, other: InstanceFlags) -> (r: bool)
        ensures
            r == (self.bits & other.bits == other.bits),
    {
        self.bits & other.bits == other.bits
    }
}

impl Default for InstanceFlags {
    /// The default instance configuration raises no bits.
    fn default() -> (r: InstanceFlags)
        ensures
            r.bits == 0,
    {
        InstanceFlags { bits: 0 }
    }
}

/// Creation descriptor for an instance: its configuration flags.
#[derive(Clone, Copy, Debug, PartialEq, Eq, Structural)]
pub struct InstanceInfo {
    pub flags: InstanceFlags,
}

impl Default for InstanceInfo {
    /// The default instance descriptor raises no flags.
    fn default() -> (r: InstanceInfo)
        ensures
            r.flags.bits == 0,
    {
        InstanceInfo { flags: InstanceFlags::default() }
    }
}

/// Why instance creation failed. A required engine extension being absent
/// is reported as such; every other native failure code is collapsed into
/// `Unknown`, so callers cannot distinguish finer-grained reasons here.
#[derive(Clone, Copy, Debug, PartialEq, Eq, Structural)]
pub enum InstanceCreateError {
    MissingExtension,
    Unknown,
}

impl InstanceCreateError {
    /// The error's name, for diagnostics.
    pub fn describe(&self) -> (r: &'static str)
        ensures
            self is MissingExtension ==> r@ == "MissingExtension"@,
            self is Unknown ==> r@ == "Unknown"@,
    {
        match self {
            InstanceCreateError::MissingExtension => "MissingExtension",
            InstanceCreateError::Unknown => "Unknown",
        }
    }
}

/// The top-level connection to the native engine, remembering the
/// descriptor it was created with.
#[derive(Clone, Copy, Debug)]
pub struct Instance {
    info: InstanceInfo,
}

impl Instance {
    /// The descriptor this instance was created with.
    pub closed spec fn info_spec(self) -> InstanceInfo {
        self.info
    }

    /// Settle instance creation from the native call's result code: the
    /// success code and only it yields an instance, which remembers the
    /// given descriptor; the missing-extension code yields
    /// `MissingExtension`; any other code yields `Unknown`, never success.
    pub fn new(info: &InstanceInfo, native_result: i32) -> (r: Result<
        Instance,
        InstanceCreateError,
    >)
        ensures
            r is Ok <==> native_result == RESULT_SUCCESS,
            r matches Ok(inst) ==> inst.info_spec() == *info,
            r matches Err(e) ==> e == (if native_result == RESULT_MISSING_EXTENSION {
                InstanceCreateError::MissingExtension
            } else {
                InstanceCreateError::Unknown
            }),
    {
        if native_result == RESULT_SUCCESS {
            Ok(Instance { info: *info })
        } else if native_result == RESULT_MISSING_EXTENSION {
            Err(InstanceCreateError::MissingExtension)
        } else {
            Err(InstanceCreateError::Unknown)
        }
    }

    /// The descriptor this instance was created with.
    pub fn info(&self) -> (r: &InstanceInfo)
        ensures
            *r == self.info_spec(),
    {
        &self.info
    }

    /// Create a logical device under this instance: a fresh device whose
    /// resource tables are empty and bounded by the descriptor's budgets.
    pub fn create_device(&self, info: &DeviceInfo) -> (r: Device)
        ensures
            r.wf(),
            r.info_spec() == *info,
            r.buffers_spec().slots_len() == 0,
            r.images_spec().slots_len() == 0,
            r.image_views_spec().slots_len() == 0,
            r.samplers_spec().slots_len() == 0,
            forall|id: crate::types::BufferId| !r.buffer_valid_spec(id),
            forall|id: crate::types::ImageId| !r.image_valid_spec(id),
            forall|id: crate::types::ImageViewId| !r.image_view_valid_spec(id),
            forall|id: crate::types::SamplerId| !r.sampler_valid_spec(id),
    {
        Device::new(info)
    }
}

} // verus!
