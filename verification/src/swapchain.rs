//! The swapchain descriptor: how a presentable surface over a native window
//! should be created.
//!
//! The surface-format selection callback is a native scoring function and
//! is supplied where the native call is made, outside this crate.

use vstd::prelude::*;

use crate::types::{ImageUsageFlags, SmallString};

verus! {

/// The window system a native window handle belongs to.
#[derive(Clone, Copy, Debug, PartialEq, Eq, Structural)]
pub enum NativeWindowPlatform {
    Unknown,
    Win32,
    Xlib,
    Wayland,
}

impl NativeWindowPlatform {
    /// The native engine's integer value for this variant.
    pub open spec fn code_spec(self) -> i32 {
        match self {
            NativeWindowPlatform::Unknown => 0,
            NativeWindowPlatform::Win32 => 1,
            NativeWindowPlatform::Xlib => 2,
            NativeWindowPlatform::Wayland => 3,
        }
    }

    /// Translate this variant to the native engine's integer value.
    pub fn code(self) -> (r: i32)
        ensures
            r == self.code_spec(),
    {
        match self {
            NativeWindowPlatform::Unknown => 0,
            NativeWindowPlatform::Win32 => 1,
            NativeWindowPlatform::Xlib => 2,
            NativeWindowPlatform::Wayland => 3,
        }
    }
}

/// When an acquired image is shown on the surface, mirroring the graphics
/// API's present modes.
#[derive(Clone, Copy, Debug, PartialEq, Eq, Structural)]
pub enum PresentMode {
    Immediate,
    Mailbox,
    Fifo,
    FifoRelaxed,
    SharedDemandRefresh,
    SharedContinuousRefresh,
}

impl PresentMode {
    /// The native engine's integer value for this variant.
    pub open spec fn code_spec(self) -> i32 {
        match self {
            PresentMode::Immediate => 0,
            PresentMode::Mailbox => 1,
            PresentMode::Fifo => 2,
            PresentMode::FifoRelaxed => 3,
            PresentMode::SharedDemandRefresh => 1000111000,
            PresentMode::SharedContinuousRefresh => 1000111001,
        }
    }

    /// Translate this variant to the native engine's integer value.
    pub fn code(self) -> (r: i32)
        ensures
            r == self.code_spec(),
    {
        match self {
            PresentMode::Immediate => 0,
            PresentMode::Mailbox => 1,
            PresentMode::Fifo => 2,
            PresentMode::FifoRelaxed => 3,
            PresentMode::SharedDemandRefresh => 1000111000,
            PresentMode::SharedContinuousRefresh => 1000111001,
        }
    }
}

pub const SURFACE_TRANSFORM_IDENTITY: u32 = 0x1;

pub const SURFACE_TRANSFORM_ROTATE_90: u32 = 0x2;

pub const SURFACE_TRANSFORM_ROTATE_180: u32 = 0x4;

pub const SURFACE_TRANSFORM_ROTATE_270: u32 = 0x8;

pub const SURFACE_TRANSFORM_HORIZONTAL_MIRROR: u32 = 0x10;

pub const SURFACE_TRANSFORM_HORIZONTAL_MIRROR_ROTATE_90: u32 = 0x20;

pub const SURFACE_TRANSFORM_HORIZONTAL_MIRROR_ROTATE_180: u32 = 0x40;

pub const SURFACE_TRANSFORM_HORIZONTAL_MIRROR_ROTATE_270: u32 = 0x80;

pub const SURFACE_TRANSFORM_INHERIT: u32 = 0x100;

/// The transform applied to the surface at presentation; one bit per
/// transform.
#[derive(Clone, Copy, Debug, PartialEq, Eq, Structural)]
pub struct SurfaceTransformFlags {
    pub bits: u32,
}

impl SurfaceTransformFlags {
    /// The set with no bits raised.
    pub fn empty() -> (r: SurfaceTransformFlags)
        ensures
            r.bits == 0,
    {
        SurfaceTransformFlags { bits: 0 }
    }

    /// The set holding exactly the given bits.
    pub fn from_bits(bits: u32) -> (r: SurfaceTransformFlags)
        ensures
            r.bits == bits,
    {
        SurfaceTransformFlags { bits }
    }

    /// Raise every bit that is raised in either set.
    pub fn union(self, other: SurfaceTransformFlags) -> (r: SurfaceTransformFlags)
        ensures
            r.bits == self.bits | other.bits,
    {
        SurfaceTransformFlags { bits: self.bits | other.bits }
    }

    /// Keep only the bits raised in both sets.
    pub fn intersection(self, other: SurfaceTransformFlags) -> (r: SurfaceTransformFlags)
        ensures
            r.bits == self.bits & other.bits,
    {
        SurfaceTransformFlags { bits: self.bits & other.bits }
    }

    /// Whether every bit of `other` is raised in `self`.
    pub fn contains(self, other: SurfaceTransformFlags) -> (r: bool)
        ensures
            r == (self.bits & other.bits == other.bits),
    {
        self.bits & other.bits == other.bits
    }
}

impl Default for SurfaceTransformFlags {
    /// The default transform set raises no bits.
    fn default() -> (r: SurfaceTransformFlags)
        ensures
            r.bits == 0,
    {
        SurfaceTransformFlags { bits: 0 }
    }
}

/// Creation descriptor for a swapchain: the native window and its platform,
/// presentation behavior, image usage, the frame-in-flight budget, and a
/// debug name. The window handle is the platform's raw handle value.
#[derive(Clone, Copy, Debug)]
pub struct SwapchainInfo {
    pub native_window: u64,
    pub native_window_platform: NativeWindowPlatform,
    pub present_mode: PresentMode,
    pub present_operation: SurfaceTransformFlags,
    pub image_usage: ImageUsageFlags,
    pub max_allowed_frames_in_flight: usize,
    pub name: SmallString,
}

} // verus!
