//! The logical GPU device: the factory for every GPU resource kind and the
//! book-keeper of resource liveness.
//!
//! Each resource kind the engine names by identifier (buffers, images, image
//! views, samplers) lives in a [`ResourceTable`]: a bounded arena of slots,
//! each tagged with a generation counter. An identifier is valid exactly
//! while its slot is live under the same generation; destroying a resource
//! bumps the slot's generation, so a recycled slot never revalidates a stale
//! identifier. Resource kinds the engine names by opaque handle draw their
//! handles from a counter that never hands the same value out twice.

use vstd::prelude::*;

use crate::command_recorder::{CommandRecorder, CommandRecorderInfo};
use crate::pipeline::{ComputePipelineInfo, RasterPipelineInfo};
use crate::swapchain::SwapchainInfo;
use crate::types::{
    AllocateInfo, BinarySemaphore, Buffer, BufferId, BufferInfo, ComputePipeline, Event, Image,
    ImageId, ImageInfo, ImageView, ImageViewId, ImageViewInfo, MemoryBlock, MemoryBlockInfo,
    RasterPipeline, Sampler, SamplerId, SamplerInfo, SmallString, Swapchain, TimelineQueryPool,
    TimelineSemaphore, RESULT_SUCCESS,
};

verus! {

/// The kind of physical device behind a logical device, mirroring the
/// engine's device-type enumeration.
#[derive(Clone, Copy, Debug, PartialEq, Eq, Structural)]
pub enum DeviceType {
    Other,
    IntegratedGpu,
    DiscreteGpu,
    VirtualGpu,
    Cpu,
}

impl DeviceType {
    /// The native engine's integer value for this variant.
    pub open spec fn code_spec(self) -> i32 {
        match self {
            DeviceType::Other => 0,
            DeviceType::IntegratedGpu => 1,
            DeviceType::DiscreteGpu => 2,
            DeviceType::VirtualGpu => 3,
            DeviceType::Cpu => 4,
        }
    }

    /// Translate this variant to the native engine's integer value.
    pub fn code(self) -> (r: i32)
        ensures
            r == self.code_spec(),
    {
        match self {
            DeviceType::Other => 0,
            DeviceType::IntegratedGpu => 1,
            DeviceType::DiscreteGpu => 2,
            DeviceType::VirtualGpu => 3,
            DeviceType::Cpu => 4,
        }
    }
}

pub const DEVICE_FLAG_BUFFER_DEVICE_ADDRESS_CAPTURE_REPLAY_BIT: u32 = 0x1;

pub const DEVICE_FLAG_CONSERVATIVE_RASTERIZATION: u32 = 0x2;

pub const DEVICE_FLAG_MESH_SHADER_BIT: u32 = 0x4;

pub const DEVICE_FLAG_SHADER_ATOMIC64: u32 = 0x8;

pub const DEVICE_FLAG_IMAGE_ATOMIC64: u32 = 0x10;

pub const DEVICE_FLAG_VK_MEMORY_MODEL: u32 = 0x20;

/// Optional device capabilities requested at creation; one bit per capability.
#[derive(Clone, Copy, Debug, PartialEq, Eq, Structural)]
pub struct DeviceFlags {
    pub bits: u32,
}

impl DeviceFlags {
    /// The set with no bits raised.
    pub fn empty() -> (r: DeviceFlags)
        ensures
            r.bits == 0,
    {
        DeviceFlags { bits: 0 }
    }

    /// The set holding exactly the given bits.
    pub fn from_bits(bits: u32) -> (r: DeviceFlags)
        ensures
            r.bits == bits,
    {
        DeviceFlags { bits }
    }

    /// Raise every bit that is raised in either set.
    pub fn union(self, other: DeviceFlags) -> (r: DeviceFlags)
        ensures
            r.bits == self.bits | other.bits,
    {
        DeviceFlags { bits: self.bits | other.bits }
    }

    /// Keep only the bits raised in both sets.
    pub fn intersection(self, other: DeviceFlags) -> (r: DeviceFlags)
        ensures
            r.bits == self.bits & other.bits,
    {
        DeviceFlags { bits: self.bits & other.bits }
    }

    /// Whether every bit of `other` is raised in `self`.
    pub fn contains(self, other: DeviceFlags) -> (r: bool)
        ensures
            r == (self.bits & other.bits == other.bits),
    {
        self.bits & other.bits == other.bits
    }
}

impl Default for DeviceFlags {
    /// The default capability set enables buffer-device-address
    /// capture/replay and nothing else.
    fn default() -> (r: DeviceFlags)
        ensures
            r.bits == DEVICE_FLAG_BUFFER_DEVICE_ADDRESS_CAPTURE_REPLAY_BIT,
    {
        DeviceFlags { bits: DEVICE_FLAG_BUFFER_DEVICE_ADDRESS_CAPTURE_REPLAY_BIT }
    }
}

/// Creation descriptor for a logical device: requested capabilities,
/// resource-count budgets, and a debug name. Physical-device selection is a
/// native callback and is supplied where the native call is made.
#[derive(Clone, Copy, Debug)]
pub struct DeviceInfo {
    pub flags: DeviceFlags,
    pub max_allowed_images: u32,
    pub max_allowed_buffers: u32,
    pub max_allowed_samplers: u32,
    pub name: SmallString,
}

impl Default for DeviceInfo {
    /// The out-of-the-box device: buffer-device-address capture/replay
    /// enabled, budgets of 10000 images, 10000 buffers and 400 samplers,
    /// and an empty debug name.
    fn default() -> (r: DeviceInfo)
        ensures
            r.flags.bits == DEVICE_FLAG_BUFFER_DEVICE_ADDRESS_CAPTURE_REPLAY_BIT,
            r.max_allowed_images == 10000,
            r.max_allowed_buffers == 10000,
            r.max_allowed_samplers == 400,
            r.name@ == Seq::<u8>::empty(),
    {
        DeviceInfo {
            flags: DeviceFlags::default(),
            max_allowed_images: 10000,
            max_allowed_buffers: 10000,
            max_allowed_samplers: 400,
            name: SmallString::default(),
        }
    }
}

/// One slot of a resource table: whether a resource currently occupies it,
/// and the generation under which the slot was last handed out.
#[derive(Clone, Copy, Debug, PartialEq, Eq, Structural)]
pub(crate) struct ResourceSlot {
    pub(crate) live: bool,
    pub(crate) version: u64,
}

/// A bounded arena of generation-tagged slots: the device's record of which
/// resource identifiers of one kind are currently valid.
///
/// An identifier pairs a slot index with a generation. Acquiring marks a
/// slot live under its current generation; releasing clears it and bumps
/// the generation, so the released identifier can never become valid again.
/// A slot whose generation counter is exhausted is retired rather than
/// reused.
#[derive(Clone, Debug)]
pub struct ResourceTable {
    slots: Vec<ResourceSlot>,
    cap: u32,
}

impl ResourceTable {
    /// The bound on how many slots this table may ever hold.
    pub closed spec fn cap_spec(self) -> u32 {
        self.cap
    }

    /// How many slots have been brought into use so far.
    pub closed spec fn slots_len(self) -> nat {
        self.slots@.len()
    }

    /// The generation counter of the given slot.
    pub closed spec fn slot_version(self, index: int) -> u64 {
        self.slots@[index].version
    }

    /// Whether a resource currently occupies the given slot.
    pub closed spec fn slot_live(self, index: int) -> bool {
        self.slots@[index].live
    }

    /// Whether the identifier `(index, version)` currently names a live
    /// resource: its slot exists, is occupied, and carries that generation.
    pub open spec fn valid_spec(self, index: u32, version: u64) -> bool {
        &&& (index as nat) < self.slots_len()
        &&& self.slot_live(index as int)
        &&& self.slot_version(index as int) == version
    }

    /// Whether the slot may be handed out again: free, with room left on
    /// its generation counter.
    pub open spec fn slot_reusable(self, index: int) -> bool {
        !self.slot_live(index) && self.slot_version(index) < u64::MAX
    }

    /// Whether another resource can be brought into this table: some slot
    /// is reusable, or the table has not reached its bound.
    pub open spec fn can_allocate(self) -> bool {
        ||| exists|i: int| 0 <= i < self.slots_len() && self.slot_reusable(i)
        ||| self.slots_len() < self.cap_spec()
    }

    /// The table never holds more slots than its bound.
    pub open spec fn wf(self) -> bool {
        self.slots_len() <= self.cap_spec()
    }

    /// How acquiring relates the table before to the table after, when it
    /// hands out the identifier `(index, version)`: the identifier is
    /// valid afterwards and was not valid before, it reuses an existing
    /// slot under that slot's generation or opens one new slot at
    /// generation one, no other identifier's validity changes, the bound
    /// stands, and no slot's generation moves backwards.
    pub open spec fn acquire_transition(
        pre: ResourceTable,
        post: ResourceTable,
        index: u32,
        version: u64,
    ) -> bool {
        &&& post.cap_spec() == pre.cap_spec()
        &&& post.valid_spec(index, version)
        &&& !pre.valid_spec(index, version)
        &&& (index as nat) <= pre.slots_len()
        &&& (index as nat) < pre.slots_len() ==> version == pre.slot_version(index as int)
                && post.slots_len() == pre.slots_len()
        &&& (index as nat) == pre.slots_len() ==> version == 1 && post.slots_len()
                == pre.slots_len() + 1
        &&& forall|j: u32, w: u64|
            !(j == index && w == version) ==> post.valid_spec(j, w) == pre.valid_spec(j, w)
        &&& forall|j: int|
            0 <= j < pre.slots_len() ==> post.slot_version(j) >= pre.slot_version(j)
    }

    /// How releasing relates the table before to the table after, when it
    /// takes the identifier `(index, version)` out: the identifier is
    /// invalid afterwards and its slot's generation has moved past its
    /// own, so it can never be handed out again; no other identifier's
    /// validity changes, the bound and slot count stand, and no slot's
    /// generation moves backwards.
    pub open spec fn release_transition(
        pre: ResourceTable,
        post: ResourceTable,
        index: u32,
        version: u64,
    ) -> bool {
        &&& post.cap_spec() == pre.cap_spec()
        &&& post.slots_len() == pre.slots_len()
        &&& !post.valid_spec(index, version)
        &&& !post.slot_live(index as int)
        &&& version < u64::MAX ==> post.slot_version(index as int) > version
        &&& forall|j: u32, w: u64|
            !(j == index && w == version) ==> post.valid_spec(j, w) == pre.valid_spec(j, w)
        &&& forall|j: int|
            0 <= j < pre.slots_len() ==> post.slot_version(j) >= pre.slot_version(j)
    }

    /// An empty table bounded by `cap`: no identifier is valid in it.
    pub fn new(cap: u32) -> (r: ResourceTable)
        ensures
            r.wf(),
            r.cap_spec() == cap,
            r.slots_len() == 0,
            forall|i: u32, v: u64| !r.valid_spec(i, v),
    {
        ResourceTable { slots: Vec::new(), cap }
    }

    /// Bring a resource into the table. Succeeds exactly while the table
    /// can still allocate, and then yields an identifier that is valid
    /// afterwards, was not valid before, and is the only identifier whose
    /// validity changed. Generations never move backwards.
    pub fn acquire(&mut self) -> (r: Option<(u32, u64)>)
        requires
            old(self).wf(),
        ensures
            final(self).wf(),
            r is Some <==> old(self).can_allocate(),
            r is None ==> *final(self) == *old(self),
            r matches Some((i, v)) ==> ResourceTable::acquire_transition(
                *old(self),
                *final(self),
                i,
                v,
            ),
    {
        let ghost pre = *self;
        let mut i: usize = 0;
        let n = self.slots.len();
        proof {
            assert(n <= self.cap);
        }
        while i < n
            invariant
                pre == *old(self),
                *self == pre,
                n == self.slots@.len(),
                n <= self.cap,
                i <= n,
                forall|j: int| 0 <= j < i ==> !self.slot_reusable(j),
            decreases n - i,
        {
            let slot = self.slots[i];
            if !slot.live && slot.version < u64::MAX {
                let version = slot.version;
                self.slots.set(i, ResourceSlot { live: true, version });
                proof {
                    assert(pre.slot_reusable(i as int));
                }
                return Some((i as u32, version));
            }
            i += 1;
        }
        if self.slots.len() < self.cap as usize {
            self.slots.push(ResourceSlot { live: true, version: 1 });
            let index = self.slots.len() - 1;
            return Some((index as u32, 1));
        }
        proof {
            assert(forall|j: int| 0 <= j < self.slots@.len() ==> !self.slot_reusable(j));
            assert(!self.can_allocate());
        }
        None
    }

    /// Whether the identifier `(index, version)` names a live resource.
    pub fn is_valid(&self, index: u32, version: u64) -> (r: bool)
        ensures
            r == self.valid_spec(index, version),
    {
        if (index as usize) < self.slots.len() {
            let slot = self.slots[index as usize];
            slot.live && slot.version == version
        } else {
            false
        }
    }

    /// Take the resource named by `(index, version)` out of the table.
    /// Reports whether the identifier was valid; afterwards it is not, no
    /// other identifier's validity changed, and the slot's generation has
    /// moved past `version`, so the identifier can never be handed out
    /// again.
    pub fn release(&mut self, index: u32, version: u64) -> (r: bool)
        requires
            old(self).wf(),
        ensures
            final(self).wf(),
            r == old(self).valid_spec(index, version),
            !final(self).valid_spec(index, version),
            !r ==> *final(self) == *old(self),
            r ==> ResourceTable::release_transition(*old(self), *final(self), index, version),
    {
        let ghost pre = *self;
        if (index as usize) < self.slots.len() {
            let slot = self.slots[index as usize];
            if slot.live && slot.version == version {
                let bumped = if version < u64::MAX {
                    version + 1
                } else {
                    version
                };
                self.slots.set(index as usize, ResourceSlot { live: false, version: bumped });
                return true;
            }
        }
        false
    }
}

/// Creation descriptor for a binary semaphore: only a debug name.
#[derive(Clone, Copy, Debug)]
pub struct BinarySemaphoreInfo {
    pub name: SmallString,
}

/// Creation descriptor for a timeline semaphore: its starting value and a
/// debug name.
#[derive(Clone, Copy, Debug)]
pub struct TimelineSemaphoreInfo {
    pub initial_value: u64,
    pub name: SmallString,
}

/// Creation descriptor for an event: only a debug name.
#[derive(Clone, Copy, Debug)]
pub struct EventInfo {
    pub name: SmallString,
}

/// A logical GPU device: the exclusive factory for GPU resources and the
/// record of which resource identifiers are live.
///
/// Identifier-named resources (buffers, images, image views, samplers) are
/// tracked in one generation-tagged [`ResourceTable`] each, bounded by the
/// budgets of the creating [`DeviceInfo`]; image views share the image
/// budget. Handle-named resources draw their handles from a counter that
/// starts at one and never repeats a value.
#[derive(Clone, Debug)]
pub struct Device {
    info: DeviceInfo,
    buffers: ResourceTable,
    images: ResourceTable,
    image_views: ResourceTable,
    samplers: ResourceTable,
    next_handle: u64,
}

impl Device {
    /// The descriptor this device was created with.
    pub closed spec fn info_spec(self) -> DeviceInfo {
        self.info
    }

    /// The table tracking buffer identifiers.
    pub closed spec fn buffers_spec(self) -> ResourceTable {
        self.buffers
    }

    /// The table tracking image identifiers.
    pub closed spec fn images_spec(self) -> ResourceTable {
        self.images
    }

    /// The table tracking image-view identifiers.
    pub closed spec fn image_views_spec(self) -> ResourceTable {
        self.image_views
    }

    /// The table tracking sampler identifiers.
    pub closed spec fn samplers_spec(self) -> ResourceTable {
        self.samplers
    }

    /// The next opaque handle value to be handed out.
    pub closed spec fn next_handle_spec(self) -> u64 {
        self.next_handle
    }

    /// Whether the given buffer identifier names a live buffer.
    pub open spec fn buffer_valid_spec(self, id: BufferId) -> bool {
        self.buffers_spec().valid_spec(id.index, id.version)
    }

    /// Whether the given image identifier names a live image.
    pub open spec fn image_valid_spec(self, id: ImageId) -> bool {
        self.images_spec().valid_spec(id.index, id.version)
    }

    /// Whether the given image-view identifier names a live image view.
    pub open spec fn image_view_valid_spec(self, id: ImageViewId) -> bool {
        self.image_views_spec().valid_spec(id.index, id.version)
    }

    /// Whether the given sampler identifier names a live sampler.
    pub open spec fn sampler_valid_spec(self, id: SamplerId) -> bool {
        self.samplers_spec().valid_spec(id.index, id.version)
    }

    /// The device's tables are bounded by the budgets of its descriptor,
    /// and the handle counter has moved past zero.
    pub open spec fn wf(self) -> bool {
        &&& self.buffers_spec().wf()
        &&& self.images_spec().wf()
        &&& self.image_views_spec().wf()
        &&& self.samplers_spec().wf()
        &&& self.buffers_spec().cap_spec() == self.info_spec().max_allowed_buffers
        &&& self.images_spec().cap_spec() == self.info_spec().max_allowed_images
        &&& self.image_views_spec().cap_spec() == self.info_spec().max_allowed_images
        &&& self.samplers_spec().cap_spec() == self.info_spec().max_allowed_samplers
        &&& self.next_handle_spec() >= 1
    }

    /// A fresh device under the given descriptor: every resource table is
    /// empty, so no identifier is valid yet.
    pub fn new(info: &DeviceInfo) -> (r: Device)
        ensures
            r.wf(),
            r.info_spec() == *info,
            r.buffers_spec().slots_len() == 0,
            r.images_spec().slots_len() == 0,
            r.image_views_spec().slots_len() == 0,
            r.samplers_spec().slots_len() == 0,
            forall|id: BufferId| !r.buffer_valid_spec(id),
            forall|id: ImageId| !r.image_valid_spec(id),
            forall|id: ImageViewId| !r.image_view_valid_spec(id),
            forall|id: SamplerId| !r.sampler_valid_spec(id),
            r.next_handle_spec() == 1,
    {
        Device {
            info: *info,
            buffers: ResourceTable::new(info.max_allowed_buffers),
            images: ResourceTable::new(info.max_allowed_images),
            image_views: ResourceTable::new(info.max_allowed_images),
            samplers: ResourceTable::new(info.max_allowed_samplers),
            next_handle: 1,
        }
    }

    /// The descriptor this device was created with.
    pub fn info(&self) -> (r: &DeviceInfo)
        ensures
            *r == self.info_spec(),
    {
        &self.info
    }

    /// Record a new buffer. Succeeds exactly while the buffer budget has
    /// room, and then yields a buffer whose identifier is valid afterwards
    /// and was not valid before; no other identifier's validity changes.
    pub fn create_buffer(&mut self, info: &BufferInfo) -> (r: Option<Buffer>)
        requires
            old(self).wf(),
        ensures
            final(self).wf(),
            final(self).info_spec() == old(self).info_spec(),
            final(self).images_spec() == old(self).images_spec(),
            final(self).image_views_spec() == old(self).image_views_spec(),
            final(self).samplers_spec() == old(self).samplers_spec(),
            final(self).next_handle_spec() == old(self).next_handle_spec(),
            r is Some <==> old(self).buffers_spec().can_allocate(),
            r is None ==> *final(self) == *old(self),
            r matches Some(b) ==> ResourceTable::acquire_transition(
                old(self).buffers_spec(),
                final(self).buffers_spec(),
                b.id_spec().index,
                b.id_spec().version,
            ),
    {
        let _ = info;
        match self.buffers.acquire() {
            Some((index, version)) => Some(Buffer { id: BufferId { index, version } }),
            None => None,
        }
    }

    /// Take the buffer named by `buffer` out of the device. Reports whether
    /// the identifier was valid; afterwards it is not, and its slot's
    /// generation has moved on, so the same identifier is never handed out
    /// again. No other identifier's validity changes.
    pub fn destroy_buffer(&mut self, buffer: BufferId) -> (r: bool)
        requires
            old(self).wf(),
        ensures
            final(self).wf(),
            final(self).info_spec() == old(self).info_spec(),
            final(self).images_spec() == old(self).images_spec(),
            final(self).image_views_spec() == old(self).image_views_spec(),
            final(self).samplers_spec() == old(self).samplers_spec(),
            final(self).next_handle_spec() == old(self).next_handle_spec(),
            r == old(self).buffer_valid_spec(buffer),
            !final(self).buffer_valid_spec(buffer),
            !r ==> *final(self) == *old(self),
            r ==> ResourceTable::release_transition(
                old(self).buffers_spec(),
                final(self).buffers_spec(),
                buffer.index,
                buffer.version,
            ),
    {
        self.buffers.release(buffer.index, buffer.version)
    }

    /// Whether the given buffer identifier names a live buffer of this
    /// device. An identifier whose buffer was destroyed reports false,
    /// also after its slot is recycled.
    pub fn is_buffer_valid(&self, buffer: BufferId) -> (r: bool)
        ensures
            r == self.buffer_valid_spec(buffer),
    {
        self.buffers.is_valid(buffer.index, buffer.version)
    }

    /// Record a new image; the image counterpart of [`Device::create_buffer`].
    pub fn create_image(&mut self, info: &ImageInfo) -> (r: Option<Image>)
        requires
            old(self).wf(),
        ensures
            final(self).wf(),
            final(self).info_spec() == old(self).info_spec(),
            final(self).buffers_spec() == old(self).buffers_spec(),
            final(self).image_views_spec() == old(self).image_views_spec(),
            final(self).samplers_spec() == old(self).samplers_spec(),
            final(self).next_handle_spec() == old(self).next_handle_spec(),
            r is Some <==> old(self).images_spec().can_allocate(),
            r is None ==> *final(self) == *old(self),
            r matches Some(b) ==> ResourceTable::acquire_transition(
                old(self).images_spec(),
                final(self).images_spec(),
                b.id_spec().index,
                b.id_spec().version,
            ),
    {
        let _ = info;
        match self.images.acquire() {
            Some((index, version)) => Some(Image { id: ImageId { index, version } }),
            None => None,
        }
    }

    /// Take the image named by `image` out of the device; the image
    /// counterpart of [`Device::destroy_buffer`].
    pub fn destroy_image(&mut self, image: ImageId) -> (r: bool)
        requires
            old(self).wf(),
        ensures
            final(self).wf(),
            final(self).info_spec() == old(self).info_spec(),
            final(self).buffers_spec() == old(self).buffers_spec(),
            final(self).image_views_spec() == old(self).image_views_spec(),
            final(self).samplers_spec() == old(self).samplers_spec(),
            final(self).next_handle_spec() == old(self).next_handle_spec(),
            r == old(self).image_valid_spec(image),
            !final(self).image_valid_spec(image),
            !r ==> *final(self) == *old(self),
            r ==> ResourceTable::release_transition(
                old(self).images_spec(),
                final(self).images_spec(),
                image.index,
                image.version,
            ),
    {
        self.images.release(image.index, image.version)
    }

    /// Whether the given image identifier names a live image of this device.
    pub fn is_image_valid(&self, image: ImageId) -> (r: bool)
        ensures
            r == self.image_valid_spec(image),
    {
        self.images.is_valid(image.index, image.version)
    }

    /// Record a new image view; the view counterpart of
    /// [`Device::create_buffer`]. The view budget is the image budget.
    pub fn create_image_view(&mut self, info: &ImageViewInfo) -> (r: Option<ImageView>)
        requires
            old(self).wf(),
        ensures
            final(self).wf(),
            final(self).info_spec() == old(self).info_spec(),
            final(self).buffers_spec() == old(self).buffers_spec(),
            final(self).images_spec() == old(self).images_spec(),
            final(self).samplers_spec() == old(self).samplers_spec(),
            final(self).next_handle_spec() == old(self).next_handle_spec(),
            r is Some <==> old(self).image_views_spec().can_allocate(),
            r is None ==> *final(self) == *old(self),
            r matches Some(b) ==> ResourceTable::acquire_transition(
                old(self).image_views_spec(),
                final(self).image_views_spec(),
                b.id_spec().index,
                b.id_spec().version,
            ),
    {
        let _ = info;
        match self.image_views.acquire() {
            Some((index, version)) => Some(ImageView { id: ImageViewId { index, version } }),
            None => None,
        }
    }

    /// Take the image view named by `image_view` out of the device; the
    /// view counterpart of [`Device::destroy_buffer`].
    pub fn destroy_image_view(&mut self, image_view: ImageViewId) -> (r: bool)
        requires
            old(self).wf(),
        ensures
            final(self).wf(),
            final(self).info_spec() == old(self).info_spec(),
            final(self).buffers_spec() == old(self).buffers_spec(),
            final(self).images_spec() == old(self).images_spec(),
            final(self).samplers_spec() == old(self).samplers_spec(),
            final(self).next_handle_spec() == old(self).next_handle_spec(),
            r == old(self).image_view_valid_spec(image_view),
            !final(self).image_view_valid_spec(image_view),
            !r ==> *final(self) == *old(self),
            r ==> ResourceTable::release_transition(
                old(self).image_views_spec(),
                final(self).image_views_spec(),
                image_view.index,
                image_view.version,
            ),
    {
        self.image_views.release(image_view.index, image_view.version)
    }

    /// Whether the given image-view identifier names a live image view of
    /// this device.
    pub fn is_image_view_valid(&self, image_view: ImageViewId) -> (r: bool)
        ensures
            r == self.image_view_valid_spec(image_view),
    {
        self.image_views.is_valid(image_view.index, image_view.version)
    }

    /// Record a new sampler; the sampler counterpart of
    /// [`Device::create_buffer`].
    pub fn create_sampler(&mut self, info: &SamplerInfo) -> (r: Option<Sampler>)
        requires
            old(self).wf(),
        ensures
            final(self).wf(),
            final(self).info_spec() == old(self).info_spec(),
            final(self).buffers_spec() == old(self).buffers_spec(),
            final(self).images_spec() == old(self).images_spec(),
            final(self).image_views_spec() == old(self).image_views_spec(),
            final(self).next_handle_spec() == old(self).next_handle_spec(),
            r is Some <==> old(self).samplers_spec().can_allocate(),
            r is None ==> *final(self) == *old(self),
            r matches Some(b) ==> ResourceTable::acquire_transition(
                old(self).samplers_spec(),
                final(self).samplers_spec(),
                b.id_spec().index,
                b.id_spec().version,
            ),
    {
        let _ = info;
        match self.samplers.acquire() {
            Some((index, version)) => Some(Sampler { id: SamplerId { index, version } }),
            None => None,
        }
    }

    /// Take the sampler named by `sampler` out of the device; the sampler
    /// counterpart of [`Device::destroy_buffer`].
    pub fn destroy_sampler(&mut self, sampler: SamplerId) -> (r: bool)
        requires
            old(self).wf(),
        ensures
            final(self).wf(),
            final(self).info_spec() == old(self).info_spec(),
            final(self).buffers_spec() == old(self).buffers_spec(),
            final(self).images_spec() == old(self).images_spec(),
            final(self).image_views_spec() == old(self).image_views_spec(),
            final(self).next_handle_spec() == old(self).next_handle_spec(),
            r == old(self).sampler_valid_spec(sampler),
            !final(self).sampler_valid_spec(sampler),
            !r ==> *final(self) == *old(self),
            r ==> ResourceTable::release_transition(
                old(self).samplers_spec(),
                final(self).samplers_spec(),
                sampler.index,
                sampler.version,
            ),
    {
        self.samplers.release(sampler.index, sampler.version)
    }

    /// Whether the given sampler identifier names a live sampler of this
    /// device.
    pub fn is_sampler_valid(&self, sampler: SamplerId) -> (r: bool)
        ensures
            r == self.sampler_valid_spec(sampler),
    {
        self.samplers.is_valid(sampler.index, sampler.version)
    }
}

impl Device {
    /// Hand out the next opaque handle. Succeeds while the counter has
    /// room; the handle is at least one and never handed out twice.
    fn alloc_handle(&mut self) -> (r: Option<u64>)
        requires
            old(self).wf(),
        ensures
            final(self).wf(),
            final(self).info_spec() == old(self).info_spec(),
            final(self).buffers_spec() == old(self).buffers_spec(),
            final(self).images_spec() == old(self).images_spec(),
            final(self).image_views_spec() == old(self).image_views_spec(),
            final(self).samplers_spec() == old(self).samplers_spec(),
            r is Some <==> old(self).next_handle_spec() < u64::MAX,
            r is None ==> *final(self) == *old(self),
            r matches Some(h) ==> h == old(self).next_handle_spec() && h >= 1 && final(self).next_handle_spec() == old(self).next_handle_spec() + 1,
    {
        if self.next_handle < u64::MAX {
            let h = self.next_handle;
            self.next_handle = self.next_handle + 1;
            Some(h)
        } else {
            None
        }
    }

    /// Create a standalone memory block. Succeeds while handles remain;
    /// the block's handle is fresh: nonzero and never handed out before.
    pub fn create_memory(&mut self, info: &MemoryBlockInfo) -> (r: Option<MemoryBlock>)
        requires
            old(self).wf(),
        ensures
            final(self).wf(),
            final(self).info_spec() == old(self).info_spec(),
            final(self).buffers_spec() == old(self).buffers_spec(),
            final(self).images_spec() == old(self).images_spec(),
            final(self).image_views_spec() == old(self).image_views_spec(),
            final(self).samplers_spec() == old(self).samplers_spec(),
            r is Some <==> old(self).next_handle_spec() < u64::MAX,
            r is None ==> *final(self) == *old(self),
            r matches Some(h) ==> h.id_spec() == old(self).next_handle_spec() && h.id_spec() >= 1
                && final(self).next_handle_spec() == old(self).next_handle_spec() + 1,
    {
        let _ = info;
        match self.alloc_handle() {
            Some(handle) => Some(MemoryBlock { handle }),
            None => None,
        }
    }

    /// Create a rasterization pipeline from its descriptor, which may name
    /// at most eight color attachments. Succeeds while handles remain; the
    /// pipeline's handle is fresh.
    pub fn create_raster_pipeline(&mut self, info: &RasterPipelineInfo) -> (r: Option<
        RasterPipeline,
    >)
        requires
            old(self).wf(),
            info.wf(),
        ensures
            final(self).wf(),
            final(self).info_spec() == old(self).info_spec(),
            final(self).buffers_spec() == old(self).buffers_spec(),
            final(self).images_spec() == old(self).images_spec(),
            final(self).image_views_spec() == old(self).image_views_spec(),
            final(self).samplers_spec() == old(self).samplers_spec(),
            r is Some <==> old(self).next_handle_spec() < u64::MAX,
            r is None ==> *final(self) == *old(self),
            r matches Some(h) ==> h.id_spec() == old(self).next_handle_spec() && h.id_spec() >= 1
                && final(self).next_handle_spec() == old(self).next_handle_spec() + 1,
    {
        let _ = info;
        match self.alloc_handle() {
            Some(handle) => Some(RasterPipeline { handle }),
            None => None,
        }
    }

    /// Create a compute pipeline from its descriptor. Succeeds while
    /// handles remain; the pipeline's handle is fresh.
    pub fn create_compute_pipeline(&mut self, info: &ComputePipelineInfo) -> (r: Option<
        ComputePipeline,
    >)
        requires
            old(self).wf(),
        ensures
            final(self).wf(),
            final(self).info_spec() == old(self).info_spec(),
            final(self).buffers_spec() == old(self).buffers_spec(),
            final(self).images_spec() == old(self).images_spec(),
            final(self).image_views_spec() == old(self).image_views_spec(),
            final(self).samplers_spec() == old(self).samplers_spec(),
            r is Some <==> old(self).next_handle_spec() < u64::MAX,
            r is None ==> *final(self) == *old(self),
            r matches Some(h) ==> h.id_spec() == old(self).next_handle_spec() && h.id_spec() >= 1
                && final(self).next_handle_spec() == old(self).next_handle_spec() + 1,
    {
        let _ = info;
        match self.alloc_handle() {
            Some(handle) => Some(ComputePipeline { handle }),
            None => None,
        }
    }

    /// Create a swapchain over a native window from its descriptor.
    /// Succeeds while handles remain; the swapchain's handle is fresh.
    pub fn create_swapchain(&mut self, info: &SwapchainInfo) -> (r: Option<Swapchain>)
        requires
            old(self).wf(),
        ensures
            final(self).wf(),
            final(self).info_spec() == old(self).info_spec(),
            final(self).buffers_spec() == old(self).buffers_spec(),
            final(self).images_spec() == old(self).images_spec(),
            final(self).image_views_spec() == old(self).image_views_spec(),
            final(self).samplers_spec() == old(self).samplers_spec(),
            r is Some <==> old(self).next_handle_spec() < u64::MAX,
            r is None ==> *final(self) == *old(self),
            r matches Some(h) ==> h.id_spec() == old(self).next_handle_spec() && h.id_spec() >= 1
                && final(self).next_handle_spec() == old(self).next_handle_spec() + 1,
    {
        let _ = info;
        match self.alloc_handle() {
            Some(handle) => Some(Swapchain { handle }),
            None => None,
        }
    }

    /// Create a command recorder to record GPU commands onto. Succeeds
    /// while handles remain; the recorder's handle is fresh.
    pub fn create_command_recorder(&mut self, info: &CommandRecorderInfo) -> (r: Option<
        CommandRecorder,
    >)
        requires
            old(self).wf(),
        ensures
            final(self).wf(),
            final(self).info_spec() == old(self).info_spec(),
            final(self).buffers_spec() == old(self).buffers_spec(),
            final(self).images_spec() == old(self).images_spec(),
            final(self).image_views_spec() == old(self).image_views_spec(),
            final(self).samplers_spec() == old(self).samplers_spec(),
            r is Some <==> old(self).next_handle_spec() < u64::MAX,
            r is None ==> *final(self) == *old(self),
            r matches Some(h) ==> h.id_spec() == old(self).next_handle_spec() && h.id_spec() >= 1
                && final(self).next_handle_spec() == old(self).next_handle_spec() + 1,
    {
        let _ = info;
        match self.alloc_handle() {
            Some(handle) => Some(CommandRecorder { handle }),
            None => None,
        }
    }

    /// Create a binary semaphore. Succeeds while handles remain; the
    /// semaphore's handle is fresh.
    pub fn create_binary_semaphore(&mut self, info: &BinarySemaphoreInfo) -> (r: Option<
        BinarySemaphore,
    >)
        requires
            old(self).wf(),
        ensures
            final(self).wf(),
            final(self).info_spec() == old(self).info_spec(),
            final(self).buffers_spec() == old(self).buffers_spec(),
            final(self).images_spec() == old(self).images_spec(),
            final(self).image_views_spec() == old(self).image_views_spec(),
            final(self).samplers_spec() == old(self).samplers_spec(),
            r is Some <==> old(self).next_handle_spec() < u64::MAX,
            r is None ==> *final(self) == *old(self),
            r matches Some(h) ==> h.id_spec() == old(self).next_handle_spec() && h.id_spec() >= 1
                && final(self).next_handle_spec() == old(self).next_handle_spec() + 1,
    {
        let _ = info;
        match self.alloc_handle() {
            Some(handle) => Some(BinarySemaphore { handle }),
            None => None,
        }
    }

    /// Create a timeline semaphore. Succeeds while handles remain; the
    /// semaphore's handle is fresh.
    pub fn create_timeline_semaphore(&mut self, info: &TimelineSemaphoreInfo) -> (r: Option<
        TimelineSemaphore,
    >)
        requires
            old(self).wf(),
        ensures
            final(self).wf(),
            final(self).info_spec() == old(self).info_spec(),
            final(self).buffers_spec() == old(self).buffers_spec(),
            final(self).images_spec() == old(self).images_spec(),
            final(self).image_views_spec() == old(self).image_views_spec(),
            final(self).samplers_spec() == old(self).samplers_spec(),
            r is Some <==> old(self).next_handle_spec() < u64::MAX,
            r is None ==> *final(self) == *old(self),
            r matches Some(h) ==> h.id_spec() == old(self).next_handle_spec() && h.id_spec() >= 1
                && final(self).next_handle_spec() == old(self).next_handle_spec() + 1,
    {
        let _ = info;
        match self.alloc_handle() {
            Some(handle) => Some(TimelineSemaphore { handle }),
            None => None,
        }
    }

    /// Create an event. Succeeds while handles remain; the event's handle
    /// is fresh.
    pub fn create_event(&mut self, info: &EventInfo) -> (r: Option<Event>)
        requires
            old(self).wf(),
        ensures
            final(self).wf(),
            final(self).info_spec() == old(self).info_spec(),
            final(self).buffers_spec() == old(self).buffers_spec(),
            final(self).images_spec() == old(self).images_spec(),
            final(self).image_views_spec() == old(self).image_views_spec(),
            final(self).samplers_spec() == old(self).samplers_spec(),
            r is Some <==> old(self).next_handle_spec() < u64::MAX,
            r is None ==> *final(self) == *old(self),
            r matches Some(h) ==> h.id_spec() == old(self).next_handle_spec() && h.id_spec() >= 1
                && final(self).next_handle_spec() == old(self).next_handle_spec() + 1,
    {
        let _ = info;
        match self.alloc_handle() {
            Some(handle) => Some(Event { handle }),
            None => None,
        }
    }

    /// Create a timeline query pool from its descriptor. Succeeds while
    /// handles remain; the pool's handle is fresh.
    pub fn create_timeline_query_pool(&mut self, info: &AllocateInfo) -> (r: Option<
        TimelineQueryPool,
    >)
        requires
            old(self).wf(),
        ensures
            final(self).wf(),
            final(self).info_spec() == old(self).info_spec(),
            final(self).buffers_spec() == old(self).buffers_spec(),
            final(self).images_spec() == old(self).images_spec(),
            final(self).image_views_spec() == old(self).image_views_spec(),
            final(self).samplers_spec() == old(self).samplers_spec(),
            r is Some <==> old(self).next_handle_spec() < u64::MAX,
            r is None ==> *final(self) == *old(self),
            r matches Some(h) ==> h.id_spec() == old(self).next_handle_spec() && h.id_spec() >= 1
                && final(self).next_handle_spec() == old(self).next_handle_spec() + 1,
    {
        let _ = info;
        match self.alloc_handle() {
            Some(handle) => Some(TimelineQueryPool { handle }),
            None => None,
        }
    }
}

/// An identifier whose generation a slot has moved past is invalid, and —
/// since every table operation only grows slot generations, and a release
/// moves the slot's generation past the released identifier's — it stays
/// invalid under every later operation: a recycled slot never revalidates
/// a stale identifier.
pub proof fn lemma_passed_generation_never_valid(t: ResourceTable, index: u32, version: u64)
    requires
        (index as nat) < t.slots_len(),
        t.slot_version(index as int) > version,
    ensures
        !t.valid_spec(index, version),
{
}

/// Map a native result code to this layer's outcome: the sentinel success
/// code is the one and only non-error code, and any other code is handed
/// back raw for the caller to interpret.
pub fn check_result(code: i32) -> (r: Result<(), i32>)
    ensures
        r is Ok <==> code == RESULT_SUCCESS,
        r matches Err(c) ==> c == code,
{
    if code == RESULT_SUCCESS {
        Ok(())
    } else {
        Err(code)
    }
}

} // verus!
