//! Image descriptors: the geometric and structural description of an image
//! resource, and its projection to the fixed-layout raw descriptor the native
//! API consumes, with the handle of an optional backing buffer.

use vstd::prelude::*;

verus! {

/// The kind of memory object an image is created as.
///
/// Each variant corresponds to one `CL_MEM_OBJECT_*` enumerant of the native
/// API; the numeric codes are a fixed compatibility contract, given by
/// `mem_object_type_code`.
#[derive(Clone, Copy, Debug, PartialEq, Eq, Structural)]
pub enum MemObjectType {
    Buffer,
    Image2d,
    Image3d,
    Image2dArray,
    Image1d,
    Image1dArray,
    Image1dBuffer,
    Pipe,
}

/// The raw code of a memory-object type, as the native API numbers them.
pub open spec fn mem_object_type_code(image_type: MemObjectType) -> u32 {
    match image_type {
        MemObjectType::Buffer => 0x10F0,
        MemObjectType::Image2d => 0x10F1,
        MemObjectType::Image3d => 0x10F2,
        MemObjectType::Image2dArray => 0x10F3,
        MemObjectType::Image1d => 0x10F4,
        MemObjectType::Image1dArray => 0x10F5,
        MemObjectType::Image1dBuffer => 0x10F6,
        MemObjectType::Pipe => 0x10F7,
    }
}

/// The raw code of a memory-object type.
pub fn mem_object_type_to_u32(image_type: MemObjectType) -> (r: u32)
    ensures
        r == mem_object_type_code(image_type),
{
    match image_type {
        MemObjectType::Buffer => 0x10F0,
        MemObjectType::Image2d => 0x10F1,
        MemObjectType::Image3d => 0x10F2,
        MemObjectType::Image2dArray => 0x10F3,
        MemObjectType::Image1d => 0x10F4,
        MemObjectType::Image1dArray => 0x10F5,
        MemObjectType::Image1dBuffer => 0x10F6,
        MemObjectType::Pipe => 0x10F7,
    }
}

/// A buffer memory-object handle: the numeric value of the opaque, non-null
/// identifier the native API hands out for a buffer.
///
/// Holding a `Mem` does not own or extend the native object's lifetime; it is
/// a weak reference, and whoever passes the handle onward must keep the
/// native object alive for the duration of the calls that consume it.
#[derive(Clone, Copy, Debug)]
pub struct Mem {
    handle: u64,
}

impl Mem {
    /// A valid native handle is never null.
    #[verifier::type_invariant]
    pub closed spec fn inv(&self) -> bool {
        self.handle != 0
    }

    /// The handle's numeric value.
    pub closed spec fn spec_raw(&self) -> u64 {
        self.handle
    }

    /// Wraps a handle received from the native API; a valid handle is never
    /// null.
    pub fn from_raw(handle: u64) -> (r: Mem)
        requires
            handle != 0,
        ensures
            r.spec_raw() == handle,
    {
        Mem { handle }
    }

    /// The raw handle value, for handing back to the native API.
    pub fn as_raw(&self) -> (r: u64)
        ensures
            r == self.spec_raw(),
            r != 0,
    {
        proof {
            use_type_invariant(self);
        }
        self.handle
    }
}

/// A sub-region of an existing buffer: offset and size, both in bytes.
///
/// A plain value carrier; whether the region lies within the buffer and meets
/// the device's alignment is validated by the consumer, not here.
#[derive(Clone, Copy, Debug, PartialEq, Eq, Structural)]
pub struct BufferRegion {
    pub origin: usize,
    pub size: usize,
}

/// The raw image descriptor as the native ABI lays it out: one 4-byte type
/// code, six word-sized geometry and pitch fields, two 4-byte reserved
/// fields, and one word-sized buffer handle, null when absent.
#[derive(Clone, Copy, Debug, PartialEq, Eq, Structural)]
pub struct RawImageDescriptor {
    pub image_type: u32,
    pub image_width: usize,
    pub image_height: usize,
    pub image_depth: usize,
    pub image_array_size: usize,
    pub image_row_pitch: usize,
    pub image_slice_pitch: usize,
    pub num_mip_levels: u32,
    pub num_samples: u32,
    pub buffer: u64,
}

/// The geometric and structural description of an image: type, dimensions in
/// pixels, pitches in bytes, and an optional backing buffer.
///
/// The two reserved fields (mip levels, samples) are fixed at zero, as the
/// native API requires, and cannot be set by callers. The buffer reference is
/// weak: projecting the descriptor reads the handle at that moment, and the
/// caller must keep the buffer valid for as long as any native call consumes
/// the projection.
#[derive(Clone, Debug)]
pub struct ImageDescriptor {
    pub image_type: MemObjectType,
    pub image_width: usize,
    pub image_height: usize,
    pub image_depth: usize,
    pub image_array_size: usize,
    pub image_row_pitch: usize,
    pub image_slice_pitch: usize,
    num_mip_levels: u32,
    num_samples: u32,
    pub buffer: Option<Mem>,
}

/// The ghost image of a descriptor: every field, the reserved ones included.
pub struct ImageDescriptorView {
    pub image_type: MemObjectType,
    pub image_width: usize,
    pub image_height: usize,
    pub image_depth: usize,
    pub image_array_size: usize,
    pub image_row_pitch: usize,
    pub image_slice_pitch: usize,
    pub num_mip_levels: u32,
    pub num_samples: u32,
    pub buffer: Option<Mem>,
}

impl View for ImageDescriptor {
    type V = ImageDescriptorView;

    closed spec fn view(&self) -> ImageDescriptorView {
        ImageDescriptorView {
            image_type: self.image_type,
            image_width: self.image_width,
            image_height: self.image_height,
            image_depth: self.image_depth,
            image_array_size: self.image_array_size,
            image_row_pitch: self.image_row_pitch,
            image_slice_pitch: self.image_slice_pitch,
            num_mip_levels: self.num_mip_levels,
            num_samples: self.num_samples,
            buffer: self.buffer,
        }
    }
}

impl ImageDescriptor {
    /// Builds a descriptor from its geometry and optional backing buffer; the
    /// reserved fields are set to zero.
    pub fn new(
        image_type: MemObjectType,
        width: usize,
        height: usize,
        depth: usize,
        array_size: usize,
        row_pitch: usize,
        slc_pitch: usize,
        buffer: Option<Mem>,
    ) -> (r: ImageDescriptor)
        ensures
            r@ == (ImageDescriptorView {
                image_type,
                image_width: width,
                image_height: height,
                image_depth: depth,
                image_array_size: array_size,
                image_row_pitch: row_pitch,
                image_slice_pitch: slc_pitch,
                num_mip_levels: 0,
                num_samples: 0,
                buffer,
            }),
    {
        ImageDescriptor {
            image_type,
            image_width: width,
            image_height: height,
            image_depth: depth,
            image_array_size: array_size,
            image_row_pitch: row_pitch,
            image_slice_pitch: slc_pitch,
            num_mip_levels: 0,
            num_samples: 0,
            buffer,
        }
    }

    /// Projects the descriptor into the raw layout, field for field: the type
    /// becomes its raw code, the geometry and pitch fields carry over
    /// unchanged, and the buffer field becomes the referenced buffer's raw
    /// handle, or null where there is no buffer.
    ///
    /// The raw samples field is populated from the mip-levels value; both
    /// are fixed at zero, so the aliasing is presently unobservable.
    pub fn to_raw(&self) -> (r: RawImageDescriptor)
        ensures
            r.image_type == mem_object_type_code(self@.image_type),
            r.image_width == self@.image_width,
            r.image_height == self@.image_height,
            r.image_depth == self@.image_depth,
            r.image_array_size == self@.image_array_size,
            r.image_row_pitch == self@.image_row_pitch,
            r.image_slice_pitch == self@.image_slice_pitch,
            r.num_mip_levels == self@.num_mip_levels,
            r.num_samples == self@.num_mip_levels,
            self@.buffer matches Some(mem) ==> r.buffer == mem.spec_raw() && r.buffer != 0,
            self@.buffer is None ==> r.buffer == 0,
    {
        RawImageDescriptor {
            image_type: mem_object_type_to_u32(self.image_type),
            image_width: self.image_width,
            image_height: self.image_height,
            image_depth: self.image_depth,
            image_array_size: self.image_array_size,
            image_row_pitch: self.image_row_pitch,
            image_slice_pitch: self.image_slice_pitch,
            num_mip_levels: self.num_mip_levels,
            num_samples: self.num_mip_levels,
            buffer: match &self.buffer {
                Some(mem) => mem.as_raw(),
                None => 0,
            },
        }
    }
}

} // verus!
