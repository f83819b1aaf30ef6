//! Image formats: a (channel order, channel data type) pair, its validated
//! conversion to and from the raw integer codes fixed by the OpenCL API, and
//! the per-pixel byte size derived from the pair.

use vstd::prelude::*;

verus! {

/// How the channels of a pixel are arranged.
///
/// Each variant corresponds to one `CL_*` channel-order enumerant of the
/// native API; the numeric codes are a fixed compatibility contract, given by
/// `channel_order_code`.
#[derive(Clone, Copy, Debug, PartialEq, Eq, Structural)]
pub enum ImageChannelOrder {
    R,
    A,
    Rg,
    Ra,
    Rgb,
    Rgba,
    Bgra,
    Argb,
    Intensity,
    Luminance,
    Rx,
    Rgx,
    Rgbx,
    Depth,
    DepthStencil,
}

/// The numeric encoding of each channel of a pixel.
///
/// Each variant corresponds to one `CL_*` channel-data-type enumerant of the
/// native API; the numeric codes are a fixed compatibility contract, given by
/// `channel_data_type_code`.
#[derive(Clone, Copy, Debug, PartialEq, Eq, Structural)]
pub enum ImageChannelDataType {
    SnormInt8,
    SnormInt16,
    UnormInt8,
    UnormInt16,
    UnormShort565,
    UnormShort555,
    UnormInt101010,
    SignedInt8,
    SignedInt16,
    SignedInt32,
    UnsignedInt8,
    UnsignedInt16,
    UnsignedInt32,
    HalfFloat,
    Float,
    UnormInt24,
}

/// The raw image-format pair as the native API defines it: two 4-byte
/// unsigned integer codes.
#[derive(Clone, Copy, Debug, PartialEq, Eq, Structural)]
pub struct RawImageFormat {
    pub image_channel_order: u32,
    pub image_channel_data_type: u32,
}

/// A raw integer code that maps to no known enumerant; the offending code is
/// carried in the variant.
#[derive(Clone, Copy, Debug, PartialEq, Eq, Structural)]
pub enum ConversionError {
    ChannelOrder(u32),
    ChannelDataType(u32),
}

/// The raw code of a channel order, as the native API numbers them.
pub open spec fn channel_order_code(order: ImageChannelOrder) -> u32 {
    match order {
        ImageChannelOrder::R => 0x10B0,
        ImageChannelOrder::A => 0x10B1,
        ImageChannelOrder::Rg => 0x10B2,
        ImageChannelOrder::Ra => 0x10B3,
        ImageChannelOrder::Rgb => 0x10B4,
        ImageChannelOrder::Rgba => 0x10B5,
        ImageChannelOrder::Bgra => 0x10B6,
        ImageChannelOrder::Argb => 0x10B7,
        ImageChannelOrder::Intensity => 0x10B8,
        ImageChannelOrder::Luminance => 0x10B9,
        ImageChannelOrder::Rx => 0x10BA,
        ImageChannelOrder::Rgx => 0x10BB,
        ImageChannelOrder::Rgbx => 0x10BC,
        ImageChannelOrder::Depth => 0x10BD,
        ImageChannelOrder::DepthStencil => 0x10BE,
    }
}

/// The channel order a raw code stands for, or `None` where the code maps to
/// no known enumerant.
pub open spec fn channel_order_from_code(code: u32) -> Option<ImageChannelOrder> {
    if code == 0x10B0 {
        Some(ImageChannelOrder::R)
    } else if code == 0x10B1 {
        Some(ImageChannelOrder::A)
    } else if code == 0x10B2 {
        Some(ImageChannelOrder::Rg)
    } else if code == 0x10B3 {
        Some(ImageChannelOrder::Ra)
    } else if code == 0x10B4 {
        Some(ImageChannelOrder::Rgb)
    } else if code == 0x10B5 {
        Some(ImageChannelOrder::Rgba)
    } else if code == 0x10B6 {
        Some(ImageChannelOrder::Bgra)
    } else if code == 0x10B7 {
        Some(ImageChannelOrder::Argb)
    } else if code == 0x10B8 {
        Some(ImageChannelOrder::Intensity)
    } else if code == 0x10B9 {
        Some(ImageChannelOrder::Luminance)
    } else if code == 0x10BA {
        Some(ImageChannelOrder::Rx)
    } else if code == 0x10BB {
        Some(ImageChannelOrder::Rgx)
    } else if code == 0x10BC {
        Some(ImageChannelOrder::Rgbx)
    } else if code == 0x10BD {
        Some(ImageChannelOrder::Depth)
    } else if code == 0x10BE {
        Some(ImageChannelOrder::DepthStencil)
    } else {
        None
    }
}

/// The raw code of a channel data type, as the native API numbers them.
pub open spec fn channel_data_type_code(data_type: ImageChannelDataType) -> u32 {
    match data_type {
        ImageChannelDataType::SnormInt8 => 0x10D0,
        ImageChannelDataType::SnormInt16 => 0x10D1,
        ImageChannelDataType::UnormInt8 => 0x10D2,
        ImageChannelDataType::UnormInt16 => 0x10D3,
        ImageChannelDataType::UnormShort565 => 0x10D4,
        ImageChannelDataType::UnormShort555 => 0x10D5,
        ImageChannelDataType::UnormInt101010 => 0x10D6,
        ImageChannelDataType::SignedInt8 => 0x10D7,
        ImageChannelDataType::SignedInt16 => 0x10D8,
        ImageChannelDataType::SignedInt32 => 0x10D9,
        ImageChannelDataType::UnsignedInt8 => 0x10DA,
        ImageChannelDataType::UnsignedInt16 => 0x10DB,
        ImageChannelDataType::UnsignedInt32 => 0x10DC,
        ImageChannelDataType::HalfFloat => 0x10DD,
        ImageChannelDataType::Float => 0x10DE,
        ImageChannelDataType::UnormInt24 => 0x10DF,
    }
}

/// The channel data type a raw code stands for, or `None` where the code maps
/// to no known enumerant.
pub open spec fn channel_data_type_from_code(code: u32) -> Option<ImageChannelDataType> {
    if code == 0x10D0 {
        Some(ImageChannelDataType::SnormInt8)
    } else if code == 0x10D1 {
        Some(ImageChannelDataType::SnormInt16)
    } else if code == 0x10D2 {
        Some(ImageChannelDataType::UnormInt8)
    } else if code == 0x10D3 {
        Some(ImageChannelDataType::UnormInt16)
    } else if code == 0x10D4 {
        Some(ImageChannelDataType::UnormShort565)
    } else if code == 0x10D5 {
        Some(ImageChannelDataType::UnormShort555)
    } else if code == 0x10D6 {
        Some(ImageChannelDataType::UnormInt101010)
    } else if code == 0x10D7 {
        Some(ImageChannelDataType::SignedInt8)
    } else if code == 0x10D8 {
        Some(ImageChannelDataType::SignedInt16)
    } else if code == 0x10D9 {
        Some(ImageChannelDataType::SignedInt32)
    } else if code == 0x10DA {
        Some(ImageChannelDataType::UnsignedInt8)
    } else if code == 0x10DB {
        Some(ImageChannelDataType::UnsignedInt16)
    } else if code == 0x10DC {
        Some(ImageChannelDataType::UnsignedInt32)
    } else if code == 0x10DD {
        Some(ImageChannelDataType::HalfFloat)
    } else if code == 0x10DE {
        Some(ImageChannelDataType::Float)
    } else if code == 0x10DF {
        Some(ImageChannelDataType::UnormInt24)
    } else {
        None
    }
}

/// How many channels an order carries in the per-pixel size computation.
///
/// Orders absent from the native size table give 0, meaning "cannot
/// determine", not "zero-sized".
pub open spec fn channel_count(order: ImageChannelOrder) -> nat {
    match order {
        ImageChannelOrder::R => 1,
        ImageChannelOrder::A => 1,
        ImageChannelOrder::Rg => 2,
        ImageChannelOrder::Ra => 2,
        // Valid only under the packed short/int data types.
        ImageChannelOrder::Rgb => 1,
        ImageChannelOrder::Rgba => 4,
        ImageChannelOrder::Bgra => 4,
        ImageChannelOrder::Argb => 4,
        ImageChannelOrder::Intensity => 4,
        ImageChannelOrder::Luminance => 4,
        ImageChannelOrder::Rx => 2,
        ImageChannelOrder::Rgx => 4,
        ImageChannelOrder::Rgbx => 4,
        ImageChannelOrder::Depth => 0,
        ImageChannelOrder::DepthStencil => 0,
    }
}

/// How many bytes one channel of a data type occupies.
///
/// Data types absent from the native size table give 0, meaning "cannot
/// determine", not "zero-sized".
pub open spec fn channel_size(data_type: ImageChannelDataType) -> nat {
    match data_type {
        ImageChannelDataType::SnormInt8 => 1,
        ImageChannelDataType::SnormInt16 => 2,
        ImageChannelDataType::UnormInt8 => 1,
        ImageChannelDataType::UnormInt16 => 2,
        ImageChannelDataType::UnormShort565 => 2,
        ImageChannelDataType::UnormShort555 => 2,
        ImageChannelDataType::UnormInt101010 => 4,
        ImageChannelDataType::SignedInt8 => 1,
        ImageChannelDataType::SignedInt16 => 2,
        ImageChannelDataType::SignedInt32 => 4,
        ImageChannelDataType::UnsignedInt8 => 1,
        ImageChannelDataType::UnsignedInt16 => 2,
        ImageChannelDataType::UnsignedInt32 => 4,
        ImageChannelDataType::HalfFloat => 2,
        ImageChannelDataType::Float => 4,
        ImageChannelDataType::UnormInt24 => 0,
    }
}

/// Image format properties used to allocate an image: a channel order paired
/// with a channel data type.
///
/// No invariant ties the two together; which combinations a device supports
/// is the native API's business, not checked here.
#[derive(Clone, Copy, Debug, PartialEq, Eq, Structural)]
pub struct ImageFormat {
    pub channel_order: ImageChannelOrder,
    pub channel_data_type: ImageChannelDataType,
}

/// What converting a raw pair yields: the format, or the first error, the
/// order field checked before the data-type field.
pub open spec fn format_from_raw(raw: RawImageFormat) -> Result<ImageFormat, ConversionError> {
    match channel_order_from_code(raw.image_channel_order) {
        None => Err(ConversionError::ChannelOrder(raw.image_channel_order)),
        Some(order) => match channel_data_type_from_code(raw.image_channel_data_type) {
            None => Err(ConversionError::ChannelDataType(raw.image_channel_data_type)),
            Some(data_type) => Ok(ImageFormat { channel_order: order, channel_data_type: data_type }),
        },
    }
}

/// The raw pair a format projects to.
pub open spec fn format_to_raw(format: ImageFormat) -> RawImageFormat {
    RawImageFormat {
        image_channel_order: channel_order_code(format.channel_order),
        image_channel_data_type: channel_data_type_code(format.channel_data_type),
    }
}

impl ImageFormat {
    /// Pairs an order with a data type, unchecked.
    pub fn new(order: ImageChannelOrder, data_type: ImageChannelDataType) -> (r: ImageFormat)
        ensures
            r.channel_order == order,
            r.channel_data_type == data_type,
    {
        ImageFormat { channel_order: order, channel_data_type: data_type }
    }

    /// The fixed default: RGBA with signed-normalized 8-bit channels.
    pub fn new_rgba() -> (r: ImageFormat)
        ensures
            r.channel_order == ImageChannelOrder::Rgba,
            r.channel_data_type == ImageChannelDataType::SnormInt8,
    {
        ImageFormat {
            channel_order: ImageChannelOrder::Rgba,
            channel_data_type: ImageChannelDataType::SnormInt8,
        }
    }

    /// Converts a raw code pair to a format; each field is validated
    /// independently, the order first, and the first unknown code is the
    /// error returned.
    pub fn from_raw(raw: RawImageFormat) -> (r: Result<ImageFormat, ConversionError>)
        ensures
            r == format_from_raw(raw),
    {
        match channel_order_from_u32(raw.image_channel_order) {
            None => Err(ConversionError::ChannelOrder(raw.image_channel_order)),
            Some(order) => match channel_data_type_from_u32(raw.image_channel_data_type) {
                None => Err(ConversionError::ChannelDataType(raw.image_channel_data_type)),
                Some(data_type) => Ok(ImageFormat {
                    channel_order: order,
                    channel_data_type: data_type,
                }),
            },
        }
    }

    /// Converts a whole list of raw pairs, stopping at the first entry whose
    /// conversion fails: on an error nothing of the partial result is
    /// returned, and the error is the one of the earliest invalid entry.
    pub fn list_from_raw(list_raw: Vec<RawImageFormat>) -> (r: Result<
        Vec<ImageFormat>,
        ConversionError,
    >)
        ensures
            (forall|i: int|
                0 <= i < list_raw@.len() ==> format_from_raw(list_raw@[i]) is Ok) <==> r is Ok,
            r matches Ok(out) ==> {
                &&& out@.len() == list_raw@.len()
                &&& forall|i: int|
                    0 <= i < list_raw@.len() ==> #[trigger] format_from_raw(list_raw@[i])
                        == Ok::<ImageFormat, ConversionError>(out@[i])
            },
            r matches Err(e) ==> exists|i: int|
                {
                    &&& 0 <= i < list_raw@.len()
                    &&& #[trigger] format_from_raw(list_raw@[i]) == Err::<
                        ImageFormat,
                        ConversionError,
                    >(e)
                    &&& forall|j: int| 0 <= j < i ==> format_from_raw(list_raw@[j]) is Ok
                },
    {
        let mut result_list: Vec<ImageFormat> = Vec::new();
        let n = list_raw.len();
        let mut idx: usize = 0;
        while idx < n
            invariant
                n == list_raw@.len(),
                idx <= n,
                result_list@.len() == idx,
                forall|j: int|
                    0 <= j < idx ==> #[trigger] format_from_raw(list_raw@[j]) == Ok::<
                        ImageFormat,
                        ConversionError,
                    >(result_list@[j]),
            decreases n - idx,
        {
            match ImageFormat::from_raw(list_raw[idx]) {
                Ok(format) => result_list.push(format),
                Err(e) => {
                    return Err(e);
                },
            }
            idx = idx + 1;
        }
        Ok(result_list)
    }

    /// Projects the format back to its raw code pair; for any pair accepted
    /// by `from_raw` this is its exact inverse (`lemma_format_round_trip`).
    pub fn to_raw(&self) -> (r: RawImageFormat)
        ensures
            r == format_to_raw(*self),
    {
        RawImageFormat {
            image_channel_order: channel_order_to_u32(self.channel_order),
            image_channel_data_type: channel_data_type_to_u32(self.channel_data_type),
        }
    }

    /// A raw pair with both codes zero, as a fill-in value for native calls
    /// that write into it.
    pub fn new_raw() -> (r: RawImageFormat)
        ensures
            r.image_channel_order == 0,
            r.image_channel_data_type == 0,
    {
        RawImageFormat { image_channel_order: 0, image_channel_data_type: 0 }
    }

    /// The size in bytes of one pixel under this format: channel count times
    /// channel size, each from its own lookup table.
    ///
    /// A pair with either side absent from its table yields 0, which callers
    /// must read as "unknown", never as "zero-sized".
    pub fn pixel_bytes(&self) -> (r: usize)
        ensures
            r == channel_count(self.channel_order) * channel_size(self.channel_data_type),
            r <= 16,
    {
        let count: usize = match self.channel_order {
            ImageChannelOrder::R => 1,
            ImageChannelOrder::A => 1,
            ImageChannelOrder::Rg => 2,
            ImageChannelOrder::Ra => 2,
            // Valid only under the packed short/int data types.
            ImageChannelOrder::Rgb => 1,
            ImageChannelOrder::Rgba => 4,
            ImageChannelOrder::Bgra => 4,
            ImageChannelOrder::Argb => 4,
            ImageChannelOrder::Intensity => 4,
            ImageChannelOrder::Luminance => 4,
            ImageChannelOrder::Rx => 2,
            ImageChannelOrder::Rgx => 4,
            ImageChannelOrder::Rgbx => 4,
            ImageChannelOrder::Depth => 0,
            ImageChannelOrder::DepthStencil => 0,
        };
        let size: usize = match self.channel_data_type {
            ImageChannelDataType::SnormInt8 => 1,
            ImageChannelDataType::SnormInt16 => 2,
            ImageChannelDataType::UnormInt8 => 1,
            ImageChannelDataType::UnormInt16 => 2,
            ImageChannelDataType::UnormShort565 => 2,
            ImageChannelDataType::UnormShort555 => 2,
            ImageChannelDataType::UnormInt101010 => 4,
            ImageChannelDataType::SignedInt8 => 1,
            ImageChannelDataType::SignedInt16 => 2,
            ImageChannelDataType::SignedInt32 => 4,
            ImageChannelDataType::UnsignedInt8 => 1,
            ImageChannelDataType::UnsignedInt16 => 2,
            ImageChannelDataType::UnsignedInt32 => 4,
            ImageChannelDataType::HalfFloat => 2,
            ImageChannelDataType::Float => 4,
            ImageChannelDataType::UnormInt24 => 0,
        };
        count * size
    }
}

/// The channel order named by a raw code, validated against the fixed code
/// table.
pub fn channel_order_from_u32(code: u32) -> (r: Option<ImageChannelOrder>)
    ensures
        r == channel_order_from_code(code),
{
    if code == 0x10B0 {
        Some(ImageChannelOrder::R)
    } else if code == 0x10B1 {
        Some(ImageChannelOrder::A)
    } else if code == 0x10B2 {
        Some(ImageChannelOrder::Rg)
    } else if code == 0x10B3 {
        Some(ImageChannelOrder::Ra)
    } else if code == 0x10B4 {
        Some(ImageChannelOrder::Rgb)
    } else if code == 0x10B5 {
        Some(ImageChannelOrder::Rgba)
    } else if code == 0x10B6 {
        Some(ImageChannelOrder::Bgra)
    } else if code == 0x10B7 {
        Some(ImageChannelOrder::Argb)
    } else if code == 0x10B8 {
        Some(ImageChannelOrder::Intensity)
    } else if code == 0x10B9 {
        Some(ImageChannelOrder::Luminance)
    } else if code == 0x10BA {
        Some(ImageChannelOrder::Rx)
    } else if code == 0x10BB {
        Some(ImageChannelOrder::Rgx)
    } else if code == 0x10BC {
        Some(ImageChannelOrder::Rgbx)
    } else if code == 0x10BD {
        Some(ImageChannelOrder::Depth)
    } else if code == 0x10BE {
        Some(ImageChannelOrder::DepthStencil)
    } else {
        None
    }
}

/// The raw code of a channel order.
pub fn channel_order_to_u32(order: ImageChannelOrder) -> (r: u32)
    ensures
        r == channel_order_code(order),
{
    match order {
        ImageChannelOrder::R => 0x10B0,
        ImageChannelOrder::A => 0x10B1,
        ImageChannelOrder::Rg => 0x10B2,
        ImageChannelOrder::Ra => 0x10B3,
        ImageChannelOrder::Rgb => 0x10B4,
        ImageChannelOrder::Rgba => 0x10B5,
        ImageChannelOrder::Bgra => 0x10B6,
        ImageChannelOrder::Argb => 0x10B7,
        ImageChannelOrder::Intensity => 0x10B8,
        ImageChannelOrder::Luminance => 0x10B9,
        ImageChannelOrder::Rx => 0x10BA,
        ImageChannelOrder::Rgx => 0x10BB,
        ImageChannelOrder::Rgbx => 0x10BC,
        ImageChannelOrder::Depth => 0x10BD,
        ImageChannelOrder::DepthStencil => 0x10BE,
    }
}

/// The channel data type named by a raw code, validated against the fixed
/// code table.
pub fn channel_data_type_from_u32(code: u32) -> (r: Option<ImageChannelDataType>)
    ensures
        r == channel_data_type_from_code(code),
{
    if code == 0x10D0 {
        Some(ImageChannelDataType::SnormInt8)
    } else if code == 0x10D1 {
        Some(ImageChannelDataType::SnormInt16)
    } else if code == 0x10D2 {
        Some(ImageChannelDataType::UnormInt8)
    } else if code == 0x10D3 {
        Some(ImageChannelDataType::UnormInt16)
    } else if code == 0x10D4 {
        Some(ImageChannelDataType::UnormShort565)
    } else if code == 0x10D5 {
        Some(ImageChannelDataType::UnormShort555)
    } else if code == 0x10D6 {
        Some(ImageChannelDataType::UnormInt101010)
    } else if code == 0x10D7 {
        Some(ImageChannelDataType::SignedInt8)
    } else if code == 0x10D8 {
        Some(ImageChannelDataType::SignedInt16)
    } else if code == 0x10D9 {
        Some(ImageChannelDataType::SignedInt32)
    } else if code == 0x10DA {
        Some(ImageChannelDataType::UnsignedInt8)
    } else if code == 0x10DB {
        Some(ImageChannelDataType::UnsignedInt16)
    } else if code == 0x10DC {
        Some(ImageChannelDataType::UnsignedInt32)
    } else if code == 0x10DD {
        Some(ImageChannelDataType::HalfFloat)
    } else if code == 0x10DE {
        Some(ImageChannelDataType::Float)
    } else if code == 0x10DF {
        Some(ImageChannelDataType::UnormInt24)
    } else {
        None
    }
}

/// The raw code of a channel data type.
pub fn channel_data_type_to_u32(data_type: ImageChannelDataType) -> (r: u32)
    ensures
        r == channel_data_type_code(data_type),
{
    match data_type {
        ImageChannelDataType::SnormInt8 => 0x10D0,
        ImageChannelDataType::SnormInt16 => 0x10D1,
        ImageChannelDataType::UnormInt8 => 0x10D2,
        ImageChannelDataType::UnormInt16 => 0x10D3,
        ImageChannelDataType::UnormShort565 => 0x10D4,
        ImageChannelDataType::UnormShort555 => 0x10D5,
        ImageChannelDataType::UnormInt101010 => 0x10D6,
        ImageChannelDataType::SignedInt8 => 0x10D7,
        ImageChannelDataType::SignedInt16 => 0x10D8,
        ImageChannelDataType::SignedInt32 => 0x10D9,
        ImageChannelDataType::UnsignedInt8 => 0x10DA,
        ImageChannelDataType::UnsignedInt16 => 0x10DB,
        ImageChannelDataType::UnsignedInt32 => 0x10DC,
        ImageChannelDataType::HalfFloat => 0x10DD,
        ImageChannelDataType::Float => 0x10DE,
        ImageChannelDataType::UnormInt24 => 0x10DF,
    }
}

/// Raw-code round trip: every raw pair that `from_raw` accepts is given back
/// exactly by `to_raw`, and every format projects to a raw pair that
/// `from_raw` accepts and maps back to the same format.
pub proof fn lemma_format_round_trip(raw: RawImageFormat, format: ImageFormat)
    ensures
        format_from_raw(raw) matches Ok(f) ==> format_to_raw(f) == raw,
        format_from_raw(format_to_raw(format)) == Ok::<ImageFormat, ConversionError>(format),
{
}

} // verus!
