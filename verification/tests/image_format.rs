use ocl_types::image_format::{
    ConversionError, ImageChannelDataType, ImageChannelOrder, ImageFormat, RawImageFormat,
};

const CL_RGBA: u32 = 0x10B5;
const CL_UNORM_INT8: u32 = 0x10D2;

#[test]
fn from_raw_accepts_rgba_unorm8() {
    let raw = RawImageFormat {
        image_channel_order: CL_RGBA,
        image_channel_data_type: CL_UNORM_INT8,
    };
    let format = ImageFormat::from_raw(raw).unwrap();
    assert_eq!(format.channel_order, ImageChannelOrder::Rgba);
    assert_eq!(format.channel_data_type, ImageChannelDataType::UnormInt8);
}

#[test]
fn raw_round_trip_over_every_valid_pair() {
    for order_code in 0x10B0u32..=0x10BE {
        for data_type_code in 0x10D0u32..=0x10DF {
            let raw = RawImageFormat {
                image_channel_order: order_code,
                image_channel_data_type: data_type_code,
            };
            let format = ImageFormat::from_raw(raw).unwrap();
            assert_eq!(format.to_raw(), raw);
        }
    }
}

#[test]
fn from_raw_rejects_unknown_order_code() {
    let raw = RawImageFormat {
        image_channel_order: 0x10BF,
        image_channel_data_type: CL_UNORM_INT8,
    };
    assert_eq!(
        ImageFormat::from_raw(raw),
        Err(ConversionError::ChannelOrder(0x10BF))
    );
}

#[test]
fn from_raw_rejects_unknown_data_type_code() {
    let raw = RawImageFormat {
        image_channel_order: CL_RGBA,
        image_channel_data_type: 7,
    };
    assert_eq!(
        ImageFormat::from_raw(raw),
        Err(ConversionError::ChannelDataType(7))
    );
}

#[test]
fn from_raw_validates_order_first() {
    let raw = RawImageFormat {
        image_channel_order: 1,
        image_channel_data_type: 2,
    };
    assert_eq!(
        ImageFormat::from_raw(raw),
        Err(ConversionError::ChannelOrder(1))
    );
}

#[test]
fn list_from_raw_maps_all_valid_entries() {
    let list = vec![
        RawImageFormat { image_channel_order: 0x10B0, image_channel_data_type: 0x10D9 },
        RawImageFormat { image_channel_order: CL_RGBA, image_channel_data_type: CL_UNORM_INT8 },
    ];
    let formats = ImageFormat::list_from_raw(list).unwrap();
    assert_eq!(formats.len(), 2);
    assert_eq!(formats[0].channel_order, ImageChannelOrder::R);
    assert_eq!(formats[0].channel_data_type, ImageChannelDataType::SignedInt32);
    assert_eq!(formats[1].channel_order, ImageChannelOrder::Rgba);
    assert_eq!(formats[1].channel_data_type, ImageChannelDataType::UnormInt8);
}

#[test]
fn list_from_raw_short_circuits_on_first_invalid_entry() {
    let list = vec![
        RawImageFormat { image_channel_order: CL_RGBA, image_channel_data_type: CL_UNORM_INT8 },
        RawImageFormat { image_channel_order: 0xFFFF, image_channel_data_type: CL_UNORM_INT8 },
        RawImageFormat { image_channel_order: CL_RGBA, image_channel_data_type: 0xEEEE },
    ];
    assert_eq!(
        ImageFormat::list_from_raw(list),
        Err(ConversionError::ChannelOrder(0xFFFF))
    );
}

#[test]
fn list_from_raw_empty_gives_empty() {
    assert_eq!(ImageFormat::list_from_raw(Vec::new()), Ok(Vec::new()));
}

#[test]
fn pixel_bytes_rgba_unorm8_is_four() {
    let format = ImageFormat::new(ImageChannelOrder::Rgba, ImageChannelDataType::UnormInt8);
    assert_eq!(format.pixel_bytes(), 4);
}

#[test]
fn pixel_bytes_r_signed_int32_is_four() {
    let format = ImageFormat::new(ImageChannelOrder::R, ImageChannelDataType::SignedInt32);
    assert_eq!(format.pixel_bytes(), 4);
}

#[test]
fn pixel_bytes_unlisted_pair_is_zero() {
    // Depth is absent from the channel-count table and UnormInt24 from the
    // channel-size table: both sides give the "cannot determine" zero.
    let format = ImageFormat::new(ImageChannelOrder::Depth, ImageChannelDataType::UnormInt24);
    assert_eq!(format.pixel_bytes(), 0);
    let half = ImageFormat::new(ImageChannelOrder::DepthStencil, ImageChannelDataType::Float);
    assert_eq!(half.pixel_bytes(), 0);
    let other = ImageFormat::new(ImageChannelOrder::Rg, ImageChannelDataType::UnormInt24);
    assert_eq!(other.pixel_bytes(), 0);
}

#[test]
fn pixel_bytes_table_spot_checks() {
    let cases = [
        (ImageChannelOrder::Rg, ImageChannelDataType::UnormInt16, 4),
        (ImageChannelOrder::Rgb, ImageChannelDataType::UnormShort565, 2),
        (ImageChannelOrder::Rgx, ImageChannelDataType::Float, 16),
        (ImageChannelOrder::Intensity, ImageChannelDataType::HalfFloat, 8),
        (ImageChannelOrder::Ra, ImageChannelDataType::SnormInt8, 2),
        (ImageChannelOrder::Luminance, ImageChannelDataType::UnsignedInt16, 8),
    ];
    for (order, data_type, expected) in cases {
        assert_eq!(ImageFormat::new(order, data_type).pixel_bytes(), expected);
    }
}

#[test]
fn new_rgba_is_the_fixed_default() {
    let format = ImageFormat::new_rgba();
    assert_eq!(format.channel_order, ImageChannelOrder::Rgba);
    assert_eq!(format.channel_data_type, ImageChannelDataType::SnormInt8);
}

#[test]
fn new_raw_is_all_zero() {
    let raw = ImageFormat::new_raw();
    assert_eq!(raw.image_channel_order, 0);
    assert_eq!(raw.image_channel_data_type, 0);
}

#[test]
fn to_raw_emits_the_fixed_codes() {
    let format = ImageFormat::new(ImageChannelOrder::Bgra, ImageChannelDataType::HalfFloat);
    let raw = format.to_raw();
    assert_eq!(raw.image_channel_order, 0x10B6);
    assert_eq!(raw.image_channel_data_type, 0x10DD);
}
