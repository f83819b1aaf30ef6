use ocl_types::properties::{ContextProperties, ContextProperty, PlatformId};

#[test]
fn empty_list_serializes_to_terminator_only() {
    let props = ContextProperties::new();
    let bytes = props.to_bytes();
    assert_eq!(bytes, vec![0u8; 8]);
}

#[test]
fn wire_format_platform_literal() {
    let props = ContextProperties::new().platform(PlatformId(0x1234));
    let bytes = props.to_bytes();
    let expected: Vec<u8> = vec![
        // Platform tag 0x1084, 4 bytes.
        0x84, 0x10, 0x00, 0x00,
        // 4 bytes of zero padding.
        0x00, 0x00, 0x00, 0x00,
        // The handle 0x1234, 8 bytes.
        0x34, 0x12, 0x00, 0x00, 0x00, 0x00, 0x00, 0x00,
        // 4 bytes of zero padding.
        0x00, 0x00, 0x00, 0x00,
        // The word-sized zero terminator.
        0x00, 0x00, 0x00, 0x00, 0x00, 0x00, 0x00, 0x00,
    ];
    assert_eq!(bytes, expected);
    assert_eq!(bytes.len(), 28);
}

#[test]
fn wire_format_interop_user_sync_literal() {
    let props = ContextProperties::new().interop_user_sync(true);
    let bytes = props.to_bytes();
    let expected: Vec<u8> = vec![
        0x85, 0x10, 0x00, 0x00, // InteropUserSync tag 0x1085.
        0x00, 0x00, 0x00, 0x00, // Padding.
        0x01, 0x00, 0x00, 0x00, // true as a 4-byte native boolean.
        0x00, 0x00, 0x00, 0x00, // Padding.
        0x00, 0x00, 0x00, 0x00, 0x00, 0x00, 0x00, 0x00, // Terminator.
    ];
    assert_eq!(bytes, expected);
}

#[test]
fn wire_format_false_sync_is_zero_value() {
    let bytes = ContextProperties::new().interop_user_sync(false).to_bytes();
    assert_eq!(&bytes[8..12], &[0x00, 0x00, 0x00, 0x00]);
    assert_eq!(bytes.len(), 24);
}

#[test]
fn unrecognized_variants_are_silently_skipped() {
    let props = ContextProperties::new()
        .and(ContextProperty::GlContextKhr(0xAAAA))
        .and(ContextProperty::EglDisplayKhr(0xBBBB))
        .and(ContextProperty::GlxDisplayKhr(1))
        .and(ContextProperty::WglHdcKhr(2))
        .and(ContextProperty::CglSharegroupKhr(3));
    let bytes = props.to_bytes();
    assert_eq!(bytes, vec![0u8; 8]);
}

#[test]
fn entries_are_encoded_in_append_order() {
    let props = ContextProperties::new()
        .interop_user_sync(true)
        .platform(PlatformId(0x77));
    let bytes = props.to_bytes();
    // InteropUserSync entry (16 bytes) first, then the platform entry (20
    // bytes), then the terminator (8 bytes).
    assert_eq!(bytes.len(), 44);
    assert_eq!(&bytes[0..4], &[0x85, 0x10, 0x00, 0x00]);
    assert_eq!(&bytes[16..20], &[0x84, 0x10, 0x00, 0x00]);
    assert_eq!(bytes[24], 0x77);
}

#[test]
fn to_bytes_is_idempotent() {
    let props = ContextProperties::new()
        .platform(PlatformId(0xDEAD_BEEF))
        .interop_user_sync(true)
        .and(ContextProperty::GlContextKhr(5));
    let first = props.to_bytes();
    let second = props.to_bytes();
    assert_eq!(first, second);
}

#[test]
fn get_platform_returns_last_platform_entry() {
    let props = ContextProperties::new()
        .platform(PlatformId(0xA))
        .platform(PlatformId(0xB));
    assert_eq!(props.get_platform(), Some(PlatformId(0xB)));
}

#[test]
fn get_platform_none_on_empty_list() {
    assert_eq!(ContextProperties::new().get_platform(), None);
}

#[test]
fn get_platform_ignores_other_variants() {
    let props = ContextProperties::new()
        .and(ContextProperty::Platform(PlatformId(0xC)))
        .interop_user_sync(false)
        .and(ContextProperty::WglHdcKhr(9));
    assert_eq!(props.get_platform(), Some(PlatformId(0xC)));
}

#[test]
fn get_platform_none_without_platform_entries() {
    let props = ContextProperties::new()
        .interop_user_sync(true)
        .and(ContextProperty::CglSharegroupKhr(4));
    assert_eq!(props.get_platform(), None);
}

#[test]
fn into_list_preserves_append_order() {
    let props = ContextProperties::new()
        .platform(PlatformId(1))
        .interop_user_sync(false)
        .and(ContextProperty::GlContextKhr(2));
    let list = props.into_list();
    assert_eq!(
        list,
        vec![
            ContextProperty::Platform(PlatformId(1)),
            ContextProperty::InteropUserSync(false),
            ContextProperty::GlContextKhr(2),
        ]
    );
}
