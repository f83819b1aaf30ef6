//! Context properties: an ordered list of typed key/value entries and its
//! packed-byte wire encoding, consumed by the native context-creation call.
//!
//! The wire format emits, for each recognized entry in append order, a 4-byte
//! tag, 4 bytes of zero padding, the value in its native width, and 4 more
//! bytes of zero padding; after all entries comes one word-sized all-zero
//! terminator. Multi-byte values are laid down in little-endian order and the
//! native word is taken to be 64 bits wide, matching the target ABI.

use vstd::prelude::*;

verus! {

/// Raw tag of a platform entry (`CL_CONTEXT_PLATFORM`).
pub const CONTEXT_PLATFORM_TAG: u32 = 0x1084;

/// Raw tag of an interop-user-sync entry (`CL_CONTEXT_INTEROP_USER_SYNC`).
pub const CONTEXT_INTEROP_USER_SYNC_TAG: u32 = 0x1085;

/// A platform handle: the numeric value of the opaque identifier the native
/// API hands out for a platform.
#[derive(Clone, Copy, Debug, PartialEq, Eq, Structural)]
pub struct PlatformId(pub u64);

/// One context property: a key-tagged configuration value.
///
/// The codec recognizes `Platform` and `InteropUserSync`; the interop-sharing
/// variants carry their native handles as plain words and are silently
/// skipped by `to_bytes`.
#[derive(Clone, Copy, Debug, PartialEq, Eq, Structural)]
pub enum ContextProperty {
    Platform(PlatformId),
    InteropUserSync(bool),
    GlContextKhr(u64),
    EglDisplayKhr(u64),
    GlxDisplayKhr(u64),
    WglHdcKhr(u64),
    CglSharegroupKhr(u64),
}

/// The four bytes of a 32-bit value, least significant first.
pub open spec fn u32_le_bytes(x: u32) -> Seq<u8> {
    seq![
        (x & 0xff) as u8,
        ((x >> 8) & 0xff) as u8,
        ((x >> 16) & 0xff) as u8,
        ((x >> 24) & 0xff) as u8,
    ]
}

/// The eight bytes of a 64-bit value, least significant first.
pub open spec fn u64_le_bytes(x: u64) -> Seq<u8> {
    seq![
        (x & 0xff) as u8,
        ((x >> 8) & 0xff) as u8,
        ((x >> 16) & 0xff) as u8,
        ((x >> 24) & 0xff) as u8,
        ((x >> 32) & 0xff) as u8,
        ((x >> 40) & 0xff) as u8,
        ((x >> 48) & 0xff) as u8,
        ((x >> 56) & 0xff) as u8,
    ]
}

/// The encoding of one property: tag, padding, value, padding for the two
/// recognized variants; the empty sequence for every other variant, which the
/// codec drops without signaling.
pub open spec fn property_bytes(prop: ContextProperty) -> Seq<u8> {
    match prop {
        ContextProperty::Platform(id) => u32_le_bytes(CONTEXT_PLATFORM_TAG) + u32_le_bytes(0)
            + u64_le_bytes(id.0) + u32_le_bytes(0),
        ContextProperty::InteropUserSync(sync) => u32_le_bytes(CONTEXT_INTEROP_USER_SYNC_TAG)
            + u32_le_bytes(0) + u32_le_bytes(if sync { 1u32 } else { 0u32 }) + u32_le_bytes(0),
        _ => Seq::empty(),
    }
}

/// The concatenated encodings of a property list, in order, without the
/// terminator.
pub open spec fn properties_bytes(props: Seq<ContextProperty>) -> Seq<u8>
    decreases props.len(),
{
    if props.len() == 0 {
        Seq::empty()
    } else {
        properties_bytes(props.drop_last()) + property_bytes(props.last())
    }
}

/// The full wire encoding of a property list: every entry in order, then the
/// word-sized zero terminator.
pub open spec fn wire_bytes(props: Seq<ContextProperty>) -> Seq<u8> {
    properties_bytes(props) + u64_le_bytes(0)
}

/// The last platform entry of a list, or `None` where the list has none:
/// last-write-wins.
pub open spec fn last_platform(props: Seq<ContextProperty>) -> Option<PlatformId>
    decreases props.len(),
{
    if props.len() == 0 {
        None
    } else {
        match props.last() {
            ContextProperty::Platform(id) => Some(id),
            _ => last_platform(props.drop_last()),
        }
    }
}

/// An ordered list of context properties, grown by the builder-style
/// appenders and consumed by `to_bytes` or `into_list`.
///
/// Append order is preserved; duplicates are not rejected, and `get_platform`
/// resolves them by last-write-wins.
#[derive(Clone, Debug)]
pub struct ContextProperties {
    props: Vec<ContextProperty>,
}

impl View for ContextProperties {
    type V = Seq<ContextProperty>;

    closed spec fn view(&self) -> Seq<ContextProperty> {
        self.props@
    }
}

impl ContextProperties {
    /// An empty property list.
    pub fn new() -> (r: ContextProperties)
        ensures
            r@ == Seq::<ContextProperty>::empty(),
    {
        ContextProperties { props: Vec::new() }
    }

    /// Appends a platform entry (builder-style); nothing is replaced.
    pub fn platform(self, platform: PlatformId) -> (r: ContextProperties)
        ensures
            r@ == self@.push(ContextProperty::Platform(platform)),
    {
        self.and(ContextProperty::Platform(platform))
    }

    /// Appends an interop-user-sync entry (builder-style): whether the user
    /// takes responsibility for synchronization with other APIs.
    pub fn interop_user_sync(self, sync: bool) -> (r: ContextProperties)
        ensures
            r@ == self@.push(ContextProperty::InteropUserSync(sync)),
    {
        self.and(ContextProperty::InteropUserSync(sync))
    }

    /// Appends one property (builder-style).
    pub fn and(self, prop: ContextProperty) -> (r: ContextProperties)
        ensures
            r@ == self@.push(prop),
    {
        let mut props = self.props;
        props.push(prop);
        ContextProperties { props }
    }

    /// The platform of the last platform entry, or `None` where no entry is a
    /// platform: last-write-wins over duplicates.
    pub fn get_platform(&self) -> (r: Option<PlatformId>)
        ensures
            r == last_platform(self@),
    {
        let mut platform: Option<PlatformId> = None;
        let n = self.props.len();
        let mut idx: usize = 0;
        while idx < n
            invariant
                n == self.props@.len(),
                idx <= n,
                platform == last_platform(self.props@.take(idx as int)),
            decreases n - idx,
        {
            match self.props[idx] {
                ContextProperty::Platform(id) => platform = Some(id),
                _ => {},
            }
            proof {
                assert(self.props@.take(idx + 1).drop_last() =~= self.props@.take(idx as int));
                assert(self.props@.take(idx + 1).last() == self.props@[idx as int]);
            }
            idx = idx + 1;
        }
        proof {
            assert(self.props@.take(n as int) =~= self.props@);
        }
        platform
    }

    /// Serializes the list to its packed-byte wire form. A pure function of
    /// the current list: nothing is consumed, and repeated calls yield
    /// identical bytes (`lemma_to_bytes_idempotent`).
    pub fn to_bytes(&self) -> (bytes: Vec<u8>)
        ensures
            bytes@ == wire_bytes(self@),
    {
        let mut bytes: Vec<u8> = Vec::new();
        let n = self.props.len();
        let mut idx: usize = 0;
        while idx < n
            invariant
                n == self.props@.len(),
                idx <= n,
                bytes@ == properties_bytes(self.props@.take(idx as int)),
            decreases n - idx,
        {
            match self.props[idx] {
                ContextProperty::Platform(id) => {
                    push_u32_le(&mut bytes, CONTEXT_PLATFORM_TAG);
                    push_u32_le(&mut bytes, 0);
                    push_u64_le(&mut bytes, id.0);
                    push_u32_le(&mut bytes, 0);
                },
                ContextProperty::InteropUserSync(sync) => {
                    push_u32_le(&mut bytes, CONTEXT_INTEROP_USER_SYNC_TAG);
                    push_u32_le(&mut bytes, 0);
                    push_u32_le(&mut bytes, if sync { 1 } else { 0 });
                    push_u32_le(&mut bytes, 0);
                },
                _ => {},
            }
            proof {
                assert(self.props@.take(idx + 1).drop_last() =~= self.props@.take(idx as int));
                assert(self.props@.take(idx + 1).last() == self.props@[idx as int]);
                assert(bytes@ =~= properties_bytes(self.props@.take(idx + 1)));
            }
            idx = idx + 1;
        }
        push_u64_le(&mut bytes, 0);
        proof {
            assert(self.props@.take(n as int) =~= self.props@);
        }
        bytes
    }

    /// Takes the list apart into its plain entries, in append order.
    pub fn into_list(self) -> (r: Vec<ContextProperty>)
        ensures
            r@ == self@,
    {
        self.props
    }
}

/// Appends the four little-endian bytes of a 32-bit value.
fn push_u32_le(bytes: &mut Vec<u8>, x: u32)
    ensures
        final(bytes)@ == old(bytes)@ + u32_le_bytes(x),
{
    let ghost prev = bytes@;
    bytes.push((x & 0xff) as u8);
    bytes.push(((x >> 8) & 0xff) as u8);
    bytes.push(((x >> 16) & 0xff) as u8);
    bytes.push(((x >> 24) & 0xff) as u8);
    proof {
        assert(bytes@ =~= prev + u32_le_bytes(x));
    }
}

/// Appends the eight little-endian bytes of a 64-bit value.
fn push_u64_le(bytes: &mut Vec<u8>, x: u64)
    ensures
        final(bytes)@ == old(bytes)@ + u64_le_bytes(x),
{
    let ghost prev = bytes@;
    bytes.push((x & 0xff) as u8);
    bytes.push(((x >> 8) & 0xff) as u8);
    bytes.push(((x >> 16) & 0xff) as u8);
    bytes.push(((x >> 24) & 0xff) as u8);
    bytes.push(((x >> 32) & 0xff) as u8);
    bytes.push(((x >> 40) & 0xff) as u8);
    bytes.push(((x >> 48) & 0xff) as u8);
    bytes.push(((x >> 56) & 0xff) as u8);
    proof {
        assert(bytes@ =~= prev + u64_le_bytes(x));
    }
}

/// Serialization is deterministic in the property list: any two byte
/// sequences obtained by encoding the same list are identical, so calling
/// `to_bytes` twice on an unmodified list yields the same bytes.
pub proof fn lemma_to_bytes_idempotent(props: Seq<ContextProperty>, b1: Seq<u8>, b2: Seq<u8>)
    requires
        b1 == wire_bytes(props),
        b2 == wire_bytes(props),
    ensures
        b1 == b2,
{
}

/// Last-write-wins: whatever the list held before, appending a platform entry
/// for `a` and then one for `b` makes `b` the platform the list resolves to.
pub proof fn lemma_last_write_wins(props: Seq<ContextProperty>, a: PlatformId, b: PlatformId)
    ensures
        last_platform(
            props.push(ContextProperty::Platform(a)).push(ContextProperty::Platform(b)),
        ) == Some(b),
{
    assert(props.push(ContextProperty::Platform(a)).push(ContextProperty::Platform(b)).last()
        == ContextProperty::Platform(b));
}

} // verus!
