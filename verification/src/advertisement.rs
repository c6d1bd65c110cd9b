use core::ops::Deref;
use core::time::Duration;

use vstd::prelude::*;
use vstd::string::*;

use crate::ad_buffer::{ad_bytes, buffer_as_slice, buffer_clone, buffer_extend, buffer_len, buffer_new, buffer_push};
use crate::byte_order::{le_bytes, le_bytes_of, lemma_le_bytes_len};
use crate::descriptors::UUID;

verus! {

#[derive(Debug, PartialEq, Eq)]
pub struct AdvertisementRequest {
    pub params: AdvertisementParams,
    pub payload: AdvertisementPayload,
    pub scan_response_payload: Option<ScanResponsePayload>,
}

#[derive(Debug, PartialEq, Eq)]
#[non_exhaustive]
pub struct AdvertisementParams {
    /// Can a peer connect to us, and using what mechanism?
    pub connect_mode: ConnectMode,
    /// Minimum advertising interval to be used by the advertising set.  Acceptable values are
    /// in the range [20ms, 10,485s].
    pub interval_min: Option<Duration>,
    /// Maximum advertising interval to be used by the advertising set.  Acceptable values are
    /// in the range [20ms, 10,485s].
    pub interval_max: Option<Duration>,
}

/// The payload held by an optional scan response, as bytes.
pub open spec fn optional_payload_bytes(p: Option<ScanResponsePayload>) -> Option<Seq<u8>> {
    match p {
        Some(a) => Some(a@),
        None => None,
    }
}

impl Clone for AdvertisementRequest {
    fn clone(&self) -> (r: Self)
        ensures
            r.params == self.params,
            r.payload@ == self.payload@,
            optional_payload_bytes(r.scan_response_payload) == optional_payload_bytes(
                self.scan_response_payload,
            ),
    {
        let scan_response_payload = match &self.scan_response_payload {
            Some(p) => Some(p.clone()),
            None => None,
        };
        AdvertisementRequest {
            params: self.params.clone(),
            payload: self.payload.clone(),
            scan_response_payload,
        }
    }
}

impl Default for AdvertisementParams {
    fn default() -> (r: Self)
        ensures
            r.connect_mode == ConnectMode::Directed,
            r.interval_min is None,
            r.interval_max is None,
    {
        AdvertisementParams {
            connect_mode: ConnectMode::default(),
            interval_min: None,
            interval_max: None,
        }
    }
}

impl Clone for AdvertisementParams {
    fn clone(&self) -> (r: Self)
        ensures
            r == *self,
    {
        AdvertisementParams {
            connect_mode: self.connect_mode,
            interval_min: self.interval_min,
            interval_max: self.interval_max,
        }
    }
}

/// Whether and how this peripheral is connectable.
#[derive(Debug, Copy, Clone, PartialEq, Eq, Structural)]
pub enum ConnectMode {
    /// Connections from any address are allowed.  If unsure, this is probably what you want to use.
    Undirected,
    /// Connections are allowed only from a specific address.  This address must be specified
    /// in the advertisement payload.
    Directed,
    /// Connections are not allowed.  Often this is done when the maximum number of connections have
    /// been reached (and reverse when disconnects happen) or for passive sensors that include their
    /// readings unencrypted via the advertisement.
    NonConnectable,
}

impl ConnectMode {
    /// The number that stands for the mode.
    pub open spec fn spec_value(self) -> u8 {
        match self {
            ConnectMode::Undirected => 0b0000,
            ConnectMode::Directed => 0b0001,
            ConnectMode::NonConnectable => 0b0010,
        }
    }

    pub fn value(self) -> (r: u8)
        ensures
            r == self.spec_value(),
    {
        match self {
            ConnectMode::Undirected => 0b0000,
            ConnectMode::Directed => 0b0001,
            ConnectMode::NonConnectable => 0b0010,
        }
    }
}

impl Default for ConnectMode {
    fn default() -> (r: Self)
        ensures
            r == ConnectMode::Directed,
    {
        ConnectMode::Directed
    }
}

/// Advertisements consist of one or more ad type units in a TLV-style format (but actually it's
/// LTV).  Note that this list is not exhaustive but is provided as a convenience.
#[derive(Debug, Copy, Clone, PartialEq, Eq, Structural)]
pub enum AdType {
    Flags,
    PartialServiceUuids16,
    CompleteServiceUuids16,
    PartialServiceUuids32,
    CompleteServiceUuids32,
    PartialServiceUuids128,
    CompleteServiceUuids128,
    ShortLocalName,
    LongLocalName,
    TxPowerLevel,
    DeviceClass,
    ServiceData16,
    PublicTargetAddress,
    RandomTargetAddress,
    Appearance,
    AdvertisingInterval,
    LeBluetoothDeviceAddress,
    LeRole,
    ServiceData32,
    ServiceData128,
    Uri,
    ManufacturerData,
}

impl AdType {
    /// The byte that stands for the ad type in a record.
    pub open spec fn spec_value(self) -> u8 {
        match self {
            AdType::Flags => 0x01,
            AdType::PartialServiceUuids16 => 0x02,
            AdType::CompleteServiceUuids16 => 0x03,
            AdType::PartialServiceUuids32 => 0x04,
            AdType::CompleteServiceUuids32 => 0x05,
            AdType::PartialServiceUuids128 => 0x06,
            AdType::CompleteServiceUuids128 => 0x07,
            AdType::ShortLocalName => 0x08,
            AdType::LongLocalName => 0x09,
            AdType::TxPowerLevel => 0x0a,
            AdType::DeviceClass => 0x0d,
            AdType::ServiceData16 => 0x16,
            AdType::PublicTargetAddress => 0x17,
            AdType::RandomTargetAddress => 0x18,
            AdType::Appearance => 0x19,
            AdType::AdvertisingInterval => 0x1a,
            AdType::LeBluetoothDeviceAddress => 0x1b,
            AdType::LeRole => 0x1c,
            AdType::ServiceData32 => 0x20,
            AdType::ServiceData128 => 0x21,
            AdType::Uri => 0x24,
            AdType::ManufacturerData => 0xff,
        }
    }

    pub fn value(self) -> (r: u8)
        ensures
            r == self.spec_value(),
    {
        match self {
            AdType::Flags => 0x01,
            AdType::PartialServiceUuids16 => 0x02,
            AdType::CompleteServiceUuids16 => 0x03,
            AdType::PartialServiceUuids32 => 0x04,
            AdType::CompleteServiceUuids32 => 0x05,
            AdType::PartialServiceUuids128 => 0x06,
            AdType::CompleteServiceUuids128 => 0x07,
            AdType::ShortLocalName => 0x08,
            AdType::LongLocalName => 0x09,
            AdType::TxPowerLevel => 0x0a,
            AdType::DeviceClass => 0x0d,
            AdType::ServiceData16 => 0x16,
            AdType::PublicTargetAddress => 0x17,
            AdType::RandomTargetAddress => 0x18,
            AdType::Appearance => 0x19,
            AdType::AdvertisingInterval => 0x1a,
            AdType::LeBluetoothDeviceAddress => 0x1b,
            AdType::LeRole => 0x1c,
            AdType::ServiceData32 => 0x20,
            AdType::ServiceData128 => 0x21,
            AdType::Uri => 0x24,
            AdType::ManufacturerData => 0xff,
        }
    }
}

#[derive(Debug)]
pub enum PushError {
    CapacityExceeded,
    UuidInputError,
}

const DISCOVER_MODE_MASK: u8 = 0b0000_0011;

const CLASSIC_NOT_SUPPORTED_MASK: u8 = 0b0000_0100;

/// Whether and how this peripheral is discovered.
#[derive(Debug, Copy, Clone, PartialEq, Eq, Structural)]
pub enum DiscoverMode {
    /// This device can only be discovered when a central device is following the limited
    /// discovery procedure.
    Limited,
    /// General discovery.  This is the normal discovery mode that most customers would use.
    General,
    /// Device is not discoverable (whether the device is connectable is determined independently).
    NonDiscoverable,
}

impl DiscoverMode {
    /// The bits that stand for the mode in the flags record.
    pub open spec fn spec_value(self) -> u8 {
        match self {
            DiscoverMode::Limited => 0b0000_0001,
            DiscoverMode::General => 0b0000_0010,
            DiscoverMode::NonDiscoverable => 0b0000_0000,
        }
    }

    pub fn value(self) -> (r: u8)
        ensures
            r == self.spec_value(),
    {
        match self {
            DiscoverMode::Limited => 0b0000_0001,
            DiscoverMode::General => 0b0000_0010,
            DiscoverMode::NonDiscoverable => 0b0000_0000,
        }
    }
}

/// The AD type numbers that the Bluetooth assigned numbers give; no two types share one.
pub proof fn lemma_ad_type_values()
    ensures
        AdType::Flags.spec_value() == 0x01,
        AdType::PartialServiceUuids16.spec_value() == 0x02,
        AdType::CompleteServiceUuids16.spec_value() == 0x03,
        AdType::PartialServiceUuids32.spec_value() == 0x04,
        AdType::CompleteServiceUuids32.spec_value() == 0x05,
        AdType::PartialServiceUuids128.spec_value() == 0x06,
        AdType::CompleteServiceUuids128.spec_value() == 0x07,
        AdType::ShortLocalName.spec_value() == 0x08,
        AdType::LongLocalName.spec_value() == 0x09,
        AdType::TxPowerLevel.spec_value() == 0x0a,
        AdType::DeviceClass.spec_value() == 0x0d,
        AdType::ServiceData16.spec_value() == 0x16,
        AdType::PublicTargetAddress.spec_value() == 0x17,
        AdType::RandomTargetAddress.spec_value() == 0x18,
        AdType::Appearance.spec_value() == 0x19,
        AdType::AdvertisingInterval.spec_value() == 0x1a,
        AdType::LeBluetoothDeviceAddress.spec_value() == 0x1b,
        AdType::LeRole.spec_value() == 0x1c,
        AdType::ServiceData32.spec_value() == 0x20,
        AdType::ServiceData128.spec_value() == 0x21,
        AdType::Uri.spec_value() == 0x24,
        AdType::ManufacturerData.spec_value() == 0xff,
        forall|a: AdType, b: AdType| #[trigger] a.spec_value() == #[trigger] b.spec_value() ==> a == b,
{
}

/// The discover modes' bits in the flags byte: limited discoverable 0x01, general
/// discoverable 0x02, none 0x00; each within the two mode bits, no two alike.
pub proof fn lemma_discover_mode_values()
    ensures
        DiscoverMode::Limited.spec_value() == 0x01,
        DiscoverMode::General.spec_value() == 0x02,
        DiscoverMode::NonDiscoverable.spec_value() == 0x00,
        forall|a: DiscoverMode, b: DiscoverMode| #[trigger] a.spec_value() == #[trigger] b.spec_value() ==> a == b,
        forall|a: DiscoverMode| #[trigger] a.spec_value() <= 0b11,
{
}

/// The connect modes' numbers: undirected 0, directed 1, none 2; no two alike.
pub proof fn lemma_connect_mode_values()
    ensures
        ConnectMode::Undirected.spec_value() == 0,
        ConnectMode::Directed.spec_value() == 1,
        ConnectMode::NonConnectable.spec_value() == 2,
        forall|a: ConnectMode, b: ConnectMode| #[trigger] a.spec_value() == #[trigger] b.spec_value() ==> a == b,
{
}

// ---------------------------------------------------------------------------------------------
// The record format
// ---------------------------------------------------------------------------------------------

/// One record of an advertisement: a length byte that counts the type byte and the data, the
/// type byte, then the data.
pub open spec fn ad_record(ad_type: u8, data: Seq<u8>) -> Seq<u8> {
    seq![(data.len() + 1) as u8, ad_type] + data
}

/// Reads a payload as a sequence of records, each as its type and its data; `None` when the
/// bytes are not a sequence of complete records whose length bytes are at least 1.
pub open spec fn parse_ad_records(s: Seq<u8>) -> Option<Seq<(u8, Seq<u8>)>>
    decreases s.len(),
{
    if s.len() == 0 {
        Some(Seq::empty())
    } else {
        let n = s[0] as int;
        if n < 1 || s.len() < n + 1 {
            None
        } else {
            match parse_ad_records(s.skip(n + 1)) {
                Some(rest) => Some(seq![(s[1], s.subrange(2, n + 1))] + rest),
                None => None,
            }
        }
    }
}

/// A payload that reads as a sequence of complete records.
pub open spec fn payload_well_formed(s: Seq<u8>) -> bool {
    parse_ad_records(s) is Some
}

/// Appending a record to a payload that reads as records gives a payload that reads as the
/// same records followed by the new one.
pub proof fn lemma_parse_append_record(a: Seq<u8>, ad_type: u8, data: Seq<u8>)
    requires
        payload_well_formed(a),
        data.len() <= 254,
    ensures
        parse_ad_records(a + ad_record(ad_type, data)) == Some(
            parse_ad_records(a).unwrap().push((ad_type, data)),
        ),
    decreases a.len(),
{
    let r = ad_record(ad_type, data);
    let s = a + r;
    if a.len() == 0 {
        assert(s =~= r);
        let n = r[0] as int;
        assert(n == data.len() + 1);
        assert(r.skip(n + 1) =~= Seq::<u8>::empty());
        assert(r.subrange(2, n + 1) =~= data);
        assert(parse_ad_records(Seq::<u8>::empty()) == Some(Seq::<(u8, Seq<u8>)>::empty()));
        assert(parse_ad_records(s) == Some(seq![(ad_type, data)]));
        assert(seq![(ad_type, data)] =~= Seq::<(u8, Seq<u8>)>::empty().push((ad_type, data)));
    } else {
        let n = a[0] as int;
        assert(s[0] == a[0]);
        assert(s[1] == a[1]);
        assert(s.skip(n + 1) =~= a.skip(n + 1) + r);
        assert(s.subrange(2, n + 1) =~= a.subrange(2, n + 1));
        let rest = parse_ad_records(a.skip(n + 1)).unwrap();
        lemma_parse_append_record(a.skip(n + 1), ad_type, data);
        let head = seq![(a[1], a.subrange(2, n + 1))];
        assert(head + rest.push((ad_type, data)) =~= (head + rest).push((ad_type, data)));
    }
}


// ---------------------------------------------------------------------------------------------
// The builder's model
// ---------------------------------------------------------------------------------------------

/// What a builder holds: the bytes written so far, the flags byte that waits to be written,
/// and whether flags were set (as a pending byte or as a written flags record).
#[verifier::ext_equal]
pub struct BuilderView {
    pub raw: Seq<u8>,
    pub flags: Option<u8>,
    pub has_set_flags: bool,
}

/// Some record of the list is a flags record.
pub open spec fn has_flags_record(rs: Seq<(u8, Seq<u8>)>) -> bool {
    exists|i: int| 0 <= i < rs.len() && (#[trigger] rs[i]).0 == AdType::Flags.spec_value()
}

/// What holds of every builder: it holds less than the capacity of 31 bytes, its bytes read
/// as a sequence of records, and once flags were set and none wait, a flags record was written.
pub open spec fn builder_view_wf(v: BuilderView) -> bool {
    &&& v.raw.len() < 31
    &&& payload_well_formed(v.raw)
    &&& v.has_set_flags && v.flags is None ==> has_flags_record(parse_ad_records(v.raw).unwrap())
}

/// A list keeps a flags record when a record is appended, and gains one when that record
/// is a flags record.
pub proof fn lemma_has_flags_push(rs: Seq<(u8, Seq<u8>)>, x: (u8, Seq<u8>))
    ensures
        has_flags_record(rs) ==> has_flags_record(rs.push(x)),
        x.0 == AdType::Flags.spec_value() ==> has_flags_record(rs.push(x)),
{
    if has_flags_record(rs) {
        let i = choose|i: int| 0 <= i < rs.len() && (#[trigger] rs[i]).0 == AdType::Flags.spec_value();
        assert(rs.push(x)[i] == rs[i]);
    }
    if x.0 == AdType::Flags.spec_value() {
        assert(rs.push(x)[rs.len() as int] == x);
    }
}

pub open spec fn flags_or_zero(flags: Option<u8>) -> u8 {
    match flags {
        Some(f) => f,
        None => 0,
    }
}

/// Setting the discover mode replaces the two mode bits of the flags and keeps the others.
pub open spec fn spec_set_discover_mode(b: BuilderView, mode: DiscoverMode) -> BuilderView {
    BuilderView {
        raw: b.raw,
        flags: Some(
            (flags_or_zero(b.flags) & !0b0000_0011u8) | (mode.spec_value() & 0b0000_0011u8),
        ),
        has_set_flags: b.has_set_flags,
    }
}

/// Setting "classic not supported" sets or clears bit 0x04 of the flags and keeps the others.
pub open spec fn spec_set_classic_not_supported(b: BuilderView, classic_not_supported: bool) -> BuilderView {
    BuilderView {
        raw: b.raw,
        flags: Some(
            if classic_not_supported {
                flags_or_zero(b.flags) | 0b0000_0100u8
            } else {
                flags_or_zero(b.flags) & !0b0000_0100u8
            },
        ),
        has_set_flags: b.has_set_flags,
    }
}

/// Writes the pending flags byte, if any, as a flags record.
pub open spec fn spec_flush(b: BuilderView) -> Result<BuilderView, PushError> {
    match b.flags {
        None => Ok(b),
        Some(f) => if b.raw.len() + 2 + 1 < 31 {
            Ok(
                BuilderView {
                    raw: b.raw + ad_record(AdType::Flags.spec_value(), seq![f]),
                    flags: None,
                    has_set_flags: true,
                },
            )
        } else {
            Err(PushError::CapacityExceeded)
        },
    }
}

/// Writes the pending flags, then a record of the given type and data, if the record leaves
/// at least one byte of the capacity free.
pub open spec fn spec_push_record(b: BuilderView, ad_type: u8, data: Seq<u8>) -> Result<
    BuilderView,
    PushError,
> {
    match spec_flush(b) {
        Err(e) => Err(e),
        Ok(c) => if c.raw.len() + 2 + data.len() < 31 {
            Ok(
                BuilderView {
                    raw: c.raw + ad_record(ad_type, data),
                    flags: c.flags,
                    has_set_flags: c.has_set_flags || ad_type == AdType::Flags.spec_value(),
                },
            )
        } else {
            Err(PushError::CapacityExceeded)
        },
    }
}

/// The type of a service data record for a UUID of the given kind.
pub open spec fn service_data_type(u: UUID) -> AdType {
    match u {
        UUID::Short(_) => AdType::ServiceData16,
        UUID::Long(_) => AdType::ServiceData128,
    }
}

/// The little-endian bytes of the UUIDs, one after the other.
pub open spec fn uuid_list_encoding(uuids: Seq<UUID>) -> Seq<u8>
    decreases uuids.len(),
{
    if uuids.len() == 0 {
        Seq::empty()
    } else {
        uuid_list_encoding(uuids.drop_last()) + uuids.last().le_encoding()
    }
}

/// All the UUIDs are of one kind: all 16-bit or all 128-bit.
pub open spec fn same_width(uuids: Seq<UUID>) -> bool {
    forall|i: int|
        0 <= i < uuids.len() ==> (#[trigger] uuids[i]).spec_encoded_len()
            == uuids[0].spec_encoded_len()
}

/// Pushing a list of service UUIDs: the list must be non-empty and of one kind; it is
/// written as one record, of the service data type for that kind, whose data are the UUIDs'
/// bytes.
pub open spec fn spec_push_service_uuids(b: BuilderView, uuids: Seq<UUID>) -> Result<
    BuilderView,
    PushError,
> {
    if uuids.len() == 0 || !same_width(uuids) {
        Err(PushError::UuidInputError)
    } else {
        spec_push_record(b, service_data_type(uuids[0]).spec_value(), uuid_list_encoding(uuids))
    }
}

/// When neither the flags nor a flags record were set, the flags default to general
/// discovery with Bluetooth Classic not supported.
pub open spec fn spec_ensure_defaults(b: BuilderView) -> BuilderView {
    if !b.has_set_flags && b.flags is None {
        let d = spec_set_classic_not_supported(
            spec_set_discover_mode(b, DiscoverMode::General),
            true,
        );
        BuilderView { raw: d.raw, flags: d.flags, has_set_flags: true }
    } else {
        b
    }
}

/// The payload that building gives: the defaults are applied, then the pending flags written.
pub open spec fn spec_build(b: BuilderView) -> Result<Seq<u8>, PushError> {
    match spec_flush(spec_ensure_defaults(b)) {
        Ok(c) => Ok(c.raw),
        Err(e) => Err(e),
    }
}

/// `r` is the builder that `expected` describes, or the error that it names.
pub open spec fn builder_outcome(
    r: Result<RawAdvertisementBuilder, PushError>,
    expected: Result<BuilderView, PushError>,
) -> bool {
    match expected {
        Ok(v) => r matches Ok(b) && b@ == v,
        Err(e) => r matches Err(x) && x == e,
    }
}

/// Flushing keeps what holds of every builder; afterwards no flags wait, and flags count as
/// set exactly when they were set before or were waiting.
pub proof fn lemma_flush_wf(b: BuilderView)
    requires
        builder_view_wf(b),
    ensures
        spec_flush(b) matches Ok(c) ==> builder_view_wf(c),
        spec_flush(b) matches Ok(c) ==> c.flags is None,
        spec_flush(b) matches Ok(c) ==> c.has_set_flags == (b.has_set_flags || b.flags is Some),
        spec_flush(b) matches Ok(c) ==> b.flags is None ==> c == b,
        spec_flush(b) matches Err(e) ==> e == PushError::CapacityExceeded,
{
    if let Some(f) = b.flags {
        if b.raw.len() + 3 < 31 {
            lemma_parse_append_record(b.raw, AdType::Flags.spec_value(), seq![f]);
            lemma_has_flags_push(
                parse_ad_records(b.raw).unwrap(),
                (AdType::Flags.spec_value(), seq![f]),
            );
        }
    }
}

/// Pushing a record keeps what holds of every builder; the records of the result are those
/// before, then the flags record if flags were pending, then the new record.
pub proof fn lemma_push_record_wf(b: BuilderView, ad_type: u8, data: Seq<u8>)
    requires
        builder_view_wf(b),
    ensures
        spec_push_record(b, ad_type, data) matches Ok(c) ==> builder_view_wf(c),
        spec_push_record(b, ad_type, data) matches Ok(c) ==> c.flags is None,
        spec_push_record(b, ad_type, data) matches Ok(c) ==> parse_ad_records(c.raw) == Some(
            match b.flags {
                Some(f) => parse_ad_records(b.raw).unwrap().push(
                    (AdType::Flags.spec_value(), seq![f]),
                ).push((ad_type, data)),
                None => parse_ad_records(b.raw).unwrap().push((ad_type, data)),
            },
        ),
        spec_push_record(b, ad_type, data) matches Err(e) ==> e == PushError::CapacityExceeded,
{
    lemma_flush_wf(b);
    if let Ok(c) = spec_flush(b) {
        if c.raw.len() + 2 + data.len() < 31 {
            if let Some(f) = b.flags {
                lemma_parse_append_record(b.raw, AdType::Flags.spec_value(), seq![f]);
            }
            lemma_parse_append_record(c.raw, ad_type, data);
            lemma_has_flags_push(parse_ad_records(c.raw).unwrap(), (ad_type, data));
        }
    }
}

/// Building adds, after the records already written, at most the flags record: the pending
/// flags, or the default flags (0x06) when none were set and no flags record was written.
/// The payload built is less than 31 bytes, reads as records, and holds a flags record.
pub proof fn lemma_build_records(b: BuilderView)
    requires
        builder_view_wf(b),
    ensures
        spec_build(b) matches Ok(p) ==> parse_ad_records(p) == Some(
            match spec_ensure_defaults(b).flags {
                Some(f) => parse_ad_records(b.raw).unwrap().push((AdType::Flags.spec_value(), seq![f])),
                None => parse_ad_records(b.raw).unwrap(),
            },
        ),
        spec_build(b) matches Ok(p) ==> p.len() < 31 && payload_well_formed(p) && has_flags_record(
            parse_ad_records(p).unwrap(),
        ),
        spec_build(b) matches Err(e) ==> e == PushError::CapacityExceeded,
        spec_ensure_defaults(b).flags == (if !b.has_set_flags && b.flags is None {
            Some(0x06u8)
        } else {
            b.flags
        }),
{
    assert(((0u8 & !0b0000_0011u8) | (0b0000_0010u8 & 0b0000_0011u8)) | 0b0000_0100u8 == 0x06u8)
        by (bit_vector);
    let d = spec_ensure_defaults(b);
    if let Some(f) = d.flags {
        if d.raw.len() + 3 < 31 {
            lemma_parse_append_record(d.raw, AdType::Flags.spec_value(), seq![f]);
            lemma_has_flags_push(
                parse_ad_records(d.raw).unwrap(),
                (AdType::Flags.spec_value(), seq![f]),
            );
        }
    }
}

/// The model of a new builder.
pub open spec fn new_builder_view() -> BuilderView {
    BuilderView { raw: Seq::empty(), flags: None, has_set_flags: false }
}

/// The bytes of a list of records, one after the other.
pub open spec fn records_encoding(rs: Seq<(u8, Seq<u8>)>) -> Seq<u8>
    decreases rs.len(),
{
    if rs.len() == 0 {
        Seq::empty()
    } else {
        records_encoding(rs.drop_last()) + ad_record(rs.last().0, rs.last().1)
    }
}

/// Pushing records one after the other, stopping at the first error.
pub open spec fn spec_push_records(b: BuilderView, rs: Seq<(u8, Seq<u8>)>) -> Result<
    BuilderView,
    PushError,
>
    decreases rs.len(),
{
    if rs.len() == 0 {
        Ok(b)
    } else {
        match spec_push_records(b, rs.drop_last()) {
            Ok(c) => spec_push_record(c, rs.last().0, rs.last().1),
            Err(e) => Err(e),
        }
    }
}

/// On a new builder, pushing records none of which is a flags record gives exactly their
/// bytes, in order, or a capacity error once those bytes reach 31; building then appends the
/// default flags record `[2, 1, 6]` when it fits.
pub proof fn lemma_push_records_then_build(rs: Seq<(u8, Seq<u8>)>)
    requires
        forall|i: int| 0 <= i < rs.len() ==> (#[trigger] rs[i]).0 != AdType::Flags.spec_value(),
    ensures
        spec_push_records(new_builder_view(), rs) == (if records_encoding(rs).len() < 31 {
            Ok(BuilderView { raw: records_encoding(rs), flags: None, has_set_flags: false })
        } else {
            Err(PushError::CapacityExceeded)
        }),
        spec_push_records(new_builder_view(), rs) matches Ok(c) ==> spec_build(c) == (if records_encoding(
            rs,
        ).len() + 3 < 31 {
            Ok(records_encoding(rs) + seq![2u8, 1u8, 6u8])
        } else {
            Err(PushError::CapacityExceeded)
        }),
    decreases rs.len(),
{
    assert(((0u8 & !0b0000_0011u8) | (0b0000_0010u8 & 0b0000_0011u8)) | 0b0000_0100u8 == 0x06u8)
        by (bit_vector);
    if rs.len() > 0 {
        let p = rs.drop_last();
        assert forall|i: int| 0 <= i < p.len() implies (#[trigger] p[i]).0 != AdType::Flags.spec_value() by {
            assert(p[i] == rs[i]);
        }
        lemma_push_records_then_build(p);
        assert(rs[rs.len() - 1] == rs.last());
    }
    let e = records_encoding(rs);
    assert(e + ad_record(AdType::Flags.spec_value(), seq![6u8]) =~= e + seq![2u8, 1u8, 6u8]);
}

/// On a new builder, setting the discover mode and "classic not supported", in either order,
/// builds one flags record that holds the mode's bits and, when Classic is not supported, bit
/// 0x04; setting the discover mode again replaces the mode set before.
pub proof fn lemma_flags_build(first: DiscoverMode, mode: DiscoverMode, classic_not_supported: bool)
    ensures
        spec_build(
            spec_set_classic_not_supported(
                spec_set_discover_mode(new_builder_view(), mode),
                classic_not_supported,
            ),
        ) == Ok::<Seq<u8>, PushError>(
            seq![2u8, 1u8, mode.spec_value() | (if classic_not_supported { 4u8 } else { 0u8 })],
        ),
        spec_build(
            spec_set_discover_mode(
                spec_set_classic_not_supported(new_builder_view(), classic_not_supported),
                mode,
            ),
        ) == Ok::<Seq<u8>, PushError>(
            seq![2u8, 1u8, mode.spec_value() | (if classic_not_supported { 4u8 } else { 0u8 })],
        ),
        spec_build(spec_set_discover_mode(spec_set_discover_mode(new_builder_view(), first), mode))
            == spec_build(spec_set_discover_mode(new_builder_view(), mode)),
{
    let v = mode.spec_value();
    let v0 = first.spec_value();
    assert(v <= 2 && v0 <= 2);
    assert(v <= 2 ==> ((0u8 & !3u8) | (v & 3u8)) | 4u8 == v | 4u8) by (bit_vector);
    assert(v <= 2 ==> ((0u8 & !3u8) | (v & 3u8)) & !4u8 == v | 0u8) by (bit_vector);
    assert(v <= 2 ==> ((0u8 | 4u8) & !3u8) | (v & 3u8) == v | 4u8) by (bit_vector);
    assert(v <= 2 ==> ((0u8 & !4u8) & !3u8) | (v & 3u8) == v | 0u8) by (bit_vector);
    assert(v <= 2 && v0 <= 2 ==> ((((0u8 & !3u8) | (v0 & 3u8)) & !3u8) | (v & 3u8)) == ((0u8
        & !3u8) | (v & 3u8))) by (bit_vector);
    let f = v | (if classic_not_supported { 4u8 } else { 0u8 });
    assert(ad_record(AdType::Flags.spec_value(), seq![f]) =~= seq![2u8, 1u8, f]);
    assert(Seq::<u8>::empty() + seq![2u8, 1u8, f] =~= seq![2u8, 1u8, f]);
}

/// On a new builder, a flags record pushed by hand takes the place of the default one.
pub proof fn lemma_raw_flags_build(data: Seq<u8>)
    requires
        data.len() + 2 < 31,
    ensures
        spec_push_record(new_builder_view(), AdType::Flags.spec_value(), data) matches Ok(c)
            && spec_build(c) == Ok::<Seq<u8>, PushError>(ad_record(AdType::Flags.spec_value(), data)),
{
    assert(Seq::<u8>::empty() + ad_record(AdType::Flags.spec_value(), data) =~= ad_record(
        AdType::Flags.spec_value(),
        data,
    ));
}

/// A record is its length byte (the data's length plus one for the type), its type, then its
/// data.
pub proof fn lemma_ad_record_layout(ad_type: u8, data: Seq<u8>)
    requires
        data.len() <= 254,
    ensures
        ad_record(ad_type, data).len() == data.len() + 2,
        ad_record(ad_type, data)[0] == data.len() + 1,
        ad_record(ad_type, data)[1] == ad_type,
        ad_record(ad_type, data).subrange(2, data.len() + 2int) == data,
{
    assert(ad_record(ad_type, data).subrange(2, data.len() + 2int) =~= data);
}

/// Pushing a record first writes the pending flags, if any, as `[2, 0x01, f]`, then the
/// record's length byte, its type and its data.  It succeeds exactly when those bytes leave
/// at least one of the 31 free, and fails with `CapacityExceeded` otherwise.  Afterwards no
/// flags wait, and flags count as set when they were set before, were waiting, or the record
/// pushed is a flags record: pushing never forgets that flags were set.
pub proof fn lemma_push_record_bytes(b: BuilderView, ad_type: u8, data: Seq<u8>)
    ensures
        ({
            let before = match b.flags {
                Some(f) => b.raw + seq![2u8, 1u8, f],
                None => b.raw,
            };
            &&& (spec_push_record(b, ad_type, data) is Ok <==> before.len() + 2 + data.len() < 31)
            &&& spec_push_record(b, ad_type, data) matches Ok(c) ==> {
                &&& c.raw == before + seq![(data.len() + 1) as u8, ad_type] + data
                &&& c.flags is None
                &&& c.has_set_flags == (b.has_set_flags || b.flags is Some || ad_type == 0x01)
            }
            &&& spec_push_record(b, ad_type, data) matches Err(e) ==> e
                == PushError::CapacityExceeded
        }),
{
    if let Some(f) = b.flags {
        assert(ad_record(0x01, seq![f]) =~= seq![2u8, 1u8, f]);
    }
}

/// Building writes the pending flags, if any, as `[2, 0x01, f]` at the end; when no flags
/// were ever set it writes the default flags `[2, 0x01, 0x06]` (general discovery, Classic
/// not supported); when a flags record was already written it adds nothing.  It fails with
/// `CapacityExceeded` exactly when the flags record would not leave a byte of the 31 free.
pub proof fn lemma_build_bytes(b: BuilderView)
    ensures
        b.flags matches Some(f) ==> spec_build(b) == (if b.raw.len() + 3 < 31 {
            Ok::<Seq<u8>, PushError>(b.raw + seq![2u8, 1u8, f])
        } else {
            Err::<Seq<u8>, PushError>(PushError::CapacityExceeded)
        }),
        b.flags is None && b.has_set_flags ==> spec_build(b) == Ok::<Seq<u8>, PushError>(b.raw),
        b.flags is None && !b.has_set_flags ==> spec_build(b) == (if b.raw.len() + 3 < 31 {
            Ok::<Seq<u8>, PushError>(b.raw + seq![2u8, 1u8, 6u8])
        } else {
            Err::<Seq<u8>, PushError>(PushError::CapacityExceeded)
        }),
{
    assert(((0u8 & !0b0000_0011u8) | (0b0000_0010u8 & 0b0000_0011u8)) | 0b0000_0100u8 == 0x06u8)
        by (bit_vector);
    if let Some(f) = b.flags {
        assert(ad_record(0x01, seq![f]) =~= seq![2u8, 1u8, f]);
    }
    assert(ad_record(0x01, seq![6u8]) =~= seq![2u8, 1u8, 6u8]);
}

/// Setting the discover mode, whatever was written before, leaves pending flags whose two low
/// bits are the mode's and whose other bits are those of the flags before (0 when none were
/// pending); the bytes written and whether flags were set stay as they were.  So with no
/// flags pending, building then appends `[2, 0x01, mode]`.
pub proof fn lemma_discover_mode_bits(b: BuilderView, mode: DiscoverMode)
    ensures
        ({
            let before: u8 = match b.flags {
                Some(f) => f,
                None => 0,
            };
            let r = spec_set_discover_mode(b, mode);
            &&& r.raw == b.raw
            &&& r.has_set_flags == b.has_set_flags
            &&& r.flags matches Some(x) && x & 0b11u8 == mode.spec_value() && x & !0b11u8 == before
                & !0b11u8
        }),
        b.flags is None ==> spec_build(spec_set_discover_mode(b, mode)) == (if b.raw.len() + 3 < 31 {
            Ok::<Seq<u8>, PushError>(b.raw + seq![2u8, 1u8, mode.spec_value()])
        } else {
            Err::<Seq<u8>, PushError>(PushError::CapacityExceeded)
        }),
{
    let before: u8 = match b.flags {
        Some(f) => f,
        None => 0,
    };
    let v = mode.spec_value();
    assert(v <= 2);
    assert(v <= 2 ==> ((before & !0b0000_0011u8) | (v & 0b0000_0011u8)) & 0b11u8 == v)
        by (bit_vector);
    assert(((before & !0b0000_0011u8) | (v & 0b0000_0011u8)) & !0b11u8 == before & !0b11u8)
        by (bit_vector);
    assert(v <= 2 ==> (0u8 & !0b0000_0011u8) | (v & 0b0000_0011u8) == v) by (bit_vector);
    lemma_build_bytes(spec_set_discover_mode(b, mode));
}

/// Setting "classic not supported", whatever was written before, leaves pending flags whose
/// bit 0x04 is set exactly when Classic is not supported and whose other bits are those of
/// the flags before (0 when none were pending); the bytes written and whether flags were set
/// stay as they were.  So with no flags pending, building then appends `[2, 0x01, 0x04]` or
/// `[2, 0x01, 0x00]`.
pub proof fn lemma_classic_bit(b: BuilderView, classic_not_supported: bool)
    ensures
        ({
            let before: u8 = match b.flags {
                Some(f) => f,
                None => 0,
            };
            let r = spec_set_classic_not_supported(b, classic_not_supported);
            &&& r.raw == b.raw
            &&& r.has_set_flags == b.has_set_flags
            &&& r.flags matches Some(x) && (x & 0x04u8 != 0) == classic_not_supported && x
                & !0x04u8 == before & !0x04u8
        }),
        b.flags is None ==> spec_build(spec_set_classic_not_supported(b, classic_not_supported))
            == (if b.raw.len() + 3 < 31 {
            Ok::<Seq<u8>, PushError>(
                b.raw + seq![2u8, 1u8, if classic_not_supported { 4u8 } else { 0u8 }],
            )
        } else {
            Err::<Seq<u8>, PushError>(PushError::CapacityExceeded)
        }),
{
    let before: u8 = match b.flags {
        Some(f) => f,
        None => 0,
    };
    assert((before | 0b0000_0100u8) & 0x04u8 != 0) by (bit_vector);
    assert((before | 0b0000_0100u8) & !0x04u8 == before & !0x04u8) by (bit_vector);
    assert((before & !0b0000_0100u8) & 0x04u8 == 0) by (bit_vector);
    assert((before & !0b0000_0100u8) & !0x04u8 == before & !0x04u8) by (bit_vector);
    assert((0u8 | 0b0000_0100u8) == 4u8) by (bit_vector);
    assert((0u8 & !0b0000_0100u8) == 0u8) by (bit_vector);
    lemma_build_bytes(spec_set_classic_not_supported(b, classic_not_supported));
}

/// The type of a service data record: 0x16 for a 16-bit UUID, 0x21 for a 128-bit one.
pub proof fn lemma_service_data_types()
    ensures
        service_data_type(UUID::Short(0)).spec_value() == 0x16,
        forall|u: UUID| #[trigger] service_data_type(u).spec_value() == (if u is Short { 0x16u8 } else { 0x21u8 }),
{
}

/// The bytes of a list of UUIDs are the first UUID's bytes, then those of the rest.
pub proof fn lemma_uuid_list_front(uuids: Seq<UUID>)
    ensures
        uuids.len() == 0 ==> uuid_list_encoding(uuids) == Seq::<u8>::empty(),
        uuids.len() > 0 ==> uuid_list_encoding(uuids) == uuids[0].le_encoding()
            + uuid_list_encoding(uuids.drop_first()),
    decreases uuids.len(),
{
    if uuids.len() > 1 {
        let p = uuids.drop_last();
        lemma_uuid_list_front(p);
        assert(p.drop_first() =~= uuids.drop_first().drop_last());
        assert(uuids.drop_first().last() == uuids.last());
        assert(p[0] == uuids[0]);
        assert(uuid_list_encoding(uuids.drop_first()) == uuid_list_encoding(
            uuids.drop_first().drop_last(),
        ) + uuids.drop_first().last().le_encoding());
        assert(uuid_list_encoding(uuids) =~= uuids[0].le_encoding() + uuid_list_encoding(
            uuids.drop_first(),
        ));
    } else if uuids.len() == 1 {
        assert(uuids.drop_last() =~= Seq::<UUID>::empty());
        assert(uuids.drop_first() =~= Seq::<UUID>::empty());
        assert(uuid_list_encoding(uuids.drop_last()) == Seq::<u8>::empty());
        assert(uuid_list_encoding(uuids.drop_first()) == Seq::<u8>::empty());
        assert(uuids.last() == uuids[0]);
        assert(uuid_list_encoding(uuids) =~= uuids[0].le_encoding() + Seq::<u8>::empty());
    }
}

/// A list of service UUIDs is refused with `UuidInputError` exactly when it is empty or mixes
/// 16-bit and 128-bit UUIDs; otherwise it is pushed as one record of type 0x16 (16-bit) or
/// 0x21 (128-bit) whose data are the UUIDs' bytes in order.
pub proof fn lemma_push_service_uuids_rule(b: BuilderView, uuids: Seq<UUID>)
    ensures
        ({
            let one_kind = (forall|i: int| 0 <= i < uuids.len() ==> (#[trigger] uuids[i]) is Short)
                || (forall|i: int| 0 <= i < uuids.len() ==> (#[trigger] uuids[i]) is Long);
            &&& (uuids.len() == 0 || !one_kind) ==> spec_push_service_uuids(b, uuids)
                == Err::<BuilderView, PushError>(PushError::UuidInputError)
            &&& (uuids.len() > 0 && one_kind) ==> spec_push_service_uuids(b, uuids)
                == spec_push_record(
                b,
                if uuids[0] is Short { 0x16u8 } else { 0x21u8 },
                uuid_list_encoding(uuids),
            )
        }),
{
    let one_kind = (forall|i: int| 0 <= i < uuids.len() ==> (#[trigger] uuids[i]) is Short)
        || (forall|i: int| 0 <= i < uuids.len() ==> (#[trigger] uuids[i]) is Long);
    if uuids.len() > 0 {
        if same_width(uuids) {
            if uuids[0] is Short {
                assert forall|i: int| 0 <= i < uuids.len() implies (#[trigger] uuids[i]) is Short by {
                    assert(uuids[i].spec_encoded_len() == uuids[0].spec_encoded_len());
                }
            } else {
                assert forall|i: int| 0 <= i < uuids.len() implies (#[trigger] uuids[i]) is Long by {
                    assert(uuids[i].spec_encoded_len() == uuids[0].spec_encoded_len());
                }
            }
        }
        if one_kind {
            assert forall|i: int| 0 <= i < uuids.len() implies (#[trigger] uuids[i]).spec_encoded_len()
                == uuids[0].spec_encoded_len() by {
                assert(uuids[0] == uuids[0]);
            }
        }
    }
}

/// On a builder with no pending flags and less than 31 bytes, pushing records none of which is a flags record gives
/// exactly the bytes before followed by those records, or `CapacityExceeded` once the bytes
/// reach 31; whether flags were set stays as it was.
pub proof fn lemma_push_records_bytes(b: BuilderView, rs: Seq<(u8, Seq<u8>)>)
    requires
        b.flags is None,
        b.raw.len() < 31,
        forall|i: int| 0 <= i < rs.len() ==> (#[trigger] rs[i]).0 != AdType::Flags.spec_value(),
    ensures
        spec_push_records(b, rs) == (if b.raw.len() + records_encoding(rs).len() < 31 {
            Ok(
                BuilderView {
                    raw: b.raw + records_encoding(rs),
                    flags: None,
                    has_set_flags: b.has_set_flags,
                },
            )
        } else {
            Err(PushError::CapacityExceeded)
        }),
    decreases rs.len(),
{
    if rs.len() > 0 {
        let p = rs.drop_last();
        assert forall|i: int| 0 <= i < p.len() implies (#[trigger] p[i]).0 != AdType::Flags.spec_value() by {
            assert(p[i] == rs[i]);
        }
        lemma_push_records_bytes(b, p);
        assert(rs[rs.len() - 1] == rs.last());
        let x = rs.last();
        assert(records_encoding(rs) == records_encoding(p) + ad_record(x.0, x.1));
        assert(ad_record(x.0, x.1).len() == x.1.len() + 2);
        assert(x.0 != AdType::Flags.spec_value());
        if b.raw.len() + records_encoding(rs).len() < 31 {
            let c = BuilderView {
                raw: b.raw + records_encoding(p),
                flags: None,
                has_set_flags: b.has_set_flags,
            };
            assert(spec_push_records(b, p) == Ok::<BuilderView, PushError>(c));
            assert(spec_flush(c) == Ok::<BuilderView, PushError>(c));
            let e = BuilderView {
                raw: b.raw + records_encoding(rs),
                flags: None,
                has_set_flags: b.has_set_flags,
            };
            assert(c.raw + ad_record(x.0, x.1) =~= e.raw);
            assert(spec_push_record(c, x.0, x.1) == Ok::<BuilderView, PushError>(e));
        }
        assert(b.raw + records_encoding(p) + ad_record(rs.last().0, rs.last().1) =~= b.raw
            + records_encoding(rs));
    } else {
        assert(b.raw + records_encoding(rs) =~= b.raw);
        assert(b == BuilderView { raw: b.raw + records_encoding(rs), flags: None, has_set_flags: b.has_set_flags });
    }
}

/// On a new builder, a flags record pushed by hand stands: pushing it, then records none of
/// which is a flags record, and building gives exactly those records' bytes, with no default
/// flags record added.
pub proof fn lemma_pushed_flags_stand(flags_data: Seq<u8>, rs: Seq<(u8, Seq<u8>)>)
    requires
        forall|i: int| 0 <= i < rs.len() ==> (#[trigger] rs[i]).0 != AdType::Flags.spec_value(),
    ensures
        spec_push_record(new_builder_view(), 0x01, flags_data) matches Ok(c) ==> (
        spec_push_records(c, rs) matches Ok(e) ==> spec_build(e) == Ok::<Seq<u8>, PushError>(
            ad_record(0x01, flags_data) + records_encoding(rs),
        )),
{
    if let Ok(c) = spec_push_record(new_builder_view(), 0x01, flags_data) {
        assert(c.raw =~= ad_record(0x01, flags_data));
        lemma_push_records_bytes(c, rs);
    }
}

// ---------------------------------------------------------------------------------------------
// The builder
// ---------------------------------------------------------------------------------------------

pub type AdvertisementPayloadBuilder = RawAdvertisementBuilder;

/// Helper to facilitate creating correctly structured advertisement PDUs.
#[derive(Debug)]
pub struct RawAdvertisementBuilder {
    raw: heapless::Vec<u8, 31>,
    flags: Option<u8>,
    has_set_flags: bool,
}

pub open spec fn parts_view(raw: heapless::Vec<u8, 31>, flags: Option<u8>, has_set_flags: bool) -> BuilderView {
    BuilderView { raw: ad_bytes(raw), flags, has_set_flags }
}

impl View for RawAdvertisementBuilder {
    type V = BuilderView;

    closed spec fn view(&self) -> BuilderView {
        parts_view(self.raw, self.flags, self.has_set_flags)
    }
}

impl RawAdvertisementBuilder {
    #[verifier::type_invariant]
    closed spec fn inv(self) -> bool {
        builder_view_wf(parts_view(self.raw, self.flags, self.has_set_flags))
    }
}

/// `r` reports what `expected` describes: on success the parts now hold the view it names.
pub open spec fn parts_outcome(
    r: Result<(), PushError>,
    after: BuilderView,
    expected: Result<BuilderView, PushError>,
) -> bool {
    match expected {
        Ok(v) => r is Ok && after == v,
        Err(e) => r matches Err(x) && x == e,
    }
}

/// Checks that a record whose data has `data_len` bytes leaves a byte of the capacity free,
/// and writes its length byte and its type byte.
fn start_record(raw: &mut heapless::Vec<u8, 31>, ad_type: u8, data_len: usize) -> (r: Result<(), PushError>)
    requires
        ad_bytes(*old(raw)).len() <= 31,
    ensures
        (r is Ok) <==> ad_bytes(*old(raw)).len() + 2 + data_len < 31,
        r is Ok ==> ad_bytes(*final(raw)) == ad_bytes(*old(raw)) + seq![(data_len + 1) as u8, ad_type],
        r is Err ==> r->Err_0 == PushError::CapacityExceeded,
{
    let len = buffer_len(raw);
    if data_len >= 31 || len + 2 + data_len >= 31 {
        return Err(PushError::CapacityExceeded);
    }
    let ghost before = ad_bytes(*raw);
    let length_byte: u8 = (data_len + 1) as u8;
    let _ = buffer_push(raw, length_byte);
    let _ = buffer_push(raw, ad_type);
    assert(ad_bytes(*raw) =~= before + seq![(data_len + 1) as u8, ad_type]);
    Ok(())
}

/// Writes the pending flags, if any, as a flags record.
fn flush_parts(raw: &mut heapless::Vec<u8, 31>, flags: &mut Option<u8>, has_set_flags: &mut bool) -> (r: Result<(), PushError>)
    requires
        ad_bytes(*old(raw)).len() <= 31,
    ensures
        parts_outcome(
            r,
            parts_view(*final(raw), *final(flags), *final(has_set_flags)),
            spec_flush(parts_view(*old(raw), *old(flags), *old(has_set_flags))),
        ),
{
    match *flags {
        Some(f) => {
            *flags = None;
            match start_record(raw, AdType::Flags.value(), 1) {
                Err(e) => return Err(e),
                Ok(()) => {},
            }
            let data: Vec<u8> = vec![f];
            let _ = buffer_extend(raw, data.as_slice());
            *has_set_flags = true;
            assert(ad_bytes(*raw) =~= ad_bytes(*old(raw)) + ad_record(AdType::Flags.spec_value(), seq![f]));
            Ok(())
        },
        None => Ok(()),
    }
}

/// The bytes of a list of UUIDs of one kind: a prefix of `i` UUIDs takes `i` times the width
/// of the first, and each UUID's bytes follow those of the UUIDs before it.
proof fn lemma_uuid_list_prefix(uuids: Seq<UUID>, i: int)
    requires
        same_width(uuids),
        0 <= i <= uuids.len(),
    ensures
        uuid_list_encoding(uuids.take(i)).len() == uuids[0].spec_encoded_len() * i,
        i > 0 ==> uuid_list_encoding(uuids.take(i)) == uuid_list_encoding(uuids.take(i - 1))
            + uuids[i - 1].le_encoding(),
    decreases i,
{
    if i > 0 {
        assert(uuids.take(i).drop_last() =~= uuids.take(i - 1));
        lemma_uuid_list_prefix(uuids, i - 1);
        uuids[i - 1].lemma_le_encoding_len();
        assert(uuids[i - 1].spec_encoded_len() == uuids[0].spec_encoded_len());
        let w = uuids[0].spec_encoded_len();
        assert(w * (i - 1) + w == w * i) by (nonlinear_arith);
    } else {
        assert(uuids.take(0) =~= Seq::<UUID>::empty());
    }
}

/// The number of bytes that each UUID of the list takes in a record: 2 for 16-bit UUIDs, 16
/// for 128-bit ones.  An empty list, or one that mixes the two kinds, is refused.
fn require_equal_size(uuids: &[UUID]) -> (r: Result<usize, PushError>)
    ensures
        (uuids@.len() == 0 || !same_width(uuids@)) ==> (r matches Err(e) && e
            == PushError::UuidInputError),
        (uuids@.len() > 0 && same_width(uuids@)) ==> (r matches Ok(size) && size
            == uuids@[0].spec_encoded_len()),
{
    let mut num_bits: Option<usize> = None;
    let mut i: usize = 0;
    while i < uuids.len()
        invariant
            i <= uuids@.len(),
            i == 0 ==> num_bits is None,
            i > 0 ==> num_bits == Some(uuids@[0].spec_encoded_len() as usize),
            forall|j: int|
                0 <= j < i ==> (#[trigger] uuids@[j]).spec_encoded_len()
                    == uuids@[0].spec_encoded_len(),
        decreases uuids.len() - i,
    {
        let size_of = uuids[i].encoded_len();
        match num_bits {
            Some(n) => {
                if n != size_of {
                    assert(!same_width(uuids@)) by {
                        assert(uuids@[i as int].spec_encoded_len() != uuids@[0].spec_encoded_len());
                    }
                    return Err(PushError::UuidInputError);
                }
            },
            None => {
                num_bits = Some(size_of);
            },
        }
        i = i + 1;
    }
    match num_bits {
        Some(n) => Ok(n),
        None => Err(PushError::UuidInputError),
    }
}

/// `r` is the payload that `expected` names, or the error that it names.
pub open spec fn payload_outcome(
    r: Result<RawAdvertisement, PushError>,
    expected: Result<Seq<u8>, PushError>,
) -> bool {
    match expected {
        Ok(bytes) => r matches Ok(a) && a@ == bytes,
        Err(e) => r matches Err(x) && x == e,
    }
}

impl RawAdvertisementBuilder {
    pub fn new() -> (r: Self)
        ensures
            r@ == new_builder_view(),
            builder_view_wf(r@),
    {
        let raw = buffer_new();
        assert(parse_ad_records(Seq::<u8>::empty()) is Some);
        RawAdvertisementBuilder { raw, flags: None, has_set_flags: false }
    }

    /// Set the discover mode.
    pub fn set_discover_mode(self, discover_mode: DiscoverMode) -> (r: Self)
        ensures
            r@ == spec_set_discover_mode(self@, discover_mode),
            builder_view_wf(r@),
    {
        proof {
            use_type_invariant(&self);
        }
        let RawAdvertisementBuilder { raw, flags, has_set_flags } = self;
        let current: u8 = match flags {
            Some(f) => f,
            None => 0,
        };
        let updated = (current & !DISCOVER_MODE_MASK) | (discover_mode.value() & DISCOVER_MODE_MASK);
        RawAdvertisementBuilder { raw, flags: Some(updated), has_set_flags }
    }

    /// Indicate that Bluetooth Classic (ER/HDR) is _NOT_ supported.
    pub fn set_classic_not_supported(self, classic_not_supported: bool) -> (r: Self)
        ensures
            r@ == spec_set_classic_not_supported(self@, classic_not_supported),
            builder_view_wf(r@),
    {
        proof {
            use_type_invariant(&self);
        }
        let RawAdvertisementBuilder { raw, flags, has_set_flags } = self;
        let current: u8 = match flags {
            Some(f) => f,
            None => 0,
        };
        let updated = if classic_not_supported {
            current | CLASSIC_NOT_SUPPORTED_MASK
        } else {
            current & !CLASSIC_NOT_SUPPORTED_MASK
        };
        RawAdvertisementBuilder { raw, flags: Some(updated), has_set_flags }
    }

    /// Writes the pending flags, then a record of the given type whose data is `head`
    /// followed by `data`.
    fn push_record(self, ad_type: u8, head: &[u8], data: &[u8]) -> (r: Result<Self, PushError>)
        requires
            head@.len() <= 16,
        ensures
            builder_outcome(r, spec_push_record(self@, ad_type, head@ + data@)),
            r matches Ok(b) ==> builder_view_wf(b@),
    {
        proof {
            use_type_invariant(&self);
            lemma_push_record_wf(self@, ad_type, head@ + data@);
        }
        let RawAdvertisementBuilder { mut raw, mut flags, mut has_set_flags } = self;
        match flush_parts(&mut raw, &mut flags, &mut has_set_flags) {
            Err(e) => return Err(e),
            Ok(()) => {},
        }
        let ghost flushed = ad_bytes(raw);
        if data.len() >= 31 {
            return Err(PushError::CapacityExceeded);
        }
        match start_record(&mut raw, ad_type, head.len() + data.len()) {
            Err(e) => return Err(e),
            Ok(()) => {},
        }
        let _ = buffer_extend(&mut raw, head);
        let _ = buffer_extend(&mut raw, data);
        if ad_type == AdType::Flags.value() {
            has_set_flags = true;
        }
        assert(ad_bytes(raw) =~= flushed + ad_record(ad_type, head@ + data@));
        Ok(RawAdvertisementBuilder { raw, flags, has_set_flags })
    }

    pub fn push_manufacturer_data(self, manufacturer_id: u16, data: &[u8]) -> (r: Result<Self, PushError>)
        ensures
            builder_outcome(
                r,
                spec_push_record(
                    self@,
                    AdType::ManufacturerData.spec_value(),
                    le_bytes(manufacturer_id as nat, 2) + data@,
                ),
            ),
            r matches Ok(b) ==> builder_view_wf(b@),
    {
        let id_bytes = le_bytes_of(manufacturer_id as u128, 2);
        proof {
            lemma_le_bytes_len(manufacturer_id as nat, 2);
        }
        self.push_record(AdType::ManufacturerData.value(), id_bytes.as_slice(), data)
    }

    pub fn push_service_data(self, uuid: &UUID, data: &[u8]) -> (r: Result<Self, PushError>)
        ensures
            builder_outcome(
                r,
                spec_push_record(
                    self@,
                    service_data_type(*uuid).spec_value(),
                    uuid.le_encoding() + data@,
                ),
            ),
            r matches Ok(b) ==> builder_view_wf(b@),
    {
        let ad_type = match uuid {
            UUID::Short(_) => AdType::ServiceData16,
            UUID::Long(_) => AdType::ServiceData128,
        };
        let uuid_bytes = uuid.le_bytes_vec();
        self.push_record(ad_type.value(), uuid_bytes.as_slice(), data)
    }

    /// Pushes a list of service UUIDs as one record of the service data type for their kind
    /// (`ServiceData16` or `ServiceData128`).  The list must not be empty and must not mix
    /// 16-bit and 128-bit UUIDs.
    pub fn push_service_uuids(self, uuids: &[UUID]) -> (r: Result<Self, PushError>)
        ensures
            builder_outcome(r, spec_push_service_uuids(self@, uuids@)),
            r matches Ok(b) ==> builder_view_wf(b@),
    {
        proof {
            use_type_invariant(&self);
        }
        let size_of_item = match require_equal_size(uuids) {
            Ok(size) => size,
            Err(e) => return Err(e),
        };
        let ad_type = match &uuids[0] {
            UUID::Short(_) => AdType::ServiceData16,
            UUID::Long(_) => AdType::ServiceData128,
        };
        let ghost body = uuid_list_encoding(uuids@);
        proof {
            lemma_push_record_wf(self@, ad_type.spec_value(), body);
            lemma_uuid_list_prefix(uuids@, uuids@.len() as int);
            assert(uuids@.take(uuids@.len() as int) =~= uuids@);
            assert(ad_type == service_data_type(uuids@[0]));
        }
        let RawAdvertisementBuilder { mut raw, mut flags, mut has_set_flags } = self;
        match flush_parts(&mut raw, &mut flags, &mut has_set_flags) {
            Err(e) => return Err(e),
            Ok(()) => {},
        }
        let ghost flushed = ad_bytes(raw);
        if uuids.len() >= 31 {
            assert(body.len() >= 31) by (nonlinear_arith)
                requires
                    body.len() == size_of_item * uuids@.len(),
                    size_of_item >= 2,
                    uuids@.len() >= 31,
            ;
            return Err(PushError::CapacityExceeded);
        }
        assert(size_of_item * uuids.len() <= 16 * 30) by (nonlinear_arith)
            requires
                size_of_item <= 16,
                uuids.len() <= 30,
        ;
        let declared = size_of_item * uuids.len();
        match start_record(&mut raw, ad_type.value(), declared) {
            Err(e) => return Err(e),
            Ok(()) => {},
        }
        let ghost header = seq![(declared + 1) as u8, ad_type.spec_value()];
        proof {
            lemma_uuid_list_prefix(uuids@, 0);
            assert(ad_bytes(raw) =~= flushed + header + uuid_list_encoding(uuids@.take(0)));
        }
        let mut i: usize = 0;
        while i < uuids.len()
            invariant
                0 <= i <= uuids@.len(),
                same_width(uuids@),
                size_of_item == uuids@[0].spec_encoded_len(),
                ad_bytes(raw) == flushed + header + uuid_list_encoding(uuids@.take(i as int)),
                flushed.len() + 2 + declared < 31,
                declared == size_of_item * uuids@.len(),
                header == seq![(declared + 1) as u8, ad_type.spec_value()],
            decreases uuids.len() - i,
        {
            proof {
                lemma_uuid_list_prefix(uuids@, i as int);
                lemma_uuid_list_prefix(uuids@, i + 1);
                assert(size_of_item * (i + 1) <= size_of_item * uuids@.len()) by (nonlinear_arith)
                    requires
                        i + 1 <= uuids@.len(),
                ;
                uuids@[i as int].lemma_le_encoding_len();
            }
            let _ = uuids[i].push_into(&mut raw);
            i = i + 1;
            assert(ad_bytes(raw) =~= flushed + header + uuid_list_encoding(uuids@.take(i as int)));
        }
        assert(ad_bytes(raw) =~= flushed + ad_record(ad_type.spec_value(), body));
        Ok(RawAdvertisementBuilder { raw, flags, has_set_flags })
    }

    /// Push the short local name.  It is presumed that this name is either the same or shorter than the
    /// name assigned to the peripheral itself, and UI treatment from external parties will likely
    /// reflect this and update the name after connection is established and the "full" name is
    /// read from the built-in characteristic.  The full name can also be manually pushed using
    /// [AdType::LongLocalName].
    pub fn push_local_name(self, name: &str) -> (r: Result<Self, PushError>)
        ensures
            builder_outcome(
                r,
                spec_push_record(self@, AdType::ShortLocalName.spec_value(), name.spec_bytes()),
            ),
            r matches Ok(b) ==> builder_view_wf(b@),
    {
        let empty: Vec<u8> = Vec::new();
        let r = self.push_record(AdType::ShortLocalName.value(), empty.as_slice(), name.as_bytes());
        assert(empty@ + name.spec_bytes() =~= name.spec_bytes());
        r
    }

    pub fn push_raw_ad_type(self, ad_type: u8, data: &[u8]) -> (r: Result<Self, PushError>)
        ensures
            builder_outcome(r, spec_push_record(self@, ad_type, data@)),
            r matches Ok(b) ==> builder_view_wf(b@),
    {
        let empty: Vec<u8> = Vec::new();
        let r = self.push_record(ad_type, empty.as_slice(), data);
        assert(empty@ + data@ =~= data@);
        r
    }

    fn flush_pending_record(self) -> (r: Result<Self, PushError>)
        ensures
            builder_outcome(r, spec_flush(self@)),
            r matches Ok(b) ==> builder_view_wf(b@),
    {
        proof {
            use_type_invariant(&self);
            lemma_flush_wf(self@);
        }
        let RawAdvertisementBuilder { mut raw, mut flags, mut has_set_flags } = self;
        match flush_parts(&mut raw, &mut flags, &mut has_set_flags) {
            Err(e) => Err(e),
            Ok(()) => Ok(RawAdvertisementBuilder { raw, flags, has_set_flags }),
        }
    }

    fn ensure_defaults_set(self) -> (r: Result<Self, PushError>)
        ensures
            r matches Ok(b) && b@ == spec_ensure_defaults(self@) && builder_view_wf(b@),
    {
        proof {
            use_type_invariant(&self);
        }
        if !self.has_set_flags && self.flags.is_none() {
            let b = self.set_discover_mode(DiscoverMode::General);
            let b = b.set_classic_not_supported(true);
            let RawAdvertisementBuilder { raw, flags, has_set_flags: _ } = b;
            Ok(RawAdvertisementBuilder { raw, flags, has_set_flags: true })
        } else {
            Ok(self)
        }
    }

    pub fn build(self) -> (r: Result<RawAdvertisement, PushError>)
        ensures
            payload_outcome(r, spec_build(self@)),
            r matches Ok(a) ==> a@.len() < 31 && payload_well_formed(a@),
            r matches Ok(a) ==> has_flags_record(parse_ad_records(a@).unwrap()),
    {
        let b = match self.ensure_defaults_set() {
            Ok(b) => b,
            Err(e) => return Err(e),
        };
        proof {
            lemma_flush_wf(b@);
        }
        let b = match b.flush_pending_record() {
            Ok(b) => b,
            Err(e) => return Err(e),
        };
        proof {
            use_type_invariant(&b);
        }
        Ok(RawAdvertisement(b.raw))
    }
}

impl Default for RawAdvertisementBuilder {
    fn default() -> (r: Self)
        ensures
            r@ == new_builder_view(),
    {
        RawAdvertisementBuilder::new()
    }
}

impl Clone for RawAdvertisementBuilder {
    fn clone(&self) -> (r: Self)
        ensures
            r@ == self@,
    {
        proof {
            use_type_invariant(self);
        }
        RawAdvertisementBuilder {
            raw: buffer_clone(&self.raw),
            flags: self.flags,
            has_set_flags: self.has_set_flags,
        }
    }
}

/// Represents the raw payload for an advertisement.
#[derive(Debug, PartialEq, Eq)]
pub struct RawAdvertisement(pub heapless::Vec<u8, 31>);

impl Clone for RawAdvertisement {
    fn clone(&self) -> (r: Self)
        ensures
            r@ == self@,
    {
        RawAdvertisement(buffer_clone(&self.0))
    }
}

impl View for RawAdvertisement {
    type V = Seq<u8>;

    open spec fn view(&self) -> Seq<u8> {
        ad_bytes(self.0)
    }
}

impl Deref for RawAdvertisement {
    type Target = [u8];

    fn deref(&self) -> (s: &[u8])
        ensures
            s@ == self@,
    {
        buffer_as_slice(&self.0)
    }
}

pub type AdvertisementPayload = RawAdvertisement;

pub type ScanResponsePayload = RawAdvertisement;

} // verus!
