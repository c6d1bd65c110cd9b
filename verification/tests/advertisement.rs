use core::time::Duration;

use ble_peripheral::advertisement::{
    AdType, AdvertisementParams, AdvertisementPayloadBuilder, AdvertisementRequest, ConnectMode, DiscoverMode, PushError,
    RawAdvertisementBuilder,
};
use ble_peripheral::descriptors::UUID;

/// Reads the records of a payload one after the other: a length byte, a type byte, and
/// `length - 1` bytes of data; stops at the end or at a length byte of 0.
struct AdRecordIter<'a> {
    data: &'a [u8],
    pos: usize,
}

impl<'a> AdRecordIter<'a> {
    pub fn new(data: &'a [u8]) -> Self {
        Self { data, pos: 0 }
    }
}

impl<'a> Iterator for AdRecordIter<'a> {
    type Item = AdRecord;

    fn next(&mut self) -> Option<Self::Item> {
        let length = *self.data.get(self.pos)? as usize;
        if length < 1 {
            return None;
        }
        let ad_type = *self.data.get(self.pos + 1)?;
        let data = self.data.get(self.pos + 2..self.pos + 1 + length)?.to_vec();
        self.pos += 1 + length;
        Some(AdRecord { ad_type, data })
    }
}

#[derive(Debug, Clone, PartialEq, Eq)]
struct AdRecord {
    ad_type: u8,
    data: Vec<u8>,
}

impl AdRecord {
    pub fn new(ad_type: AdType, data: &[u8]) -> Self {
        Self {
            ad_type: ad_type.value(),
            data: data.to_vec(),
        }
    }
}

fn concat<T: Clone>(a: &[T], b: &[T]) -> Vec<T> {
    [a.to_vec(), b.to_vec()].into_iter().flatten().collect()
}

#[test]
pub fn test_flags_default_encoding() {
    let adv = AdvertisementPayloadBuilder::new().build().unwrap();

    assert_eq!(adv.0, [0x02, 0x01, 0x06]);
}

#[test]
pub fn test_flags_non_default_encoding() {
    let adv = AdvertisementPayloadBuilder::new()
        .set_discover_mode(DiscoverMode::Limited)
        .set_classic_not_supported(true)
        .build()
        .unwrap();

    assert_eq!(adv.0, [0x02, 0x01, 0b0000_0101]);
}

#[test]
pub fn test_service_data() {
    let short_uuid = 0x1234;
    let short_data = [0x1];
    let long_uuid = 0x0123456789abcdef;
    let long_data = [0x2];

    let adv = AdvertisementPayloadBuilder::new()
        .push_service_data(&UUID::Short(short_uuid), &short_data)
        .unwrap()
        .push_service_data(&UUID::Long(long_uuid), &long_data)
        .unwrap()
        .build()
        .unwrap();

    let mut iter = AdRecordIter::new(&adv.0);
    let short_record_data = concat(&short_uuid.to_le_bytes(), &short_data);
    assert_eq!(
        iter.next(),
        Some(AdRecord::new(AdType::ServiceData16, &short_record_data))
    );
    let long_record_data = concat(&long_uuid.to_le_bytes(), &long_data);
    assert_eq!(
        iter.next(),
        Some(AdRecord::new(AdType::ServiceData128, &long_record_data))
    );
}

#[test]
pub fn test_manufacturer_data() {
    let mfg_id = 0x1234;
    let mfg_data = "manufacturer".as_bytes();

    let adv = AdvertisementPayloadBuilder::new()
        .push_manufacturer_data(mfg_id, mfg_data)
        .unwrap()
        .build()
        .unwrap();

    let mut iter = AdRecordIter::new(&adv.0);
    let record_data = concat(&mfg_id.to_le_bytes(), mfg_data);
    assert_eq!(
        iter.next(),
        Some(AdRecord::new(AdType::ManufacturerData, &record_data))
    );
}

#[test]
fn default_flags_come_after_the_records_pushed() {
    let adv = RawAdvertisementBuilder::new()
        .push_local_name("ab")
        .unwrap()
        .build()
        .unwrap();
    assert_eq!(adv.0, [0x03, 0x08, b'a', b'b', 0x02, 0x01, 0x06]);
}

#[test]
fn flags_set_before_a_record_come_first() {
    let adv = RawAdvertisementBuilder::new()
        .set_discover_mode(DiscoverMode::General)
        .push_local_name("x")
        .unwrap()
        .build()
        .unwrap();
    assert_eq!(adv.0, [0x02, 0x01, 0x02, 0x02, 0x08, b'x']);
}

#[test]
fn a_raw_flags_record_replaces_the_defaults() {
    let adv = RawAdvertisementBuilder::new()
        .push_raw_ad_type(AdType::Flags.value(), &[0x05])
        .unwrap()
        .build()
        .unwrap();
    assert_eq!(adv.0, [0x02, 0x01, 0x05]);
}

#[test]
fn setting_the_discover_mode_keeps_the_classic_bit() {
    let adv = RawAdvertisementBuilder::new()
        .set_classic_not_supported(true)
        .set_discover_mode(DiscoverMode::Limited)
        .build()
        .unwrap();
    assert_eq!(adv.0, [0x02, 0x01, 0x05]);
    let adv = RawAdvertisementBuilder::new()
        .set_classic_not_supported(true)
        .set_discover_mode(DiscoverMode::General)
        .build()
        .unwrap();
    assert_eq!(adv.0, [0x02, 0x01, 0x06]);
}

#[test]
fn the_last_discover_mode_counts() {
    let adv = RawAdvertisementBuilder::new()
        .set_discover_mode(DiscoverMode::Limited)
        .set_discover_mode(DiscoverMode::General)
        .build()
        .unwrap();
    assert_eq!(adv.0, [0x02, 0x01, 0x02]);
}

#[test]
fn classic_supported_clears_the_bit() {
    let adv = RawAdvertisementBuilder::new()
        .set_discover_mode(DiscoverMode::General)
        .set_classic_not_supported(true)
        .set_classic_not_supported(false)
        .build()
        .unwrap();
    assert_eq!(adv.0, [0x02, 0x01, 0x02]);
}

#[test]
fn a_non_discoverable_mode_writes_no_mode_bits() {
    let adv = RawAdvertisementBuilder::new()
        .set_discover_mode(DiscoverMode::NonDiscoverable)
        .build()
        .unwrap();
    assert_eq!(adv.0, [0x02, 0x01, 0x00]);
}

#[test]
fn a_record_that_fills_the_capacity_is_refused() {
    // 2 header bytes + 29 data bytes would use all 31 bytes: refused.
    let r = RawAdvertisementBuilder::new().push_raw_ad_type(0x09, &[0u8; 29]);
    assert!(matches!(r, Err(PushError::CapacityExceeded)));
    // 28 data bytes leave one byte free: accepted.
    let b = RawAdvertisementBuilder::new()
        .push_raw_ad_type(0x09, &[7u8; 28])
        .unwrap();
    // The default flags record no longer fits when building.
    assert!(matches!(b.build(), Err(PushError::CapacityExceeded)));
}

#[test]
fn pending_flags_that_do_not_fit_refuse_the_push() {
    let b = RawAdvertisementBuilder::new()
        .push_raw_ad_type(0x09, &[1u8; 26])
        .unwrap()
        .set_discover_mode(DiscoverMode::General);
    // 28 bytes are held; the pending flags record needs 3 more, which would reach 31.
    assert!(matches!(
        b.clone().push_raw_ad_type(0x0a, &[]),
        Err(PushError::CapacityExceeded)
    ));
    assert!(matches!(b.build(), Err(PushError::CapacityExceeded)));
}

#[test]
fn a_long_name_is_refused() {
    let r = RawAdvertisementBuilder::new().push_local_name("a name that is far too long for it");
    assert!(matches!(r, Err(PushError::CapacityExceeded)));
}

#[test]
fn an_empty_uuid_list_is_refused() {
    let r = RawAdvertisementBuilder::new().push_service_uuids(&[]);
    assert!(matches!(r, Err(PushError::UuidInputError)));
}

#[test]
fn a_list_of_short_uuids_is_one_record() {
    let adv = RawAdvertisementBuilder::new()
        .push_service_uuids(&[UUID::Short(0x180F)])
        .unwrap()
        .build()
        .unwrap();
    assert_eq!(adv.0, [0x03, 0x16, 0x0F, 0x18, 0x02, 0x01, 0x06]);
    let adv = RawAdvertisementBuilder::new()
        .push_service_uuids(&[UUID::Short(0x180F), UUID::Short(0x180D)])
        .unwrap()
        .build()
        .unwrap();
    assert_eq!(adv.0, [0x05, 0x16, 0x0F, 0x18, 0x0D, 0x18, 0x02, 0x01, 0x06]);
}

#[test]
fn a_list_of_long_uuids_is_one_record() {
    let long = 0x0123456789abcdef_fedcba9876543210u128;
    let adv = RawAdvertisementBuilder::new()
        .push_service_uuids(&[UUID::Long(long)])
        .unwrap()
        .build()
        .unwrap();
    let mut expected = vec![17u8, 0x21];
    expected.extend_from_slice(&long.to_le_bytes());
    expected.extend_from_slice(&[0x02, 0x01, 0x06]);
    assert_eq!(adv.0, expected.as_slice());
    let r = RawAdvertisementBuilder::new().push_service_uuids(&[UUID::Long(1), UUID::Long(2)]);
    assert!(matches!(r, Err(PushError::CapacityExceeded)));
}

#[test]
fn a_mixed_uuid_list_is_refused() {
    let r = RawAdvertisementBuilder::new().push_service_uuids(&[UUID::Short(1), UUID::Long(2)]);
    assert!(matches!(r, Err(PushError::UuidInputError)));
    let r = RawAdvertisementBuilder::new().push_service_uuids(&[UUID::Long(2), UUID::Short(1)]);
    assert!(matches!(r, Err(PushError::UuidInputError)));
}

#[test]
fn service_data_writes_the_uuid_little_endian() {
    let b = RawAdvertisementBuilder::new()
        .push_service_data(&UUID::Short(0xabcd), &[9])
        .unwrap()
        .build()
        .unwrap();
    assert_eq!(b.0, [0x04, 0x16, 0xcd, 0xab, 0x09, 0x02, 0x01, 0x06]);
}

#[test]
fn the_payload_derefs_to_its_bytes() {
    let adv = RawAdvertisementBuilder::new().build().unwrap();
    let bytes: &[u8] = &adv;
    assert_eq!(bytes, &[0x02, 0x01, 0x06]);
    assert_eq!(adv.clone(), adv);
}

#[test]
fn the_builder_can_be_cloned_and_defaulted() {
    let b = RawAdvertisementBuilder::default().set_discover_mode(DiscoverMode::Limited);
    let c = b.clone();
    assert_eq!(b.build().unwrap(), c.build().unwrap());
}

#[test]
fn ad_type_and_mode_values() {
    assert_eq!(AdType::Flags.value(), 0x01);
    assert_eq!(AdType::ShortLocalName.value(), 0x08);
    assert_eq!(AdType::ServiceData128.value(), 0x21);
    assert_eq!(AdType::Uri.value(), 0x24);
    assert_eq!(AdType::ManufacturerData.value(), 0xff);
    assert_eq!(DiscoverMode::Limited.value(), 1);
    assert_eq!(DiscoverMode::General.value(), 2);
    assert_eq!(DiscoverMode::NonDiscoverable.value(), 0);
    assert_eq!(ConnectMode::Undirected.value(), 0);
    assert_eq!(ConnectMode::Directed.value(), 1);
    assert_eq!(ConnectMode::NonConnectable.value(), 2);
    assert_eq!(ConnectMode::default(), ConnectMode::Directed);
}

#[test]
fn every_payload_reads_as_records() {
    let adv = RawAdvertisementBuilder::new()
        .push_manufacturer_data(0x0102, &[1, 2, 3])
        .unwrap()
        .push_local_name("hi")
        .unwrap()
        .build()
        .unwrap();
    let records: Vec<AdRecord> = AdRecordIter::new(&adv.0).collect();
    assert_eq!(
        records,
        vec![
            AdRecord { ad_type: 0xff, data: vec![0x02, 0x01, 1, 2, 3] },
            AdRecord { ad_type: 0x08, data: vec![b'h', b'i'] },
            AdRecord { ad_type: 0x01, data: vec![0x06] },
        ]
    );
    let total: usize = records.iter().map(|r| r.data.len() + 2).sum();
    assert_eq!(total, adv.0.len());
    assert!(adv.0.len() < 31);
}

#[test]
fn advertisement_params_default_and_request_clone() {
    let params = AdvertisementParams::default();
    assert_eq!(params.connect_mode, ConnectMode::Directed);
    assert_eq!(params.interval_min, None);
    assert_eq!(params.interval_max, None);

    let mut params = AdvertisementParams::default();
    params.connect_mode = ConnectMode::Undirected;
    params.interval_min = Some(Duration::from_millis(20));
    let request = AdvertisementRequest {
        params: params.clone(),
        payload: RawAdvertisementBuilder::new().build().unwrap(),
        scan_response_payload: Some(
            RawAdvertisementBuilder::new()
                .push_local_name("n")
                .unwrap()
                .build()
                .unwrap(),
        ),
    };
    let copy = request.clone();
    assert_eq!(copy, request);
    assert_eq!(copy.params, params);
}
