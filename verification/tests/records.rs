//! Record and message engine tests: round trips, the worked north marker
//! data block, and the structural failure modes.

use asterix_cat34::asterix::cat34::{decode, encode, Cat34Message};
use asterix_cat34::asterix::header_field::Header;
use asterix_cat34::asterix::record34::{
    calculate_record_length, decode_field_spec, Cat34Fspec, Record34, FSPEC_FX,
};
use asterix_cat34::category::{CatError, Category};
use asterix_cat34::encode_asterix;
use asterix_cat34::decode_asterix;
use asterix_cat34::uap::data_source_field::DataSource;
use asterix_cat34::uap::message_type_field::{MessageType, MessageTypeEnum};
use asterix_cat34::uap::sector_number_field::SectorNumber;
use asterix_cat34::uap::time_of_day_field::TimeOfDay;
use bytes::Bytes;

// North Marker message, length 23
// WGS84 Height 555 m
// WGS84 Latitude 47.8034663200378 deg
// WGS84 Longitude 9.27816867828369 deg
const NORTH_MARKER: [u8; 23] = [
    0x22, 0x00, 0x17, 0xed, 0x10, 0x7b, 0x2a, 0x01, 0x4e, 0x51, 0x7b, 0x01, 0x00, 0x80, 0x00,
    0x02, 0x2b, 0x21, 0xfe, 0x5b, 0x06, 0x99, 0x0a,
];

#[test]
fn check_header() {
    // Create message
    let mut header = Header::default();
    header.set_cat(34);
    header.set_len(1234);

    // Convert struct to byte stream
    let array = header.to_bytes();

    // New message
    let mut object = Header::default();

    // Convert byte stream to struct
    object.from_bytes(&array);

    assert_eq!(header.get_cat(), object.get_cat());
    assert_eq!(header.get_len(), object.get_len());
}

#[test]
fn check_cat34_header() {
    let mut message = Cat34Message::default();

    let mut header = Header::default();
    header.set_cat(26);
    header.set_len(42);

    message.set_header(header);

    assert_eq!(message.get_header().get_cat(), 26);
    assert_eq!(message.get_header().get_len(), 42);
}

#[test]
fn check_cat34_record() {
    let mut message = Cat34Message::default();

    let first_record = Record34::default();
    let second_record = Record34::default();

    message.insert_record34(first_record);
    message.insert_record34(second_record);

    assert_eq!(message.remove_record34(), Some(Record34::default()));
    assert_eq!(message.remove_record34(), Some(Record34::default()));
    assert_eq!(message.remove_record34(), None);
}

#[test]
fn check_record() {
    // Create data source
    let mut message_type = MessageType::default();
    message_type.set_message_type(MessageTypeEnum::JammingStrobe);

    // Create data source
    let mut data_source = DataSource::default();
    data_source.set_source_id_sic(42);
    data_source.set_source_id_sac(26);

    // Create time of day, 12345.6 seconds in 1/128 second counts
    let mut time_day = TimeOfDay::default();
    time_day.set_time((12345.6_f32 * 128.0) as u32);

    // Create sector number
    let mut sector = SectorNumber::default();
    sector.set_sector(0);

    // Create record
    let record = Record34 {
        message_type: Some(message_type),
        data_source_id: Some(data_source),
        time_of_day: Some(time_day),
        sector_number: Some(sector),
        antenna_rotation: None,
        system_configuration_status: None,
        system_processing_mode: None,
        generic_polar_window: None,
        position_source: None,
    };

    // Create default record
    let record2 = Record34::default();
    assert_eq!(record2.data_source_id, None);

    // The encoded record announces its fields in one FSPEC octet
    let bytes = record.encode().unwrap();
    assert_eq!(calculate_record_length(&record), bytes.len());
}

#[test]
fn test_encode() {
    let mut message = Cat34Message::default();

    let record34 = Record34::default();
    message.insert_record34(record34);

    let result = encode(&message);
    assert!(result.is_ok());
}

#[test]
fn test_decode() {
    let bytes = Bytes::from(NORTH_MARKER.to_vec());

    let result = decode(&bytes);
    assert!(result.is_ok());
}

#[test]
fn test_try_from() {
    let cat_enum = Category::Cat034(Cat34Message::default());
    let cat: Cat34Message = Cat34Message::try_from(cat_enum).unwrap();

    assert_eq!(cat, Cat34Message::default());
}

#[test]
fn lib_test_encode() {
    let mut header = Header::default();
    header.set_cat(Cat34Message::CATEGORY);

    let record34 = Record34::default();

    let mut message34 = Cat34Message::default();
    message34.set_header(header);
    message34.insert_record34(record34);

    let cat = Category::Cat034(message34);

    let messages = vec![cat];

    let result = encode_asterix(&messages);

    assert_eq!(result.is_ok(), true);
}

#[test]
fn lib_test_decode() {
    let bytes = Bytes::from(NORTH_MARKER.to_vec());

    let result = decode_asterix(&bytes);

    assert_eq!(result.is_err(), false);
}

#[test]
fn north_marker_end_to_end() {
    let bytes = Bytes::from(NORTH_MARKER.to_vec());

    let message = decode(&bytes).unwrap();
    assert_eq!(message.get_header().get_cat(), 34);
    assert_eq!(message.get_header().get_len(), 23);
    assert_eq!(message.record.len(), 1);

    let record = &message.record[0];
    let ds = record.data_source_id.unwrap();
    assert_eq!(ds.get_source_id_sic(), 0x7b);
    assert_eq!(ds.get_source_id_sac(), 0x2a);
    assert_eq!(
        record.message_type.unwrap().get_message_type(),
        MessageTypeEnum::NorthMarker
    );
    assert_eq!(record.time_of_day.unwrap().get_time(), 0x4e517b);
    assert_eq!(record.sector_number, None);
    assert_eq!(record.antenna_rotation.unwrap().get_period(), 0x0100);
    assert!(record.system_configuration_status.is_some());
    assert_eq!(record.system_processing_mode, None);
    assert_eq!(record.generic_polar_window, None);

    // Height 555 m, latitude and longitude within one LSB of the worked
    // example's WGS84 position
    let pos = record.position_source.unwrap();
    assert_eq!(pos.get_height(), 555);
    let (lat_raw, lon_raw) = pos.get_lat_lon();
    assert_eq!(lat_raw, 0x21fe5b);
    assert_eq!(lon_raw, 0x06990a);
    let lsb = 180.0_f64 / 8388608.0;
    assert!((lat_raw as f64 * lsb - 47.8034663200378).abs() < lsb);
    assert!((lon_raw as f64 * lsb - 9.27816867828369).abs() < lsb);

    // Re-encoding the decoded message reproduces the buffer exactly
    let encoded = encode(&message).unwrap();
    assert_eq!(&encoded[..], &NORTH_MARKER[..]);
}

#[test]
fn record_round_trip() {
    let bytes = Bytes::from(NORTH_MARKER[3..].to_vec());

    let mut record = Record34::default();
    let used = record.decode(&bytes).unwrap();
    assert_eq!(used, 20);

    let encoded = record.encode().unwrap();
    assert_eq!(&encoded[..], &NORTH_MARKER[3..]);

    let mut again = Record34::default();
    let used_again = again.decode(&encoded).unwrap();
    assert_eq!(used_again, 20);
    assert_eq!(again, record);
}

#[test]
fn empty_record_round_trip() {
    let record = Record34::default();
    let encoded = record.encode().unwrap();
    assert_eq!(&encoded[..], &[0x00]);

    let mut decoded = Record34::default();
    let used = decoded.decode(&encoded).unwrap();
    assert_eq!(used, 1);
    assert_eq!(decoded, record);
}

#[test]
fn field_spec_chain_walk() {
    let buf = vec![0x81u8, 0x01, 0x00, 0x55];
    let chain = decode_field_spec(&buf, 0).unwrap();
    assert_eq!(chain.len(), 3);
    assert_eq!(chain[0].get_fspec(), 0x81);
    assert_eq!(chain[1].get_fspec(), 0x01);
    assert_eq!(chain[2].get_fspec(), 0x00);
    assert!(chain[0].get_fspec_bit(FSPEC_FX));
    assert!(!chain[2].get_fspec_bit(FSPEC_FX));
}

#[test]
fn unterminated_field_spec_chain() {
    // Every octet keeps the FX bit set: the walk must stop at the end of
    // the buffer and report the malformed chain
    let buf = vec![0xffu8; 8];
    assert_eq!(decode_field_spec(&buf, 0), Err(CatError::SizeInvalid));

    let mut record = Record34::default();
    let bytes = Bytes::from(vec![0xffu8; 8]);
    assert_eq!(record.decode(&bytes), Err(CatError::SizeInvalid));
}

#[test]
fn header_length_counts_whole_message() {
    let bytes = Bytes::from(NORTH_MARKER.to_vec());
    let message = decode(&bytes).unwrap();
    let encoded = encode(&message).unwrap();

    let hi = encoded[1] as usize;
    let lo = encoded[2] as usize;
    assert_eq!(256 * hi + lo, encoded.len());
}

#[test]
fn boundary_failures() {
    // Shorter than the three header octets
    let short = Bytes::from(vec![0x22u8, 0x00]);
    assert_eq!(decode(&short), Err(CatError::SizeInvalid));

    // Category tag that is not 34
    let wrong_cat = Bytes::from(vec![0x21u8, 0x00, 0x03]);
    assert_eq!(decode(&wrong_cat), Err(CatError::CategoryInvalid));

    // Declared length disagrees with the buffer
    let wrong_len = Bytes::from(vec![0x22u8, 0x00, 0x09, 0x00]);
    assert_eq!(decode(&wrong_len), Err(CatError::SizeInvalid));

    // A record that announces a field the buffer does not hold
    let truncated = Bytes::from(vec![0x22u8, 0x00, 0x05, 0x80, 0x7b]);
    assert_eq!(decode(&truncated), Err(CatError::SizeInvalid));

    // Encoding a message whose category is not 34
    let mut message = Cat34Message::default();
    let mut header = Header::default();
    header.set_cat(7);
    message.set_header(header);
    assert_eq!(encode(&message), Err(CatError::CategoryInvalid));
}

#[test]
fn empty_message_round_trip() {
    // A header alone is a data block of zero records
    let message = Cat34Message::default();
    let encoded = encode(&message).unwrap();
    assert_eq!(&encoded[..], &[0x22, 0x00, 0x03]);

    let decoded = decode(&encoded).unwrap();
    assert_eq!(decoded.record.len(), 0);
    assert_eq!(decoded.get_header().get_len(), 3);
}

#[test]
fn two_records_in_one_message() {
    let mut message = Cat34Message::default();

    let mut data_source = DataSource::new();
    data_source.set_source_id_sic(1);
    data_source.set_source_id_sac(2);
    let mut first = Record34::default();
    first.data_source_id = Some(data_source);

    let mut sector = SectorNumber::new();
    sector.set_sector(128);
    let mut second = Record34::default();
    second.sector_number = Some(sector);

    message.insert_record34(first.clone());
    message.insert_record34(second.clone());

    let encoded = encode(&message).unwrap();
    assert_eq!(&encoded[..], &[0x22, 0x00, 0x08, 0x80, 0x01, 0x02, 0x10, 0x80]);

    let decoded = decode(&encoded).unwrap();
    assert_eq!(decoded.record.len(), 2);
    assert_eq!(decoded.record[0], first);
    assert_eq!(decoded.record[1], second);
}

#[test]
fn unsupported_frn_is_rejected() {
    // A second FSPEC octet announcing FRN 8 (message count values), which
    // this profile gives no layout
    let bytes = Bytes::from(vec![0x22u8, 0x00, 0x08, 0x01, 0x80, 0x00, 0x00, 0x00]);
    assert_eq!(decode(&bytes), Err(CatError::SizeInvalid));
}

#[test]
fn frn_numbering() {
    assert_eq!(Cat34Fspec::I034_010.frn(), 1);
    assert_eq!(Cat34Fspec::I034_000.frn(), 2);
    assert_eq!(Cat34Fspec::I034_070.frn(), 8);
    assert_eq!(Cat34Fspec::I034_100.frn(), 9);
    assert_eq!(Cat34Fspec::I034_120.frn(), 11);
    assert_eq!(Cat34Fspec::I034SP.frn(), 14);
}
