//! Field codec tests: round trips through each data item's byte layout.

use asterix_cat34::uap::antenna_rotation_field::AntennaRotation;
use asterix_cat34::uap::data_source_field::DataSource;
use asterix_cat34::uap::field_spec::FieldSpec;
use asterix_cat34::uap::generic_polar_window_field::GenericPolarWindow;
use asterix_cat34::uap::message_type_field::{MessageType, MessageTypeEnum};
use asterix_cat34::uap::position_source_field::PositionSource;
use asterix_cat34::uap::sector_number_field::SectorNumber;
use asterix_cat34::uap::system_configuration_field::{Subfield, SystemConfigurationStatus};
use asterix_cat34::uap::system_processing_field::Subfield as ProcessingSubfield;
use asterix_cat34::uap::system_processing_field::SystemProcessingMode;
use asterix_cat34::uap::time_of_day_field::TimeOfDay;

#[test]
fn check_subfield() {
    // Create message
    let mut field_spec = FieldSpec::new();
    field_spec.set_fspec(0x0a);

    // Convert struct to byte stream
    let array = field_spec.to_bytes();

    // New message
    let mut object = FieldSpec::new();

    // Convert byte stream to struct
    object.from_bytes(&array);

    assert_eq!(field_spec.get_fspec(), object.get_fspec());
}

#[test]
fn check_set_fspec_bit() {
    // Create message
    let mut field_spec = FieldSpec::new();
    field_spec.set_fspec(0b00001111);

    field_spec.set_fspec_bit(1);

    assert_eq!(field_spec.get_fspec(), 0b10001111);
}

#[test]
fn check_get_fspec_bit() {
    // Create message
    let mut field_spec = FieldSpec::new();
    field_spec.set_fspec(0b10001111);

    let bit = field_spec.get_fspec_bit(1);

    assert_eq!(bit, true);
}

#[test]
fn check_message_type() {
    // Create message
    let mut message_type = MessageType::new();
    message_type.set_message_type(MessageTypeEnum::JammingStrobe);

    // Convert struct to byte stream
    let array = message_type.to_bytes();

    // New message
    let mut object = MessageType::new();

    // Convert byte stream to struct
    object.from_bytes(&array);

    assert_eq!(message_type.get_message_type(), object.get_message_type());
}

#[test]
fn check_data_source() {
    // Create message
    let mut data_source = DataSource::new();
    data_source.set_source_id_sic(42);
    data_source.set_source_id_sac(26);

    // Convert struct to byte stream
    let array = data_source.to_bytes();

    // New message
    let mut object = DataSource::new();

    // Convert byte stream to struct
    object.from_bytes(&array);

    assert_eq!(data_source.get_source_id_sic(), object.get_source_id_sic());
    assert_eq!(data_source.get_source_id_sac(), object.get_source_id_sac());
}

#[test]
fn check_time() {
    // Create message with a time of 3.0 seconds in 1/128 second counts
    let time: f32 = 3.0;
    let raw = (time * 128.0) as u32;
    let mut time_day = TimeOfDay::default();
    time_day.set_time(raw);

    // Convert struct to byte stream
    let array = time_day.to_bytes();

    // New message
    let mut object = TimeOfDay::default();

    // Convert byte stream to struct
    object.from_bytes(&array);

    assert_eq!(time_day.get_time(), object.get_time());
    assert_eq!(object.get_time(), 384);
}

#[test]
fn check_sector() {
    // Create message with a sector of 3.0 degrees in 360/256 degree counts
    let sector: f32 = 3.0;
    let raw = (sector / (360.0 / 256.0)) as u8;
    let mut sector_number = SectorNumber::new();
    sector_number.set_sector(raw);

    // Convert struct to byte stream
    let array = sector_number.to_bytes();

    // New message
    let mut object = SectorNumber::new();

    // Convert byte stream to struct
    object.from_bytes(&array);

    assert_eq!(sector_number.get_sector(), object.get_sector());
}

#[test]
fn check_period() {
    // Create message with a period of 5.2 seconds in 1/128 second counts
    let period: f32 = 5.2;
    let raw = (period * 128.0) as u16;
    let mut antenna_rotation = AntennaRotation::default();
    antenna_rotation.set_period(raw);

    // Convert struct to byte stream
    let array = antenna_rotation.to_bytes();

    // New message
    let mut object = AntennaRotation::default();

    // Convert byte stream to struct
    object.from_bytes(&array);

    assert_eq!(antenna_rotation.get_period(), object.get_period());
}

#[test]
fn check_polar_window() {
    // Create message with rho in 1/256 NM counts and theta in 360/65536
    // degree counts
    let rho_start = (0.1_f32 * 256.0) as u16;
    let rho_end = (123.4_f32 * 256.0) as u16;
    let theta_start = (0.1_f64 / (360.0 / 65536.0)) as u16;
    let theta_end = (12.34_f64 / (360.0 / 65536.0)) as u16;
    let mut generic_polar_window = GenericPolarWindow::default();
    generic_polar_window.set_rho(rho_start, rho_end);
    generic_polar_window.set_theta(theta_start, theta_end);

    // Convert struct to byte stream
    let array = generic_polar_window.to_bytes();

    // New message
    let mut object = GenericPolarWindow::default();

    // Convert byte stream to struct
    object.from_bytes(&array);

    assert_eq!(generic_polar_window.get_rho(), object.get_rho());
    assert_eq!(generic_polar_window.get_theta(), object.get_theta());
}

#[test]
fn check_position() {
    // Create message with lat/lon in 180/2^23 degree counts
    let lat = (12.345_f64 * 8388608.0 / 180.0) as i32;
    let lon = (34.567_f64 * 8388608.0 / 180.0) as i32;
    let mut position_source = PositionSource::default();
    position_source.set_height(4242);
    position_source.set_lat_lon(lat, lon);

    // Convert struct to byte stream
    let array = position_source.to_bytes();

    // New message
    let mut object = PositionSource::default();

    // Convert byte stream to struct
    object.from_bytes(&array);

    assert_eq!(position_source.get_height(), object.get_height());
    assert_eq!(position_source.get_lat_lon(), object.get_lat_lon());
    assert_eq!(object.get_height(), 4242);
}

#[test]
fn check_system_configuration() {
    // Create message
    let mut system_configuration = SystemConfigurationStatus::default();
    system_configuration.set_configuration_option(Subfield::Com);

    // Convert struct to byte stream
    let array = system_configuration.to_bytes();

    // New message
    let mut object = SystemConfigurationStatus::default();

    // Convert byte stream to struct
    object.from_bytes(array);

    assert_eq!(
        system_configuration.get_configuration_option(Subfield::Com),
        object.get_configuration_option(Subfield::Com)
    );
}

#[test]
fn system_processing_field_check_position() {
    // Create message
    let mut system_processing = SystemProcessingMode::default();
    system_processing.set_processing_option(ProcessingSubfield::Com);

    // Convert struct to byte stream
    let array = system_processing.to_bytes();

    // New message
    let mut object = SystemProcessingMode::default();

    // Convert byte stream to struct
    object.from_bytes(array);

    assert_eq!(
        system_processing.get_processing_option(ProcessingSubfield::Com),
        object.get_processing_option(ProcessingSubfield::Com)
    );
}

#[test]
fn message_type_codes_round_trip() {
    let kinds = [
        MessageTypeEnum::NorthMarker,
        MessageTypeEnum::SectorCrossing,
        MessageTypeEnum::GeographicalFiltering,
        MessageTypeEnum::JammingStrobe,
        MessageTypeEnum::SolarStorm,
        MessageTypeEnum::SSRJammingStrobe,
        MessageTypeEnum::ModeSJammingStrobe,
    ];
    for kind in kinds {
        let mut mt = MessageType::new();
        mt.set_message_type(kind);
        assert_eq!(mt.get_message_type(), kind);
    }
    let mut other = MessageType::new();
    other.from_bytes(&[9]);
    assert_eq!(other.get_message_type(), MessageTypeEnum::Unknown);
}

#[test]
fn scale_round_trip_bounds() {
    // Sector number: one LSB is 360/256 degrees
    let lsb_sector = 360.0_f64 / 256.0;
    for v in [0.0_f64, 3.0, 97.3, 359.9] {
        let raw = (v / lsb_sector) as u8;
        let mut s = SectorNumber::new();
        s.set_sector(raw);
        let decoded = s.get_sector() as f64 * lsb_sector;
        assert!((decoded - v).abs() < lsb_sector);
    }
    // Time of day: one LSB is 1/128 seconds
    let lsb_time = 1.0_f64 / 128.0;
    for v in [0.0_f64, 3.5, 12345.67, 86399.9] {
        let raw = (v / lsb_time) as u32;
        let mut t = TimeOfDay::default();
        t.set_time(raw);
        let decoded = t.get_time() as f64 * lsb_time;
        assert!((decoded - v).abs() < lsb_time);
    }
    // Latitude: one LSB is 180/2^23 degrees
    let lsb_lat = 180.0_f64 / 8388608.0;
    for v in [-89.9_f64, -12.5, 0.0, 47.8034663, 89.9] {
        let raw = (v / lsb_lat) as i32;
        let mut p = PositionSource::default();
        p.set_lat_lon(raw, 0);
        let (lat_raw, _) = p.get_lat_lon();
        let decoded = lat_raw as f64 * lsb_lat;
        assert!((decoded - v).abs() < lsb_lat);
    }
}

#[test]
fn fspec_bit_index_bounds() {
    let mut field_spec = FieldSpec::new();
    field_spec.set_fspec(0x55);

    // Indexes outside 1..=8 neither read nor write any bit
    assert_eq!(field_spec.get_fspec_bit(0), false);
    assert_eq!(field_spec.get_fspec_bit(9), false);
    field_spec.set_fspec_bit(0);
    field_spec.set_fspec_bit(9);
    assert_eq!(field_spec.get_fspec(), 0x55);

    // The FX bit is the least significant one
    field_spec.set_fspec_bit(8);
    assert_eq!(field_spec.get_fspec(), 0x55);
    field_spec.set_fspec(0x54);
    field_spec.set_fspec_bit(8);
    assert_eq!(field_spec.get_fspec(), 0x55);
}
