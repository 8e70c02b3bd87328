//! Mandatory-item rule tests: each message type's required and forbidden
//! data items.

use asterix_cat34::cat34::{
    Cat34Message, DataSourceIdentifier, GenericPolarWindow, MessageType,
};
use asterix_cat34::cat_error::Cat34Error;
use asterix_cat34::category::CatError;
use asterix_cat34::tools::{
    check_geographical_filtering_items, check_jamming_strobe_items, check_mandatory_items,
    check_north_marker_items, check_sector_crossing_items, check_solar_storm_items,
};

fn data_source() -> DataSourceIdentifier {
    DataSourceIdentifier { sic: Some(42), sac: Some(26) }
}

#[test]
fn check_items() {
    let mut message = Cat34Message::new(MessageType::NorthMarker);

    let data_source_identifier = DataSourceIdentifier {
        sic: Some(42),
        sac: Some(26),
    };

    message.data_source_id = Some(data_source_identifier);

    let result = check_mandatory_items(&message);
    assert_eq!(result.unwrap(), Cat34Error::I034_030Invalid);
}

#[test]
fn north_marker_rules() {
    let mut message = Cat34Message::new(MessageType::NorthMarker);
    assert_eq!(
        check_north_marker_items(&message),
        Some(Cat34Error::I034_010Invalid)
    );

    message.data_source_id = Some(data_source());
    message.time_of_day = Some(512);
    assert_eq!(check_north_marker_items(&message), None);
    assert_eq!(check_mandatory_items(&message), None);

    // A forbidden sector number
    message.sector_number = Some(3);
    assert_eq!(
        check_mandatory_items(&message),
        Some(Cat34Error::I034_020Invalid)
    );

    // The wrong declared type
    let other = Cat34Message::new(MessageType::SolarStorm);
    assert_eq!(
        check_north_marker_items(&other),
        Some(Cat34Error::I034_000Invalid)
    );
}

#[test]
fn sector_crossing_rules() {
    let mut message = Cat34Message::new(MessageType::SectorCrossing);
    message.data_source_id = Some(data_source());
    message.sector_number = Some(7);
    message.time_of_day = Some(1024);
    assert_eq!(check_sector_crossing_items(&message), None);

    message.antenna_rotation_speed = Some(640);
    assert_eq!(
        check_mandatory_items(&message),
        Some(Cat34Error::I034_041Invalid)
    );
}

#[test]
fn geographical_filtering_rules() {
    let mut message = Cat34Message::new(MessageType::GeographicalFiltering);
    message.data_source_id = Some(data_source());
    assert_eq!(
        check_geographical_filtering_items(&message),
        Some(Cat34Error::I034_110Invalid)
    );

    message.data_filter = Some(1);
    assert_eq!(check_geographical_filtering_items(&message), None);
}

#[test]
fn strobe_and_storm_rules() {
    let window = GenericPolarWindow {
        rho_start: Some(25),
        rho_end: Some(31590),
        theta_start: Some(18),
        theta_end: Some(2246),
    };

    let mut strobe = Cat34Message::new(MessageType::JammingStrobe);
    strobe.data_source_id = Some(data_source());
    assert_eq!(
        check_jamming_strobe_items(&strobe),
        Some(Cat34Error::I034_110Invalid)
    );
    strobe.generic_polar_window = Some(window.clone());
    assert_eq!(check_jamming_strobe_items(&strobe), None);
    assert_eq!(check_mandatory_items(&strobe), None);

    let mut storm = Cat34Message::new(MessageType::SolarStorm);
    storm.data_source_id = Some(data_source());
    storm.generic_polar_window = Some(window);
    storm.data_filter = Some(3);
    assert_eq!(
        check_solar_storm_items(&storm),
        Some(Cat34Error::I034_110Invalid)
    );
}

#[test]
fn error_texts() {
    assert_eq!(
        Cat34Error::I034SizeInvalid.text(),
        "Error: I034 Data block size invalid"
    );
    assert_eq!(CatError::SizeInvalid.text(), "Error: Data block size invalid");
    assert_eq!(CatError::CategoryInvalid.text(), "Error: Category invalid");
}
