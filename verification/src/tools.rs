//! Mandatory-item rules: for each message type, which optional data items a
//! CAT034 message must carry and which it must not. Each checker reports
//! the first item that breaks its rule, in the fixed order given here, or
//! `None` when the message is admissible.

use vstd::prelude::*;
use crate::cat34::{Cat34Message, MessageType};
use crate::cat_error::Cat34Error;

verus! {

/// First rule broken by a north marker message, if any.
pub open spec fn spec_check_north_marker(m: Cat34Message) -> Option<Cat34Error> {
    if m.message_type != MessageType::NorthMarker {
        Some(Cat34Error::I034_000Invalid)
    } else if m.data_source_id is None {
        Some(Cat34Error::I034_010Invalid)
    } else if m.sector_number is Some {
        Some(Cat34Error::I034_020Invalid)
    } else if m.time_of_day is None {
        Some(Cat34Error::I034_030Invalid)
    } else if m.generic_polar_window is Some {
        Some(Cat34Error::I034_100Invalid)
    } else if m.data_filter is Some {
        Some(Cat34Error::I034_110Invalid)
    } else {
        None
    }
}

/// First rule broken by a sector crossing message, if any.
pub open spec fn spec_check_sector_crossing(m: Cat34Message) -> Option<Cat34Error> {
    if m.message_type != MessageType::SectorCrossing {
        Some(Cat34Error::I034_000Invalid)
    } else if m.data_source_id is None {
        Some(Cat34Error::I034_010Invalid)
    } else if m.sector_number is None {
        Some(Cat34Error::I034_020Invalid)
    } else if m.time_of_day is None {
        Some(Cat34Error::I034_030Invalid)
    } else if m.antenna_rotation_speed is Some {
        Some(Cat34Error::I034_041Invalid)
    } else if m.generic_polar_window is Some {
        Some(Cat34Error::I034_100Invalid)
    } else if m.data_filter is Some {
        Some(Cat34Error::I034_110Invalid)
    } else if m.position_data_source is Some {
        Some(Cat34Error::I034_120Invalid)
    } else {
        None
    }
}

/// First rule broken by a geographical filtering message, if any.
pub open spec fn spec_check_geographical_filtering(m: Cat34Message) -> Option<Cat34Error> {
    if m.message_type != MessageType::GeographicalFiltering {
        Some(Cat34Error::I034_000Invalid)
    } else if m.data_source_id is None {
        Some(Cat34Error::I034_010Invalid)
    } else if m.sector_number is Some {
        Some(Cat34Error::I034_020Invalid)
    } else if m.antenna_rotation_speed is Some {
        Some(Cat34Error::I034_041Invalid)
    } else if m.system_configuration_status is Some {
        Some(Cat34Error::I034_050Invalid)
    } else if m.system_processing_mode is Some {
        Some(Cat34Error::I034_060Invalid)
    } else if m.message_count_values is Some {
        Some(Cat34Error::I034_070Invalid)
    } else if m.colimation_error is Some {
        Some(Cat34Error::I034_090Invalid)
    } else if m.data_filter is None {
        Some(Cat34Error::I034_110Invalid)
    } else if m.position_data_source is Some {
        Some(Cat34Error::I034_120Invalid)
    } else {
        None
    }
}

/// First rule broken by the items shared by the strobe and storm messages,
/// if any: a data source and a polar window are mandatory, everything else
/// is forbidden.
pub open spec fn spec_check_common(m: Cat34Message) -> Option<Cat34Error> {
    if m.data_source_id is None {
        Some(Cat34Error::I034_010Invalid)
    } else if m.sector_number is Some {
        Some(Cat34Error::I034_020Invalid)
    } else if m.antenna_rotation_speed is Some {
        Some(Cat34Error::I034_041Invalid)
    } else if m.system_configuration_status is Some {
        Some(Cat34Error::I034_050Invalid)
    } else if m.system_processing_mode is Some {
        Some(Cat34Error::I034_060Invalid)
    } else if m.message_count_values is Some {
        Some(Cat34Error::I034_070Invalid)
    } else if m.colimation_error is Some {
        Some(Cat34Error::I034_090Invalid)
    } else if m.generic_polar_window is None {
        Some(Cat34Error::I034_110Invalid)
    } else if m.data_filter is Some {
        Some(Cat34Error::I034_110Invalid)
    } else if m.position_data_source is Some {
        Some(Cat34Error::I034_120Invalid)
    } else {
        None
    }
}

/// First rule broken by a message, whatever its declared type, if any.
pub open spec fn spec_check_mandatory_items(m: Cat34Message) -> Option<Cat34Error> {
    match m.message_type {
        MessageType::NorthMarker => spec_check_north_marker(m),
        MessageType::SectorCrossing => spec_check_sector_crossing(m),
        MessageType::GeographicalFiltering => spec_check_geographical_filtering(m),
        MessageType::JammingStrobe => spec_check_common(m),
        MessageType::SolarStorm => spec_check_common(m),
        MessageType::SSRJammingStrobe => spec_check_common(m),
        MessageType::ModeSJammingStrobe => spec_check_common(m),
    }
}

/// Check the mandatory-item rules for the message's declared type.
pub fn check_mandatory_items(message: &Cat34Message) -> (r: Option<Cat34Error>)
    ensures
        r == spec_check_mandatory_items(*message),
{
    match message.message_type {
        MessageType::NorthMarker => check_north_marker_items(message),
        MessageType::SectorCrossing => check_sector_crossing_items(message),
        MessageType::GeographicalFiltering => check_geographical_filtering_items(message),
        MessageType::JammingStrobe => check_jamming_strobe_items(message),
        MessageType::SolarStorm => check_solar_storm_items(message),
        MessageType::SSRJammingStrobe => check_ssr_jamming_strobe_items(message),
        MessageType::ModeSJammingStrobe => check_modes_jamming_strobe_items(message),
    }
}

/// Check the north marker rules: data source and time of day mandatory;
/// sector number, polar window and data filter forbidden.
pub fn check_north_marker_items(message: &Cat34Message) -> (r: Option<Cat34Error>)
    ensures
        r == spec_check_north_marker(*message),
{
    if message.message_type != MessageType::NorthMarker {
        return Some(Cat34Error::I034_000Invalid);
    }
    if message.data_source_id.is_none() {
        return Some(Cat34Error::I034_010Invalid);
    }
    if message.sector_number.is_some() {
        return Some(Cat34Error::I034_020Invalid);
    }
    if message.time_of_day.is_none() {
        return Some(Cat34Error::I034_030Invalid);
    }
    if message.generic_polar_window.is_some() {
        return Some(Cat34Error::I034_100Invalid);
    }
    if message.data_filter.is_some() {
        return Some(Cat34Error::I034_110Invalid);
    }
    None
}

/// Check the sector crossing rules: data source, sector number and time of
/// day mandatory; rotation speed, polar window, data filter and position
/// forbidden.
pub fn check_sector_crossing_items(message: &Cat34Message) -> (r: Option<Cat34Error>)
    ensures
        r == spec_check_sector_crossing(*message),
{
    if message.message_type != MessageType::SectorCrossing {
        return Some(Cat34Error::I034_000Invalid);
    }
    if message.data_source_id.is_none() {
        return Some(Cat34Error::I034_010Invalid);
    }
    if message.sector_number.is_none() {
        return Some(Cat34Error::I034_020Invalid);
    }
    if message.time_of_day.is_none() {
        return Some(Cat34Error::I034_030Invalid);
    }
    if message.antenna_rotation_speed.is_some() {
        return Some(Cat34Error::I034_041Invalid);
    }
    if message.generic_polar_window.is_some() {
        return Some(Cat34Error::I034_100Invalid);
    }
    if message.data_filter.is_some() {
        return Some(Cat34Error::I034_110Invalid);
    }
    if message.position_data_source.is_some() {
        return Some(Cat34Error::I034_120Invalid);
    }
    None
}

/// Check the geographical filtering rules: data source and data filter
/// mandatory; most status and measurement items forbidden.
pub fn check_geographical_filtering_items(message: &Cat34Message) -> (r: Option<Cat34Error>)
    ensures
        r == spec_check_geographical_filtering(*message),
{
    if message.message_type != MessageType::GeographicalFiltering {
        return Some(Cat34Error::I034_000Invalid);
    }
    if message.data_source_id.is_none() {
        return Some(Cat34Error::I034_010Invalid);
    }
    if message.sector_number.is_some() {
        return Some(Cat34Error::I034_020Invalid);
    }
    if message.antenna_rotation_speed.is_some() {
        return Some(Cat34Error::I034_041Invalid);
    }
    if message.system_configuration_status.is_some() {
        return Some(Cat34Error::I034_050Invalid);
    }
    if message.system_processing_mode.is_some() {
        return Some(Cat34Error::I034_060Invalid);
    }
    if message.message_count_values.is_some() {
        return Some(Cat34Error::I034_070Invalid);
    }
    if message.colimation_error.is_some() {
        return Some(Cat34Error::I034_090Invalid);
    }
    if message.data_filter.is_none() {
        return Some(Cat34Error::I034_110Invalid);
    }
    if message.position_data_source.is_some() {
        return Some(Cat34Error::I034_120Invalid);
    }
    None
}

/// Check the jamming strobe rules.
pub fn check_jamming_strobe_items(message: &Cat34Message) -> (r: Option<Cat34Error>)
    ensures
        r == (if message.message_type != MessageType::JammingStrobe {
            Some(Cat34Error::I034_000Invalid)
        } else {
            spec_check_common(*message)
        }),
{
    if message.message_type != MessageType::JammingStrobe {
        return Some(Cat34Error::I034_000Invalid);
    }
    check_common_items(message)
}

/// Check the solar storm rules.
pub fn check_solar_storm_items(message: &Cat34Message) -> (r: Option<Cat34Error>)
    ensures
        r == (if message.message_type != MessageType::SolarStorm {
            Some(Cat34Error::I034_000Invalid)
        } else {
            spec_check_common(*message)
        }),
{
    if message.message_type != MessageType::SolarStorm {
        return Some(Cat34Error::I034_000Invalid);
    }
    check_common_items(message)
}

/// Check the SSR jamming strobe rules.
pub fn check_ssr_jamming_strobe_items(message: &Cat34Message) -> (r: Option<Cat34Error>)
    ensures
        r == (if message.message_type != MessageType::SSRJammingStrobe {
            Some(Cat34Error::I034_000Invalid)
        } else {
            spec_check_common(*message)
        }),
{
    if message.message_type != MessageType::SSRJammingStrobe {
        return Some(Cat34Error::I034_000Invalid);
    }
    check_common_items(message)
}

/// Check the Mode S jamming strobe rules.
pub fn check_modes_jamming_strobe_items(message: &Cat34Message) -> (r: Option<Cat34Error>)
    ensures
        r == (if message.message_type != MessageType::ModeSJammingStrobe {
            Some(Cat34Error::I034_000Invalid)
        } else {
            spec_check_common(*message)
        }),
{
    if message.message_type != MessageType::ModeSJammingStrobe {
        return Some(Cat34Error::I034_000Invalid);
    }
    check_common_items(message)
}

/// Check the items shared by the jamming strobe, solar storm, SSR jamming
/// strobe and Mode S jamming strobe messages.
fn check_common_items(message: &Cat34Message) -> (r: Option<Cat34Error>)
    ensures
        r == spec_check_common(*message),
{
    if message.data_source_id.is_none() {
        return Some(Cat34Error::I034_010Invalid);
    }
    if message.sector_number.is_some() {
        return Some(Cat34Error::I034_020Invalid);
    }
    if message.antenna_rotation_speed.is_some() {
        return Some(Cat34Error::I034_041Invalid);
    }
    if message.system_configuration_status.is_some() {
        return Some(Cat34Error::I034_050Invalid);
    }
    if message.system_processing_mode.is_some() {
        return Some(Cat34Error::I034_060Invalid);
    }
    if message.message_count_values.is_some() {
        return Some(Cat34Error::I034_070Invalid);
    }
    if message.colimation_error.is_some() {
        return Some(Cat34Error::I034_090Invalid);
    }
    if message.generic_polar_window.is_none() {
        return Some(Cat34Error::I034_110Invalid);
    }
    if message.data_filter.is_some() {
        return Some(Cat34Error::I034_110Invalid);
    }
    if message.position_data_source.is_some() {
        return Some(Cat34Error::I034_120Invalid);
    }
    None
}

} // verus!
