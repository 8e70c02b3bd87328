//! Semantic CAT034 message model: one message of a declared type with its
//! optional data items as plain values, checked against the standard's
//! mandatory-item rules by the `tools` module.
//!
//! Scaled quantities are carried as their wire counts (the physical value
//! per least significant bit is noted on each field); calendar conversion
//! of the time of day is a collaborator's concern, not this model's.

use vstd::prelude::*;

verus! {

/// Types of messages.
#[derive(Debug, Clone, PartialEq, Eq, Structural, Copy)]
pub enum MessageType {
    NorthMarker,
    SectorCrossing,
    GeographicalFiltering,
    JammingStrobe,
    SolarStorm,
    SSRJammingStrobe,
    ModeSJammingStrobe,
}

#[derive(Debug, Clone, PartialEq)]
pub struct DataSourceIdentifier {
    pub sic: Option<u8>,
    pub sac: Option<u8>,
}

#[derive(Debug, Clone, PartialEq)]
pub struct COMSubfieldC {
    pub nogo: Option<bool>,
    pub rdpc: Option<bool>,
    pub tdpr: Option<bool>,
    pub ovlrdp: Option<bool>,
    pub ovlxmt: Option<bool>,
    pub msc: Option<bool>,
    pub tsv: Option<bool>,
}

#[derive(Debug, Clone, PartialEq)]
pub struct SRSubfieldC {
    pub ant: Option<bool>,
    pub chab: Option<u8>,
    pub ovl: Option<bool>,
    pub msc: Option<bool>,
}

#[derive(Debug, Clone, PartialEq)]
pub struct MDSSubfieldC {
    pub ant: Option<bool>,
    pub chab: Option<u8>,
    pub ovlsur: Option<bool>,
    pub msc: Option<bool>,
    pub scf: Option<bool>,
    pub dlf: Option<bool>,
    pub ovlscf: Option<bool>,
    pub ovldlf: Option<bool>,
}

#[derive(Debug, Clone, PartialEq)]
pub struct SystemConfigurationStatus {
    pub com_subfield: Option<COMSubfieldC>,
    pub psr_subfield: Option<SRSubfieldC>,
    pub ssr_subfield: Option<SRSubfieldC>,
    pub mds_subfield: Option<MDSSubfieldC>,
}

#[derive(Debug, Clone, PartialEq)]
pub struct COMSubfieldP {
    pub redrdp: Option<u8>,
    pub redxmt: Option<u8>,
}

#[derive(Debug, Clone, PartialEq)]
pub struct PSRSubfieldP {
    pub pol: Option<bool>,
    pub redrad: Option<u8>,
    pub stc: Option<u8>,
}

#[derive(Debug, Clone, PartialEq)]
pub struct SSRSubfieldP {
    pub redrad: Option<u8>,
}

#[derive(Debug, Clone, PartialEq)]
pub struct MDSSubfieldP {
    pub redrad: Option<u8>,
    pub clu: Option<bool>,
}

#[derive(Debug, Clone, PartialEq)]
pub struct SystemProcessingMode {
    pub com_subfield: Option<COMSubfieldP>,
    pub psr_subfield: Option<PSRSubfieldP>,
    pub ssr_subfield: Option<SSRSubfieldP>,
    pub mds_subfield: Option<MDSSubfieldP>,
}

#[derive(Debug, Clone, PartialEq)]
pub struct MessageCountValues {
    pub rep: Option<u8>,
    pub typ: Option<u8>,
    pub counter: Option<u16>,
}

#[derive(Debug, Clone, PartialEq)]
pub struct ColimationError {
    /// Range error as a signed count, 1/128 nautical miles per LSB.
    pub range_error: Option<i8>,
    /// Azimuth error as a signed count, 360/2^14 degrees per LSB.
    pub azimuth_error: Option<i8>,
}

#[derive(Debug, Clone, PartialEq)]
pub struct GenericPolarWindow {
    /// Range bounds as counts, 1/256 nautical miles per LSB.
    pub rho_start: Option<u16>,
    pub rho_end: Option<u16>,
    /// Azimuth bounds as counts, 360/65536 degrees per LSB.
    pub theta_start: Option<u16>,
    pub theta_end: Option<u16>,
}

#[derive(Debug, Clone, PartialEq)]
pub struct PositionDataSource {
    /// Height in metres.
    pub height: Option<i16>,
    /// Latitude and longitude as signed counts, 180/2^23 degrees per LSB.
    pub latitude: Option<i32>,
    pub longitude: Option<i32>,
}

/// CAT34 message.
#[derive(Debug, Clone, PartialEq)]
pub struct Cat34Message {
    /// I034/010
    pub data_source_id: Option<DataSourceIdentifier>,
    /// I034/000
    pub message_type: MessageType,
    /// I034/030, as a count of 1/128 seconds since midnight
    pub time_of_day: Option<u32>,
    /// I034/020, as a count of 360/256 degrees
    pub sector_number: Option<u8>,
    /// I034/041, as a count of 1/128 seconds per rotation
    pub antenna_rotation_speed: Option<u16>,
    /// I034/050
    pub system_configuration_status: Option<SystemConfigurationStatus>,
    /// I034/060
    pub system_processing_mode: Option<SystemProcessingMode>,
    /// I034/070
    pub message_count_values: Option<MessageCountValues>,
    /// I034/100
    pub generic_polar_window: Option<GenericPolarWindow>,
    /// I034/110
    pub data_filter: Option<u8>,
    /// I034/120
    pub position_data_source: Option<PositionDataSource>,
    /// I034/090
    pub colimation_error: Option<ColimationError>,
}

impl Cat34Message {
    /// Creates a new message of the provided type, with all other fields
    /// set to None.
    pub fn new(message_type: MessageType) -> (r: Self)
        ensures
            r.message_type == message_type,
            r.data_source_id is None,
            r.time_of_day is None,
            r.sector_number is None,
            r.antenna_rotation_speed is None,
            r.system_configuration_status is None,
            r.system_processing_mode is None,
            r.message_count_values is None,
            r.generic_polar_window is None,
            r.data_filter is None,
            r.position_data_source is None,
            r.colimation_error is None,
    {
        Self {
            data_source_id: None,
            message_type: message_type,
            time_of_day: None,
            sector_number: None,
            antenna_rotation_speed: None,
            system_configuration_status: None,
            system_processing_mode: None,
            message_count_values: None,
            generic_polar_window: None,
            data_filter: None,
            position_data_source: None,
            colimation_error: None,
        }
    }
}

} // verus!
