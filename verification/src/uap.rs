//! Field codecs of the CAT034 User Application Profile: one module per data
//! item, each a pure byte-layout transform.

pub mod antenna_rotation_field;
pub mod data_source_field;
pub mod field_spec;
pub mod generic_polar_window_field;
pub mod message_type_field;
pub mod position_source_field;
pub mod system_configuration_field;
pub mod system_processing_field;
pub mod sector_number_field;
pub mod time_of_day_field;
