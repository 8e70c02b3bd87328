//! Errors for invalid CAT034 message fields, raised by the mandatory-item
//! rules.

use vstd::prelude::*;

verus! {

/// Errors for invalid message fields.
#[derive(Debug, Clone, PartialEq, Eq, Structural, Copy)]
pub enum Cat34Error {
    I034SizeInvalid,
    I034_000Invalid,
    I034_010Invalid,
    I034_020Invalid,
    I034_030Invalid,
    I034_041Invalid,
    I034_050Invalid,
    I034_060Invalid,
    I034_070Invalid,
    I034_090Invalid,
    I034_100Invalid,
    I034_110Invalid,
    I034_120Invalid,
}

impl Cat34Error {
    /// A short text for the error.
    pub fn text(&self) -> String {
        match self {
            Cat34Error::I034SizeInvalid => "Error: I034 Data block size invalid".to_string(),
            Cat34Error::I034_000Invalid => "Error: I034_000 Message Type invalid".to_string(),
            Cat34Error::I034_010Invalid => "Error: I034_010 Data Source Identifier invalid".to_string(),
            Cat34Error::I034_020Invalid => "Error: I034_020 Sector Number invalid".to_string(),
            Cat34Error::I034_030Invalid => "Error: I034_030 Time of Day invalid".to_string(),
            Cat34Error::I034_041Invalid => "Error: I034_041 Antenna Rotation Period invalid".to_string(),
            Cat34Error::I034_050Invalid => "Error: I034_050 System Configuration & Status invalid".to_string(),
            Cat34Error::I034_060Invalid => "Error: I034_060 System Processing Mode invalid".to_string(),
            Cat34Error::I034_070Invalid => "Error: I034_070 Message Count Values invalid".to_string(),
            Cat34Error::I034_090Invalid => "Error: I034_090 Colimation Error invalid".to_string(),
            Cat34Error::I034_100Invalid => "Error: I034_100 Generic Polar Window invalid".to_string(),
            Cat34Error::I034_110Invalid => "Error: I034_110 Data Filter invalid".to_string(),
            Cat34Error::I034_120Invalid => "Error: I034_120 3D Position of Source invalid".to_string(),
        }
    }
}

} // verus!
