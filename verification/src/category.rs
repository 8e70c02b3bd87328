//! ASTERIX categories and the structural errors of the codec.

use vstd::prelude::*;
use crate::asterix::cat34::Cat34Message;

verus! {

/// ASTERIX category.
#[derive(Debug, Clone, PartialEq)]
pub enum Category {
    Cat007,  // Directed Interrogation Messages
    Cat034(Cat34Message),  // Transmission of Monoradar Service Messages
    Cat048,  // Monoradar Target Reports
    Cat062,  // System Track Data
}

impl Category {
    /// A short text naming the category.
    pub fn text(&self) -> String {
        match self {
            Category::Cat007 => "Cat007".to_string(),
            Category::Cat034(_message) => "Cat034".to_string(),
            Category::Cat048 => "Cat048".to_string(),
            Category::Cat062 => "Cat062".to_string(),
        }
    }
}

/// Errors for invalid messages and message fields.
#[derive(Debug, Clone, PartialEq, Eq, Structural, Copy)]
pub enum CatError {
    CategoryInvalid,
    SizeInvalid,
    I034_000Invalid,
    I034_010Invalid,
    I034_020Invalid,
    I034_030Invalid,
    I034_041Invalid,
    I034_050Invalid,
    I034_060Invalid,
    I034_070Invalid,
    I034_090Invalid,
    I034_100Invalid,
    I034_110Invalid,
    I034_120Invalid,
}

impl CatError {
    /// A short text for the error.
    pub fn text(&self) -> String {
        match self {
            CatError::CategoryInvalid => "Error: Category invalid".to_string(),
            CatError::SizeInvalid => "Error: Data block size invalid".to_string(),
            CatError::I034_000Invalid => "Error: I034_000 Message Type invalid".to_string(),
            CatError::I034_010Invalid => "Error: I034_010 Data Source Identifier invalid".to_string(),
            CatError::I034_020Invalid => "Error: I034_020 Sector Number invalid".to_string(),
            CatError::I034_030Invalid => "Error: I034_030 Time of Day invalid".to_string(),
            CatError::I034_041Invalid => "Error: I034_041 Antenna Rotation Period invalid".to_string(),
            CatError::I034_050Invalid => "Error: I034_050 System Configuration & Status invalid".to_string(),
            CatError::I034_060Invalid => "Error: I034_060 System Processing Mode invalid".to_string(),
            CatError::I034_070Invalid => "Error: I034_070 Message Count Values invalid".to_string(),
            CatError::I034_090Invalid => "Error: I034_090 Colimation Error invalid".to_string(),
            CatError::I034_100Invalid => "Error: I034_100 Generic Polar Window invalid".to_string(),
            CatError::I034_110Invalid => "Error: I034_110 Data Filter invalid".to_string(),
            CatError::I034_120Invalid => "Error: I034_120 3D Position of Source invalid".to_string(),
        }
    }
}

} // verus!
