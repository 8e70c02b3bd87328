//! Message-level engine: the data block header, the CAT034 record engine and
//! the CAT034 message engine.

pub mod cat34;
pub mod header_field;
pub mod record34;
