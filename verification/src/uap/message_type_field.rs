//! Message Type (I034/000): one octet selecting the service message kind.

use vstd::prelude::*;

verus! {

/// Types of messages.
#[derive(Debug, Clone, PartialEq, Eq, Structural, Copy)]
pub enum MessageTypeEnum {
    Unknown,
    NorthMarker,
    SectorCrossing,
    GeographicalFiltering,
    JammingStrobe,
    SolarStorm,
    SSRJammingStrobe,
    ModeSJammingStrobe,
}

/// The octet value that stands for a message type on the wire.
pub open spec fn type_code(t: MessageTypeEnum) -> u8 {
    match t {
        MessageTypeEnum::Unknown => 0,
        MessageTypeEnum::NorthMarker => 1,
        MessageTypeEnum::SectorCrossing => 2,
        MessageTypeEnum::GeographicalFiltering => 3,
        MessageTypeEnum::JammingStrobe => 4,
        MessageTypeEnum::SolarStorm => 5,
        MessageTypeEnum::SSRJammingStrobe => 6,
        MessageTypeEnum::ModeSJammingStrobe => 7,
    }
}

/// The message type that an octet value stands for; octets above 7 carry no
/// defined type.
pub open spec fn code_type(v: u8) -> MessageTypeEnum {
    if v == 1 {
        MessageTypeEnum::NorthMarker
    } else if v == 2 {
        MessageTypeEnum::SectorCrossing
    } else if v == 3 {
        MessageTypeEnum::GeographicalFiltering
    } else if v == 4 {
        MessageTypeEnum::JammingStrobe
    } else if v == 5 {
        MessageTypeEnum::SolarStorm
    } else if v == 6 {
        MessageTypeEnum::SSRJammingStrobe
    } else if v == 7 {
        MessageTypeEnum::ModeSJammingStrobe
    } else {
        MessageTypeEnum::Unknown
    }
}

#[derive(Default, Debug, PartialEq, Clone, Copy)]
pub struct MessageType {
    pub message: u8,  // 1 byte
}

impl MessageType {
    /// Octet length on the wire.
    pub const MESSAGE_LENGTH: usize = 1;

    /// The octet of this field on the wire.
    pub open spec fn wire(self) -> Seq<u8> {
        seq![self.message]
    }

    pub fn new() -> (r: Self)
        ensures
            r.message == 0,
    {
        Self { message: 0 }
    }

    /// Convert byte stream to struct.
    pub fn from_bytes(&mut self, array: &[u8; 1])
        ensures
            final(self).message == array[0],
    {
        self.message = array[0];
    }

    /// Convert struct to byte stream.
    pub fn to_bytes(&self) -> (r: [u8; 1])
        ensures
            r[0] == self.message,
            r@ == self.wire(),
    {
        let r = [self.message];
        proof {
            assert(r@ =~= self.wire());
        }
        r
    }

    /// Create fixed length array from slice.
    pub fn array_of_byte_message(array: &[u8]) -> (r: [u8; 1])
        requires
            array@.len() == 1,
        ensures
            r[0] == array[0],
    {
        [array[0]]
    }

    /// Set message type.
    pub fn set_message_type(&mut self, message_type: MessageTypeEnum)
        ensures
            final(self).message == type_code(message_type),
    {
        self.message = match message_type {
            MessageTypeEnum::Unknown => 0,
            MessageTypeEnum::NorthMarker => 1,
            MessageTypeEnum::SectorCrossing => 2,
            MessageTypeEnum::GeographicalFiltering => 3,
            MessageTypeEnum::JammingStrobe => 4,
            MessageTypeEnum::SolarStorm => 5,
            MessageTypeEnum::SSRJammingStrobe => 6,
            MessageTypeEnum::ModeSJammingStrobe => 7,
        };
    }

    /// Get message type.
    pub fn get_message_type(&self) -> (r: MessageTypeEnum)
        ensures
            r == code_type(self.message),
    {
        match self.message {
            1 => MessageTypeEnum::NorthMarker,
            2 => MessageTypeEnum::SectorCrossing,
            3 => MessageTypeEnum::GeographicalFiltering,
            4 => MessageTypeEnum::JammingStrobe,
            5 => MessageTypeEnum::SolarStorm,
            6 => MessageTypeEnum::SSRJammingStrobe,
            7 => MessageTypeEnum::ModeSJammingStrobe,
            _ => MessageTypeEnum::Unknown,
        }
    }
}

} // verus!
