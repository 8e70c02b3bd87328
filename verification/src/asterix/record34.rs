//! Record engine for CAT034: one record is an FSPEC presence-bit chain
//! followed by the present data items in Field Reference Number (FRN) order.
//!
//! The FSPEC chain is always derived from field presence on encode, never
//! accepted as independent input, so the two representations cannot drift
//! apart. CAT034 defines fourteen FRNs, which fit two FSPEC octets; a chain
//! that announces more octets, or an FRN this profile gives no layout for,
//! is rejected as malformed.

use vstd::prelude::*;
use bytes::Bytes;
use crate::byte_stream::{bytes_from_vec, bytes_seq, bytes_to_vec};
use crate::category::CatError;
use crate::uap::antenna_rotation_field::AntennaRotation;
use crate::uap::data_source_field::DataSource;
use crate::uap::field_spec::{byte_bit, FieldSpec};
use crate::uap::generic_polar_window_field::GenericPolarWindow;
use crate::uap::message_type_field::MessageType;
use crate::uap::position_source_field::PositionSource;
use crate::uap::sector_number_field::SectorNumber;
use crate::uap::system_configuration_field::{subfield_wire_len, Subfield, SystemConfigurationStatus};
use crate::uap::system_processing_field::{Subfield as ProcessingSubfield, SystemProcessingMode};
use crate::uap::time_of_day_field::{u24_value, TimeOfDay};

verus! {

/// CAT34 Standard User Application Profile (UAP):
/// FSPEC Field Reference Numbers (FRN) in standard order.
#[derive(Debug, Clone, PartialEq, Eq, Structural, Copy)]
pub enum Cat34Fspec {
    I034_010,
    I034_000,
    I034_030,
    I034_020,
    I034_041,
    I034_050,
    I034_060,
    I034_070,
    I034_100,
    I034_110,
    I034_120,
    I034_090,
    I034RE,
    I034SP,
}

impl Cat34Fspec {
    /// The Field Reference Number of this data item, 1 through 14.
    pub open spec fn spec_frn(self) -> u8 {
        match self {
            Cat34Fspec::I034_010 => 1,
            Cat34Fspec::I034_000 => 2,
            Cat34Fspec::I034_030 => 3,
            Cat34Fspec::I034_020 => 4,
            Cat34Fspec::I034_041 => 5,
            Cat34Fspec::I034_050 => 6,
            Cat34Fspec::I034_060 => 7,
            Cat34Fspec::I034_070 => 8,
            Cat34Fspec::I034_100 => 9,
            Cat34Fspec::I034_110 => 10,
            Cat34Fspec::I034_120 => 11,
            Cat34Fspec::I034_090 => 12,
            Cat34Fspec::I034RE => 13,
            Cat34Fspec::I034SP => 14,
        }
    }

    /// The Field Reference Number of this data item, 1 through 14.
    pub fn frn(self) -> (r: u8)
        ensures
            r == self.spec_frn(),
    {
        match self {
            Cat34Fspec::I034_010 => 1,
            Cat34Fspec::I034_000 => 2,
            Cat34Fspec::I034_030 => 3,
            Cat34Fspec::I034_020 => 4,
            Cat34Fspec::I034_041 => 5,
            Cat34Fspec::I034_050 => 6,
            Cat34Fspec::I034_060 => 7,
            Cat34Fspec::I034_070 => 8,
            Cat34Fspec::I034_100 => 9,
            Cat34Fspec::I034_110 => 10,
            Cat34Fspec::I034_120 => 11,
            Cat34Fspec::I034_090 => 12,
            Cat34Fspec::I034RE => 13,
            Cat34Fspec::I034SP => 14,
        }
    }
}

/// FSPEC bit index of the field-extension bit within each octet.
pub const FSPEC_FX: u8 = 8;

/// Record of CAT34 message. Several records are possible per message.
#[derive(Debug, PartialEq, Clone)]
pub struct Record34 {
    /// I034/010
    pub data_source_id: Option<DataSource>,
    /// I034/000
    pub message_type: Option<MessageType>,
    /// I034/030
    pub time_of_day: Option<TimeOfDay>,
    /// I034/020
    pub sector_number: Option<SectorNumber>,
    /// I034/041
    pub antenna_rotation: Option<AntennaRotation>,
    /// I034/050
    pub system_configuration_status: Option<SystemConfigurationStatus>,
    /// I034/060
    pub system_processing_mode: Option<SystemProcessingMode>,
    /// I034/100
    pub generic_polar_window: Option<GenericPolarWindow>,
    /// I034/120
    pub position_source: Option<PositionSource>,
}

impl Default for Record34 {
    /// A record with every optional data item absent.
    fn default() -> (r: Self)
        ensures
            r == empty_record(),
    {
        Record34 {
            data_source_id: None,
            message_type: None,
            time_of_day: None,
            sector_number: None,
            antenna_rotation: None,
            system_configuration_status: None,
            system_processing_mode: None,
            generic_polar_window: None,
            position_source: None,
        }
    }
}

/// The record with every optional data item absent.
pub open spec fn empty_record() -> Record34 {
    Record34 {
        data_source_id: None,
        message_type: None,
        time_of_day: None,
        sector_number: None,
        antenna_rotation: None,
        system_configuration_status: None,
        system_processing_mode: None,
        generic_polar_window: None,
        position_source: None,
    }
}

/// Whether a second FSPEC octet is needed: some present field has an FRN
/// above 7.
pub open spec fn ext_needed(r: Record34) -> bool {
    r.generic_polar_window is Some || r.position_source is Some
}

/// First FSPEC octet derived from field presence: FRN 1..7 at bits 1..7,
/// the FX bit set when a second octet follows.
pub open spec fn fspec1_val(r: Record34) -> u8 {
    ((if r.data_source_id is Some {
        128int
    } else {
        0
    }) + (if r.message_type is Some {
        64int
    } else {
        0
    }) + (if r.time_of_day is Some {
        32int
    } else {
        0
    }) + (if r.sector_number is Some {
        16int
    } else {
        0
    }) + (if r.antenna_rotation is Some {
        8int
    } else {
        0
    }) + (if r.system_configuration_status is Some {
        4int
    } else {
        0
    }) + (if r.system_processing_mode is Some {
        2int
    } else {
        0
    }) + (if ext_needed(r) {
        1int
    } else {
        0
    })) as u8
}

/// Second FSPEC octet derived from field presence: FRN 9 (I034/100) at
/// bit 2 and FRN 11 (I034/120) at bit 4; its FX bit stays clear.
pub open spec fn fspec2_val(r: Record34) -> u8 {
    ((if r.generic_polar_window is Some {
        64int
    } else {
        0
    }) + (if r.position_source is Some {
        16int
    } else {
        0
    })) as u8
}

/// The FSPEC chain derived from field presence: exactly as many octets as
/// needed to cover the highest-numbered present FRN, at least one.
pub open spec fn fspec_chain(r: Record34) -> Seq<u8> {
    if ext_needed(r) {
        seq![fspec1_val(r), fspec2_val(r)]
    } else {
        seq![fspec1_val(r)]
    }
}

/// The octets that an optional field contributes to the payload: its wire
/// form when present, nothing when absent.
pub open spec fn ds_wire_opt(o: Option<DataSource>) -> Seq<u8> {
    match o {
        Some(f) => f.wire(),
        None => Seq::<u8>::empty(),
    }
}

pub open spec fn mt_wire_opt(o: Option<MessageType>) -> Seq<u8> {
    match o {
        Some(f) => f.wire(),
        None => Seq::<u8>::empty(),
    }
}

pub open spec fn tod_wire_opt(o: Option<TimeOfDay>) -> Seq<u8> {
    match o {
        Some(f) => f.wire(),
        None => Seq::<u8>::empty(),
    }
}

pub open spec fn sec_wire_opt(o: Option<SectorNumber>) -> Seq<u8> {
    match o {
        Some(f) => f.wire(),
        None => Seq::<u8>::empty(),
    }
}

pub open spec fn ant_wire_opt(o: Option<AntennaRotation>) -> Seq<u8> {
    match o {
        Some(f) => f.wire(),
        None => Seq::<u8>::empty(),
    }
}

pub open spec fn scs_wire_opt(o: Option<SystemConfigurationStatus>) -> Seq<u8> {
    match o {
        Some(f) => f.wire(),
        None => Seq::<u8>::empty(),
    }
}

pub open spec fn spm_wire_opt(o: Option<SystemProcessingMode>) -> Seq<u8> {
    match o {
        Some(f) => f.wire(),
        None => Seq::<u8>::empty(),
    }
}

pub open spec fn gpw_wire_opt(o: Option<GenericPolarWindow>) -> Seq<u8> {
    match o {
        Some(f) => f.wire(),
        None => Seq::<u8>::empty(),
    }
}

pub open spec fn pos_wire_opt(o: Option<PositionSource>) -> Seq<u8> {
    match o {
        Some(f) => f.wire(),
        None => Seq::<u8>::empty(),
    }
}

/// The present data items laid out in ascending FRN order, no padding.
pub open spec fn record_payload(r: Record34) -> Seq<u8> {
    ds_wire_opt(r.data_source_id) + mt_wire_opt(r.message_type) + tod_wire_opt(r.time_of_day)
        + sec_wire_opt(r.sector_number) + ant_wire_opt(r.antenna_rotation) + scs_wire_opt(
        r.system_configuration_status,
    ) + spm_wire_opt(r.system_processing_mode) + gpw_wire_opt(r.generic_polar_window)
        + pos_wire_opt(r.position_source)
}

/// The canonical wire form of a record: FSPEC chain, then the present
/// fields in FRN order.
pub open spec fn record_wire(r: Record34) -> Seq<u8> {
    fspec_chain(r) + record_payload(r)
}

impl Record34 {
    /// Every present field fits its wire representation exactly, so the
    /// record has one canonical wire form.
    pub open spec fn wf(self) -> bool {
        &&& (match self.time_of_day {
            Some(t) => t.wf(),
            None => true,
        })
        &&& (match self.system_configuration_status {
            Some(s) => s.wf(),
            None => true,
        })
        &&& (match self.system_processing_mode {
            Some(s) => s.wf(),
            None => true,
        })
        &&& (match self.position_source {
            Some(p) => p.wf(),
            None => true,
        })
    }
}

/// The System Configuration and Status value read at offset `o`: the primary
/// octet, then one octet for each announced subfield in COM, PSR, SSR, MDS
/// order.
pub open spec fn spec_scs(b: Seq<u8>, o: int) -> SystemConfigurationStatus {
    let p = b[o];
    let i_com = o + 1;
    let i_psr = i_com + (if byte_bit(p, 1) {
        1int
    } else {
        0
    });
    let i_ssr = i_psr + (if byte_bit(p, 4) {
        1int
    } else {
        0
    });
    let i_mds = i_ssr + (if byte_bit(p, 5) {
        1int
    } else {
        0
    });
    SystemConfigurationStatus {
        configuration_options: p,
        com_subfield: if byte_bit(p, 1) {
            b[i_com]
        } else {
            0
        },
        psr_subfield: if byte_bit(p, 4) {
            b[i_psr]
        } else {
            0
        },
        ssr_subfield: if byte_bit(p, 5) {
            b[i_ssr]
        } else {
            0
        },
        mds_subfield: if byte_bit(p, 6) {
            b[i_mds]
        } else {
            0
        },
    }
}

/// The System Processing Mode value read at offset `o`, laid out like
/// `spec_scs`.
pub open spec fn spec_spm(b: Seq<u8>, o: int) -> SystemProcessingMode {
    let p = b[o];
    let i_com = o + 1;
    let i_psr = i_com + (if byte_bit(p, 1) {
        1int
    } else {
        0
    });
    let i_ssr = i_psr + (if byte_bit(p, 4) {
        1int
    } else {
        0
    });
    let i_mds = i_ssr + (if byte_bit(p, 5) {
        1int
    } else {
        0
    });
    SystemProcessingMode {
        processing_options: p,
        com_subfield: if byte_bit(p, 1) {
            b[i_com]
        } else {
            0
        },
        psr_subfield: if byte_bit(p, 4) {
            b[i_psr]
        } else {
            0
        },
        ssr_subfield: if byte_bit(p, 5) {
            b[i_ssr]
        } else {
            0
        },
        mds_subfield: if byte_bit(p, 6) {
            b[i_mds]
        } else {
            0
        },
    }
}

/// The five fixed-size fields (FRN 1..5) announced by `f1`, read from `b`
/// at `cur0`, and the cursor one past them; `None` when the buffer ends
/// before they do.
pub open spec fn spec_decode_head(b: Seq<u8>, cur0: int, f1: u8) -> Option<
    (
        Option<DataSource>,
        Option<MessageType>,
        Option<TimeOfDay>,
        Option<SectorNumber>,
        Option<AntennaRotation>,
        int,
    ),
> {
    let o1 = cur0;  // I034/010, 2 octets
    let o2 = o1 + (if byte_bit(f1, 1) {
        2int
    } else {
        0
    });  // I034/000, 1 octet
    let o3 = o2 + (if byte_bit(f1, 2) {
        1int
    } else {
        0
    });  // I034/030, 3 octets
    let o4 = o3 + (if byte_bit(f1, 3) {
        3int
    } else {
        0
    });  // I034/020, 1 octet
    let o5 = o4 + (if byte_bit(f1, 4) {
        1int
    } else {
        0
    });  // I034/041, 2 octets
    let o6 = o5 + (if byte_bit(f1, 5) {
        2int
    } else {
        0
    });
    if o6 > b.len() {
        None
    } else {
        Some(
            (
                if byte_bit(f1, 1) {
                    Some(DataSource { sic: b[o1], sac: b[o1 + 1] })
                } else {
                    None
                },
                if byte_bit(f1, 2) {
                    Some(MessageType { message: b[o2] })
                } else {
                    None
                },
                if byte_bit(f1, 3) {
                    Some(TimeOfDay { time: u24_value(b[o3], b[o3 + 1], b[o3 + 2]) as u32 })
                } else {
                    None
                },
                if byte_bit(f1, 4) {
                    Some(SectorNumber { sector: b[o4] })
                } else {
                    None
                },
                if byte_bit(f1, 5) {
                    Some(
                        AntennaRotation {
                            period: (256 * (b[o5] as int) + b[o5 + 1] as int) as u16,
                        },
                    )
                } else {
                    None
                },
                o6,
            ),
        )
    }
}

/// The variable-size and second-octet fields (FRN 6, 7, 9, 11) announced by
/// `f1` and `f2`, read from `b` at `o6`, and the cursor one past them;
/// `None` when the buffer ends before they do.
pub open spec fn spec_decode_tail(b: Seq<u8>, o6: int, f1: u8, f2: u8) -> Option<
    (
        Option<SystemConfigurationStatus>,
        Option<SystemProcessingMode>,
        Option<GenericPolarWindow>,
        Option<PositionSource>,
        int,
    ),
> {
    if byte_bit(f1, 6) && o6 >= b.len() {
        None
    } else {
        let o7 = o6 + (if byte_bit(f1, 6) {
            subfield_wire_len(b[o6])
        } else {
            0
        });  // I034/060, 1..5 octets
        if byte_bit(f1, 7) && o7 >= b.len() {
            None
        } else {
            let o8 = o7 + (if byte_bit(f1, 7) {
                subfield_wire_len(b[o7])
            } else {
                0
            });  // I034/100, 8 octets
            let o9 = o8 + (if byte_bit(f2, 2) {
                8int
            } else {
                0
            });  // I034/120, 8 octets
            let end = o9 + (if byte_bit(f2, 4) {
                8int
            } else {
                0
            });
            if end > b.len() {
                None
            } else {
                Some(
                    (
                        if byte_bit(f1, 6) {
                            Some(spec_scs(b, o6))
                        } else {
                            None
                        },
                        if byte_bit(f1, 7) {
                            Some(spec_spm(b, o7))
                        } else {
                            None
                        },
                        if byte_bit(f2, 2) {
                            Some(
                                GenericPolarWindow {
                                    rho_start: (256 * (b[o8] as int) + b[o8 + 1] as int) as u16,
                                    rho_end: (256 * (b[o8 + 2] as int) + b[o8 + 3] as int) as u16,
                                    theta_start: (256 * (b[o8 + 4] as int) + b[o8
                                        + 5] as int) as u16,
                                    theta_end: (256 * (b[o8 + 6] as int) + b[o8 + 7] as int) as u16,
                                },
                            )
                        } else {
                            None
                        },
                        if byte_bit(f2, 4) {
                            Some(
                                PositionSource {
                                    height: (256 * (b[o9] as int) + b[o9 + 1] as int) as u16,
                                    lat: u24_value(b[o9 + 2], b[o9 + 3], b[o9 + 4]) as u32,
                                    lon: u24_value(b[o9 + 5], b[o9 + 6], b[o9 + 7]) as u32,
                                },
                            )
                        } else {
                            None
                        },
                        end,
                    ),
                )
            }
        }
    }
}

/// The fields announced by FSPEC octets `f1` and `f2`, read from `b`
/// starting at `cur0`; `None` when the buffer ends before the announced
/// fields do. Returns the record and the cursor one past its last octet.
pub open spec fn spec_decode_fields(b: Seq<u8>, cur0: int, f1: u8, f2: u8) -> Option<
    (Record34, int),
> {
    match spec_decode_head(b, cur0, f1) {
        Some(h) => match spec_decode_tail(b, h.5, f1, f2) {
            Some(t) => Some(
                (
                    Record34 {
                        data_source_id: h.0,
                        message_type: h.1,
                        time_of_day: h.2,
                        sector_number: h.3,
                        antenna_rotation: h.4,
                        system_configuration_status: t.0,
                        system_processing_mode: t.1,
                        generic_polar_window: t.2,
                        position_source: t.3,
                    },
                    t.4,
                ),
            ),
            None => None,
        },
        None => None,
    }
}

/// Each bit of the first FSPEC octet reads back the presence that put it
/// there.
proof fn lemma_fspec1_bits(r: Record34)
    ensures
        byte_bit(fspec1_val(r), 1) == r.data_source_id is Some,
        byte_bit(fspec1_val(r), 2) == r.message_type is Some,
        byte_bit(fspec1_val(r), 3) == r.time_of_day is Some,
        byte_bit(fspec1_val(r), 4) == r.sector_number is Some,
        byte_bit(fspec1_val(r), 5) == r.antenna_rotation is Some,
        byte_bit(fspec1_val(r), 6) == r.system_configuration_status is Some,
        byte_bit(fspec1_val(r), 7) == r.system_processing_mode is Some,
        byte_bit(fspec1_val(r), 8) == ext_needed(r),
{
}

/// Each bit of the second FSPEC octet reads back the presence that put it
/// there, and no unsupported bit is ever set.
proof fn lemma_fspec2_bits(r: Record34)
    ensures
        byte_bit(fspec2_val(r), 2) == r.generic_polar_window is Some,
        byte_bit(fspec2_val(r), 4) == r.position_source is Some,
        !fspec2_unsupported(fspec2_val(r)),
{
}

/// A 24-bit count is reconstructed exactly from its three wire octets.
proof fn lemma_u24_round_trip(v: u32)
    requires
        v < 0x1000000,
    ensures
        u24_value(
            ((v as int / 65536) % 256) as u8,
            ((v as int / 256) % 256) as u8,
            (v as int % 256) as u8,
        ) == v as int,
{
    assert(65536 * ((v as int / 65536) % 256) + 256 * ((v as int / 256) % 256) + v as int % 256
        == v as int) by (nonlinear_arith)
        requires
            0 <= v as int,
            (v as int) < 0x1000000;
}

/// A 16-bit count is reconstructed exactly from its two wire octets.
proof fn lemma_u16_round_trip(v: u16)
    ensures
        256 * (v as int / 256) + v as int % 256 == v as int,
{
}

/// The announced subfields read back from a field's wire form give back the
/// field, provided unannounced subfield octets hold zero.
proof fn lemma_scs_at(b: Seq<u8>, o: int, s: SystemConfigurationStatus)
    requires
        0 <= o,
        o + subfield_wire_len(s.configuration_options) <= b.len(),
        forall|i: int|
            0 <= i < subfield_wire_len(s.configuration_options) ==> b[o + i] == s.wire()[i],
        s.wf(),
    ensures
        spec_scs(b, o) == s,
{
    let p = s.configuration_options;
    assert(b[o + 0] == s.wire()[0]);
    assert(s.wire()[0] == p);
    if byte_bit(p, 1) {
        assert(s.wire()[1] == s.com_subfield);
        assert(b[o + 1] == s.wire()[1]);
    }
    let i_psr = 1 + (if byte_bit(p, 1) { 1int } else { 0 });
    if byte_bit(p, 4) {
        assert(s.wire()[i_psr] == s.psr_subfield);
        assert(b[o + i_psr] == s.wire()[i_psr]);
    }
    let i_ssr = i_psr + (if byte_bit(p, 4) { 1int } else { 0 });
    if byte_bit(p, 5) {
        assert(s.wire()[i_ssr] == s.ssr_subfield);
        assert(b[o + i_ssr] == s.wire()[i_ssr]);
    }
    let i_mds = i_ssr + (if byte_bit(p, 5) { 1int } else { 0 });
    if byte_bit(p, 6) {
        assert(s.wire()[i_mds] == s.mds_subfield);
        assert(b[o + i_mds] == s.wire()[i_mds]);
    }
}

/// The announced subfields read back from a field's wire form give back the
/// field, provided unannounced subfield octets hold zero.
proof fn lemma_spm_at(b: Seq<u8>, o: int, s: SystemProcessingMode)
    requires
        0 <= o,
        o + subfield_wire_len(s.processing_options) <= b.len(),
        forall|i: int| 0 <= i < subfield_wire_len(s.processing_options) ==> b[o + i] == s.wire()[i],
        s.wf(),
    ensures
        spec_spm(b, o) == s,
{
    let p = s.processing_options;
    assert(b[o + 0] == s.wire()[0]);
    assert(s.wire()[0] == p);
    if byte_bit(p, 1) {
        assert(s.wire()[1] == s.com_subfield);
        assert(b[o + 1] == s.wire()[1]);
    }
    let i_psr = 1 + (if byte_bit(p, 1) { 1int } else { 0 });
    if byte_bit(p, 4) {
        assert(s.wire()[i_psr] == s.psr_subfield);
        assert(b[o + i_psr] == s.wire()[i_psr]);
    }
    let i_ssr = i_psr + (if byte_bit(p, 4) { 1int } else { 0 });
    if byte_bit(p, 5) {
        assert(s.wire()[i_ssr] == s.ssr_subfield);
        assert(b[o + i_ssr] == s.wire()[i_ssr]);
    }
    let i_mds = i_ssr + (if byte_bit(p, 5) { 1int } else { 0 });
    if byte_bit(p, 6) {
        assert(s.wire()[i_mds] == s.mds_subfield);
        assert(b[o + i_mds] == s.wire()[i_mds]);
    }
}

/// Within the record's wire form, each present field's octets stand at the
/// cumulative offset of the pieces before it.
#[verifier::rlimit(100)]
proof fn lemma_payload_alignment(r: Record34)
    ensures
        forall|i: int|
            0 <= i < ds_wire_opt(r.data_source_id).len() ==> record_wire(r)[fspec_chain(r).len() + i] == #[trigger] ds_wire_opt(r.data_source_id)[i],
        forall|i: int|
            0 <= i < mt_wire_opt(r.message_type).len() ==> record_wire(r)[fspec_chain(r).len() + ds_wire_opt(r.data_source_id).len() + i] == #[trigger] mt_wire_opt(r.message_type)[i],
        forall|i: int|
            0 <= i < tod_wire_opt(r.time_of_day).len() ==> record_wire(r)[fspec_chain(r).len() + ds_wire_opt(r.data_source_id).len() + mt_wire_opt(r.message_type).len() + i] == #[trigger] tod_wire_opt(r.time_of_day)[i],
        forall|i: int|
            0 <= i < sec_wire_opt(r.sector_number).len() ==> record_wire(r)[fspec_chain(r).len() + ds_wire_opt(r.data_source_id).len() + mt_wire_opt(r.message_type).len() + tod_wire_opt(r.time_of_day).len() + i] == #[trigger] sec_wire_opt(r.sector_number)[i],
        forall|i: int|
            0 <= i < ant_wire_opt(r.antenna_rotation).len() ==> record_wire(r)[fspec_chain(r).len() + ds_wire_opt(r.data_source_id).len() + mt_wire_opt(r.message_type).len() + tod_wire_opt(r.time_of_day).len() + sec_wire_opt(r.sector_number).len() + i] == #[trigger] ant_wire_opt(r.antenna_rotation)[i],
        forall|i: int|
            0 <= i < scs_wire_opt(r.system_configuration_status).len() ==> record_wire(r)[fspec_chain(r).len() + ds_wire_opt(r.data_source_id).len() + mt_wire_opt(r.message_type).len() + tod_wire_opt(r.time_of_day).len() + sec_wire_opt(r.sector_number).len() + ant_wire_opt(r.antenna_rotation).len() + i] == #[trigger] scs_wire_opt(r.system_configuration_status)[i],
        forall|i: int|
            0 <= i < spm_wire_opt(r.system_processing_mode).len() ==> record_wire(r)[fspec_chain(r).len() + ds_wire_opt(r.data_source_id).len() + mt_wire_opt(r.message_type).len() + tod_wire_opt(r.time_of_day).len() + sec_wire_opt(r.sector_number).len() + ant_wire_opt(r.antenna_rotation).len() + scs_wire_opt(r.system_configuration_status).len() + i] == #[trigger] spm_wire_opt(r.system_processing_mode)[i],
        forall|i: int|
            0 <= i < gpw_wire_opt(r.generic_polar_window).len() ==> record_wire(r)[fspec_chain(r).len() + ds_wire_opt(r.data_source_id).len() + mt_wire_opt(r.message_type).len() + tod_wire_opt(r.time_of_day).len() + sec_wire_opt(r.sector_number).len() + ant_wire_opt(r.antenna_rotation).len() + scs_wire_opt(r.system_configuration_status).len() + spm_wire_opt(r.system_processing_mode).len() + i] == #[trigger] gpw_wire_opt(r.generic_polar_window)[i],
        forall|i: int|
            0 <= i < pos_wire_opt(r.position_source).len() ==> record_wire(r)[fspec_chain(r).len() + ds_wire_opt(r.data_source_id).len() + mt_wire_opt(r.message_type).len() + tod_wire_opt(r.time_of_day).len() + sec_wire_opt(r.sector_number).len() + ant_wire_opt(r.antenna_rotation).len() + scs_wire_opt(r.system_configuration_status).len() + spm_wire_opt(r.system_processing_mode).len() + gpw_wire_opt(r.generic_polar_window).len() + i] == #[trigger] pos_wire_opt(r.position_source)[i],
{
    let c = fspec_chain(r).len() as int;
    let q1 = ds_wire_opt(r.data_source_id);
    let q2 = mt_wire_opt(r.message_type);
    let q3 = tod_wire_opt(r.time_of_day);
    let q4 = sec_wire_opt(r.sector_number);
    let q5 = ant_wire_opt(r.antenna_rotation);
    let q6 = scs_wire_opt(r.system_configuration_status);
    let q7 = spm_wire_opt(r.system_processing_mode);
    let q8 = gpw_wire_opt(r.generic_polar_window);
    let q9 = pos_wire_opt(r.position_source);
    let l0 = 0int;
    let l1 = l0 + q1.len();
    let l2 = l1 + q2.len();
    let l3 = l2 + q3.len();
    let l4 = l3 + q4.len();
    let l5 = l4 + q5.len();
    let l6 = l5 + q6.len();
    let l7 = l6 + q7.len();
    let l8 = l7 + q8.len();
    let l9 = l8 + q9.len();
    assert(record_payload(r) == q1 + q2 + q3 + q4 + q5 + q6 + q7 + q8 + q9);
    assert forall|i: int| 0 <= i < q1.len() implies record_wire(r)[c + l0 + i] == #[trigger] q1[i] by {
        let j = l0 + i;
        assert((q1)[j] == q1[i]);
        assert((q1 + q2)[j] == (q1)[j]);
        assert((q1 + q2 + q3)[j] == (q1 + q2)[j]);
        assert((q1 + q2 + q3 + q4)[j] == (q1 + q2 + q3)[j]);
        assert((q1 + q2 + q3 + q4 + q5)[j] == (q1 + q2 + q3 + q4)[j]);
        assert((q1 + q2 + q3 + q4 + q5 + q6)[j] == (q1 + q2 + q3 + q4 + q5)[j]);
        assert((q1 + q2 + q3 + q4 + q5 + q6 + q7)[j] == (q1 + q2 + q3 + q4 + q5 + q6)[j]);
        assert((q1 + q2 + q3 + q4 + q5 + q6 + q7 + q8)[j] == (q1 + q2 + q3 + q4 + q5 + q6 + q7)[j]);
        assert((q1 + q2 + q3 + q4 + q5 + q6 + q7 + q8 + q9)[j] == (q1 + q2 + q3 + q4 + q5 + q6 + q7 + q8)[j]);
        assert(record_wire(r)[c + j] == record_payload(r)[j]);
    };
    assert forall|i: int| 0 <= i < q2.len() implies record_wire(r)[c + l1 + i] == #[trigger] q2[i] by {
        let j = l1 + i;
        assert((q1 + q2)[j] == q2[i]);
        assert((q1 + q2 + q3)[j] == (q1 + q2)[j]);
        assert((q1 + q2 + q3 + q4)[j] == (q1 + q2 + q3)[j]);
        assert((q1 + q2 + q3 + q4 + q5)[j] == (q1 + q2 + q3 + q4)[j]);
        assert((q1 + q2 + q3 + q4 + q5 + q6)[j] == (q1 + q2 + q3 + q4 + q5)[j]);
        assert((q1 + q2 + q3 + q4 + q5 + q6 + q7)[j] == (q1 + q2 + q3 + q4 + q5 + q6)[j]);
        assert((q1 + q2 + q3 + q4 + q5 + q6 + q7 + q8)[j] == (q1 + q2 + q3 + q4 + q5 + q6 + q7)[j]);
        assert((q1 + q2 + q3 + q4 + q5 + q6 + q7 + q8 + q9)[j] == (q1 + q2 + q3 + q4 + q5 + q6 + q7 + q8)[j]);
        assert(record_wire(r)[c + j] == record_payload(r)[j]);
    };
    assert forall|i: int| 0 <= i < q3.len() implies record_wire(r)[c + l2 + i] == #[trigger] q3[i] by {
        let j = l2 + i;
        assert((q1 + q2 + q3)[j] == q3[i]);
        assert((q1 + q2 + q3 + q4)[j] == (q1 + q2 + q3)[j]);
        assert((q1 + q2 + q3 + q4 + q5)[j] == (q1 + q2 + q3 + q4)[j]);
        assert((q1 + q2 + q3 + q4 + q5 + q6)[j] == (q1 + q2 + q3 + q4 + q5)[j]);
        assert((q1 + q2 + q3 + q4 + q5 + q6 + q7)[j] == (q1 + q2 + q3 + q4 + q5 + q6)[j]);
        assert((q1 + q2 + q3 + q4 + q5 + q6 + q7 + q8)[j] == (q1 + q2 + q3 + q4 + q5 + q6 + q7)[j]);
        assert((q1 + q2 + q3 + q4 + q5 + q6 + q7 + q8 + q9)[j] == (q1 + q2 + q3 + q4 + q5 + q6 + q7 + q8)[j]);
        assert(record_wire(r)[c + j] == record_payload(r)[j]);
    };
    assert forall|i: int| 0 <= i < q4.len() implies record_wire(r)[c + l3 + i] == #[trigger] q4[i] by {
        let j = l3 + i;
        assert((q1 + q2 + q3 + q4)[j] == q4[i]);
        assert((q1 + q2 + q3 + q4 + q5)[j] == (q1 + q2 + q3 + q4)[j]);
        assert((q1 + q2 + q3 + q4 + q5 + q6)[j] == (q1 + q2 + q3 + q4 + q5)[j]);
        assert((q1 + q2 + q3 + q4 + q5 + q6 + q7)[j] == (q1 + q2 + q3 + q4 + q5 + q6)[j]);
        assert((q1 + q2 + q3 + q4 + q5 + q6 + q7 + q8)[j] == (q1 + q2 + q3 + q4 + q5 + q6 + q7)[j]);
        assert((q1 + q2 + q3 + q4 + q5 + q6 + q7 + q8 + q9)[j] == (q1 + q2 + q3 + q4 + q5 + q6 + q7 + q8)[j]);
        assert(record_wire(r)[c + j] == record_payload(r)[j]);
    };
    assert forall|i: int| 0 <= i < q5.len() implies record_wire(r)[c + l4 + i] == #[trigger] q5[i] by {
        let j = l4 + i;
        assert((q1 + q2 + q3 + q4 + q5)[j] == q5[i]);
        assert((q1 + q2 + q3 + q4 + q5 + q6)[j] == (q1 + q2 + q3 + q4 + q5)[j]);
        assert((q1 + q2 + q3 + q4 + q5 + q6 + q7)[j] == (q1 + q2 + q3 + q4 + q5 + q6)[j]);
        assert((q1 + q2 + q3 + q4 + q5 + q6 + q7 + q8)[j] == (q1 + q2 + q3 + q4 + q5 + q6 + q7)[j]);
        assert((q1 + q2 + q3 + q4 + q5 + q6 + q7 + q8 + q9)[j] == (q1 + q2 + q3 + q4 + q5 + q6 + q7 + q8)[j]);
        assert(record_wire(r)[c + j] == record_payload(r)[j]);
    };
    assert forall|i: int| 0 <= i < q6.len() implies record_wire(r)[c + l5 + i] == #[trigger] q6[i] by {
        let j = l5 + i;
        assert((q1 + q2 + q3 + q4 + q5 + q6)[j] == q6[i]);
        assert((q1 + q2 + q3 + q4 + q5 + q6 + q7)[j] == (q1 + q2 + q3 + q4 + q5 + q6)[j]);
        assert((q1 + q2 + q3 + q4 + q5 + q6 + q7 + q8)[j] == (q1 + q2 + q3 + q4 + q5 + q6 + q7)[j]);
        assert((q1 + q2 + q3 + q4 + q5 + q6 + q7 + q8 + q9)[j] == (q1 + q2 + q3 + q4 + q5 + q6 + q7 + q8)[j]);
        assert(record_wire(r)[c + j] == record_payload(r)[j]);
    };
    assert forall|i: int| 0 <= i < q7.len() implies record_wire(r)[c + l6 + i] == #[trigger] q7[i] by {
        let j = l6 + i;
        assert((q1 + q2 + q3 + q4 + q5 + q6 + q7)[j] == q7[i]);
        assert((q1 + q2 + q3 + q4 + q5 + q6 + q7 + q8)[j] == (q1 + q2 + q3 + q4 + q5 + q6 + q7)[j]);
        assert((q1 + q2 + q3 + q4 + q5 + q6 + q7 + q8 + q9)[j] == (q1 + q2 + q3 + q4 + q5 + q6 + q7 + q8)[j]);
        assert(record_wire(r)[c + j] == record_payload(r)[j]);
    };
    assert forall|i: int| 0 <= i < q8.len() implies record_wire(r)[c + l7 + i] == #[trigger] q8[i] by {
        let j = l7 + i;
        assert((q1 + q2 + q3 + q4 + q5 + q6 + q7 + q8)[j] == q8[i]);
        assert((q1 + q2 + q3 + q4 + q5 + q6 + q7 + q8 + q9)[j] == (q1 + q2 + q3 + q4 + q5 + q6 + q7 + q8)[j]);
        assert(record_wire(r)[c + j] == record_payload(r)[j]);
    };
    assert forall|i: int| 0 <= i < q9.len() implies record_wire(r)[c + l8 + i] == #[trigger] q9[i] by {
        let j = l8 + i;
        assert((q1 + q2 + q3 + q4 + q5 + q6 + q7 + q8 + q9)[j] == q9[i]);
        assert(record_wire(r)[c + j] == record_payload(r)[j]);
    };
}

/// A Generic Polar Window is reconstructed exactly from its eight wire
/// octets.
proof fn lemma_gpw_at(b: Seq<u8>, o: int, g: GenericPolarWindow)
    requires
        0 <= o,
        o + 8 <= b.len(),
        forall|i: int| 0 <= i < 8 ==> b[o + i] == g.wire()[i],
    ensures
        (GenericPolarWindow {
            rho_start: (256 * (b[o] as int) + b[o + 1] as int) as u16,
            rho_end: (256 * (b[o + 2] as int) + b[o + 3] as int) as u16,
            theta_start: (256 * (b[o + 4] as int) + b[o + 5] as int) as u16,
            theta_end: (256 * (b[o + 6] as int) + b[o + 7] as int) as u16,
        }) == g,
{
    assert(g.wire()[0] == (g.rho_start as int / 256) as u8);
    assert(g.wire()[1] == (g.rho_start as int % 256) as u8);
    assert(g.wire()[2] == (g.rho_end as int / 256) as u8);
    assert(g.wire()[3] == (g.rho_end as int % 256) as u8);
    assert(g.wire()[4] == (g.theta_start as int / 256) as u8);
    assert(g.wire()[5] == (g.theta_start as int % 256) as u8);
    assert(g.wire()[6] == (g.theta_end as int / 256) as u8);
    assert(g.wire()[7] == (g.theta_end as int % 256) as u8);
    assert(b[o + 0] == g.wire()[0]);
    assert(b[o + 1] == g.wire()[1]);
    assert(b[o + 2] == g.wire()[2]);
    assert(b[o + 3] == g.wire()[3]);
    assert(b[o + 4] == g.wire()[4]);
    assert(b[o + 5] == g.wire()[5]);
    assert(b[o + 6] == g.wire()[6]);
    assert(b[o + 7] == g.wire()[7]);
    lemma_u16_round_trip(g.rho_start);
    lemma_u16_round_trip(g.rho_end);
    lemma_u16_round_trip(g.theta_start);
    lemma_u16_round_trip(g.theta_end);
}

/// A 3D Position of Data Source is reconstructed exactly from its eight
/// wire octets.
proof fn lemma_pos_at(b: Seq<u8>, o: int, p: PositionSource)
    requires
        0 <= o,
        o + 8 <= b.len(),
        forall|i: int| 0 <= i < 8 ==> b[o + i] == p.wire()[i],
        p.wf(),
    ensures
        (PositionSource {
            height: (256 * (b[o] as int) + b[o + 1] as int) as u16,
            lat: u24_value(b[o + 2], b[o + 3], b[o + 4]) as u32,
            lon: u24_value(b[o + 5], b[o + 6], b[o + 7]) as u32,
        }) == p,
{
    assert(p.wire()[0] == (p.height as int / 256) as u8);
    assert(p.wire()[1] == (p.height as int % 256) as u8);
    assert(p.wire()[2] == ((p.lat as int / 65536) % 256) as u8);
    assert(p.wire()[3] == ((p.lat as int / 256) % 256) as u8);
    assert(p.wire()[4] == (p.lat as int % 256) as u8);
    assert(p.wire()[5] == ((p.lon as int / 65536) % 256) as u8);
    assert(p.wire()[6] == ((p.lon as int / 256) % 256) as u8);
    assert(p.wire()[7] == (p.lon as int % 256) as u8);
    assert(b[o + 0] == p.wire()[0]);
    assert(b[o + 1] == p.wire()[1]);
    assert(b[o + 2] == p.wire()[2]);
    assert(b[o + 3] == p.wire()[3]);
    assert(b[o + 4] == p.wire()[4]);
    assert(b[o + 5] == p.wire()[5]);
    assert(b[o + 6] == p.wire()[6]);
    assert(b[o + 7] == p.wire()[7]);
    lemma_u16_round_trip(p.height);
    lemma_u24_round_trip(p.lat);
    lemma_u24_round_trip(p.lon);
    assert(u24_value(b[o + 2], b[o + 3], b[o + 4]) == p.lat as int);
    assert(u24_value(b[o + 5], b[o + 6], b[o + 7]) == p.lon as int);
}

/// Decoding the head of a record's canonical wire form, embedded at
/// `start`, gives back its five fixed-size fields.
#[verifier::rlimit(100)]
proof fn lemma_head_round_trip_at(b: Seq<u8>, start: int, r: Record34)
    requires
        r.wf(),
        0 <= start,
        start + record_wire(r).len() <= b.len(),
        forall|i: int|
            0 <= i < record_wire(r).len() ==> b[start + i] == #[trigger] record_wire(r)[i],
    ensures
        spec_decode_head(b, start + fspec_chain(r).len(), fspec1_val(r)) == Some(
            (
                r.data_source_id,
                r.message_type,
                r.time_of_day,
                r.sector_number,
                r.antenna_rotation,
                start + (fspec_chain(r).len() + ds_wire_opt(r.data_source_id).len() + mt_wire_opt(r.message_type).len() + tod_wire_opt(r.time_of_day).len() + sec_wire_opt(r.sector_number).len() + ant_wire_opt(r.antenna_rotation).len()),
            ),
        ),
{
    lemma_record_wire_len(r);
    lemma_fspec1_bits(r);
    lemma_fspec2_bits(r);
    lemma_opt_data_source_len(r.data_source_id);
    lemma_opt_message_type_len(r.message_type);
    lemma_opt_time_of_day_len(r.time_of_day);
    lemma_opt_sector_number_len(r.sector_number);
    lemma_opt_antenna_rotation_len(r.antenna_rotation);
    lemma_opt_scs_len(r.system_configuration_status);
    lemma_opt_spm_len(r.system_processing_mode);
    lemma_opt_polar_window_len(r.generic_polar_window);
    lemma_opt_position_source_len(r.position_source);
    lemma_payload_alignment(r);
    let w = record_wire(r);
    let c = fspec_chain(r).len() as int;
    let o1 = c;
    let o2 = o1 + ds_wire_opt(r.data_source_id).len();
    let o3 = o2 + mt_wire_opt(r.message_type).len();
    let o4 = o3 + tod_wire_opt(r.time_of_day).len();
    let o5 = o4 + sec_wire_opt(r.sector_number).len();
    let o6 = o5 + ant_wire_opt(r.antenna_rotation).len();
    let o7 = o6 + scs_wire_opt(r.system_configuration_status).len();
    let o8 = o7 + spm_wire_opt(r.system_processing_mode).len();
    let o9 = o8 + gpw_wire_opt(r.generic_polar_window).len();
    let end = o9 + pos_wire_opt(r.position_source).len();
    let f1 = fspec1_val(r);
    match r.data_source_id {
        Some(f) => {
            assert(w[o1] == f.sic);
            assert(w[o1 + 1] == f.sac);
            assert(b[start + o1] == f.sic);
            assert(b[start + o1 + 1] == f.sac);
        },
        None => {},
    }
    match r.message_type {
        Some(f) => {
            assert(w[o2] == f.message);
            assert(b[start + o2] == f.message);
        },
        None => {},
    }
    match r.time_of_day {
        Some(f) => {
            assert(w[o3] == ((f.time as int / 65536) % 256) as u8);
            assert(w[o3 + 1] == ((f.time as int / 256) % 256) as u8);
            assert(w[o3 + 2] == (f.time as int % 256) as u8);
            assert(b[start + o3] == w[o3]);
            assert(b[start + o3 + 1] == w[o3 + 1]);
            assert(b[start + o3 + 2] == w[o3 + 2]);
            lemma_u24_round_trip(f.time);
            assert(u24_value(b[start + o3], b[start + o3 + 1], b[start + o3 + 2])
                == f.time as int);
        },
        None => {},
    }
    match r.sector_number {
        Some(f) => {
            assert(w[o4] == f.sector);
            assert(b[start + o4] == f.sector);
        },
        None => {},
    }
    match r.antenna_rotation {
        Some(f) => {
            assert(w[o5] == (f.period as int / 256) as u8);
            assert(w[o5 + 1] == (f.period as int % 256) as u8);
            assert(b[start + o5] == w[o5]);
            assert(b[start + o5 + 1] == w[o5 + 1]);
            lemma_u16_round_trip(f.period);
            assert(256 * (b[start + o5] as int) + b[start + o5 + 1] as int == f.period as int);
        },
        None => {},
    }
    assert(spec_decode_head(b, start + c, f1) == Some(
        (
            r.data_source_id,
            r.message_type,
            r.time_of_day,
            r.sector_number,
            r.antenna_rotation,
            start + o6,
        ),
    ));
}

/// The System Configuration and Status field reads back from its place in
/// an embedded record.
#[verifier::rlimit(100)]
proof fn lemma_scs_fact_at(b: Seq<u8>, start: int, r: Record34)
    requires
        r.wf(),
        0 <= start,
        start + record_wire(r).len() <= b.len(),
        forall|i: int|
            0 <= i < record_wire(r).len() ==> b[start + i] == #[trigger] record_wire(r)[i],
    ensures
        match r.system_configuration_status {
            Some(s) => spec_scs(b, start + (fspec_chain(r).len() + ds_wire_opt(r.data_source_id).len() + mt_wire_opt(r.message_type).len() + tod_wire_opt(r.time_of_day).len() + sec_wire_opt(r.sector_number).len() + ant_wire_opt(r.antenna_rotation).len())) == s && b[start + (fspec_chain(r).len() + ds_wire_opt(r.data_source_id).len() + mt_wire_opt(r.message_type).len() + tod_wire_opt(r.time_of_day).len() + sec_wire_opt(r.sector_number).len() + ant_wire_opt(r.antenna_rotation).len())]
                == s.configuration_options,
            None => true,
        },
{
    lemma_record_wire_len(r);
    lemma_fspec1_bits(r);
    lemma_fspec2_bits(r);
    lemma_opt_data_source_len(r.data_source_id);
    lemma_opt_message_type_len(r.message_type);
    lemma_opt_time_of_day_len(r.time_of_day);
    lemma_opt_sector_number_len(r.sector_number);
    lemma_opt_antenna_rotation_len(r.antenna_rotation);
    lemma_opt_scs_len(r.system_configuration_status);
    lemma_opt_spm_len(r.system_processing_mode);
    lemma_opt_polar_window_len(r.generic_polar_window);
    lemma_opt_position_source_len(r.position_source);
    lemma_payload_alignment(r);
    let w = record_wire(r);
    let c = fspec_chain(r).len() as int;
    let o1 = c;
    let o2 = o1 + ds_wire_opt(r.data_source_id).len();
    let o3 = o2 + mt_wire_opt(r.message_type).len();
    let o4 = o3 + tod_wire_opt(r.time_of_day).len();
    let o5 = o4 + sec_wire_opt(r.sector_number).len();
    let o6 = o5 + ant_wire_opt(r.antenna_rotation).len();
    let o7 = o6 + scs_wire_opt(r.system_configuration_status).len();
    let o8 = o7 + spm_wire_opt(r.system_processing_mode).len();
    let o9 = o8 + gpw_wire_opt(r.generic_polar_window).len();
    let end = o9 + pos_wire_opt(r.position_source).len();
    match r.system_configuration_status {
        Some(s) => {
            assert forall|i: int|
                0 <= i < subfield_wire_len(s.configuration_options) implies b[start + o6 + i]
                == s.wire()[i] by {
                assert(w[o6 + i] == s.wire()[i]);
                assert(b[start + (o6 + i)] == w[o6 + i]);
            };
            lemma_scs_at(b, start + o6, s);
            assert(b[start + o6] == s.configuration_options);
        },
        None => {},
    }
}

/// The System Processing Mode field reads back from its place in an
/// embedded record.
#[verifier::rlimit(100)]
proof fn lemma_spm_fact_at(b: Seq<u8>, start: int, r: Record34)
    requires
        r.wf(),
        0 <= start,
        start + record_wire(r).len() <= b.len(),
        forall|i: int|
            0 <= i < record_wire(r).len() ==> b[start + i] == #[trigger] record_wire(r)[i],
    ensures
        match r.system_processing_mode {
            Some(s) => spec_spm(b, start + (fspec_chain(r).len() + ds_wire_opt(r.data_source_id).len() + mt_wire_opt(r.message_type).len() + tod_wire_opt(r.time_of_day).len() + sec_wire_opt(r.sector_number).len() + ant_wire_opt(r.antenna_rotation).len() + scs_wire_opt(r.system_configuration_status).len())) == s && b[start + (fspec_chain(r).len() + ds_wire_opt(r.data_source_id).len() + mt_wire_opt(r.message_type).len() + tod_wire_opt(r.time_of_day).len() + sec_wire_opt(r.sector_number).len() + ant_wire_opt(r.antenna_rotation).len() + scs_wire_opt(r.system_configuration_status).len())]
                == s.processing_options,
            None => true,
        },
{
    lemma_record_wire_len(r);
    lemma_fspec1_bits(r);
    lemma_fspec2_bits(r);
    lemma_opt_data_source_len(r.data_source_id);
    lemma_opt_message_type_len(r.message_type);
    lemma_opt_time_of_day_len(r.time_of_day);
    lemma_opt_sector_number_len(r.sector_number);
    lemma_opt_antenna_rotation_len(r.antenna_rotation);
    lemma_opt_scs_len(r.system_configuration_status);
    lemma_opt_spm_len(r.system_processing_mode);
    lemma_opt_polar_window_len(r.generic_polar_window);
    lemma_opt_position_source_len(r.position_source);
    lemma_payload_alignment(r);
    let w = record_wire(r);
    let c = fspec_chain(r).len() as int;
    let o1 = c;
    let o2 = o1 + ds_wire_opt(r.data_source_id).len();
    let o3 = o2 + mt_wire_opt(r.message_type).len();
    let o4 = o3 + tod_wire_opt(r.time_of_day).len();
    let o5 = o4 + sec_wire_opt(r.sector_number).len();
    let o6 = o5 + ant_wire_opt(r.antenna_rotation).len();
    let o7 = o6 + scs_wire_opt(r.system_configuration_status).len();
    let o8 = o7 + spm_wire_opt(r.system_processing_mode).len();
    let o9 = o8 + gpw_wire_opt(r.generic_polar_window).len();
    let end = o9 + pos_wire_opt(r.position_source).len();
    match r.system_processing_mode {
        Some(s) => {
            assert forall|i: int|
                0 <= i < subfield_wire_len(s.processing_options) implies b[start + o7 + i]
                == s.wire()[i] by {
                assert(w[o7 + i] == s.wire()[i]);
                assert(b[start + (o7 + i)] == w[o7 + i]);
            };
            lemma_spm_at(b, start + o7, s);
            assert(b[start + o7] == s.processing_options);
        },
        None => {},
    }
}

/// The Generic Polar Window octets stand at their place in an embedded
/// record.
#[verifier::rlimit(100)]
proof fn lemma_gpw_fact_at(b: Seq<u8>, start: int, r: Record34)
    requires
        r.wf(),
        0 <= start,
        start + record_wire(r).len() <= b.len(),
        forall|i: int|
            0 <= i < record_wire(r).len() ==> b[start + i] == #[trigger] record_wire(r)[i],
    ensures
        match r.generic_polar_window {
            Some(g) => forall|i: int|
                0 <= i < 8 ==> b[start + (fspec_chain(r).len() + ds_wire_opt(r.data_source_id).len() + mt_wire_opt(r.message_type).len() + tod_wire_opt(r.time_of_day).len() + sec_wire_opt(r.sector_number).len() + ant_wire_opt(r.antenna_rotation).len() + scs_wire_opt(r.system_configuration_status).len() + spm_wire_opt(r.system_processing_mode).len()) + i] == #[trigger] g.wire()[i],
            None => true,
        },
{
    lemma_record_wire_len(r);
    lemma_fspec1_bits(r);
    lemma_fspec2_bits(r);
    lemma_opt_data_source_len(r.data_source_id);
    lemma_opt_message_type_len(r.message_type);
    lemma_opt_time_of_day_len(r.time_of_day);
    lemma_opt_sector_number_len(r.sector_number);
    lemma_opt_antenna_rotation_len(r.antenna_rotation);
    lemma_opt_scs_len(r.system_configuration_status);
    lemma_opt_spm_len(r.system_processing_mode);
    lemma_opt_polar_window_len(r.generic_polar_window);
    lemma_opt_position_source_len(r.position_source);
    lemma_payload_alignment(r);
    let w = record_wire(r);
    let c = fspec_chain(r).len() as int;
    let o1 = c;
    let o2 = o1 + ds_wire_opt(r.data_source_id).len();
    let o3 = o2 + mt_wire_opt(r.message_type).len();
    let o4 = o3 + tod_wire_opt(r.time_of_day).len();
    let o5 = o4 + sec_wire_opt(r.sector_number).len();
    let o6 = o5 + ant_wire_opt(r.antenna_rotation).len();
    let o7 = o6 + scs_wire_opt(r.system_configuration_status).len();
    let o8 = o7 + spm_wire_opt(r.system_processing_mode).len();
    let o9 = o8 + gpw_wire_opt(r.generic_polar_window).len();
    let end = o9 + pos_wire_opt(r.position_source).len();
    match r.generic_polar_window {
        Some(g) => {
            assert forall|i: int| 0 <= i < 8 implies b[start + o8 + i] == #[trigger] g.wire()[i] by {
                assert(w[o8 + i] == g.wire()[i]);
                assert(b[start + (o8 + i)] == w[o8 + i]);
            };
        },
        None => {},
    }
}

/// The 3D Position of Data Source octets stand at their place in an
/// embedded record.
#[verifier::rlimit(100)]
proof fn lemma_pos_fact_at(b: Seq<u8>, start: int, r: Record34)
    requires
        r.wf(),
        0 <= start,
        start + record_wire(r).len() <= b.len(),
        forall|i: int|
            0 <= i < record_wire(r).len() ==> b[start + i] == #[trigger] record_wire(r)[i],
    ensures
        match r.position_source {
            Some(p) => forall|i: int|
                0 <= i < 8 ==> b[start + (fspec_chain(r).len() + ds_wire_opt(r.data_source_id).len() + mt_wire_opt(r.message_type).len() + tod_wire_opt(r.time_of_day).len() + sec_wire_opt(r.sector_number).len() + ant_wire_opt(r.antenna_rotation).len() + scs_wire_opt(r.system_configuration_status).len() + spm_wire_opt(r.system_processing_mode).len() + gpw_wire_opt(r.generic_polar_window).len()) + i] == #[trigger] p.wire()[i],
            None => true,
        },
{
    lemma_record_wire_len(r);
    lemma_fspec1_bits(r);
    lemma_fspec2_bits(r);
    lemma_opt_data_source_len(r.data_source_id);
    lemma_opt_message_type_len(r.message_type);
    lemma_opt_time_of_day_len(r.time_of_day);
    lemma_opt_sector_number_len(r.sector_number);
    lemma_opt_antenna_rotation_len(r.antenna_rotation);
    lemma_opt_scs_len(r.system_configuration_status);
    lemma_opt_spm_len(r.system_processing_mode);
    lemma_opt_polar_window_len(r.generic_polar_window);
    lemma_opt_position_source_len(r.position_source);
    lemma_payload_alignment(r);
    let w = record_wire(r);
    let c = fspec_chain(r).len() as int;
    let o1 = c;
    let o2 = o1 + ds_wire_opt(r.data_source_id).len();
    let o3 = o2 + mt_wire_opt(r.message_type).len();
    let o4 = o3 + tod_wire_opt(r.time_of_day).len();
    let o5 = o4 + sec_wire_opt(r.sector_number).len();
    let o6 = o5 + ant_wire_opt(r.antenna_rotation).len();
    let o7 = o6 + scs_wire_opt(r.system_configuration_status).len();
    let o8 = o7 + spm_wire_opt(r.system_processing_mode).len();
    let o9 = o8 + gpw_wire_opt(r.generic_polar_window).len();
    let end = o9 + pos_wire_opt(r.position_source).len();
    match r.position_source {
        Some(p) => {
            assert forall|i: int| 0 <= i < 8 implies b[start + o9 + i] == #[trigger] p.wire()[i] by {
                assert(w[o9 + i] == p.wire()[i]);
                assert(b[start + (o9 + i)] == w[o9 + i]);
            };
        },
        None => {},
    }
}

/// Decoding the tail of a record's canonical wire form, embedded at
/// `start`, gives back its variable-size and second-octet fields, ending
/// exactly where the record's octets do.
#[verifier::rlimit(100)]
proof fn lemma_tail_round_trip_at(b: Seq<u8>, start: int, r: Record34)
    requires
        r.wf(),
        0 <= start,
        start + record_wire(r).len() <= b.len(),
        forall|i: int|
            0 <= i < record_wire(r).len() ==> b[start + i] == #[trigger] record_wire(r)[i],
    ensures
        spec_decode_tail(
            b,
            start + (fspec_chain(r).len() + ds_wire_opt(r.data_source_id).len() + mt_wire_opt(r.message_type).len() + tod_wire_opt(r.time_of_day).len() + sec_wire_opt(r.sector_number).len() + ant_wire_opt(r.antenna_rotation).len()),
            fspec1_val(r),
            if ext_needed(r) {
                fspec2_val(r)
            } else {
                0u8
            },
        ) == Some(
            (
                r.system_configuration_status,
                r.system_processing_mode,
                r.generic_polar_window,
                r.position_source,
                start + record_wire(r).len(),
            ),
        ),
{
    lemma_record_wire_len(r);
    lemma_fspec1_bits(r);
    lemma_fspec2_bits(r);
    lemma_opt_data_source_len(r.data_source_id);
    lemma_opt_message_type_len(r.message_type);
    lemma_opt_time_of_day_len(r.time_of_day);
    lemma_opt_sector_number_len(r.sector_number);
    lemma_opt_antenna_rotation_len(r.antenna_rotation);
    lemma_opt_scs_len(r.system_configuration_status);
    lemma_opt_spm_len(r.system_processing_mode);
    lemma_opt_polar_window_len(r.generic_polar_window);
    lemma_opt_position_source_len(r.position_source);
    lemma_payload_alignment(r);
    let w = record_wire(r);
    let c = fspec_chain(r).len() as int;
    let o1 = c;
    let o2 = o1 + ds_wire_opt(r.data_source_id).len();
    let o3 = o2 + mt_wire_opt(r.message_type).len();
    let o4 = o3 + tod_wire_opt(r.time_of_day).len();
    let o5 = o4 + sec_wire_opt(r.sector_number).len();
    let o6 = o5 + ant_wire_opt(r.antenna_rotation).len();
    let o7 = o6 + scs_wire_opt(r.system_configuration_status).len();
    let o8 = o7 + spm_wire_opt(r.system_processing_mode).len();
    let o9 = o8 + gpw_wire_opt(r.generic_polar_window).len();
    let end = o9 + pos_wire_opt(r.position_source).len();
    let f1 = fspec1_val(r);
    let f2 = if ext_needed(r) {
        fspec2_val(r)
    } else {
        0u8
    };
    assert(w.len() == end);
    lemma_scs_fact_at(b, start, r);
    lemma_spm_fact_at(b, start, r);
    lemma_gpw_fact_at(b, start, r);
    lemma_pos_fact_at(b, start, r);
    match r.generic_polar_window {
        Some(g) => {
            lemma_gpw_at(b, start + o8, g);
        },
        None => {},
    }
    match r.position_source {
        Some(p) => {
            lemma_pos_at(b, start + o9, p);
        },
        None => {},
    }
    assert(spec_decode_tail(b, start + o6, f1, f2) == Some(
        (
            r.system_configuration_status,
            r.system_processing_mode,
            r.generic_polar_window,
            r.position_source,
            start + end,
        ),
    ));
}

/// Round trip: decoding a record's canonical wire form gives back the
/// record, field for field, and consumes exactly its octets. Holds for
/// every well-formed record.
pub proof fn lemma_record_round_trip(r: Record34)
    requires
        r.wf(),
    ensures
        spec_decode_record(record_wire(r), 0) == Some((r, record_wire(r).len() as int)),
{
    lemma_record_round_trip_at(record_wire(r), 0, r);
}

/// Round trip at an offset: a record's canonical wire form embedded in a
/// larger buffer decodes to the record and consumes exactly its octets,
/// whatever follows it.
#[verifier::rlimit(100)]
pub proof fn lemma_record_round_trip_at(b: Seq<u8>, start: int, r: Record34)
    requires
        r.wf(),
        0 <= start,
        start + record_wire(r).len() <= b.len(),
        forall|i: int| 0 <= i < record_wire(r).len() ==> b[start + i] == #[trigger] record_wire(r)[i],
    ensures
        spec_decode_record(b, start) == Some((r, record_wire(r).len() as int)),
{
    reveal(spec_decode_record);
    lemma_record_wire_len(r);
    lemma_fspec1_bits(r);
    lemma_fspec2_bits(r);
    lemma_head_round_trip_at(b, start, r);
    lemma_tail_round_trip_at(b, start, r);
    let w = record_wire(r);
    let f1 = fspec1_val(r);
    let f2 = if ext_needed(r) {
        fspec2_val(r)
    } else {
        0u8
    };
    let c = fspec_chain(r).len() as int;
    assert(b[start + 0] == w[0]);
    assert(w[0] == f1);
    if ext_needed(r) {
        assert(b[start + 1] == w[1]);
        assert(w[1] == fspec2_val(r));
    }
    assert(spec_decode_fields(b, start + c, f1, f2) == Some((r, start + w.len())));
}

/// Octets with bits outside this profile in a second FSPEC octet: FRN 8, 10,
/// 12, 13 and 14 have no layout here, and a third chain octet is past the
/// fourteen FRNs of CAT034.
pub open spec fn fspec2_unsupported(f2: u8) -> bool {
    byte_bit(f2, 1) || byte_bit(f2, 3) || byte_bit(f2, 5) || byte_bit(f2, 6) || byte_bit(f2, 7)
        || byte_bit(f2, 8)
}

/// The record beginning at `start` in `b` and the count of octets it
/// occupies; `None` when the buffer is malformed there.
#[verifier::opaque]
pub open spec fn spec_decode_record(b: Seq<u8>, start: int) -> Option<(Record34, int)> {
    if !(0 <= start && start < b.len()) {
        None
    } else {
        let f1 = b[start];
        if byte_bit(f1, 8) {
            if start + 1 >= b.len() {
                None
            } else {
                let f2 = b[start + 1];
                if fspec2_unsupported(f2) {
                    None
                } else {
                    match spec_decode_fields(b, start + 2, f1, f2) {
                        Some((rec, end)) => Some((rec, end - start)),
                        None => None,
                    }
                }
            }
        } else {
            match spec_decode_fields(b, start + 1, f1, 0) {
                Some((rec, end)) => Some((rec, end - start)),
                None => None,
            }
        }
    }
}

/// Octet count of a record's canonical wire form, as plain arithmetic over
/// field presence.
pub open spec fn record_wire_len(r: Record34) -> int {
    (if ext_needed(r) {
        2int
    } else {
        1
    }) + (if r.data_source_id is Some {
        2int
    } else {
        0
    }) + (if r.message_type is Some {
        1int
    } else {
        0
    }) + (if r.time_of_day is Some {
        3int
    } else {
        0
    }) + (if r.sector_number is Some {
        1int
    } else {
        0
    }) + (if r.antenna_rotation is Some {
        2int
    } else {
        0
    }) + (match r.system_configuration_status {
        Some(s) => subfield_wire_len(s.configuration_options),
        None => 0,
    }) + (match r.system_processing_mode {
        Some(s) => subfield_wire_len(s.processing_options),
        None => 0,
    }) + (if r.generic_polar_window is Some {
        8int
    } else {
        0
    }) + (if r.position_source is Some {
        8int
    } else {
        0
    })
}

/// Octet count that an optional field contributes to the payload.
pub proof fn lemma_opt_data_source_len(o: Option<DataSource>)
    ensures
        ds_wire_opt(o).len() == (if o is Some { 2int } else { 0 }),
{
}

pub proof fn lemma_opt_message_type_len(o: Option<MessageType>)
    ensures
        mt_wire_opt(o).len() == (if o is Some { 1int } else { 0 }),
{
}

pub proof fn lemma_opt_time_of_day_len(o: Option<TimeOfDay>)
    ensures
        tod_wire_opt(o).len() == (if o is Some { 3int } else { 0 }),
{
}

pub proof fn lemma_opt_sector_number_len(o: Option<SectorNumber>)
    ensures
        sec_wire_opt(o).len() == (if o is Some { 1int } else { 0 }),
{
}

pub proof fn lemma_opt_antenna_rotation_len(o: Option<AntennaRotation>)
    ensures
        ant_wire_opt(o).len() == (if o is Some { 2int } else { 0 }),
{
}

pub proof fn lemma_opt_scs_len(o: Option<SystemConfigurationStatus>)
    ensures
        scs_wire_opt(o).len() == (match o { Some(s) => subfield_wire_len(s.configuration_options), None => 0 }),
{
}

pub proof fn lemma_opt_spm_len(o: Option<SystemProcessingMode>)
    ensures
        spm_wire_opt(o).len() == (match o { Some(s) => subfield_wire_len(s.processing_options), None => 0 }),
{
}

pub proof fn lemma_opt_polar_window_len(o: Option<GenericPolarWindow>)
    ensures
        gpw_wire_opt(o).len() == (if o is Some { 8int } else { 0 }),
{
}

pub proof fn lemma_opt_position_source_len(o: Option<PositionSource>)
    ensures
        pos_wire_opt(o).len() == (if o is Some { 8int } else { 0 }),
{
}

/// The canonical wire form is as long as `record_wire_len` says.
#[verifier::rlimit(100)]
pub proof fn lemma_record_wire_len(r: Record34)
    ensures
        record_wire(r).len() == record_wire_len(r),
{
    lemma_opt_data_source_len(r.data_source_id);
    lemma_opt_message_type_len(r.message_type);
    lemma_opt_time_of_day_len(r.time_of_day);
    lemma_opt_sector_number_len(r.sector_number);
    lemma_opt_antenna_rotation_len(r.antenna_rotation);
    lemma_opt_scs_len(r.system_configuration_status);
    lemma_opt_spm_len(r.system_processing_mode);
    lemma_opt_polar_window_len(r.generic_polar_window);
    lemma_opt_position_source_len(r.position_source);
    assert(fspec_chain(r).len() == if ext_needed(r) { 2int } else { 1 });
}

/// Append the octets of an optional Data Source Identifier.
fn push_data_source(v: &mut Vec<u8>, o: &Option<DataSource>)
    ensures
        final(v)@ == old(v)@ + ds_wire_opt(*o),
{
    match o {
        Some(f) => {
            let a = f.to_bytes();
            v.push(a[0]);
            v.push(a[1]);
            proof {
                assert(v@ =~= old(v)@ + f.wire());
            }
        },
        None => {
            proof {
                assert(v@ =~= old(v)@ + Seq::<u8>::empty());
            }
        },
    }
}

/// Append the octet of an optional Message Type.
fn push_message_type(v: &mut Vec<u8>, o: &Option<MessageType>)
    ensures
        final(v)@ == old(v)@ + mt_wire_opt(*o),
{
    match o {
        Some(f) => {
            let a = f.to_bytes();
            v.push(a[0]);
            proof {
                assert(v@ =~= old(v)@ + f.wire());
            }
        },
        None => {
            proof {
                assert(v@ =~= old(v)@ + Seq::<u8>::empty());
            }
        },
    }
}

/// Append the octets of an optional Time of Day.
fn push_time_of_day(v: &mut Vec<u8>, o: &Option<TimeOfDay>)
    ensures
        final(v)@ == old(v)@ + tod_wire_opt(*o),
{
    match o {
        Some(f) => {
            let a = f.to_bytes();
            v.push(a[0]);
            v.push(a[1]);
            v.push(a[2]);
            proof {
                assert(v@ =~= old(v)@ + f.wire());
            }
        },
        None => {
            proof {
                assert(v@ =~= old(v)@ + Seq::<u8>::empty());
            }
        },
    }
}

/// Append the octet of an optional Sector Number.
fn push_sector_number(v: &mut Vec<u8>, o: &Option<SectorNumber>)
    ensures
        final(v)@ == old(v)@ + sec_wire_opt(*o),
{
    match o {
        Some(f) => {
            let a = f.to_bytes();
            v.push(a[0]);
            proof {
                assert(v@ =~= old(v)@ + f.wire());
            }
        },
        None => {
            proof {
                assert(v@ =~= old(v)@ + Seq::<u8>::empty());
            }
        },
    }
}

/// Append the octets of an optional Antenna Rotation Period.
fn push_antenna_rotation(v: &mut Vec<u8>, o: &Option<AntennaRotation>)
    ensures
        final(v)@ == old(v)@ + ant_wire_opt(*o),
{
    match o {
        Some(f) => {
            let a = f.to_bytes();
            v.push(a[0]);
            v.push(a[1]);
            proof {
                assert(v@ =~= old(v)@ + f.wire());
            }
        },
        None => {
            proof {
                assert(v@ =~= old(v)@ + Seq::<u8>::empty());
            }
        },
    }
}

/// Append the octets of an optional System Configuration and Status: the
/// primary octet and each announced subfield.
fn push_scs(v: &mut Vec<u8>, o: &Option<SystemConfigurationStatus>)
    ensures
        final(v)@ == old(v)@ + scs_wire_opt(*o),
{
    match o {
        Some(f) => {
            v.push(f.to_bytes());
            if f.get_configuration_option(Subfield::Com) {
                v.push(f.to_bytes_subfield(Subfield::Com));
            }
            if f.get_configuration_option(Subfield::Psr) {
                v.push(f.to_bytes_subfield(Subfield::Psr));
            }
            if f.get_configuration_option(Subfield::Ssr) {
                v.push(f.to_bytes_subfield(Subfield::Ssr));
            }
            if f.get_configuration_option(Subfield::Mds) {
                v.push(f.to_bytes_subfield(Subfield::Mds));
            }
            proof {
                assert(v@ =~= old(v)@ + f.wire());
            }
        },
        None => {
            proof {
                assert(v@ =~= old(v)@ + Seq::<u8>::empty());
            }
        },
    }
}

/// Append the octets of an optional System Processing Mode: the primary
/// octet and each announced subfield.
fn push_spm(v: &mut Vec<u8>, o: &Option<SystemProcessingMode>)
    ensures
        final(v)@ == old(v)@ + spm_wire_opt(*o),
{
    match o {
        Some(f) => {
            v.push(f.to_bytes());
            if f.get_processing_option(ProcessingSubfield::Com) {
                v.push(f.to_bytes_subfield(ProcessingSubfield::Com));
            }
            if f.get_processing_option(ProcessingSubfield::Psr) {
                v.push(f.to_bytes_subfield(ProcessingSubfield::Psr));
            }
            if f.get_processing_option(ProcessingSubfield::Ssr) {
                v.push(f.to_bytes_subfield(ProcessingSubfield::Ssr));
            }
            if f.get_processing_option(ProcessingSubfield::Mds) {
                v.push(f.to_bytes_subfield(ProcessingSubfield::Mds));
            }
            proof {
                assert(v@ =~= old(v)@ + f.wire());
            }
        },
        None => {
            proof {
                assert(v@ =~= old(v)@ + Seq::<u8>::empty());
            }
        },
    }
}

/// Append the octets of an optional Generic Polar Window.
fn push_polar_window(v: &mut Vec<u8>, o: &Option<GenericPolarWindow>)
    ensures
        final(v)@ == old(v)@ + gpw_wire_opt(*o),
{
    match o {
        Some(f) => {
            let a = f.to_bytes();
            v.push(a[0]);
            v.push(a[1]);
            v.push(a[2]);
            v.push(a[3]);
            v.push(a[4]);
            v.push(a[5]);
            v.push(a[6]);
            v.push(a[7]);
            proof {
                assert(v@ =~= old(v)@ + f.wire());
            }
        },
        None => {
            proof {
                assert(v@ =~= old(v)@ + Seq::<u8>::empty());
            }
        },
    }
}

/// Append the octets of an optional 3D Position of Data Source.
fn push_position_source(v: &mut Vec<u8>, o: &Option<PositionSource>)
    ensures
        final(v)@ == old(v)@ + pos_wire_opt(*o),
{
    match o {
        Some(f) => {
            let a = f.to_bytes();
            v.push(a[0]);
            v.push(a[1]);
            v.push(a[2]);
            v.push(a[3]);
            v.push(a[4]);
            v.push(a[5]);
            v.push(a[6]);
            v.push(a[7]);
            proof {
                assert(v@ =~= old(v)@ + f.wire());
            }
        },
        None => {
            proof {
                assert(v@ =~= old(v)@ + Seq::<u8>::empty());
            }
        },
    }
}

impl Record34 {
    /// The present data items laid out in ascending FRN order.
    fn encode_payload(&self) -> (v: Vec<u8>)
        ensures
            v@ == record_payload(*self),
    {
        let mut v: Vec<u8> = Vec::new();
        push_data_source(&mut v, &self.data_source_id);
        proof {
            assert(v@ =~= ds_wire_opt(self.data_source_id));
        }
        push_message_type(&mut v, &self.message_type);
        push_time_of_day(&mut v, &self.time_of_day);
        push_sector_number(&mut v, &self.sector_number);
        push_antenna_rotation(&mut v, &self.antenna_rotation);
        push_scs(&mut v, &self.system_configuration_status);
        push_spm(&mut v, &self.system_processing_mode);
        push_polar_window(&mut v, &self.generic_polar_window);
        push_position_source(&mut v, &self.position_source);
        v
    }

    /// Lay the record out in its canonical wire form: the FSPEC chain
    /// derived from field presence, then the present fields in FRN order.
    pub fn encode_to_vec(&self) -> (v: Vec<u8>)
        ensures
            v@ == record_wire(*self),
    {
        let mut v: Vec<u8> = Vec::new();
        let mut f1: u8 = 0;
        if self.data_source_id.is_some() {
            f1 = f1 + 128;
        }
        if self.message_type.is_some() {
            f1 = f1 + 64;
        }
        if self.time_of_day.is_some() {
            f1 = f1 + 32;
        }
        if self.sector_number.is_some() {
            f1 = f1 + 16;
        }
        if self.antenna_rotation.is_some() {
            f1 = f1 + 8;
        }
        if self.system_configuration_status.is_some() {
            f1 = f1 + 4;
        }
        if self.system_processing_mode.is_some() {
            f1 = f1 + 2;
        }
        let ext = self.generic_polar_window.is_some() || self.position_source.is_some();
        if ext {
            f1 = f1 + 1;
        }
        v.push(f1);
        if ext {
            let mut f2: u8 = 0;
            if self.generic_polar_window.is_some() {
                f2 = f2 + 64;
            }
            if self.position_source.is_some() {
                f2 = f2 + 16;
            }
            v.push(f2);
        }
        assert(v@ =~= fspec_chain(*self));
        let mut payload = self.encode_payload();
        v.append(&mut payload);
        v
    }
}

/// A record that decodes consumes at least one octet and never more than
/// the buffer holds.
pub proof fn lemma_decode_record_bounds(b: Seq<u8>, start: int)
    ensures
        match spec_decode_record(b, start) {
            Some((rec, used)) => 1 <= used && start + used <= b.len(),
            None => true,
        },
{
    reveal(spec_decode_record);
}

/// Number of octets of the FSPEC chain that begins at `start`: one octet per
/// step while the FX bit is set; `None` when the buffer ends before a
/// terminating octet.
pub open spec fn spec_chain_len(b: Seq<u8>, start: int) -> Option<int>
    decreases b.len() - start,
{
    if !(0 <= start && start < b.len()) {
        None
    } else if !byte_bit(b[start], 8) {
        Some(1)
    } else {
        match spec_chain_len(b, start + 1) {
            Some(n) => Some(n + 1),
            None => None,
        }
    }
}

/// A chain's length from `start` is the octets walked so far plus its length
/// from the current cursor, as long as every walked octet had FX set.
proof fn lemma_chain_prefix(b: Seq<u8>, start: int, cur: int)
    requires
        0 <= start <= cur <= b.len(),
        forall|i: int| start <= i < cur ==> byte_bit(b[i], 8),
    ensures
        spec_chain_len(b, start) == match spec_chain_len(b, cur) {
            Some(n) => Some(n + (cur - start)),
            None => None::<int>,
        },
    decreases cur - start,
{
    if start < cur {
        lemma_chain_prefix(b, start + 1, cur);
    }
}

/// Decode all field spec octets of one chain: read octets while the FX bit
/// is set. The walk reads at most one octet per buffer octet, and a chain
/// that is still extended when the buffer ends is rejected as malformed
/// rather than walked past the end.
pub fn decode_field_spec(buf: &Vec<u8>, start: usize) -> (r: Result<Vec<FieldSpec>, CatError>)
    ensures
        match spec_chain_len(buf@, start as int) {
            Some(n) => r matches Ok(v) && v@.len() == n && (forall|i: int|
                0 <= i < n ==> v@[i].fspec == buf@[start + i]),
            None => r == Err::<Vec<FieldSpec>, CatError>(CatError::SizeInvalid),
        },
{
    let mut v: Vec<FieldSpec> = Vec::new();
    let len = buf.len();
    if start >= len {
        return Err(CatError::SizeInvalid);
    }
    let mut cur = start;
    loop
        invariant
            start <= cur <= len,
            len == buf@.len(),
            v@.len() == cur - start,
            forall|i: int| 0 <= i < v@.len() ==> v@[i].fspec == buf@[start + i],
            forall|i: int| start <= i < cur ==> byte_bit(buf@[i], 8),
        decreases len - cur,
    {
        if cur >= len {
            // the chain is still extended at the end of the buffer
            proof {
                lemma_chain_prefix(buf@, start as int, cur as int);
            }
            return Err(CatError::SizeInvalid);
        }
        let byte = buf[cur];
        let mut field_spec = FieldSpec::new();
        field_spec.from_bytes(&[byte]);
        v.push(field_spec);
        cur = cur + 1;
        if byte % 2 == 0 {
            // FX clear: this octet terminates the chain
            proof {
                lemma_chain_prefix(buf@, start as int, cur as int - 1);
            }
            return Ok(v);
        }
    }
}

/// Read a System Configuration and Status field at `cur`: the primary
/// octet, then each announced subfield in COM, PSR, SSR, MDS order.
fn read_scs(buf: &Vec<u8>, cur: usize) -> (r: Result<(SystemConfigurationStatus, usize), CatError>)
    requires
        cur < buf@.len(),
    ensures
        cur as int + subfield_wire_len(buf@[cur as int]) <= buf@.len() ==> (r matches Ok(p)
            && p.0 == spec_scs(buf@, cur as int) && p.1 as int == cur as int + subfield_wire_len(
            buf@[cur as int],
        )),
        cur as int + subfield_wire_len(buf@[cur as int]) > buf@.len() ==> r == Err::<
            (SystemConfigurationStatus, usize),
            CatError,
        >(CatError::SizeInvalid),
{
    let len = buf.len();
    let mut f = SystemConfigurationStatus {
        configuration_options: 0,
        com_subfield: 0,
        psr_subfield: 0,
        ssr_subfield: 0,
        mds_subfield: 0,
    };
    let mut c = cur;
    f.from_bytes(buf[c]);
    c = c + 1;
    if f.get_configuration_option(Subfield::Com) {
        if c >= len {
            return Err(CatError::SizeInvalid);
        }
        f.from_bytes_subfield(Subfield::Com, buf[c]);
        c = c + 1;
    }
    if f.get_configuration_option(Subfield::Psr) {
        if c >= len {
            return Err(CatError::SizeInvalid);
        }
        f.from_bytes_subfield(Subfield::Psr, buf[c]);
        c = c + 1;
    }
    if f.get_configuration_option(Subfield::Ssr) {
        if c >= len {
            return Err(CatError::SizeInvalid);
        }
        f.from_bytes_subfield(Subfield::Ssr, buf[c]);
        c = c + 1;
    }
    if f.get_configuration_option(Subfield::Mds) {
        if c >= len {
            return Err(CatError::SizeInvalid);
        }
        f.from_bytes_subfield(Subfield::Mds, buf[c]);
        c = c + 1;
    }
    proof {
        assert(f == spec_scs(buf@, cur as int));
    }
    Ok((f, c))
}

/// Read a System Processing Mode field at `cur`, laid out like `read_scs`.
fn read_spm(buf: &Vec<u8>, cur: usize) -> (r: Result<(SystemProcessingMode, usize), CatError>)
    requires
        cur < buf@.len(),
    ensures
        cur as int + subfield_wire_len(buf@[cur as int]) <= buf@.len() ==> (r matches Ok(p)
            && p.0 == spec_spm(buf@, cur as int) && p.1 as int == cur as int + subfield_wire_len(
            buf@[cur as int],
        )),
        cur as int + subfield_wire_len(buf@[cur as int]) > buf@.len() ==> r == Err::<
            (SystemProcessingMode, usize),
            CatError,
        >(CatError::SizeInvalid),
{
    let len = buf.len();
    let mut f = SystemProcessingMode {
        processing_options: 0,
        com_subfield: 0,
        psr_subfield: 0,
        ssr_subfield: 0,
        mds_subfield: 0,
    };
    let mut c = cur;
    f.from_bytes(buf[c]);
    c = c + 1;
    if f.get_processing_option(ProcessingSubfield::Com) {
        if c >= len {
            return Err(CatError::SizeInvalid);
        }
        f.from_bytes_subfield(ProcessingSubfield::Com, buf[c]);
        c = c + 1;
    }
    if f.get_processing_option(ProcessingSubfield::Psr) {
        if c >= len {
            return Err(CatError::SizeInvalid);
        }
        f.from_bytes_subfield(ProcessingSubfield::Psr, buf[c]);
        c = c + 1;
    }
    if f.get_processing_option(ProcessingSubfield::Ssr) {
        if c >= len {
            return Err(CatError::SizeInvalid);
        }
        f.from_bytes_subfield(ProcessingSubfield::Ssr, buf[c]);
        c = c + 1;
    }
    if f.get_processing_option(ProcessingSubfield::Mds) {
        if c >= len {
            return Err(CatError::SizeInvalid);
        }
        f.from_bytes_subfield(ProcessingSubfield::Mds, buf[c]);
        c = c + 1;
    }
    proof {
        assert(f == spec_spm(buf@, cur as int));
    }
    Ok((f, c))
}

/// Read the five fixed-size fields (FRN 1..5) announced by `f1` at `cur0`.
#[verifier::rlimit(100)]
fn parse_head(buf: &Vec<u8>, cur0: usize, f1: u8) -> (r: Result<
    (
        Option<DataSource>,
        Option<MessageType>,
        Option<TimeOfDay>,
        Option<SectorNumber>,
        Option<AntennaRotation>,
        usize,
    ),
    CatError,
>)
    requires
        cur0 <= buf@.len(),
    ensures
        match spec_decode_head(buf@, cur0 as int, f1) {
            Some(h) => r matches Ok(p) && p.0 == h.0 && p.1 == h.1 && p.2 == h.2 && p.3 == h.3
                && p.4 == h.4 && p.5 as int == h.5,
            None => r == Err::<
                (
                    Option<DataSource>,
                    Option<MessageType>,
                    Option<TimeOfDay>,
                    Option<SectorNumber>,
                    Option<AntennaRotation>,
                    usize,
                ),
                CatError,
            >(CatError::SizeInvalid),
        },
{
    let len = buf.len();
    let mut cur = cur0;
    // I034/010 Data Source Identifier
    let mut data_source_id: Option<DataSource> = None;
    if (f1 / 128) % 2 == 1 {
        if len - cur < 2 {
            return Err(CatError::SizeInvalid);
        }
        let mut f = DataSource::new();
        f.from_bytes(&[buf[cur], buf[cur + 1]]);
        data_source_id = Some(f);
        cur = cur + 2;
    }
    // I034/000 Message Type
    let mut message_type: Option<MessageType> = None;
    if (f1 / 64) % 2 == 1 {
        if len - cur < 1 {
            return Err(CatError::SizeInvalid);
        }
        let mut f = MessageType::new();
        f.from_bytes(&[buf[cur]]);
        message_type = Some(f);
        cur = cur + 1;
    }
    // I034/030 Time of Day
    let mut time_of_day: Option<TimeOfDay> = None;
    if (f1 / 32) % 2 == 1 {
        if len - cur < 3 {
            return Err(CatError::SizeInvalid);
        }
        let mut f = TimeOfDay { time: 0 };
        f.from_bytes(&[buf[cur], buf[cur + 1], buf[cur + 2]]);
        time_of_day = Some(f);
        cur = cur + 3;
    }
    // I034/020 Sector Number
    let mut sector_number: Option<SectorNumber> = None;
    if (f1 / 16) % 2 == 1 {
        if len - cur < 1 {
            return Err(CatError::SizeInvalid);
        }
        let mut f = SectorNumber::new();
        f.from_bytes(&[buf[cur]]);
        sector_number = Some(f);
        cur = cur + 1;
    }
    // I034/041 Antenna Rotation Period
    let mut antenna_rotation: Option<AntennaRotation> = None;
    if (f1 / 8) % 2 == 1 {
        if len - cur < 2 {
            return Err(CatError::SizeInvalid);
        }
        let mut f = AntennaRotation { period: 0 };
        f.from_bytes(&[buf[cur], buf[cur + 1]]);
        antenna_rotation = Some(f);
        cur = cur + 2;
    }
    Ok((data_source_id, message_type, time_of_day, sector_number, antenna_rotation, cur))
}

/// Read the variable-size and second-octet fields (FRN 6, 7, 9, 11)
/// announced by `f1` and `f2` at `o6`.
#[verifier::rlimit(100)]
fn parse_tail(buf: &Vec<u8>, o6: usize, f1: u8, f2: u8) -> (r: Result<
    (
        Option<SystemConfigurationStatus>,
        Option<SystemProcessingMode>,
        Option<GenericPolarWindow>,
        Option<PositionSource>,
        usize,
    ),
    CatError,
>)
    requires
        o6 <= buf@.len(),
    ensures
        match spec_decode_tail(buf@, o6 as int, f1, f2) {
            Some(t) => r matches Ok(p) && p.0 == t.0 && p.1 == t.1 && p.2 == t.2 && p.3 == t.3
                && p.4 as int == t.4,
            None => r == Err::<
                (
                    Option<SystemConfigurationStatus>,
                    Option<SystemProcessingMode>,
                    Option<GenericPolarWindow>,
                    Option<PositionSource>,
                    usize,
                ),
                CatError,
            >(CatError::SizeInvalid),
        },
{
    let len = buf.len();
    let mut cur = o6;
    // I034/050 System Configuration and Status
    let mut system_configuration_status: Option<SystemConfigurationStatus> = None;
    if (f1 / 4) % 2 == 1 {
        if cur >= len {
            return Err(CatError::SizeInvalid);
        }
        match read_scs(buf, cur) {
            Ok(p) => {
                system_configuration_status = Some(p.0);
                cur = p.1;
            },
            Err(e) => {
                return Err(e);
            },
        }
    }
    // I034/060 System Processing Mode
    let mut system_processing_mode: Option<SystemProcessingMode> = None;
    if (f1 / 2) % 2 == 1 {
        if cur >= len {
            return Err(CatError::SizeInvalid);
        }
        match read_spm(buf, cur) {
            Ok(p) => {
                system_processing_mode = Some(p.0);
                cur = p.1;
            },
            Err(e) => {
                return Err(e);
            },
        }
    }
    // I034/100 Generic Polar Window
    let mut generic_polar_window: Option<GenericPolarWindow> = None;
    if (f2 / 64) % 2 == 1 {
        if len - cur < 8 {
            return Err(CatError::SizeInvalid);
        }
        let mut f = GenericPolarWindow { rho_start: 0, rho_end: 0, theta_start: 0, theta_end: 0 };
        f.from_bytes(
            &[
                buf[cur],
                buf[cur + 1],
                buf[cur + 2],
                buf[cur + 3],
                buf[cur + 4],
                buf[cur + 5],
                buf[cur + 6],
                buf[cur + 7],
            ],
        );
        generic_polar_window = Some(f);
        cur = cur + 8;
    }
    // I034/120 3D Position of Data Source
    let mut position_source: Option<PositionSource> = None;
    if (f2 / 16) % 2 == 1 {
        if len - cur < 8 {
            return Err(CatError::SizeInvalid);
        }
        let mut f = PositionSource { height: 0, lat: 0, lon: 0 };
        f.from_bytes(
            &[
                buf[cur],
                buf[cur + 1],
                buf[cur + 2],
                buf[cur + 3],
                buf[cur + 4],
                buf[cur + 5],
                buf[cur + 6],
                buf[cur + 7],
            ],
        );
        position_source = Some(f);
        cur = cur + 8;
    }
    Ok((system_configuration_status, system_processing_mode, generic_polar_window, position_source, cur))
}

/// Read the fields announced by `f1` and `f2` at `cur0`, in FRN order.
fn parse_fields(buf: &Vec<u8>, cur0: usize, f1: u8, f2: u8) -> (r: Result<
    (Record34, usize),
    CatError,
>)
    requires
        cur0 <= buf@.len(),
    ensures
        match spec_decode_fields(buf@, cur0 as int, f1, f2) {
            Some((rec, end)) => r matches Ok(p) && p.0 == rec && p.1 as int == end,
            None => r == Err::<(Record34, usize), CatError>(CatError::SizeInvalid),
        },
{
    let head = match parse_head(buf, cur0, f1) {
        Ok(h) => h,
        Err(e) => {
            return Err(e);
        },
    };
    let tail = match parse_tail(buf, head.5, f1, f2) {
        Ok(t) => t,
        Err(e) => {
            return Err(e);
        },
    };
    let rec = Record34 {
        data_source_id: head.0,
        message_type: head.1,
        time_of_day: head.2,
        sector_number: head.3,
        antenna_rotation: head.4,
        system_configuration_status: tail.0,
        system_processing_mode: tail.1,
        generic_polar_window: tail.2,
        position_source: tail.3,
    };
    Ok((rec, tail.4))
}

impl Record34 {
    /// Encode record to byte stream: always succeeds and yields the
    /// record's canonical wire form.
    pub fn encode(&self) -> (r: Result<Bytes, CatError>)
        ensures
            r matches Ok(b) && bytes_seq(b) == record_wire(*self),
    {
        Ok(bytes_from_vec(self.encode_to_vec()))
    }

    /// Decode byte stream to record, returning the octet count consumed so
    /// that a caller can locate the next record; `SizeInvalid` on malformed
    /// input, in which case the record is left unchanged.
    pub fn decode(&mut self, bytes: &Bytes) -> (r: Result<usize, CatError>)
        ensures
            match spec_decode_record(bytes_seq(*bytes), 0) {
                Some((rec, used)) => r matches Ok(u) && u as int == used && *final(self) == rec,
                None => r == Err::<usize, CatError>(CatError::SizeInvalid) && *final(self)
                    == *old(self),
            },
    {
        let buf = bytes_to_vec(bytes);
        self.decode_from_vec(&buf, 0)
    }
}

impl Record34 {
    /// Read one record beginning at `start`: the FSPEC chain first, then
    /// each announced field at the running cursor. Returns the octet count
    /// consumed, or `SizeInvalid` on malformed input, in which case the
    /// record is left unchanged.
    pub fn decode_from_vec(&mut self, buf: &Vec<u8>, start: usize) -> (r: Result<usize, CatError>)
        ensures
            match spec_decode_record(buf@, start as int) {
                Some((rec, used)) => r matches Ok(u) && u as int == used && *final(self) == rec,
                None => r == Err::<usize, CatError>(CatError::SizeInvalid) && *final(self)
                    == *old(self),
            },
    {
        proof {
            reveal(spec_decode_record);
        }
        let len = buf.len();
        if start >= len {
            return Err(CatError::SizeInvalid);
        }
        let f1 = buf[start];
        let mut cur = start + 1;
        let mut f2: u8 = 0;
        if f1 % 2 == 1 {
            if cur >= len {
                return Err(CatError::SizeInvalid);
            }
            f2 = buf[cur];
            cur = cur + 1;
            if f2 % 2 == 1 || (f2 / 2) % 2 == 1 || (f2 / 4) % 2 == 1 || (f2 / 8) % 2 == 1 || (f2
                / 32) % 2 == 1 || (f2 / 128) % 2 == 1 {
                return Err(CatError::SizeInvalid);
            }
        }
        match parse_fields(buf, cur, f1, f2) {
            Ok(p) => {
                *self = p.0;
                Ok(p.1 - start)
            },
            Err(e) => {
                Err(e)
            },
        }
    }
}

/// FSPEC and field consistency: in every record that decodes, a field is
/// present exactly when its Field Reference Number's bit is set in the
/// FSPEC chain the record was read from.
pub proof fn lemma_fspec_field_consistency(b: Seq<u8>, start: int)
    ensures
        match spec_decode_record(b, start) {
            Some((rec, used)) => {
                &&& (rec.data_source_id is Some) == byte_bit(b[start], 1)
                &&& (rec.message_type is Some) == byte_bit(b[start], 2)
                &&& (rec.time_of_day is Some) == byte_bit(b[start], 3)
                &&& (rec.sector_number is Some) == byte_bit(b[start], 4)
                &&& (rec.antenna_rotation is Some) == byte_bit(b[start], 5)
                &&& (rec.system_configuration_status is Some) == byte_bit(b[start], 6)
                &&& (rec.system_processing_mode is Some) == byte_bit(b[start], 7)
                &&& (rec.generic_polar_window is Some) == (byte_bit(b[start], 8) && byte_bit(
                    b[start + 1],
                    2,
                ))
                &&& (rec.position_source is Some) == (byte_bit(b[start], 8) && byte_bit(
                    b[start + 1],
                    4,
                ))
            },
            None => true,
        },
{
    reveal(spec_decode_record);
}

/// Field extension termination: a chain whose octets all carry the FX bit
/// up to the end of the buffer never terminates, so decoding it must fail
/// rather than walk on.
pub proof fn lemma_unterminated_chain(b: Seq<u8>, start: int)
    requires
        0 <= start,
        forall|i: int| start <= i < b.len() ==> byte_bit(b[i], 8),
    ensures
        spec_chain_len(b, start) is None,
    decreases b.len() - start,
{
    if start < b.len() {
        lemma_unterminated_chain(b, start + 1);
    }
}

/// Calculate record byte length/// Calculate record byte length: the octet count of the record's canonical
/// wire form.
#[verifier::rlimit(100)]
pub fn calculate_record_length(record: &Record34) -> (r: usize)
    ensures
        r as int == record_wire(*record).len(),
{
    proof {
        lemma_record_wire_len(*record);
    }
    let mut n: usize = 1;
    if record.generic_polar_window.is_some() || record.position_source.is_some() {
        n = n + 1;
    }
    if record.data_source_id.is_some() {
        n = n + 2;
    }
    if record.message_type.is_some() {
        n = n + 1;
    }
    if record.time_of_day.is_some() {
        n = n + 3;
    }
    if record.sector_number.is_some() {
        n = n + 1;
    }
    if record.antenna_rotation.is_some() {
        n = n + 2;
    }
    match &record.system_configuration_status {
        Some(s) => {
            n = n + s.wire_length();
        },
        None => {},
    }
    match &record.system_processing_mode {
        Some(s) => {
            n = n + s.wire_length();
        },
        None => {},
    }
    if record.generic_polar_window.is_some() {
        n = n + 8;
    }
    if record.position_source.is_some() {
        n = n + 8;
    }
    n
}


} // verus!