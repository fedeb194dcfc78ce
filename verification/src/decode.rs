//! Classification of a raw opcode byte into its fixed bit fields.

use vstd::prelude::*;

verus! {

/// The three sub-fields of the `aaabbbcc` opcode layout: `group` is the low
/// two bits and selects the instruction family, `addr_sel` is bits 2 to 4 and
/// selects the addressing mode where the family uses one, and `op_class` is
/// bits 5 to 7 and selects the operation within the family.
#[derive(Clone, Copy, PartialEq, Eq, Structural, Debug)]
pub struct DecodedOpcode {
    pub group: u8,
    pub op_class: u8,
    pub addr_sel: u8,
}

/// The family bits of an opcode: its value modulo 4, that is bits 0 and 1.
pub open spec fn op_group(op: u8) -> int {
    op as int % 4
}

/// The operation bits of an opcode: bits 5 to 7.
pub open spec fn op_class(op: u8) -> int {
    op as int / 32
}

/// The addressing-mode bits of an opcode: bits 2 to 4.
pub open spec fn op_addr_sel(op: u8) -> int {
    (op as int / 4) % 8
}

/// Splits an opcode byte into its three fields. Every byte decodes; whether
/// the resulting triple names an assigned operation is the step engine's
/// question, not the decoder's.
pub fn decode(op: u8) -> (d: DecodedOpcode)
    ensures
        d.group == op_group(op),
        d.op_class == op_class(op),
        d.addr_sel == op_addr_sel(op),
        d.group < 4,
        d.op_class < 8,
        d.addr_sel < 8,
{
    DecodedOpcode { group: op % 4, op_class: op / 32, addr_sel: (op / 4) % 8 }
}

} // verus!
