use vstd::prelude::*;

verus! {

/// An 8-bit operand of a data move: one of the seven byte registers, or `M`,
/// the memory byte addressed by the H:L register pair.
#[derive(Debug, Clone, Copy, PartialEq, Eq, Structural)]
pub enum Operand {
    B,
    C,
    D,
    E,
    H,
    L,
    M,
    A,
}

/// The 16-bit destination of an immediate load.
#[derive(Debug, Clone, Copy, PartialEq, Eq, Structural)]
pub enum RegisterPair {
    BC,
    DE,
    HL,
    SP,
}

/// The three-bit field that selects `o` in an instruction encoding.
pub open spec fn operand_code(o: Operand) -> u8 {
    match o {
        Operand::B => 0,
        Operand::C => 1,
        Operand::D => 2,
        Operand::E => 3,
        Operand::H => 4,
        Operand::L => 5,
        Operand::M => 6,
        Operand::A => 7,
    }
}

/// The operand selected by the three-bit field `code`.
pub open spec fn operand_of_code(code: u8) -> Operand {
    if code == 0 {
        Operand::B
    } else if code == 1 {
        Operand::C
    } else if code == 2 {
        Operand::D
    } else if code == 3 {
        Operand::E
    } else if code == 4 {
        Operand::H
    } else if code == 5 {
        Operand::L
    } else if code == 6 {
        Operand::M
    } else {
        Operand::A
    }
}

/// The opcode of `MOV dst, src`: the block 0x40..=0x7F, eight opcodes per
/// destination, the source in the low three bits.
pub open spec fn mov_opcode(dst: Operand, src: Operand) -> u8 {
    (0x40 + 8 * operand_code(dst) + operand_code(src)) as u8
}

/// Opcode 0x76 would read `MOV M, M`; it is HALT and no data move.
pub open spec fn is_halt(opcode: u8) -> bool {
    opcode == 0x76
}

/// What a data-move opcode moves: `Some((destination, source))`, or `None`
/// for an opcode outside the data-move family.
pub open spec fn mov_operands(opcode: u8) -> Option<(Operand, Operand)> {
    if 0x40 <= opcode <= 0x7F && !is_halt(opcode) {
        Some((operand_of_code(((opcode - 0x40) / 8) as u8), operand_of_code(opcode % 8)))
    } else {
        None
    }
}

/// What a 16-bit immediate-load opcode loads, or `None` for an opcode outside
/// that family.
pub open spec fn lxi_target(opcode: u8) -> Option<RegisterPair> {
    if opcode == 0x01 {
        Some(RegisterPair::BC)
    } else if opcode == 0x11 {
        Some(RegisterPair::DE)
    } else if opcode == 0x21 {
        Some(RegisterPair::HL)
    } else if opcode == 0x31 {
        Some(RegisterPair::SP)
    } else {
        None
    }
}

fn operand_from_code(code: u8) -> (r: Operand)
    requires
        code < 8,
    ensures
        r == operand_of_code(code),
{
    match code {
        0 => Operand::B,
        1 => Operand::C,
        2 => Operand::D,
        3 => Operand::E,
        4 => Operand::H,
        5 => Operand::L,
        6 => Operand::M,
        _ => Operand::A,
    }
}

/// Decodes a data-move opcode into its destination and source.
pub fn decode_mov(opcode: u8) -> (r: Option<(Operand, Operand)>)
    ensures
        r == mov_operands(opcode),
{
    if opcode < 0x40 || opcode > 0x7F || opcode == 0x76 {
        None
    } else {
        let dst = operand_from_code((opcode - 0x40) / 8);
        let src = operand_from_code(opcode % 8);
        Some((dst, src))
    }
}

/// Decodes a 16-bit immediate-load opcode into the pair it loads.
pub fn decode_lxi(opcode: u8) -> (r: Option<RegisterPair>)
    ensures
        r == lxi_target(opcode),
{
    match opcode {
        0x01 => Some(RegisterPair::BC),
        0x11 => Some(RegisterPair::DE),
        0x21 => Some(RegisterPair::HL),
        0x31 => Some(RegisterPair::SP),
        _ => None,
    }
}

/// Decoding the opcode of `MOV dst, src` gives back `dst` and `src`, for
/// every pair of operands but `M, M`.
pub proof fn lemma_decode_mov_opcode(dst: Operand, src: Operand)
    requires
        !(dst == Operand::M && src == Operand::M),
    ensures
        mov_operands(mov_opcode(dst, src)) == Some((dst, src)),
{
}

} // verus!
