//! Instruction decoding: which format an opcode belongs to.

use vstd::prelude::*;

verus! {

#[derive(Debug, Clone, Copy, PartialEq, Eq, Structural)]
pub enum DecodedInstruction {
    Thumb(DecodedThumb),
    Arm(DecodedArm),
}

#[derive(Debug, Clone, Copy, PartialEq, Eq, Structural)]
pub enum DecodedThumb {
    MoveShifted,
    AddSub,
    AluImmediate,
    AluOperation,
    HiRegister,
    PcRelativeLoad,
    MemRegOffset,
    MemSignExtended,
    MemImmOffset,
    MemHalfword,
    MemSpRelative,
    LoadAddress,
    OffsetSp,
    PushPop,
    MemMultiple,
    CondBranch,
    Swi,
    UncondBranch,
    LongBranch,
}

/// The THUMB format of an opcode, read off its top bits; `None` for the
/// patterns that no format uses.
pub open spec fn spec_decode_thumb(opcode: u16) -> Option<DecodedThumb> {
    let top8 = opcode >> 8u16;
    let top7 = opcode >> 9u16;
    let top6 = opcode >> 10u16;
    let top5 = opcode >> 11u16;
    let top4 = opcode >> 12u16;
    let top3 = opcode >> 13u16;
    if top8 == 0b1101_1111 {
        Some(DecodedThumb::Swi)
    } else if top8 == 0b1011_0000 {
        Some(DecodedThumb::OffsetSp)
    } else if top7 & 0b1111_001 == 0b0101_000 {
        Some(DecodedThumb::MemRegOffset)
    } else if top7 & 0b1111_001 == 0b0101_001 {
        Some(DecodedThumb::MemSignExtended)
    } else if top7 & 0b1111_001 == 0b1011_000 {
        Some(DecodedThumb::PushPop)
    } else if top6 == 0b010000 {
        Some(DecodedThumb::AluOperation)
    } else if top6 == 0b010001 {
        Some(DecodedThumb::HiRegister)
    } else if top5 == 0b00011 {
        Some(DecodedThumb::AddSub)
    } else if top5 == 0b01001 {
        Some(DecodedThumb::PcRelativeLoad)
    } else if top5 == 0b11100 {
        Some(DecodedThumb::UncondBranch)
    } else if top4 == 0b1000 {
        Some(DecodedThumb::MemHalfword)
    } else if top4 == 0b1001 {
        Some(DecodedThumb::MemSpRelative)
    } else if top4 == 0b1010 {
        Some(DecodedThumb::LoadAddress)
    } else if top4 == 0b1100 {
        Some(DecodedThumb::MemMultiple)
    } else if top4 == 0b1101 {
        Some(DecodedThumb::CondBranch)
    } else if top4 == 0b1111 {
        Some(DecodedThumb::LongBranch)
    } else if top3 == 0b000 {
        Some(DecodedThumb::MoveShifted)
    } else if top3 == 0b001 {
        Some(DecodedThumb::AluImmediate)
    } else if top3 == 0b011 {
        Some(DecodedThumb::MemImmOffset)
    } else {
        None
    }
}

/// The top bits of a THUMB opcode, taken a byte at a time and shifted down
/// one place after another.
proof fn lemma_thumb_identifiers(opcode: u16)
    by (bit_vector)
    ensures
        ((opcode >> 8u16) as u8) as u16 == opcode >> 8u16,
        (((opcode >> 8u16) as u8) >> 1u8) as u16 == opcode >> 9u16,
        ((((opcode >> 8u16) as u8) >> 1u8) & 0b1111_001u8) as u16 == (opcode >> 9u16) & 0b1111_001,
        ((((opcode >> 8u16) as u8) >> 1u8) >> 1u8) as u16 == opcode >> 10u16,
        (((((opcode >> 8u16) as u8) >> 1u8) >> 1u8) >> 1u8) as u16 == opcode >> 11u16,
        ((((((opcode >> 8u16) as u8) >> 1u8) >> 1u8) >> 1u8) >> 1u8) as u16 == opcode >> 12u16,
        (((((((opcode >> 8u16) as u8) >> 1u8) >> 1u8) >> 1u8) >> 1u8) >> 1u8) as u16 == opcode >> 13u16,
{
}

pub fn decode_thumb(opcode: u16) -> (r: DecodedThumb)
    requires
        spec_decode_thumb(opcode) is Some,
    ensures
        spec_decode_thumb(opcode) == Some(r),
{
    let mut identifier = (opcode >> 8) as u8;
    proof { lemma_thumb_identifiers(opcode); }

    // these two opcodes require the first byte so easy to get out of the way
    if identifier == 0b1101_1111 {
        return DecodedThumb::Swi;
    }
    if identifier == 0b1011_0000 {
        return DecodedThumb::OffsetSp;
    }

    // these opcodes have a 7 bit identifier
    identifier >>= 1;
    let masked = identifier & 0b1111_001;
    if masked == 0b0101_000 {
        return DecodedThumb::MemRegOffset;
    }
    if masked == 0b0101_001 {
        return DecodedThumb::MemSignExtended;
    }
    if masked == 0b1011_000 {
        return DecodedThumb::PushPop;
    }

    identifier >>= 1;
    if identifier == 0b010000 {
        return DecodedThumb::AluOperation;
    }
    if identifier == 0b010001 {
        return DecodedThumb::HiRegister;
    }

    identifier >>= 1;
    if identifier == 0b00011 {
        return DecodedThumb::AddSub;
    }
    if identifier == 0b01001 {
        return DecodedThumb::PcRelativeLoad;
    }
    if identifier == 0b11100 {
        return DecodedThumb::UncondBranch;
    }

    identifier >>= 1;
    if identifier == 0b1000 {
        return DecodedThumb::MemHalfword;
    }
    if identifier == 0b1001 {
        return DecodedThumb::MemSpRelative;
    }
    if identifier == 0b1010 {
        return DecodedThumb::LoadAddress;
    }
    if identifier == 0b1100 {
        return DecodedThumb::MemMultiple;
    }
    if identifier == 0b1101 {
        return DecodedThumb::CondBranch;
    }
    if identifier == 0b1111 {
        return DecodedThumb::LongBranch;
    }

    identifier >>= 1;
    if identifier == 0b000 {
        return DecodedThumb::MoveShifted;
    }
    if identifier == 0b001 {
        return DecodedThumb::AluImmediate;
    }
    DecodedThumb::MemImmOffset
}

pub const BRANCH_EXCHANGE_MASK: u32 = 0b0000_1111_1111_1111_1111_1111_1111_0000;
pub const BRANCH_EXCHANGE_VALUE: u32 = 0b0000_0001_0010_1111_1111_1111_0001_0000;
pub const UNDEFINED_MASK: u32 = 0b0000_1110_0000_0000_0000_0000_0001_0000;
pub const UNDEFINED_VALUE: u32 = 0b0000_0110_0000_0000_0000_0000_0001_0000;
pub const REMOVE_CONDITION_MASK: u32 = 0b0000_1111_1111_1111_1111_1111_1111_1111;

#[derive(Debug, Clone, Copy, PartialEq, Eq, Structural)]
pub enum DecodedArm {
    DataProcessing,
    Multiply,
    MultiplyLong,
    SingleDataSwap,
    BranchExchange,
    HalfwordTransferReg,
    HalfwordTransferImm,
    SingleDataTransfer,
    Undefined,
    BlockDataTransfer,
    Branch,
    CoprocDataTransfer,
    CoprocDataOperation,
    CoprocRegTransfer,
    Swi,
}

/// The ARM format of an opcode (its condition field ignored); `None` for the
/// multiply-like pattern with bits 24 and 23 both set, which no format uses.
pub open spec fn spec_decode_arm(conditioned_opcode: u32) -> Option<DecodedArm> {
    let opcode = conditioned_opcode & REMOVE_CONDITION_MASK;
    if opcode >> 25u32 == 0b001 {
        Some(DecodedArm::DataProcessing)
    } else if opcode & BRANCH_EXCHANGE_MASK == BRANCH_EXCHANGE_VALUE {
        Some(DecodedArm::BranchExchange)
    } else if opcode & UNDEFINED_MASK == UNDEFINED_VALUE {
        Some(DecodedArm::Undefined)
    } else if opcode >> 26u32 == 0b01 {
        Some(DecodedArm::SingleDataTransfer)
    } else if opcode >> 25u32 == 0b100 {
        Some(DecodedArm::BlockDataTransfer)
    } else if opcode >> 25u32 == 0b101 {
        Some(DecodedArm::Branch)
    } else if opcode >> 25u32 == 0b110 {
        Some(DecodedArm::CoprocDataTransfer)
    } else if opcode >> 24u32 == 0b1111 {
        Some(DecodedArm::Swi)
    } else if opcode >> 24u32 == 0b1110 {
        if opcode & 0b1000 != 0 {
            Some(DecodedArm::CoprocRegTransfer)
        } else {
            Some(DecodedArm::CoprocDataOperation)
        }
    } else if (opcode >> 4u32) & 0xF == 0b1001 {
        let kind = (opcode >> 23u32) & 0b11;
        if kind == 0b00 {
            Some(DecodedArm::Multiply)
        } else if kind == 0b01 {
            Some(DecodedArm::MultiplyLong)
        } else if kind == 0b10 {
            Some(DecodedArm::SingleDataSwap)
        } else {
            None
        }
    } else if (opcode >> 25u32) & 1 == 1 {
        Some(DecodedArm::DataProcessing)
    } else if (opcode >> 4u32) & 0b1001 == 0b1001 {
        if (opcode >> 22u32) & 1 == 1 {
            Some(DecodedArm::HalfwordTransferImm)
        } else {
            Some(DecodedArm::HalfwordTransferReg)
        }
    } else {
        Some(DecodedArm::DataProcessing)
    }
}

pub fn decode_arm(conditioned_opcode: u32) -> (r: DecodedArm)
    requires
        spec_decode_arm(conditioned_opcode) is Some,
    ensures
        spec_decode_arm(conditioned_opcode) == Some(r),
{
    let opcode = conditioned_opcode & REMOVE_CONDITION_MASK;

    // this is just a preliminary check
    if (opcode >> 25) == 0b001 {
        return DecodedArm::DataProcessing;
    }
    // these two just work differently
    if opcode & BRANCH_EXCHANGE_MASK == BRANCH_EXCHANGE_VALUE {
        return DecodedArm::BranchExchange;
    } else if opcode & UNDEFINED_MASK == UNDEFINED_VALUE {
        return DecodedArm::Undefined;
    } else if opcode >> 26 == 0b01 {
        return DecodedArm::SingleDataTransfer;
    }

    let identifier = opcode >> 25;
    if identifier == 0b100 {
        return DecodedArm::BlockDataTransfer;
    } else if identifier == 0b101 {
        return DecodedArm::Branch;
    } else if identifier == 0b110 {
        return DecodedArm::CoprocDataTransfer;
    }

    let identifier = opcode >> 24;
    if identifier == 0b1111 {
        return DecodedArm::Swi;
    } else if identifier == 0b1110 {
        if opcode & 0b1000 != 0 {
            return DecodedArm::CoprocRegTransfer;
        } else {
            return DecodedArm::CoprocDataOperation;
        }
    }

    if (opcode >> 4) & 0xF == 0b1001 {
        let kind = (opcode >> 23) & 0b11;
        if kind == 0b00 {
            return DecodedArm::Multiply;
        } else if kind == 0b01 {
            return DecodedArm::MultiplyLong;
        } else {
            return DecodedArm::SingleDataSwap;
        }
    }

    // this is so incredibly dumb
    if (opcode >> 25) & 1 == 1 {
        return DecodedArm::DataProcessing;
    }

    let identifier = opcode >> 4;
    if identifier & 0b1001 == 0b1001 {
        if opcode >> 22 & 1 == 1 {
            return DecodedArm::HalfwordTransferImm;
        } else {
            return DecodedArm::HalfwordTransferReg;
        }
    }

    return DecodedArm::DataProcessing;
}

/// Whether an opcode has a THUMB format: every pattern but `1011` with bit 9
/// set (beside the stack adjustment and push/pop) and `11101`.
pub fn thumb_defined(opcode: u16) -> (r: bool)
    ensures
        r == spec_decode_thumb(opcode) is Some,
{
    let undefined = (opcode >> 12 == 0b1011 && (opcode >> 9) & 1 == 1) || opcode >> 11 == 0b11101;
    assert(undefined <==> !(
        opcode >> 8u16 == 0b1101_1111 || opcode >> 8u16 == 0b1011_0000
        || (opcode >> 9u16) & 0b1111_001 == 0b0101_000 || (opcode >> 9u16) & 0b1111_001 == 0b0101_001
        || (opcode >> 9u16) & 0b1111_001 == 0b1011_000
        || opcode >> 10u16 == 0b010000 || opcode >> 10u16 == 0b010001
        || opcode >> 11u16 == 0b00011 || opcode >> 11u16 == 0b01001 || opcode >> 11u16 == 0b11100
        || opcode >> 12u16 == 0b1000 || opcode >> 12u16 == 0b1001 || opcode >> 12u16 == 0b1010
        || opcode >> 12u16 == 0b1100 || opcode >> 12u16 == 0b1101 || opcode >> 12u16 == 0b1111
        || opcode >> 13u16 == 0b000 || opcode >> 13u16 == 0b001 || opcode >> 13u16 == 0b011
    )) by (bit_vector)
        requires undefined == ((opcode >> 12u16 == 0b1011 && (opcode >> 9u16) & 1 == 1) || opcode >> 11u16 == 0b11101);
    !undefined
}

/// Whether an opcode has an ARM format that this processor runs: every
/// format but the coprocessor ones, and not the multiply-like pattern with
/// bits 24 and 23 both set.
pub fn arm_runs(conditioned_opcode: u32) -> (r: bool)
    ensures
        r == match spec_decode_arm(conditioned_opcode) {
            Some(DecodedArm::CoprocDataOperation) => false,
            Some(DecodedArm::CoprocDataTransfer) => false,
            Some(DecodedArm::CoprocRegTransfer) => false,
            Some(_) => true,
            None => false,
        },
{
    let opcode = conditioned_opcode & REMOVE_CONDITION_MASK;
    if opcode >> 25 == 0b001 || opcode & BRANCH_EXCHANGE_MASK == BRANCH_EXCHANGE_VALUE
        || opcode & UNDEFINED_MASK == UNDEFINED_VALUE || opcode >> 26 == 0b01
        || opcode >> 25 == 0b100 || opcode >> 25 == 0b101 {
        return true;
    }
    if opcode >> 25 == 0b110 {
        return false;
    }
    if opcode >> 24 == 0b1111 {
        return true;
    }
    if opcode >> 24 == 0b1110 {
        return false;
    }
    if (opcode >> 4) & 0xF == 0b1001 {
        proof { crate::bits::lemma_and_bound_u32(opcode >> 23u32, 0b11); }
        return (opcode >> 23) & 0b11 != 0b11;
    }
    true
}

} // verus!
