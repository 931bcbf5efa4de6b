//! Condition codes and the functions that define them.
//!
//! Flags are recomputed from a result value, never tracked incrementally:
//! Zero when the result is zero, Sign when bit 7 of the result is set,
//! Parity when the number of set bits in the result is even. Carry is set
//! by the operations that define it; Auxiliary-carry is kept but never
//! computed by any operation (a documented simplification).

use vstd::prelude::*;

verus! {

/// The five condition codes, each held as a byte that is 0 or 1, plus a
/// padding byte that no operation ever touches.
#[derive(Clone, Copy, Debug, PartialEq, Eq, Structural)]
pub struct ConditionCodes {
    pub z: u8,
    pub s: u8,
    pub p: u8,
    pub cy: u8,
    pub ac: u8,
    pub pad: u8,
}

/// The number of set bits among the eight bits of `v`.
pub open spec fn popcount8(v: u8) -> int {
    ((v >> 0) & 1) + ((v >> 1) & 1) + ((v >> 2) & 1) + ((v >> 3) & 1) + ((v >> 4) & 1) + ((v >> 5)
        & 1) + ((v >> 6) & 1) + ((v >> 7) & 1)
}

/// The parity flag of a result byte: 1 exactly when the number of set bits
/// is even.
pub open spec fn spec_parity(v: u8) -> u8 {
    if popcount8(v) % 2 == 0 {
        1
    } else {
        0
    }
}

/// Zero, Sign and Parity recomputed from a result byte; Carry and
/// Auxiliary-carry persist unchanged.
pub open spec fn spec_zsp(f: ConditionCodes, res: u8) -> ConditionCodes {
    ConditionCodes {
        z: if res == 0 {
            1
        } else {
            0
        },
        s: if (res & 0x80) == 0x80 {
            1
        } else {
            0
        },
        p: spec_parity(res),
        ..f
    }
}

/// The flags after a logical operation whose result is `res`: Carry and
/// Auxiliary-carry cleared unconditionally, Zero, Sign and Parity from the
/// result.
pub open spec fn spec_logic_flags(f: ConditionCodes, res: u8) -> ConditionCodes {
    ConditionCodes { cy: 0, ac: 0, ..spec_zsp(f, res) }
}

/// The processor status word: the flags packed into one byte, a fixed
/// serialization format with bit 0 = Zero, bit 1 = Sign, bit 2 = Parity,
/// bit 3 = Carry, bit 4 = Auxiliary-carry.
pub open spec fn spec_pack_psw(f: ConditionCodes) -> u8 {
    f.z | (f.s << 1) | (f.p << 2) | (f.cy << 3) | (f.ac << 4)
}

/// The flags read back from a packed processor status word, by the same
/// bit positions that `spec_pack_psw` writes; padding persists.
pub open spec fn spec_unpack_psw(f: ConditionCodes, psw: u8) -> ConditionCodes {
    ConditionCodes {
        z: if psw & 0x01 == 0x01 {
            1
        } else {
            0
        },
        s: if psw & 0x02 == 0x02 {
            1
        } else {
            0
        },
        p: if psw & 0x04 == 0x04 {
            1
        } else {
            0
        },
        cy: if psw & 0x08 == 0x08 {
            1
        } else {
            0
        },
        ac: if psw & 0x10 == 0x10 {
            1
        } else {
            0
        },
        ..f
    }
}

} // verus!
