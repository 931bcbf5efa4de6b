//! The fatal fault kinds of the emulation core.

use vstd::prelude::*;
use vstd::string::StringExecFns;

use crate::hex::format_usize;
use crate::hex::spec_hex2;
use crate::hex::spec_hex4;

verus! {

/// A fatal, non-recoverable fault raised by the execution engine.
///
/// Either kind leaves the machine exactly as it was before the step that
/// raised it: no instruction is ever partially applied.
#[derive(Clone, Copy, Debug, PartialEq, Eq, Structural)]
pub enum Fault {
    /// The opcode byte fetched at the program counter has no handler in the
    /// dispatch table; carries the offending byte.
    UnimplementedOpcode(u8),
    /// A read or write outside the capacity of memory; carries the offending
    /// address.
    OutOfRangeMemoryAccess(usize),
}

/// The report line for a fault: the offending opcode byte or address in
/// lowercase hexadecimal.
pub open spec fn spec_describe(f: Fault) -> Seq<char> {
    match f {
        Fault::UnimplementedOpcode(op) => "Reached unimplemented opcode: 0x"@ + spec_hex2(op),
        Fault::OutOfRangeMemoryAccess(addr) => "Out-of-range memory access: 0x"@ + spec_hex4(
            addr as int,
        ),
    }
}

impl Fault {
    /// Reports the fault, naming the offending byte value or address.
    pub fn describe(&self) -> (r: String)
        ensures
            r@ == spec_describe(*self),
    {
        match self {
            Fault::UnimplementedOpcode(op) => {
                let mut out = "Reached unimplemented opcode: 0x".to_owned();
                out.append(crate::hex::format(*op).as_str());
                out
            },
            Fault::OutOfRangeMemoryAccess(addr) => {
                let mut out = "Out-of-range memory access: 0x".to_owned();
                out.append(format_usize(*addr).as_str());
                out
            },
        }
    }
}

} // verus!
