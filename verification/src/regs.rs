//! The names under which the front end addresses registers.

use vstd::prelude::*;
use vstd::string::StrSliceExecFns;

verus! {

/// A register that the front end can name.
#[derive(Debug, PartialEq, Eq, Structural, Clone, Copy)]
pub enum RegName {
    /// One of R0 to R7, by its number.
    General(u8),
    /// The program counter.
    Pc,
    /// The processor status register.
    Psr,
    /// The machine control register.
    Mcr,
}

impl RegName {
    /// A general-purpose register has a number below eight.
    pub open spec fn wf(&self) -> bool {
        self matches RegName::General(n) ==> n < 8
    }

    /// Whether the register is held by the simulator itself, so that what
    /// is written to it is read back unchanged. The status and control
    /// registers are device registers and are not.
    pub open spec fn is_plain(&self) -> bool {
        self is General || self is Pc
    }
}

/// The register that a name stands for: `r0` to `r7`, `pc`, `psr` or `mcr`,
/// in lower case.
pub open spec fn reg_of_name(name: Seq<char>) -> Option<RegName> {
    if name.len() == 2 && name[0] == 'r' && '0' <= name[1] <= '7' {
        Some(RegName::General((name[1] as u32 - '0' as u32) as u8))
    } else if name =~= seq!['p', 'c'] {
        Some(RegName::Pc)
    } else if name =~= seq!['p', 's', 'r'] {
        Some(RegName::Psr)
    } else if name =~= seq!['m', 'c', 'r'] {
        Some(RegName::Mcr)
    } else {
        None
    }
}

/// Reads a register name.
pub fn parse_reg_name(name: &str) -> (r: Option<RegName>)
    ensures
        r == reg_of_name(name@),
        r matches Some(reg) ==> reg.wf(),
{
    let n = name.unicode_len();
    if n == 2 {
        let a = name.get_char(0);
        let b = name.get_char(1);
        if a == 'r' && '0' <= b && b <= '7' {
            let digit: u32 = b as u32 - '0' as u32;
            Some(RegName::General(digit as u8))
        } else if a == 'p' && b == 'c' {
            Some(RegName::Pc)
        } else {
            None
        }
    } else if n == 3 {
        let a = name.get_char(0);
        let b = name.get_char(1);
        let c = name.get_char(2);
        if a == 'p' && b == 's' && c == 'r' {
            Some(RegName::Psr)
        } else if a == 'm' && b == 'c' && c == 'r' {
            Some(RegName::Mcr)
        } else {
            None
        }
    } else {
        None
    }
}

} // verus!
