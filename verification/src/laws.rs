//! What holds across several requests: a value written is the value read,
//! a drained log stays drained, a running machine answers no one.

use vstd::prelude::*;
use crate::controller::{host_read, host_write, SimAccessError, SimController};
use crate::contents::mem_line_text;
use crate::diag::opt_text;
use crate::host::{
    after_reads, modified_addrs, refusal, reg_read, reg_write, with_changes, HostError, MemChange,
};
use crate::machine::{
    psr_written, Flags, MachineInit, MachineState, Port, IO_START, PSR_ADDR, USER_START,
};
use crate::regs::RegName;
use crate::timer::TimerState;

verus! {

/// A word written below the device registers is the word read back: if a
/// write of `value` to `addr` takes the machine from `s0` to `s1`, a read of
/// `addr` in `s1` returns `value` and leaves the machine as it is.
///
/// Device registers are left out. A word written there goes to the device,
/// and a read shows what the device says.
pub proof fn mem_write_then_read(
    s0: MachineState,
    s1: MachineState,
    s2: MachineState,
    addr: u16,
    value: u16,
    word: u16,
)
    requires
        addr < IO_START,
        host_write(s0, s1, addr, value),
        host_read(s1, s2, addr, word),
    ensures
        word == value,
        s2 == s1,
{
}

/// A value written to a general-purpose register or to the program counter
/// is the value read back.
pub proof fn reg_write_then_read(s0: MachineState, s1: MachineState, reg: RegName, value: u16)
    requires
        reg.wf(),
        reg.is_plain(),
        reg_write(s0, s1, reg, value),
    ensures
        reg_read(s1, reg) == value,
{
}

/// A write to one plain register leaves the others as they are.
pub proof fn reg_write_keeps_others(
    s0: MachineState,
    s1: MachineState,
    reg: RegName,
    other: RegName,
    value: u16,
)
    requires
        reg.wf(),
        other.wf(),
        reg.is_plain(),
        other.is_plain(),
        reg != other,
        reg_write(s0, s1, reg, value),
    ensures
        reg_read(s1, other) == reg_read(s0, other),
{
}

/// A value written to the status register is read back as the register
/// keeps it, by its name and at its address: the mode and priority bits of
/// the value, with exactly one condition code.
pub proof fn psr_write_then_read(
    s0: MachineState,
    s1: MachineState,
    s2: MachineState,
    value: u16,
    word: u16,
)
    requires
        s0.port(PSR_ADDR) == Some(Port::Psr),
        reg_write(s0, s1, RegName::Psr, value),
        host_read(s1, s2, PSR_ADDR, word),
    ensures
        reg_read(s1, RegName::Psr) == psr_written(value),
        word == psr_written(value),
        reg_read(s2, RegName::Psr) == psr_written(value),
{
}

/// A reset ends at the start of user space with the status register
/// cleared: supervisor mode, priority 0 and no condition code. Every
/// register is zero, and after a reset with a known fill every word of user
/// memory holds the fill value.
pub proof fn reset_clears_the_machine(m: MachineState, flags: Flags, breakpoints: Set<u16>)
    requires
        m.fresh(flags, breakpoints),
    ensures
        m.pc == USER_START,
        m.psr == 0,
        m.psr < 0x8000,
        forall|i: int| 0 <= i < 8 ==> m.regs[i] == 0,
        m.frames == 0,
        m.breakpoints == breakpoints,
        m.flags == flags,
        flags.machine_init matches MachineInit::Known(v) ==> forall|a: int|
            USER_START <= a < IO_START ==> m.mem[a] == v,
{
}

/// A breakpoint that has been set is there: setting it again is not new,
/// and removing it finds it. Where it was new, removing it leaves the
/// breakpoints as they were.
pub proof fn breakpoint_set_then_removed(breakpoints: Set<u16>, addr: u16)
    ensures
        breakpoints.insert(addr).contains(addr),
        !breakpoints.contains(addr) ==> breakpoints.insert(addr).remove(addr) == breakpoints,
        !breakpoints.remove(addr).contains(addr),
{
    if !breakpoints.contains(addr) {
        assert(breakpoints.insert(addr).remove(addr) =~= breakpoints);
    }
}

/// Once the changes of a run have been taken, there are none left: taking
/// them again at once yields nothing.
pub proof fn changes_are_taken_once(s0: MachineState, s1: MachineState)
    requires
        after_reads(MachineState { accesses: Seq::empty(), ..s0 }, s1),
    ensures
        modified_addrs(s1.accesses) == Seq::<u16>::empty(),
{
}

/// While a run is under way, every request that needs the simulator is
/// refused as not available.
pub proof fn running_refuses(ctl: SimController)
    requires
        ctl.running(),
    ensures
        refusal(ctl) == Some(HostError::Access(SimAccessError::NotAvailable)),
{
}

/// A timer whose range is the single number `n` has `n` instructions to go
/// after a reset.
pub proof fn exact_timer_counts_from_n(before: TimerState, after: TimerState, n: u32)
    requires
        before.range_start == n,
        before.range_end == n,
        before.end_inclusive,
        before.in_range(after.remaining),
    ensures
        before.range_nonempty(),
        after.remaining == n,
{
}

/// Bringing the annotations up to date touches only the addresses that
/// changed: every other address shows what it showed before.
pub proof fn changes_leave_other_lines(
    lines: Map<u16, Seq<char>>,
    changes: Seq<MemChange>,
    disassembly: Seq<Option<String>>,
    addr: u16,
)
    requires
        forall|i: int| 0 <= i < changes.len() ==> changes[i].addr != addr,
    ensures
        with_changes(lines, changes, disassembly).contains_key(addr) == lines.contains_key(addr),
        lines.contains_key(addr) ==> with_changes(lines, changes, disassembly)[addr] == lines[addr],
    decreases changes.len(),
{
    if changes.len() > 0 {
        let rest = changes.drop_last();
        assert forall|i: int| 0 <= i < rest.len() implies rest[i].addr != addr by {
            assert(rest[i] == changes[i]);
        }
        changes_leave_other_lines(lines, rest, disassembly, addr);
        assert(changes[changes.len() - 1].addr != addr);
    }
}

/// After the annotations have been brought up to date, an address that
/// changed shows its word as a character, else the word's disassembly
/// behind a star, else nothing. Each address is taken to change once, as
/// it does in the log of a run.
pub proof fn changed_line_shows_its_word(
    lines: Map<u16, Seq<char>>,
    changes: Seq<MemChange>,
    disassembly: Seq<Option<String>>,
    k: int,
)
    requires
        0 <= k < changes.len(),
        forall|i: int, j: int| 0 <= i < j < changes.len() ==> changes[i].addr != changes[j].addr,
    ensures
        with_changes(lines, changes, disassembly).contains_key(changes[k].addr),
        with_changes(lines, changes, disassembly)[changes[k].addr] == mem_line_text(
            changes[k].value,
            if k < disassembly.len() {
                opt_text(disassembly[k])
            } else {
                None
            },
        ),
    decreases changes.len(),
{
    let last = changes.len() - 1;
    if k < last {
        let rest = changes.drop_last();
        assert forall|i: int, j: int| 0 <= i < j < rest.len() implies rest[i].addr
            != rest[j].addr by {
            assert(rest[i] == changes[i] && rest[j] == changes[j]);
        }
        changed_line_shows_its_word(lines, rest, disassembly, k);
        assert(rest[k] == changes[k]);
        assert(changes[k].addr != changes[last].addr);
    }
}

} // verus!
