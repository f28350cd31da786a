//! What the front end asks of the machine: registers and memory by name and
//! address, breakpoints, and the settings. Every request goes through the
//! controller, and fails while the simulator is away.

use vstd::prelude::*;
use vstd::string::{StringExecFns, StringSliceAdditionalSpecFns};
use vstd::utf8::encode_utf8;
use std::collections::VecDeque;
use crate::controller::{
    host_read, host_write, mcr_is_set, reset_flags, with_fill, SimAccessError, SimController,
};
use crate::machine::{
    add_breakpoint, breakpoint_slots, drop_breakpoint, frame_count, hit_breakpoint, mcr_handle,
    pc_value, peek_mem, poke_mem, prefetch_pc, psr_value, put_pc, put_reg, reg_value,
    machine, take_accesses, Flags, MachineState, IO_START, MCR_ADDR, PSR_ADDR,
};
use crate::contents::{mem_line_text, ObjContents};
use crate::diag::{opt_text, Diagnostic};
use crate::io::InputError;
use crate::loading::{check_load, touches_reserved, LoadError};
use crate::regs::{parse_reg_name, reg_of_name, RegName};
use crate::text::{debug_quote, debug_text, hex4, push_hex4};
use crate::timer::{reset_timer, timer, TimerState};
use lc3_ensemble::sim::device::TimerDevice;
use lc3_ensemble::sim::Simulator;

verus! {

/// Why a request of the front end failed.
#[derive(Debug, PartialEq, Eq, Structural, Clone, Copy)]
pub enum HostError {
    /// The simulator cannot be reached.
    Access(SimAccessError),
    /// No register has the given name.
    UndefinedRegister,
    /// The value does not fit the number the front end expects.
    OutOfRange,
    /// The program cannot be loaded.
    Load(LoadError),
}

impl HostError {
    /// The text shown to the user. `subject` is what the request named: for
    /// an undefined register, the name as it was given.
    pub open spec fn message_text(&self, subject: Seq<char>) -> Seq<char> {
        match self {
            HostError::Access(e) => e.message_text(),
            HostError::UndefinedRegister => "undefined register "@ + debug_text(subject),
            HostError::OutOfRange => "out of range integral type conversion attempted"@,
            HostError::Load(e) => e.message_text(),
        }
    }

    /// The text shown to the user.
    pub fn message(&self, subject: &str) -> (s: String)
        ensures
            s@ == self.message_text(subject@),
    {
        match self {
            HostError::Access(e) => e.message(),
            HostError::UndefinedRegister => {
                let mut s = String::from_str("undefined register ");
                let quoted = debug_quote(subject);
                s.append(quoted.as_str());
                s
            },
            HostError::OutOfRange => String::from_str(
                "out of range integral type conversion attempted",
            ),
            HostError::Load(e) => e.message(),
        }
    }
}

/// The error for a controller that does not hold its simulator.
pub open spec fn refusal(ctl: SimController) -> Option<HostError> {
    match ctl.access_error() {
        Some(e) => Some(HostError::Access(e)),
        None => None,
    }
}

/// The word that stands for the machine control flag: bit 15 while the
/// machine runs.
pub fn mcr_word(running: bool) -> (word: u16)
    ensures
        word == if running {
            0x8000u16
        } else {
            0u16
        },
{
    if running {
        0x8000
    } else {
        0x0000
    }
}

/// What a register holds. The machine control flag is shared with a run and
/// is not part of the state, so nothing is said of it.
pub open spec fn reg_read(m: MachineState, reg: RegName) -> u16
    recommends
        !(reg is Mcr),
{
    match reg {
        RegName::General(i) => m.regs[i as int],
        RegName::Pc => m.pc,
        RegName::Psr => m.psr,
        RegName::Mcr => 0,
    }
}

/// How writing `value` to a register changes the state. A general-purpose
/// register and the program counter take the value and nothing else changes.
/// The status and control registers are written through their device
/// addresses: where the status register is mapped at its address, it takes
/// the value as [`crate::machine::psr_written`] says.
pub open spec fn reg_write(
    before: MachineState,
    after: MachineState,
    reg: RegName,
    value: u16,
) -> bool {
    &&& before.wf()
    &&& after.wf()
    &&& match reg {
        RegName::General(i) => after == (MachineState {
            regs: before.regs.update(i as int, value),
            ..before
        }),
        RegName::Pc => after == (MachineState { pc: value, ..before }),
        RegName::Psr => host_write(before, after, PSR_ADDR, value),
        RegName::Mcr => host_write(before, after, MCR_ADDR, value),
    }
}

/// Reads the register with the given name.
pub fn get_reg_value(ctl: &SimController, name: &str) -> (r: Result<u16, HostError>)
    ensures
        refusal(*ctl) matches Some(e) ==> r == Err::<u16, HostError>(e),
        ctl.idle() ==> match reg_of_name(name@) {
            None => r == Err::<u16, HostError>(HostError::UndefinedRegister),
            Some(RegName::Mcr) => r == Ok::<u16, HostError>(0x8000) || r == Ok::<u16, HostError>(0),
            Some(reg) => r == Ok::<u16, HostError>(reg_read(ctl.state(), reg)),
        },
{
    match ctl.peek() {
        Err(e) => Err(HostError::Access(e)),
        Ok(sim) => match parse_reg_name(name) {
            None => Err(HostError::UndefinedRegister),
            Some(RegName::General(i)) => Ok(reg_value(sim, i)),
            Some(RegName::Pc) => Ok(pc_value(sim)),
            Some(RegName::Psr) => Ok(psr_value(sim)),
            Some(RegName::Mcr) => Ok(mcr_word(mcr_is_set(&mcr_handle(sim)))),
        },
    }
}

/// Writes the register with the given name.
pub fn set_reg_value(ctl: &mut SimController, name: &str, value: u16) -> (r: Result<
    (),
    HostError,
>)
    ensures
        refusal(*old(ctl)) matches Some(e) ==> r == Err::<(), HostError>(e) && *final(ctl) == *old(ctl),
        old(ctl).idle() ==> match reg_of_name(name@) {
            None => r == Err::<(), HostError>(HostError::UndefinedRegister) && *final(ctl) == *old(ctl),
            Some(reg) => r is Ok && final(ctl).idle() && final(ctl).flags == old(ctl).flags
                && reg_write(old(ctl).state(), final(ctl).state(), reg, value),
        },
{
    match ctl.simulator() {
        Err(e) => Err(HostError::Access(e)),
        Ok(sim) => match parse_reg_name(name) {
            None => Err(HostError::UndefinedRegister),
            Some(RegName::General(i)) => {
                put_reg(sim, i, value);
                Ok(())
            },
            Some(RegName::Pc) => {
                put_pc(sim, value);
                Ok(())
            },
            Some(RegName::Psr) => {
                let _ = poke_mem(sim, PSR_ADDR, value);
                Ok(())
            },
            Some(RegName::Mcr) => {
                let _ = poke_mem(sim, MCR_ADDR, value);
                Ok(())
            },
        },
    }
}

/// Reads the word at `addr`.
pub fn get_mem_value(ctl: &mut SimController, addr: u16) -> (r: Result<u16, HostError>)
    ensures
        refusal(*old(ctl)) matches Some(e) ==> r == Err::<u16, HostError>(e) && *final(ctl) == *old(ctl),
        old(ctl).idle() ==> r is Ok && final(ctl).idle() && final(ctl).flags == old(ctl).flags
            && host_read(old(ctl).state(), final(ctl).state(), addr, r->Ok_0),
{
    match ctl.read_mem(addr) {
        Ok(word) => Ok(word),
        Err(e) => Err(HostError::Access(e)),
    }
}

/// Writes the word at `addr`.
pub fn set_mem_value(ctl: &mut SimController, addr: u16, value: u16) -> (r: Result<(), HostError>)
    ensures
        refusal(*old(ctl)) matches Some(e) ==> r == Err::<(), HostError>(e) && *final(ctl) == *old(ctl),
        old(ctl).idle() ==> r is Ok && final(ctl).idle() && final(ctl).flags == old(ctl).flags
            && host_write(old(ctl).state(), final(ctl).state(), addr, value),
{
    match ctl.write_mem(addr, value) {
        Ok(()) => Ok(()),
        Err(e) => Err(HostError::Access(e)),
    }
}

/// Puts a breakpoint on `addr` and tells whether it is new.
pub fn set_breakpoint(ctl: &mut SimController, addr: u16) -> (r: Result<bool, HostError>)
    ensures
        refusal(*old(ctl)) matches Some(e) ==> r == Err::<bool, HostError>(e) && *final(ctl)
            == *old(ctl),
        old(ctl).idle() ==> r == Ok::<bool, HostError>(
            !old(ctl).state().breakpoints.contains(addr),
        ) && old(ctl).state().wf() && old(ctl).idle_with(
            *final(ctl),
            MachineState {
                breakpoints: old(ctl).state().breakpoints.insert(addr),
                ..old(ctl).state()
            },
        ),
{
    match ctl.simulator() {
        Err(e) => Err(HostError::Access(e)),
        Ok(sim) => Ok(add_breakpoint(sim, addr)),
    }
}

/// Takes the breakpoint off `addr` and tells whether there was one.
pub fn remove_breakpoint(ctl: &mut SimController, addr: u16) -> (r: Result<bool, HostError>)
    ensures
        refusal(*old(ctl)) matches Some(e) ==> r == Err::<bool, HostError>(e) && *final(ctl)
            == *old(ctl),
        old(ctl).idle() ==> r == Ok::<bool, HostError>(old(ctl).state().breakpoints.contains(addr))
            && old(ctl).state().wf() && old(ctl).idle_with(
            *final(ctl),
            MachineState {
                breakpoints: old(ctl).state().breakpoints.remove(addr),
                ..old(ctl).state()
            },
        ),
{
    match ctl.simulator() {
        Err(e) => Err(HostError::Access(e)),
        Ok(sim) => Ok(drop_breakpoint(sim, addr)),
    }
}

/// Each element is smaller than the next.
pub open spec fn strictly_ascending(s: Seq<u16>) -> bool {
    forall|i: int, j: int| 0 <= i < j < s.len() ==> s[i] < s[j]
}

/// Puts `a` in its place in an ascending list that does not hold it yet.
fn insert_ascending(out: &mut Vec<u16>, a: u16)
    requires
        strictly_ascending(old(out)@),
        !old(out)@.contains(a),
    ensures
        strictly_ascending(final(out)@),
        forall|x: u16| final(out)@.contains(x) <==> (x == a || old(out)@.contains(x)),
{
    let n = out.len();
    let mut p: usize = 0;
    while p < n && out[p] < a
        invariant
            n == out@.len(),
            out@ == old(out)@,
            p <= n,
            forall|k: int| 0 <= k < p ==> out@[k] < a,
        decreases n - p,
    {
        p += 1;
    }
    proof {
        if p < n {
            assert(old(out)@.contains(old(out)@[p as int]));
        }
    }
    out.insert(p, a);
    proof {
        let before = old(out)@;
        let after = out@;
        assert(after == before.insert(p as int, a));
        assert forall|x: u16| after.contains(x) <==> (x == a || before.contains(x)) by {
            if after.contains(x) {
                let i = choose|i: int| 0 <= i < after.len() && after[i] == x;
                if i < p {
                    assert(before[i] == x);
                } else if i > p {
                    assert(before[i - 1] == x);
                }
            }
            if x == a {
                assert(after[p as int] == a);
            }
            if before.contains(x) {
                let i = choose|i: int| 0 <= i < before.len() && before[i] == x;
                if i < p {
                    assert(after[i] == x);
                } else {
                    assert(after[i + 1] == x);
                }
            }
        }
    }
}

/// The addresses that carry a breakpoint, in ascending order.
pub fn get_breakpoints(ctl: &SimController) -> (r: Result<Vec<u16>, HostError>)
    ensures
        refusal(*ctl) matches Some(e) ==> r == Err::<Vec<u16>, HostError>(e),
        ctl.idle() ==> r is Ok && strictly_ascending(r->Ok_0@) && (forall|a: u16|
            r->Ok_0@.contains(a) <==> ctl.state().breakpoints.contains(a)),
{
    match ctl.peek() {
        Err(e) => Err(HostError::Access(e)),
        Ok(sim) => {
            let slots = breakpoint_slots(sim);
            let n = slots.len();
            let mut out: Vec<u16> = Vec::new();
            let mut i: usize = 0;
            while i < n
                invariant
                    n == slots@.len(),
                    i <= n,
                    strictly_ascending(out@),
                    forall|a: u16|
                        out@.contains(a) <==> slots@.subrange(0, i as int).contains(Some(a)),
                    forall|x: int, y: int|
                        0 <= x < y < slots@.len() && slots@[x] is Some ==> slots@[x] != slots@[y],
                decreases n - i,
            {
                let ghost seen = slots@.subrange(0, i as int);
                let ghost next = slots@.subrange(0, i + 1);
                assert(next =~= seen.push(slots@[i as int]));
                match slots[i] {
                    Some(a) => {
                        assert(!out@.contains(a)) by {
                            if seen.contains(Some(a)) {
                                let k = choose|k: int| 0 <= k < seen.len() && seen[k] == Some(a);
                                assert(slots@[k] == slots@[i as int]);
                            }
                        }
                        let ghost before = out@;
                        insert_ascending(&mut out, a);
                        assert forall|x: u16| out@.contains(x) <==> next.contains(Some(x)) by {
                            if next.contains(Some(x)) {
                                let k = choose|k: int| 0 <= k < next.len() && next[k] == Some(x);
                                if k < i {
                                    assert(seen[k] == Some(x));
                                }
                            }
                            if before.contains(x) {
                                let k = choose|k: int| 0 <= k < seen.len() && seen[k] == Some(x);
                                assert(next[k] == Some(x));
                            }
                            if x == a {
                                assert(next[i as int] == Some(x));
                            }
                        }
                    },
                    None => {
                        assert forall|x: u16| out@.contains(x) <==> next.contains(Some(x)) by {
                            if next.contains(Some(x)) {
                                let k = choose|k: int| 0 <= k < next.len() && next[k] == Some(x);
                                assert(seen[k] == Some(x));
                            }
                            if out@.contains(x) {
                                let k = choose|k: int| 0 <= k < seen.len() && seen[k] == Some(x);
                                assert(next[k] == Some(x));
                            }
                        }
                    },
                }
                i += 1;
            }
            assert(slots@.subrange(0, n as int) =~= slots@);
            Ok(out)
        },
    }
}

/// Whether the last run ended on a breakpoint.
pub fn did_hit_breakpoint(ctl: &SimController) -> (r: Result<bool, HostError>)
    ensures
        refusal(*ctl) matches Some(e) ==> r == Err::<bool, HostError>(e),
        ctl.idle() ==> r == Ok::<bool, HostError>(ctl.state().hit_breakpoint),
{
    match ctl.peek() {
        Err(e) => Err(HostError::Access(e)),
        Ok(sim) => Ok(hit_breakpoint(sim)),
    }
}

/// How many calls are open, if the number fits in 32 bits.
pub fn get_frame_number(ctl: &SimController) -> (r: Result<u32, HostError>)
    ensures
        refusal(*ctl) matches Some(e) ==> r == Err::<u32, HostError>(e),
        ctl.idle() && ctl.state().frames <= u32::MAX ==> r == Ok::<u32, HostError>(
            ctl.state().frames as u32,
        ),
        ctl.idle() && ctl.state().frames > u32::MAX ==> r == Err::<u32, HostError>(
            HostError::OutOfRange,
        ),
{
    match ctl.peek() {
        Err(e) => Err(HostError::Access(e)),
        Ok(sim) => {
            let frames = frame_count(sim);
            if frames <= 0xFFFF_FFFF {
                Ok(frames as u32)
            } else {
                Err(HostError::OutOfRange)
            }
        },
    }
}

/// Whether the simulator is away.
pub fn is_sim_running(ctl: &SimController) -> (b: bool)
    ensures
        b == !ctl.idle(),
{
    ctl.is_running()
}

/// Chooses whether user-mode code may touch privileged memory.
pub fn set_ignore_privilege(ctl: &mut SimController, enable: bool)
    ensures
        final(ctl).flags == (Flags { ignore_privilege: enable, ..old(ctl).flags }),
        old(ctl).idle() ==> final(ctl).idle() && final(ctl).state() == (MachineState {
            flags: final(ctl).flags,
            ..old(ctl).state()
        }),
        !old(ctl).idle() ==> final(ctl).slot == old(ctl).slot,
{
    let flags = Flags {
        ignore_privilege: enable,
        use_real_traps: ctl.flags.use_real_traps,
        machine_init: ctl.flags.machine_init,
    };
    ctl.update_flags(flags);
}

/// Chooses whether a fatal trap stops the run. Stopping is what the
/// simulator does when it does not use the machine's own handlers, so the
/// setting stored is the opposite of `enable`.
pub fn set_pause_on_fatal_trap(ctl: &mut SimController, enable: bool)
    ensures
        final(ctl).flags == (Flags { use_real_traps: !enable, ..old(ctl).flags }),
        old(ctl).idle() ==> final(ctl).idle() && final(ctl).state() == (MachineState {
            flags: final(ctl).flags,
            ..old(ctl).state()
        }),
        !old(ctl).idle() ==> final(ctl).slot == old(ctl).slot,
{
    let flags = Flags {
        ignore_privilege: ctl.flags.ignore_privilege,
        use_real_traps: !enable,
        machine_init: ctl.flags.machine_init,
    };
    ctl.update_flags(flags);
}

/// Resets the machine, with memory filled with zeros or at random, and
/// forgets the loaded program. The chosen fill becomes part of the settings.
/// The controller ends idle around a new simulator that has the breakpoints
/// of the old one, every register zero and a cleared status register. No
/// device is attached to it.
///
/// `returned` is how a run that was under way has ended: the simulator it
/// handed back, or nothing if the simulator was lost.
pub fn reset_machine(
    ctl: &mut SimController,
    contents: &mut ObjContents,
    zeroed: bool,
    returned: Option<Simulator>,
)
    ensures
        final(ctl).flags == with_fill(old(ctl).flags, zeroed),
        final(ctl).idle(),
        final(ctl).state().fresh(final(ctl).flags, old(ctl).kept_breakpoints(returned)),
        final(contents).obj_file is None,
        final(contents).lines() == Map::<u16, Seq<char>>::empty(),
{
    ctl.flags = reset_flags(ctl.flags, zeroed);
    ctl.reset(returned);
    contents.clear();
}

/// Makes the machine ready for a program that defines the given words. The
/// machine is reset first, with memory filled at random, and the loaded
/// program forgotten. Then the program is checked: one that reaches into
/// reserved memory is refused, unless privilege is ignored, and the machine
/// stays as the reset left it.
///
/// `returned` is how a run that was under way has ended.
pub fn prepare_load(
    ctl: &mut SimController,
    contents: &mut ObjContents,
    words: &Vec<(u16, Option<u16>)>,
    returned: Option<Simulator>,
) -> (r: Result<(), HostError>)
    ensures
        final(ctl).flags == with_fill(old(ctl).flags, false),
        final(ctl).idle(),
        final(ctl).state().fresh(final(ctl).flags, old(ctl).kept_breakpoints(returned)),
        final(contents).obj_file is None,
        final(contents).lines() == Map::<u16, Seq<char>>::empty(),
        r is Err <==> !old(ctl).flags.ignore_privilege && touches_reserved(words@),
        r is Err ==> r == Err::<(), HostError>(HostError::Load(LoadError::OverlapWithReserved)),
{
    reset_machine(ctl, contents, false, returned);
    match check_load(words, ctl.flags.ignore_privilege) {
        Err(e) => Err(HostError::Load(e)),
        Ok(()) => Ok(()),
    }
}

/// Resets the devices that the host shares with the simulator: the keys
/// that no run has read are dropped, the display is emptied, and the timer
/// draws its time anew. Tells whether the timer did, which it does not on a
/// range that holds no number.
pub fn reset_devices(input: &mut VecDeque<u8>, output: &mut Vec<u8>, t: &mut TimerDevice) -> (drawn:
    bool)
    ensures
        final(input)@ == Seq::<u8>::empty(),
        final(output)@ == Seq::<u8>::empty(),
        drawn == timer(*old(t)).range_nonempty(),
        drawn ==> timer(*final(t)) == (TimerState {
            remaining: timer(*final(t)).remaining,
            ..timer(*old(t))
        }) && timer(*old(t)).in_range(timer(*final(t)).remaining),
        !drawn ==> timer(*final(t)) == timer(*old(t)),
{
    input.clear();
    output.clear();
    reset_timer(t)
}

/// The addresses of an access log at which a write changed the word, in the
/// order of the log.
pub open spec fn modified_addrs(log: Seq<(u16, bool)>) -> Seq<u16>
    decreases log.len(),
{
    if log.len() == 0 {
        Seq::empty()
    } else {
        let rest = modified_addrs(log.drop_last());
        if log.last().1 {
            rest.push(log.last().0)
        } else {
            rest
        }
    }
}

/// The modified addresses of a log that ascends by address ascend too, and
/// none lies above the last address of the log.
pub proof fn modified_addrs_ascend(log: Seq<(u16, bool)>)
    requires
        forall|i: int, j: int| 0 <= i < j < log.len() ==> log[i].0 < log[j].0,
    ensures
        forall|i: int, j: int|
            0 <= i < j < modified_addrs(log).len() ==> modified_addrs(log)[i] < modified_addrs(
                log,
            )[j],
        forall|i: int|
            0 <= i < modified_addrs(log).len() ==> modified_addrs(log)[i] <= log[log.len() - 1].0,
    decreases log.len(),
{
    if log.len() > 0 {
        let rest = log.drop_last();
        assert forall|i: int, j: int| 0 <= i < j < rest.len() implies rest[i].0 < rest[j].0 by {
            assert(rest[i] == log[i] && rest[j] == log[j]);
        }
        modified_addrs_ascend(rest);
        let last = log[log.len() - 1];
        let before = modified_addrs(rest);
        let all = modified_addrs(log);
        assert(all == if last.1 {
            before.push(last.0)
        } else {
            before
        });
        assert forall|i: int| 0 <= i < before.len() implies before[i] < last.0 by {
            assert(rest.len() > 0);
            assert(rest[rest.len() - 1] == log[log.len() - 2]);
            assert(log[log.len() - 2].0 < log[log.len() - 1].0);
        }
        assert forall|i: int| 0 <= i < all.len() implies all[i] <= last.0 by {
            if i < before.len() {
                assert(all[i] == before[i]);
            }
        }
        assert forall|i: int, j: int| 0 <= i < j < all.len() implies all[i] < all[j] by {
            assert(all[i] == before[i]);
            if j < before.len() {
                assert(all[j] == before[j]);
            }
        }
    }
}

/// A word of memory that a run has changed, with the value it has now.
#[derive(Debug, PartialEq, Eq, Structural, Clone, Copy)]
pub struct MemChange {
    pub addr: u16,
    pub value: u16,
}

/// What reading back the changed words leaves of the state: everything but
/// the memory array, and that below the device registers.
pub open spec fn after_reads(before: MachineState, after: MachineState) -> bool {
    &&& after == (MachineState { mem: after.mem, ..before })
    &&& forall|a: int| 0 <= a < IO_START ==> after.mem[a] == before.mem[a]
}

/// Reads the current word at each changed address of the log.
fn read_changes(sim: &mut Simulator, log: &Vec<(u16, bool)>) -> (changes: Vec<MemChange>)
    ensures
        after_reads(machine(*old(sim)), machine(*final(sim))),
        changes@.map_values(|c: MemChange| c.addr) == modified_addrs(log@),
        forall|k: int|
            0 <= k < changes@.len() && changes@[k].addr < IO_START ==> changes@[k].value == machine(
                *old(sim),
            ).mem[changes@[k].addr as int],
{
    let n = log.len();
    let mut changes: Vec<MemChange> = Vec::new();
    let mut i: usize = 0;
    assert(changes@.map_values(|c: MemChange| c.addr) =~= modified_addrs(log@.take(0)));
    while i < n
        invariant
            n == log@.len(),
            i <= n,
            after_reads(machine(*old(sim)), machine(*sim)),
            changes@.map_values(|c: MemChange| c.addr) == modified_addrs(log@.take(i as int)),
            forall|k: int|
                0 <= k < changes@.len() && changes@[k].addr < IO_START ==> changes@[k].value
                    == machine(*old(sim)).mem[changes@[k].addr as int],
        decreases n - i,
    {
        assert(log@.take(i + 1).drop_last() =~= log@.take(i as int));
        let (addr, modified) = log[i];
        if modified {
            let word = match peek_mem(sim, addr) {
                Some(word) => word,
                None => 0,
            };
            let ghost before = changes@;
            changes.push(MemChange { addr, value: word });
            assert(changes@.map_values(|c: MemChange| c.addr) =~= before.map_values(
                |c: MemChange| c.addr,
            ).push(addr));
        }
        i += 1;
    }
    assert(log@.take(n as int) =~= log@);
    changes
}

/// Hands out the words that the last run changed, each with its current
/// value, and empties the access log. The changes come in ascending order
/// of address, each address once.
pub fn take_mem_changes(ctl: &mut SimController) -> (r: Result<Vec<MemChange>, HostError>)
    ensures
        refusal(*old(ctl)) matches Some(e) ==> r == Err::<Vec<MemChange>, HostError>(e)
            && *final(ctl) == *old(ctl),
        old(ctl).idle() ==> {
            &&& r is Ok
            &&& r->Ok_0@.map_values(|c: MemChange| c.addr) == modified_addrs(
                old(ctl).state().accesses,
            )
            &&& forall|i: int, j: int|
                0 <= i < j < r->Ok_0@.len() ==> r->Ok_0@[i].addr < r->Ok_0@[j].addr
            &&& forall|k: int|
                0 <= k < r->Ok_0@.len() && r->Ok_0@[k].addr < IO_START ==> r->Ok_0@[k].value
                    == old(ctl).state().mem[r->Ok_0@[k].addr as int]
            &&& final(ctl).idle()
            &&& final(ctl).flags == old(ctl).flags
            &&& after_reads(
                MachineState { accesses: Seq::empty(), ..old(ctl).state() },
                final(ctl).state(),
            )
        },
{
    match ctl.simulator() {
        Err(e) => Err(HostError::Access(e)),
        Ok(sim) => {
            let log = take_accesses(sim);
            let changes = read_changes(sim, &log);
            proof {
                modified_addrs_ascend(log@);
                let addrs = changes@.map_values(|c: MemChange| c.addr);
                assert forall|i: int, j: int| 0 <= i < j < changes@.len() implies changes@[i].addr
                    < changes@[j].addr by {
                    assert(addrs[i] == changes@[i].addr && addrs[j] == changes@[j].addr);
                }
            }
            Ok(changes)
        },
    }
}

/// The text of a simulation error for the user: the address of the
/// instruction that failed, and then the error.
pub open spec fn fault_text(description: Seq<char>, addr: u16) -> Seq<char> {
    seq!['(', 'P', 'C', ':', ' ', 'x'] + hex4(addr) + seq![')', ' '] + description
}

/// Composes the text of a simulation error.
pub fn fault_message(description: &str, addr: u16) -> (s: String)
    ensures
        s@ == fault_text(description@, addr),
{
    proof {
        reveal_strlit("(PC: x");
        reveal_strlit(") ");
        assert("(PC: x"@ =~= seq!['(', 'P', 'C', ':', ' ', 'x']);
        assert(") "@ =~= seq![')', ' ']);
    }
    let mut s = String::from_str("(PC: x");
    push_hex4(&mut s, addr);
    s.append(") ");
    s.append(description);
    s
}

/// The address of the instruction in execution. With the program counter
/// at zero the simulator cannot be asked, so the counter is moved to one
/// for the question and put back.
fn instr_address(sim: &mut Simulator) -> (addr: u16)
    ensures
        addr == machine(*old(sim)).instr_addr(),
        machine(*final(sim)) == machine(*old(sim)),
{
    if pc_value(sim) == 0 {
        put_pc(sim, 1);
        let moved = prefetch_pc(sim);
        put_pc(sim, 0);
        if moved == 1 {
            0
        } else {
            0xFFFF
        }
    } else {
        prefetch_pc(sim)
    }
}

/// The diagnostic for a run that ended with the described error: the error
/// behind the address of the instruction that failed.
pub fn fault_report(ctl: &mut SimController, description: &str) -> (r: Result<
    Diagnostic,
    HostError,
>)
    ensures
        refusal(*old(ctl)) matches Some(e) ==> (r matches Err(f) && f == e) && *final(ctl) == *old(
            ctl,
        ),
        old(ctl).idle() ==> (r matches Ok(d) && d.message@ == fault_text(
            description@,
            old(ctl).state().instr_addr(),
        ) && d.filename is None && d.source is None && d.span is None && d.help is None
            && d.include_name_in_msg) && final(ctl).idle() && final(ctl).flags == old(ctl).flags
            && final(ctl).state() == old(ctl).state(),
{
    match ctl.simulator() {
        Err(e) => Err(HostError::Access(e)),
        Ok(sim) => {
            let addr = instr_address(sim);
            Ok(Diagnostic::simple(fault_message(description, addr)))
        },
    }
}

/// Takes a key press for the keyboard. The input has to be a single byte;
/// anything else is refused. The byte is only taken while a run is under
/// way to read it, and is dropped without complaint at any other time.
pub fn add_input(ctl: &SimController, input: &str, buffer: &mut VecDeque<u8>) -> (r: Result<
    (),
    InputError,
>)
    ensures
        encode_utf8(input@).len() != 1 ==> r == Err::<(), InputError>(InputError::InvalidInput)
            && final(buffer)@ == old(buffer)@,
        encode_utf8(input@).len() == 1 ==> r is Ok && final(buffer)@ == if ctl.running() {
            old(buffer)@.push(encode_utf8(input@)[0])
        } else {
            old(buffer)@
        },
{
    let bytes = input.as_bytes();
    if bytes.len() != 1 {
        Err(InputError::InvalidInput)
    } else {
        if ctl.accepts_input() {
            buffer.push_back(bytes[0]);
        }
        Ok(())
    }
}

/// The annotations after the changed words have been entered, each with the
/// disassembly at its place in `disassembly`, or none where the list is too
/// short: every changed address shows what [`mem_line_text`] makes of its
/// word, a later change over an earlier one, and no other address changes.
pub open spec fn with_changes(
    lines: Map<u16, Seq<char>>,
    changes: Seq<MemChange>,
    disassembly: Seq<Option<String>>,
) -> Map<u16, Seq<char>>
    decreases changes.len(),
{
    if changes.len() == 0 {
        lines
    } else {
        let last = changes.len() - 1;
        with_changes(lines, changes.drop_last(), disassembly).insert(
            changes[last].addr,
            mem_line_text(
                changes[last].value,
                if last < disassembly.len() {
                    opt_text(disassembly[last])
                } else {
                    None
                },
            ),
        )
    }
}

/// Brings the annotations up to date with the words that a run has
/// changed. `disassembly` holds, for each change in order, the word read as
/// an instruction if it is one.
pub fn update_mem_lines(
    contents: &mut ObjContents,
    changes: &Vec<MemChange>,
    disassembly: &Vec<Option<String>>,
)
    ensures
        final(contents).obj_file == old(contents).obj_file,
        final(contents).lines() == with_changes(old(contents).lines(), changes@, disassembly@),
{
    let n = changes.len();
    let mut i: usize = 0;
    while i < n
        invariant
            n == changes@.len(),
            i <= n,
            contents.obj_file == old(contents).obj_file,
            contents.lines() == with_changes(
                old(contents).lines(),
                changes@.take(i as int),
                disassembly@,
            ),
        decreases n - i,
    {
        assert(changes@.take(i + 1).drop_last() =~= changes@.take(i as int));
        let change = changes[i];
        if i < disassembly.len() {
            match &disassembly[i] {
                Some(d) => contents.set_mem_line(change.addr, change.value, Some(d.as_str())),
                None => contents.set_mem_line(change.addr, change.value, None),
            }
        } else {
            contents.set_mem_line(change.addr, change.value, None);
        }
        i += 1;
    }
    assert(changes@.take(n as int) =~= changes@);
}

} // verus!
