//! The execution controller: who holds the simulator.
//!
//! The simulator is in exactly one place at any time. While the controller
//! is idle it holds the simulator, and the host may inspect and change it.
//! For a run the controller hands the simulator out and is running until it
//! gets the simulator back. If the simulator is lost on the way, the
//! controller is poisoned until it is reset.
//!
//! The controller starts no thread itself. The caller moves the simulator it
//! got from [`SimController::execute`] to a worker, and reports how the run
//! ended with [`SimController::reacquire`], or with [`SimController::reset`]
//! where a reset ends the run.

use vstd::prelude::*;
use vstd::string::StringExecFns;
use std::sync::Arc;
use std::sync::atomic::AtomicBool;
use lc3_ensemble::sim::Simulator;
use crate::machine::{
    default_ports, machine, mcr_handle, new_machine, peek_mem, poke_mem, psr_written, put_flags,
    put_reg, step_in, take_accesses, add_breakpoint, breakpoint_slots, written_pc, written_psr,
    Flags, Port, PSR_ADDR, RTI, USER_START,
    MachineInit,
    MachineState, IO_START,
};

verus! {

/// Why the simulator cannot be reached.
#[derive(Debug, PartialEq, Eq, Structural, Clone, Copy)]
pub enum SimAccessError {
    /// A run is under way.
    NotAvailable,
    /// The simulator was lost in a run.
    Poisoned,
}

impl SimAccessError {
    /// The text shown to the user.
    pub open spec fn message_text(&self) -> Seq<char> {
        match self {
            SimAccessError::NotAvailable =>
                "simulator is currently in the process of running; the state cannot be read or written to while it is running"@,
            SimAccessError::Poisoned =>
                "simulator was destroyed in the process of running; please reload object files"@,
        }
    }

    /// The text shown to the user.
    pub fn message(&self) -> (s: String)
        ensures
            s@ == self.message_text(),
    {
        match self {
            SimAccessError::NotAvailable => String::from_str(
                "simulator is currently in the process of running; the state cannot be read or written to while it is running",
            ),
            SimAccessError::Poisoned => String::from_str(
                "simulator was destroyed in the process of running; please reload object files",
            ),
        }
    }
}

/// Where the simulator is.
pub enum Slot {
    /// With the controller.
    Idle(Simulator),
    /// Handed out for a run. The controller keeps the handle to the machine
    /// control flag, through which it can ask the run to stop.
    Running(Arc<AtomicBool>),
    /// Lost.
    Poison,
}

/// Owner of the simulator and of the settings that the host has chosen.
pub struct SimController {
    pub slot: Slot,
    /// The settings as last chosen. They reach the simulator at once while
    /// the controller is idle, otherwise with the next run or reset.
    pub flags: Flags,
}

/// Clears the machine control flag, which a run polls between instructions.
fn clear_mcr(mcr: &Arc<AtomicBool>) {
    mcr.store(false, core::sync::atomic::Ordering::Relaxed);
}

/// Whether the machine control flag is set. The flag is shared with a run,
/// so nothing is known of the answer.
pub(crate) fn mcr_is_set(mcr: &Arc<AtomicBool>) -> bool {
    mcr.load(core::sync::atomic::Ordering::Relaxed)
}

impl SimController {
    /// Whether the controller holds the simulator.
    pub open spec fn idle(&self) -> bool {
        self.slot is Idle
    }

    /// Whether the simulator is out for a run.
    pub open spec fn running(&self) -> bool {
        self.slot is Running
    }

    /// The simulator that an idle controller holds.
    pub open spec fn sim(&self) -> Simulator
        recommends
            self.idle(),
    {
        self.slot->Idle_0
    }

    /// What the simulator of an idle controller holds.
    pub open spec fn state(&self) -> MachineState
        recommends
            self.idle(),
    {
        machine(self.sim())
    }

    /// Why the simulator cannot be reached, if it cannot.
    pub open spec fn access_error(&self) -> Option<SimAccessError> {
        match self.slot {
            Slot::Idle(_) => None,
            Slot::Running(_) => Some(SimAccessError::NotAvailable),
            Slot::Poison => Some(SimAccessError::Poisoned),
        }
    }

    /// The breakpoints that outlive a reset: those of the simulator that
    /// the controller holds, or of the one that a run hands back.
    pub open spec fn kept_breakpoints(&self, returned: Option<Simulator>) -> Set<u16> {
        match self.slot {
            Slot::Idle(sim) => machine(sim).breakpoints,
            Slot::Running(_) => match returned {
                Some(sim) => machine(sim).breakpoints,
                None => Set::empty(),
            },
            Slot::Poison => Set::empty(),
        }
    }

    /// An idle controller like this one, whose simulator holds `m`.
    pub open spec fn idle_with(&self, after: SimController, m: MachineState) -> bool {
        after.idle() && after.flags == self.flags && after.state() == m
    }

    /// An idle controller around a new simulator with the given settings.
    pub fn new(flags: Flags) -> (c: Self)
        ensures
            c.idle(),
            c.flags == flags,
            c.state().booted(flags),
    {
        SimController { slot: Slot::Idle(new_machine(flags)), flags }
    }

    /// Chooses new settings. An idle controller passes them on to the
    /// simulator at once.
    pub fn update_flags(&mut self, flags: Flags)
        ensures
            final(self).flags == flags,
            old(self).idle() ==> final(self).idle() && final(self).state() == (MachineState {
                flags,
                ..old(self).state()
            }),
            !old(self).idle() ==> final(self).slot == old(self).slot,
    {
        self.flags = flags;
        match &mut self.slot {
            Slot::Idle(sim) => {
                put_flags(sim, flags);
            },
            _ => {},
        }
    }

    /// The simulator, if the controller holds it.
    pub fn simulator(&mut self) -> (r: Result<&mut Simulator, SimAccessError>)
        ensures
            r is Ok <==> old(self).idle(),
            r matches Err(e) ==> old(self).access_error() == Some(e) && *final(self) == *old(self),
            r matches Ok(s) ==> *s == old(self).sim() && final(self).slot == Slot::Idle(*final(s))
                && final(self).flags == old(self).flags,
    {
        match &mut self.slot {
            Slot::Idle(sim) => Ok(sim),
            Slot::Running(_) => Err(SimAccessError::NotAvailable),
            Slot::Poison => Err(SimAccessError::Poisoned),
        }
    }

    /// The simulator for reading, if the controller holds it.
    pub fn peek(&self) -> (r: Result<&Simulator, SimAccessError>)
        ensures
            r is Ok <==> self.idle(),
            r matches Err(e) ==> self.access_error() == Some(e),
            r matches Ok(s) ==> *s == self.sim(),
    {
        match &self.slot {
            Slot::Idle(sim) => Ok(sim),
            Slot::Running(_) => Err(SimAccessError::NotAvailable),
            Slot::Poison => Err(SimAccessError::Poisoned),
        }
    }

    /// Whether the simulator is away, so that its state cannot be reached.
    pub fn is_running(&self) -> (b: bool)
        ensures
            b == !self.idle(),
    {
        match &self.slot {
            Slot::Idle(_) => false,
            _ => true,
        }
    }

    /// Whether a run is under way that can take keyboard input.
    pub fn accepts_input(&self) -> (b: bool)
        ensures
            b == self.running(),
    {
        match &self.slot {
            Slot::Running(_) => true,
            _ => false,
        }
    }

    /// Starts a run: an idle controller brings the simulator's settings up
    /// to date, hands the simulator out and is running from then on.
    /// Otherwise nothing changes.
    pub fn execute(&mut self) -> (r: Result<Simulator, SimAccessError>)
        ensures
            r is Ok <==> old(self).idle(),
            r matches Err(e) ==> old(self).access_error() == Some(e) && *final(self) == *old(self),
            r matches Ok(sim) ==> {
                &&& machine(sim) == (MachineState { flags: old(self).flags, ..old(self).state() })
                &&& final(self).running()
                &&& final(self).flags == old(self).flags
            },
    {
        let mut slot = Slot::Poison;
        core::mem::swap(&mut self.slot, &mut slot);
        match slot {
            Slot::Idle(mut sim) => {
                put_flags(&mut sim, self.flags);
                self.slot = Slot::Running(mcr_handle(&sim));
                Ok(sim)
            },
            Slot::Running(mcr) => {
                self.slot = Slot::Running(mcr);
                Err(SimAccessError::NotAvailable)
            },
            Slot::Poison => Err(SimAccessError::Poisoned),
        }
    }

    /// Ends a run. A running controller that gets the simulator back is idle
    /// again; one that is told the simulator is gone is poisoned. A
    /// controller that is not running keeps its state and returns what it
    /// was given.
    pub fn reacquire(&mut self, returned: Option<Simulator>) -> (rejected: Option<Simulator>)
        ensures
            final(self).flags == old(self).flags,
            old(self).running() ==> rejected is None && final(self).slot == (match returned {
                Some(sim) => Slot::Idle(sim),
                None => Slot::Poison,
            }),
            !old(self).running() ==> rejected == returned && final(self).slot == old(self).slot,
    {
        match &self.slot {
            Slot::Running(_) => {
                match returned {
                    Some(sim) => {
                        self.slot = Slot::Idle(sim);
                    },
                    None => {
                        self.slot = Slot::Poison;
                    },
                }
                None
            },
            _ => returned,
        }
    }

    /// Asks a run to stop: a running controller clears the machine control
    /// flag, and the run ends at the next instruction boundary. Tells
    /// whether a run is under way, which the caller then has to wait for and
    /// report with [`SimController::reacquire`]. Nothing happens otherwise.
    pub fn pause(&self) -> (running: bool)
        ensures
            running == self.running(),
    {
        match &self.slot {
            Slot::Running(mcr) => {
                clear_mcr(mcr);
                true
            },
            _ => false,
        }
    }

    /// Resets the machine with the chosen settings and ends idle, whatever
    /// the controller was. The simulator is replaced by a new one: memory is
    /// filled anew and the operating system loaded again, every register is
    /// zero, and the status register is cleared. The breakpoints of the old
    /// simulator are put on the new one. No device is attached to it; the
    /// caller attaches them again.
    ///
    /// `returned` is how a run that was under way has ended: the simulator
    /// that it handed back, or nothing if the simulator was lost. A
    /// controller that was running takes the breakpoints from there. One
    /// that was not running has no use for it.
    pub fn reset(&mut self, returned: Option<Simulator>)
        ensures
            final(self).flags == old(self).flags,
            final(self).idle(),
            final(self).state().fresh(old(self).flags, old(self).kept_breakpoints(returned)),
    {
        let slots = match &self.slot {
            Slot::Idle(sim) => breakpoint_slots(sim),
            Slot::Running(_) => match &returned {
                Some(sim) => breakpoint_slots(sim),
                None => Vec::new(),
            },
            Slot::Poison => Vec::new(),
        };
        proof {
            let kept = old(self).kept_breakpoints(returned);
            assert forall|a: u16| kept.contains(a) <==> slots@.contains(Some(a)) by {
                if !(old(self).idle() || (old(self).running() && returned is Some)) {
                    assert(!slots@.contains(Some(a)));
                }
            }
        }
        self.slot = Slot::Idle(renewed(self.flags, &slots));
        assert(self.state().breakpoints =~= old(self).kept_breakpoints(returned));
    }

    /// Reads a word as the host sees it, without side effects on devices.
    /// Below the device registers this is the word in memory, and nothing
    /// changes. A read of a device register leaves the value read in the
    /// memory array.
    pub fn read_mem(&mut self, addr: u16) -> (r: Result<u16, SimAccessError>)
        ensures
            r is Ok <==> old(self).idle(),
            r matches Err(e) ==> old(self).access_error() == Some(e) && *final(self) == *old(self),
            r matches Ok(word) ==> {
                &&& final(self).idle()
                &&& final(self).flags == old(self).flags
                &&& host_read(old(self).state(), final(self).state(), addr, word)
            },
    {
        match self.simulator() {
            Ok(sim) => {
                match peek_mem(sim, addr) {
                    Some(word) => Ok(word),
                    None => Ok(0),
                }
            },
            Err(e) => Err(e),
        }
    }

    /// Writes a word as the host does. Below the device registers the word
    /// goes to memory and nothing else changes. At a device register the
    /// write reaches the device; registers, breakpoints and the rest of
    /// memory stay as they are.
    pub fn write_mem(&mut self, addr: u16, word: u16) -> (r: Result<(), SimAccessError>)
        ensures
            r is Ok <==> old(self).idle(),
            r matches Err(e) ==> old(self).access_error() == Some(e) && *final(self) == *old(self),
            r is Ok ==> final(self).idle() && final(self).flags == old(self).flags
                && host_write(old(self).state(), final(self).state(), addr, word),
    {
        match self.simulator() {
            Ok(sim) => {
                let _ = poke_mem(sim, addr, word);
                Ok(())
            },
            Err(e) => Err(e),
        }
    }
}

/// How a host read of `addr` that returned `word` relates the states
/// before and after. Below the device registers the word is the one in
/// memory and the state stays as it is. At the address of the status
/// register or of a mapped program counter the word is that register.
/// Elsewhere only the word at `addr` of the memory array may change, to the
/// value read.
pub open spec fn host_read(before: MachineState, after: MachineState, addr: u16, word: u16) -> bool {
    &&& before.wf()
    &&& after.wf()
    &&& addr < IO_START ==> word == before.mem[addr as int] && after == before
    &&& before.port(addr) == Some(Port::Psr) ==> word == before.psr
    &&& before.port(addr) == Some(Port::Pc) ==> word == before.pc
    &&& after == (MachineState { mem: after.mem, ..before })
    &&& after.mem[addr as int] == word
    &&& forall|a: int| 0 <= a < 0x1_0000 && a != addr ==> after.mem[a] == before.mem[a]
}

/// How a host write of `value` to `addr` relates the states before and
/// after. Below the device registers the word goes to memory and nothing
/// else changes. At a device register the write reaches the internal
/// register mapped there, or else the device: the status register takes
/// the value as [`psr_written`] says, a mapped program counter takes it as
/// it is. Nothing but these two registers and the word at `addr` changes.
pub open spec fn host_write(before: MachineState, after: MachineState, addr: u16, value: u16) -> bool {
    &&& before.wf()
    &&& after.wf()
    &&& addr < IO_START ==> after == (MachineState {
        mem: before.mem.update(addr as int, value),
        ..before
    })
    &&& after == (MachineState {
        pc: written_pc(before, addr, value),
        psr: written_psr(before, addr, value),
        mem: after.mem,
        ..before
    })
    &&& before.port(addr) is Some ==> after.mem[addr as int] == value
    &&& forall|a: int| 0 <= a < 0x1_0000 && a != addr ==> after.mem[a] == before.mem[a]
}

/// A write of zero puts the status register in supervisor mode.
pub proof fn zero_written_to_psr()
    ensures
        psr_written(0) == 2,
{
    assert(0u16 & 7 == 0) by (bit_vector);
    assert(0u16 & 0x8700 == 0) by (bit_vector);
    assert(0u16 | 2 == 2) by (bit_vector);
}

/// Reads a word of plain memory.
fn word_at(sim: &mut Simulator, addr: u16) -> (word: u16)
    requires
        addr < IO_START,
    ensures
        word == machine(*old(sim)).mem[addr as int],
        machine(*final(sim)) == machine(*old(sim)),
        machine(*old(sim)).wf(),
{
    match peek_mem(sim, addr) {
        Some(word) => word,
        None => 0,
    }
}

/// Clears the status register of a simulator that was just made. A write
/// to the register always leaves a condition code behind, but a return from
/// interrupt takes the register from the stack as it is. So the simulator
/// is put in supervisor mode and made to return, from a stack of two words
/// in user memory, to the start of user space with a status of zero. The
/// three words of user memory that this takes are put back.
fn clear_status(sim: &mut Simulator)
    requires
        machine(*old(sim)).wf(),
        machine(*old(sim)).ports == default_ports(),
        machine(*old(sim)).bare,
        !machine(*old(sim)).strict,
        machine(*old(sim)).pc == USER_START,
        machine(*old(sim)).frames == 0,
    ensures
        machine(*final(sim)).wf(),
        machine(*final(sim)) == (MachineState {
            psr: crate::machine::RESET_PSR,
            regs: machine(*final(sim)).regs,
            mem: machine(*final(sim)).mem,
            accesses: machine(*final(sim)).accesses,
            prefetch: false,
            ..machine(*old(sim))
        }),
        forall|a: int|
            0 <= a < 0x1_0000 && a != PSR_ADDR ==> machine(*final(sim)).mem[a] == machine(
                *old(sim),
            ).mem[a],
{
    proof {
        zero_written_to_psr();
    }
    let _ = poke_mem(sim, PSR_ADDR, 0);
    let code = word_at(sim, USER_START);
    let first = word_at(sim, USER_START + 1);
    let second = word_at(sim, USER_START + 2);
    let _ = poke_mem(sim, USER_START, RTI);
    let _ = poke_mem(sim, USER_START + 1, USER_START);
    let _ = poke_mem(sim, USER_START + 2, 0);
    put_reg(sim, 6, USER_START + 1);
    let _ = step_in(sim);
    let _ = poke_mem(sim, USER_START, code);
    let _ = poke_mem(sim, USER_START + 1, first);
    let _ = poke_mem(sim, USER_START + 2, second);
}

/// A new simulator in the state a reset ends in, with a breakpoint on each
/// of the given addresses.
fn renewed(flags: Flags, slots: &Vec<Option<u16>>) -> (sim: Simulator)
    ensures
        machine(sim).fresh(flags, machine(sim).breakpoints),
        forall|a: u16| machine(sim).breakpoints.contains(a) <==> slots@.contains(Some(a)),
{
    let mut sim = new_machine(flags);
    let ghost booted = machine(sim);
    clear_status(&mut sim);
    let ghost cleared = machine(sim);
    proof {
        match flags.machine_init {
            MachineInit::Known(v) => {
                assert forall|a: int| USER_START <= a < IO_START implies cleared.mem[a] == v by {
                    assert(cleared.mem[a] == booted.mem[a]);
                }
            },
            MachineInit::Unseeded => {},
        }
    }
    let mut i: u8 = 0;
    while i < 8
        invariant
            i <= 8,
            cleared.wf(),
            machine(sim) == (MachineState { regs: machine(sim).regs, ..cleared }),
            machine(sim).regs.len() == 8,
            forall|k: int| 0 <= k < i ==> machine(sim).regs[k] == 0,
        decreases 8 - i,
    {
        put_reg(&mut sim, i, 0);
        i += 1;
    }
    assert(machine(sim).regs =~= Seq::new(8, |i: int| 0u16));
    let _ = take_accesses(&mut sim);
    let ghost plain = machine(sim);
    let n = slots.len();
    let mut j: usize = 0;
    while j < n
        invariant
            n == slots@.len(),
            j <= n,
            machine(sim) == (MachineState { breakpoints: machine(sim).breakpoints, ..plain }),
            forall|a: u16|
                machine(sim).breakpoints.contains(a) <==> slots@.take(j as int).contains(Some(a)),
        decreases n - j,
    {
        let ghost seen = slots@.take(j as int);
        let ghost next = slots@.take(j + 1);
        assert(next =~= seen.push(slots@[j as int]));
        let ghost before = machine(sim).breakpoints;
        match slots[j] {
            Some(addr) => {
                let _ = add_breakpoint(&mut sim, addr);
            },
            None => {},
        }
        assert forall|a: u16| machine(sim).breakpoints.contains(a) <==> next.contains(
            Some(a),
        ) by {
            if next.contains(Some(a)) {
                let k = choose|k: int| 0 <= k < next.len() && next[k] == Some(a);
                if k < j {
                    assert(seen[k] == Some(a));
                }
            }
            if before.contains(a) {
                let k = choose|k: int| 0 <= k < seen.len() && seen[k] == Some(a);
                assert(next[k] == Some(a));
            }
            if slots@[j as int] == Some(a) {
                assert(next[j as int] == Some(a));
            }
        }
        j += 1;
    }
    assert(slots@.take(n as int) =~= slots@);
    sim
}

/// The settings for a reset: the chosen ones, with memory filled with zeros
/// or at random.
pub open spec fn with_fill(flags: Flags, zeroed: bool) -> Flags {
    Flags {
        machine_init: if zeroed {
            MachineInit::Known(0)
        } else {
            MachineInit::Unseeded
        },
        ..flags
    }
}

/// The settings for a reset.
pub fn reset_flags(flags: Flags, zeroed: bool) -> (r: Flags)
    ensures
        r == with_fill(flags, zeroed),
{
    let machine_init = if zeroed {
        MachineInit::Known(0)
    } else {
        MachineInit::Unseeded
    };
    Flags {
        ignore_privilege: flags.ignore_privilege,
        use_real_traps: flags.use_real_traps,
        machine_init,
    }
}

} // verus!
