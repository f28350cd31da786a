//! The simulator of `lc3_ensemble`, as far as this crate reads and changes it.
//!
//! A `Simulator` is opaque to the verifier. [`machine`] names what it holds,
//! and each function in this module makes one access to it. The contracts of
//! these functions are taken from the source of `lc3_ensemble`; they are
//! believed, not proved.

use vstd::prelude::*;
use std::sync::Arc;
use std::sync::atomic::AtomicBool;
use lc3_ensemble::sim::Simulator;

verus! {

/// `lc3_ensemble::sim::Simulator`, taken as it is: nothing inside it is
/// visible here.
#[verifier::external_type_specification]
#[verifier::external_body]
pub struct ExSimulator(lc3_ensemble::sim::Simulator);

/// How words that no program has written are filled in.
#[derive(Debug, PartialEq, Eq, Structural, Clone, Copy)]
pub enum MachineInit {
    /// With random values.
    Unseeded,
    /// With the given value.
    Known(u16),
}

/// The settings of a simulator that the host chooses.
#[derive(Debug, PartialEq, Eq, Structural, Clone, Copy)]
pub struct Flags {
    /// Let user-mode code touch privileged memory.
    pub ignore_privilege: bool,
    /// Let the machine's own handlers serve HALT and the exceptions, instead
    /// of stopping the run.
    pub use_real_traps: bool,
    /// How unwritten words are filled in at the next reset.
    pub machine_init: MachineInit,
}

impl Default for Flags {
    fn default() -> (flags: Self)
        ensures
            flags == (Flags {
                ignore_privilege: false,
                use_real_traps: false,
                machine_init: MachineInit::Unseeded,
            }),
    {
        Flags { ignore_privilege: false, use_real_traps: false, machine_init: MachineInit::Unseeded }
    }
}

/// First address of the memory-mapped device registers.
pub const IO_START: u16 = 0xFE00;

/// Address that the processor status register is mapped at.
pub const PSR_ADDR: u16 = 0xFFFC;

/// Address that the machine control register is mapped at.
pub const MCR_ADDR: u16 = 0xFFFE;

/// Address at which a freshly reset machine starts to execute.
pub const USER_START: u16 = 0x3000;

/// The status register of a simulator as it is made: user mode, priority 0,
/// condition code Z.
pub const INITIAL_PSR: u16 = 0x8002;

/// The status register after a reset: supervisor mode, priority 0, no
/// condition code set.
pub const RESET_PSR: u16 = 0x0000;

/// The instruction that returns from an interrupt.
pub const RTI: u16 = 0x8000;

/// A register of the simulator itself that can be reached through a device
/// address.
#[derive(Debug, PartialEq, Eq, Structural, Clone, Copy)]
pub enum Port {
    /// The program counter.
    Pc,
    /// The processor status register.
    Psr,
    /// The machine control register.
    Mcr,
    /// The stack pointer of the mode that is not active.
    SavedSp,
}

/// The ports of a simulator as it is made: the status register at xFFFC and
/// the machine control register at xFFFE.
pub open spec fn default_ports() -> Map<u16, Port> {
    Map::<u16, Port>::empty().insert(PSR_ADDR, Port::Psr).insert(MCR_ADDR, Port::Mcr)
}

/// What the status register holds after `value` has been written to it:
/// the mode and priority bits of `value`, and its condition code if exactly
/// one is set, else Z.
pub open spec fn psr_written(value: u16) -> u16 {
    let cc = value & 7;
    (value & 0x8700) | (if cc == 1 || cc == 2 || cc == 4 {
        cc
    } else {
        2u16
    })
}

/// What a simulator holds.
pub struct MachineState {
    /// The general-purpose registers R0 to R7.
    pub regs: Seq<u16>,
    /// The program counter.
    pub pc: u16,
    /// The processor status register.
    pub psr: u16,
    /// The memory array, one word per address.
    pub mem: Seq<u16>,
    /// The addresses that carry a breakpoint on the program counter.
    pub breakpoints: Set<u16>,
    /// The addresses accessed since the log was last cleared, each with
    /// whether a write changed the word, in the order the log hands them out.
    pub accesses: Seq<(u16, bool)>,
    /// How many calls are open.
    pub frames: u64,
    /// Whether the last run ended on a breakpoint.
    pub hit_breakpoint: bool,
    /// Whether the program counter still points at the instruction in
    /// execution, and not yet at the one after it.
    pub prefetch: bool,
    /// The settings.
    pub flags: Flags,
    /// The internal registers that are mapped to device addresses.
    pub ports: Map<u16, Port>,
    /// Whether no device is attached to the simulator, so that none can
    /// interrupt it.
    pub bare: bool,
    /// Whether the simulator refuses to work on words that no program has
    /// written.
    pub strict: bool,
}

impl MachineState {
    /// Eight registers and a word for each of the 65 536 addresses.
    pub open spec fn wf(&self) -> bool {
        self.regs.len() == 8 && self.mem.len() == 0x1_0000
    }

    /// The internal register that is mapped to a device address, if any.
    pub open spec fn port(&self, addr: u16) -> Option<Port> {
        if addr >= IO_START && self.ports.contains_key(addr) {
            Some(self.ports[addr])
        } else {
            None
        }
    }

    /// The address of the instruction in execution: the program counter, or
    /// the address before it once the counter has moved on.
    pub open spec fn instr_addr(&self) -> u16 {
        if self.prefetch {
            self.pc
        } else if self.pc == 0 {
            0xFFFF
        } else {
            (self.pc - 1) as u16
        }
    }

    /// Whether every word of user memory holds `v`.
    pub open spec fn user_memory_is(&self, v: u16) -> bool {
        forall|a: int| USER_START <= a < IO_START ==> self.mem[a] == v
    }

    /// What is common to a simulator that was just made or reset: execution
    /// starts over at the start of user space, with an empty access log and
    /// no call open, and with a known fill every word of user memory holds
    /// the fill value. The rest of memory holds the operating system and the
    /// device registers.
    pub open spec fn started(&self, flags: Flags, breakpoints: Set<u16>) -> bool {
        &&& self.wf()
        &&& self.flags == flags
        &&& self.breakpoints == breakpoints
        &&& !self.prefetch
        &&& self.accesses == Seq::<(u16, bool)>::empty()
        &&& self.frames == 0
        &&& !self.hit_breakpoint
        &&& flags.machine_init matches MachineInit::Known(v) ==> self.user_memory_is(v)
    }

    /// A simulator as `lc3_ensemble` makes it: started, at the start of user
    /// space in user mode, with the two default ports, no device and no
    /// strictness, and with a known fill every register holds the fill
    /// value.
    pub open spec fn booted(&self, flags: Flags) -> bool {
        &&& self.started(flags, Set::empty())
        &&& self.ports == default_ports()
        &&& self.bare
        &&& !self.strict
        &&& self.pc == USER_START
        &&& self.psr == INITIAL_PSR
        &&& flags.machine_init matches MachineInit::Known(v) ==> self.regs == Seq::new(
            8,
            |i: int| v,
        )
    }

    /// A machine after a reset with the given settings and breakpoints:
    /// started, at the start of user space, every register zero, and the
    /// status register cleared: supervisor mode, priority 0, no condition
    /// code. The simulator is a new one, with the two default ports and no
    /// device.
    pub open spec fn fresh(&self, flags: Flags, breakpoints: Set<u16>) -> bool {
        &&& self.started(flags, breakpoints)
        &&& self.ports == default_ports()
        &&& self.bare
        &&& !self.strict
        &&& self.pc == USER_START
        &&& self.psr == RESET_PSR
        &&& self.regs == Seq::new(8, |i: int| 0u16)
    }

    /// Whether the next step of the simulator is a return from interrupt
    /// that runs undisturbed: in supervisor mode, without strictness and
    /// with no device to interrupt, the program counter rests on that
    /// instruction in plain memory, R6 points at two words of plain memory,
    /// and the second of them, the status to return to, is one of
    /// supervisor mode.
    pub open spec fn rti_ready(&self) -> bool {
        &&& self.wf()
        &&& self.bare
        &&& !self.strict
        &&& self.psr < 0x8000
        &&& self.pc < IO_START
        &&& self.mem[self.pc as int] == RTI
        &&& self.regs[6] < IO_START - 1
        &&& self.mem[self.regs[6] + 1] < 0x8000
    }

    /// The machine after a return from interrupt: program counter and
    /// status register hold the two words that R6 pointed at, as they are,
    /// R6 lies behind them, and a call is closed if one was open. What the
    /// step left in the access log is not said.
    pub open spec fn rti_done(&self, after: MachineState) -> bool {
        after == (MachineState {
            pc: self.mem[self.regs[6] as int],
            psr: self.mem[self.regs[6] + 1],
            regs: self.regs.update(6, (self.regs[6] + 2) as u16),
            frames: if self.frames == 0 {
                0
            } else {
                (self.frames - 1) as u64
            },
            prefetch: false,
            accesses: after.accesses,
            ..*self
        })
    }
}

/// The program counter after a host write of `value` to `addr`: the value
/// where the counter is mapped to the address, else what it was.
pub open spec fn written_pc(m: MachineState, addr: u16, value: u16) -> u16 {
    if m.port(addr) == Some(Port::Pc) {
        value
    } else {
        m.pc
    }
}

/// The status register after a host write of `value` to `addr`: what the
/// register makes of the value where it is mapped to the address, else what
/// it was.
pub open spec fn written_psr(m: MachineState, addr: u16, value: u16) -> u16 {
    if m.port(addr) == Some(Port::Psr) {
        psr_written(value)
    } else {
        m.psr
    }
}

/// What the simulator holds: its registers, memory, breakpoints and the
/// rest of [`MachineState`].
pub uninterp spec fn machine(sim: Simulator) -> MachineState;

/// `Simulator::new`: a machine with the given settings, the operating system
/// loaded below user space, no breakpoints, no devices, the two default
/// ports, an empty access log and the program counter at the start of user
/// space.
#[verifier::external_body]
pub(crate) fn new_machine(flags: Flags) -> (sim: Simulator)
    ensures
        machine(sim).booted(flags),
{
    let machine_init = match flags.machine_init {
        MachineInit::Unseeded => lc3_ensemble::sim::mem::MachineInitStrategy::Unseeded,
        MachineInit::Known(value) => lc3_ensemble::sim::mem::MachineInitStrategy::Known { value },
    };
    Simulator::new(
        lc3_ensemble::sim::SimFlags {
            ignore_privilege: flags.ignore_privilege,
            use_real_traps: flags.use_real_traps,
            machine_init,
            ..Default::default()
        },
    )
}

/// `Simulator::step_in`, for the one step this crate takes itself: a return
/// from interrupt that nothing disturbs. The instruction takes the program
/// counter and the status register from the stack, the status register bit
/// for bit, and the step succeeds.
#[verifier::external_body]
pub(crate) fn step_in(sim: &mut Simulator) -> (done: bool)
    requires
        machine(*old(sim)).rti_ready(),
    ensures
        done,
        machine(*old(sim)).rti_done(machine(*final(sim))),
{
    sim.step_in().is_ok()
}

/// Assigns the three settings in the simulator's `flags` field.
#[verifier::external_body]
pub(crate) fn put_flags(sim: &mut Simulator, flags: Flags)
    ensures
        machine(*old(sim)).wf(),
        machine(*final(sim)) == (MachineState { flags, ..machine(*old(sim)) }),
{
    sim.flags.ignore_privilege = flags.ignore_privilege;
    sim.flags.use_real_traps = flags.use_real_traps;
    sim.flags.machine_init = match flags.machine_init {
        MachineInit::Unseeded => lc3_ensemble::sim::mem::MachineInitStrategy::Unseeded,
        MachineInit::Known(value) => lc3_ensemble::sim::mem::MachineInitStrategy::Known { value },
    };
}

/// Reads a general-purpose register: `Word::get` on the indexed `reg_file`.
#[verifier::external_body]
pub(crate) fn reg_value(sim: &Simulator, index: u8) -> (value: u16)
    requires
        index < 8,
    ensures
        value == machine(*sim).regs[index as int],
{
    sim.reg_file[lc3_ensemble::ast::Reg::try_from(index).unwrap()].get()
}

/// Writes a general-purpose register: `Word::set` on the indexed `reg_file`.
#[verifier::external_body]
pub(crate) fn put_reg(sim: &mut Simulator, index: u8, value: u16)
    requires
        index < 8,
    ensures
        machine(*old(sim)).wf(),
        machine(*final(sim)) == (MachineState {
            regs: machine(*old(sim)).regs.update(index as int, value),
            ..machine(*old(sim))
        }),
{
    sim.reg_file[lc3_ensemble::ast::Reg::try_from(index).unwrap()].set(value);
}

/// Reads the `pc` field.
#[verifier::external_body]
pub(crate) fn pc_value(sim: &Simulator) -> (value: u16)
    ensures
        value == machine(*sim).pc,
{
    sim.pc
}

/// Assigns the `pc` field.
#[verifier::external_body]
pub(crate) fn put_pc(sim: &mut Simulator, value: u16)
    ensures
        machine(*old(sim)).wf(),
        machine(*final(sim)) == (MachineState { pc: value, ..machine(*old(sim)) }),
{
    sim.pc = value;
}

/// `Simulator::psr`, as its sixteen bits.
#[verifier::external_body]
pub(crate) fn psr_value(sim: &Simulator) -> (value: u16)
    ensures
        value == machine(*sim).psr,
{
    sim.psr().get()
}

/// `Simulator::mcr`, cloned: a handle to the machine control flag, which
/// the simulator shares with whoever holds such a handle.
#[verifier::external_body]
pub(crate) fn mcr_handle(sim: &Simulator) -> Arc<AtomicBool> {
    Arc::clone(sim.mcr())
}

/// `Simulator::read_mem` with `MemAccessCtx::omnipotent()`: a privileged
/// read that has no effect on devices and leaves no trace in the access log.
/// Such a read never fails. Below the device registers it returns the word in
/// memory and changes nothing. At a device register it returns what the
/// internal register or device mapped there shows, or the word in memory if
/// nothing answers, and leaves that value in the memory array.
#[verifier::external_body]
pub(crate) fn peek_mem(sim: &mut Simulator, addr: u16) -> (word: Option<u16>)
    ensures
        word is Some,
        machine(*old(sim)).wf(),
        machine(*final(sim)).wf(),
        addr < IO_START ==> word->0 == machine(*old(sim)).mem[addr as int] && machine(*final(sim))
            == machine(*old(sim)),
        machine(*old(sim)).port(addr) == Some(Port::Psr) ==> word->0 == machine(*old(sim)).psr,
        machine(*old(sim)).port(addr) == Some(Port::Pc) ==> word->0 == machine(*old(sim)).pc,
        machine(*final(sim)) == (MachineState {
            mem: machine(*final(sim)).mem,
            ..machine(*old(sim))
        }),
        machine(*final(sim)).mem[addr as int] == word->0,
        forall|a: int|
            0 <= a < 0x1_0000 && a != addr ==> machine(*final(sim)).mem[a] == machine(
                *old(sim),
            ).mem[a],
{
    sim.read_mem(addr, lc3_ensemble::sim::MemAccessCtx::omnipotent()).ok().map(|w| w.get())
}

/// `Simulator::write_mem` of an initialized word with
/// `MemAccessCtx::omnipotent()`: a privileged write that leaves no trace in
/// the access log. Such a write never fails. Below the device registers it
/// stores the word and changes nothing else. At a device register the write
/// goes to the internal register mapped there, which takes the value as
/// [`written_pc`] and [`written_psr`] say, or else to the device. Only the
/// program counter, the status register and the word at `addr` can change;
/// that word takes the value where an internal register is mapped.
#[verifier::external_body]
pub(crate) fn poke_mem(sim: &mut Simulator, addr: u16, value: u16) -> (done: bool)
    ensures
        done,
        machine(*old(sim)).wf(),
        machine(*final(sim)).wf(),
        addr < IO_START ==> machine(*final(sim)) == (MachineState {
            mem: machine(*old(sim)).mem.update(addr as int, value),
            ..machine(*old(sim))
        }),
        machine(*final(sim)) == (MachineState {
            pc: written_pc(machine(*old(sim)), addr, value),
            psr: written_psr(machine(*old(sim)), addr, value),
            mem: machine(*final(sim)).mem,
            ..machine(*old(sim))
        }),
        machine(*old(sim)).port(addr) is Some ==> machine(*final(sim)).mem[addr as int] == value,
        forall|a: int|
            0 <= a < 0x1_0000 && a != addr ==> machine(*final(sim)).mem[a] == machine(
                *old(sim),
            ).mem[a],
{
    let word = lc3_ensemble::sim::mem::Word::new_init(value);
    sim.write_mem(addr, word, lc3_ensemble::sim::MemAccessCtx::omnipotent()).is_ok()
}

/// `HashSet::insert` of `Breakpoint::PC(addr)` into the `breakpoints` field:
/// tells whether the breakpoint was new.
#[verifier::external_body]
pub(crate) fn add_breakpoint(sim: &mut Simulator, addr: u16) -> (inserted: bool)
    ensures
        machine(*old(sim)).wf(),
        inserted == !machine(*old(sim)).breakpoints.contains(addr),
        machine(*final(sim)) == (MachineState {
            breakpoints: machine(*old(sim)).breakpoints.insert(addr),
            ..machine(*old(sim))
        }),
{
    sim.breakpoints.insert(lc3_ensemble::sim::debug::Breakpoint::PC(addr))
}

/// `HashSet::remove` of `Breakpoint::PC(addr)` from the `breakpoints` field:
/// tells whether there was such a breakpoint.
#[verifier::external_body]
pub(crate) fn drop_breakpoint(sim: &mut Simulator, addr: u16) -> (removed: bool)
    ensures
        machine(*old(sim)).wf(),
        removed == machine(*old(sim)).breakpoints.contains(addr),
        machine(*final(sim)) == (MachineState {
            breakpoints: machine(*old(sim)).breakpoints.remove(addr),
            ..machine(*old(sim))
        }),
{
    sim.breakpoints.remove(&lc3_ensemble::sim::debug::Breakpoint::PC(addr))
}

/// Walks the `breakpoints` field and hands out, for each breakpoint, its
/// address if it is one on the program counter. The set is hashed, so the
/// order is not determined; each breakpoint comes once.
#[verifier::external_body]
pub(crate) fn breakpoint_slots(sim: &Simulator) -> (slots: Vec<Option<u16>>)
    ensures
        forall|a: u16|
            machine(*sim).breakpoints.contains(a) <==> slots@.contains(Some(a)),
        forall|i: int, j: int|
            0 <= i < j < slots@.len() && slots@[i] is Some ==> slots@[i] != slots@[j],
{
    sim.breakpoints.iter().map(
        |bp| match bp {
            lc3_ensemble::sim::debug::Breakpoint::PC(addr) => Some(*addr),
            lc3_ensemble::sim::debug::Breakpoint::Reg { .. } => None,
            lc3_ensemble::sim::debug::Breakpoint::Mem { .. } => None,
        },
    ).collect()
}

/// `Simulator::hit_breakpoint`.
#[verifier::external_body]
pub(crate) fn hit_breakpoint(sim: &Simulator) -> (hit: bool)
    ensures
        hit == machine(*sim).hit_breakpoint,
{
    sim.hit_breakpoint()
}

/// `FrameStack::len` of the `frame_stack` field.
#[verifier::external_body]
pub(crate) fn frame_count(sim: &Simulator) -> (frames: u64)
    ensures
        frames == machine(*sim).frames,
{
    sim.frame_stack.len()
}

/// `AccessObserver::take_mem_accesses` on the `observer` field: hands out
/// the log in ascending order of address, each address once and with
/// whether a write changed its word, and leaves the log empty.
#[verifier::external_body]
pub(crate) fn take_accesses(sim: &mut Simulator) -> (log: Vec<(u16, bool)>)
    ensures
        machine(*old(sim)).wf(),
        log@ == machine(*old(sim)).accesses,
        forall|i: int, j: int| 0 <= i < j < log@.len() ==> log@[i].0 < log@[j].0,
        machine(*final(sim)) == (MachineState {
            accesses: Seq::empty(),
            ..machine(*old(sim))
        }),
{
    sim.observer.take_mem_accesses().map(|(addr, access)| (addr, access.modified())).collect()
}

/// `Simulator::prefetch_pc`: the address of the instruction in execution,
/// which is the program counter, or the address before it once the counter
/// has moved on. The subtraction inside overflows at address zero, which is
/// left out.
#[verifier::external_body]
pub(crate) fn prefetch_pc(sim: &Simulator) -> (addr: u16)
    requires
        machine(*sim).pc > 0,
    ensures
        addr == machine(*sim).instr_addr(),
{
    sim.prefetch_pc()
}

} // verus!
