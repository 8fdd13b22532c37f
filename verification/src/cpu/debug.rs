use vstd::prelude::*;
use crate::cpu::cpu::{power_on, CPU};
use crate::cpu::registers::Registers;
use crate::cpu::step::{new_events, step_spec};
use crate::mmu::bus::{Bus, BusEvent};
use crate::mmu::mmio::MMIO;

verus! {

/// The processor and memory state of a single step CPU test case: the registers, the
/// interrupt master enable and interrupt enable when given, and the RAM cells as
/// (address, value) pairs.
#[derive(Clone, Debug, PartialEq, Eq)]
pub struct State {
    pub pc: u16,
    pub sp: u16,
    pub a: u8,
    pub b: u8,
    pub c: u8,
    pub d: u8,
    pub e: u8,
    pub f: u8,
    pub h: u8,
    pub l: u8,
    pub ime: Option<u8>,
    pub ie: Option<u8>,
    pub ram: Vec<Vec<u16>>,
}

impl From<State> for Registers {
    /// The register file of a test state.
    fn from(value: State) -> (r: Self) {
        Registers {
            A: value.a,
            F: value.f,
            B: value.b,
            C: value.c,
            D: value.d,
            E: value.e,
            H: value.h,
            L: value.l,
            SP: value.sp,
            PC: value.pc,
        }
    }
}

impl vstd::std_specs::convert::FromSpecImpl<State> for Registers {
    open spec fn obeys_from_spec() -> bool {
        true
    }

    open spec fn from_spec(value: State) -> Registers {
        Registers {
            A: value.a,
            F: value.f,
            B: value.b,
            C: value.c,
            D: value.d,
            E: value.e,
            H: value.h,
            L: value.l,
            SP: value.sp,
            PC: value.pc,
        }
    }
}

/// The register file of a test state.
pub open spec fn registers_of(s: State) -> Registers {
    Registers {
        A: s.a,
        F: s.f,
        B: s.b,
        C: s.c,
        D: s.d,
        E: s.e,
        H: s.h,
        L: s.l,
        SP: s.sp,
        PC: s.pc,
    }
}

/// The processor a test case starts from: as at power on, with the registers of `initial`.
pub open spec fn case_start(initial: State) -> CPU {
    CPU { registers: registers_of(initial), ..power_on() }
}

/// The writes that load the RAM cells of a test case, in order (each value cut to a byte).
pub open spec fn case_writes(ram: Seq<Vec<u16>>) -> Seq<BusEvent> {
    Seq::new(ram.len(), |i: int| BusEvent::Write { address: ram[i]@[0], value: (ram[i]@[1] % 256) as u8 })
}

/// The reads that give back the RAM cells `cells` (address, value) of a result.
pub open spec fn case_reads(cells: Seq<Vec<u16>>) -> Seq<BusEvent> {
    Seq::new(cells.len(), |i: int| BusEvent::Read { address: cells[i]@[0], value: cells[i]@[1] as u8 })
}

/// `bus` is the bus of a run of the test case `initial` that gave `r`, and `t` the events of
/// its instruction: the bus started as at power on; it took the writes of the RAM cells, then
/// the events of one instruction from `case_start(initial)`, then the reads of the cells of
/// `r`; and `r` holds the registers after that instruction.
pub open spec fn case_run(initial: State, r: State, bus: Bus, t: Seq<BusEvent>) -> bool {
    &&& bus.wf()
    &&& exists|b0: Bus| #[trigger] b0.at_power_on() && b0@ == bus.history@[0]
    &&& bus.trace@ == case_writes(initial.ram@) + t + case_reads(r.ram@)
    &&& step_spec(case_start(initial), t).1 == t
    &&& registers_of(r) == step_spec(case_start(initial), t).0.registers
}

/// Runs a single step test case: a fresh processor takes the registers of `initial`, a
/// fresh bus gets the RAM cells of `initial` written in order (each value cut to a byte),
/// and one instruction runs. Gives the state after it: the registers, no IME or IE, and for
/// each of `addresses` the cell as the bus then reads it.
pub fn run_case(initial: &State, addresses: &[u16]) -> (r: State)
    requires
        forall|i: int| 0 <= i < initial.ram@.len() ==> #[trigger] initial.ram@[i]@.len() >= 2,
    ensures
        exists|bus: Bus, t: Seq<BusEvent>| #[trigger] case_run(*initial, r, bus, t),
        r.ime is None,
        r.ie is None,
        r.ram@.len() == addresses@.len(),
        forall|i: int|
            0 <= i < addresses@.len() ==> (#[trigger] r.ram@[i])@.len() == 2 && r.ram@[i]@[0]
                == addresses@[i] && r.ram@[i]@[1] < 256,
{
    let mut cpu = CPU::new();
    cpu.registers = Registers {
        A: initial.a,
        F: initial.f,
        B: initial.b,
        C: initial.c,
        D: initial.d,
        E: initial.e,
        H: initial.h,
        L: initial.l,
        SP: initial.sp,
        PC: initial.pc,
    };
    let mut bus = Bus::new();
    let ghost b0 = bus;
    let ghost writes = case_writes(initial.ram@);
    let mut i: usize = 0;
    assert(writes.take(0) =~= Seq::<BusEvent>::empty());
    while i < initial.ram.len()
        invariant
            i <= initial.ram@.len(),
            bus.wf(),
            b0.at_power_on(),
            bus.history@[0] == b0@,
            writes == case_writes(initial.ram@),
            bus.trace@ == writes.take(i as int),
            forall|k: int| 0 <= k < initial.ram@.len() ==> #[trigger] initial.ram@[k]@.len() >= 2,
        decreases initial.ram@.len() - i,
    {
        let cell = &initial.ram[i];
        assert(cell@.len() >= 2);
        let value: u8 = (cell[1] % 256) as u8;
        bus.write(cell[0], value);
        assert(bus.trace@ =~= writes.take(i + 1));
        i = i + 1;
    }
    assert(writes.take(i as int) =~= writes);
    let ghost t0 = bus.trace@;
    let ghost c0 = cpu;
    assert(c0 == case_start(*initial));
    cpu.tick(&mut bus);
    let ghost tw = new_events(t0, bus.trace@);
    proof {
        assert(step_spec(c0, tw).1 =~= tw);
        assert(bus.trace@ =~= writes + tw);
    }
    let mut ram: Vec<Vec<u16>> = Vec::new();
    let mut j: usize = 0;
    while j < addresses.len()
        invariant
            j <= addresses@.len(),
            bus.wf(),
            b0.at_power_on(),
            bus.history@[0] == b0@,
            bus.trace@ == writes + tw + case_reads(ram@),
            ram@.len() == j,
            step_spec(case_start(*initial), tw).1 == tw,
            cpu.registers == step_spec(case_start(*initial), tw).0.registers,
            forall|k: int|
                0 <= k < j ==> (#[trigger] ram@[k])@.len() == 2 && ram@[k]@[0] == addresses@[k]
                    && ram@[k]@[1] < 256,
        decreases addresses@.len() - j,
    {
        let v = bus.read(addresses[j]);
        let cell: Vec<u16> = vec![addresses[j], v as u16];
        let ghost before = ram@;
        ram.push(cell);
        proof {
            assert(ram@[j as int]@ =~= seq![addresses@[j as int], v as u16]);
            assert(case_reads(ram@) =~= case_reads(before).push(BusEvent::Read { address: addresses@[j as int], value: v }));
        }
        j = j + 1;
    }
    let r = State {
        pc: cpu.registers.PC,
        sp: cpu.registers.SP,
        a: cpu.registers.A,
        b: cpu.registers.B,
        c: cpu.registers.C,
        d: cpu.registers.D,
        e: cpu.registers.E,
        f: cpu.registers.F,
        h: cpu.registers.H,
        l: cpu.registers.L,
        ime: None,
        ie: None,
        ram,
    };
    assert(registers_of(r) == step_spec(case_start(*initial), tw).0.registers);
    assert(case_run(*initial, r, bus, tw));
    r
}

/// The value of a field that a test case leaves out.
pub fn empty() -> (r: Option<u8>)
    ensures
        r is None,
{
    None
}

} // verus!
