use vstd::prelude::*;
use crate::display::{blank_cells, Chip8Display};

verus! {

/// Bytes of addressable memory.
pub const MEMORY_SIZE: usize = 4096;

/// Number of general-purpose registers, V0 to VF.
pub const REGISTER_COUNT: usize = 16;

/// Depth of the return-address stack.
pub const STACK_DEPTH: usize = 16;

/// The machine's state as plain values.
pub struct EmuView {
    pub memory: Seq<u8>,
    pub v_registers: Seq<u8>,
    pub stack: Seq<u16>,
    pub display: Seq<bool>,
    pub addr_pointer: u16,
    pub program_counter: u16,
    pub stack_pointer: u8,
    pub delay_register: u8,
    pub sound_register: u8,
}

/// The state of a machine that has just been switched on: memory,
/// registers and stack zeroed, every pixel off.
pub open spec fn power_on_state() -> EmuView {
    EmuView {
        memory: Seq::new(MEMORY_SIZE as nat, |i: int| 0u8),
        v_registers: Seq::new(REGISTER_COUNT as nat, |i: int| 0u8),
        stack: Seq::new(STACK_DEPTH as nat, |i: int| 0u16),
        display: blank_cells(),
        addr_pointer: 0,
        program_counter: 0,
        stack_pointer: 0,
        delay_register: 0,
        sound_register: 0,
    }
}

/// The virtual machine: memory, registers, the return stack and the
/// framebuffer it draws on.
pub struct Chip8Emu {
    memory: [u8; MEMORY_SIZE],
    /// V0 is index 0 of this array, VF index 15.
    v_registers: [u8; REGISTER_COUNT],
    /// Addresses to return to when a subroutine finishes.
    stack: [u16; STACK_DEPTH],
    display_register: Chip8Display,
    addr_pointer: u16,
    /// Address of the instruction being executed.
    program_counter: u16,
    /// Top of the return stack.
    stack_pointer: u8,
    delay_register: u8,
    sound_register: u8,
}

impl View for Chip8Emu {
    type V = EmuView;

    closed spec fn view(&self) -> EmuView {
        EmuView {
            memory: self.memory@,
            v_registers: self.v_registers@,
            stack: self.stack@,
            display: self.display_register@,
            addr_pointer: self.addr_pointer,
            program_counter: self.program_counter,
            stack_pointer: self.stack_pointer,
            delay_register: self.delay_register,
            sound_register: self.sound_register,
        }
    }
}

impl Chip8Emu {
    /// A machine in its power-on state.
    pub fn new() -> (r: Self)
        ensures
            r@ == power_on_state(),
    {
        let r = Chip8Emu {
            memory: [0u8; MEMORY_SIZE],
            v_registers: [0u8; REGISTER_COUNT],
            stack: [0u16; STACK_DEPTH],
            display_register: Chip8Display::new(),
            addr_pointer: 0,
            program_counter: 0,
            stack_pointer: 0,
            delay_register: 0,
            sound_register: 0,
        };
        assert(r@.memory =~= power_on_state().memory);
        assert(r@.v_registers =~= power_on_state().v_registers);
        assert(r@.stack =~= power_on_state().stack);
        r
    }

    /// Runs the loaded program. No instruction is executed yet: the call
    /// succeeds and leaves the machine as it was.
    pub fn run(&mut self) -> (r: Result<(), ()>)
        ensures
            r is Ok,
            final(self)@ == old(self)@,
    {
        Ok(())
    }

    /// The framebuffer the machine draws on.
    pub fn get_display(&self) -> (r: &Chip8Display)
        ensures
            r@ == self@.display,
    {
        &self.display_register
    }

    /// The framebuffer, for writing; the rest of the machine is untouched.
    pub fn get_display_mut(&mut self) -> (r: &mut Chip8Display)
        ensures
            r@ == old(self)@.display,
            final(self)@ == (EmuView { display: final(r)@, ..old(self)@ }),
    {
        &mut self.display_register
    }
}

} // verus!
