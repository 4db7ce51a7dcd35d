use vstd::prelude::*;

use crate::cpu::{Cpu, CpuState};

verus! {

/// The console buttons a controller reports. Bit positions in the controller
/// state run A, B, Select, Start, Up, Down, Left, Right from the least
/// significant bit up, which is the order the shift register hands them out.
#[derive(Clone, Copy, Debug, PartialEq, Eq, Structural)]
pub enum Mapping {
    Up,
    Down,
    Left,
    Right,
    A,
    B,
    Start,
    Select,
}

/// The controller-state bit a button occupies.
pub open spec fn button_bit(mapping: Mapping) -> u8 {
    match mapping {
        Mapping::Up => 0x10,
        Mapping::Down => 0x20,
        Mapping::Left => 0x40,
        Mapping::Right => 0x80,
        Mapping::A => 0x01,
        Mapping::B => 0x02,
        Mapping::Select => 0x04,
        Mapping::Start => 0x08,
    }
}

impl Cpu {
    /// Sets or clears the controller-state bit for one button.
    pub fn update_button_state(&mut self, mapping: Mapping, pressed: bool)
        ensures
            final(self)@ == (CpuState {
                controller_state: if pressed {
                    old(self)@.controller_state | button_bit(mapping)
                } else {
                    old(self)@.controller_state & !button_bit(mapping)
                },
                ..old(self)@
            }),
    {
        let bit: u8 = match mapping {
            Mapping::Up => 0x10,
            Mapping::Down => 0x20,
            Mapping::Left => 0x40,
            Mapping::Right => 0x80,
            Mapping::A => 0x01,
            Mapping::B => 0x02,
            Mapping::Select => 0x04,
            Mapping::Start => 0x08,
        };
        if pressed {
            self.controller_state |= bit;
        } else {
            self.controller_state &= !bit;
        }
    }

    /// Strobe port write: a value with bit 0 set latches the controller state
    /// into the shift register; any other value changes nothing.
    pub fn write_strobe(&mut self, value: u8)
        ensures
            final(self)@ == (CpuState {
                shift_register: if value & 1 != 0 {
                    old(self)@.controller_state
                } else {
                    old(self)@.shift_register
                },
                ..old(self)@
            }),
    {
        if value & 1 != 0 {
            self.shift_register = self.controller_state;
        }
    }

    /// Strobe port read: shifts one bit out of the shift register, low bit
    /// first, and returns it.
    pub fn read_strobe(&mut self) -> (r: u8)
        ensures
            r == old(self)@.shift_register & 1,
            final(self)@ == (CpuState {
                shift_register: old(self)@.shift_register >> 1,
                ..old(self)@
            }),
    {
        let bit: u8 = self.shift_register & 1;
        self.shift_register = self.shift_register >> 1;
        bit
    }
}

} // verus!
