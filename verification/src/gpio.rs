//! Rumble through the cartridge's own motor.
//!
//! A cartridge with a motor wires it to bit 3 of its general purpose I/O port.
//! Nothing tells whether a cartridge has one: on a cartridge without a motor the
//! writes go nowhere.

use vstd::prelude::*;

use crate::console::Console;

verus! {

/// The word that opens the cartridge's I/O port.
pub const GPIO_ENABLED: u16 = 0x0001;

/// The direction word that makes the motor's line an output.
pub const GPIO_WRITE: u16 = 0x0008;

/// The data word that turns the motor.
pub const GPIO_MOTOR_ON: u16 = 0x0008;

/// The data word that lets the motor rest.
pub const GPIO_MOTOR_OFF: u16 = 0x0000;

/// The motor on the cartridge.
#[derive(Debug)]
pub struct Gpio;

impl Console {
    /// The console with the cartridge's port open, the motor's line an output and
    /// the motor turning, and all else as it was.
    pub open spec fn rumbling(self) -> Self {
        Console {
            gpio_enable: GPIO_ENABLED,
            gpio_direction: GPIO_WRITE,
            gpio_data: GPIO_MOTOR_ON,
            ..self
        }
    }

    /// The console with the motor's line low, and all else as it was: the port stays
    /// open and the line stays an output.
    pub open spec fn resting(self) -> Self {
        Console { gpio_data: GPIO_MOTOR_OFF, ..self }
    }
}

impl Gpio {
    /// Turns the motor, until [`Gpio::stop`] is called.
    pub fn start(&self, console: &mut Console)
        ensures
            *final(console) == old(console).rumbling(),
    {
        console.gpio_enable = GPIO_ENABLED;
        console.gpio_direction = GPIO_WRITE;
        console.gpio_data = GPIO_MOTOR_ON;
    }

    /// Lets the motor rest.
    pub fn stop(&self, console: &mut Console)
        ensures
            *final(console) == old(console).resting(),
    {
        console.gpio_data = GPIO_MOTOR_OFF;
    }
}

} // verus!
