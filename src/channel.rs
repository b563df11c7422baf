//! The input channels of the two chip variants.
use vstd::prelude::*;

use crate::protocol::{command_spec, lemma_command_layout};

verus! {

/// Input channels of the MCP3008, in hardware address order.
#[derive(Clone, Copy, Debug, PartialEq, Eq, Structural)]
pub enum Channels8 {
    CH0,
    CH1,
    CH2,
    CH3,
    CH4,
    CH5,
    CH6,
    CH7,
}

impl Channels8 {
    /// The hardware address of the channel: its position in the declaration.
    pub open spec fn address(self) -> u8 {
        match self {
            Channels8::CH0 => 0,
            Channels8::CH1 => 1,
            Channels8::CH2 => 2,
            Channels8::CH3 => 3,
            Channels8::CH4 => 4,
            Channels8::CH5 => 5,
            Channels8::CH6 => 6,
            Channels8::CH7 => 7,
        }
    }

    /// The hardware address of the channel.
    pub fn addr(self) -> (r: u8)
        ensures
            r == self.address(),
            r < 8,
    {
        match self {
            Channels8::CH0 => 0,
            Channels8::CH1 => 1,
            Channels8::CH2 => 2,
            Channels8::CH3 => 3,
            Channels8::CH4 => 4,
            Channels8::CH5 => 5,
            Channels8::CH6 => 6,
            Channels8::CH7 => 7,
        }
    }
}

/// Input channels of the MCP3004, in hardware address order.
#[derive(Clone, Copy, Debug, PartialEq, Eq, Structural)]
pub enum Channels4 {
    CH0,
    CH1,
    CH2,
    CH3,
}

impl Channels4 {
    /// The hardware address of the channel: its position in the declaration.
    pub open spec fn address(self) -> u8 {
        match self {
            Channels4::CH0 => 0,
            Channels4::CH1 => 1,
            Channels4::CH2 => 2,
            Channels4::CH3 => 3,
        }
    }

    /// The hardware address of the channel.
    pub fn addr(self) -> (r: u8)
        ensures
            r == self.address(),
            r < 4,
    {
        match self {
            Channels4::CH0 => 0,
            Channels4::CH1 => 1,
            Channels4::CH2 => 2,
            Channels4::CH3 => 3,
        }
    }
}

/// Each MCP3008 channel is addressed by its declaration position, below eight,
/// and its request carries `(0b1000 | address) << 4` as command byte.
pub proof fn lemma_channel8_command(ch: Channels8)
    ensures
        ch.address() < 8,
        command_spec(ch.address()) == ((0b1000u8 | ch.address()) << 4u8) as u8,
        command_spec(ch.address()) == 0x80 + 16 * ch.address(),
{
    lemma_command_layout(ch.address());
}

/// Each MCP3004 channel is addressed by its declaration position, below four,
/// and its request carries `(0b1000 | address) << 4` as command byte.
pub proof fn lemma_channel4_command(ch: Channels4)
    ensures
        ch.address() < 4,
        command_spec(ch.address()) == ((0b1000u8 | ch.address()) << 4u8) as u8,
        command_spec(ch.address()) == 0x80 + 16 * ch.address(),
{
    lemma_command_layout(ch.address());
}

} // verus!
