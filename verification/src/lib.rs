//! A cycle-stepped model of the DMG handheld: CPU, memory bus, picture and
//! sound units, timer, joypad and cartridge bank controllers.
//!
//! Every component advances one master clock at a time and the memory bus is
//! handed to each of them explicitly, so the whole machine is a function from
//! one state to the next.
use vstd::prelude::*;

pub mod gameboy;

verus! {

} // verus!
