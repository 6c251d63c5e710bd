//! Core of a cycle-counting emulator for an 8-bit handheld game console:
//! CPU, memory map with ROM bank switching, interrupt controller, LCD
//! timing state machine, hardware timer, sound registers and joypad state.
//!
//! Rendering, audio output, input polling and file handling are host
//! concerns and live outside this crate.

pub mod interrupt;

pub mod cpu;

pub mod joypad;

pub mod timer;

pub mod lcd;

pub mod sound;

pub mod mem;
