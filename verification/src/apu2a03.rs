//! The audio processing unit's channels: the register-driven state of each
//! channel and how its timers and counters advance. Turning channel levels
//! into samples is left to the program around the library.

pub mod tone_source;

pub mod length_counter;

pub mod envelope;

pub mod sequencer;

pub mod dmc;


pub mod triangle;

pub mod square;

pub mod noise;

pub mod apu;
