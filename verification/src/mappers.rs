//! The mappers (memory bank controllers) of NES cartridges.

pub mod mapper0;

pub mod mapper1;

pub mod mapper2;

pub mod mapper3;

pub mod mapper66;

pub mod mapper4;

pub mod mapper9;
