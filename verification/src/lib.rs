//! Register-level logic of a NUCLEO-F401RE firmware: the ADC state word and
//! its encodings, the DMA2 stream 0 control logic, and the user LED.
//!
//! Every peripheral register is handled here as a plain `u32` image; the
//! firmware reads the hardware register, hands the value to this library, and
//! writes back what the library computed.
#![allow(non_snake_case)]
#![allow(non_camel_case_types)]

pub mod adc;
pub mod dma;
pub mod led;
