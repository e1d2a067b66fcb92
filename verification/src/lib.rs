//! An emulator core for the Intel 8080 microprocessor: an instruction decoder and a
//! fetch-decode-execute engine, with the behaviour of both stated as contracts over a
//! mathematical model of the processor and proved.

pub mod cpu;
