//! Runtime support for AArch64 boards of the Raspberry Pi 4 class: the translation table
//! builder and MMU bring-up, memory layout policies, exception dispatch and decoding,
//! interrupt masking, boot-time register values, and the register logic of the GIC, GPIO and
//! PL011 UART. Hardware state is handled as plain register values: the functions here decide
//! what to write, and the caller performs it.
pub mod attributes;
pub mod layout;
pub mod translation_table;
pub mod mmu;
pub mod memory;
pub mod exception;
pub mod masking;
pub mod pac;
pub mod gic;
pub mod serial;
pub mod gpio;
pub mod entry;
