//! Decoding of a PCI(e) function's configuration space: the 256-byte standard
//! header, Base Address Registers, and the traditional and extended capability
//! chains, over any byte accessor — a live register window or a captured dump.

pub mod access;
pub mod bar;
pub mod bdf;
pub mod caps;
pub mod error;
pub mod function;
pub mod ids;
pub mod kernel;
pub mod text;
pub mod vdc;
