//! Process inspection and code-injection engine for 64-bit Windows targets.
//!
//! Everything here is pure computation over plain values: the PE image
//! parser, relocation and import patching of a mapped image, the machine-code
//! builders, the decoders of kernel tables, the region walker's stepping rule
//! and the plans that drive each injection strategy. The operating-system
//! calls that feed these functions live outside the library.

mod bytes;
pub mod handles;
pub mod imports;
pub mod inject;
pub mod mapping;
pub mod memory;
pub mod network;
pub mod pe;
pub mod shellcode;
mod text;
pub mod process;

pub use process::{format_uptime, get_priority_name, random_title};

