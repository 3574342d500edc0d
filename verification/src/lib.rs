//! A multi-target debugging and emulation core: a software-emulated MSP430
//! target with a breakpoint/watch protocol, a live-process target driven
//! through OS tracing primitives, and a process-memory pattern scanner.

use std::collections::HashMap;
use vstd::prelude::*;

pub mod debug;
pub mod errors;
pub mod memory;
pub mod msp430;
pub mod scanner;
pub mod x86_64;

verus! {

/// Rendering boundary: a value that can describe itself as display text,
/// given optional context and a table of known functions. The core never
/// implements this; disassembly front ends do.
pub trait SyntaxedRender<A, T, F> {
    fn render(&self, context: Option<&T>, function_table: &HashMap<A, F>) -> String;
}

} // verus!
