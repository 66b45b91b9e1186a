//! A bridge between the invoking terminal and a freshly allocated
//! pseudoterminal: the decisions of the byte relay, of the allocation sequence
//! and of the terminal-mode discipline, each verified.

use vstd::prelude::*;

pub mod allocation;
pub mod pipe;
pub mod proxy;
pub mod terminal;

verus! {

/// Largest number of bytes moved by a single read.
pub const BUF_CAPACITY: usize = 2048;

} // verus!
