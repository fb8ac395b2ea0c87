use vstd::prelude::*;

verus! {

/// A payload delivered through the pipeline: an owned byte buffer.
pub enum Container {
    Data(Vec<u8>),
}

/// Identifies which channel an item count refers to.
pub enum Channel {
    Data(usize),
    Image(usize),
}

/// A failure cause carried as text, tagged by the stage it came from.
pub enum ErrCause {
    Data(String),
    Image(String),
}

} // verus!
