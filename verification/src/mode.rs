//! The input modes of the host application.

use vstd::prelude::*;

verus! {

/// The mode in which a key sequence is read.
#[derive(Clone, Copy, Debug, PartialEq, Eq, Hash, Structural)]
pub enum Mode {
    Normal,
    Search,
    Command,
    PopUp,
    Visual,
}

} // verus!
