//! The link state reported alongside a sample.

use vstd::prelude::*;

verus! {

#[derive(Debug, Clone, Copy, PartialEq, Eq, Structural)]
pub enum ImuStatus {
    Connected,
    NotConnected,
}

} // verus!
