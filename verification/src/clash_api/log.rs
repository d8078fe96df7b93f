//! One message of the daemon's log stream.

use vstd::prelude::*;

verus! {

#[derive(Debug, Clone, PartialEq, Eq)]
pub struct LogItem {
    /// The level the daemon logged at.
    pub kind: String,
    /// The text of the message.
    pub payload: String,
}

} // verus!
