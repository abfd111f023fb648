//! Key codes on a platform without a keyboard.

use std::str::FromStr;
use vstd::prelude::*;

verus! {

/// The code of a key. Without a keyboard there is only one.
#[derive(Clone, Copy, Debug, PartialEq, Eq, Structural)]
pub struct KeyCode;

impl FromStr for KeyCode {
    type Err = ();

    /// Reads a key code from its name. Every name names the one key code
    /// there is.
    fn from_str(_name: &str) -> (code: Result<KeyCode, ()>)
        ensures
            code == Ok::<KeyCode, ()>(KeyCode),
    {
        Ok(KeyCode)
    }
}

} // verus!
