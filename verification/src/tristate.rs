//! A three-valued boolean: `True`, `False`, or `Unknown`.
//!
//! `Unknown` records that a field was never reported (in a status snapshot) or
//! must be left unchanged (in a partial-update actuation command).  It is a
//! distinct value, never coerced to `False`.

use vstd::prelude::*;

verus! {

/// `true`, `false`, or `unknown`.
#[derive(Clone, Copy, Debug, PartialEq, Eq, Structural)]
pub enum TriState {
    True,
    False,
    Unknown,
}

impl TriState {
    /// The tri-state value denoted by an optional boolean, with `None`
    /// standing for `Unknown`.
    pub open spec fn spec_from_option(b: Option<bool>) -> TriState {
        match b {
            Some(true) => TriState::True,
            Some(false) => TriState::False,
            None => TriState::Unknown,
        }
    }

    /// Converts an optional boolean, mapping `None` to `Unknown`.
    pub fn from_option(b: Option<bool>) -> (r: TriState)
        ensures
            r == TriState::spec_from_option(b),
    {
        match b {
            Some(true) => TriState::True,
            Some(false) => TriState::False,
            None => TriState::Unknown,
        }
    }
}

} // verus!
