//! The closed set of control commands and their textual parsing.

use vstd::prelude::*;
use vstd::string::StrSliceExecFns;

verus! {

/// A control command delivered to the engine as a text payload.
#[derive(Debug, PartialEq, Eq, Structural, Clone, Copy)]
pub enum Action {
    Stop,
    Play,
    Done,
    Tick,
}

/// What parsing a command payload yields: each of the four exact
/// (case-sensitive) command words maps to its action; anything else fails.
pub open spec fn spec_parse_action(s: Seq<char>) -> Result<Action, ()> {
    if s == "PLAY"@ {
        Ok(Action::Play)
    } else if s == "STOP"@ {
        Ok(Action::Stop)
    } else if s == "DONE"@ {
        Ok(Action::Done)
    } else if s == "TICK"@ {
        Ok(Action::Tick)
    } else {
        Err(())
    }
}

/// Compares two text payloads character by character.
fn str_eq(a: &str, b: &str) -> (r: bool)
    ensures
        r == (a@ == b@),
{
    let alen = a.unicode_len();
    let blen = b.unicode_len();
    if alen != blen {
        return false;
    }
    let mut i: usize = 0;
    while i < alen
        invariant
            i <= alen,
            alen == a@.len(),
            alen == b@.len(),
            forall|j: int| 0 <= j < i ==> a@[j] == b@[j],
        decreases alen - i,
    {
        if a.get_char(i) != b.get_char(i) {
            return false;
        }
        i = i + 1;
    }
    proof {
        assert(a@ =~= b@);
    }
    true
}

impl Action {
    /// Parses a textual command into the closed action set; unrecognized
    /// text is rejected rather than mapped to a default action.
    pub fn from_str(input: &str) -> (r: Result<Action, ()>)
        ensures
            r == spec_parse_action(input@),
    {
        if str_eq(input, "PLAY") {
            Ok(Action::Play)
        } else if str_eq(input, "STOP") {
            Ok(Action::Stop)
        } else if str_eq(input, "DONE") {
            Ok(Action::Done)
        } else if str_eq(input, "TICK") {
            Ok(Action::Tick)
        } else {
            Err(())
        }
    }
}

} // verus!
