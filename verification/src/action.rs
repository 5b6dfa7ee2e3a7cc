//! What a scale unit reports about itself.

use crate::error::ParseError;
use crate::text::same_text;
use std::str::FromStr;
use vstd::prelude::*;

verus! {

/// The events that a unit reports.
#[derive(Debug, Clone, Copy, PartialEq, Eq, Hash, Structural)]
pub enum Action {
    Served,
    RanOut,
    Refilled,
    Starting,
    Heartbeat,
    Offline,
}

impl Action {
    /// The word under which the action is written.
    pub open spec fn tag(self) -> Seq<char> {
        match self {
            Action::Served => "Served"@,
            Action::RanOut => "RanOut"@,
            Action::Refilled => "Refilled"@,
            Action::Starting => "Starting"@,
            Action::Heartbeat => "Heartbeat"@,
            Action::Offline => "Offline"@,
        }
    }

    /// The action that a word names, if any.
    pub open spec fn of_tag(tag: Seq<char>) -> Option<Action> {
        if tag == "Served"@ {
            Some(Action::Served)
        } else if tag == "RanOut"@ {
            Some(Action::RanOut)
        } else if tag == "Refilled"@ {
            Some(Action::Refilled)
        } else if tag == "Starting"@ {
            Some(Action::Starting)
        } else if tag == "Heartbeat"@ {
            Some(Action::Heartbeat)
        } else if tag == "Offline"@ {
            Some(Action::Offline)
        } else {
            None
        }
    }

    /// The word of the action, as text.
    pub fn name(&self) -> (text: &'static str)
        ensures
            text@ == self.tag(),
    {
        match self {
            Action::Served => "Served",
            Action::RanOut => "RanOut",
            Action::Refilled => "Refilled",
            Action::Starting => "Starting",
            Action::Heartbeat => "Heartbeat",
            Action::Offline => "Offline",
        }
    }

    /// The word of the action, as an owned text.
    pub fn to_string(&self) -> (text: String)
        ensures
            text@ == self.tag(),
    {
        self.name().to_owned()
    }

    /// Reads an action from its word; any other text is refused.
    pub fn from_str(s: &str) -> (parsed: Result<Action, ParseError>)
        ensures
            parsed == match Action::of_tag(s@) {
                Some(action) => Ok::<Action, ParseError>(action),
                None => Err(ParseError::UnknownAction),
            },
    {
        if same_text(s, "Served") {
            Ok(Action::Served)
        } else if same_text(s, "RanOut") {
            Ok(Action::RanOut)
        } else if same_text(s, "Refilled") {
            Ok(Action::Refilled)
        } else if same_text(s, "Starting") {
            Ok(Action::Starting)
        } else if same_text(s, "Heartbeat") {
            Ok(Action::Heartbeat)
        } else if same_text(s, "Offline") {
            Ok(Action::Offline)
        } else {
            Err(ParseError::UnknownAction)
        }
    }
}

impl FromStr for Action {
    type Err = ParseError;

    fn from_str(s: &str) -> (parsed: Result<Self, Self::Err>)
        ensures
            parsed == match Action::of_tag(s@) {
                Some(action) => Ok::<Action, ParseError>(action),
                None => Err(ParseError::UnknownAction),
            },
    {
        Action::from_str(s)
    }
}

/// Every action is read back from its own word.
pub proof fn lemma_action_tags(action: Action)
    ensures
        Action::of_tag(action.tag()) == Some(action),
{
    reveal_strlit("Served");
    reveal_strlit("RanOut");
    reveal_strlit("Refilled");
    reveal_strlit("Starting");
    reveal_strlit("Heartbeat");
    reveal_strlit("Offline");
    assert("Served"@.len() == 6 && "RanOut"@.len() == 6 && "Refilled"@.len() == 8);
    assert("Starting"@.len() == 8 && "Heartbeat"@.len() == 9 && "Offline"@.len() == 7);
    assert("Served"@[0] == 'S' && "RanOut"@[0] == 'R');
    assert("Refilled"@[0] == 'R' && "Starting"@[0] == 'S');
}

} // verus!
