//! The scenarios of the command line: what the first word after the
//! program's name asks for.

use crate::text::same_text;
use vstd::prelude::*;

verus! {

/// Reads a value of `T` from a word of the command line.
pub trait EnumHelper<T> {
    /// The value that the word `action` names, if it names one.
    spec fn named(action: Seq<char>) -> Option<T>;

    /// Reads the value that `action` names.
    fn from_string(action: &str) -> (r: Option<T>)
        ensures
            r == Self::named(action@),
    ;
}

/// The main scenarios, as in `capoomobi init`.
#[derive(Clone, Copy, Debug, PartialEq, Eq, Structural)]
pub enum Scenarios {
    Init,
    Help,
    Generate,
    Project,
}

/// The subjects of the help scenario, as in `capoomobi help init`.
#[derive(Clone, Copy, Debug, PartialEq, Eq, Structural)]
pub enum HelpScenarios {
    Init,
    Generate,
    Project,
    Global,
}

impl EnumHelper<Scenarios> for Scenarios {
    open spec fn named(action: Seq<char>) -> Option<Scenarios> {
        if action == "init"@ {
            Some(Scenarios::Init)
        } else if action == "help"@ {
            Some(Scenarios::Help)
        } else if action == "generate"@ {
            Some(Scenarios::Generate)
        } else if action == "project"@ {
            Some(Scenarios::Project)
        } else {
            None
        }
    }

    fn from_string(action: &str) -> (r: Option<Scenarios>) {
        if same_text(action, "init") {
            Some(Scenarios::Init)
        } else if same_text(action, "help") {
            Some(Scenarios::Help)
        } else if same_text(action, "generate") {
            Some(Scenarios::Generate)
        } else if same_text(action, "project") {
            Some(Scenarios::Project)
        } else {
            None
        }
    }
}

impl EnumHelper<HelpScenarios> for HelpScenarios {
    /// Any word that names no scenario asks for the global help.
    open spec fn named(action: Seq<char>) -> Option<HelpScenarios> {
        if action == "init"@ {
            Some(HelpScenarios::Init)
        } else if action == "generate"@ {
            Some(HelpScenarios::Generate)
        } else if action == "project"@ {
            Some(HelpScenarios::Project)
        } else {
            Some(HelpScenarios::Global)
        }
    }

    fn from_string(action: &str) -> (r: Option<HelpScenarios>) {
        if same_text(action, "init") {
            Some(HelpScenarios::Init)
        } else if same_text(action, "generate") {
            Some(HelpScenarios::Generate)
        } else if same_text(action, "project") {
            Some(HelpScenarios::Project)
        } else {
            Some(HelpScenarios::Global)
        }
    }
}

} // verus!
