//! The options of the `generate` scenario.

use crate::scenes::EnumHelper;
use crate::text::{lowercase, lowercase_of, same_text};
use vstd::prelude::*;

verus! {

/// The options that `generate` takes.
#[derive(Clone, Copy, Debug, PartialEq, Eq, Structural)]
pub enum GenerateOptions {
    Print,
    Ingress,
}

/// The option that the lowercase word `word` names.
pub open spec fn option_named(word: Seq<char>) -> Option<GenerateOptions> {
    if word == "--print"@ {
        Some(GenerateOptions::Print)
    } else if word == "--ingress"@ {
        Some(GenerateOptions::Ingress)
    } else {
        None
    }
}

impl EnumHelper<GenerateOptions> for GenerateOptions {
    /// An option is named whatever the case of its letters. The empty word
    /// names none.
    open spec fn named(action: Seq<char>) -> Option<GenerateOptions> {
        if action.len() == 0 {
            None
        } else {
            option_named(lowercase_of(action))
        }
    }

    fn from_string(action: &str) -> (r: Option<GenerateOptions>) {
        if action.is_empty() {
            return None;
        }
        let lowered: String = lowercase(action);
        lowered_option(lowered.as_str())
    }
}

/// The option that the lowercase word `word` names.
pub fn lowered_option(word: &str) -> (r: Option<GenerateOptions>)
    ensures
        r == option_named(word@),
{
    if same_text(word, "--print") {
        Some(GenerateOptions::Print)
    } else if same_text(word, "--ingress") {
        Some(GenerateOptions::Ingress)
    } else {
        None
    }
}

/// The word at position `idx` of `options`, if there is one.
pub fn retrieve_options_by_idx(options: &Vec<String>, idx: usize) -> (r: Option<String>)
    ensures
        r matches Some(word) ==> idx < options@.len() && word@ == options@[idx as int]@,
        r is None ==> idx >= options@.len(),
{
    if idx < options.len() {
        Some(options[idx].clone())
    } else {
        None
    }
}

/// The option that the first word of `options` names; none where there is
/// no word, and where the first word is empty.
pub fn retrieve_cmd_options(options: &Vec<String>) -> (r: Option<GenerateOptions>)
    ensures
        options@.len() == 0 ==> r is None,
        options@.len() > 0 ==> r == GenerateOptions::named(options@[0]@),
{
    match retrieve_options_by_idx(options, 0) {
        Some(p) => GenerateOptions::from_string(p.as_str()),
        None => None,
    }
}

} // verus!
