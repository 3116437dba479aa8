//! What the user prefers for each service: how many replicas, which kind of
//! service, which node port and which kind of controller. The answers are
//! kept as they were typed; the descriptors read them.

use crate::text::same_text;
use vstd::prelude::*;

verus! {

/// The answers given for one service. A question that was not answered is
/// `None`.
#[derive(Clone, Debug, PartialEq, Eq)]
pub struct PreferenceEntry {
    pub replicas: Option<String>,
    pub service: Option<String>,
    pub nodeport: Option<String>,
    pub controller: Option<String>,
}

/// The answers of a [`PreferenceEntry`], as text.
pub ghost struct PreferenceView {
    pub replicas: Option<Seq<char>>,
    pub service: Option<Seq<char>>,
    pub nodeport: Option<Seq<char>>,
    pub controller: Option<Seq<char>>,
}

/// The text of an answer, if there is one.
pub open spec fn answer(given: Option<String>) -> Option<Seq<char>> {
    match given {
        Some(s) => Some(s@),
        None => None,
    }
}

impl View for PreferenceEntry {
    type V = PreferenceView;

    open spec fn view(&self) -> PreferenceView {
        PreferenceView {
            replicas: answer(self.replicas),
            service: answer(self.service),
            nodeport: answer(self.nodeport),
            controller: answer(self.controller),
        }
    }
}

impl PreferenceEntry {
    /// The entry that holds the four answers.
    pub fn new(replicas: String, service: String, nodeport: String, controller: String) -> (r: Self)
        ensures
            r@ == (PreferenceView {
                replicas: Some(replicas@),
                service: Some(service@),
                nodeport: Some(nodeport@),
                controller: Some(controller@),
            }),
    {
        PreferenceEntry {
            replicas: Some(replicas),
            service: Some(service),
            nodeport: Some(nodeport),
            controller: Some(controller),
        }
    }
}

/// The preferences of one named service.
#[derive(Clone, Debug)]
struct NamedPreference {
    name: String,
    entry: PreferenceEntry,
}

/// The preferences of a run, by service name.
#[derive(Clone, Debug)]
pub struct Preferences {
    entries: Vec<NamedPreference>,
}

/// The mapping that a list of named preferences stands for: a later entry
/// replaces an earlier one of the same name.
spec fn mapping_of(entries: Seq<NamedPreference>) -> Map<Seq<char>, PreferenceView>
    decreases entries.len(),
{
    if entries.len() == 0 {
        Map::empty()
    } else {
        mapping_of(entries.drop_last()).insert(entries.last().name@, entries.last().entry@)
    }
}

impl View for Preferences {
    type V = Map<Seq<char>, PreferenceView>;

    closed spec fn view(&self) -> Map<Seq<char>, PreferenceView> {
        mapping_of(self.entries@)
    }
}

impl Preferences {
    /// Preferences for no service.
    pub fn new() -> (r: Self)
        ensures
            r@ == Map::<Seq<char>, PreferenceView>::empty(),
    {
        Preferences { entries: Vec::new() }
    }

    /// Records `entry` for the service `name`, in place of what was recorded
    /// for it before.
    pub fn insert(&mut self, name: String, entry: PreferenceEntry)
        ensures
            final(self)@ == old(self)@.insert(name@, entry@),
    {
        let ghost before = self.entries@;
        self.entries.push(NamedPreference { name, entry });
        assert(self.entries@.drop_last() =~= before);
    }

    /// The preferences recorded for the service `name`.
    pub fn get(&self, name: &str) -> (r: Option<&PreferenceEntry>)
        ensures
            r matches Some(entry) ==> self@.contains_key(name@) && self@[name@] == entry@,
            r is None ==> !self@.contains_key(name@),
    {
        let mut i: usize = self.entries.len();
        assert(self.entries@.take(i as int) =~= self.entries@);
        while i > 0
            invariant
                i <= self.entries.len(),
                mapping_of(self.entries@).contains_key(name@) == mapping_of(
                    self.entries@.take(i as int),
                ).contains_key(name@),
                mapping_of(self.entries@)[name@] == mapping_of(self.entries@.take(i as int))[name@],
            decreases i,
        {
            assert(self.entries@.take(i as int).drop_last() =~= self.entries@.take(i - 1));
            assert(self.entries@.take(i as int).last() == self.entries@[i - 1]);
            let named: &NamedPreference = &self.entries[i - 1];
            if same_text(named.name.as_str(), name) {
                return Some(&named.entry);
            }
            i = i - 1;
        }
        assert(self.entries@.take(0).len() == 0);
        None
    }
}

} // verus!
