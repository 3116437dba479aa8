//! The shape of a parsed YAML document, as far as a Compose file needs it:
//! string scalars, lists and mappings. Every other value is kept as
//! [`YamlNode::Other`].

use crate::text::same_text;
use vstd::prelude::*;

verus! {

/// One node of a parsed YAML document.
#[derive(Debug, PartialEq, Eq)]
pub enum YamlNode {
    /// A string scalar.
    Text(String),
    /// A sequence of nodes.
    List(Vec<YamlNode>),
    /// A mapping, its entries in the order of the document.
    Mapping(Vec<YamlEntry>),
    /// Anything else: a number, a boolean, null, an alias, a missing value.
    Other,
}

/// One entry of a mapping.
#[derive(Debug, PartialEq, Eq)]
pub struct YamlEntry {
    pub key: YamlNode,
    pub value: YamlNode,
}

/// What a [`YamlNode`] holds.
pub ghost enum YamlTree {
    Text(Seq<char>),
    List(Seq<YamlTree>),
    Mapping(Seq<(YamlTree, YamlTree)>),
    Other,
}

/// The tree that a node holds.
pub open spec fn tree_of(node: YamlNode) -> YamlTree
    decreases node,
{
    match node {
        YamlNode::Text(s) => YamlTree::Text(s@),
        YamlNode::List(v) => YamlTree::List(
            Seq::new(
                v@.len(),
                |i: int|
                    if 0 <= i < v@.len() {
                        tree_of(v@[i])
                    } else {
                        YamlTree::Other
                    },
            ),
        ),
        YamlNode::Mapping(v) => YamlTree::Mapping(
            Seq::new(
                v@.len(),
                |i: int|
                    if 0 <= i < v@.len() {
                        (tree_of(v@[i].key), tree_of(v@[i].value))
                    } else {
                        (YamlTree::Other, YamlTree::Other)
                    },
            ),
        ),
        YamlNode::Other => YamlTree::Other,
    }
}

impl View for YamlNode {
    type V = YamlTree;

    open spec fn view(&self) -> YamlTree {
        tree_of(*self)
    }
}

/// The trees of a sequence of nodes.
pub open spec fn trees(nodes: Seq<YamlNode>) -> Seq<YamlTree> {
    Seq::new(nodes.len(), |i: int| nodes[i]@)
}

/// The key and the value of each entry, as trees.
pub open spec fn pairs(entries: Seq<YamlEntry>) -> Seq<(YamlTree, YamlTree)> {
    Seq::new(entries.len(), |i: int| (entries[i].key@, entries[i].value@))
}

/// The value that `entries` gives to the string key `key`. Where the key
/// occurs more than once, the last entry counts.
pub open spec fn lookup(entries: Seq<(YamlTree, YamlTree)>, key: Seq<char>) -> Option<YamlTree>
    decreases entries.len(),
{
    if entries.len() == 0 {
        None
    } else if entries.last().0 == YamlTree::Text(key) {
        Some(entries.last().1)
    } else {
        lookup(entries.drop_last(), key)
    }
}

impl YamlTree {
    /// The tree under the string key `key` of a mapping; none where the
    /// tree is no mapping or has no such key.
    pub open spec fn field(self, key: Seq<char>) -> Option<YamlTree> {
        match self {
            YamlTree::Mapping(entries) => lookup(entries, key),
            _ => None,
        }
    }
}

impl YamlNode {
    /// The string that this node holds, if it is a string scalar.
    pub fn as_str(&self) -> (r: Option<&str>)
        ensures
            r matches Some(s) ==> self@ == YamlTree::Text(s@),
            r is None ==> !(self@ is Text),
    {
        match self {
            YamlNode::Text(s) => Some(s.as_str()),
            _ => None,
        }
    }

    /// The items that this node holds, if it is a list.
    pub fn as_vec(&self) -> (r: Option<&Vec<YamlNode>>)
        ensures
            r matches Some(v) ==> self@ == YamlTree::List(trees(v@)),
            r is None ==> !(self@ is List),
    {
        match self {
            YamlNode::List(v) => {
                assert(self@->List_0 =~= trees(v@));
                Some(v)
            },
            _ => None,
        }
    }

    /// The entries that this node holds, if it is a mapping.
    pub fn as_hash(&self) -> (r: Option<&Vec<YamlEntry>>)
        ensures
            r matches Some(v) ==> self@ == YamlTree::Mapping(pairs(v@)),
            r is None ==> !(self@ is Mapping),
    {
        match self {
            YamlNode::Mapping(v) => {
                assert(match self@ {
                    YamlTree::Mapping(entries) => entries =~= pairs(v@),
                    _ => false,
                });
                Some(v)
            },
            _ => None,
        }
    }

    /// The node under the string key `key`, if this node is a mapping that
    /// has the key.
    pub fn get(&self, key: &str) -> (r: Option<&YamlNode>)
        ensures
            r matches Some(node) ==> self@.field(key@) == Some(node@),
            r is None ==> self@.field(key@) is None,
    {
        match self.as_hash() {
            Some(v) => {
                let mut i: usize = v.len();
                assert(pairs(v@).take(i as int) =~= pairs(v@));
                while i > 0
                    invariant
                        i <= v.len(),
                        self@.field(key@) == lookup(pairs(v@), key@),
                        lookup(pairs(v@), key@) == lookup(pairs(v@).take(i as int), key@),
                    decreases i,
                {
                    assert(pairs(v@).take(i as int).drop_last() =~= pairs(v@).take(i - 1));
                    assert(pairs(v@).take(i as int).last() == pairs(v@)[i - 1]);
                    let entry: &YamlEntry = &v[i - 1];
                    match entry.key.as_str() {
                        Some(k) => {
                            if same_text(k, key) {
                                return Some(&entry.value);
                            }
                        },
                        None => {},
                    }
                    i = i - 1;
                }
                assert(pairs(v@).take(0).len() == 0);
                None
            },
            None => None,
        }
    }
}

} // verus!
