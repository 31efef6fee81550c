//! The option store: the immutable three-tier reference of options that
//! queries are matched against.

use vstd::prelude::*;

verus! {

/// One entry of the reference hierarchy. The variant records which optional
/// fields the entry carries: every entry has a human-readable `label` and a
/// `value` used as the lookup key for the next tier; terminal entries add a
/// `usage` command string, and some of those add a caveat note `nb`.
#[derive(Debug, Clone)]
pub enum OptionValue {
    TierThree { label: String, value: String, usage: String, nb: String },
    TierTwo { label: String, value: String, usage: String },
    TierOne { label: String, value: String },
}

impl OptionValue {
    /// The human-readable phrase fragment of this entry.
    pub open spec fn spec_label(self) -> Seq<char> {
        match self {
            OptionValue::TierOne { label, .. } => label@,
            OptionValue::TierTwo { label, .. } => label@,
            OptionValue::TierThree { label, .. } => label@,
        }
    }

    /// The key of this entry, used to look up the next tier.
    pub open spec fn spec_value(self) -> Seq<char> {
        match self {
            OptionValue::TierOne { value, .. } => value@,
            OptionValue::TierTwo { value, .. } => value@,
            OptionValue::TierThree { value, .. } => value@,
        }
    }

    /// The usage string this entry presents; a `TierOne` entry carries none
    /// of its own and falls back to its `value`.
    pub open spec fn spec_usage(self) -> Seq<char> {
        match self {
            OptionValue::TierTwo { usage, .. } => usage@,
            OptionValue::TierThree { usage, .. } => usage@,
            OptionValue::TierOne { value, .. } => value@,
        }
    }

    pub fn get_label(&self) -> (r: &String)
        ensures
            r@ == self.spec_label(),
    {
        match self {
            OptionValue::TierOne { label, .. } => label,
            OptionValue::TierTwo { label, .. } => label,
            OptionValue::TierThree { label, .. } => label,
        }
    }

    pub fn get_value(&self) -> (r: &String)
        ensures
            r@ == self.spec_value(),
    {
        match self {
            OptionValue::TierOne { value, .. } => value,
            OptionValue::TierTwo { value, .. } => value,
            OptionValue::TierThree { value, .. } => value,
        }
    }

    pub fn get_usage(&self) -> (r: &String)
        ensures
            r@ == self.spec_usage(),
    {
        match self {
            OptionValue::TierTwo { usage, .. } => usage,
            OptionValue::TierThree { usage, .. } => usage,
            OptionValue::TierOne { value, .. } => value,
        }
    }

    /// The entry's label and key are both non-empty.
    pub open spec fn well_formed(self) -> bool {
        self.spec_label().len() > 0 && self.spec_value().len() > 0
    }
}

/// The first entry of `entries` whose key reads `key`, if any.
pub open spec fn assoc_get(
    entries: Seq<(String, Vec<OptionValue>)>,
    key: Seq<char>,
) -> Option<Seq<OptionValue>>
    decreases entries.len(),
{
    if entries.len() == 0 {
        None
    } else if entries[0].0@ == key {
        Some(entries[0].1@)
    } else {
        assoc_get(entries.drop_first(), key)
    }
}

/// An ordered mapping from key strings to sequences of option entries,
/// kept as an association list so that lookup order is explicit: the first
/// entry with a matching key wins.
#[derive(Debug)]
pub struct OptionMap {
    pub entries: Vec<(String, Vec<OptionValue>)>,
}

impl OptionMap {
    /// What this map associates with `key`: the node sequence of the first
    /// entry keyed `key`, or nothing.
    pub open spec fn spec_get(self, key: Seq<char>) -> Option<Seq<OptionValue>> {
        assoc_get(self.entries@, key)
    }

    pub fn get(&self, key: &String) -> (r: Option<&Vec<OptionValue>>)
        ensures
            match r {
                Some(v) => self.spec_get(key@) == Some::<Seq<OptionValue>>(v@),
                None => self.spec_get(key@) is None,
            },
    {
        let n = self.entries.len();
        proof {
            assert(self.entries@.skip(0) =~= self.entries@);
        }
        for i in 0..n
            invariant
                n == self.entries@.len(),
                assoc_get(self.entries@, key@) == assoc_get(self.entries@.skip(i as int), key@),
        {
            proof {
                assert(self.entries@.skip(i as int).drop_first() =~= self.entries@.skip(
                    i as int + 1,
                ));
            }
            if self.entries[i].0 == *key {
                return Some(&self.entries[i].1);
            }
        }
        None
    }

    /// Every entry in every node sequence of the map is well formed.
    pub open spec fn well_formed(self) -> bool {
        forall|i: int, j: int|
            0 <= i < self.entries@.len() && 0 <= j < self.entries@[i].1@.len()
                ==> (#[trigger] self.entries@[i].1@[j]).well_formed()
    }
}

/// The full three-tier reference: an ordered primary sequence and the
/// secondary and tertiary maps it indirects into. Order is significant
/// everywhere; it is the tie-break order of the matcher.
#[derive(Debug)]
pub struct Data {
    pub primary: Vec<OptionValue>,
    pub secondary: OptionMap,
    pub tertiary: OptionMap,
}

impl Data {
    /// Every option entry reachable from the store has a non-empty label
    /// and a non-empty key.
    pub open spec fn well_formed(self) -> bool {
        &&& forall|i: int|
            0 <= i < self.primary@.len() ==> (#[trigger] self.primary@[i]).well_formed()
        &&& self.secondary.well_formed()
        &&& self.tertiary.well_formed()
    }

    /// Structural validation performed once at store construction.
    pub fn validate(&self) -> (r: bool)
        ensures
            r == self.well_formed(),
    {
        let ok1 = nodes_well_formed(&self.primary);
        let ok2 = map_well_formed(&self.secondary);
        let ok3 = map_well_formed(&self.tertiary);
        ok1 && ok2 && ok3
    }
}

fn node_well_formed(node: &OptionValue) -> (r: bool)
    ensures
        r == node.well_formed(),
{
    let label_ok = !node.get_label().as_str().is_empty();
    let value_ok = !node.get_value().as_str().is_empty();
    label_ok && value_ok
}

fn nodes_well_formed(nodes: &Vec<OptionValue>) -> (r: bool)
    ensures
        r == forall|i: int| 0 <= i < nodes@.len() ==> (#[trigger] nodes@[i]).well_formed(),
{
    let n = nodes.len();
    for i in 0..n
        invariant
            n == nodes@.len(),
            forall|j: int| 0 <= j < i ==> (#[trigger] nodes@[j]).well_formed(),
    {
        if !node_well_formed(&nodes[i]) {
            return false;
        }
    }
    true
}

fn map_well_formed(m: &OptionMap) -> (r: bool)
    ensures
        r == m.well_formed(),
{
    let n = m.entries.len();
    for i in 0..n
        invariant
            n == m.entries@.len(),
            forall|k: int, j: int|
                0 <= k < i && 0 <= j < m.entries@[k].1@.len()
                    ==> (#[trigger] m.entries@[k].1@[j]).well_formed(),
    {
        if !nodes_well_formed(&m.entries[i].1) {
            return false;
        }
    }
    true
}

} // verus!
