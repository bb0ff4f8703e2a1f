//! A manifest document as a tree of named tables and typed values.
//!
//! The document is modelled by [`TomlValue`]: strings, booleans, integers,
//! arrays, and tables of named entries.  Values of other kinds (floats,
//! datetimes) never carry build settings and are kept only as [`TomlValue::Other`].
//! The mathematical model of a tree is a [`TomlNode`]; a table is modelled as
//! the sequence of its entries, looked up front to back.

use vstd::prelude::*;

verus! {

/// One value of a manifest document.
#[derive(Debug, PartialEq)]
pub enum TomlValue {
    /// A string.
    Str(String),
    /// A boolean.
    Bool(bool),
    /// An integer.
    Int(i64),
    /// An array of values, in document order.
    Array(Vec<TomlValue>),
    /// A table: named entries, in document order.
    Table(Vec<(String, TomlValue)>),
    /// A value of any other kind; the extraction never reads one.
    Other,
}

/// Mathematical model of a [`TomlValue`].
pub enum TomlNode {
    Str(Seq<char>),
    Bool(bool),
    Int(int),
    Array(Seq<TomlNode>),
    Table(Seq<(Seq<char>, TomlNode)>),
    Other,
}

impl TomlValue {
    /// The model of this value.
    pub open spec fn model(self) -> TomlNode
        decreases self,
    {
        match self {
            TomlValue::Str(s) => TomlNode::Str(s@),
            TomlValue::Bool(b) => TomlNode::Bool(b),
            TomlValue::Int(i) => TomlNode::Int(i as int),
            TomlValue::Array(items) => TomlNode::Array(seq_model(items@)),
            TomlValue::Table(entries) => TomlNode::Table(entries_model(entries@)),
            TomlValue::Other => TomlNode::Other,
        }
    }
}

/// The models of a sequence of values, in order.
pub open spec fn seq_model(items: Seq<TomlValue>) -> Seq<TomlNode>
    decreases items,
{
    if items.len() == 0 {
        Seq::empty()
    } else {
        seq![items[0].model()] + seq_model(items.drop_first())
    }
}

/// The models of a sequence of table entries, in order.
pub open spec fn entries_model(entries: Seq<(String, TomlValue)>) -> Seq<(Seq<char>, TomlNode)>
    decreases entries,
{
    if entries.len() == 0 {
        Seq::empty()
    } else {
        seq![(entries[0].0@, entries[0].1.model())] + entries_model(entries.drop_first())
    }
}

impl TomlNode {
    /// The entries of this node, if it is a table.
    pub open spec fn table_entries(self) -> Option<Seq<(Seq<char>, TomlNode)>> {
        match self {
            TomlNode::Table(entries) => Some(entries),
            _ => None,
        }
    }

    /// The characters of this node, if it is a string.
    pub open spec fn str_chars(self) -> Option<Seq<char>> {
        match self {
            TomlNode::Str(s) => Some(s),
            _ => None,
        }
    }

    /// The value of this node, if it is a boolean.
    pub open spec fn bool_value(self) -> Option<bool> {
        match self {
            TomlNode::Bool(b) => Some(b),
            _ => None,
        }
    }

    /// The items of this node, if it is an array.
    pub open spec fn array_items(self) -> Option<Seq<TomlNode>> {
        match self {
            TomlNode::Array(items) => Some(items),
            _ => None,
        }
    }
}

impl View for TomlValue {
    type V = TomlNode;

    open spec fn view(&self) -> TomlNode {
        self.model()
    }
}

pub proof fn lemma_seq_model(items: Seq<TomlValue>)
    ensures
        seq_model(items).len() == items.len(),
        forall|i: int| 0 <= i < items.len() ==> seq_model(items)[i] == items[i].model(),
    decreases items,
{
    if items.len() > 0 {
        lemma_seq_model(items.drop_first());
    }
}

pub proof fn lemma_entries_model(entries: Seq<(String, TomlValue)>)
    ensures
        entries_model(entries).len() == entries.len(),
        forall|i: int| 0 <= i < entries.len() ==> entries_model(entries)[i]
            == (entries[i].0@, entries[i].1.model()),
    decreases entries,
{
    if entries.len() > 0 {
        lemma_entries_model(entries.drop_first());
    }
}

/// The value of the first entry named `key`, if the table has one.
pub open spec fn entry_lookup(entries: Seq<(Seq<char>, TomlNode)>, key: Seq<char>) -> Option<
    TomlNode,
>
    decreases entries,
{
    if entries.len() == 0 {
        None
    } else if entries[0].0 == key {
        Some(entries[0].1)
    } else {
        entry_lookup(entries.drop_first(), key)
    }
}

/// Looking a key up ignores entries before position `i` when none of them
/// carries that key.
pub proof fn lemma_entry_lookup_skip(entries: Seq<(Seq<char>, TomlNode)>, key: Seq<char>, i: int)
    requires
        0 <= i <= entries.len(),
        forall|j: int| 0 <= j < i ==> entries[j].0 != key,
    ensures
        entry_lookup(entries, key) == entry_lookup(entries.skip(i), key),
    decreases i,
{
    if i > 0 {
        assert(entries[0].0 != key);
        lemma_entry_lookup_skip(entries.drop_first(), key, i - 1);
        assert(entries.drop_first().skip(i - 1) =~= entries.skip(i));
    } else {
        assert(entries.skip(0) =~= entries);
    }
}

impl TomlValue {
    /// The entries of this value, if it is a table.
    pub fn as_table(&self) -> (r: Option<&Vec<(String, TomlValue)>>)
        ensures
            match r {
                Some(entries) => self@ == TomlNode::Table(entries_model(entries@)),
                None => !(self@ is Table),
            },
    {
        match self {
            TomlValue::Table(entries) => Some(entries),
            _ => None,
        }
    }
}

/// The value of the first entry of `entries` named `key`, if any.
pub fn table_lookup<'a>(entries: &'a Vec<(String, TomlValue)>, key: &String) -> (r: Option<
    &'a TomlValue,
>)
    ensures
        match r {
            Some(v) => entry_lookup(entries_model(entries@), key@) == Some(v@),
            None => entry_lookup(entries_model(entries@), key@) is None,
        },
{
    proof {
        lemma_entries_model(entries@);
    }
    let ghost m = entries_model(entries@);
    let n = entries.len();
    for i in 0..n
        invariant
            n == entries.len(),
            m == entries_model(entries@),
            m.len() == n,
            forall|j: int| 0 <= j < n ==> m[j] == (entries@[j].0@, entries@[j].1.model()),
            forall|j: int| 0 <= j < i ==> m[j].0 != key@,
    {
        let e = &entries[i];
        if e.0 == *key {
            proof {
                lemma_entry_lookup_skip(m, key@, i as int);
                assert(m.skip(i as int)[0] == m[i as int]);
                assert(entry_lookup(m.skip(i as int), key@) == Some(m[i as int].1));
            }
            return Some(&e.1);
        }
    }
    proof {
        lemma_entry_lookup_skip(m, key@, n as int);
        assert(m.skip(n as int) =~= Seq::<(Seq<char>, TomlNode)>::empty());
    }
    None
}

} // verus!
