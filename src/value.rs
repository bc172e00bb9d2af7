//! The self-describing tree that commands are encoded to and decoded from.
//!
//! A variant without payload is a bare string tag; a variant with a payload
//! is a mapping of one entry, from the tag to the payload; named fields are a
//! mapping from field names to values.
use vstd::prelude::*;

verus! {

/// The mathematical form of a [`Value`].
pub enum Model {
    Str(Seq<char>),
    UInt(nat),
    Mapping(Seq<(Seq<char>, Model)>),
}

/// An encoded value: a string, an unsigned integer, or an ordered mapping.
#[derive(Debug)]
pub enum Value {
    Str(String),
    UInt(u64),
    Mapping(Vec<(String, Value)>),
}

impl View for Value {
    type V = Model;

    open spec fn view(&self) -> Model
        decreases self,
    {
        match self {
            Value::Str(s) => Model::Str(s@),
            Value::UInt(n) => Model::UInt(*n as nat),
            Value::Mapping(es) => Model::Mapping(
                Seq::new(
                    es.len() as nat,
                    |i: int|
                        if 0 <= i < es.len() {
                            (es[i].0@, es[i].1.view())
                        } else {
                            (Seq::empty(), Model::UInt(0))
                        },
                ),
            ),
        }
    }
}

/// Why an encoded value could not be decoded.
#[derive(Clone, Copy, Debug, PartialEq, Eq, Hash, Structural)]
pub enum DecodeError {
    /// A value has another shape than the one expected at its place.
    WrongShape,
    /// A required field of a mapping is absent.
    MissingField,
    /// An integer is too large for its destination.
    TooLarge,
}

/// The entries of a mapping made of `es`.
pub open spec fn entries_of(es: Vec<(String, Value)>) -> Seq<(Seq<char>, Model)> {
    Value::Mapping(es)@->Mapping_0
}

/// What the entries of a mapping are, entry by entry.
pub proof fn lemma_entries_of(es: Vec<(String, Value)>)
    ensures
        entries_of(es).len() == es.len(),
        forall|i: int| 0 <= i < es.len() ==> #[trigger] entries_of(es)[i] == (es[i].0@, es[i].1@),
{
    reveal_with_fuel(<Value as View>::view, 2);
}

/// A mapping of one entry.
pub open spec fn entry_model(key: Seq<char>, value: Model) -> Model {
    Model::Mapping(seq![(key, value)])
}

/// The value of the first entry of `es` whose key is `key`.
pub open spec fn find_field(es: Seq<(Seq<char>, Model)>, key: Seq<char>) -> Option<Model>
    decreases es.len(),
{
    if es.len() == 0 {
        None
    } else if es[0].0 == key {
        Some(es[0].1)
    } else {
        find_field(es.drop_first(), key)
    }
}

proof fn lemma_find_field_skip(es: Seq<(Seq<char>, Model)>, key: Seq<char>, i: int)
    requires
        0 <= i <= es.len(),
        forall|j: int| 0 <= j < i ==> es[j].0 != key,
    ensures
        find_field(es, key) == find_field(es.subrange(i, es.len() as int), key),
    decreases i,
{
    if i > 0 {
        let rest = es.drop_first();
        assert forall|j: int| 0 <= j < i - 1 implies rest[j].0 != key by {
            assert(rest[j] == es[j + 1]);
        }
        lemma_find_field_skip(rest, key, i - 1);
        assert(rest.subrange(i - 1, rest.len() as int) =~= es.subrange(i, es.len() as int));
    } else {
        assert(es.subrange(0, es.len() as int) =~= es);
    }
}

/// Whether `s` holds the same characters as `t`.
pub fn text_eq(s: &String, t: &str) -> (r: bool)
    ensures
        r == (s@ == t@),
{
    *s == String::from_str(t)
}

/// A string value.
pub fn str_value(s: &str) -> (r: Value)
    ensures
        r@ == Model::Str(s@),
{
    Value::Str(String::from_str(s))
}

/// A mapping of one entry, from `key` to `value`.
pub fn entry(key: &str, value: Value) -> (r: Value)
    ensures
        r@ == entry_model(key@, value@),
{
    let ghost m = value@;
    let es = vec![(String::from_str(key), value)];
    let ghost es_v = es;
    let r = Value::Mapping(es);
    proof {
        lemma_entries_of(es_v);
    }
    assert(r@ == entry_model(key@, m)) by {
        assert(r@->Mapping_0 =~= seq![(key@, m)]);
    }
    r
}

/// The value of the first entry of `es` under `key`.
pub fn find_entry<'a>(es: &'a Vec<(String, Value)>, key: &str) -> (r: Option<&'a Value>)
    ensures
        r is None <==> find_field(entries_of(*es), key@) is None,
        r matches Some(v) ==> find_field(entries_of(*es), key@) == Some(v@),
{
    let ghost ms = entries_of(*es);
    proof {
        lemma_entries_of(*es);
    }
    let mut i: usize = 0;
    while i < es.len()
        invariant
            i <= es.len(),
            ms == entries_of(*es),
            ms.len() == es.len(),
            forall|j: int| 0 <= j < i ==> ms[j].0 != key@,
        decreases es.len() - i,
    {
        proof {
            lemma_entries_of(*es);
        }
        if text_eq(&es[i].0, key) {
            proof {
                lemma_find_field_skip(ms, key@, i as int);
            }
            return Some(&es[i].1);
        }
        i = i + 1;
    }
    proof {
        lemma_find_field_skip(ms, key@, i as int);
    }
    None
}

} // verus!
