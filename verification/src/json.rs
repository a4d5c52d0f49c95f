//! The document model: an untyped, JSON-like tree of plain values.
//!
//! The store is schemaless, so a document body is an open tree:
//! null, booleans, integers, floating-point numbers (carried as their
//! IEEE-754 bit pattern, so the library never computes on them),
//! strings, arrays, and objects.  An object is an ordered field list;
//! lookup takes the first field with a matching name.

use vstd::prelude::*;

verus! {

/// A JSON-like document value.
#[derive(Debug, PartialEq)]
pub enum DocValue {
    Null,
    Bool(bool),
    Int(i64),
    /// A floating-point number, as the bit pattern of its 64-bit IEEE-754
    /// representation.
    Float(u64),
    Text(String),
    Array(Vec<DocValue>),
    Object(Vec<(String, DocValue)>),
}

/// First-match lookup of a field name in an object's field list.
pub open spec fn spec_lookup(fields: Seq<(String, DocValue)>, name: Seq<char>) -> Option<DocValue>
    decreases fields.len(),
{
    if fields.len() == 0 {
        None
    } else if fields[0].0@ == name {
        Some(fields[0].1)
    } else {
        spec_lookup(fields.drop_first(), name)
    }
}

/// The field list of `v` when it is an object; empty otherwise.
pub open spec fn spec_fields_of(v: DocValue) -> Seq<(String, DocValue)> {
    match v {
        DocValue::Object(fields) => fields@,
        _ => Seq::empty(),
    }
}

impl DocValue {
    /// Look a field up by name.  Only objects have fields: on any other
    /// shape the result is `None`.
    pub fn get_field<'a>(&'a self, name: &str) -> (r: Option<&'a DocValue>)
        ensures
            match r {
                Some(v) => spec_lookup(spec_fields_of(*self), name@) == Some(*v),
                None => spec_lookup(spec_fields_of(*self), name@) is None,
            },
    {
        match self {
            DocValue::Object(fields) => lookup_field(fields, name),
            _ => None,
        }
    }
}

/// First-match lookup of `name` in `fields`.
pub fn lookup_field<'a>(fields: &'a Vec<(String, DocValue)>, name: &str) -> (r: Option<
    &'a DocValue,
>)
    ensures
        match r {
            Some(v) => spec_lookup(fields@, name@) == Some(*v),
            None => spec_lookup(fields@, name@) is None,
        },
{
    let name_owned: String = name.to_owned();
    let n = fields.len();
    let mut i: usize = 0;
    proof {
        assert(fields@.skip(0) =~= fields@);
    }
    while i < n
        invariant
            i <= n,
            n == fields@.len(),
            name_owned@ == name@,
            spec_lookup(fields@, name@) == spec_lookup(fields@.skip(i as int), name@),
        decreases n - i,
    {
        proof {
            assert(fields@.skip(i as int)[0] == fields@[i as int]);
        }
        if fields[i].0.eq(&name_owned) {
            return Some(&fields[i].1);
        }
        proof {
            assert(fields@.skip(i as int).drop_first() =~= fields@.skip(i + 1));
        }
        i = i + 1;
    }
    proof {
        assert(fields@.skip(n as int) =~= Seq::<(String, DocValue)>::empty());
    }
    None
}

} // verus!
