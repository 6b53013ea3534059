//! The structural wire model: a request argument is a record, an ordered list
//! of named scalar fields.
use vstd::prelude::*;

verus! {

/// One field value as it travels on the wire.
#[derive(Debug, Clone, PartialEq, Eq)]
pub enum Scalar {
    Null,
    Bool(bool),
    Int(usize),
    Str(String),
}

/// The mathematical value of a [`Scalar`].
pub enum Datum {
    Null,
    Bool(bool),
    Int(nat),
    Text(Seq<char>),
}

impl View for Scalar {
    type V = Datum;

    open spec fn view(&self) -> Datum {
        match self {
            Scalar::Null => Datum::Null,
            Scalar::Bool(b) => Datum::Bool(*b),
            Scalar::Int(n) => Datum::Int(*n as nat),
            Scalar::Str(s) => Datum::Text(s@),
        }
    }
}

/// The model of a record: each field's key and value.
pub open spec fn record_model(r: Seq<(String, Scalar)>) -> Seq<(Seq<char>, Datum)> {
    r.map_values(|f: (String, Scalar)| (f.0@, f.1@))
}

/// The value of the first field of `m` named `key`, if there is one.
pub open spec fn field_of(m: Seq<(Seq<char>, Datum)>, key: Seq<char>) -> Option<Datum>
    decreases m.len(),
{
    if m.len() == 0 {
        None
    } else if m[0].0 == key {
        Some(m[0].1)
    } else {
        field_of(m.drop_first(), key)
    }
}

/// An optional text as a field value: `Null` when unset.
pub open spec fn opt_text_datum(v: Option<Seq<char>>) -> Datum {
    match v {
        Some(s) => Datum::Text(s),
        None => Datum::Null,
    }
}

/// An optional flag as a field value: `Null` when unset.
pub open spec fn opt_bool_datum(v: Option<bool>) -> Datum {
    match v {
        Some(b) => Datum::Bool(b),
        None => Datum::Null,
    }
}

/// Reads an optional text back: an absent or `Null` field is unset, a text
/// is set, anything else does not decode.
pub open spec fn decode_opt_text(d: Option<Datum>) -> Option<Option<Seq<char>>> {
    match d {
        None => Some(None),
        Some(Datum::Null) => Some(None),
        Some(Datum::Text(s)) => Some(Some(s)),
        _ => None,
    }
}

/// Reads an optional flag back, in the same way as [`decode_opt_text`].
pub open spec fn decode_opt_bool(d: Option<Datum>) -> Option<Option<bool>> {
    match d {
        None => Some(None),
        Some(Datum::Null) => Some(None),
        Some(Datum::Bool(b)) => Some(Some(b)),
        _ => None,
    }
}

/// Finds the first field of `fields` named `key`.
pub fn find_field<'a>(fields: &'a Vec<(String, Scalar)>, key: &String) -> (r: Option<&'a Scalar>)
    ensures
        match r {
            Some(s) => field_of(record_model(fields@), key@) == Some(s@),
            None => field_of(record_model(fields@), key@) is None,
        },
{
    let ghost m = record_model(fields@);
    assert(m.subrange(0, m.len() as int) =~= m);
    let mut i: usize = 0;
    while i < fields.len()
        invariant
            i <= fields@.len(),
            m == record_model(fields@),
            m.len() == fields@.len(),
            field_of(m, key@) == field_of(m.subrange(i as int, m.len() as int), key@),
        decreases fields@.len() - i,
    {
        let ghost rest = m.subrange(i as int, m.len() as int);
        assert(rest.drop_first() =~= m.subrange(i + 1, m.len() as int));
        if fields[i].0 == *key {
            return Some(&fields[i].1);
        }
        i = i + 1;
    }
    assert(m.subrange(i as int, m.len() as int).len() == 0);
    None
}

} // verus!
