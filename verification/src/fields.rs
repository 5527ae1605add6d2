//! Finding the field of a struct that holds the password, for code that writes
//! a [`PasswordAuth`](crate::password::PasswordAuth) impl from the struct's
//! declaration.
//!
//! The field is looked for by name: `pass` or `password`, unless the caller
//! names others. Exactly one field of the struct must bear one of the names.

use vstd::prelude::*;
use vstd::string::*;

verus! {

/// Why no password field was picked.
#[derive(Debug, PartialEq, Eq)]
pub enum FieldError {
    /// No field bears one of the names.
    Missing,
    /// More than one field bears one of the names; these are the positions of
    /// the first two.
    Ambiguous { first: usize, second: usize },
}

/// `field` is one of `names`.
pub open spec fn is_named(names: Seq<String>, field: Seq<char>) -> bool {
    exists|j: int| 0 <= j < names.len() && (#[trigger] names[j])@ == field
}

/// None of the fields before position `end` bears one of the names, the one at
/// `except` set aside.
pub open spec fn none_named(fields: Seq<String>, names: Seq<String>, end: int, except: int) -> bool {
    forall|k: int| 0 <= k < end && k != except ==> !is_named(names, (#[trigger] fields[k])@)
}

/// The names to look for where the caller gives none: `pass` and `password`.
pub fn default_names() -> (names: Vec<String>)
    ensures
        names@.len() == 2,
        names@[0]@ == "pass"@,
        names@[1]@ == "password"@,
{
    let mut names: Vec<String> = Vec::new();
    names.push(String::from_str("pass"));
    names.push(String::from_str("password"));
    names
}

/// The names to look for: those given, or the default ones.
pub fn names_or_default(given: Option<Vec<String>>) -> (names: Vec<String>)
    ensures
        given matches Some(list) ==> names@ == list@,
        given is None ==> names@.len() == 2 && names@[0]@ == "pass"@ && names@[1]@ == "password"@,
{
    match given {
        Some(list) => list,
        None => default_names(),
    }
}

/// Whether `field` is one of `names`.
pub fn bears_name(names: &Vec<String>, field: &String) -> (found: bool)
    ensures
        found == is_named(names@, field@),
{
    let mut j: usize = 0;
    while j < names.len()
        invariant
            j <= names.len(),
            forall|k: int| 0 <= k < j ==> (#[trigger] names@[k])@ != field@,
        decreases names.len() - j,
    {
        if names[j] == *field {
            return true;
        }
        j += 1;
    }
    false
}

/// Picks the password field among `fields`, the names of a struct's fields in
/// the order of their declaration.
///
/// The result is the position of the one field that bears one of `names`.
/// Where none does, it is `Missing`; where several do, `Ambiguous` with the
/// positions of the first two.
pub fn password_field(fields: &Vec<String>, names: &Vec<String>) -> (r: Result<usize, FieldError>)
    ensures
        match r {
            Ok(at) => {
                &&& at < fields.len()
                &&& is_named(names@, fields@[at as int]@)
                &&& none_named(fields@, names@, fields.len() as int, at as int)
            },
            Err(FieldError::Missing) => none_named(fields@, names@, fields.len() as int, -1),
            Err(FieldError::Ambiguous { first, second }) => {
                &&& first < second < fields.len()
                &&& is_named(names@, fields@[first as int]@)
                &&& is_named(names@, fields@[second as int]@)
                &&& none_named(fields@, names@, second as int, first as int)
            },
        },
{
    let mut found: Option<usize> = None;
    let mut i: usize = 0;
    while i < fields.len()
        invariant
            i <= fields.len(),
            match found {
                Some(at) => {
                    &&& at < i
                    &&& is_named(names@, fields@[at as int]@)
                    &&& none_named(fields@, names@, i as int, at as int)
                },
                None => none_named(fields@, names@, i as int, -1),
            },
        decreases fields.len() - i,
    {
        if bears_name(names, &fields[i]) {
            match found {
                Some(first) => {
                    return Err(FieldError::Ambiguous { first, second: i });
                },
                None => {
                    found = Some(i);
                },
            }
        }
        i += 1;
    }
    match found {
        Some(at) => Ok(at),
        None => Err(FieldError::Missing),
    }
}

} // verus!
