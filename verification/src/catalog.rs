//! The table catalog: the names of the user tables, decoded from the raw
//! keys of the engine's reserved root table.
//!
//! The engine stores each table name as a raw key; a name that is not valid
//! text is a fatal decoding failure. The catalog's length then fixes the
//! table-count capacity the environment is reopened with: exactly one slot
//! per discovered table, no slack.
use vstd::prelude::*;
use vstd::utf8::{decode_utf8, decode_utf8_encode_utf8, encode_utf8, valid_utf8};
use crate::errors::BrowseError;

verus! {

/// Relies on String::from_utf8: succeeds exactly on input that is valid
/// UTF-8 and returns the string of the decoded characters.
#[verifier::external_body]
fn bytes_to_text(bytes: &Vec<u8>) -> (r: Option<String>)
    ensures
        r is Some <==> valid_utf8(bytes@),
        r is Some ==> r.unwrap()@ == decode_utf8(bytes@),
{
    String::from_utf8(bytes.clone()).ok()
}

/// Decodes the raw catalog keys into the list of table names, in the order
/// the engine yielded them (ascending over the raw key bytes).
///
/// Succeeds exactly when every key is valid text; the names then decode the
/// keys one for one, and each name re-encodes to the very key it came from,
/// so opening a table under a returned name looks up the stored key itself.
/// A single invalid key fails the whole catalog with a decoding error, and
/// an environment with no tables yields the empty list.
pub fn decode_table_names(keys: &Vec<Vec<u8>>) -> (r: Result<Vec<String>, BrowseError>)
    ensures
        r is Ok <==> (forall|i: int| 0 <= i < keys@.len() ==> valid_utf8(#[trigger] keys@[i]@)),
        r is Ok ==> r.unwrap()@.len() == keys@.len(),
        r is Ok ==> forall|i: int|
            0 <= i < keys@.len() ==> r.unwrap()@[i]@ == decode_utf8(#[trigger] keys@[i]@),
        r is Ok ==> forall|i: int|
            0 <= i < keys@.len() ==> encode_utf8(r.unwrap()@[i]@) == #[trigger] keys@[i]@,
        r is Err ==> r.unwrap_err() == BrowseError::DecodingError,
        keys@.len() == 0 ==> r is Ok && r.unwrap()@.len() == 0,
{
    let mut names: Vec<String> = Vec::new();
    let mut i: usize = 0;
    while i < keys.len()
        invariant
            i <= keys@.len(),
            names@.len() == i,
            forall|j: int| 0 <= j < i ==> valid_utf8(#[trigger] keys@[j]@),
            forall|j: int| 0 <= j < i ==> names@[j]@ == decode_utf8(#[trigger] keys@[j]@),
            forall|j: int| 0 <= j < i ==> encode_utf8(names@[j]@) == #[trigger] keys@[j]@,
        decreases keys@.len() - i,
    {
        match bytes_to_text(&keys[i]) {
            Some(name) => {
                proof {
                    decode_utf8_encode_utf8(keys@[i as int]@);
                }
                names.push(name);
            },
            None => {
                return Err(BrowseError::DecodingError);
            },
        }
        i = i + 1;
    }
    Ok(names)
}

/// Decides the second phase of the two-phase open from the outcome of the
/// first. The environment must be told its table-count capacity before any
/// table can be opened, and that bound is only known once the catalog has
/// been read under a minimal capacity: discovery hands in either the raw
/// catalog keys or the failure that ended it.
///
/// Only a fully decoded catalog plans the sized reopen, with capacity
/// exactly the number of names; a discovery failure, or a key that is not
/// valid text, is passed on unchanged and the reopen is never planned.
pub fn startup_plan(discovered: Result<Vec<Vec<u8>>, BrowseError>) -> (r: Result<
    (Vec<String>, usize),
    BrowseError,
>)
    ensures
        discovered matches Err(e) ==> r == Err::<(Vec<String>, usize), BrowseError>(e),
        discovered matches Ok(keys) ==> {
            &&& r is Ok <==> (forall|i: int|
                0 <= i < keys@.len() ==> valid_utf8(#[trigger] keys@[i]@))
            &&& r is Ok ==> {
                &&& r.unwrap().0@.len() == keys@.len()
                &&& r.unwrap().1 == keys@.len()
                &&& forall|i: int|
                    0 <= i < keys@.len() ==> r.unwrap().0@[i]@ == decode_utf8(#[trigger] keys@[i]@)
                &&& forall|i: int|
                    0 <= i < keys@.len() ==> encode_utf8(r.unwrap().0@[i]@) == #[trigger] keys@[i]@
            }
            &&& r is Err ==> r.unwrap_err() == BrowseError::DecodingError
        },
{
    match discovered {
        Ok(keys) => {
            match decode_table_names(&keys) {
                Ok(names) => {
                    let capacity = required_capacity(&names);
                    Ok((names, capacity))
                },
                Err(e) => Err(e),
            }
        },
        Err(e) => Err(e),
    }
}

/// The table-count capacity the environment must be reopened with to browse
/// every cataloged table: exactly the number of names, with no slack. An
/// empty catalog asks for capacity zero.
pub fn required_capacity(names: &Vec<String>) -> (n: usize)
    ensures
        n == names@.len(),
{
    names.len()
}

} // verus!
