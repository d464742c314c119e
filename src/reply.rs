//! The replies of the store, as tagged values, and the decoding of those
//! that the capability check and the domain commands interpret.

use vstd::prelude::*;
use crate::catalog::MODULE_NAME;
use crate::error::CaptchaError;
use crate::request::AddVisitorResult;

verus! {

/// A reply of the store.
#[derive(Debug)]
pub enum Reply {
    Nil,
    Int(i64),
    Data(Vec<u8>),
    Bulk(Vec<Reply>),
    Status(String),
    Okay,
}

/// A command-introspection reply reports the command as absent when it is a
/// sequence whose last element is nil.
pub open spec fn reports_absent(reply: Reply) -> bool {
    match reply {
        Reply::Bulk(items) => items@.len() > 0 && items@.last() is Nil,
        _ => false,
    }
}

/// Whether a command-introspection reply reports the command as absent.
/// Every other shape of reply counts as present.
pub fn command_missing(reply: &Reply) -> (r: bool)
    ensures
        r == reports_absent(*reply),
{
    match reply {
        Reply::Bulk(items) => {
            if items.len() == 0 {
                false
            } else {
                match &items[items.len() - 1] {
                    Reply::Nil => true,
                    _ => false,
                }
            }
        },
        _ => false,
    }
}

/// The meaning of the existence flag of the cache module: `0` says that the
/// captcha is registered, `1` that it is not, anything else is outside the
/// protocol.
///
/// This reads as the inverse of a count, and looks like a slip at first
/// sight. It is what the cache module answers, a status code rather than a
/// count, so it is kept as it is for wire compatibility with the module.
pub open spec fn exists_of_flag(flag: usize) -> Option<bool> {
    if flag == 0 {
        Some(true)
    } else if flag == 1 {
        Some(false)
    } else {
        None
    }
}

/// Decodes the reply of the existence command, with the polarity of
/// [`exists_of_flag`]: `0` is present, `1` is absent.
pub fn exists_from_flag(flag: usize) -> (r: Result<bool, CaptchaError>)
    ensures
        exists_of_flag(flag) is Some <==> r is Ok,
        r matches Ok(b) ==> exists_of_flag(flag) == Some(b),
        r is Err ==> r matches Err(CaptchaError::ExtensionProtocolError),
{
    if flag == 1 {
        Ok(false)
    } else if flag == 0 {
        Ok(true)
    } else {
        Err(CaptchaError::ExtensionProtocolError)
    }
}

/// The names of a module listing record, as character sequences.
pub open spec fn names_of(record: Seq<String>) -> Seq<Seq<char>> {
    record.map_values(|s: String| s@)
}

/// A module listing record names the cache module.
pub open spec fn names_module(record: Seq<Seq<char>>) -> bool {
    exists|i: int| 0 <= i < record.len() && record[i] == MODULE_NAME@
}

/// Whether a module listing record names the cache module.
pub fn module_listed(record: &Vec<String>) -> (r: bool)
    ensures
        r == names_module(names_of(record@)),
{
    let name = MODULE_NAME.to_owned();
    let mut i: usize = 0;
    while i < record.len()
        invariant
            i <= record@.len(),
            name@ == MODULE_NAME@,
            forall|j: int| 0 <= j < i ==> record@[j]@ != MODULE_NAME@,
        decreases record@.len() - i,
    {
        if record[i] == name {
            assert(names_of(record@)[i as int] == MODULE_NAME@);
            return true;
        }
        i = i + 1;
    }
    assert forall|j: int| 0 <= j < names_of(record@).len() implies names_of(record@)[j]
        != MODULE_NAME@ by {
        assert(names_of(record@)[j] == record@[j]@);
    }
    false
}

/// A module listing has at least one record, and every record names the
/// cache module.
pub open spec fn listing_ok(listing: Seq<Seq<Seq<char>>>) -> bool {
    &&& listing.len() > 0
    &&& forall|i: int| 0 <= i < listing.len() ==> names_module(#[trigger] listing[i])
}

/// A module listing, as character sequences.
pub open spec fn listing_of(listing: Seq<Vec<String>>) -> Seq<Seq<Seq<char>>> {
    listing.map_values(|record: Vec<String>| names_of(record@))
}

/// Checks a module listing: it must not be empty, and every record must name
/// the cache module.
pub fn check_module_listing(listing: &Vec<Vec<String>>) -> (r: Result<(), CaptchaError>)
    ensures
        r is Ok <==> listing_ok(listing_of(listing@)),
        r is Err ==> r matches Err(CaptchaError::ExtensionNotLoaded),
{
    if listing.len() == 0 {
        return Err(CaptchaError::ExtensionNotLoaded);
    }
    let mut i: usize = 0;
    while i < listing.len()
        invariant
            i <= listing@.len(),
            forall|j: int| 0 <= j < i ==> names_module(#[trigger] listing_of(listing@)[j]),
        decreases listing@.len() - i,
    {
        if !module_listed(&listing[i]) {
            assert(listing_of(listing@)[i as int] == names_of(listing@[i as int]@));
            return Err(CaptchaError::ExtensionNotLoaded);
        }
        assert(listing_of(listing@)[i as int] == names_of(listing@[i as int]@));
        i = i + 1;
    }
    Ok(())
}

/// The result of recording a visitor, from the module's reply: `None` where
/// the reply held nothing to parse, else the parse of what it held. A parsed
/// result is handed on, a parse failure becomes a deserialization error.
pub fn visitor_result(parsed: Option<Result<AddVisitorResult, serde_json::Error>>) -> (r: Result<
    Option<AddVisitorResult>,
    CaptchaError,
>)
    ensures
        parsed is None ==> r == Ok::<Option<AddVisitorResult>, CaptchaError>(None),
        parsed matches Some(Ok(v)) ==> r == Ok::<Option<AddVisitorResult>, CaptchaError>(Some(v)),
        parsed matches Some(Err(_)) ==> r matches Err(CaptchaError::DeserializationError(_)),
{
    match parsed {
        None => Ok(None),
        Some(Ok(v)) => Ok(Some(v)),
        Some(Err(e)) => Err(CaptchaError::DeserializationError(e)),
    }
}

} // verus!
