//! Reading a header out of a message, which is left to the `mailparse`
//! crate.

use vstd::prelude::*;
use mailparse::{MailHeaderMap, MailParseError};

verus! {

/// The error with which `mailparse` gives up on a message.
#[verifier::external_type_specification]
#[verifier::external_body]
pub struct ExMailParseError(MailParseError);

/// What looking for a header in a message comes to.
pub enum HeaderLookup {
    /// The message cannot be parsed.
    Malformed,
    /// The message has no header of that name.
    Absent,
    /// The decoded value of the first header of that name.
    Found(Seq<char>),
}

/// What `mailparse` finds when it parses `message` and looks for the first
/// header called `name` among its top-level headers.
pub uninterp spec fn header_lookup(message: Seq<u8>, name: Seq<char>) -> HeaderLookup;

/// The outcome of a lookup as `mailparse` hands it out, without regard to
/// which error it was.
pub open spec fn lookup_of(found: Result<Option<String>, MailParseError>) -> HeaderLookup {
    match found {
        Err(_) => HeaderLookup::Malformed,
        Ok(None) => HeaderLookup::Absent,
        Ok(Some(value)) => HeaderLookup::Found(value@),
    }
}

/// Parses `message` with `mailparse::parse_mail` and asks the headers of
/// the result for the first value of `name` with
/// `MailHeaderMap::get_first_value`.
///
/// Nothing is proved of this function. Its contract claims one thing: that
/// the outcome depends on the bytes of the message and on the name alone,
/// so that it can go by the name [`header_lookup`]. An error of the parser
/// is handed on as it is. The parser takes any bytes, so no message is
/// excluded.
#[verifier::external_body]
pub(crate) fn first_header_value(message: &[u8], name: &str) -> (found: Result<
    Option<String>,
    MailParseError,
>)
    ensures
        lookup_of(found) == header_lookup(message@, name@),
{
    match mailparse::parse_mail(message) {
        Ok(mail) => Ok(mail.get_headers().get_first_value(name)),
        Err(error) => Err(error),
    }
}

} // verus!
