use vstd::prelude::*;
use vstd::string::StringExecFns;
use crate::response::{ContentType, Response, STATUS_INTERNAL_SERVER_ERROR};

verus! {

/// `diesel::result::Error`, every way in which a query can fail. The library
/// carries such a value from the storage call to the answer and never looks
/// inside it.
#[verifier::external_type_specification]
#[verifier::external_body]
pub struct ExStorageError(diesel::result::Error);

/// The text that diesel prints for `e`.
pub uninterp spec fn error_text(e: diesel::result::Error) -> Seq<char>;

/// Whether `e` is the variant that diesel keeps hidden for variants to come.
/// Diesel never returns it, and cannot print it.
pub uninterp spec fn is_reserved(e: diesel::result::Error) -> bool;

/// Whether `e` says that a query which expects a row found none.
pub uninterp spec fn is_not_found(e: diesel::result::Error) -> bool;

/// `Display` of `diesel::result::Error`: the result is the text that diesel
/// prints for `e`. On its hidden variant the outside code panics, so that one
/// is left out.
#[verifier::external_body]
fn print_error(e: &diesel::result::Error) -> (text: String)
    requires
        !is_reserved(*e),
    ensures
        text@ == error_text(*e),
{
    format!("{}", e)
}

/// Tells diesel's hidden variant from the others.
#[verifier::external_body]
fn reserved(e: &diesel::result::Error) -> (r: bool)
    ensures
        r == is_reserved(*e),
{
    match e {
        diesel::result::Error::__Nonexhaustive => true,
        _ => false,
    }
}

/// `optional` of diesel's `OptionalExtension`: a row is handed on as `Some`,
/// the failure that says "no row" becomes `Ok(None)`, and every other failure
/// is handed on as it is.
#[verifier::external_body]
pub(crate) fn optional<T>(row: Result<T, diesel::result::Error>) -> (r: Result<
    Option<T>,
    diesel::result::Error,
>)
    ensures
        match row {
            Ok(value) => r == Ok::<Option<T>, diesel::result::Error>(Some(value)),
            Err(e) => if is_not_found(e) {
                r == Ok::<Option<T>, diesel::result::Error>(None)
            } else {
                r == Err::<Option<T>, diesel::result::Error>(e)
            },
        },
{
    diesel::OptionalExtension::optional(row)
}

/// A failure of storage, as a handler reports it.
#[derive(Debug)]
pub enum CustomError {
    DatabseErr(diesel::result::Error),
}

impl CustomError {
    /// The storage failure that this error wraps.
    pub open spec fn cause(self) -> diesel::result::Error {
        match self {
            CustomError::DatabseErr(e) => e,
        }
    }

    /// The error's own message: a fixed prefix, then what diesel prints for
    /// the cause.
    pub open spec fn message_spec(self) -> Seq<char> {
        "DB Error: "@ + error_text(self.cause())
    }

    /// The body of the answer to a request that failed with this error.
    pub open spec fn body_spec(self) -> Seq<char> {
        "Diesel error: "@ + self.message_spec()
    }

    /// Whether the error can be put into words: always, unless the cause is
    /// diesel's hidden variant.
    pub open spec fn printable(self) -> bool {
        !is_reserved(self.cause())
    }

    /// Whether `answer` is the answer to a request that failed with this
    /// error: status 500, plain text, no `Location`, and the body of
    /// `body_spec`.
    pub open spec fn is_answered_by(self, answer: Response<String>) -> bool {
        &&& answer.status == STATUS_INTERNAL_SERVER_ERROR
        &&& answer.content_type == ContentType::Plain
        &&& answer.location is None
        &&& answer.body@ == self.body_spec()
    }

    /// Tests `printable`.
    pub fn is_printable(&self) -> (r: bool)
        ensures
            r == self.printable(),
    {
        match self {
            CustomError::DatabseErr(e) => !reserved(e),
        }
    }

    /// The error's own message.
    pub fn message(&self) -> (text: String)
        requires
            self.printable(),
        ensures
            text@ == self.message_spec(),
    {
        match self {
            CustomError::DatabseErr(e) => {
                let cause = print_error(e);
                String::from_str("DB Error: ").concat(cause.as_str())
            },
        }
    }

    /// The answer to a request that failed with this error: status 500, plain
    /// text, and a body that repeats the error's message after a fixed prefix.
    pub fn respond_to(self) -> (r: Response<String>)
        requires
            self.printable(),
        ensures
            self.is_answered_by(r),
    {
        let message = self.message();
        let body = String::from_str("Diesel error: ").concat(message.as_str());
        Response {
            status: STATUS_INTERNAL_SERVER_ERROR,
            content_type: ContentType::Plain,
            location: None,
            body,
        }
    }
}

impl From<diesel::result::Error> for CustomError {
    fn from(e: diesel::result::Error) -> (r: CustomError) {
        CustomError::DatabseErr(e)
    }
}

impl vstd::std_specs::convert::FromSpecImpl<diesel::result::Error> for CustomError {
    open spec fn obeys_from_spec() -> bool {
        true
    }

    open spec fn from_spec(e: diesel::result::Error) -> CustomError {
        CustomError::DatabseErr(e)
    }
}

} // verus!
