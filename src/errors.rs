//! The three kinds of error that listing a path can end in.

use vstd::prelude::*;

verus! {

#[verifier::external_type_specification]
#[verifier::external_body]
pub struct ExIoError(std::io::Error);

/// The categories of I/O error that listing tells apart.
#[derive(Clone, Copy, Debug, PartialEq, Eq, Structural)]
pub enum IoErrorCategory {
    NotFound,
    PermissionDenied,
    Other,
}

/// The category of an I/O error's kind, as `std::io::Error::kind` reports it.
pub uninterp spec fn category_of(err: std::io::Error) -> IoErrorCategory;

/// Relies on `std::io::Error::kind`: tells `ErrorKind::NotFound` and
/// `ErrorKind::PermissionDenied` from every other kind; the kind depends on
/// the error alone.
#[verifier::external_body]
fn io_error_category(err: &std::io::Error) -> (r: IoErrorCategory)
    ensures
        r == category_of(*err),
{
    match err.kind() {
        std::io::ErrorKind::NotFound => IoErrorCategory::NotFound,
        std::io::ErrorKind::PermissionDenied => IoErrorCategory::PermissionDenied,
        _ => IoErrorCategory::Other,
    }
}

/// Relies on the `Display` of `std::io::Error`: the operating system's
/// description of the error.
#[verifier::external_body]
fn io_error_text(err: &std::io::Error) -> (r: String) {
    err.to_string()
}

/// Why an entry or a directory could not be listed.
#[derive(Debug)]
#[non_exhaustive]
pub enum BetterLsError {
    /// The path does not exist; holds what was being read.
    NotFound(String),
    /// Permission was denied; holds what was being read.
    Unauthorized(String),
    /// Any other I/O failure, with its cause.
    Unknown(std::io::Error),
}

/// The error that an I/O error of category `category` maps to.
pub open spec fn error_for(category: IoErrorCategory, err: std::io::Error, context: String) -> BetterLsError {
    match category {
        IoErrorCategory::NotFound => BetterLsError::NotFound(context),
        IoErrorCategory::PermissionDenied => BetterLsError::Unauthorized(context),
        IoErrorCategory::Other => BetterLsError::Unknown(err),
    }
}

impl BetterLsError {
    /// The error for an I/O error whose category is already known.
    pub fn from_category(category: IoErrorCategory, err: std::io::Error, context: String) -> (r:
        BetterLsError)
        ensures
            r == error_for(category, err, context),
    {
        match category {
            IoErrorCategory::NotFound => BetterLsError::NotFound(context),
            IoErrorCategory::PermissionDenied => BetterLsError::Unauthorized(context),
            IoErrorCategory::Other => BetterLsError::Unknown(err),
        }
    }

    /// The message shown for the error.
    pub fn message(&self) -> (r: String)
        ensures
            self matches BetterLsError::NotFound(c) ==> r@ == "Entry not found: "@ + c@,
            self matches BetterLsError::Unauthorized(c) ==> r@ == "Unauthorized access: "@ + c@,
            self is Unknown ==> exists|t: Seq<char>| r@ == "Unknown error! "@ + t,
    {
        match self {
            BetterLsError::NotFound(context) => "Entry not found: ".to_owned().concat(context.as_str()),
            BetterLsError::Unauthorized(context) => "Unauthorized access: ".to_owned().concat(
                context.as_str(),
            ),
            BetterLsError::Unknown(err) => {
                let text = io_error_text(err);
                let r = "Unknown error! ".to_owned().concat(text.as_str());
                assert(r@ == "Unknown error! "@ + text@);
                r
            },
        }
    }

    /// The underlying I/O error, for the errors that have one.
    pub fn source(&self) -> (r: Option<&std::io::Error>)
        ensures
            self matches BetterLsError::Unknown(e) ==> r == Some(e),
            !(self is Unknown) ==> r is None,
    {
        match self {
            BetterLsError::NotFound(_) => None,
            BetterLsError::Unauthorized(_) => None,
            BetterLsError::Unknown(err) => Some(err),
        }
    }
}

/// Maps an I/O error to a listing error: not found and permission denied
/// keep `context`, anything else keeps the I/O error itself.
pub fn exhaustive_io_error_mapping(err: std::io::Error, context: String) -> (r: BetterLsError)
    ensures
        r == error_for(category_of(err), err, context),
{
    let category = io_error_category(&err);
    BetterLsError::from_category(category, err, context)
}

} // verus!
