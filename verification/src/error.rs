//! The ways in which a query fails.

use rtnetlink::Error as NetlinkError;
use vstd::prelude::*;
use vstd::std_specs::convert::FromSpecImpl;
use vstd::string::{to_string_from_display_ensures, StringExecFns};

verus! {

/// rtnetlink's `Error`: what a request to the kernel fails with. The library
/// carries it through and never looks inside.
#[verifier::external_type_specification]
#[verifier::external_body]
pub struct ExNetlinkError(NetlinkError);

/// std's `io::Error`: what the operating system reports when the connection
/// cannot be made. The library carries it through and never looks inside.
#[verifier::external_type_specification]
#[verifier::external_body]
pub struct ExIoError(std::io::Error);

/// The errors that can occur while the links of a host are queried.
#[derive(Debug)]
pub enum Error {
    /// The kernel answered a request with an error.
    RtNetlink(NetlinkError),
    /// The connection to the kernel could not be made.
    IoError(std::io::Error),
    /// No link matched; with the name that was asked for, if one was.
    LinkNotFound(Option<String>),
}

/// An alias for `std::result::Result` that uses [`Error`] as its error type.
pub type Result<T> = std::result::Result<T, Error>;

impl From<NetlinkError> for Error {
    fn from(e: NetlinkError) -> (r: Error) {
        Error::RtNetlink(e)
    }
}

impl FromSpecImpl<NetlinkError> for Error {
    open spec fn obeys_from_spec() -> bool {
        true
    }

    open spec fn from_spec(e: NetlinkError) -> Error {
        Error::RtNetlink(e)
    }
}

impl From<std::io::Error> for Error {
    fn from(e: std::io::Error) -> (r: Error) {
        Error::IoError(e)
    }
}

impl FromSpecImpl<std::io::Error> for Error {
    open spec fn obeys_from_spec() -> bool {
        true
    }

    open spec fn from_spec(e: std::io::Error) -> Error {
        Error::IoError(e)
    }
}

impl Error {
    /// The error in words: what failed, then what the failed part said of it.
    pub fn message(&self) -> (text: String)
        ensures
            match *self {
                Error::RtNetlink(e) => exists|detail: String|
                    to_string_from_display_ensures::<NetlinkError>(&e, detail) && text@
                        == "rtnetlink error: "@ + detail@,
                Error::IoError(e) => exists|detail: String|
                    to_string_from_display_ensures::<std::io::Error>(&e, detail) && text@
                        == "rtnetlink connection failed: "@ + detail@,
                Error::LinkNotFound(Some(name)) => text@ == "link not found: "@ + name@,
                Error::LinkNotFound(None) => text@ == "no links found"@,
            },
    {
        match self {
            Error::RtNetlink(e) => {
                let detail = e.to_string();
                String::from_str("rtnetlink error: ").concat(detail.as_str())
            },
            Error::IoError(e) => {
                let detail = e.to_string();
                String::from_str("rtnetlink connection failed: ").concat(detail.as_str())
            },
            Error::LinkNotFound(Some(name)) => String::from_str("link not found: ").concat(
                name.as_str(),
            ),
            Error::LinkNotFound(None) => String::from_str("no links found"),
        }
    }
}

} // verus!
