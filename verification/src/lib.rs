//! A minimal HTTP/1.1 static-file server core: request-line parsing,
//! directory-style path routing with a confinement check, and response
//! framing. The surrounding process owns the sockets and the filesystem;
//! this crate owns every decision made along the way.

pub mod request;
pub mod response;
pub mod route;
pub mod split;

pub use request::{Request, RequestError};

use vstd::prelude::*;

verus! {

/// The directory all served content must remain inside, relative to the
/// process working directory.
pub fn base_dir() -> (s: &'static str)
    ensures
        s@ == "pages"@,
{
    "pages"
}

/// The fallback page served on any resolution failure, as a single path
/// component at the base directory root.
pub fn error_page_file() -> (s: &'static str)
    ensures
        s@ == "error404.html"@,
{
    "error404.html"
}

} // verus!
