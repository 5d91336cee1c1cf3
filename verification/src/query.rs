//! Plain query shapes. The unverified edge parses the query string and
//! hands the values over; a malformed query never reaches a handler.

use vstd::prelude::*;

verus! {

/// Query of the font-file endpoint.
pub struct FontFileQuery {
    pub ft_min_ver: usize,
    pub file: String,
}

/// Query of the font-files endpoint.
pub struct FontFilesQuery {
    pub ft_min_ver: usize,
    pub isolate: bool,
}

/// Query of the update endpoint.
pub struct UpdateQuery {
    pub version: usize,
}

} // verus!
