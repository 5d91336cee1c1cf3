//! The font-file endpoint's decision: the containment check, the secondary
//! trust boundary. A path is served only when it is already known to the
//! font database, compared whole against a snapshot entry — the strict
//! policy, so the endpoint cannot become a generic local file-read
//! primitive.

use vstd::prelude::*;

use crate::query::FontFileQuery;
use crate::route::RouteError;
use crate::serverstate::ServerState;

verus! {

/// Decide a font-file request. On success the returned path is exactly the
/// requested one, which some snapshot entry carries; every failure is a
/// client error, and no decision made here reads anything from disk. A file
/// deleted since the last enumeration still passes — the edge's later open
/// attempt surfaces that failure.
pub fn handler(state: &ServerState, query: &FontFileQuery) -> (r: Result<String, RouteError>)
    ensures
        state.font_provider_api_version < query.ft_min_ver ==> (r matches Err(
            RouteError::BadRequest(m),
        ) && m@ == "Unsupported FreeType version"@),
        state.font_provider_api_version >= query.ft_min_ver ==> {
            if exists|i: int|
                0 <= i < state.database@.len() && (#[trigger] state.database@[i]).path
                    == query.file@ {
                r matches Ok(p) && p@ == query.file@
            } else {
                r matches Err(RouteError::NotFound(m)) && m@ == "File not found"@
            }
        },
{
    if state.font_provider_api_version < query.ft_min_ver {
        return Err(RouteError::BadRequest(String::from_str("Unsupported FreeType version")));
    }
    if state.database.is_path_valid(&query.file) {
        Ok(query.file.clone())
    } else {
        Err(RouteError::NotFound(String::from_str("File not found")))
    }
}

} // verus!
