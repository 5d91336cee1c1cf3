//! The update-check endpoint. The server only reports its own version;
//! whether to update is the client's decision, whatever version it sent.

use vstd::prelude::*;

use crate::dto::VersionDTO;
use crate::query::UpdateQuery;
use crate::serverstate::ServerState;

verus! {

/// Answer the server's own protocol version.
pub fn handler(state: &ServerState, _query: &UpdateQuery) -> (r: VersionDTO)
    ensures
        r.version == state.figma_api_version,
{
    VersionDTO { version: state.figma_api_version }
}

} // verus!
