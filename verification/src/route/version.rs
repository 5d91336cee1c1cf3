//! The version endpoint.

use vstd::prelude::*;

use crate::dto::VersionDTO;
use crate::serverstate::ServerState;

verus! {

/// Answer the server's own protocol version.
pub fn handler(state: &ServerState) -> (r: VersionDTO)
    ensures
        r.version == state.figma_api_version,
{
    VersionDTO { version: state.figma_api_version }
}

} // verus!
