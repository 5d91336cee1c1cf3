//! The application context built once at startup and passed to handlers.

use vstd::prelude::*;

use crate::provider::fontdatabase::{FontDatabase, FontDatabaseErr};
use crate::provider::fontprovider::{descriptor_models, FontDescriptor};
use crate::provider::platform::{PlatformFontProvider, PlatformFontProviderErr};

verus! {

/// Errors that prevent the server from starting.
#[derive(Debug)]
pub enum ServerStateErr {
    /// The platform font provider could not be set up or queried.
    ProviderError(PlatformFontProviderErr),
    /// The font database could not be built.
    DatabaseError(FontDatabaseErr),
}

/// The protocol version this server speaks.
pub const FIGMA_API_VERSION: usize = 4;

/// Global server state: the protocol version, the provider's API version,
/// and the font database. Built once at boot; handlers read it, and all
/// database mutation funnels through [`FontDatabase::invalidate`].
pub struct ServerState {
    pub figma_api_version: usize,
    pub font_provider_api_version: usize,
    pub database: FontDatabase,
}

impl ServerState {
    /// Build the startup state from the provider (as constructed from the
    /// native acquisition outcome) and the result of the initial enumeration
    /// pass. Either failure is fatal: no state is built, so the server never
    /// starts half-configured.
    pub fn new(
        provider: Result<PlatformFontProvider, PlatformFontProviderErr>,
        fonts: Result<Vec<FontDescriptor>, PlatformFontProviderErr>,
    ) -> (r: Result<ServerState, ServerStateErr>)
        ensures
            provider matches Err(e) ==> r == Err::<ServerState, ServerStateErr>(
                ServerStateErr::ProviderError(e),
            ),
            provider matches Ok(p) ==> match fonts {
                Ok(f) => r matches Ok(s) && s.figma_api_version == FIGMA_API_VERSION
                    && s.font_provider_api_version == p.api_version && s.database@
                    == descriptor_models(f@),
                Err(e) => r == Err::<ServerState, ServerStateErr>(
                    ServerStateErr::DatabaseError(FontDatabaseErr::PlatformFontProvider(e)),
                ),
            },
    {
        let provider = match provider {
            Ok(p) => p,
            Err(e) => {
                return Err(ServerStateErr::ProviderError(e));
            },
        };
        let font_provider_api_version = match provider.get_api_version() {
            Ok(v) => v,
            Err(e) => {
                return Err(ServerStateErr::ProviderError(e));
            },
        };
        match FontDatabase::new(fonts) {
            Ok(database) => Ok(
                ServerState { figma_api_version: FIGMA_API_VERSION, font_provider_api_version, database },
            ),
            Err(e) => Err(ServerStateErr::DatabaseError(e)),
        }
    }
}

} // verus!
