//! The TLS bootstrap gate. At startup the edge decrypts the bundled
//! identity archive; before an acceptor is configured from it, the archive
//! must hold every piece — trusted CA chain, certificate, private key. A
//! failed check is fatal: the process must not begin accepting connections
//! with a partially configured acceptor.

use vstd::prelude::*;

verus! {

/// The piece missing from the decrypted identity archive.
#[derive(Clone, Copy, PartialEq, Eq, Structural, Debug)]
pub enum IdentityErr {
    NoCa,
    NoCert,
    NoPrivateKey,
}

impl IdentityErr {
    /// The startup log line for each missing piece.
    pub fn message(&self) -> (s: String)
        ensures
            *self is NoCa ==> s@ == "No CA found"@,
            *self is NoCert ==> s@ == "No cert found"@,
            *self is NoPrivateKey ==> s@ == "No private key found"@,
    {
        match self {
            IdentityErr::NoCa => String::from_str("No CA found"),
            IdentityErr::NoCert => String::from_str("No cert found"),
            IdentityErr::NoPrivateKey => String::from_str("No private key found"),
        }
    }
}

/// What the edge found inside the decrypted identity archive.
pub struct IdentityParts {
    pub has_ca: bool,
    pub has_cert: bool,
    pub has_private_key: bool,
}

/// The completeness check run before the TLS acceptor is configured. The
/// pieces are demanded in the order the acceptor installs them — CA chain,
/// certificate, private key — and the first missing one is reported.
/// Success is owed exactly when all three are present; only then may the
/// edge bind the listening ports.
pub fn validate_identity(parts: &IdentityParts) -> (r: Result<(), IdentityErr>)
    ensures
        !parts.has_ca ==> r == Err::<(), IdentityErr>(IdentityErr::NoCa),
        parts.has_ca && !parts.has_cert ==> r == Err::<(), IdentityErr>(IdentityErr::NoCert),
        parts.has_ca && parts.has_cert && !parts.has_private_key ==> r == Err::<(), IdentityErr>(
            IdentityErr::NoPrivateKey,
        ),
        parts.has_ca && parts.has_cert && parts.has_private_key ==> r is Ok,
{
    if !parts.has_ca {
        Err(IdentityErr::NoCa)
    } else if !parts.has_cert {
        Err(IdentityErr::NoCert)
    } else if !parts.has_private_key {
        Err(IdentityErr::NoPrivateKey)
    } else {
        Ok(())
    }
}

} // verus!
