//! Middleware that runs before any handler.

pub mod allowonlyfigma;

pub use allowonlyfigma::AllowFigmaOnly;
pub use allowonlyfigma::AllowFigmaOnlyMiddleware;
