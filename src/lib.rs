//! Gamma-family probability distributions with exact rational parameters.

pub mod chisquared;
pub mod erlang;
pub mod error;
pub mod gamma;
pub mod ratio;

pub use chisquared::Chisquared;
pub use erlang::Erlang;
pub use error::Error;
pub use gamma::Gamma;
pub use ratio::{Quotient, Ratio};
