//! Validation of proof-system dimensions: a backend, an elliptic curve and a
//! proving scheme, given as text, are turned into typed values and accepted
//! only when the three can work together.
//!
//! Each dimension has a small fixed vocabulary, matched exactly: case counts,
//! and nothing is trimmed. The supported combinations are a fixed set. An
//! optional component, libsnark, adds one backend, one scheme and two
//! combinations; a deployment says through [`Features`] whether it has it.

pub mod backend;
pub mod constants;
pub mod curve;
pub mod dimensions;
pub mod error;
pub mod features;
pub mod scheme;
mod text;

pub use crate::backend::Backend;
pub use crate::curve::Curve;
pub use crate::dimensions::Dimensions;
pub use crate::error::{ConfigError, Dimension};
pub use crate::features::Features;
pub use crate::scheme::ProvingScheme;
