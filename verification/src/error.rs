//! Why a request was turned down, and the message that says so.

use vstd::prelude::*;

verus! {

/// One of the three axes of a configuration.
#[derive(Clone, Copy, Debug, PartialEq, Eq, Structural)]
pub enum Dimension {
    Backend,
    Curve,
    ProvingScheme,
}

impl Dimension {
    /// The name of this axis as messages spell it.
    pub open spec fn name(self) -> Seq<char> {
        match self {
            Dimension::Backend => "backend"@,
            Dimension::Curve => "curve"@,
            Dimension::ProvingScheme => "proving scheme"@,
        }
    }

    pub fn as_str(self) -> (name: &'static str)
        ensures
            name@ == self.name(),
    {
        match self {
            Dimension::Backend => "backend",
            Dimension::Curve => "curve",
            Dimension::ProvingScheme => "proving scheme",
        }
    }
}

/// A rejected request. Both kinds are final: nothing is retried, and no part
/// of the request is accepted.
#[derive(Debug, PartialEq, Eq)]
pub enum ConfigError {
    /// A word that its dimension does not know.
    UnknownIdentifier { dimension: Dimension, token: String },
    /// Three known words that do not work together, as they were given.
    UnsupportedCombination { backend: String, curve: String, proving_scheme: String },
}

/// What a [`ConfigError`] holds, as mathematical text.
pub enum ErrorModel {
    UnknownIdentifier { dimension: Dimension, token: Seq<char> },
    UnsupportedCombination { backend: Seq<char>, curve: Seq<char>, proving_scheme: Seq<char> },
}

impl ErrorModel {
    /// The message shown to the user.
    pub open spec fn message(self) -> Seq<char> {
        match self {
            ErrorModel::UnknownIdentifier { dimension, token } => {
                "Unknown "@ + dimension.name() + " "@ + token
            },
            ErrorModel::UnsupportedCombination { backend, curve, proving_scheme } => {
                "Unsupported combination of dimensions (backend: "@ + backend + ", curve: "@
                    + curve + ", proving scheme: "@ + proving_scheme + ")"@
            },
        }
    }
}

impl View for ConfigError {
    type V = ErrorModel;

    open spec fn view(&self) -> ErrorModel {
        match self {
            ConfigError::UnknownIdentifier { dimension, token } => ErrorModel::UnknownIdentifier {
                dimension: *dimension,
                token: token@,
            },
            ConfigError::UnsupportedCombination {
                backend,
                curve,
                proving_scheme,
            } => ErrorModel::UnsupportedCombination {
                backend: backend@,
                curve: curve@,
                proving_scheme: proving_scheme@,
            },
        }
    }
}

impl ConfigError {
    /// The message shown to the user, ready for display.
    pub fn message(&self) -> (text: String)
        ensures
            text@ == self@.message(),
    {
        match self {
            ConfigError::UnknownIdentifier { dimension, token } => {
                let mut text = String::from_str("Unknown ");
                text.append(dimension.as_str());
                text.append(" ");
                text.append(token.as_str());
                text
            },
            ConfigError::UnsupportedCombination { backend, curve, proving_scheme } => {
                let mut text = String::from_str(
                    "Unsupported combination of dimensions (backend: ",
                );
                text.append(backend.as_str());
                text.append(", curve: ");
                text.append(curve.as_str());
                text.append(", proving scheme: ");
                text.append(proving_scheme.as_str());
                text.append(")");
                text
            },
        }
    }
}

} // verus!
