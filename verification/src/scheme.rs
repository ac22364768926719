//! Proving schemes and the words that name them.

use vstd::prelude::*;
use crate::constants::{G16, GM17, PGHR13};
use crate::error::{ConfigError, Dimension, ErrorModel};
use crate::features::Features;
use crate::text::same_text;

verus! {

/// A protocol by which proofs are made and checked.
#[derive(Clone, Copy, Debug, PartialEq, Eq, Structural)]
pub enum ProvingScheme {
    G16,
    GM17,
    /// Present only in a deployment that includes libsnark.
    PGHR13,
}

impl ProvingScheme {
    /// The word that names this scheme.
    pub open spec fn token(self) -> Seq<char> {
        match self {
            ProvingScheme::G16 => G16@,
            ProvingScheme::GM17 => GM17@,
            ProvingScheme::PGHR13 => PGHR13@,
        }
    }

    /// Whether a deployment with these features has this scheme.
    pub open spec fn available(self, features: Features) -> bool {
        match self {
            ProvingScheme::G16 => true,
            ProvingScheme::GM17 => true,
            ProvingScheme::PGHR13 => features.libsnark,
        }
    }

    /// The scheme that a text names under these features, if it names one.
    /// The match is exact: case counts, and so does every space.
    pub open spec fn from_token(text: Seq<char>, features: Features) -> Option<ProvingScheme> {
        if text == ProvingScheme::G16.token() {
            Some(ProvingScheme::G16)
        } else if text == ProvingScheme::GM17.token() {
            Some(ProvingScheme::GM17)
        } else if text == ProvingScheme::PGHR13.token() && ProvingScheme::PGHR13.available(
            features,
        ) {
            Some(ProvingScheme::PGHR13)
        } else {
            None
        }
    }

    /// What reading a text as a scheme gives: the scheme it names, or the
    /// complaint that the proving scheme dimension does not know the text.
    pub open spec fn parse(text: Seq<char>, features: Features) -> Result<
        ProvingScheme,
        ErrorModel,
    > {
        match ProvingScheme::from_token(text, features) {
            Some(scheme) => Ok(scheme),
            None => Err(
                ErrorModel::UnknownIdentifier { dimension: Dimension::ProvingScheme, token: text },
            ),
        }
    }

    /// Reads a proving scheme from its word.
    pub fn try_from(s: &str, features: Features) -> (result: Result<ProvingScheme, ConfigError>)
        ensures
            ProvingScheme::parse(s@, features) == (match result {
                Ok(scheme) => Ok(scheme),
                Err(error) => Err(error@),
            }),
    {
        if same_text(s, G16) {
            Ok(ProvingScheme::G16)
        } else if same_text(s, GM17) {
            Ok(ProvingScheme::GM17)
        } else if features.libsnark && same_text(s, PGHR13) {
            Ok(ProvingScheme::PGHR13)
        } else {
            Err(
                ConfigError::UnknownIdentifier {
                    dimension: Dimension::ProvingScheme,
                    token: s.to_owned(),
                },
            )
        }
    }

    /// No two schemes share a word.
    pub proof fn lemma_tokens_distinct(a: ProvingScheme, b: ProvingScheme)
        ensures
            a.token() == b.token() <==> a == b,
    {
        reveal_strlit("g16");
        reveal_strlit("gm17");
        reveal_strlit("pghr13");
        assert(G16@.len() == 3);
        assert(GM17@.len() == 4);
        assert(PGHR13@.len() == 6);
    }

    /// Every scheme that the deployment has is read back from its own word;
    /// a text is read as a scheme only if it is the word of that scheme and
    /// the deployment has it; and a text that is the word of no scheme at
    /// hand is turned down as unknown to the proving scheme dimension, the
    /// text itself named.
    pub proof fn lemma_parse(text: Seq<char>, scheme: ProvingScheme, features: Features)
        ensures
            scheme.available(features) ==> ProvingScheme::parse(scheme.token(), features) == Ok::<
                ProvingScheme,
                ErrorModel,
            >(scheme),
            ProvingScheme::parse(text, features) == Ok::<ProvingScheme, ErrorModel>(scheme)
                <==> text == scheme.token() && scheme.available(features),
            (forall|s: ProvingScheme| s.available(features) ==> #[trigger] s.token() != text)
                <==> ProvingScheme::parse(text, features) == Err::<ProvingScheme, ErrorModel>(
                ErrorModel::UnknownIdentifier { dimension: Dimension::ProvingScheme, token: text },
            ),
    {
        ProvingScheme::lemma_tokens_distinct(scheme, ProvingScheme::G16);
        ProvingScheme::lemma_tokens_distinct(scheme, ProvingScheme::GM17);
        ProvingScheme::lemma_tokens_distinct(scheme, ProvingScheme::PGHR13);
    }
}

} // verus!
