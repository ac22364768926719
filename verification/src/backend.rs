//! Cryptographic backends and the words that name them.

use vstd::prelude::*;
use crate::constants::{BELLMAN, LIBSNARK, ZEXE};
use crate::error::{ConfigError, Dimension, ErrorModel};
use crate::features::Features;
use crate::text::same_text;

verus! {

/// An implementation of the cryptography.
#[derive(Clone, Copy, Debug, PartialEq, Eq, Structural)]
pub enum Backend {
    Bellman,
    Zexe,
    /// Present only in a deployment that includes libsnark.
    Libsnark,
}

impl Backend {
    /// The word that names this backend.
    pub open spec fn token(self) -> Seq<char> {
        match self {
            Backend::Bellman => BELLMAN@,
            Backend::Zexe => ZEXE@,
            Backend::Libsnark => LIBSNARK@,
        }
    }

    /// Whether a deployment with these features has this backend.
    pub open spec fn available(self, features: Features) -> bool {
        match self {
            Backend::Bellman => true,
            Backend::Zexe => true,
            Backend::Libsnark => features.libsnark,
        }
    }

    /// The backend that a text names under these features, if it names one.
    /// The match is exact: case counts, and so does every space.
    pub open spec fn from_token(text: Seq<char>, features: Features) -> Option<Backend> {
        if text == Backend::Bellman.token() {
            Some(Backend::Bellman)
        } else if text == Backend::Zexe.token() {
            Some(Backend::Zexe)
        } else if text == Backend::Libsnark.token() && Backend::Libsnark.available(features) {
            Some(Backend::Libsnark)
        } else {
            None
        }
    }

    /// What reading a text as a backend gives: the backend it names, or the
    /// complaint that the backend dimension does not know the text.
    pub open spec fn parse(text: Seq<char>, features: Features) -> Result<Backend, ErrorModel> {
        match Backend::from_token(text, features) {
            Some(backend) => Ok(backend),
            None => Err(
                ErrorModel::UnknownIdentifier { dimension: Dimension::Backend, token: text },
            ),
        }
    }

    /// Reads a backend from its word.
    pub fn try_from(s: &str, features: Features) -> (result: Result<Backend, ConfigError>)
        ensures
            Backend::parse(s@, features) == (match result {
                Ok(backend) => Ok(backend),
                Err(error) => Err(error@),
            }),
    {
        if same_text(s, BELLMAN) {
            Ok(Backend::Bellman)
        } else if same_text(s, ZEXE) {
            Ok(Backend::Zexe)
        } else if features.libsnark && same_text(s, LIBSNARK) {
            Ok(Backend::Libsnark)
        } else {
            Err(
                ConfigError::UnknownIdentifier {
                    dimension: Dimension::Backend,
                    token: s.to_owned(),
                },
            )
        }
    }

    /// No two backends share a word.
    pub proof fn lemma_tokens_distinct(a: Backend, b: Backend)
        ensures
            a.token() == b.token() <==> a == b,
    {
        reveal_strlit("bellman");
        reveal_strlit("zexe");
        reveal_strlit("libsnark");
        assert(BELLMAN@.len() == 7);
        assert(ZEXE@.len() == 4);
        assert(LIBSNARK@.len() == 8);
    }

    /// Every backend that the deployment has is read back from its own word;
    /// a text is read as a backend only if it is the word of that backend and
    /// the deployment has it; and a text that is the word of no backend at
    /// hand is turned down as unknown to the backend dimension, the text
    /// itself named.
    pub proof fn lemma_parse(text: Seq<char>, backend: Backend, features: Features)
        ensures
            backend.available(features) ==> Backend::parse(backend.token(), features) == Ok::<
                Backend,
                ErrorModel,
            >(backend),
            Backend::parse(text, features) == Ok::<Backend, ErrorModel>(backend) <==> text
                == backend.token() && backend.available(features),
            (forall|b: Backend| b.available(features) ==> #[trigger] b.token() != text)
                <==> Backend::parse(text, features) == Err::<Backend, ErrorModel>(
                ErrorModel::UnknownIdentifier { dimension: Dimension::Backend, token: text },
            ),
    {
        Backend::lemma_tokens_distinct(backend, Backend::Bellman);
        Backend::lemma_tokens_distinct(backend, Backend::Zexe);
        Backend::lemma_tokens_distinct(backend, Backend::Libsnark);
    }
}

} // verus!
