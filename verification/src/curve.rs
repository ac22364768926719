//! Elliptic curves and the words that name them.

use vstd::prelude::*;
use crate::constants::{BLS12_377, BLS12_381, BN128, BW6_761};
use crate::error::{ConfigError, Dimension, ErrorModel};
use crate::text::same_text;

verus! {

/// A family of elliptic curves.
#[derive(Clone, Copy, Debug, PartialEq, Eq, Structural)]
pub enum Curve {
    Bn128,
    Bls12_381,
    Bls12_377,
    Bw6_761,
}

impl Curve {
    /// The word that names this curve.
    pub open spec fn token(self) -> Seq<char> {
        match self {
            Curve::Bn128 => BN128@,
            Curve::Bls12_381 => BLS12_381@,
            Curve::Bls12_377 => BLS12_377@,
            Curve::Bw6_761 => BW6_761@,
        }
    }

    /// The curve that a text names, if it names one. The match is exact:
    /// case counts, and so does every space.
    pub open spec fn from_token(text: Seq<char>) -> Option<Curve> {
        if text == Curve::Bn128.token() {
            Some(Curve::Bn128)
        } else if text == Curve::Bls12_381.token() {
            Some(Curve::Bls12_381)
        } else if text == Curve::Bls12_377.token() {
            Some(Curve::Bls12_377)
        } else if text == Curve::Bw6_761.token() {
            Some(Curve::Bw6_761)
        } else {
            None
        }
    }

    /// What reading a text as a curve gives: the curve it names, or the
    /// complaint that the curve dimension does not know the text.
    pub open spec fn parse(text: Seq<char>) -> Result<Curve, ErrorModel> {
        match Curve::from_token(text) {
            Some(curve) => Ok(curve),
            None => Err(ErrorModel::UnknownIdentifier { dimension: Dimension::Curve, token: text }),
        }
    }

    /// Reads a curve from its word.
    pub fn try_from(s: &str) -> (result: Result<Curve, ConfigError>)
        ensures
            Curve::parse(s@) == (match result {
                Ok(curve) => Ok(curve),
                Err(error) => Err(error@),
            }),
    {
        if same_text(s, BN128) {
            Ok(Curve::Bn128)
        } else if same_text(s, BLS12_381) {
            Ok(Curve::Bls12_381)
        } else if same_text(s, BLS12_377) {
            Ok(Curve::Bls12_377)
        } else if same_text(s, BW6_761) {
            Ok(Curve::Bw6_761)
        } else {
            Err(ConfigError::UnknownIdentifier { dimension: Dimension::Curve, token: s.to_owned() })
        }
    }

    /// No two curves share a word.
    pub proof fn lemma_tokens_distinct(a: Curve, b: Curve)
        ensures
            a.token() == b.token() <==> a == b,
    {
        reveal_strlit("bn128");
        reveal_strlit("bls12_381");
        reveal_strlit("bls12_377");
        reveal_strlit("bw6_761");
        assert(BN128@.len() == 5);
        assert(BLS12_381@.len() == 9 && BLS12_381@[7] == '8');
        assert(BLS12_377@.len() == 9 && BLS12_377@[7] == '7');
        assert(BW6_761@.len() == 7);
    }

    /// Every curve is read back from its own word; a text is read as a curve
    /// only if it is that curve's word; and a text that is no curve's word is
    /// turned down as unknown to the curve dimension, the text itself named.
    pub proof fn lemma_parse(text: Seq<char>, curve: Curve)
        ensures
            Curve::parse(curve.token()) == Ok::<Curve, ErrorModel>(curve),
            Curve::parse(text) == Ok::<Curve, ErrorModel>(curve) <==> text == curve.token(),
            (forall|c: Curve| #[trigger] c.token() != text) <==> Curve::parse(text) == Err::<
                Curve,
                ErrorModel,
            >(ErrorModel::UnknownIdentifier { dimension: Dimension::Curve, token: text }),
    {
        Curve::lemma_tokens_distinct(curve, Curve::Bn128);
        Curve::lemma_tokens_distinct(curve, Curve::Bls12_381);
        Curve::lemma_tokens_distinct(curve, Curve::Bls12_377);
        Curve::lemma_tokens_distinct(curve, Curve::Bw6_761);
    }
}

} // verus!
