//! The combinations of backend, curve and proving scheme that work together,
//! and the validation that admits a request only when it names one of them.

use vstd::prelude::*;
use crate::backend::Backend;
use crate::curve::Curve;
use crate::error::{ConfigError, Dimension, ErrorModel};
use crate::features::Features;
use crate::scheme::ProvingScheme;

verus! {

/// The combinations that a deployment with these features supports.
pub open spec fn allow_list(features: Features) -> Set<(Backend, Curve, ProvingScheme)> {
    let always = set![
        (Backend::Bellman, Curve::Bn128, ProvingScheme::G16),
        (Backend::Bellman, Curve::Bls12_381, ProvingScheme::G16),
        (Backend::Zexe, Curve::Bls12_377, ProvingScheme::GM17),
        (Backend::Zexe, Curve::Bw6_761, ProvingScheme::GM17),
        (Backend::Zexe, Curve::Bn128, ProvingScheme::GM17),
    ];
    if features.libsnark {
        always.union(optional_combinations())
    } else {
        always
    }
}

/// The combinations that only a deployment with libsnark supports.
pub open spec fn optional_combinations() -> Set<(Backend, Curve, ProvingScheme)> {
    set![
        (Backend::Libsnark, Curve::Bn128, ProvingScheme::GM17),
        (Backend::Libsnark, Curve::Bn128, ProvingScheme::PGHR13),
    ]
}

/// Whether the three work together in a deployment with these features.
pub open spec fn supported(
    backend: Backend,
    curve: Curve,
    scheme: ProvingScheme,
    features: Features,
) -> bool {
    allow_list(features).contains((backend, curve, scheme))
}

/// What validating three texts gives. The backend is read first, then the
/// curve, then the scheme, and the first text that its dimension does not
/// know is the one complained of; three known words are then admitted or
/// refused together.
pub open spec fn validate(
    backend: Seq<char>,
    curve: Seq<char>,
    scheme: Seq<char>,
    features: Features,
) -> Result<(Backend, Curve, ProvingScheme), ErrorModel> {
    match Backend::parse(backend, features) {
        Err(error) => Err(error),
        Ok(b) => match Curve::parse(curve) {
            Err(error) => Err(error),
            Ok(c) => match ProvingScheme::parse(scheme, features) {
                Err(error) => Err(error),
                Ok(s) => if supported(b, c, s, features) {
                    Ok((b, c, s))
                } else {
                    Err(
                        ErrorModel::UnsupportedCombination {
                            backend,
                            curve,
                            proving_scheme: scheme,
                        },
                    )
                },
            },
        },
    }
}

/// A backend, a curve and a proving scheme that work together.
///
/// A value of this type is made by validation alone, so to hold one is to
/// know that its combination is supported.
#[derive(Clone, Copy, Debug, PartialEq, Eq)]
pub struct Dimensions(Backend, Curve, ProvingScheme);

impl View for Dimensions {
    type V = (Backend, Curve, ProvingScheme);

    closed spec fn view(&self) -> (Backend, Curve, ProvingScheme) {
        (self.0, self.1, self.2)
    }
}

impl Dimensions {
    #[verifier::type_invariant]
    spec fn well_formed(self) -> bool {
        supported(self.0, self.1, self.2, Features::full())
    }

    /// Admits three typed values if they work together under these features.
    pub fn new(backend: Backend, curve: Curve, scheme: ProvingScheme, features: Features) -> (result:
        Option<Dimensions>)
        ensures
            match result {
                Some(dimensions) => dimensions@ == (backend, curve, scheme) && supported(
                    backend,
                    curve,
                    scheme,
                    features,
                ),
                None => !supported(backend, curve, scheme, features),
            },
    {
        let admitted = match (backend, curve, scheme) {
            (Backend::Bellman, Curve::Bn128, ProvingScheme::G16) => true,
            (Backend::Bellman, Curve::Bls12_381, ProvingScheme::G16) => true,
            (Backend::Zexe, Curve::Bls12_377, ProvingScheme::GM17) => true,
            (Backend::Zexe, Curve::Bw6_761, ProvingScheme::GM17) => true,
            (Backend::Zexe, Curve::Bn128, ProvingScheme::GM17) => true,
            (Backend::Libsnark, Curve::Bn128, ProvingScheme::GM17) => features.libsnark,
            (Backend::Libsnark, Curve::Bn128, ProvingScheme::PGHR13) => features.libsnark,
            _ => false,
        };
        if admitted {
            Some(Dimensions(backend, curve, scheme))
        } else {
            None
        }
    }

    /// Validates a request given as three words: backend, curve, scheme.
    pub fn try_from(s: (&str, &str, &str), features: Features) -> (result: Result<
        Dimensions,
        ConfigError,
    >)
        ensures
            validate(s.0@, s.1@, s.2@, features) == (match result {
                Ok(dimensions) => Ok(dimensions@),
                Err(error) => Err(error@),
            }),
    {
        let backend = match Backend::try_from(s.0, features) {
            Ok(backend) => backend,
            Err(error) => { return Err(error); },
        };
        let curve = match Curve::try_from(s.1) {
            Ok(curve) => curve,
            Err(error) => { return Err(error); },
        };
        let scheme = match ProvingScheme::try_from(s.2, features) {
            Ok(scheme) => scheme,
            Err(error) => { return Err(error); },
        };
        match Dimensions::new(backend, curve, scheme, features) {
            Some(dimensions) => Ok(dimensions),
            None => Err(
                ConfigError::UnsupportedCombination {
                    backend: s.0.to_owned(),
                    curve: s.1.to_owned(),
                    proving_scheme: s.2.to_owned(),
                },
            ),
        }
    }

    /// The backend of this combination.
    pub fn backend(&self) -> (backend: Backend)
        ensures
            backend == self@.0,
            supported(self@.0, self@.1, self@.2, Features::full()),
    {
        proof {
            use_type_invariant(self);
        }
        self.0
    }

    /// The curve of this combination.
    pub fn curve(&self) -> (curve: Curve)
        ensures
            curve == self@.1,
            supported(self@.0, self@.1, self@.2, Features::full()),
    {
        proof {
            use_type_invariant(self);
        }
        self.1
    }

    /// The proving scheme of this combination.
    pub fn proving_scheme(&self) -> (scheme: ProvingScheme)
        ensures
            scheme == self@.2,
            supported(self@.0, self@.1, self@.2, Features::full()),
    {
        proof {
            use_type_invariant(self);
        }
        self.2
    }
}

/// A supported combination, written in its own words, is admitted as itself.
pub proof fn lemma_supported_is_admitted(
    backend: Backend,
    curve: Curve,
    scheme: ProvingScheme,
    features: Features,
)
    requires
        supported(backend, curve, scheme, features),
    ensures
        validate(backend.token(), curve.token(), scheme.token(), features) == Ok::<
            (Backend, Curve, ProvingScheme),
            ErrorModel,
        >((backend, curve, scheme)),
{
    Backend::lemma_parse(backend.token(), backend, features);
    Curve::lemma_parse(curve.token(), curve);
    ProvingScheme::lemma_parse(scheme.token(), scheme, features);
}

/// Three words that the deployment knows, but whose combination it does not
/// support, are refused together, and the refusal names the three words.
pub proof fn lemma_unsupported_is_refused(
    backend: Backend,
    curve: Curve,
    scheme: ProvingScheme,
    features: Features,
)
    requires
        backend.available(features),
        scheme.available(features),
        !supported(backend, curve, scheme, features),
    ensures
        validate(backend.token(), curve.token(), scheme.token(), features) == Err::<
            (Backend, Curve, ProvingScheme),
            ErrorModel,
        >(
            ErrorModel::UnsupportedCombination {
                backend: backend.token(),
                curve: curve.token(),
                proving_scheme: scheme.token(),
            },
        ),
{
    Backend::lemma_parse(backend.token(), backend, features);
    Curve::lemma_parse(curve.token(), curve);
    ProvingScheme::lemma_parse(scheme.token(), scheme, features);
}

/// Validation admits three texts exactly when they are the words of a
/// supported combination, and then it gives that combination.
pub proof fn lemma_admitted_is_supported(
    backend: Seq<char>,
    curve: Seq<char>,
    scheme: Seq<char>,
    features: Features,
    admitted: (Backend, Curve, ProvingScheme),
)
    ensures
        validate(backend, curve, scheme, features) == Ok::<
            (Backend, Curve, ProvingScheme),
            ErrorModel,
        >(admitted) <==> {
            &&& backend == admitted.0.token()
            &&& curve == admitted.1.token()
            &&& scheme == admitted.2.token()
            &&& supported(admitted.0, admitted.1, admitted.2, features)
        },
{
    Backend::lemma_parse(backend, admitted.0, features);
    Curve::lemma_parse(curve, admitted.1);
    ProvingScheme::lemma_parse(scheme, admitted.2, features);
    if supported(admitted.0, admitted.1, admitted.2, features) {
        lemma_vocabulary_covers_allow_list(admitted.0, admitted.1, admitted.2, features);
    }
}

/// A deployment supports no combination whose backend or scheme it lacks.
pub proof fn lemma_vocabulary_covers_allow_list(
    backend: Backend,
    curve: Curve,
    scheme: ProvingScheme,
    features: Features,
)
    requires
        supported(backend, curve, scheme, features),
    ensures
        backend.available(features),
        scheme.available(features),
{
}

/// Every backend that a deployment has works in some combination.
pub proof fn lemma_backend_is_of_use(backend: Backend, features: Features) -> (with: (
    Curve,
    ProvingScheme,
))
    requires
        backend.available(features),
    ensures
        supported(backend, with.0, with.1, features),
{
    match backend {
        Backend::Bellman => (Curve::Bn128, ProvingScheme::G16),
        Backend::Zexe => (Curve::Bn128, ProvingScheme::GM17),
        Backend::Libsnark => (Curve::Bn128, ProvingScheme::GM17),
    }
}

/// Every curve works in some combination, whatever the deployment.
pub proof fn lemma_curve_is_of_use(curve: Curve, features: Features) -> (with: (
    Backend,
    ProvingScheme,
))
    ensures
        supported(with.0, curve, with.1, features),
{
    match curve {
        Curve::Bn128 => (Backend::Bellman, ProvingScheme::G16),
        Curve::Bls12_381 => (Backend::Bellman, ProvingScheme::G16),
        Curve::Bls12_377 => (Backend::Zexe, ProvingScheme::GM17),
        Curve::Bw6_761 => (Backend::Zexe, ProvingScheme::GM17),
    }
}

/// Every scheme that a deployment has works in some combination.
pub proof fn lemma_scheme_is_of_use(scheme: ProvingScheme, features: Features) -> (with: (
    Backend,
    Curve,
))
    requires
        scheme.available(features),
    ensures
        supported(with.0, with.1, scheme, features),
{
    match scheme {
        ProvingScheme::G16 => (Backend::Bellman, Curve::Bn128),
        ProvingScheme::GM17 => (Backend::Zexe, Curve::Bn128),
        ProvingScheme::PGHR13 => (Backend::Libsnark, Curve::Bn128),
    }
}

/// Including libsnark only adds: its backend's word, its scheme's word and
/// its two combinations come together, and all else stays as it was.
pub proof fn lemma_libsnark_only_adds(
    backend: Seq<char>,
    curve: Seq<char>,
    scheme: Seq<char>,
    features: Features,
)
    ensures
        allow_list(Features::full()) == allow_list(Features::baseline()).union(
            optional_combinations(),
        ),
        allow_list(Features::baseline()).disjoint(optional_combinations()),
        allow_list(features).subset_of(allow_list(Features::full())),
        validate(backend, curve, scheme, Features::baseline()) is Ok ==> validate(
            backend,
            curve,
            scheme,
            Features::full(),
        ) == validate(backend, curve, scheme, Features::baseline()),
{
}

/// Without libsnark its words are unknown: the word of its backend and the
/// word of its scheme are turned down whatever stands beside them, and its
/// two combinations are not supported. With libsnark both words are read and
/// both combinations are supported.
pub proof fn lemma_libsnark_switch(backend: Seq<char>, curve: Seq<char>, scheme: Seq<char>)
    ensures
        Backend::parse(Backend::Libsnark.token(), Features::baseline()) == Err::<
            Backend,
            ErrorModel,
        >(
            ErrorModel::UnknownIdentifier {
                dimension: Dimension::Backend,
                token: Backend::Libsnark.token(),
            },
        ),
        ProvingScheme::parse(ProvingScheme::PGHR13.token(), Features::baseline()) == Err::<
            ProvingScheme,
            ErrorModel,
        >(
            ErrorModel::UnknownIdentifier {
                dimension: Dimension::ProvingScheme,
                token: ProvingScheme::PGHR13.token(),
            },
        ),
        validate(Backend::Libsnark.token(), curve, scheme, Features::baseline()) is Err,
        validate(backend, curve, ProvingScheme::PGHR13.token(), Features::baseline()) is Err,
        !supported(Backend::Libsnark, Curve::Bn128, ProvingScheme::GM17, Features::baseline()),
        !supported(Backend::Libsnark, Curve::Bn128, ProvingScheme::PGHR13, Features::baseline()),
        Backend::parse(Backend::Libsnark.token(), Features::full()) == Ok::<Backend, ErrorModel>(
            Backend::Libsnark,
        ),
        ProvingScheme::parse(ProvingScheme::PGHR13.token(), Features::full()) == Ok::<
            ProvingScheme,
            ErrorModel,
        >(ProvingScheme::PGHR13),
        supported(Backend::Libsnark, Curve::Bn128, ProvingScheme::GM17, Features::full()),
        supported(Backend::Libsnark, Curve::Bn128, ProvingScheme::PGHR13, Features::full()),
{
    Backend::lemma_parse(Backend::Libsnark.token(), Backend::Libsnark, Features::baseline());
    Backend::lemma_parse(Backend::Libsnark.token(), Backend::Libsnark, Features::full());
    ProvingScheme::lemma_parse(
        ProvingScheme::PGHR13.token(),
        ProvingScheme::PGHR13,
        Features::baseline(),
    );
    ProvingScheme::lemma_parse(
        ProvingScheme::PGHR13.token(),
        ProvingScheme::PGHR13,
        Features::full(),
    );
}

/// There are five supported combinations, and seven with libsnark.
pub proof fn lemma_allow_list_size(features: Features)
    ensures
        allow_list(features).finite(),
        allow_list(features).len() == if features.libsnark { 7nat } else { 5nat },
{
    let full = set![
        (Backend::Bellman, Curve::Bn128, ProvingScheme::G16),
        (Backend::Bellman, Curve::Bls12_381, ProvingScheme::G16),
        (Backend::Zexe, Curve::Bls12_377, ProvingScheme::GM17),
        (Backend::Zexe, Curve::Bw6_761, ProvingScheme::GM17),
        (Backend::Zexe, Curve::Bn128, ProvingScheme::GM17),
        (Backend::Libsnark, Curve::Bn128, ProvingScheme::GM17),
        (Backend::Libsnark, Curve::Bn128, ProvingScheme::PGHR13),
    ];
    assert(full.len() == 7);
    assert(allow_list(Features::full()) =~= full);
}

} // verus!
