use zk_dimensions::{Backend, ConfigError, Curve, Dimensions, Features, ProvingScheme};

const BASELINE: Features = Features { libsnark: false };
const WITH_LIBSNARK: Features = Features { libsnark: true };

const BACKENDS: [(&str, Backend); 3] =
    [("bellman", Backend::Bellman), ("zexe", Backend::Zexe), ("libsnark", Backend::Libsnark)];

const CURVES: [(&str, Curve); 4] = [
    ("bn128", Curve::Bn128),
    ("bls12_381", Curve::Bls12_381),
    ("bls12_377", Curve::Bls12_377),
    ("bw6_761", Curve::Bw6_761),
];

const SCHEMES: [(&str, ProvingScheme); 3] =
    [("g16", ProvingScheme::G16), ("gm17", ProvingScheme::GM17), ("pghr13", ProvingScheme::PGHR13)];

const ALWAYS: [(Backend, Curve, ProvingScheme); 5] = [
    (Backend::Bellman, Curve::Bn128, ProvingScheme::G16),
    (Backend::Bellman, Curve::Bls12_381, ProvingScheme::G16),
    (Backend::Zexe, Curve::Bls12_377, ProvingScheme::GM17),
    (Backend::Zexe, Curve::Bw6_761, ProvingScheme::GM17),
    (Backend::Zexe, Curve::Bn128, ProvingScheme::GM17),
];

const WITH_LIBSNARK_ONLY: [(Backend, Curve, ProvingScheme); 2] = [
    (Backend::Libsnark, Curve::Bn128, ProvingScheme::GM17),
    (Backend::Libsnark, Curve::Bn128, ProvingScheme::PGHR13),
];

fn expected(triple: (Backend, Curve, ProvingScheme), features: Features) -> bool {
    ALWAYS.contains(&triple) || (features.libsnark && WITH_LIBSNARK_ONLY.contains(&triple))
}

#[test]
fn typed_triples_are_admitted_exactly_when_listed() {
    for features in [BASELINE, WITH_LIBSNARK] {
        let mut admitted: usize = 0;
        for (_, backend) in BACKENDS {
            for (_, curve) in CURVES {
                for (_, scheme) in SCHEMES {
                    let made = Dimensions::new(backend, curve, scheme, features);
                    assert_eq!(made.is_some(), expected((backend, curve, scheme), features));
                    if let Some(dimensions) = made {
                        admitted += 1;
                        assert_eq!(dimensions.backend(), backend);
                        assert_eq!(dimensions.curve(), curve);
                        assert_eq!(dimensions.proving_scheme(), scheme);
                    }
                }
            }
        }
        assert_eq!(admitted, if features.libsnark { 7 } else { 5 });
    }
}

#[test]
fn listed_triples_come_back_as_written() {
    for features in [BASELINE, WITH_LIBSNARK] {
        for (backend_word, backend) in BACKENDS {
            for (curve_word, curve) in CURVES {
                for (scheme_word, scheme) in SCHEMES {
                    if !expected((backend, curve, scheme), features) {
                        continue;
                    }
                    let dimensions =
                        Dimensions::try_from((backend_word, curve_word, scheme_word), features)
                            .unwrap();
                    assert_eq!(dimensions.backend(), backend);
                    assert_eq!(dimensions.curve(), curve);
                    assert_eq!(dimensions.proving_scheme(), scheme);
                }
            }
        }
    }
}

#[test]
fn known_words_outside_the_list_are_refused_together() {
    for features in [BASELINE, WITH_LIBSNARK] {
        let mut refused: usize = 0;
        for (backend_word, backend) in BACKENDS {
            for (curve_word, curve) in CURVES {
                for (scheme_word, scheme) in SCHEMES {
                    let known = features.libsnark
                        || (backend != Backend::Libsnark && scheme != ProvingScheme::PGHR13);
                    if !known || expected((backend, curve, scheme), features) {
                        continue;
                    }
                    refused += 1;
                    let error =
                        Dimensions::try_from((backend_word, curve_word, scheme_word), features)
                            .unwrap_err();
                    assert_eq!(
                        error,
                        ConfigError::UnsupportedCombination {
                            backend: backend_word.to_string(),
                            curve: curve_word.to_string(),
                            proving_scheme: scheme_word.to_string(),
                        }
                    );
                    assert_eq!(
                        error.message(),
                        format!(
                            "Unsupported combination of dimensions (backend: {}, curve: {}, proving scheme: {})",
                            backend_word, curve_word, scheme_word
                        )
                    );
                }
            }
        }
        assert_eq!(refused, if features.libsnark { 36 - 7 } else { 16 - 5 });
    }
}

#[test]
fn bellman_with_the_zexe_curves_is_refused() {
    let error = Dimensions::try_from(("bellman", "bw6_761", "g16"), BASELINE).unwrap_err();
    assert_eq!(
        error.message(),
        "Unsupported combination of dimensions (backend: bellman, curve: bw6_761, proving scheme: g16)"
    );
    assert!(Dimensions::try_from(("bellman", "bls12_377", "g16"), BASELINE).is_err());
    assert!(Dimensions::try_from(("bellman", "bn128", "gm17"), BASELINE).is_err());
    assert!(Dimensions::try_from(("zexe", "bls12_381", "gm17"), BASELINE).is_err());
}

#[test]
fn a_combination_can_be_copied_and_compared() {
    let first = Dimensions::try_from(("zexe", "bn128", "gm17"), BASELINE).unwrap();
    let second = first;
    assert_eq!(first, second);
    let other = Dimensions::new(Backend::Zexe, Curve::Bw6_761, ProvingScheme::GM17, BASELINE).unwrap();
    assert_ne!(first, other);
    assert_eq!(
        Dimensions::new(Backend::Zexe, Curve::Bn128, ProvingScheme::GM17, WITH_LIBSNARK),
        Some(first)
    );
}
