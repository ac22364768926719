use zk_dimensions::{Backend, ConfigError, Curve, Dimension, Dimensions, Features, ProvingScheme};

const BASELINE: Features = Features { libsnark: false };
const WITH_LIBSNARK: Features = Features { libsnark: true };

#[test]
fn libsnark_word_is_unknown_without_libsnark() {
    let error = Backend::try_from("libsnark", BASELINE).unwrap_err();
    assert_eq!(
        error,
        ConfigError::UnknownIdentifier {
            dimension: Dimension::Backend,
            token: "libsnark".to_string(),
        }
    );
    assert_eq!(error.message(), "Unknown backend libsnark");
    assert_eq!(Backend::try_from("libsnark", WITH_LIBSNARK), Ok(Backend::Libsnark));
}

#[test]
fn pghr13_word_is_unknown_without_libsnark() {
    let error = ProvingScheme::try_from("pghr13", BASELINE).unwrap_err();
    assert_eq!(
        error,
        ConfigError::UnknownIdentifier {
            dimension: Dimension::ProvingScheme,
            token: "pghr13".to_string(),
        }
    );
    assert_eq!(error.message(), "Unknown proving scheme pghr13");
    assert_eq!(ProvingScheme::try_from("pghr13", WITH_LIBSNARK), Ok(ProvingScheme::PGHR13));
}

#[test]
fn libsnark_combinations_need_libsnark() {
    let with_gm17 = Dimensions::try_from(("libsnark", "bn128", "gm17"), WITH_LIBSNARK).unwrap();
    assert_eq!(with_gm17.backend(), Backend::Libsnark);
    assert_eq!(with_gm17.curve(), Curve::Bn128);
    assert_eq!(with_gm17.proving_scheme(), ProvingScheme::GM17);
    let with_pghr13 = Dimensions::try_from(("libsnark", "bn128", "pghr13"), WITH_LIBSNARK).unwrap();
    assert_eq!(with_pghr13.backend(), Backend::Libsnark);
    assert_eq!(with_pghr13.curve(), Curve::Bn128);
    assert_eq!(with_pghr13.proving_scheme(), ProvingScheme::PGHR13);

    assert_eq!(
        Dimensions::try_from(("libsnark", "bn128", "gm17"), BASELINE).unwrap_err().message(),
        "Unknown backend libsnark"
    );
    assert_eq!(
        Dimensions::try_from(("libsnark", "bn128", "pghr13"), BASELINE).unwrap_err().message(),
        "Unknown backend libsnark"
    );
    assert_eq!(
        Dimensions::try_from(("zexe", "bn128", "pghr13"), BASELINE).unwrap_err().message(),
        "Unknown proving scheme pghr13"
    );
}

#[test]
fn typed_libsnark_values_are_refused_without_libsnark() {
    assert_eq!(
        Dimensions::new(Backend::Libsnark, Curve::Bn128, ProvingScheme::GM17, BASELINE),
        None
    );
    assert_eq!(
        Dimensions::new(Backend::Libsnark, Curve::Bn128, ProvingScheme::PGHR13, BASELINE),
        None
    );
    assert!(Dimensions::new(Backend::Libsnark, Curve::Bn128, ProvingScheme::GM17, WITH_LIBSNARK)
        .is_some());
    assert!(Dimensions::new(Backend::Libsnark, Curve::Bn128, ProvingScheme::PGHR13, WITH_LIBSNARK)
        .is_some());
}

#[test]
fn libsnark_pairs_with_bn128_only() {
    for curve in ["bls12_381", "bls12_377", "bw6_761"] {
        for scheme in ["gm17", "pghr13", "g16"] {
            let error = Dimensions::try_from(("libsnark", curve, scheme), WITH_LIBSNARK).unwrap_err();
            assert_eq!(
                error,
                ConfigError::UnsupportedCombination {
                    backend: "libsnark".to_string(),
                    curve: curve.to_string(),
                    proving_scheme: scheme.to_string(),
                }
            );
        }
    }
    assert!(Dimensions::try_from(("libsnark", "bn128", "g16"), WITH_LIBSNARK).is_err());
}

#[test]
fn pghr13_pairs_with_libsnark_only() {
    for backend in ["bellman", "zexe"] {
        let error = Dimensions::try_from((backend, "bn128", "pghr13"), WITH_LIBSNARK).unwrap_err();
        assert_eq!(
            error.message(),
            format!(
                "Unsupported combination of dimensions (backend: {}, curve: bn128, proving scheme: pghr13)",
                backend
            )
        );
    }
}

#[test]
fn including_libsnark_keeps_what_was_accepted() {
    let requests = [
        ("bellman", "bn128", "g16"),
        ("bellman", "bls12_381", "g16"),
        ("zexe", "bls12_377", "gm17"),
        ("zexe", "bw6_761", "gm17"),
        ("zexe", "bn128", "gm17"),
    ];
    for request in requests {
        let without = Dimensions::try_from(request, BASELINE).unwrap();
        let with = Dimensions::try_from(request, WITH_LIBSNARK).unwrap();
        assert_eq!(without, with);
    }
}
