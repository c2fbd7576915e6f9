use hfc::target::{Arch, CallingConvention, Os, ParseError, TargetTriplet};

#[test]
fn test_target_triplet_from_str() {
    let triplets = vec![
        "x86_64-unknown-linux",
        "x86_64-unknown-windows",
        "x86-unknown-linux",
        "x86-unknown-windows",
    ];
    let expected_archs = vec![Arch::X86_64, Arch::X86_64, Arch::X86, Arch::X86];

    for (triplet, expected_arch) in triplets.iter().zip(expected_archs.iter()) {
        let result = TargetTriplet::from_str(triplet);
        assert!(result.is_ok(), "Failed to parse triplet: {}", triplet);
        let target_triplet = result.unwrap();
        assert_eq!(
            target_triplet.target.arch,
            *expected_arch,
            "Unexpected arch for triplet: {}",
            triplet
        );
    }
}

#[test]
fn known_triples_get_os_specific_calling_conventions() {
    let t = TargetTriplet::from_str("x86_64-unknown-linux").unwrap();
    assert_eq!(t.target.arch, Arch::X86_64);
    assert_eq!(t.target.calling_convention, CallingConvention::SystemV);

    let t = TargetTriplet::from_str("x86_64-unknown-windows").unwrap();
    assert_eq!(t.target.arch, Arch::X86_64);
    assert_eq!(t.target.calling_convention, CallingConvention::WindowsFastcall);

    let t = TargetTriplet::from_str("x86-unknown-linux").unwrap();
    assert_eq!(t.target.arch, Arch::X86);
    assert_eq!(t.target.calling_convention, CallingConvention::Cdecl);

    let t = TargetTriplet::from_str("x86-unknown-windows").unwrap();
    assert_eq!(t.target.arch, Arch::X86);
    assert_eq!(t.target.calling_convention, CallingConvention::Stdcall);

    let t = TargetTriplet::from_str("aarch64-apple-bsd").unwrap();
    assert_eq!(t.target.arch, Arch::Aarch64);
    assert_eq!(t.target.calling_convention, CallingConvention::SystemV);
}

#[test]
fn wrong_component_count_is_malformed() {
    assert_eq!(
        TargetTriplet::from_str("x86_64-linux"),
        Err(ParseError::InvalidTargetTriplet)
    );
    assert_eq!(
        TargetTriplet::from_str("a-b-c-d"),
        Err(ParseError::InvalidTargetTriplet)
    );
    assert_eq!(
        TargetTriplet::from_str(""),
        Err(ParseError::InvalidTargetTriplet)
    );
    assert_eq!(
        TargetTriplet::from_str("x86_64"),
        Err(ParseError::InvalidTargetTriplet)
    );
}

#[test]
fn unknown_host_is_reported_regardless_of_rest() {
    assert_eq!(
        TargetTriplet::from_str("bogus-unknown-linux"),
        Err(ParseError::UnknownTargetTripletHost)
    );
    assert_eq!(
        TargetTriplet::from_str("X86-unknown-linux"),
        Err(ParseError::UnknownTargetTripletHost)
    );
    assert_eq!(
        TargetTriplet::from_str("-unknown-nowhere"),
        Err(ParseError::UnknownTargetTripletHost)
    );
}

#[test]
fn unknown_system_is_reported_as_unsupported_without_os() {
    assert_eq!(
        TargetTriplet::from_str("x86_64-unknown-freebsd"),
        Err(ParseError::UnsupportedWithoutOs)
    );
    assert_eq!(
        TargetTriplet::from_str("riscv64-unknown-"),
        Err(ParseError::UnsupportedWithoutOs)
    );
}

#[test]
fn absent_triple_yields_native_descriptor() {
    let r = TargetTriplet::resolve_or_native(None, Arch::X86_64, Os::Linux);
    assert!(r.is_ok());
    let t = r.unwrap();
    assert_eq!(t.target.arch, Arch::X86_64);
    assert_eq!(t.target.calling_convention, CallingConvention::SystemV);
}

#[test]
fn native_string_and_no_string_round_trip() {
    let from_none = TargetTriplet::resolve_or_native(None, Arch::X86_64, Os::Linux).unwrap();
    let from_triple =
        TargetTriplet::resolve_or_native(Some("x86_64-unknown-linux"), Arch::X86_64, Os::Linux)
            .unwrap();
    assert_eq!(from_none.target.arch, from_triple.target.arch);
    assert_eq!(
        from_none.target.calling_convention,
        from_triple.target.calling_convention
    );

    let from_none = TargetTriplet::resolve_or_native(None, Arch::Aarch64, Os::Windows).unwrap();
    let from_triple =
        TargetTriplet::resolve_or_native(Some("aarch64-unknown-windows"), Arch::Aarch64, Os::Windows)
            .unwrap();
    assert_eq!(from_none, from_triple);
}
