use papi_bindings::papi_version_number;
use papi_bindings::version::check_negotiated_version;
use papi_bindings::version::parse_version_output;
use papi_bindings::version::requested_version;
use papi_bindings::version::requested_version_from_output;
use papi_bindings::ErrorKind;
use papi_bindings::PapiError;

#[test]
fn packing_places_each_component_in_its_byte() {
    assert_eq!(papi_version_number(7, 1, 0, 0), 0x0701_0000);
    assert_eq!(papi_version_number(5, 4, 3, 2), 0x0504_0302);
    assert_eq!(papi_version_number(0, 0, 0, 0), 0);
    assert_eq!(papi_version_number(255, 255, 255, 255), 0xffff_ffff);
}

#[test]
fn requested_version_keeps_only_major_and_minor() {
    assert_eq!(requested_version(7, 1, 0, 0), 0x0701_0000);
    assert_eq!(requested_version(7, 1, 3, 9), 0x0701_0000);
    assert_eq!(requested_version(6, 0, 0, 1), 0x0600_0000);
    assert_eq!(requested_version(7, 1, 3, 9) & 0xffff, 0);
}

#[test]
fn negotiation_compares_only_the_top_sixteen_bits() {
    assert_eq!(check_negotiated_version(0x0701_0000, 0x0701_0000), Ok(()));
    // Revision and increment bits of the answer do not matter.
    assert_eq!(check_negotiated_version(0x0701_0000, 0x0701_0001), Ok(()));
    assert_eq!(check_negotiated_version(0x0701_0000, 0x0701_0302), Ok(()));
    let err = check_negotiated_version(0x0701_0000, 0x0702_0000).unwrap_err();
    assert_eq!(err, PapiError { code: 0x0702_0000 });
    assert_eq!(err.kind(), ErrorKind::VersionMismatch);
    let err = check_negotiated_version(0x0701_0000, -1).unwrap_err();
    assert_eq!(err, PapiError { code: -1 });
}

#[test]
fn parses_the_last_token_of_the_probe_output() {
    let out = b"PAPI version: 7.1.0.0\n".to_vec();
    assert_eq!(parse_version_output(&out), Ok((7, 1, 0, 0)));
    let out = b"5.4.3.2".to_vec();
    assert_eq!(parse_version_output(&out), Ok((5, 4, 3, 2)));
    let out = b"  papi_version reports 6.0.0.1  \t\r\n".to_vec();
    assert_eq!(parse_version_output(&out), Ok((6, 0, 0, 1)));
}

#[test]
fn parses_leading_zeros_and_large_components() {
    let out = b"007.01.0.0".to_vec();
    assert_eq!(parse_version_output(&out), Ok((7, 1, 0, 0)));
    let out = b"4294967295.0.0.1".to_vec();
    assert_eq!(parse_version_output(&out), Ok((4294967295, 0, 0, 1)));
}

#[test]
fn rejects_malformed_version_strings() {
    let cases: &[&[u8]] = &[
        b"",
        b"   \n",
        b"7.1.0",
        b"7.1.0.0.0",
        b"7.1.0.x",
        b"a.b.c.d",
        b"7..0.0",
        b".1.0.0",
        b"7.1.0.",
        b"4294967296.0.0.0",
        b"version only",
    ];
    for case in cases {
        let out = case.to_vec();
        assert_eq!(
            parse_version_output(&out),
            Err(PapiError { code: -1 }),
            "input {:?} should be rejected",
            String::from_utf8_lossy(case)
        );
    }
}

#[test]
fn requested_version_is_computed_from_the_probe_output() {
    let out = b"PAPI version: 7.1.0.0\n".to_vec();
    assert_eq!(requested_version_from_output(&out), Ok(0x0701_0000));
    let out = b"5.4.3.2\n".to_vec();
    assert_eq!(requested_version_from_output(&out), Ok(0x0504_0000));
    let out = b"not a version\n".to_vec();
    assert_eq!(requested_version_from_output(&out), Err(PapiError { code: -1 }));
}

#[test]
fn whitespace_splits_tokens_inside_the_output() {
    // The version must be its own token: a dot string glued to text is
    // taken whole and rejected.
    let out = b"release-7.1.0.0\n".to_vec();
    assert_eq!(parse_version_output(&out), Err(PapiError { code: -1 }));
    let out = b"release 7.1.0.0\n".to_vec();
    assert_eq!(parse_version_output(&out), Ok((7, 1, 0, 0)));
}
