use codesign_verify::context::{Context, Handle, LeafCert};
use codesign_verify::engine::{Event, Request, CATALOG_CHECK_FLAGS, DIRECT_CHECK_FLAGS, TRUST_E_NOSIGNATURE};
use codesign_verify::error::Error;
use codesign_verify::guard::Release;
use codesign_verify::name::RawName;
use codesign_verify::{CodeSignVerifier, SignatureContext};

/// An attribute as the platform's name query returns it.
fn wide(s: Option<&str>) -> Vec<u16> {
    let mut v: Vec<u16> = match s {
        Some(s) => s.encode_utf16().collect(),
        None => Vec::new(),
    };
    v.push(0);
    v
}

fn raw_name(cn: Option<&str>, o: Option<&str>, ou: Option<&str>, c: Option<&str>) -> RawName {
    RawName {
        common_name: wide(cn),
        organization: wide(o),
        organization_unit: wide(ou),
        country: wide(c),
    }
}

fn leaf(subject: RawName, issuer: RawName) -> LeafCert {
    LeafCert { encoded: b"abc".to_vec(), serial: vec![0x60, 0x04, 0x33], subject, issuer }
}

/// Which way the platform answers for one file.
enum Platform {
    Embedded(LeafCert),
    Catalog(LeafCert),
    Unsigned,
}

/// Runs a verification against a platform that answers as `platform` says;
/// returns the release calls and the result.
fn run(
    verifier: CodeSignVerifier,
    platform: Platform,
) -> (Vec<Release>, Result<SignatureContext, Error>, Vec<Request>) {
    let (mut machine, mut req) = verifier.verify();
    let mut seen: Vec<Request> = Vec::new();
    let mut platform = Some(platform);
    loop {
        let ev = match &req {
            Request::VerifyFile { .. } => match platform.take() {
                Some(Platform::Embedded(l)) => Event::Trust { status: 0, state: 100, leaf: Some(l) },
                other => {
                    platform = other;
                    Event::Trust { status: TRUST_E_NOSIGNATURE, state: 100, leaf: None }
                }
            },
            Request::OpenFile { .. } => Event::Acquired(Ok(11)),
            Request::AcquireCatalogAdmin => Event::Acquired(Ok(22)),
            Request::HashFile { .. } => Event::Hashed(Ok(vec![0xab, 0x01])),
            Request::FindCatalog { .. } => match &platform {
                Some(Platform::Catalog(_)) => Event::Acquired(Ok(33)),
                _ => Event::Acquired(Ok(0)),
            },
            Request::CatalogInfo { .. } => Event::CatalogPath(Ok(wide(Some("c:\\cat\\nt5.cat")))),
            Request::VerifyCatalog { .. } => match platform.take() {
                Some(Platform::Catalog(l)) => Event::Trust { status: 0, state: 200, leaf: Some(l) },
                _ => Event::Trust { status: 1, state: 200, leaf: None },
            },
            Request::Finish { .. } => unreachable!(),
        };
        seen.push(req);
        req = machine.step(ev);
        if let Request::Finish { release, result } = req {
            return (release, result.map(SignatureContext::from_context), seen);
        }
    }
}

fn microsoft_leaf() -> LeafCert {
    leaf(
        raw_name(Some("Microsoft Windows"), Some("Microsoft Corporation"), None, Some("US")),
        raw_name(
            Some("Microsoft Windows Production PCA 2011"),
            Some("Microsoft Corporation"),
            None,
            Some("US"),
        ),
    )
}

fn verify_file(process_path: &str, expected_issuer: &str, platform: Platform) {
    let (_, result, _) = run(CodeSignVerifier::for_file(process_path), platform);
    match result {
        Ok(context) => {
            assert_eq!(context.issuer_name().organization.unwrap(), expected_issuer);
        }
        Err(err) => {
            panic!("failed to verify signature. {:?}", err);
        }
    }
}

#[test]
fn lib_test_signed() {
    let apple = leaf(
        raw_name(Some("Software Signing"), Some("Apple Inc."), None, Some("US")),
        raw_name(
            Some("Apple Code Signing Certification Authority"),
            Some("Apple Inc."),
            Some("Apple Certification Authority"),
            Some("US"),
        ),
    );
    let verifier = CodeSignVerifier::for_file("/sbin/ping");
    let (_, result, _) = run(verifier, Platform::Embedded(apple));
    let ctx = result.unwrap();

    assert_eq!(ctx.subject_name().organization.as_deref(), Some("Apple Inc."));

    assert_eq!(
        ctx.issuer_name().organization_unit.as_deref(),
        Some("Apple Certification Authority")
    );
}

#[test]
fn test_unsigned() {
    let (release, result, _) = run(CodeSignVerifier::for_file("target/debug/deps/harness"), Platform::Unsigned);
    assert!(matches!(result, Err(Error::Unsigned)));
    assert_eq!(
        release,
        vec![Release::CatalogAdmin(22), Release::File(11), Release::TrustState(100)]
    );
}

#[test]
fn test_embeded_signed_file() {
    verify_file(
        "c:\\windows\\system32\\svchost.exe",
        "Microsoft Corporation",
        Platform::Embedded(microsoft_leaf()),
    );
}

#[test]
fn test_catalog_signed_file() {
    verify_file(
        "c:\\windows\\system32\\cmd.exe",
        "Microsoft Corporation",
        Platform::Catalog(microsoft_leaf()),
    );
}

#[test]
fn embedded_signature_releases_nothing() {
    let (release, result, seen) =
        run(CodeSignVerifier::for_file("a.exe"), Platform::Embedded(microsoft_leaf()));
    assert!(release.is_empty());
    assert_eq!(seen.len(), 1);
    let ctx = result.unwrap();
    assert_eq!(ctx.into_context().state_handle(), 100);
}

#[test]
fn catalog_fallback_requests_and_releases() {
    let (release, result, seen) =
        run(CodeSignVerifier::for_file("cmd.exe"), Platform::Catalog(microsoft_leaf()));
    assert_eq!(
        release,
        vec![
            Release::CatalogContext { admin: 22, info: 33 },
            Release::CatalogAdmin(22),
            Release::File(11),
            Release::TrustState(100),
        ]
    );
    let ctx = result.unwrap();
    assert_eq!(ctx.subject_name().common_name.as_deref(), Some("Microsoft Windows"));
    assert_eq!(ctx.into_context().state_handle(), 200);
    match &seen[seen.len() - 1] {
        Request::VerifyCatalog { catalog, member, tag, flags } => {
            assert_eq!(*flags, CATALOG_CHECK_FLAGS);
            assert_eq!(*flags, 0x1400);
            assert_eq!(*catalog, wide(Some("c:\\cat\\nt5.cat")));
            assert_eq!(*member, wide(Some("cmd.exe")));
            assert_eq!(*tag, wide(Some("ab01")));
        }
        _ => panic!("the last request before the end is the catalog check"),
    }
    match &seen[seen.len() - 3] {
        Request::FindCatalog { admin, hash } => {
            assert_eq!(*admin, 22);
            assert_eq!(*hash, vec![0xab, 0x01]);
        }
        _ => panic!("the catalog lookup comes before the catalog info"),
    }
}

#[test]
fn catalog_check_failure_is_an_os_error() {
    let (mut m, _) = CodeSignVerifier::for_file("x").verify();
    m.step(Event::Trust { status: TRUST_E_NOSIGNATURE, state: 0, leaf: None });
    m.step(Event::Acquired(Ok(11)));
    m.step(Event::Acquired(Ok(22)));
    m.step(Event::Hashed(Ok(vec![1])));
    m.step(Event::Acquired(Ok(33)));
    m.step(Event::CatalogPath(Ok(wide(Some("c.cat")))));
    match m.step(Event::Trust { status: TRUST_E_NOSIGNATURE, state: 200, leaf: None }) {
        Request::Finish { release, result } => {
            assert!(matches!(result, Err(Error::OsError(-2146762496))));
            assert_eq!(
                release,
                vec![
                    Release::TrustState(200),
                    Release::CatalogContext { admin: 22, info: 33 },
                    Release::CatalogAdmin(22),
                    Release::File(11),
                ]
            );
        }
        _ => panic!("a failed catalog check ends the verification"),
    }
}

#[test]
fn direct_failure_is_not_retried() {
    let (mut m, _) = CodeSignVerifier::for_file("x").verify();
    match m.step(Event::Trust { status: 0x8009_6010, state: 7, leaf: None }) {
        Request::Finish { release, result } => {
            assert!(matches!(result, Err(Error::OsError(-2146869232))));
            assert_eq!(release, vec![Release::TrustState(7)]);
        }
        _ => panic!("a bad digest ends the verification"),
    }
}

#[test]
fn trusted_without_certificate() {
    let (mut m, _) = CodeSignVerifier::for_file("x").verify();
    match m.step(Event::Trust { status: 0, state: 7, leaf: None }) {
        Request::Finish { release, result } => {
            assert!(matches!(result, Err(Error::LeafCertNotFound)));
            assert_eq!(release, vec![Release::TrustState(7)]);
        }
        _ => panic!("the verification ends"),
    }
}

#[test]
fn open_failure_releases_direct_state() {
    let (mut m, _) = CodeSignVerifier::for_file("x").verify();
    m.step(Event::Trust { status: TRUST_E_NOSIGNATURE, state: 9, leaf: None });
    match m.step(Event::Acquired(Err(5))) {
        Request::Finish { release, result } => {
            assert!(matches!(result, Err(Error::OsError(5))));
            assert_eq!(release, vec![Release::TrustState(9)]);
        }
        _ => panic!("the verification ends"),
    }
}

#[test]
fn answer_out_of_turn() {
    let (mut m, _) = CodeSignVerifier::for_file("x").verify();
    match m.step(Event::Hashed(Ok(vec![1]))) {
        Request::Finish { release, result } => {
            assert!(matches!(result, Err(Error::OsError(87))));
            assert!(release.is_empty());
        }
        _ => panic!("the verification ends"),
    }
    match m.step(Event::Trust { status: 0, state: 4, leaf: None }) {
        Request::Finish { release, result } => {
            assert!(matches!(result, Err(Error::OsError(87))));
            assert_eq!(release, vec![Release::TrustState(4)]);
        }
        _ => panic!("a finished verification stays finished"),
    }
}

#[test]
fn first_request_is_the_direct_check() {
    let (_, r) = CodeSignVerifier::for_file("ab").verify();
    match r {
        Request::VerifyFile { path, flags } => {
            assert_eq!(path, vec![97, 98, 0]);
            assert_eq!(flags, DIRECT_CHECK_FLAGS);
            assert_eq!(flags, 0x2022);
        }
        _ => panic!("the direct check comes first"),
    }
}

#[test]
fn missing_process_is_an_os_error() {
    assert!(matches!(CodeSignVerifier::for_pid(Err(87)), Err(Error::OsError(87))));
}

#[test]
fn malformed_process_path() {
    assert!(matches!(CodeSignVerifier::for_pid(Ok(Vec::new())), Err(Error::InvalidPath)));
    assert!(matches!(CodeSignVerifier::for_pid(Ok(vec![97, 0, 98])), Err(Error::InvalidPath)));
    let (_, r) = CodeSignVerifier::for_pid(Ok(vec![97, 98])).unwrap().verify();
    match r {
        Request::VerifyFile { path, .. } => assert_eq!(path, vec![97, 98, 0]),
        _ => panic!("the direct check comes first"),
    }
}

fn context_with(encoded: &[u8], serial: Vec<u8>) -> SignatureContext {
    let l = LeafCert {
        encoded: encoded.to_vec(),
        serial,
        subject: raw_name(None, None, None, None),
        issuer: raw_name(None, None, None, None),
    };
    let state: Handle = 1;
    SignatureContext::from_context(Context::new(state, Some(l)).unwrap())
}

#[test]
fn serial_is_byte_order_corrected() {
    let ctx = context_with(b"", vec![0x01, 0x02, 0x03]);
    assert_eq!(ctx.serial(), "030201");
}

#[test]
fn serial_of_windows_certificate() {
    let stored: Vec<u8> = vec![
        0x60, 0x04, 0x00, 0x00, 0x00, 0x00, 0xb3, 0x6f, 0x5f, 0x31, 0x12, 0xa9, 0x42, 0xcf, 0x60,
        0x04, 0x00, 0x00, 0x33,
    ];
    let ctx = context_with(b"", stored);
    assert_eq!(ctx.serial(), "3300000460cf42a912315f6fb3000000000460");
}

#[test]
fn thumbprints_are_digests_of_the_encoding() {
    let ctx = context_with(b"abc", Vec::new());
    assert_eq!(ctx.sha1_thumbprint(), "a9993e364706816aba3e25717850c26c9cd0d89d");
    assert_eq!(
        ctx.sha256_thumbprint(),
        "ba7816bf8f01cfea414140de5dae2223b00361a396177a9cb410ff61f20015ad"
    );
}

#[test]
fn thumbprints_repeat() {
    let ctx = context_with(b"certificate", Vec::new());
    assert_eq!(ctx.sha1_thumbprint(), ctx.sha1_thumbprint());
    assert_eq!(ctx.sha256_thumbprint(), ctx.sha256_thumbprint());
    assert_eq!(ctx.sha1_thumbprint().len(), 40);
    assert_eq!(ctx.sha256_thumbprint().len(), 64);
}

#[test]
fn absent_attributes_are_none() {
    let ctx = context_with(b"", Vec::new());
    let n = ctx.subject_name();
    assert_eq!(n.common_name, None);
    assert_eq!(n.organization, None);
    assert_eq!(n.organization_unit, None);
    assert_eq!(n.country, None);
}

#[test]
fn unusable_paths_are_invalid() {
    for p in ["", "a\u{0}b"] {
        let (_, r) = CodeSignVerifier::for_file(p).verify();
        match r {
            Request::Finish { release, result } => {
                assert!(matches!(result, Err(Error::InvalidPath)));
                assert!(release.is_empty());
            }
            _ => panic!("an unusable path ends the verification at once"),
        }
    }
}

#[test]
fn invalid_file_handle_ends_the_verification() {
    let (mut m, _) = CodeSignVerifier::for_file("x").verify();
    m.step(Event::Trust { status: TRUST_E_NOSIGNATURE, state: 9, leaf: None });
    match m.step(Event::Acquired(Ok(-1))) {
        Request::Finish { release, result } => {
            assert!(matches!(result, Err(Error::OsError(6))));
            assert_eq!(release, vec![Release::TrustState(9)]);
        }
        _ => panic!("an invalid file handle ends the verification"),
    }
}

#[test]
fn paths_are_encoded_as_utf16() {
    let (_, r) = CodeSignVerifier::for_file("a\u{e9}\u{1f600}").verify();
    match r {
        Request::VerifyFile { path, .. } => {
            assert_eq!(path, vec![97, 0xe9, 0xd83d, 0xde00, 0]);
            let expected: Vec<u16> = "a\u{e9}\u{1f600}".encode_utf16().chain([0]).collect();
            assert_eq!(path, expected);
        }
        _ => panic!("the direct check comes first"),
    }
}
