use anonssh::destination::{parse_destination, validate_exit_country_target};
use anonssh::error::AnonError;
use anonssh::fingerprint::normalize_fingerprint;
use anonssh::methods::format_methods;
use anonssh::transport::{resolve_pt_path, PtCandidate};
use russh::{MethodKind, MethodSet};
use std::io::Write;

#[test]
fn parses_destination_from_last_at() {
    let (user, host) = parse_destination("name@realm@example.com").unwrap();
    assert_eq!((user, host), ("name@realm".to_string(), "example.com".to_string()));
}

#[test]
fn normalizes_sha256_fingerprint() {
    assert_eq!(normalize_fingerprint("SHA256:abc"), "abc");
    assert_eq!(normalize_fingerprint("abc"), "abc");
}

#[test]
fn formats_remaining_authentication_methods() {
    let methods = MethodSet::from(&[MethodKind::Password, MethodKind::KeyboardInteractive][..]);
    assert_eq!(format_methods(&methods), "password,keyboard-interactive");
    assert_eq!(format_methods(&MethodSet::empty()), "none");
}

#[test]
fn validates_explicit_pluggable_transport_path() {
    let mut file = tempfile::NamedTempFile::new().unwrap();
    file.write_all(b"test").unwrap();
    let metadata = file.as_file().metadata().unwrap();
    let path = file.path().display().to_string();
    let candidate = PtCandidate { path: path.clone(), is_file: metadata.is_file(), unix_mode: Some(0o700) };
    let resolved = resolve_pt_path(Some(candidate)).ok().unwrap();
    assert_eq!(resolved, path);
}

#[test]
fn rejects_missing_pluggable_transport_path() {
    let missing = tempfile::tempdir().unwrap().path().join("definitely-missing-anonssh-lyrebird");
    let candidate = PtCandidate { path: missing.display().to_string(), is_file: missing.is_file(), unix_mode: None };
    let error = match resolve_pt_path(Some(candidate)) {
        Err(e) => e.message(),
        Ok(_) => panic!("a missing file was accepted"),
    };
    assert!(error.contains("not a file"));
}

#[test]
fn rejects_exit_country_for_onion_service() {
    let country = "DE";
    let destination = "user@example.onion";
    let error = match validate_exit_country_target(Some(country), destination) {
        Err(e) => e,
        Ok(()) => panic!("an onion destination was accepted with an exit country"),
    };
    assert!(matches!(error, AnonError::ExitCountryForOnion));
    assert!(error.message().contains("onion service"));
}
