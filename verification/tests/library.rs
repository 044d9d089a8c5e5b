use anonssh::auth::{
    auth_remaining, Answer, AuthAction, AuthEvent, AuthPhase, AuthReply, Authenticator,
    KeyboardPrompt, KeyboardReply,
};
use anonssh::destination::{onion_host, parse_destination, select_destination, validate_exit_country_target};
use anonssh::error::AnonError;
use anonssh::fingerprint::{accepts_fingerprint, normalize_fingerprint, Handler};
use anonssh::key::{KeyAction, KeyEvent, KeyFailure, KeyLoader, KeyPhase};
use anonssh::methods::{format_methods, methods_contain, AuthMethod};
use anonssh::session::{exit_code, pty_size, Session, SessionAction, SessionEvent};
use anonssh::text::{join_strings, trim_line_ending};
use anonssh::transport::{
    add_protocol, bridges_enabled, collect_protocols, tor_storage, pt_binary_names, pt_path_variable, pt_sources, resolve_pt_path,
    tor_browser_pt_locations, PtCandidate, PtSource,
};
use russh::keys::PublicKey;
use russh::{MethodKind, MethodSet};

const ED25519_KEY: &str = "ssh-ed25519 AAAAC3NzaC1lZDI1NTE5AAAAILM+rvN+ot98qgEN796jTiQfZfG1KaT0PtFDJ/XFSqti user@example.com";
const ED25519_FINGERPRINT: &str = "SHA256:UCUiLr7Pjs9wFFJMDByLgc3NrtdU344OgUM45wZPcIQ";

fn server_key() -> Vec<u8> {
    PublicKey::from_openssh(ED25519_KEY).unwrap().to_bytes().unwrap()
}

fn methods(kinds: &[MethodKind]) -> MethodSet {
    MethodSet::from(kinds)
}

fn failure(kinds: &[MethodKind]) -> AuthReply {
    AuthReply::Failure { remaining_methods: methods(kinds), partial_success: false }
}

// ---- destination ----

#[test]
fn destination_needs_user_and_host() {
    assert!(matches!(parse_destination("@host"), Err(AnonError::InvalidDestination)));
    assert!(matches!(parse_destination("user@"), Err(AnonError::InvalidDestination)));
    assert!(matches!(parse_destination("userhost"), Err(AnonError::InvalidDestination)));
    assert!(matches!(parse_destination(""), Err(AnonError::InvalidDestination)));
    assert!(matches!(parse_destination("a@b@"), Err(AnonError::InvalidDestination)));
    let (user, host) = parse_destination("u@h").unwrap();
    assert_eq!((user.as_str(), host.as_str()), ("u", "h"));
    let (user, host) = parse_destination("@@h").unwrap();
    assert_eq!((user.as_str(), host.as_str()), ("@", "h"));
}

#[test]
fn destination_keeps_unicode_intact() {
    let (user, host) = parse_destination("jürgen@bücher.example").unwrap();
    assert_eq!((user.as_str(), host.as_str()), ("jürgen", "bücher.example"));
}

#[test]
fn onion_detection_ignores_ascii_case() {
    assert!(onion_host("abc.onion"));
    assert!(onion_host("ABC.ONION"));
    assert!(onion_host(".OnIoN"));
    assert!(!onion_host("onion"));
    assert!(!onion_host("abc.onion.example"));
    assert!(!onion_host("abconion"));
}

#[test]
fn exit_country_allowed_for_ordinary_hosts() {
    assert!(validate_exit_country_target(Some("DE"), "example.com").is_ok());
    assert!(validate_exit_country_target(None, "example.onion").is_ok());
    assert!(matches!(validate_exit_country_target(Some("DE"), "X.Onion"), Err(AnonError::ExitCountryForOnion)));
}

#[test]
fn run_destination_selection() {
    assert!(matches!(select_destination(true, None, Some("DE")), Ok(None)));
    assert!(matches!(select_destination(false, None, None), Err(AnonError::InvalidDestination)));
    assert!(matches!(select_destination(false, Some("nohost"), None), Err(AnonError::InvalidDestination)));
    assert!(matches!(select_destination(false, Some("u@x.onion"), Some("DE")), Err(AnonError::ExitCountryForOnion)));
    match select_destination(false, Some("u@x.onion"), None) {
        Ok(Some((u, h))) => assert_eq!((u.as_str(), h.as_str()), ("u", "x.onion")),
        _ => panic!("destination refused"),
    }
}

// ---- fingerprints ----

#[test]
fn normalization_strips_white_space_and_every_leading_tag() {
    assert_eq!(normalize_fingerprint("  SHA256:abc \n"), "abc");
    assert_eq!(normalize_fingerprint("SHA256:SHA256:abc"), "abc");
    assert_eq!(normalize_fingerprint(" SHA256: abc"), " abc");
    assert_eq!(normalize_fingerprint("\u{3000}abc\u{2029}"), "abc");
    assert_eq!(normalize_fingerprint("sha256:abc"), "sha256:abc");
    assert_eq!(normalize_fingerprint("SHA256:"), "");
    assert_eq!(normalize_fingerprint(""), "");
}

#[test]
fn server_key_fingerprint_is_sha256_base64() {
    let verdict = Handler { expected_fingerprint: None }.check_server_key(&server_key()).unwrap();
    assert!(verdict.accepted);
    assert_eq!(verdict.fingerprint, ED25519_FINGERPRINT);
}

#[test]
fn undecodable_server_key_is_not_checked() {
    let handler = Handler { expected_fingerprint: None };
    assert!(handler.check_server_key(&[1, 2, 3]).is_none());
    assert!(handler.check_server_key(&[]).is_none());
    let mut truncated = server_key();
    truncated.pop();
    assert!(handler.check_server_key(&truncated).is_none());
}

#[test]
fn exact_fingerprint_is_accepted_with_or_without_tag() {
    let key = server_key();
    for expected in [ED25519_FINGERPRINT, &ED25519_FINGERPRINT[7..], " SHA256:UCUiLr7Pjs9wFFJMDByLgc3NrtdU344OgUM45wZPcIQ\n"] {
        let handler = Handler { expected_fingerprint: Some(expected.to_string()) };
        assert!(handler.check_server_key(&key).unwrap().accepted, "{expected}");
    }
    let other = Handler { expected_fingerprint: Some("SHA256:Nh0Me49Zh9fDw/VYUfq43IJmI1T+XrjiYONPND8GzaM".to_string()) };
    assert!(!other.check_server_key(&key).unwrap().accepted);
    let lower = Handler { expected_fingerprint: Some(ED25519_FINGERPRINT.to_lowercase()) };
    assert!(!lower.check_server_key(&key).unwrap().accepted);
}

#[test]
fn fingerprint_comparison() {
    assert!(accepts_fingerprint(None, "anything"));
    assert!(accepts_fingerprint(Some("SHA256:x"), "x"));
    assert!(!accepts_fingerprint(Some("SHA256:x"), "y"));
}

// ---- methods ----

#[test]
fn method_names_in_server_order() {
    let all = methods(&[MethodKind::PublicKey, MethodKind::None, MethodKind::HostBased, MethodKind::GssapiWithMic]);
    assert_eq!(format_methods(&all), "publickey,none,hostbased,gssapi-with-mic");
    assert_eq!(format_methods(&methods(&[MethodKind::Password])), "password");
    assert!(methods_contain(&all, AuthMethod::HostBased));
    assert!(!methods_contain(&all, AuthMethod::Password));
}

#[test]
fn remaining_methods_after_replies() {
    assert_eq!(format_methods(&auth_remaining(&AuthReply::Success)), "none");
    let remaining = auth_remaining(&failure(&[MethodKind::KeyboardInteractive, MethodKind::Password]));
    assert_eq!(format_methods(&remaining), "keyboard-interactive,password");
}

// ---- authentication ----

#[test]
fn public_key_success_ends_authentication() {
    let mut auth = Authenticator::new(Some("pw".to_string()));
    assert!(matches!(auth.step(AuthEvent::PublicKeyReply(AuthReply::Success)), AuthAction::Succeeded));
    assert!(auth.phase == AuthPhase::Finished);
}

#[test]
fn configured_password_is_sent_when_offered() {
    let mut auth = Authenticator::new(Some("secret".to_string()));
    match auth.step(AuthEvent::PublicKeyReply(failure(&[MethodKind::PublicKey, MethodKind::Password]))) {
        AuthAction::SendPassword(p) => assert_eq!(p, "secret"),
        _ => panic!("password not sent"),
    }
    assert!(matches!(auth.step(AuthEvent::PasswordReply(AuthReply::Success)), AuthAction::Succeeded));
}

#[test]
fn password_is_prompted_without_configuration() {
    let mut auth = Authenticator::new(None);
    assert!(matches!(auth.step(AuthEvent::PublicKeyReply(failure(&[MethodKind::Password]))), AuthAction::PromptPassword));
    match auth.step(AuthEvent::PasswordEntered("typed".to_string())) {
        AuthAction::SendPassword(p) => assert_eq!(p, "typed"),
        _ => panic!("typed password not sent"),
    }
    match auth.step(AuthEvent::PasswordReply(failure(&[MethodKind::PublicKey]))) {
        AuthAction::Failed(e) => assert_eq!(e.message(), "SSH authentication failed (remaining methods: publickey)"),
        _ => panic!("expected failure"),
    }
}

#[test]
fn no_usable_method_fails_with_remaining_list() {
    let mut auth = Authenticator::new(Some("pw".to_string()));
    match auth.step(AuthEvent::PublicKeyReply(failure(&[]))) {
        AuthAction::Failed(e) => assert_eq!(e.message(), "SSH authentication failed (remaining methods: none)"),
        _ => panic!("expected failure"),
    }
    assert!(auth.phase == AuthPhase::Finished);
}

#[test]
fn keyboard_interactive_after_password_failure() {
    let mut auth = Authenticator::new(Some("pw".to_string()));
    auth.step(AuthEvent::PublicKeyReply(failure(&[MethodKind::Password, MethodKind::KeyboardInteractive])));
    let action = auth.step(AuthEvent::PasswordReply(failure(&[MethodKind::Password, MethodKind::KeyboardInteractive])));
    assert!(matches!(action, AuthAction::StartKeyboardInteractive));
    assert!(auth.phase == AuthPhase::AwaitKeyboard);
}

#[test]
fn keyboard_interactive_uses_configured_password_for_single_hidden_prompt() {
    let mut auth = Authenticator::new(Some("pw".to_string()));
    auth.step(AuthEvent::PublicKeyReply(failure(&[MethodKind::KeyboardInteractive])));
    let request = KeyboardReply::InfoRequest {
        name: "PAM".to_string(),
        instructions: String::new(),
        prompts: vec![KeyboardPrompt { prompt: "Password: ".to_string(), echo: false }],
    };
    match auth.step(AuthEvent::KeyboardReply(request)) {
        AuthAction::Respond { notices, answers } => {
            assert_eq!(notices, vec!["PAM".to_string()]);
            assert_eq!(answers.len(), 1);
            assert!(matches!(&answers[0], Answer::Given(p) if p == "pw"));
        }
        _ => panic!("expected answers"),
    }
    assert!(matches!(auth.step(AuthEvent::KeyboardReply(KeyboardReply::Success)), AuthAction::Succeeded));
}

#[test]
fn keyboard_interactive_prompts_user_otherwise() {
    let mut auth = Authenticator::new(Some("pw".to_string()));
    auth.step(AuthEvent::PublicKeyReply(failure(&[MethodKind::KeyboardInteractive])));
    let request = KeyboardReply::InfoRequest {
        name: String::new(),
        instructions: "Two factors".to_string(),
        prompts: vec![
            KeyboardPrompt { prompt: "Password: ".to_string(), echo: false },
            KeyboardPrompt { prompt: "Code: ".to_string(), echo: true },
        ],
    };
    match auth.step(AuthEvent::KeyboardReply(request)) {
        AuthAction::Respond { notices, answers } => {
            assert_eq!(notices, vec!["Two factors".to_string()]);
            assert!(matches!(&answers[0], Answer::ReadHidden(p) if p == "Password: "));
            assert!(matches!(&answers[1], Answer::ReadEchoed(p) if p == "Code: "));
        }
        _ => panic!("expected answers"),
    }
    let single_echo = KeyboardReply::InfoRequest {
        name: String::new(),
        instructions: String::new(),
        prompts: vec![KeyboardPrompt { prompt: "OTP: ".to_string(), echo: true }],
    };
    match auth.step(AuthEvent::KeyboardReply(single_echo)) {
        AuthAction::Respond { notices, answers } => {
            assert!(notices.is_empty());
            assert!(matches!(&answers[0], Answer::ReadEchoed(p) if p == "OTP: "));
        }
        _ => panic!("expected answers"),
    }
    let failed = KeyboardReply::Failure { remaining_methods: methods(&[MethodKind::PublicKey]), partial_success: true };
    match auth.step(AuthEvent::KeyboardReply(failed)) {
        AuthAction::Failed(e) => assert_eq!(
            e.message(),
            "SSH authentication failed (remaining methods: publickey; partial success: true)"
        ),
        _ => panic!("expected failure"),
    }
}

#[test]
fn keyboard_interactive_without_configured_password_reads_hidden() {
    let mut auth = Authenticator::new(None);
    auth.step(AuthEvent::PublicKeyReply(failure(&[MethodKind::KeyboardInteractive])));
    let request = KeyboardReply::InfoRequest {
        name: String::new(),
        instructions: String::new(),
        prompts: vec![KeyboardPrompt { prompt: "Password: ".to_string(), echo: false }],
    };
    match auth.step(AuthEvent::KeyboardReply(request)) {
        AuthAction::Respond { answers, .. } => assert!(matches!(&answers[0], Answer::ReadHidden(p) if p == "Password: ")),
        _ => panic!("expected answers"),
    }
}

#[test]
fn typed_line_loses_its_line_ending() {
    assert_eq!(trim_line_ending("123456\r\n"), "123456");
    assert_eq!(trim_line_ending("a\n\r\n"), "a");
    assert_eq!(trim_line_ending("a b \n"), "a b ");
    assert_eq!(trim_line_ending("\r\n"), "");
    assert_eq!(trim_line_ending("x\ry"), "x\ry");
}

// ---- session ----

#[test]
fn session_reports_last_exit_status() {
    let mut s = Session::new();
    assert!(s.reads_stdin());
    assert!(s.step(SessionEvent::StdinRead(5)) == SessionAction::SendData(5));
    assert!(s.step(SessionEvent::Data) == SessionAction::WriteStdout);
    assert!(s.step(SessionEvent::ExtendedData) == SessionAction::WriteStderr);
    assert!(s.step(SessionEvent::ExitStatus(3)) == SessionAction::Ignore);
    assert!(s.step(SessionEvent::Other) == SessionAction::Ignore);
    assert!(s.step(SessionEvent::ExitStatus(7)) == SessionAction::Ignore);
    assert!(s.step(SessionEvent::StdinRead(0)) == SessionAction::SendEof);
    assert!(!s.reads_stdin());
    assert!(s.step(SessionEvent::Closed) == SessionAction::Finish(7));
}

#[test]
fn session_without_status_exits_zero() {
    let mut s = Session::new();
    assert!(s.step(SessionEvent::Closed) == SessionAction::Finish(0));
    assert!(!s.reads_stdin());
}

#[test]
fn exit_code_saturates() {
    assert_eq!(exit_code(0), 0);
    assert_eq!(exit_code(255), 255);
    assert_eq!(exit_code(256), 255);
    assert_eq!(exit_code(u32::MAX), 255);
    assert_eq!(exit_code(42), 42);
}

#[test]
fn pty_size_defaults_to_80_by_24() {
    assert_eq!(pty_size(None), (80, 24));
    assert_eq!(pty_size(Some((132, 50))), (132, 50));
}

// ---- transports ----

#[test]
fn bridge_protocols_are_listed_once_in_order() {
    let names: Vec<String> = ["obfs4", "snowflake", "obfs4", "webtunnel", "snowflake"].iter().map(|s| s.to_string()).collect();
    assert_eq!(collect_protocols(&names), vec!["obfs4", "snowflake", "webtunnel"]);
    assert!(collect_protocols(&Vec::new()).is_empty());
    let mut ps = vec!["meek_lite".to_string()];
    add_protocol(&mut ps, "meek_lite".to_string());
    add_protocol(&mut ps, "obfs4".to_string());
    assert_eq!(ps, vec!["meek_lite", "obfs4"]);
}

#[test]
fn transport_binary_checks() {
    assert!(matches!(resolve_pt_path(None), Err(AnonError::TransportNotFound)));
    let not_exec = PtCandidate { path: "/opt/lyrebird".to_string(), is_file: true, unix_mode: Some(0o100644) };
    match resolve_pt_path(Some(not_exec)) {
        Err(e) => assert_eq!(e.message(), "pluggable transport is not executable: /opt/lyrebird"),
        Ok(_) => panic!("non-executable accepted"),
    }
    let group_exec = PtCandidate { path: "lyrebird".to_string(), is_file: true, unix_mode: Some(0o010) };
    assert_eq!(resolve_pt_path(Some(group_exec)).unwrap(), "lyrebird");
    let windows = PtCandidate { path: "C:\\pt\\lyrebird.exe".to_string(), is_file: true, unix_mode: None };
    assert_eq!(resolve_pt_path(Some(windows)).unwrap(), "C:\\pt\\lyrebird.exe");
    let dir = PtCandidate { path: "/tmp".to_string(), is_file: false, unix_mode: Some(0o755) };
    match resolve_pt_path(Some(dir)) {
        Err(e) => assert_eq!(e.message(), "pluggable transport is not a file: /tmp"),
        Ok(_) => panic!("directory accepted"),
    }
}

#[test]
fn transport_search_order() {
    assert_eq!(pt_sources(), vec![PtSource::Explicit, PtSource::Environment, PtSource::SearchPath, PtSource::TorBrowser]);
    assert_eq!(pt_path_variable(), "ANONSSH_PT_PATH");
}

#[test]
fn transport_search_locations() {
    assert_eq!(pt_binary_names(false), vec!["lyrebird", "snowflake-client"]);
    assert_eq!(pt_binary_names(true), vec!["lyrebird.exe", "snowflake-client.exe"]);
    assert!(tor_browser_pt_locations(false).is_none());
    let (vars, rel) = tor_browser_pt_locations(true).unwrap();
    assert_eq!(vars, vec!["PROGRAMFILES", "PROGRAMFILES(X86)", "LOCALAPPDATA"]);
    assert_eq!(rel, "Tor Browser/Browser/TorBrowser/Tor/PluggableTransports/lyrebird.exe");
}

// ---- errors and text ----

#[test]
fn error_messages() {
    assert_eq!(AnonError::InvalidDestination.message(), "destination must be user@host");
    assert_eq!(AnonError::ExitCountryForOnion.message(), "--exit-country cannot be used with an onion service");
    assert_eq!(
        AnonError::TransportNotFound.message(),
        "bridge requires --pt-path, ANONSSH_PT_PATH, or a discoverable lyrebird executable"
    );
    assert_eq!(AnonError::BridgeWithoutTransport.message(), "bridge line does not name a pluggable transport");
    assert_eq!(
        AnonError::KeyboardInteractiveFailed("none".to_string(), false).message(),
        "SSH authentication failed (remaining methods: none; partial success: false)"
    );
}

#[test]
fn joining_strings() {
    let parts: Vec<String> = vec!["a".to_string(), String::new(), "c".to_string()];
    assert_eq!(join_strings(&parts, ","), "a,,c");
    assert_eq!(join_strings(&Vec::new(), ","), "");
    assert_eq!(join_strings(&vec!["x".to_string()], ";"), "x");
}

// ---- key choice ----

#[test]
fn default_key_is_generated() {
    let mut k = KeyLoader::new(false);
    assert!(matches!(k.step(KeyEvent::Start), KeyAction::GenerateEd25519));
    assert!(k.phase == KeyPhase::Done);
}

#[test]
fn plain_key_file_is_loaded() {
    let mut k = KeyLoader::new(true);
    assert!(matches!(k.step(KeyEvent::Start), KeyAction::Load { passphrase: None }));
    assert!(matches!(k.step(KeyEvent::Loaded), KeyAction::UseLoaded));
}

#[test]
fn encrypted_key_file_asks_passphrase_once() {
    let mut k = KeyLoader::new(true);
    k.step(KeyEvent::Start);
    assert!(matches!(k.step(KeyEvent::Encrypted), KeyAction::PromptPassphrase));
    match k.step(KeyEvent::PassphraseEntered("hunter2".to_string())) {
        KeyAction::Load { passphrase: Some(p) } => assert_eq!(p, "hunter2"),
        _ => panic!("passphrase not used"),
    }
    match k.step(KeyEvent::Encrypted) {
        KeyAction::Fail(f) => {
            assert!(f == KeyFailure::Decrypt);
            assert_eq!(f.context("/home/u/.ssh/id"), "decrypt private key /home/u/.ssh/id");
        }
        _ => panic!("wrong passphrase accepted"),
    }
}

#[test]
fn unreadable_key_file_fails() {
    let mut k = KeyLoader::new(true);
    k.step(KeyEvent::Start);
    match k.step(KeyEvent::LoadFailed) {
        KeyAction::Fail(f) => assert_eq!(f.context("id"), "read private key id"),
        _ => panic!("failure ignored"),
    }
}

// ---- Tor storage and bridges ----

#[test]
fn temporary_storage_only_without_state_dir() {
    let temporary = tor_storage(false);
    assert!(temporary.temporary);
    assert_eq!((temporary.state_dir_name.as_str(), temporary.cache_dir_name.as_str()), ("state", "cache"));
    let kept = tor_storage(true);
    assert!(!kept.temporary);
    assert_eq!((kept.state_dir_name.as_str(), kept.cache_dir_name.as_str()), ("state", "cache"));
}

#[test]
fn bridges_need_at_least_one_line() {
    assert!(!bridges_enabled(0));
    assert!(bridges_enabled(1));
    assert!(bridges_enabled(3));
}
