use tas_agent::error::AgentError;
use tas_agent::tee_evidence::{
    get_tee_type, nonce_bytes, start, step, ActionKind, EvidenceAction, EvidenceState,
    InterfaceEvent, TeeKind,
};

fn nonce_of_sevens() -> String {
    "7".repeat(64)
}

/// An interface in memory: what each slot holds, and at which action it fails.
struct FakeInterface {
    provider: String,
    privilege_level: String,
    report: Vec<u8>,
    fail_at: Option<ActionKind>,
    scope_open: bool,
    opened: usize,
    written_nonce: Option<Vec<u8>>,
    written_level: Option<String>,
    performed: Vec<ActionKind>,
}

fn fake(provider: &str, report: &[u8], fail_at: Option<ActionKind>) -> FakeInterface {
    FakeInterface {
        provider: provider.to_string(),
        privilege_level: "0\n".to_string(),
        report: report.to_vec(),
        fail_at,
        scope_open: false,
        opened: 0,
        written_nonce: None,
        written_level: None,
        performed: Vec::new(),
    }
}

fn perform(fake: &mut FakeInterface, action: &EvidenceAction) -> InterfaceEvent {
    let kind = action.kind();
    fake.performed.push(kind);
    if kind == ActionKind::CloseScope {
        assert!(fake.scope_open);
        fake.scope_open = false;
        return InterfaceEvent::Done;
    }
    if fake.fail_at == Some(kind) {
        return InterfaceEvent::Failed;
    }
    match action {
        EvidenceAction::OpenScope => {
            assert!(!fake.scope_open);
            fake.scope_open = true;
            fake.opened += 1;
            InterfaceEvent::Done
        }
        EvidenceAction::ReadProvider => InterfaceEvent::Text(fake.provider.clone()),
        EvidenceAction::WriteNonce(bytes) => {
            fake.written_nonce = Some(bytes.clone());
            InterfaceEvent::Done
        }
        EvidenceAction::ReadPrivilegeLevel => InterfaceEvent::Text(fake.privilege_level.clone()),
        EvidenceAction::WritePrivilegeLevel(level) => {
            fake.written_level = Some(level.clone());
            InterfaceEvent::Done
        }
        EvidenceAction::ReadReport => InterfaceEvent::Bytes(fake.report.clone()),
        EvidenceAction::CloseScope | EvidenceAction::Finish(_) => unreachable!(),
    }
}

fn collect(nonce: &str, fake: &mut FakeInterface) -> Result<(String, String), AgentError> {
    let (mut state, mut action) = start(nonce);
    for _ in 0..8 {
        if let EvidenceAction::Finish(result) = action {
            assert!(matches!(state, EvidenceState::Finished));
            return result;
        }
        let event = perform(fake, &action);
        let (next_state, next_action) = step(state, event);
        state = next_state;
        action = next_action;
    }
    panic!("the request did not end");
}

#[test]
fn provider_identifiers_map_to_their_technology() {
    assert_eq!(get_tee_type("sev_guest"), Ok(TeeKind::AmdSevSnp));
    assert_eq!(get_tee_type("sev_guest\n"), Ok(TeeKind::AmdSevSnp));
    assert_eq!(get_tee_type("tdx_guest"), Ok(TeeKind::IntelTdx));
    assert_eq!(get_tee_type("  \t tdx_guest \r\n"), Ok(TeeKind::IntelTdx));
    assert_eq!(get_tee_type("\u{2003}tdx_guest\u{a0}\u{3000}"), Ok(TeeKind::IntelTdx));
    assert_eq!(get_tee_type("\u{85}sev_guest\u{1680}\u{2028}"), Ok(TeeKind::AmdSevSnp));
    assert_eq!(get_tee_type(""), Err(AgentError::UnsupportedPlatform));
    assert_eq!(get_tee_type("   "), Err(AgentError::UnsupportedPlatform));
    assert_eq!(get_tee_type("sev_guest2"), Err(AgentError::UnsupportedPlatform));
    assert_eq!(get_tee_type("sev guest"), Err(AgentError::UnsupportedPlatform));
    assert_eq!(get_tee_type("SEV_GUEST"), Err(AgentError::UnsupportedPlatform));
    assert_eq!(get_tee_type("\u{200b}tdx_guest"), Err(AgentError::UnsupportedPlatform));
    assert_eq!(get_tee_type("tdx"), Err(AgentError::UnsupportedPlatform));
}

#[test]
fn provider_is_trimmed_as_the_standard_library_trims() {
    for code in 0u32..0x3100 {
        if let Some(c) = char::from_u32(code) {
            let text = format!("{}tdx_guest{}", c, c);
            let expected = if text.trim() == "tdx_guest" {
                Ok(TeeKind::IntelTdx)
            } else {
                Err(AgentError::UnsupportedPlatform)
            };
            assert_eq!(get_tee_type(&text), expected);
        }
    }
}

#[test]
fn technologies_have_their_names() {
    assert_eq!(TeeKind::AmdSevSnp.name(), "amd-sev-snp");
    assert_eq!(TeeKind::IntelTdx.name(), "intel-tdx");
    assert!(TeeKind::AmdSevSnp.needs_privilege_level());
    assert!(!TeeKind::IntelTdx.needs_privilege_level());
}

#[test]
fn nonce_must_be_exactly_64_bytes() {
    let nonce = nonce_of_sevens();
    assert_eq!(nonce_bytes(&nonce), Ok(vec![b'7'; 64]));
    assert_eq!(nonce_bytes(&format!("\"{}\"", nonce)), Ok(vec![b'7'; 64]));
    assert_eq!(nonce_bytes(&format!("\"\"{}\"", nonce)), Ok(vec![b'7'; 64]));
    assert_eq!(nonce_bytes(&"7".repeat(63)), Err(AgentError::InvalidNonce));
    assert_eq!(nonce_bytes(&"7".repeat(65)), Err(AgentError::InvalidNonce));
    assert_eq!(nonce_bytes(""), Err(AgentError::InvalidNonce));
    assert_eq!(nonce_bytes("\"\""), Err(AgentError::InvalidNonce));
    assert_eq!(nonce_bytes(&format!("\"{}\"", "7".repeat(62))), Err(AgentError::InvalidNonce));
    assert_eq!(nonce_bytes(&format!(" {}", nonce)), Err(AgentError::InvalidNonce));
    let inner = format!("{}\"{}", "a".repeat(31), "b".repeat(32));
    assert_eq!(nonce_bytes(&format!("\"{}\"", inner)), Ok(inner.clone().into_bytes()));
    // 32 characters of two bytes each are 64 bytes
    let wide = "\u{e9}".repeat(32);
    assert_eq!(nonce_bytes(&wide), Ok(wide.clone().into_bytes()));
    assert_eq!(nonce_bytes(&"\u{e9}".repeat(64)), Err(AgentError::InvalidNonce));
}

#[test]
fn bad_nonce_ends_the_request_before_any_scope() {
    for nonce in ["", "short", &"7".repeat(63), &"7".repeat(65), &format!("\"{}\"", "7".repeat(66))] {
        let mut iface = fake("sev_guest\n", b"REPORT", None);
        assert_eq!(collect(nonce, &mut iface), Err(AgentError::InvalidNonce));
        assert_eq!(iface.opened, 0);
        assert!(iface.performed.is_empty());
    }
}

#[test]
fn sev_snp_report_is_collected_with_the_privilege_level() {
    let mut iface = fake("sev_guest\n", b"REPORT", None);
    let quoted = format!("\"{}\"", nonce_of_sevens());
    let result = collect(&quoted, &mut iface);
    assert_eq!(result, Ok(("UkVQT1JU".to_string(), "amd-sev-snp".to_string())));
    assert_eq!(iface.written_nonce, Some(vec![b'7'; 64]));
    assert_eq!(iface.written_level, Some("0\n".to_string()));
    assert!(!iface.scope_open);
    assert_eq!(
        iface.performed,
        vec![
            ActionKind::OpenScope,
            ActionKind::ReadProvider,
            ActionKind::WriteNonce,
            ActionKind::ReadPrivilegeLevel,
            ActionKind::WritePrivilegeLevel,
            ActionKind::ReadReport,
            ActionKind::CloseScope,
        ]
    );
}

#[test]
fn tdx_report_is_collected_without_the_privilege_level() {
    let mut iface = fake("tdx_guest\n", &[0u8, 255, 16], None);
    let result = collect(&nonce_of_sevens(), &mut iface);
    assert_eq!(result, Ok(("AP8Q".to_string(), "intel-tdx".to_string())));
    assert_eq!(iface.written_level, None);
    assert!(!iface.performed.contains(&ActionKind::ReadPrivilegeLevel));
    assert!(!iface.performed.contains(&ActionKind::WritePrivilegeLevel));
    assert_eq!(
        iface.performed,
        vec![
            ActionKind::OpenScope,
            ActionKind::ReadProvider,
            ActionKind::WriteNonce,
            ActionKind::ReadReport,
            ActionKind::CloseScope,
        ]
    );
    assert!(!iface.scope_open);
}

#[test]
fn unknown_provider_is_an_unsupported_platform() {
    let mut iface = fake("sgx_guest\n", b"REPORT", None);
    assert_eq!(collect(&nonce_of_sevens(), &mut iface), Err(AgentError::UnsupportedPlatform));
    assert_eq!(iface.written_nonce, None);
    assert_eq!(iface.opened, 1);
    assert!(!iface.scope_open);
    assert_eq!(iface.performed.last(), Some(&ActionKind::CloseScope));
}

#[test]
fn empty_report_is_no_evidence() {
    let mut iface = fake("tdx_guest", b"", None);
    assert_eq!(collect(&nonce_of_sevens(), &mut iface), Err(AgentError::EvidenceUnavailable));
    assert!(!iface.scope_open);
    assert_eq!(iface.performed.last(), Some(&ActionKind::CloseScope));
}

#[test]
fn scope_is_released_whichever_step_fails() {
    let steps = [
        ActionKind::ReadProvider,
        ActionKind::WriteNonce,
        ActionKind::ReadPrivilegeLevel,
        ActionKind::WritePrivilegeLevel,
        ActionKind::ReadReport,
    ];
    for provider in ["sev_guest\n", "tdx_guest\n"] {
        for failing in steps {
            let mut iface = fake(provider, b"REPORT", Some(failing));
            let result = collect(&nonce_of_sevens(), &mut iface);
            let reached = iface.performed.contains(&failing);
            if reached {
                assert_eq!(result, Err(AgentError::EvidenceUnavailable));
                let at = iface.performed.iter().position(|k| *k == failing).unwrap();
                assert_eq!(iface.performed[at + 1..], [ActionKind::CloseScope]);
            } else {
                assert_eq!(provider, "tdx_guest\n");
                assert_eq!(result, Ok(("UkVQT1JU".to_string(), "intel-tdx".to_string())));
            }
            assert_eq!(iface.opened, 1);
            assert!(!iface.scope_open);
            assert_eq!(iface.performed.last(), Some(&ActionKind::CloseScope));
        }
    }
}

#[test]
fn scope_that_cannot_be_opened_ends_the_request() {
    let mut iface = fake("sev_guest\n", b"REPORT", Some(ActionKind::OpenScope));
    assert_eq!(collect(&nonce_of_sevens(), &mut iface), Err(AgentError::EvidenceUnavailable));
    assert_eq!(iface.performed, vec![ActionKind::OpenScope]);
    assert_eq!(iface.opened, 0);
}

#[test]
fn answer_of_the_wrong_shape_counts_as_failure() {
    let (state, action) = start(&nonce_of_sevens());
    assert!(matches!(action, EvidenceAction::OpenScope));
    let (state, action) = step(state, InterfaceEvent::Done);
    assert!(matches!(action, EvidenceAction::ReadProvider));
    let (state, action) = step(state, InterfaceEvent::Bytes(b"tdx_guest".to_vec()));
    assert!(matches!(action, EvidenceAction::CloseScope));
    let (state, action) = step(state, InterfaceEvent::Failed);
    assert!(matches!(action, EvidenceAction::Finish(Err(AgentError::EvidenceUnavailable))));
    let (state, action) = step(state, InterfaceEvent::Done);
    assert!(matches!(state, EvidenceState::Finished));
    assert!(matches!(action, EvidenceAction::Finish(Err(AgentError::EvidenceUnavailable))));
}
