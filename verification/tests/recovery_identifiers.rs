use pumas_core::recovery_ids::{DownloadRecoveryModelId, DownloadRecoveryToken};

#[test]
fn recovery_action_identifiers_have_exact_portable_grammars() {
    assert!(DownloadRecoveryModelId::parse("llm/acme/model").is_some());
    for invalid in [
        "",
        "/llm/acme/model",
        "../model",
        "llm\\acme\\model",
        "C:/models/model",
        "llm//model",
        "llm/CON/model",
    ] {
        assert!(
            DownloadRecoveryModelId::parse(invalid).is_none(),
            "{invalid}"
        );
    }

    let valid = format!("v1:{}", "a".repeat(64));
    assert!(DownloadRecoveryToken::parse(&valid).is_some());
    for invalid in [
        "",
        "v1:abc",
        &format!("v2:{}", "a".repeat(64)),
        &format!("v1:{}", "A".repeat(64)),
        &format!("v1:{}", "g".repeat(64)),
        &format!("v1:{}", "a".repeat(65)),
    ] {
        assert!(DownloadRecoveryToken::parse(invalid).is_none(), "{invalid}");
    }
}
