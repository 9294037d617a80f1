use security_scanner::config::{
    definitions_url, path_present, ComplianceFlags, RequiredPath, ScanConfiguration, Selection,
    SignatureFlags, Tool,
};

#[test]
fn tools_have_programs_and_labels() {
    assert_eq!(Tool::Compliance.program(), "oscap");
    assert_eq!(Tool::Signature.program(), "yara");
    assert_eq!(Tool::Compliance.label(), "OpenSCAP");
    assert_eq!(Tool::Signature.label(), "YARA");
}

#[test]
fn flags_default_to_off() {
    assert_eq!(
        ComplianceFlags::default(),
        ComplianceFlags {
            skip_valid: false,
            verbose: false,
            save_oval_results: false,
            dont_send_results: false,
        }
    );
    assert_eq!(
        SignatureFlags::default(),
        SignatureFlags { recursive: false, fast_scan: false, no_warnings: false, print_tags: false }
    );
}

#[test]
fn unset_compliance_configuration() {
    assert_eq!(
        ScanConfiguration::compliance(),
        ScanConfiguration::ComplianceScan {
            content_path: None,
            results_path: "/tmp/results.xml".to_string(),
            report_path: "/tmp/report.html".to_string(),
            flags: ComplianceFlags::default(),
        }
    );
    assert_eq!(ScanConfiguration::compliance().tool(), Tool::Compliance);
    assert_eq!(ScanConfiguration::compliance().missing(), Some(RequiredPath::Content));
}

#[test]
fn unset_signature_configuration() {
    assert_eq!(
        ScanConfiguration::signature(),
        ScanConfiguration::SignatureScan {
            rules_path: None,
            target_path: None,
            flags: SignatureFlags::default(),
        }
    );
    assert_eq!(ScanConfiguration::signature().tool(), Tool::Signature);
    assert_eq!(ScanConfiguration::signature().missing(), Some(RequiredPath::Rules));
}

#[test]
fn default_definitions_address() {
    assert_eq!(definitions_url(), "https://redos.red-soft.ru/support/secure/redos.xml");
}

#[test]
fn a_path_is_present_when_not_empty() {
    assert!(path_present(&Some("/a".to_string())));
    assert!(path_present(&Some(" ".to_string())));
    assert!(!path_present(&Some(String::new())));
    assert!(!path_present(&None));
}

#[test]
fn choosing_the_content_completes_a_compliance_scan() {
    let cfg = ScanConfiguration::compliance().with_path(RequiredPath::Content, "/x.xml".to_string());
    assert_eq!(
        cfg,
        ScanConfiguration::ComplianceScan {
            content_path: Some("/x.xml".to_string()),
            results_path: "/tmp/results.xml".to_string(),
            report_path: "/tmp/report.html".to_string(),
            flags: ComplianceFlags::default(),
        }
    );
    assert_eq!(cfg.missing(), None);
}

#[test]
fn choosing_both_paths_completes_a_signature_scan() {
    let cfg = ScanConfiguration::signature().with_path(RequiredPath::Target, "/d".to_string());
    assert_eq!(cfg.missing(), Some(RequiredPath::Rules));
    let cfg = cfg.with_path(RequiredPath::Rules, "/r.yar".to_string());
    assert_eq!(
        cfg,
        ScanConfiguration::SignatureScan {
            rules_path: Some("/r.yar".to_string()),
            target_path: Some("/d".to_string()),
            flags: SignatureFlags::default(),
        }
    );
    assert_eq!(cfg.missing(), None);
}

#[test]
fn a_path_of_the_other_scan_changes_nothing() {
    let cfg = ScanConfiguration::compliance().with_path(RequiredPath::Rules, "/r.yar".to_string());
    assert_eq!(cfg, ScanConfiguration::compliance());
    let cfg = ScanConfiguration::compliance().with_path(RequiredPath::Target, "/d".to_string());
    assert_eq!(cfg, ScanConfiguration::compliance());
    let cfg = ScanConfiguration::signature().with_path(RequiredPath::Content, "/x.xml".to_string());
    assert_eq!(cfg, ScanConfiguration::signature());
}

#[test]
fn choosing_again_replaces_the_path() {
    let cfg = ScanConfiguration::compliance()
        .with_path(RequiredPath::Content, "/one.xml".to_string())
        .with_path(RequiredPath::Content, "/two.xml".to_string());
    match cfg {
        ScanConfiguration::ComplianceScan { content_path, .. } => {
            assert_eq!(content_path, Some("/two.xml".to_string()))
        }
        _ => panic!("a compliance scan stays a compliance scan"),
    }
}

#[test]
fn missing_path_messages() {
    assert_eq!(RequiredPath::Content.message(), "Не выбран XML-файл для сканирования.");
    assert_eq!(RequiredPath::Rules.message(), "Не выбран файл правил YARA.");
    assert_eq!(RequiredPath::Target.message(), "Не выбран путь для сканирования.");
}

#[test]
fn selections_fill_required_paths() {
    assert_eq!(Selection::ContentFile.fills(), RequiredPath::Content);
    assert_eq!(Selection::RulesFile.fills(), RequiredPath::Rules);
    assert_eq!(Selection::TargetFile.fills(), RequiredPath::Target);
    assert_eq!(Selection::TargetFolder.fills(), RequiredPath::Target);
}

#[test]
fn selection_messages() {
    assert_eq!(Selection::ContentFile.text("/a.xml"), "Выбранный XML-файл: /a.xml");
    assert_eq!(Selection::RulesFile.text("/r.yar"), "Выбран файл правил YARA: /r.yar");
    assert_eq!(Selection::TargetFile.text("/f"), "Выбран файл для сканирования: /f");
    assert_eq!(Selection::TargetFolder.text("/d"), "Выбрана папка для сканирования: /d");
}

#[test]
fn a_copy_of_a_configuration_is_equal() {
    let cfg = ScanConfiguration::signature()
        .with_path(RequiredPath::Rules, "/r".to_string())
        .with_path(RequiredPath::Target, "/t".to_string());
    assert_eq!(cfg.clone(), cfg);
    let cfg = ScanConfiguration::compliance().with_path(RequiredPath::Content, "/c".to_string());
    assert_eq!(cfg.clone(), cfg);
}
