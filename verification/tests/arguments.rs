use security_scanner::arguments::{assemble_compliance, assemble_signature, Invocation};
use security_scanner::config::{
    ComplianceFlags, RequiredPath, ScanConfiguration, SignatureFlags, Tool,
};

fn strings(words: &[&str]) -> Vec<String> {
    words.iter().map(|w| w.to_string()).collect()
}

fn compliance(content: Option<&str>, flags: ComplianceFlags) -> ScanConfiguration {
    ScanConfiguration::ComplianceScan {
        content_path: content.map(|p| p.to_string()),
        results_path: "/tmp/results.xml".to_string(),
        report_path: "/tmp/report.html".to_string(),
        flags,
    }
}

fn signature(rules: Option<&str>, target: Option<&str>, flags: SignatureFlags) -> ScanConfiguration {
    ScanConfiguration::SignatureScan {
        rules_path: rules.map(|p| p.to_string()),
        target_path: target.map(|p| p.to_string()),
        flags,
    }
}

#[test]
fn compliance_scan_with_verbose_only() {
    let flags = ComplianceFlags {
        skip_valid: false,
        verbose: true,
        save_oval_results: false,
        dont_send_results: false,
    };
    let plan = compliance(Some("/tmp/a.xml"), flags).invocation();
    assert_eq!(
        plan,
        Ok(Invocation {
            tool: Tool::Compliance,
            args: strings(&[
                "oval",
                "eval",
                "--results",
                "/tmp/results.xml",
                "--report",
                "/tmp/report.html",
                "--verbose",
                "/tmp/a.xml",
            ]),
        })
    );
}

#[test]
fn signature_scan_with_recursive_and_tags() {
    let flags =
        SignatureFlags { recursive: true, fast_scan: false, no_warnings: false, print_tags: true };
    let plan = signature(Some("/r.yar"), Some("/d"), flags).invocation();
    assert_eq!(
        plan,
        Ok(Invocation { tool: Tool::Signature, args: strings(&["-r", "-t", "/r.yar", "/d"]) })
    );
}

#[test]
fn compliance_arguments_without_switches() {
    let args = assemble_compliance("/o/res.xml", "/o/rep.html", ComplianceFlags::default(), "c.xml");
    assert_eq!(
        args,
        strings(&["oval", "eval", "--results", "/o/res.xml", "--report", "/o/rep.html", "c.xml"])
    );
}

#[test]
fn compliance_arguments_with_every_switch() {
    let flags = ComplianceFlags {
        skip_valid: true,
        verbose: true,
        save_oval_results: true,
        dont_send_results: true,
    };
    let args = assemble_compliance("r.xml", "r.html", flags, "content.xml");
    assert_eq!(
        args,
        strings(&[
            "oval",
            "eval",
            "--results",
            "r.xml",
            "--report",
            "r.html",
            "--skip-valid",
            "--verbose",
            "--oval-results",
            "--dont-send-results",
            "content.xml",
        ])
    );
}

#[test]
fn compliance_switches_keep_their_order() {
    let flags = ComplianceFlags {
        skip_valid: true,
        verbose: false,
        save_oval_results: false,
        dont_send_results: true,
    };
    let args = assemble_compliance("r.xml", "r.html", flags, "c.xml");
    assert_eq!(&args[6..], &strings(&["--skip-valid", "--dont-send-results", "c.xml"])[..]);

    let flags = ComplianceFlags {
        skip_valid: false,
        verbose: false,
        save_oval_results: true,
        dont_send_results: false,
    };
    let args = assemble_compliance("r.xml", "r.html", flags, "c.xml");
    assert_eq!(&args[6..], &strings(&["--oval-results", "c.xml"])[..]);
}

#[test]
fn compliance_arguments_for_each_switch_setting() {
    let words = ["--skip-valid", "--verbose", "--oval-results", "--dont-send-results"];
    for mask in 0u32..16 {
        let on = [mask & 1 != 0, mask & 2 != 0, mask & 4 != 0, mask & 8 != 0];
        let flags = ComplianceFlags {
            skip_valid: on[0],
            verbose: on[1],
            save_oval_results: on[2],
            dont_send_results: on[3],
        };
        let mut expected = strings(&["oval", "eval", "--results", "R", "--report", "P"]);
        for i in 0..4 {
            if on[i] {
                expected.push(words[i].to_string());
            }
        }
        expected.push("C".to_string());
        assert_eq!(assemble_compliance("R", "P", flags, "C"), expected);
    }
}

#[test]
fn signature_arguments_without_switches() {
    let args = assemble_signature(SignatureFlags::default(), "rules.yar", "/home");
    assert_eq!(args, strings(&["rules.yar", "/home"]));
}

#[test]
fn signature_arguments_with_every_switch() {
    let flags =
        SignatureFlags { recursive: true, fast_scan: true, no_warnings: true, print_tags: true };
    let args = assemble_signature(flags, "rules.yar", "/home");
    assert_eq!(args, strings(&["-r", "-f", "-w", "-t", "rules.yar", "/home"]));
}

#[test]
fn signature_arguments_for_each_switch_setting() {
    let words = ["-r", "-f", "-w", "-t"];
    for mask in 0u32..16 {
        let on = [mask & 1 != 0, mask & 2 != 0, mask & 4 != 0, mask & 8 != 0];
        let flags = SignatureFlags {
            recursive: on[0],
            fast_scan: on[1],
            no_warnings: on[2],
            print_tags: on[3],
        };
        let mut expected: Vec<String> = Vec::new();
        for i in 0..4 {
            if on[i] {
                expected.push(words[i].to_string());
            }
        }
        expected.push("rules".to_string());
        expected.push("target".to_string());
        assert_eq!(assemble_signature(flags, "rules", "target"), expected);
    }
}

#[test]
fn paths_are_passed_through_unchanged() {
    let args = assemble_signature(SignatureFlags::default(), "/правила/a b.yar", "-r");
    assert_eq!(args, strings(&["/правила/a b.yar", "-r"]));
    let args = assemble_compliance("", "", ComplianceFlags::default(), "--verbose");
    assert_eq!(args, strings(&["oval", "eval", "--results", "", "--report", "", "--verbose"]));
}

#[test]
fn compliance_invocation_needs_content() {
    assert_eq!(compliance(None, ComplianceFlags::default()).invocation(), Err(RequiredPath::Content));
    assert_eq!(
        compliance(Some(""), ComplianceFlags::default()).invocation(),
        Err(RequiredPath::Content)
    );
}

#[test]
fn signature_invocation_needs_rules_then_target() {
    let flags = SignatureFlags::default();
    assert_eq!(signature(None, None, flags).invocation(), Err(RequiredPath::Rules));
    assert_eq!(signature(None, Some("/d"), flags).invocation(), Err(RequiredPath::Rules));
    assert_eq!(signature(Some(""), Some("/d"), flags).invocation(), Err(RequiredPath::Rules));
    assert_eq!(signature(Some("/r.yar"), None, flags).invocation(), Err(RequiredPath::Target));
    assert_eq!(signature(Some("/r.yar"), Some(""), flags).invocation(), Err(RequiredPath::Target));
    assert_eq!(signature(Some(""), None, flags).invocation(), Err(RequiredPath::Rules));
}

#[test]
fn invocation_names_the_executable() {
    let plan = compliance(Some("a.xml"), ComplianceFlags::default()).invocation().unwrap();
    assert_eq!(plan.tool.program(), "oscap");
    let plan = signature(Some("r"), Some("t"), SignatureFlags::default()).invocation().unwrap();
    assert_eq!(plan.tool.program(), "yara");
}
