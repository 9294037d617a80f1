//! The argument vector that a configuration hands to its tool.
//!
//! The order of the arguments is fixed: it depends on which switches are on,
//! never on the order in which the user turned them on.

use crate::config::{
    first_missing, tool_of, ComplianceFlags, RequiredPath, ScanConfiguration,
    ScanConfigurationView, SignatureFlags, Tool,
};
use vstd::prelude::*;

verus! {

/// A switch contributes its word when it is on and nothing when it is off.
pub open spec fn switch(enabled: bool, word: Seq<char>) -> Seq<Seq<char>> {
    if enabled {
        seq![word]
    } else {
        Seq::empty()
    }
}

/// The switches of a compliance scan that are on, in their fixed order.
pub open spec fn compliance_switches(flags: ComplianceFlags) -> Seq<Seq<char>> {
    switch(flags.skip_valid, "--skip-valid"@) + switch(flags.verbose, "--verbose"@) + switch(
        flags.save_oval_results,
        "--oval-results"@,
    ) + switch(flags.dont_send_results, "--dont-send-results"@)
}

/// The switches of a signature scan that are on, in their fixed order.
pub open spec fn signature_switches(flags: SignatureFlags) -> Seq<Seq<char>> {
    switch(flags.recursive, "-r"@) + switch(flags.fast_scan, "-f"@) + switch(
        flags.no_warnings,
        "-w"@,
    ) + switch(flags.print_tags, "-t"@)
}

/// What opens every compliance argument vector: the sub-command and the two
/// output paths.
pub open spec fn compliance_head(results_path: Seq<char>, report_path: Seq<char>) -> Seq<
    Seq<char>,
> {
    seq!["oval"@, "eval"@, "--results"@, results_path, "--report"@, report_path]
}

/// The argument vector of a compliance scan.
pub open spec fn compliance_arguments(
    results_path: Seq<char>,
    report_path: Seq<char>,
    flags: ComplianceFlags,
    content_path: Seq<char>,
) -> Seq<Seq<char>> {
    compliance_head(results_path, report_path) + compliance_switches(flags) + seq![content_path]
}

/// The argument vector of a signature scan.
pub open spec fn signature_arguments(
    flags: SignatureFlags,
    rules_path: Seq<char>,
    target_path: Seq<char>,
) -> Seq<Seq<char>> {
    signature_switches(flags) + seq![rules_path, target_path]
}

/// A path that has been chosen, or the empty text where none has.
pub open spec fn chosen(path: Option<Seq<char>>) -> Seq<char> {
    match path {
        Some(p) => p,
        None => Seq::empty(),
    }
}

/// The argument vector that `cfg` yields once its required paths are chosen.
pub open spec fn arguments_of(cfg: ScanConfigurationView) -> Seq<Seq<char>> {
    match cfg {
        ScanConfigurationView::ComplianceScan { content_path, results_path, report_path, flags } => {
            compliance_arguments(results_path, report_path, flags, chosen(content_path))
        },
        ScanConfigurationView::SignatureScan { rules_path, target_path, flags } => {
            signature_arguments(flags, chosen(rules_path), chosen(target_path))
        },
    }
}

/// One start of an external tool: which executable, with which arguments.
#[derive(Debug, PartialEq, Eq)]
pub struct Invocation {
    pub tool: Tool,
    pub args: Vec<String>,
}

/// An [`Invocation`] with its arguments as character sequences.
pub struct InvocationView {
    pub tool: Tool,
    pub args: Seq<Seq<char>>,
}

impl View for Invocation {
    type V = InvocationView;

    open spec fn view(&self) -> InvocationView {
        InvocationView { tool: self.tool, args: self.args.deep_view() }
    }
}

/// What launching `cfg` comes to: the invocation of its tool, or the first
/// required path that is missing.
pub open spec fn invocation_of(cfg: ScanConfigurationView) -> Result<InvocationView, RequiredPath> {
    match first_missing(cfg) {
        Some(which) => Err(which),
        None => Ok(InvocationView { tool: tool_of(cfg), args: arguments_of(cfg) }),
    }
}

/// The place of a word in the fixed order of the compliance switches; 4 for
/// any other word.
pub open spec fn compliance_rank(word: Seq<char>) -> int {
    if word == "--skip-valid"@ {
        0
    } else if word == "--verbose"@ {
        1
    } else if word == "--oval-results"@ {
        2
    } else if word == "--dont-send-results"@ {
        3
    } else {
        4
    }
}

/// The place of a word in the fixed order of the signature switches; 4 for
/// any other word.
pub open spec fn signature_rank(word: Seq<char>) -> int {
    if word == "-r"@ {
        0
    } else if word == "-f"@ {
        1
    } else if word == "-w"@ {
        2
    } else if word == "-t"@ {
        3
    } else {
        4
    }
}

/// How many of four switches are on.
pub open spec fn enabled_count(a: bool, b: bool, c: bool, d: bool) -> nat {
    let one = |on: bool| if on { 1nat } else { 0nat };
    one(a) + one(b) + one(c) + one(d)
}

/// Appends `text` to `args`.
fn push_word(args: &mut Vec<String>, text: &str)
    ensures
        final(args).deep_view() == old(args).deep_view().push(text@),
{
    args.push(String::from_str(text));
    assert(args.deep_view() =~= old(args).deep_view().push(text@));
}

/// Appends `word` to `args` when `enabled` says so.
fn push_switch(args: &mut Vec<String>, enabled: bool, word: &str)
    ensures
        final(args).deep_view() == old(args).deep_view() + switch(enabled, word@),
{
    if enabled {
        push_word(args, word);
    }
    assert(args.deep_view() =~= old(args).deep_view() + switch(enabled, word@));
}

/// Builds the argument vector of a compliance scan.
pub fn assemble_compliance(
    results_path: &str,
    report_path: &str,
    flags: ComplianceFlags,
    content_path: &str,
) -> (args: Vec<String>)
    ensures
        args.deep_view() == compliance_arguments(
            results_path@,
            report_path@,
            flags,
            content_path@,
        ),
{
    let mut args: Vec<String> = Vec::new();
    assert(args.deep_view() =~= Seq::<Seq<char>>::empty());
    push_word(&mut args, "oval");
    push_word(&mut args, "eval");
    push_word(&mut args, "--results");
    push_word(&mut args, results_path);
    push_word(&mut args, "--report");
    push_word(&mut args, report_path);
    assert(args.deep_view() =~= compliance_head(results_path@, report_path@));
    push_switch(&mut args, flags.skip_valid, "--skip-valid");
    push_switch(&mut args, flags.verbose, "--verbose");
    push_switch(&mut args, flags.save_oval_results, "--oval-results");
    push_switch(&mut args, flags.dont_send_results, "--dont-send-results");
    assert(args.deep_view() =~= compliance_head(results_path@, report_path@)
        + compliance_switches(flags));
    push_word(&mut args, content_path);
    assert(args.deep_view() =~= compliance_arguments(
        results_path@,
        report_path@,
        flags,
        content_path@,
    ));
    args
}

/// Builds the argument vector of a signature scan.
pub fn assemble_signature(flags: SignatureFlags, rules_path: &str, target_path: &str) -> (args:
    Vec<String>)
    ensures
        args.deep_view() == signature_arguments(flags, rules_path@, target_path@),
{
    let mut args: Vec<String> = Vec::new();
    assert(args.deep_view() =~= Seq::<Seq<char>>::empty());
    push_switch(&mut args, flags.recursive, "-r");
    push_switch(&mut args, flags.fast_scan, "-f");
    push_switch(&mut args, flags.no_warnings, "-w");
    push_switch(&mut args, flags.print_tags, "-t");
    assert(args.deep_view() =~= signature_switches(flags));
    push_word(&mut args, rules_path);
    push_word(&mut args, target_path);
    assert(args.deep_view() =~= signature_arguments(flags, rules_path@, target_path@));
    args
}

impl ScanConfiguration {
    /// The invocation that this configuration asks for, or the first required
    /// path that it lacks. Nothing is started and nothing is changed.
    pub fn invocation(&self) -> (plan: Result<Invocation, RequiredPath>)
        ensures
            match plan {
                Ok(inv) => invocation_of(self@) == Ok::<InvocationView, RequiredPath>(inv@),
                Err(which) => invocation_of(self@) == Err::<InvocationView, RequiredPath>(which),
            },
    {
        match self {
            ScanConfiguration::ComplianceScan { content_path, results_path, report_path, flags } => {
                match content_path {
                    Some(content) => {
                        if content.as_str().is_empty() {
                            Err(RequiredPath::Content)
                        } else {
                            Ok(
                                Invocation {
                                    tool: Tool::Compliance,
                                    args: assemble_compliance(
                                        results_path.as_str(),
                                        report_path.as_str(),
                                        *flags,
                                        content.as_str(),
                                    ),
                                },
                            )
                        }
                    },
                    None => Err(RequiredPath::Content),
                }
            },
            ScanConfiguration::SignatureScan { rules_path, target_path, flags } => {
                match (rules_path, target_path) {
                    (Some(rules), Some(target)) => {
                        if rules.as_str().is_empty() {
                            Err(RequiredPath::Rules)
                        } else if target.as_str().is_empty() {
                            Err(RequiredPath::Target)
                        } else {
                            Ok(
                                Invocation {
                                    tool: Tool::Signature,
                                    args: assemble_signature(
                                        *flags,
                                        rules.as_str(),
                                        target.as_str(),
                                    ),
                                },
                            )
                        }
                    },
                    (Some(rules), None) => {
                        if rules.as_str().is_empty() {
                            Err(RequiredPath::Rules)
                        } else {
                            Err(RequiredPath::Target)
                        }
                    },
                    (None, _) => Err(RequiredPath::Rules),
                }
            },
        }
    }
}

/// Every complete compliance configuration yields an invocation of the
/// compliance tool whose argument vector opens with the sub-command and the
/// two output paths, goes on with the switches that are on, in their fixed
/// order, and ends with the content path; it holds nothing else.
pub proof fn lemma_compliance_invocation_shape(
    content_path: Seq<char>,
    results_path: Seq<char>,
    report_path: Seq<char>,
    flags: ComplianceFlags,
)
    requires
        content_path.len() > 0,
    ensures
        ({
            let cfg = ScanConfigurationView::ComplianceScan {
                content_path: Some(content_path),
                results_path,
                report_path,
                flags,
            };
            let args = compliance_arguments(results_path, report_path, flags, content_path);
            &&& invocation_of(cfg) == Ok::<InvocationView, RequiredPath>(
                InvocationView { tool: Tool::Compliance, args },
            )
            &&& args.len() == 7 + enabled_count(
                flags.skip_valid,
                flags.verbose,
                flags.save_oval_results,
                flags.dont_send_results,
            )
            &&& args.subrange(0, 6) == seq![
                "oval"@,
                "eval"@,
                "--results"@,
                results_path,
                "--report"@,
                report_path,
            ]
            &&& args.subrange(6, args.len() - 1) == compliance_switches(flags)
            &&& args.last() == content_path
        }),
{
    let args = compliance_arguments(results_path, report_path, flags, content_path);
    assert(args.subrange(0, 6) =~= compliance_head(results_path, report_path));
    assert(args.subrange(6, args.len() - 1) =~= compliance_switches(flags));
}

/// Every complete signature configuration yields an invocation of the
/// signature tool whose argument vector holds the switches that are on, in
/// their fixed order, and then exactly the rules path and the target path.
pub proof fn lemma_signature_invocation_shape(
    rules_path: Seq<char>,
    target_path: Seq<char>,
    flags: SignatureFlags,
)
    requires
        rules_path.len() > 0,
        target_path.len() > 0,
    ensures
        ({
            let cfg = ScanConfigurationView::SignatureScan {
                rules_path: Some(rules_path),
                target_path: Some(target_path),
                flags,
            };
            let args = signature_arguments(flags, rules_path, target_path);
            &&& invocation_of(cfg) == Ok::<InvocationView, RequiredPath>(
                InvocationView { tool: Tool::Signature, args },
            )
            &&& args.len() == 2 + enabled_count(
                flags.recursive,
                flags.fast_scan,
                flags.no_warnings,
                flags.print_tags,
            )
            &&& args.subrange(0, args.len() - 2) == signature_switches(flags)
            &&& args.subrange(args.len() - 2, args.len() as int) == seq![rules_path, target_path]
        }),
{
    let args = signature_arguments(flags, rules_path, target_path);
    assert(args.subrange(0, args.len() - 2) =~= signature_switches(flags));
    assert(args.subrange(args.len() - 2, args.len() as int) =~= seq![rules_path, target_path]);
}

/// The four compliance switch words differ from one another.
proof fn lemma_compliance_words_distinct()
    ensures
        compliance_rank("--skip-valid"@) == 0,
        compliance_rank("--verbose"@) == 1,
        compliance_rank("--oval-results"@) == 2,
        compliance_rank("--dont-send-results"@) == 3,
{
    reveal_strlit("--skip-valid");
    reveal_strlit("--verbose");
    reveal_strlit("--oval-results");
    reveal_strlit("--dont-send-results");
    assert("--skip-valid"@.len() == 12);
    assert("--verbose"@.len() == 9);
    assert("--oval-results"@.len() == 14);
    assert("--dont-send-results"@.len() == 19);
}

/// The four signature switch words differ from one another.
proof fn lemma_signature_words_distinct()
    ensures
        signature_rank("-r"@) == 0,
        signature_rank("-f"@) == 1,
        signature_rank("-w"@) == 2,
        signature_rank("-t"@) == 3,
{
    reveal_strlit("-r");
    reveal_strlit("-f");
    reveal_strlit("-w");
    reveal_strlit("-t");
    assert("-r"@[1] == 'r');
    assert("-f"@[1] == 'f');
    assert("-w"@[1] == 'w');
    assert("-t"@[1] == 't');
}

/// Among the switches of a compliance scan each word stands there exactly when
/// its flag is on, and the words stand in the fixed order `--skip-valid`,
/// `--verbose`, `--oval-results`, `--dont-send-results`, none of them twice.
pub proof fn lemma_compliance_switches_ordered(flags: ComplianceFlags)
    ensures
        compliance_switches(flags).contains("--skip-valid"@) <==> flags.skip_valid,
        compliance_switches(flags).contains("--verbose"@) <==> flags.verbose,
        compliance_switches(flags).contains("--oval-results"@) <==> flags.save_oval_results,
        compliance_switches(flags).contains("--dont-send-results"@) <==> flags.dont_send_results,
        forall|i: int|
            0 <= i < compliance_switches(flags).len() ==> 0 <= compliance_rank(
                #[trigger] compliance_switches(flags)[i],
            ) < 4,
        forall|i: int, j: int|
            0 <= i < j < compliance_switches(flags).len() ==> compliance_rank(
                #[trigger] compliance_switches(flags)[i],
            ) < compliance_rank(#[trigger] compliance_switches(flags)[j]),
{
    lemma_compliance_words_distinct();
    let a = switch(flags.skip_valid, "--skip-valid"@);
    let b = switch(flags.verbose, "--verbose"@);
    let c = switch(flags.save_oval_results, "--oval-results"@);
    let d = switch(flags.dont_send_results, "--dont-send-results"@);
    let s = compliance_switches(flags);
    assert(s =~= a + b + c + d);
    assert forall|i: int| 0 <= i < s.len() implies compliance_rank(#[trigger] s[i]) == (if i
        < a.len() {
        0int
    } else if i < a.len() + b.len() {
        1int
    } else if i < a.len() + b.len() + c.len() {
        2int
    } else {
        3int
    }) by {}
    if flags.skip_valid {
        assert(s[0] == "--skip-valid"@);
    }
    if flags.verbose {
        assert(s[a.len() as int] == "--verbose"@);
    }
    if flags.save_oval_results {
        assert(s[(a.len() + b.len()) as int] == "--oval-results"@);
    }
    if flags.dont_send_results {
        assert(s[(a.len() + b.len() + c.len()) as int] == "--dont-send-results"@);
    }
}

/// Among the switches of a signature scan each word stands there exactly when
/// its flag is on, and the words stand in the fixed order `-r`, `-f`, `-w`,
/// `-t`, none of them twice.
pub proof fn lemma_signature_switches_ordered(flags: SignatureFlags)
    ensures
        signature_switches(flags).contains("-r"@) <==> flags.recursive,
        signature_switches(flags).contains("-f"@) <==> flags.fast_scan,
        signature_switches(flags).contains("-w"@) <==> flags.no_warnings,
        signature_switches(flags).contains("-t"@) <==> flags.print_tags,
        forall|i: int|
            0 <= i < signature_switches(flags).len() ==> 0 <= signature_rank(
                #[trigger] signature_switches(flags)[i],
            ) < 4,
        forall|i: int, j: int|
            0 <= i < j < signature_switches(flags).len() ==> signature_rank(
                #[trigger] signature_switches(flags)[i],
            ) < signature_rank(#[trigger] signature_switches(flags)[j]),
{
    lemma_signature_words_distinct();
    let a = switch(flags.recursive, "-r"@);
    let b = switch(flags.fast_scan, "-f"@);
    let c = switch(flags.no_warnings, "-w"@);
    let d = switch(flags.print_tags, "-t"@);
    let s = signature_switches(flags);
    assert(s =~= a + b + c + d);
    assert forall|i: int| 0 <= i < s.len() implies signature_rank(#[trigger] s[i]) == (if i
        < a.len() {
        0int
    } else if i < a.len() + b.len() {
        1int
    } else if i < a.len() + b.len() + c.len() {
        2int
    } else {
        3int
    }) by {}
    if flags.recursive {
        assert(s[0] == "-r"@);
    }
    if flags.fast_scan {
        assert(s[a.len() as int] == "-f"@);
    }
    if flags.no_warnings {
        assert(s[(a.len() + b.len()) as int] == "-w"@);
    }
    if flags.print_tags {
        assert(s[(a.len() + b.len() + c.len()) as int] == "-t"@);
    }
}

} // verus!
