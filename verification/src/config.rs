//! What the user has chosen: the tool, its paths and its option switches.

use crate::text::joined;
use vstd::prelude::*;

verus! {

/// One of the two external scanners.
#[derive(Clone, Copy, Debug, PartialEq, Eq, Structural)]
pub enum Tool {
    /// The compliance and vulnerability scanner.
    Compliance,
    /// The pattern-matching malware scanner.
    Signature,
}

/// The name of the executable that runs `tool`.
pub open spec fn program_name(tool: Tool) -> Seq<char> {
    match tool {
        Tool::Compliance => "oscap"@,
        Tool::Signature => "yara"@,
    }
}

/// The name under which `tool` is shown to the user.
pub open spec fn tool_label(tool: Tool) -> Seq<char> {
    match tool {
        Tool::Compliance => "OpenSCAP"@,
        Tool::Signature => "YARA"@,
    }
}

impl Tool {
    /// The executable to start for this tool.
    pub fn program(&self) -> (name: &'static str)
        ensures
            name@ == program_name(*self),
    {
        match self {
            Tool::Compliance => "oscap",
            Tool::Signature => "yara",
        }
    }

    /// The tool's display name.
    pub fn label(&self) -> (name: &'static str)
        ensures
            name@ == tool_label(*self),
    {
        match self {
            Tool::Compliance => "OpenSCAP",
            Tool::Signature => "YARA",
        }
    }
}

/// Option switches of a compliance scan.
#[derive(Clone, Copy, Debug, PartialEq, Eq, Structural)]
pub struct ComplianceFlags {
    pub skip_valid: bool,
    pub verbose: bool,
    pub save_oval_results: bool,
    pub dont_send_results: bool,
}

impl Default for ComplianceFlags {
    fn default() -> (flags: Self)
        ensures
            flags == (ComplianceFlags {
                skip_valid: false,
                verbose: false,
                save_oval_results: false,
                dont_send_results: false,
            }),
    {
        ComplianceFlags {
            skip_valid: false,
            verbose: false,
            save_oval_results: false,
            dont_send_results: false,
        }
    }
}

/// Option switches of a signature scan.
#[derive(Clone, Copy, Debug, PartialEq, Eq, Structural)]
pub struct SignatureFlags {
    pub recursive: bool,
    pub fast_scan: bool,
    pub no_warnings: bool,
    pub print_tags: bool,
}

impl Default for SignatureFlags {
    fn default() -> (flags: Self)
        ensures
            flags == (SignatureFlags {
                recursive: false,
                fast_scan: false,
                no_warnings: false,
                print_tags: false,
            }),
    {
        SignatureFlags { recursive: false, fast_scan: false, no_warnings: false, print_tags: false }
    }
}

/// A path that a scan cannot start without.
#[derive(Clone, Copy, Debug, PartialEq, Eq, Structural)]
pub enum RequiredPath {
    /// The policy or definitions file of a compliance scan.
    Content,
    /// The rules file of a signature scan.
    Rules,
    /// The file or folder that a signature scan examines.
    Target,
}

/// What the user has just picked in a file or folder dialog.
#[derive(Clone, Copy, Debug, PartialEq, Eq, Structural)]
pub enum Selection {
    /// The content file of a compliance scan.
    ContentFile,
    /// The rules file of a signature scan.
    RulesFile,
    /// A single file for a signature scan to examine.
    TargetFile,
    /// A folder for a signature scan to examine.
    TargetFolder,
}

/// The settings of one scan. A required path that the user has not chosen yet
/// is `None`.
#[derive(Debug, PartialEq, Eq)]
#[allow(inconsistent_fields)]
pub enum ScanConfiguration {
    ComplianceScan {
        content_path: Option<String>,
        results_path: String,
        report_path: String,
        flags: ComplianceFlags,
    },
    SignatureScan { rules_path: Option<String>, target_path: Option<String>, flags: SignatureFlags },
}

/// A [`ScanConfiguration`] with its texts as character sequences.
#[allow(inconsistent_fields)]
pub enum ScanConfigurationView {
    ComplianceScan {
        content_path: Option<Seq<char>>,
        results_path: Seq<char>,
        report_path: Seq<char>,
        flags: ComplianceFlags,
    },
    SignatureScan {
        rules_path: Option<Seq<char>>,
        target_path: Option<Seq<char>>,
        flags: SignatureFlags,
    },
}

impl View for ScanConfiguration {
    type V = ScanConfigurationView;

    open spec fn view(&self) -> ScanConfigurationView {
        match self {
            ScanConfiguration::ComplianceScan { content_path, results_path, report_path, flags } => {
                ScanConfigurationView::ComplianceScan {
                    content_path: content_path.deep_view(),
                    results_path: results_path@,
                    report_path: report_path@,
                    flags: *flags,
                }
            },
            ScanConfiguration::SignatureScan { rules_path, target_path, flags } => {
                ScanConfigurationView::SignatureScan {
                    rules_path: rules_path.deep_view(),
                    target_path: target_path.deep_view(),
                    flags: *flags,
                }
            },
        }
    }
}

/// Where a compliance scan writes its machine-readable results unless told
/// otherwise.
pub open spec fn default_results_path() -> Seq<char> {
    "/tmp/results.xml"@
}

/// Where a compliance scan writes its report unless told otherwise.
pub open spec fn default_report_path() -> Seq<char> {
    "/tmp/report.html"@
}

/// The address of the vulnerability definitions offered for download.
pub open spec fn default_definitions_url() -> Seq<char> {
    "https://redos.red-soft.ru/support/secure/redos.xml"@
}

/// A compliance scan with nothing chosen yet: no content file, the default
/// results and report paths, every switch off.
pub open spec fn unset_compliance() -> ScanConfigurationView {
    ScanConfigurationView::ComplianceScan {
        content_path: None,
        results_path: default_results_path(),
        report_path: default_report_path(),
        flags: ComplianceFlags {
            skip_valid: false,
            verbose: false,
            save_oval_results: false,
            dont_send_results: false,
        },
    }
}

/// A signature scan with nothing chosen yet: no paths, every switch off.
pub open spec fn unset_signature() -> ScanConfigurationView {
    ScanConfigurationView::SignatureScan {
        rules_path: None,
        target_path: None,
        flags: SignatureFlags {
            recursive: false,
            fast_scan: false,
            no_warnings: false,
            print_tags: false,
        },
    }
}

/// A path counts as chosen when it is there and not empty.
pub open spec fn is_present(path: Option<Seq<char>>) -> bool {
    path matches Some(p) && p.len() > 0
}

/// The tool that a configuration is for.
pub open spec fn tool_of(cfg: ScanConfigurationView) -> Tool {
    match cfg {
        ScanConfigurationView::ComplianceScan { .. } => Tool::Compliance,
        ScanConfigurationView::SignatureScan { .. } => Tool::Signature,
    }
}

/// The first required path that `cfg` lacks, in the order in which a launch
/// asks for them; `None` when the configuration is complete.
pub open spec fn first_missing(cfg: ScanConfigurationView) -> Option<RequiredPath> {
    match cfg {
        ScanConfigurationView::ComplianceScan { content_path, .. } => {
            if is_present(content_path) {
                None
            } else {
                Some(RequiredPath::Content)
            }
        },
        ScanConfigurationView::SignatureScan { rules_path, target_path, .. } => {
            if !is_present(rules_path) {
                Some(RequiredPath::Rules)
            } else if !is_present(target_path) {
                Some(RequiredPath::Target)
            } else {
                None
            }
        },
    }
}

/// The required path that a selection fills in.
pub open spec fn selected_path(selection: Selection) -> RequiredPath {
    match selection {
        Selection::ContentFile => RequiredPath::Content,
        Selection::RulesFile => RequiredPath::Rules,
        Selection::TargetFile => RequiredPath::Target,
        Selection::TargetFolder => RequiredPath::Target,
    }
}

/// The text that confirms a selection.
pub open spec fn selection_text(selection: Selection, path: Seq<char>) -> Seq<char> {
    match selection {
        Selection::ContentFile => "Выбранный XML-файл: "@ + path,
        Selection::RulesFile => "Выбран файл правил YARA: "@ + path,
        Selection::TargetFile => "Выбран файл для сканирования: "@ + path,
        Selection::TargetFolder => "Выбрана папка для сканирования: "@ + path,
    }
}

/// `cfg` with `path` as its path `which`. A path that the kind of scan does
/// not have changes nothing.
pub open spec fn with_path(
    cfg: ScanConfigurationView,
    which: RequiredPath,
    path: Seq<char>,
) -> ScanConfigurationView {
    match (cfg, which) {
        (
            ScanConfigurationView::ComplianceScan { content_path, results_path, report_path, flags },
            RequiredPath::Content,
        ) => ScanConfigurationView::ComplianceScan {
            content_path: Some(path),
            results_path,
            report_path,
            flags,
        },
        (
            ScanConfigurationView::SignatureScan { rules_path, target_path, flags },
            RequiredPath::Rules,
        ) => ScanConfigurationView::SignatureScan { rules_path: Some(path), target_path, flags },
        (
            ScanConfigurationView::SignatureScan { rules_path, target_path, flags },
            RequiredPath::Target,
        ) => ScanConfigurationView::SignatureScan { rules_path, target_path: Some(path), flags },
        _ => cfg,
    }
}

/// The text shown when a launch finds `which` missing.
pub open spec fn missing_message(which: RequiredPath) -> Seq<char> {
    match which {
        RequiredPath::Content => "Не выбран XML-файл для сканирования."@,
        RequiredPath::Rules => "Не выбран файл правил YARA."@,
        RequiredPath::Target => "Не выбран путь для сканирования."@,
    }
}

/// The default address of the vulnerability definitions.
pub fn definitions_url() -> (url: &'static str)
    ensures
        url@ == default_definitions_url(),
{
    "https://redos.red-soft.ru/support/secure/redos.xml"
}

/// Whether an optional path has been chosen.
pub fn path_present(path: &Option<String>) -> (present: bool)
    ensures
        present == is_present(path.deep_view()),
{
    match path {
        Some(p) => !p.as_str().is_empty(),
        None => false,
    }
}

impl RequiredPath {
    /// The message that reports this path as missing.
    pub fn message(&self) -> (text: String)
        ensures
            text@ == missing_message(*self),
    {
        match self {
            RequiredPath::Content => String::from_str("Не выбран XML-файл для сканирования."),
            RequiredPath::Rules => String::from_str("Не выбран файл правил YARA."),
            RequiredPath::Target => String::from_str("Не выбран путь для сканирования."),
        }
    }
}

impl Selection {
    /// The required path that this selection fills in.
    pub fn fills(&self) -> (which: RequiredPath)
        ensures
            which == selected_path(*self),
    {
        match self {
            Selection::ContentFile => RequiredPath::Content,
            Selection::RulesFile => RequiredPath::Rules,
            Selection::TargetFile => RequiredPath::Target,
            Selection::TargetFolder => RequiredPath::Target,
        }
    }

    /// The text that confirms that `path` was selected.
    pub fn text(&self, path: &str) -> (text: String)
        ensures
            text@ == selection_text(*self, path@),
    {
        match self {
            Selection::ContentFile => joined("Выбранный XML-файл: ", path),
            Selection::RulesFile => joined("Выбран файл правил YARA: ", path),
            Selection::TargetFile => joined("Выбран файл для сканирования: ", path),
            Selection::TargetFolder => joined("Выбрана папка для сканирования: ", path),
        }
    }
}

impl ScanConfiguration {
    /// A compliance scan with nothing chosen yet.
    pub fn compliance() -> (cfg: Self)
        ensures
            cfg@ == unset_compliance(),
    {
        ScanConfiguration::ComplianceScan {
            content_path: None,
            results_path: String::from_str("/tmp/results.xml"),
            report_path: String::from_str("/tmp/report.html"),
            flags: ComplianceFlags::default(),
        }
    }

    /// A signature scan with nothing chosen yet.
    pub fn signature() -> (cfg: Self)
        ensures
            cfg@ == unset_signature(),
    {
        ScanConfiguration::SignatureScan {
            rules_path: None,
            target_path: None,
            flags: SignatureFlags::default(),
        }
    }

    /// This configuration with `path` as its path `which`; unchanged where the
    /// kind of scan has no such path.
    pub fn with_path(self, which: RequiredPath, path: String) -> (cfg: Self)
        ensures
            cfg@ == with_path(self@, which, path@),
    {
        match self {
            ScanConfiguration::ComplianceScan { content_path, results_path, report_path, flags } => {
                match which {
                    RequiredPath::Content => ScanConfiguration::ComplianceScan {
                        content_path: Some(path),
                        results_path,
                        report_path,
                        flags,
                    },
                    _ => ScanConfiguration::ComplianceScan {
                        content_path,
                        results_path,
                        report_path,
                        flags,
                    },
                }
            },
            ScanConfiguration::SignatureScan { rules_path, target_path, flags } => {
                match which {
                    RequiredPath::Rules => ScanConfiguration::SignatureScan {
                        rules_path: Some(path),
                        target_path,
                        flags,
                    },
                    RequiredPath::Target => ScanConfiguration::SignatureScan {
                        rules_path,
                        target_path: Some(path),
                        flags,
                    },
                    RequiredPath::Content => ScanConfiguration::SignatureScan {
                        rules_path,
                        target_path,
                        flags,
                    },
                }
            },
        }
    }

    /// The tool that this configuration is for.
    pub fn tool(&self) -> (tool: Tool)
        ensures
            tool == tool_of(self@),
    {
        match self {
            ScanConfiguration::ComplianceScan { .. } => Tool::Compliance,
            ScanConfiguration::SignatureScan { .. } => Tool::Signature,
        }
    }

    /// The first required path that is still missing, if any.
    pub fn missing(&self) -> (which: Option<RequiredPath>)
        ensures
            which == first_missing(self@),
    {
        match self {
            ScanConfiguration::ComplianceScan { content_path, .. } => {
                if path_present(content_path) {
                    None
                } else {
                    Some(RequiredPath::Content)
                }
            },
            ScanConfiguration::SignatureScan { rules_path, target_path, .. } => {
                if !path_present(rules_path) {
                    Some(RequiredPath::Rules)
                } else if !path_present(target_path) {
                    Some(RequiredPath::Target)
                } else {
                    None
                }
            },
        }
    }
}

impl Clone for ScanConfiguration {
    fn clone(&self) -> (copy: Self)
        ensures
            copy@ == self@,
    {
        match self {
            ScanConfiguration::ComplianceScan { content_path, results_path, report_path, flags } => {
                ScanConfiguration::ComplianceScan {
                    content_path: clone_path(content_path),
                    results_path: results_path.clone(),
                    report_path: report_path.clone(),
                    flags: *flags,
                }
            },
            ScanConfiguration::SignatureScan { rules_path, target_path, flags } => {
                ScanConfiguration::SignatureScan {
                    rules_path: clone_path(rules_path),
                    target_path: clone_path(target_path),
                    flags: *flags,
                }
            },
        }
    }
}

/// A copy of an optional path.
pub(crate) fn clone_path(path: &Option<String>) -> (copy: Option<String>)
    ensures
        copy.deep_view() == path.deep_view(),
{
    match path {
        Some(p) => Some(p.clone()),
        None => None,
    }
}

/// A configuration is complete once each path of its kind of scan has been
/// chosen and is not empty: one for a compliance scan, two for a signature
/// scan, in either order.
pub proof fn lemma_choosing_completes(
    cfg: ScanConfigurationView,
    first: Seq<char>,
    second: Seq<char>,
)
    requires
        first.len() > 0,
        second.len() > 0,
    ensures
        cfg is ComplianceScan ==> first_missing(with_path(cfg, RequiredPath::Content, first))
            is None,
        cfg is SignatureScan ==> first_missing(
            with_path(
                with_path(cfg, RequiredPath::Rules, first),
                RequiredPath::Target,
                second,
            ),
        ) is None,
        cfg is SignatureScan ==> first_missing(
            with_path(
                with_path(cfg, RequiredPath::Target, second),
                RequiredPath::Rules,
                first,
            ),
        ) is None,
{
}

} // verus!
