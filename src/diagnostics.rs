use vstd::prelude::*;

use crate::config::LlmProvider;
use crate::credentials::{api_key_var, env_value, CredentialManager};
use crate::models::{rounded_text, rounded_units};
use crate::formatting::{lines, lines_of, words, words_of};
use crate::strings::{concat, concat3, trim, trim_of};

verus! {

/// The verdict of one health check.
#[derive(Clone, Copy, Debug, PartialEq, Eq, Structural)]
pub enum DiagnosticStatus {
    Success,
    Warning,
    Error,
    Info,
}

/// One health check: what was checked, its verdict, a message and, where
/// one helps, the command that fixes it.
#[derive(Clone, Debug, PartialEq, Eq)]
pub struct Diagnostic {
    pub name: String,
    pub status: DiagnosticStatus,
    pub message: String,
    pub fix_command: Option<String>,
}

impl Diagnostic {
    pub fn new(name: String, status: DiagnosticStatus, message: String, fix_command: Option<String>) -> (r: Self)
        ensures
            r == (Diagnostic { name, status, message, fix_command }),
    {
        Diagnostic { name, status, message, fix_command }
    }

    pub fn success(name: String, message: String) -> (r: Self)
        ensures
            r == (Diagnostic { name, status: DiagnosticStatus::Success, message, fix_command: None }),
    {
        Self::new(name, DiagnosticStatus::Success, message, None)
    }

    pub fn warning(name: String, message: String, fix: Option<String>) -> (r: Self)
        ensures
            r == (Diagnostic { name, status: DiagnosticStatus::Warning, message, fix_command: fix }),
    {
        Self::new(name, DiagnosticStatus::Warning, message, fix)
    }

    pub fn error(name: String, message: String, fix: Option<String>) -> (r: Self)
        ensures
            r == (Diagnostic { name, status: DiagnosticStatus::Error, message, fix_command: fix }),
    {
        Self::new(name, DiagnosticStatus::Error, message, fix)
    }

    pub fn info(name: String, message: String) -> (r: Self)
        ensures
            r == (Diagnostic { name, status: DiagnosticStatus::Info, message, fix_command: None }),
    {
        Self::new(name, DiagnosticStatus::Info, message, None)
    }
}

/// Some diagnostic of `s` has the status `st`.
pub open spec fn any_with(s: Seq<Diagnostic>, st: DiagnosticStatus) -> bool {
    exists|i: int| 0 <= i < s.len() && (#[trigger] s[i]).status == st
}

/// The health checks, by section.
#[derive(Clone, Debug, PartialEq, Eq)]
pub struct DiagnosticReport {
    pub dependencies: Vec<Diagnostic>,
    pub llm_providers: Vec<Diagnostic>,
    pub configuration: Vec<Diagnostic>,
    pub system: Vec<Diagnostic>,
}

fn has_status(v: &Vec<Diagnostic>, st: DiagnosticStatus) -> (r: bool)
    ensures
        r == any_with(v@, st),
{
    let mut i: usize = 0;
    while i < v.len()
        invariant
            0 <= i <= v@.len(),
            forall|j: int| 0 <= j < i ==> (#[trigger] v@[j]).status != st,
        decreases v@.len() - i,
    {
        if v[i].status == st {
            return true;
        }
        i = i + 1;
    }
    false
}

impl DiagnosticReport {
    /// Some section holds a diagnostic with status `st`.
    pub open spec fn holds(&self, st: DiagnosticStatus) -> bool {
        any_with(self.dependencies@, st) || any_with(self.llm_providers@, st) || any_with(
            self.configuration@,
            st,
        ) || any_with(self.system@, st)
    }

    pub fn new() -> (r: Self)
        ensures
            r.dependencies@.len() == 0,
            r.llm_providers@.len() == 0,
            r.configuration@.len() == 0,
            r.system@.len() == 0,
    {
        DiagnosticReport {
            dependencies: Vec::new(),
            llm_providers: Vec::new(),
            configuration: Vec::new(),
            system: Vec::new(),
        }
    }

    /// Whether any section holds an error.
    pub fn has_errors(&self) -> (r: bool)
        ensures
            r == self.holds(DiagnosticStatus::Error),
    {
        has_status(&self.dependencies, DiagnosticStatus::Error) || has_status(
            &self.llm_providers,
            DiagnosticStatus::Error,
        ) || has_status(&self.configuration, DiagnosticStatus::Error) || has_status(
            &self.system,
            DiagnosticStatus::Error,
        )
    }

    /// Whether any section holds a warning.
    pub fn has_warnings(&self) -> (r: bool)
        ensures
            r == self.holds(DiagnosticStatus::Warning),
    {
        has_status(&self.dependencies, DiagnosticStatus::Warning) || has_status(
            &self.llm_providers,
            DiagnosticStatus::Warning,
        ) || has_status(&self.configuration, DiagnosticStatus::Warning) || has_status(
            &self.system,
            DiagnosticStatus::Warning,
        )
    }
}

/// Reports whether a key resolves for a provider kind, under the label
/// `provider_name`.
pub fn check_api_key(provider_name: &str, provider_type: &LlmProvider, cred_manager: &CredentialManager) -> (r:
    Diagnostic)
    requires
        cred_manager.wf(),
    ensures
        r.name@ == provider_name@ + " API Key"@,
        r.fix_command is None,
        (r.status == DiagnosticStatus::Success && r.message@ == "configured"@) || (r.status
            == DiagnosticStatus::Info && r.message@ == "not set"@),
        (env_value(cred_manager.environment@, api_key_var(provider_type.spec_name())) is Some
            || cred_manager.store is Memory) ==> (r.status == DiagnosticStatus::Success <==> cred_manager.api_key_of(
            provider_type.spec_name(),
        ) is Some),
{
    let key_name = provider_type.name();
    let label = concat(provider_name, " API Key");
    if cred_manager.has_api_key(key_name.as_str()) {
        Diagnostic::success(label, "configured".to_owned())
    } else {
        Diagnostic::info(label, "not set".to_owned())
    }
}

/// The bytes of a gibibyte.
pub const GIB: u64 = 1073741824;

/// Reports the free disk space, in bytes where it could be read: under one
/// gibibyte it warns, with one decimal; otherwise it succeeds, rounded to
/// whole gibibytes.
pub fn check_disk_space(space_bytes: Option<u64>) -> (r: Diagnostic)
    ensures
        r.name@ == "Disk space"@,
        match space_bytes {
            None => r.status == DiagnosticStatus::Info && r.message@ == "could not determine"@
                && r.fix_command is None,
            Some(b) => if b < GIB {
                &&& r.status == DiagnosticStatus::Warning
                &&& r.message@ == rounded_text(b, GIB, 1) + " GB available"@
                &&& r.fix_command matches Some(f) && f@ == "Low disk space - transcriptions may fail"@
            } else {
                &&& r.status == DiagnosticStatus::Success
                &&& r.message@ == rounded_text(b, GIB, 0) + " GB available"@
                &&& r.fix_command is None
            },
        },
{
    match space_bytes {
        None => Diagnostic::info("Disk space".to_owned(), "could not determine".to_owned()),
        Some(b) => {
            if b < GIB {
                let amount = rounded_units(b, GIB, 1);
                Diagnostic::warning(
                    "Disk space".to_owned(),
                    concat(amount.as_str(), " GB available"),
                    Some("Low disk space - transcriptions may fail".to_owned()),
                )
            } else {
                let amount = rounded_units(b, GIB, 0);
                Diagnostic::success("Disk space".to_owned(), concat(amount.as_str(), " GB available"))
            }
        },
    }
}

/// How to install a tool on an operating system (as `std::env::consts::OS`
/// names it).
pub open spec fn installation_help(tool: Seq<char>, os: Seq<char>) -> Seq<char> {
    if tool == "yt-dlp"@ {
        if os == "linux"@ {
            "Ubuntu/Debian:  sudo apt install yt-dlp\nFedora:         sudo dnf install yt-dlp\nArch:           sudo pacman -S yt-dlp\npip:            python3 -m pip install yt-dlp\n\nAfter installation: y2md doctor"@
        } else if os == "macos"@ {
            "Homebrew:       brew install yt-dlp\nMacPorts:       sudo port install yt-dlp\npip:            python3 -m pip install yt-dlp\n\nAfter installation: y2md doctor"@
        } else {
            "pip:            python3 -m pip install yt-dlp\nMore info:      https://github.com/yt-dlp/yt-dlp\n\nAfter installation: y2md doctor"@
        }
    } else if tool == "ffmpeg"@ {
        if os == "linux"@ {
            "Ubuntu/Debian:  sudo apt install ffmpeg\nFedora:         sudo dnf install ffmpeg\nArch:           sudo pacman -S ffmpeg\n\nAfter installation: y2md doctor"@
        } else if os == "macos"@ {
            "Homebrew:       brew install ffmpeg\nMacPorts:       sudo port install ffmpeg\n\nAfter installation: y2md doctor"@
        } else {
            "More info:      https://ffmpeg.org/download.html\n\nAfter installation: y2md doctor"@
        }
    } else {
        "Please install manually"@
    }
}

/// How to install a tool on an operating system.
pub fn get_installation_help(tool: &str, os: &str) -> (r: String)
    ensures
        r@ == installation_help(tool@, os@),
{
    let t = tool.to_owned();
    let o = os.to_owned();
    let linux = "linux".to_owned();
    let macos = "macos".to_owned();
    if t == "yt-dlp".to_owned() {
        if o == linux {
            "Ubuntu/Debian:  sudo apt install yt-dlp\nFedora:         sudo dnf install yt-dlp\nArch:           sudo pacman -S yt-dlp\npip:            python3 -m pip install yt-dlp\n\nAfter installation: y2md doctor".to_owned()
        } else if o == macos {
            "Homebrew:       brew install yt-dlp\nMacPorts:       sudo port install yt-dlp\npip:            python3 -m pip install yt-dlp\n\nAfter installation: y2md doctor".to_owned()
        } else {
            "pip:            python3 -m pip install yt-dlp\nMore info:      https://github.com/yt-dlp/yt-dlp\n\nAfter installation: y2md doctor".to_owned()
        }
    } else if t == "ffmpeg".to_owned() {
        if o == linux {
            "Ubuntu/Debian:  sudo apt install ffmpeg\nFedora:         sudo dnf install ffmpeg\nArch:           sudo pacman -S ffmpeg\n\nAfter installation: y2md doctor".to_owned()
        } else if o == macos {
            "Homebrew:       brew install ffmpeg\nMacPorts:       sudo port install ffmpeg\n\nAfter installation: y2md doctor".to_owned()
        } else {
            "More info:      https://ffmpeg.org/download.html\n\nAfter installation: y2md doctor".to_owned()
        }
    } else {
        "Please install manually".to_owned()
    }
}

/// Reports on yt-dlp from what `yt-dlp --version` printed, where it ran
/// and succeeded.
pub fn check_ytdlp(version_output: Option<&str>, os: &str) -> (r: Diagnostic)
    ensures
        r.name@ == "yt-dlp"@,
        match version_output {
            Some(out) => r.status == DiagnosticStatus::Success && r.message@ == "v"@ + trim_of(out@)
                + " (installed)"@ && r.fix_command is None,
            None => r.status == DiagnosticStatus::Error && r.message@ == "not found"@ && r.fix_command is Some && r.fix_command->0@ == installation_help("yt-dlp"@, os@),
        },
{
    match version_output {
        Some(out) => {
            let version = trim(out);
            Diagnostic::success("yt-dlp".to_owned(), concat3("v", version.as_str(), " (installed)"))
        },
        None => Diagnostic::error(
            "yt-dlp".to_owned(),
            "not found".to_owned(),
            Some(get_installation_help("yt-dlp", os)),
        ),
    }
}

/// The version that `ffmpeg -version` prints: the third word of its first
/// line, where there is one.
pub open spec fn ffmpeg_version_of(out: Seq<char>) -> Option<Seq<char>> {
    if lines_of(out).len() > 0 && words_of(lines_of(out)[0]).len() > 2 {
        Some(words_of(lines_of(out)[0])[2])
    } else {
        None
    }
}

/// Reports on FFmpeg from what `ffmpeg -version` printed, where it ran and
/// succeeded.
pub fn check_ffmpeg(version_output: Option<&str>, os: &str) -> (r: Diagnostic)
    ensures
        r.name@ == "FFmpeg"@,
        match version_output {
            Some(out) => r.status == DiagnosticStatus::Success && r.message@ == "v"@ + match ffmpeg_version_of(
                out@,
            ) {
                Some(v) => v,
                None => "unknown"@,
            } + " (installed)"@ && r.fix_command is None,
            None => r.status == DiagnosticStatus::Error && r.message@ == "not found"@ && r.fix_command is Some && r.fix_command->0@ == installation_help("ffmpeg"@, os@),
        },
{
    match version_output {
        Some(out) => {
            let all = lines(out);
            let mut version = "unknown".to_owned();
            if all.len() > 0 {
                let ws = words(all[0].as_str());
                if ws.len() > 2 {
                    version = ws[2].clone();
                }
            }
            Diagnostic::success("FFmpeg".to_owned(), concat3("v", version.as_str(), " (installed)"))
        },
        None => Diagnostic::error(
            "FFmpeg".to_owned(),
            "not found".to_owned(),
            Some(get_installation_help("ffmpeg", os)),
        ),
    }
}

/// Reports which speech-recognition models are installed.
pub fn check_whisper_models(english_model: bool, multilingual_model: bool) -> (r: Diagnostic)
    ensures
        r.name@ == "Whisper models"@,
        (english_model || multilingual_model) ==> r.status == DiagnosticStatus::Success && r.fix_command is None
            && r.message@ == (if english_model && multilingual_model {
            "base.en, base"@
        } else if english_model {
            "base.en"@
        } else {
            "base"@
        }) + " (installed)"@,
        !(english_model || multilingual_model) ==> r.status == DiagnosticStatus::Warning && r.message@
            == "not found"@ && r.fix_command is Some && r.fix_command->0@
            == "Run ./download_model.sh to download Whisper models"@,
{
    if english_model || multilingual_model {
        let models = if english_model && multilingual_model {
            "base.en, base"
        } else if english_model {
            "base.en"
        } else {
            "base"
        };
        Diagnostic::success("Whisper models".to_owned(), concat(models, " (installed)"))
    } else {
        Diagnostic::warning(
            "Whisper models".to_owned(),
            "not found".to_owned(),
            Some("Run ./download_model.sh to download Whisper models".to_owned()),
        )
    }
}

/// The fix commands of a list of diagnostics, in order.
pub open spec fn fixes_of(s: Seq<Diagnostic>) -> Seq<Seq<char>>
    decreases s.len(),
{
    if s.len() == 0 {
        Seq::empty()
    } else {
        let rest = fixes_of(s.drop_last());
        match s.last().fix_command {
            Some(f) => rest.push(f@),
            None => rest,
        }
    }
}

fn push_fixes(out: &mut Vec<String>, v: &Vec<Diagnostic>)
    ensures
        final(out)@.len() == old(out)@.len() + fixes_of(v@).len(),
        forall|i: int| 0 <= i < old(out)@.len() ==> (#[trigger] final(out)@[i]) == old(out)@[i],
        forall|i: int|
            0 <= i < fixes_of(v@).len() ==> (#[trigger] final(out)@[old(out)@.len() + i])@ == fixes_of(v@)[i],
{
    let ghost start = out@;
    let mut i: usize = 0;
    while i < v.len()
        invariant
            0 <= i <= v@.len(),
            out@.len() == start.len() + fixes_of(v@.subrange(0, i as int)).len(),
            forall|k: int| 0 <= k < start.len() ==> (#[trigger] out@[k]) == start[k],
            forall|k: int|
                0 <= k < fixes_of(v@.subrange(0, i as int)).len() ==> (#[trigger] out@[start.len() + k])@
                    == fixes_of(v@.subrange(0, i as int))[k],
        decreases v@.len() - i,
    {
        let ghost before = v@.subrange(0, i as int);
        let ghost next = v@.subrange(0, i + 1);
        assert(next.drop_last() =~= before);
        assert(next.last() == v@[i as int]);
        match &v[i].fix_command {
            Some(f) => {
                out.push(f.clone());
            },
            None => {},
        }
        i = i + 1;
    }
    assert(v@.subrange(0, v@.len() as int) =~= v@);
}

impl DiagnosticReport {
    /// The fix commands of all diagnostics, section by section.
    pub open spec fn spec_suggestions(&self) -> Seq<Seq<char>> {
        fixes_of(self.dependencies@) + fixes_of(self.llm_providers@) + fixes_of(self.configuration@) + fixes_of(
            self.system@,
        )
    }

    /// The fix commands of all diagnostics, section by section.
    pub fn suggestions(&self) -> (r: Vec<String>)
        ensures
            r@.len() == self.spec_suggestions().len(),
            forall|i: int| 0 <= i < r@.len() ==> (#[trigger] r@[i])@ == self.spec_suggestions()[i],
    {
        let mut out: Vec<String> = Vec::new();
        push_fixes(&mut out, &self.dependencies);
        let ghost o1 = out@;
        push_fixes(&mut out, &self.llm_providers);
        let ghost o2 = out@;
        push_fixes(&mut out, &self.configuration);
        let ghost o3 = out@;
        push_fixes(&mut out, &self.system);
        proof {
            let a = fixes_of(self.dependencies@);
            let b = fixes_of(self.llm_providers@);
            let c = fixes_of(self.configuration@);
            let d = fixes_of(self.system@);
            let all = self.spec_suggestions();
            assert forall|i: int| 0 <= i < out@.len() implies (#[trigger] out@[i])@ == all[i] by {
                if i < a.len() {
                    assert(o1[0 + i]@ == a[i]);
                    assert(o2[i] == o1[i]);
                    assert(o3[i] == o2[i]);
                    assert(out@[i] == o3[i]);
                } else if i < a.len() + b.len() {
                    let k = i - a.len();
                    assert(o2[o1.len() + k]@ == b[k]);
                    assert(o3[i] == o2[i]);
                    assert(out@[i] == o3[i]);
                } else if i < a.len() + b.len() + c.len() {
                    let k = i - a.len() - b.len();
                    assert(o3[o2.len() + k]@ == c[k]);
                    assert(out@[i] == o3[i]);
                } else {
                    let k = i - a.len() - b.len() - c.len();
                    assert(out@[o3.len() + k]@ == d[k]);
                }
            }
        }
        out
    }
}

} // verus!
