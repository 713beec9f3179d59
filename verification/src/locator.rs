use vstd::prelude::*;

use crate::error::BrowserError;

verus! {

/// The operating-system family the locator plans for. The caller reads the
/// host's identity once and hands it in, keeping the candidate ranking a
/// pure function.
#[derive(Debug, Clone, Copy, PartialEq, Eq, Structural)]
pub enum HostOs {
    Windows,
    MacOs,
    Linux,
}

/// One place a Chromium-family browser may be installed: a known absolute
/// path checked for existence, or a binary name resolved through the OS's
/// executable search path.
#[derive(Debug, PartialEq, Eq)]
pub enum BrowserCandidate {
    InstallPath(String),
    CommandName(String),
}

/// The ranked candidate list for `os`. Windows installs live under the
/// program-files directory, which the caller reads from the environment and
/// hands in; its absence there is itself a configuration error.
pub fn candidate_executables(os: &HostOs, program_files: Option<&String>) -> (r: Result<
    Vec<BrowserCandidate>,
    BrowserError,
>)
    ensures
        match os {
            HostOs::Windows => match program_files {
                None => r matches Err(e) && e matches BrowserError::Configuration(m) && m@
                    == "ProgramFiles not found"@,
                Some(pf) => r matches Ok(v) && {
                    &&& v@.len() == 2
                    &&& v@[0] matches BrowserCandidate::InstallPath(p) && p@ == pf@
                        + "\\Google\\Chrome\\Application\\chrome.exe"@
                    &&& v@[1] matches BrowserCandidate::InstallPath(p) && p@ == pf@
                        + "\\Microsoft\\Edge\\Application\\msedge.exe"@
                },
            },
            HostOs::MacOs => r matches Ok(v) && {
                &&& v@.len() == 2
                &&& v@[0] matches BrowserCandidate::InstallPath(p) && p@
                    == "/Applications/Google Chrome.app/Contents/MacOS/Google Chrome"@
                &&& v@[1] matches BrowserCandidate::InstallPath(p) && p@
                    == "/Applications/Microsoft Edge.app/Contents/MacOS/Microsoft Edge"@
            },
            HostOs::Linux => r matches Ok(v) && {
                &&& v@.len() == 4
                &&& v@[0] matches BrowserCandidate::CommandName(n) && n@ == "google-chrome"@
                &&& v@[1] matches BrowserCandidate::CommandName(n) && n@ == "chromium"@
                &&& v@[2] matches BrowserCandidate::CommandName(n) && n@ == "chromium-browser"@
                &&& v@[3] matches BrowserCandidate::CommandName(n) && n@ == "microsoft-edge"@
            },
        },
{
    let mut v: Vec<BrowserCandidate> = Vec::new();
    match os {
        HostOs::Windows => {
            match program_files {
                None => {
                    return Err(BrowserError::Configuration("ProgramFiles not found".to_owned()));
                },
                Some(pf) => {
                    v.push(
                        BrowserCandidate::InstallPath(
                            pf.clone().concat("\\Google\\Chrome\\Application\\chrome.exe"),
                        ),
                    );
                    v.push(
                        BrowserCandidate::InstallPath(
                            pf.clone().concat("\\Microsoft\\Edge\\Application\\msedge.exe"),
                        ),
                    );
                },
            }
        },
        HostOs::MacOs => {
            v.push(
                BrowserCandidate::InstallPath(
                    "/Applications/Google Chrome.app/Contents/MacOS/Google Chrome".to_owned(),
                ),
            );
            v.push(
                BrowserCandidate::InstallPath(
                    "/Applications/Microsoft Edge.app/Contents/MacOS/Microsoft Edge".to_owned(),
                ),
            );
        },
        HostOs::Linux => {
            v.push(BrowserCandidate::CommandName("google-chrome".to_owned()));
            v.push(BrowserCandidate::CommandName("chromium".to_owned()));
            v.push(BrowserCandidate::CommandName("chromium-browser".to_owned()));
            v.push(BrowserCandidate::CommandName("microsoft-edge".to_owned()));
        },
    }
    Ok(v)
}

/// Relies on std::path::Path::exists: whether `path` names an existing
/// filesystem entry, following symlinks. The answer depends on the host's
/// filesystem, so nothing is claimed of it.
#[verifier::external_body]
fn install_path_exists(path: &String) -> bool {
    std::path::Path::new(path.as_str()).exists()
}

/// Relies on which::which: resolve a binary name to an executable found on
/// the OS's search path, if any. The answer depends on the host's
/// environment, so nothing is claimed of it.
#[verifier::external_body]
fn resolve_command_name(name: &String) -> Option<String> {
    match which::which(name.as_str()) {
        Ok(p) => Some(p.to_string_lossy().into_owned()),
        Err(_) => None,
    }
}

/// Probe one candidate: an install path answers with itself when it exists,
/// a command name with whatever the search path resolves it to.
pub fn probe_candidate(c: &BrowserCandidate) -> (r: Option<String>)
    ensures
        c matches BrowserCandidate::InstallPath(p) ==> (r is None || (r matches Some(q) && q
            == *p)),
{
    match c {
        BrowserCandidate::InstallPath(p) => {
            if install_path_exists(p) {
                Some(p.clone())
            } else {
                None
            }
        },
        BrowserCandidate::CommandName(n) => resolve_command_name(n),
    }
}

/// The first probe answer that hit, in candidate order, as the chosen
/// executable; when every probe missed, the configuration error telling the
/// user to install a browser.
pub fn select_executable(probes: &Vec<Option<String>>) -> (r: Result<String, BrowserError>)
    ensures
        match r {
            Ok(p) => exists|i: int| {
                &&& 0 <= i < probes@.len()
                &&& (#[trigger] probes@[i]) matches Some(q) && p == q
                &&& forall|k: int| 0 <= k < i ==> probes@[k] is None
            },
            Err(e) => {
                &&& forall|k: int| 0 <= k < probes@.len() ==> #[trigger] probes@[k] is None
                &&& e matches BrowserError::Configuration(m) && m@
                    == "Could not find Chrome, Edge, or Chromium. Please install one of them."@
            },
        },
{
    let n = probes.len();
    let mut k: usize = 0;
    while k < n
        invariant
            n == probes@.len(),
            0 <= k <= n,
            forall|m: int| 0 <= m < k ==> #[trigger] probes@[m] is None,
        decreases n - k,
    {
        match &probes[k] {
            Some(p) => {
                return Ok(p.clone());
            },
            None => {},
        }
        k = k + 1;
    }
    Err(
        BrowserError::Configuration(
            "Could not find Chrome, Edge, or Chromium. Please install one of them.".to_owned(),
        ),
    )
}

/// Locate a Chromium-family browser for `os`: rank the candidates, probe
/// each in order, and take the first hit. Every failure is a
/// configuration-class error the caller must surface as actionable.
pub fn find_browser_executable(os: &HostOs, program_files: Option<&String>) -> (r: Result<
    String,
    BrowserError,
>)
    ensures
        (os is Windows && program_files is None) ==> r is Err,
        r matches Err(e) ==> (e matches BrowserError::Configuration(m) && m@ == (
        if os is Windows && program_files is None {
            "ProgramFiles not found"@
        } else {
            "Could not find Chrome, Edge, or Chromium. Please install one of them."@
        })),
{
    let candidates = match candidate_executables(os, program_files) {
        Ok(v) => v,
        Err(e) => {
            return Err(e);
        },
    };
    let n = candidates.len();
    let mut probes: Vec<Option<String>> = Vec::new();
    let mut k: usize = 0;
    while k < n
        invariant
            n == candidates@.len(),
            0 <= k <= n,
        decreases n - k,
    {
        probes.push(probe_candidate(&candidates[k]));
        k = k + 1;
    }
    select_executable(&probes)
}

} // verus!
