//! The launcher's diagnostic texts.
//!
//! All diagnostics go to standard error; standard output belongs to the
//! delegate alone.  The texts are part of the launcher's behaviour, so
//! each is pinned, line for line, to its declared content.

use vstd::prelude::*;
use vstd::string::*;

verus! {

/// The remediation report of a run that found no module in any tier: how
/// to set the override variable, build from source, run the installer, or
/// install by hand.
pub open spec fn remediation_text() -> Seq<Seq<char>> {
    seq![
        "Research CLI Native Wrapper"@,
        ""@,
        "Error: Research CLI module not found!"@,
        ""@,
        "This wrapper needs to find the Research CLI Node.js module to function."@,
        ""@,
        "Troubleshooting:"@,
        "1. If you installed via the complete installer, try:"@,
        "   export RESEARCH_CLI_HOME=/usr/local/lib/research-cli"@,
        "   # or"@,
        "   export RESEARCH_CLI_HOME=$HOME/.local/lib/research-cli"@,
        ""@,
        "2. If you're in a development environment, make sure to build first:"@,
        "   npm run build"@,
        ""@,
        "3. For a complete installation, run:"@,
        "   curl -sSL https://github.com/iechor-research/research-cli/releases/latest/download/install-complete.sh | bash"@,
        ""@,
        "4. Manual installation:"@,
        "   - Download research-cli-node.tar.gz from the release"@,
        "   - Extract it to a directory"@,
        "   - Set RESEARCH_CLI_HOME to that directory"@,
        ""@,
        "For more information, visit:"@,
        "https://github.com/iechor-research/research-cli"@,
    ]
}

/// The report of a failed interpreter pre-check: install guidance and the
/// minimum-version hint; the delegate is never attempted after it.
pub open spec fn interpreter_missing_text() -> Seq<Seq<char>> {
    seq![
        "Error: Node.js is not installed or not available in PATH!"@,
        ""@,
        "Research CLI requires Node.js to function."@,
        "Please install Node.js from: https://nodejs.org/"@,
        ""@,
        "Supported Node.js versions: 18.0.0 or higher"@,
    ]
}

/// The report of a spawn that failed although the pre-check had passed,
/// opened by the spawn error's own description.
pub open spec fn startup_failure_text(detail: Seq<char>) -> Seq<Seq<char>> {
    seq![
        "Failed to start Research CLI: "@ + detail,
        ""@,
        "This usually means Node.js is not properly installed."@,
        "Please ensure Node.js is installed and available in your PATH."@,
        ""@,
        "You can test Node.js installation by running:"@,
        "  node --version"@,
    ]
}

/// The remediation lines written to standard error when no module was
/// found.
pub fn remediation_lines() -> (r: Vec<String>)
    ensures
        r.deep_view() == remediation_text(),
{
    let mut v: Vec<String> = Vec::new();
    v.push("Research CLI Native Wrapper".to_owned());
    v.push("".to_owned());
    v.push("Error: Research CLI module not found!".to_owned());
    v.push("".to_owned());
    v.push("This wrapper needs to find the Research CLI Node.js module to function.".to_owned());
    v.push("".to_owned());
    v.push("Troubleshooting:".to_owned());
    v.push("1. If you installed via the complete installer, try:".to_owned());
    v.push("   export RESEARCH_CLI_HOME=/usr/local/lib/research-cli".to_owned());
    v.push("   # or".to_owned());
    v.push("   export RESEARCH_CLI_HOME=$HOME/.local/lib/research-cli".to_owned());
    v.push("".to_owned());
    v.push("2. If you're in a development environment, make sure to build first:".to_owned());
    v.push("   npm run build".to_owned());
    v.push("".to_owned());
    v.push("3. For a complete installation, run:".to_owned());
    v.push(
        "   curl -sSL https://github.com/iechor-research/research-cli/releases/latest/download/install-complete.sh | bash".to_owned(),
    );
    v.push("".to_owned());
    v.push("4. Manual installation:".to_owned());
    v.push("   - Download research-cli-node.tar.gz from the release".to_owned());
    v.push("   - Extract it to a directory".to_owned());
    v.push("   - Set RESEARCH_CLI_HOME to that directory".to_owned());
    v.push("".to_owned());
    v.push("For more information, visit:".to_owned());
    v.push("https://github.com/iechor-research/research-cli".to_owned());
    proof {
        assert(v.deep_view() =~= remediation_text());
    }
    v
}

/// The guidance lines written to standard error when the interpreter
/// pre-check failed.
pub fn interpreter_missing_lines() -> (r: Vec<String>)
    ensures
        r.deep_view() == interpreter_missing_text(),
{
    let mut v: Vec<String> = Vec::new();
    v.push("Error: Node.js is not installed or not available in PATH!".to_owned());
    v.push("".to_owned());
    v.push("Research CLI requires Node.js to function.".to_owned());
    v.push("Please install Node.js from: https://nodejs.org/".to_owned());
    v.push("".to_owned());
    v.push("Supported Node.js versions: 18.0.0 or higher".to_owned());
    proof {
        assert(v.deep_view() =~= interpreter_missing_text());
    }
    v
}

/// The diagnostic lines written to standard error when spawning the
/// interpreter failed, opened by the spawn error's description.
pub fn startup_failure_lines(detail: &str) -> (r: Vec<String>)
    ensures
        r.deep_view() == startup_failure_text(detail@),
{
    let mut first = "Failed to start Research CLI: ".to_owned();
    first.append(detail);
    let mut v: Vec<String> = Vec::new();
    v.push(first);
    v.push("".to_owned());
    v.push("This usually means Node.js is not properly installed.".to_owned());
    v.push("Please ensure Node.js is installed and available in your PATH.".to_owned());
    v.push("".to_owned());
    v.push("You can test Node.js installation by running:".to_owned());
    v.push("  node --version".to_owned());
    proof {
        assert(v.deep_view() =~= startup_failure_text(detail@));
    }
    v
}

} // verus!
