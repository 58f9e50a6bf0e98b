//! A minimal configuration loader: the text of one file is read into memory
//! and either printed, or a single generic failure message is printed.
//!
//! The reading itself is filesystem work and lives with the caller; this
//! crate holds the typed outcome of a load attempt and proves exactly what
//! is reported for each outcome.

use vstd::prelude::*;

verus! {

/// Why a load attempt failed: either the file could not be opened
/// (missing, permission denied, invalid path), or it was opened but
/// its bytes could not be read or decoded as text.
#[derive(Clone, Copy, Debug, PartialEq, Eq, Structural)]
pub enum ConfigError {
    OpenFailure,
    ReadFailure,
}

/// The full text written to the user when a load attempt fails,
/// whatever the kind of failure.
pub open spec fn failure_report() -> Seq<char> {
    "An error occurred while reading the config file.\n"@
}

/// The full text written to the user when a load attempt succeeds with
/// the given contents: a header line, the contents unchanged, a blank
/// separator, and a confirmation line.
pub open spec fn success_report(contents: Seq<char>) -> Seq<char> {
    "Config Contents:\n"@ + contents + "\nConfig file read successfully.\n"@
}

/// What is reported for each outcome of a load attempt: the contents
/// framed by the header and the confirmation on success, the one generic
/// failure message on any failure.
pub open spec fn report_view(outcome: Result<Seq<char>, ConfigError>) -> Seq<char> {
    match outcome {
        Ok(contents) => success_report(contents),
        Err(_) => failure_report(),
    }
}

/// Build the failure message exactly as `failure_report` states it.
pub fn render_failure() -> (out: String)
    ensures
        out@ == failure_report(),
{
    String::from_str("An error occurred while reading the config file.\n")
}

/// Build the success message for the given contents, exactly as
/// `success_report` states it.
pub fn render_success(contents: &str) -> (out: String)
    ensures
        out@ == success_report(contents@),
{
    let mut out = String::from_str("Config Contents:\n");
    out.append(contents);
    out.append("\nConfig file read successfully.\n");
    out
}

/// Turn the outcome of a load attempt into the text to report, exactly
/// as `report_view` states it.
pub fn render_report(outcome: &Result<String, ConfigError>) -> (out: String)
    ensures
        out@ == report_view(match *outcome {
            Ok(ref contents) => Ok::<Seq<char>, ConfigError>(contents@),
            Err(e) => Err(e),
        }),
{
    match outcome {
        Ok(contents) => render_success(contents.as_str()),
        Err(_) => render_failure(),
    }
}

/// The one file the entry point targets, resolved relative to the
/// process's working directory.
pub fn config_path() -> (path: &'static str)
    ensures
        path@ == "config.txt"@,
{
    "config.txt"
}

/// Every kind of failure is reported with the same text: the user cannot
/// tell an open failure from a read failure.
pub proof fn lemma_failure_kinds_indistinguishable(e1: ConfigError, e2: ConfigError)
    ensures
        report_view(Err(e1)) == report_view(Err(e2)),
        report_view(Err(e1)) == failure_report(),
{
}

/// A failed load never shows any part of the success framing: the failure
/// report does not begin with the contents header, and differs from the
/// success report for every possible contents.
pub proof fn lemma_failure_report_shows_no_contents(contents: Seq<char>)
    ensures
        !"Config Contents:\n"@.is_prefix_of(failure_report()),
        failure_report() != success_report(contents),
{
    reveal_strlit("Config Contents:\n");
    reveal_strlit("An error occurred while reading the config file.\n");
    assert(failure_report()[0] == 'A');
    assert(success_report(contents)[0] == 'C');
}

/// The success report carries the loaded contents through unchanged: it is
/// exactly the header, then the contents character for character, then the
/// confirmation trailer.
pub proof fn lemma_success_report_preserves_contents(contents: Seq<char>)
    ensures
        "Config Contents:\n"@.is_prefix_of(success_report(contents)),
        "\nConfig file read successfully.\n"@.is_suffix_of(success_report(contents)),
        success_report(contents).subrange(
            "Config Contents:\n"@.len() as int,
            "Config Contents:\n"@.len() + contents.len() as int,
        ) == contents,
{
    let header = "Config Contents:\n"@;
    let trailer = "\nConfig file read successfully.\n"@;
    let report = success_report(contents);
    assert(header.is_prefix_of(report)) by {
        assert(report.subrange(0, header.len() as int) =~= header);
    }
    assert(trailer.is_suffix_of(report)) by {
        assert(report.subrange(report.len() - trailer.len(), report.len() as int) =~= trailer);
    }
    assert(report.subrange(header.len() as int, header.len() + contents.len() as int) =~= contents);
}

} // verus!
