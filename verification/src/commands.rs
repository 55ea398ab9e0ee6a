//! The decisions that the command line makes around the client: how many
//! results to ask for, what to tell the user, where a download goes.

use crate::text::{
    decimal, decimal_string, starts_with, trim_start, trim_trailing, trimmed_start,
    without_trailing,
};
use crate::types::DocumentVersion;
use vstd::prelude::*;
use vstd::string::*;

verus! {

/// The limit that the options `-n` and `--all` ask for: none where all
/// results are wanted or the number is zero.
pub fn resolve_limit(limit: usize, all: bool) -> (r: Option<usize>)
    ensures
        r == if all || limit == 0 {
            None
        } else {
            Some(limit)
        },
{
    if all || limit == 0 {
        None
    } else {
        Some(limit)
    }
}

/// The log filter of a verbosity: the number of `-v` on the command line.
pub open spec fn filter_of(verbosity: u8) -> Seq<char> {
    if verbosity == 0 {
        "warn"@
    } else if verbosity == 1 {
        "info"@
    } else if verbosity == 2 {
        "debug"@
    } else {
        "trace"@
    }
}

/// The log filter of a verbosity.
pub fn verbosity_filter(verbosity: u8) -> (filter: &'static str)
    ensures
        filter@ == filter_of(verbosity),
{
    match verbosity {
        0 => "warn",
        1 => "info",
        2 => "debug",
        _ => "trace",
    }
}

/// Whether the server holds more results than are shown.
pub fn has_more(showing: usize, total: u64) -> (more: bool)
    ensures
        more == (showing < total),
{
    (showing as u64) < total
}

/// The notice under a listing that was cut short.
pub open spec fn notice_of(showing: usize, total: u64) -> Seq<char> {
    "Showing "@ + decimal(showing as nat) + " of "@ + decimal(total as nat)
        + " results (use -n to change limit or --all to fetch all)"@
}

/// The notice under a listing, where the server holds more results than
/// are shown.
pub fn truncation_notice(showing: usize, total: u64) -> (notice: Option<String>)
    ensures
        notice.deep_view() == if showing < total {
            Some(notice_of(showing, total))
        } else {
            None
        },
{
    if has_more(showing, total) {
        Some(
            String::from_str("Showing ").concat(decimal_string(showing as u64).as_str()).concat(
                " of ",
            ).concat(decimal_string(total).as_str()).concat(
                " results (use -n to change limit or --all to fetch all)",
            ),
        )
    } else {
        None
    }
}

/// The page of the document `id` in the web interface of the server at
/// `base`.
pub open spec fn page_of(base: Seq<char>, id: u64) -> Seq<char> {
    without_trailing(base, '/') + "/documents/"@ + decimal(id as nat) + "/details"@
}

/// The URL at which a browser shows the document `id`.
pub fn document_page_url(base: &str, id: u64) -> (url: String)
    ensures
        url@ == page_of(base@, id),
{
    String::from_str(trim_trailing(base, '/')).concat("/documents/").concat(
        decimal_string(id).as_str(),
    ).concat("/details")
}

/// How `login` gets the credentials.
#[derive(Debug, Clone, Copy, PartialEq, Eq)]
pub enum LoginMode {
    /// Both were given on the command line.
    Given,
    /// Neither was given: ask for them.
    Interactive,
    /// Only one was given, which is an error.
    Incomplete,
}

/// Decides how `login` gets the credentials from which of the two options
/// are present.
pub fn login_mode(has_url: bool, has_token: bool) -> (mode: LoginMode)
    ensures
        mode == if has_url && has_token {
            LoginMode::Given
        } else if !has_url && !has_token {
            LoginMode::Interactive
        } else {
            LoginMode::Incomplete
        },
{
    if has_url && has_token {
        LoginMode::Given
    } else if !has_url && !has_token {
        LoginMode::Interactive
    } else {
        LoginMode::Incomplete
    }
}

/// The configuration file that holds `url` and `token`.
pub open spec fn credentials_of(url: Seq<char>, token: Seq<char>) -> Seq<char> {
    "url = \""@ + url + "\"\ntoken = \""@ + token + "\"\n"@
}

/// The content of the configuration file that `login` writes, or `None`
/// where the URL or the token is empty.
pub fn credentials_file(url: &str, token: &str) -> (content: Option<String>)
    ensures
        content.deep_view() == if url@.len() == 0 || token@.len() == 0 {
            None
        } else {
            Some(credentials_of(url@, token@))
        },
{
    if url.is_empty() || token.is_empty() {
        None
    } else {
        Some(
            String::from_str("url = \"").concat(url).concat("\"\ntoken = \"").concat(token).concat(
                "\"\n",
            ),
        )
    }
}

/// Whether a line of the configuration file sets the token.
pub open spec fn sets_token(line: Seq<char>) -> bool {
    "token"@.is_prefix_of(trimmed_start(line))
}

/// A line of the configuration file as `status` shows it: a line that sets
/// the token shows stars in place of the token.
pub fn masked_line(line: &str) -> (shown: String)
    ensures
        shown@ == if sets_token(line@) {
            "token = \"***\""@
        } else {
            line@
        },
{
    if starts_with(trim_start(line), "token") {
        String::from_str("token = \"***\"")
    } else {
        String::from_str(line)
    }
}

/// Whether `--file` may be used: it names one file, so it goes with one
/// document.
pub fn file_option_allowed(has_file: bool, documents: usize) -> (allowed: bool)
    ensures
        allowed == !(has_file && documents > 1),
{
    !(has_file && documents > 1)
}

/// The version to download: the archived one unless the original is asked
/// for.
pub fn version_for(original: bool) -> (version: DocumentVersion)
    ensures
        version == if original {
            DocumentVersion::Original
        } else {
            DocumentVersion::Archived
        },
{
    if original {
        DocumentVersion::Original
    } else {
        DocumentVersion::Archived
    }
}

/// The file name of a document whose own is unknown or unusable.
pub open spec fn fallback_name(id: u64) -> Seq<char> {
    "document-"@ + decimal(id as nat)
}

/// The file name of a document whose own is unknown or unusable.
pub fn fallback_file_name(id: u64) -> (name: String)
    ensures
        name@ == fallback_name(id),
{
    String::from_str("document-").concat(decimal_string(id).as_str())
}

/// Calls `std::path::Path::file_name` on `name` and returns the final
/// component as text where it has one. What counts as a separator depends
/// on the platform, so the contract promises nothing of the result.
#[verifier::external_body]
fn final_component(name: &str) -> Option<String> {
    std::path::Path::new(name).file_name().and_then(|part| part.to_str()).map(str::to_string)
}

/// The name under which a download is stored, given the final component of
/// the document's original file name: that component, or the fallback name
/// where there is none.
pub fn stored_name(component: Option<String>, id: u64) -> (name: String)
    ensures
        name@ == match component.deep_view() {
            Some(component) => component,
            None => fallback_name(id),
        },
{
    match component {
        Some(component) => component,
        None => fallback_file_name(id),
    }
}

/// The name under which the document `id` is stored in the current
/// directory: the final component of its original file name, so that a name
/// from the server never leaves the directory, or the fallback name where
/// the document has no such name or the name has no final component.
pub fn download_name(original_file_name: Option<&str>, id: u64) -> (name: String)
    ensures
        original_file_name is None ==> name@ == fallback_name(id),
{
    match original_file_name {
        Some(name) => stored_name(final_component(name), id),
        None => fallback_file_name(id),
    }
}

} // verus!
