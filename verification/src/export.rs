//! The export writer's decisions: where a zone's export goes on disk, when a
//! fetched response may be written, and how each outcome is reported.
//!
//! The binary fetches `zones/{id}/dns_records/export`, hands the HTTP status
//! and body here, and performs exactly the planned write — the body verbatim,
//! replacing any previous file at the same path.

use crate::lister::Domain;
use crate::numbers::decimal_chars;
use crate::numbers::u32_to_decimal;
use vstd::prelude::*;
use vstd::string::StringExecFns;

verus! {

/// The file a zone named `name` is exported to: `./domains/{name}.txt`.
pub open spec fn export_path_chars(name: Seq<char>) -> Seq<char> {
    "./domains/"@ + name + ".txt"@
}

/// Builds the output path for a zone name.
pub fn export_file_path(name: &str) -> (r: String)
    ensures
        r@ == export_path_chars(name@),
{
    let mut s = String::from_str("./domains/");
    s.append(name);
    s.append(".txt");
    proof {
        assert(("./domains/"@ + name@) + ".txt"@ =~= export_path_chars(name@));
    }
    s
}

/// An HTTP status that counts as success: the 2xx range.
pub open spec fn status_success(s: u16) -> bool {
    200 <= s < 300
}

/// One pending file write: this content, wholesale, at this path.
#[derive(Debug)]
pub struct FileWrite {
    pub path: String,
    pub contents: String,
}

/// Why one zone's export failed.
#[derive(Debug)]
pub enum ExportFault {
    /// The export request never got an HTTP response.
    FetchFailed { domain: String },
    /// The provider answered outside the 2xx range.
    BadStatus { domain: String, status: u16 },
    /// The response body could not be read.
    ReadFailed { domain: String },
    /// The output file could not be created.
    CreateFailed { path: String },
    /// The output file could not be written.
    WriteFailed { domain: String },
}

/// Decides one zone's export from the fetched status and body.
///
/// Exactly the 2xx statuses yield a write: the body, byte for byte, at the
/// zone's output path.  Any other status yields the fault naming the zone
/// and the status, and plans no write at all.
pub fn plan_export(domain: &Domain, status: u16, body: String) -> (r: Result<
    FileWrite,
    ExportFault,
>)
    ensures
        match r {
            Ok(w) => {
                &&& status_success(status)
                &&& w.path@ == export_path_chars(domain.name@)
                &&& w.contents == body
            },
            Err(f) => {
                &&& !status_success(status)
                &&& f matches ExportFault::BadStatus { domain: d, status: s } && d == domain.name
                    && s == status
            },
        },
{
    if 200 <= status && status < 300 {
        let path = export_file_path(domain.name.as_str());
        Ok(FileWrite { path, contents: body })
    } else {
        Err(ExportFault::BadStatus { domain: domain.name.clone(), status })
    }
}

/// The output directory modelled as a map from path to file content; a
/// write stores its content at its path, replacing whatever was there.
pub open spec fn apply_write(fs: Map<Seq<char>, Seq<char>>, w: FileWrite) -> Map<
    Seq<char>,
    Seq<char>,
> {
    fs.insert(w.path@, w.contents@)
}

/// After a planned write is performed, the file at the zone's path holds
/// exactly the fetched body — no trailing modification.
pub proof fn lemma_export_writes_body(fs: Map<Seq<char>, Seq<char>>, w: FileWrite)
    ensures
        apply_write(fs, w).contains_key(w.path@),
        apply_write(fs, w)[w.path@] == w.contents@,
{
}

/// Re-running the export of one zone replaces the earlier file wholesale:
/// two writes to the same path leave the directory exactly as the second
/// write alone would, so the file always holds the latest fetched export.
pub proof fn lemma_rerun_replaces(fs: Map<Seq<char>, Seq<char>>, w1: FileWrite, w2: FileWrite)
    requires
        w1.path@ == w2.path@,
    ensures
        apply_write(apply_write(fs, w1), w2) =~= apply_write(fs, w2),
        apply_write(apply_write(fs, w1), w2)[w2.path@] == w2.contents@,
{
}

impl ExportFault {
    /// The diagnostic line for this fault, naming the zone or path and,
    /// for a refused status, the code itself in decimal.
    pub fn message(&self) -> (r: String)
        ensures
            match self {
                ExportFault::FetchFailed { domain } => r@ == "Error: Failed to fetch DNS records for domain "@
                    + domain@,
                ExportFault::BadStatus { domain, status } => r@ == "Error: Cloudflare API returned status code "@
                    + decimal_chars(*status as nat) + " when fetching DNS records for "@ + domain@,
                ExportFault::ReadFailed { domain } => r@ == "Error: Failed to read DNS records for domain "@
                    + domain@,
                ExportFault::CreateFailed { path } => r@ == "Error: Failed to create file "@
                    + path@,
                ExportFault::WriteFailed { domain } => r@ == "Error: Failed to write DNS records for domain "@
                    + domain@ + " to file"@,
            },
    {
        match self {
            ExportFault::FetchFailed { domain } => {
                let mut s = String::from_str("Error: Failed to fetch DNS records for domain ");
                s.append(domain.as_str());
                s
            },
            ExportFault::BadStatus { domain, status } => {
                let mut s = String::from_str("Error: Cloudflare API returned status code ");
                let code = u32_to_decimal(*status as u32);
                s.append(code.as_str());
                s.append(" when fetching DNS records for ");
                s.append(domain.as_str());
                proof {
                    assert((("Error: Cloudflare API returned status code "@ + decimal_chars(
                        *status as nat,
                    )) + " when fetching DNS records for "@) + domain@
                        == "Error: Cloudflare API returned status code "@ + decimal_chars(
                        *status as nat,
                    ) + " when fetching DNS records for "@ + domain@);
                }
                s
            },
            ExportFault::ReadFailed { domain } => {
                let mut s = String::from_str("Error: Failed to read DNS records for domain ");
                s.append(domain.as_str());
                s
            },
            ExportFault::CreateFailed { path } => {
                let mut s = String::from_str("Error: Failed to create file ");
                s.append(path.as_str());
                s
            },
            ExportFault::WriteFailed { domain } => {
                let mut s = String::from_str("Error: Failed to write DNS records for domain ");
                s.append(domain.as_str());
                s.append(" to file");
                s
            },
        }
    }
}

/// The confirmation line printed after one zone's export is written.
pub fn export_success_message(name: &str) -> (r: String)
    ensures
        r@ == "Successfully exported DNS records for "@ + name@,
{
    let mut s = String::from_str("Successfully exported DNS records for ");
    s.append(name);
    s
}

} // verus!
