//! Types and decisions of the sibling services: the simulated
//! background queue's records, cache accounting, and the local file
//! processor's acceptance rules.  The I/O these services perform —
//! hashing, image decoding, directory walks — happens outside the
//! library.

use vstd::prelude::*;
use vstd::string::StringExecFns;

verus! {

/// A submission to the simulated background queue.
#[derive(Debug)]
pub struct JobPayload {
    pub kind: String,
    pub input_path: Option<String>,
    pub output_path: Option<String>,
}

/// The observable status of one simulated job.
#[derive(Debug)]
pub struct JobStatus {
    pub id: String,
    pub kind: String,
    pub progress: u8,
    pub state: String,
}

/// What the cache directory holds and how much it may hold.
#[derive(Debug)]
pub struct CacheInfo {
    pub cache_dir: String,
    pub bytes_used: u64,
    pub limit_bytes: u64,
}

/// The cache's fixed size budget, in bytes.
pub const CACHE_LIMIT_BYTES: u64 = 2 * 1024 * 1024 * 1024;

/// Accounts for a cache directory: the reported usage under the fixed
/// budget.
pub fn cache_info(cache_dir: String, bytes_used: u64) -> (r: CacheInfo)
    ensures
        r.cache_dir@ == cache_dir@,
        r.bytes_used == bytes_used,
        r.limit_bytes == CACHE_LIMIT_BYTES,
{
    CacheInfo { cache_dir, bytes_used, limit_bytes: CACHE_LIMIT_BYTES }
}

/// A request to process one local file.
#[derive(Debug)]
pub struct LocalProcessRequest {
    pub kind: String,
    pub input_path: String,
    pub output_name: Option<String>,
}

/// What a finished local processing run reports.
#[derive(Debug)]
pub struct LocalProcessResult {
    pub output_path: String,
    pub bytes_written: u64,
    pub sha256: String,
}

/// The largest input the local processor accepts, in bytes.
pub const LOCAL_SIZE_LIMIT_BYTES: u64 = 500 * 1024 * 1024;

/// Whether an input of this size is accepted.
pub fn local_size_ok(len: u64) -> (r: bool)
    ensures
        r == (len <= LOCAL_SIZE_LIMIT_BYTES),
{
    len <= LOCAL_SIZE_LIMIT_BYTES
}

/// The leading bytes every PDF file starts with.
pub open spec fn pdf_magic() -> Seq<u8> {
    seq![37u8, 80u8, 68u8, 70u8, 45u8]
}

/// Whether the first bytes of a file carry the PDF magic, the text
/// `%PDF-`.
pub fn pdf_header_ok(header: &[u8]) -> (r: bool)
    ensures
        r == (header@ == pdf_magic()),
{
    if header.len() != 5 {
        proof {
            assert(header@ != pdf_magic());
        }
        return false;
    }
    let r = header[0] == 37 && header[1] == 80 && header[2] == 68 && header[3] == 70
        && header[4] == 45;
    proof {
        if r {
            assert(header@ =~= pdf_magic());
        }
    }
    r
}

/// Whether the local processor understands the requested kind.
pub fn local_kind_supported(kind: &str) -> (r: bool)
    ensures
        r == (kind@ == "pdf"@ || kind@ == "image"@),
{
    let owned = kind.to_owned();
    owned == String::from_str("pdf") || owned == String::from_str("image")
}

/// The artifact name a local run writes under: the caller's choice, or
/// the engine's default.
pub fn local_output_name(requested: Option<String>) -> (r: String)
    ensures
        match requested {
            Option::Some(n) => r@ == n@,
            Option::None => r@ == "convertix-output"@,
        },
{
    match requested {
        Option::Some(n) => n,
        Option::None => String::from_str("convertix-output"),
    }
}

} // verus!
