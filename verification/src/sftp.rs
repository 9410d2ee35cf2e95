//! SFTP data types and the facade's request policy: per-op timeouts, the
//! recycle-and-retry rule for transient errors, and the delete fallback.

use vstd::prelude::*;
use crate::error::{SshError, is_transient_sftp};
use crate::text::{opt_str_view, clone_opt_string};

verus! {

/// Response timeout, in seconds, configured on the SFTP session itself; the
/// library default is too aggressive for slow networks.
pub const SFTP_RESPONSE_TIMEOUT_SECS: u64 = 180;

/// A directory entry as reported over SFTP.
pub struct SftpEntry {
    pub name: String,
    pub is_directory: bool,
    pub size: u64,
    pub mtime: i64,
    pub permissions: Option<String>,
}

/// Ghost image of an entry: plain values only.
pub ghost struct SftpEntryV {
    pub name: Seq<char>,
    pub is_directory: bool,
    pub size: u64,
    pub mtime: i64,
    pub permissions: Option<Seq<char>>,
}

impl View for SftpEntry {
    type V = SftpEntryV;

    open spec fn view(&self) -> SftpEntryV {
        SftpEntryV {
            name: self.name@,
            is_directory: self.is_directory,
            size: self.size,
            mtime: self.mtime,
            permissions: opt_str_view(self.permissions),
        }
    }
}

/// File metadata as reported over SFTP.
pub struct SftpStat {
    pub size: u64,
    pub mtime: i64,
}

impl SftpEntry {
    /// An exact copy of the entry.
    pub fn duplicate(&self) -> (r: Self)
        ensures
            r@ == self@,
    {
        SftpEntry {
            name: self.name.clone(),
            is_directory: self.is_directory,
            size: self.size,
            mtime: self.mtime,
            permissions: clone_opt_string(&self.permissions),
        }
    }
}

/// The ghost images of a vector of entries.
pub open spec fn entries_view(v: Seq<SftpEntry>) -> Seq<SftpEntryV> {
    v.map_values(|e: SftpEntry| e@)
}

/// An exact copy of a vector of entries.
pub fn duplicate_entries(v: &Vec<SftpEntry>) -> (r: Vec<SftpEntry>)
    ensures
        entries_view(r@) == entries_view(v@),
{
    let mut r: Vec<SftpEntry> = Vec::new();
    let mut i: usize = 0;
    while i < v.len()
        invariant
            i <= v@.len(),
            r@.len() == i,
            forall|j: int| 0 <= j < i ==> r@[j]@ == v@[j]@,
        decreases v@.len() - i,
    {
        r.push(v[i].duplicate());
        i = i + 1;
    }
    proof {
        assert forall|j: int| 0 <= j < v@.len() implies entries_view(r@)[j] == entries_view(v@)[j]
        by {
            assert(entries_view(r@)[j] == r@[j]@);
            assert(entries_view(v@)[j] == v@[j]@);
        }
        assert(entries_view(r@) =~= entries_view(v@));
    }
    r
}

/// The operations a connection actor serves, for timeout selection.
pub enum SftpOp {
    GetHomeDir,
    ListDir,
    ReadFile,
    ReadFileWithStat,
    WriteFile,
    Stat,
    CreateFile,
    CreateDir,
    Delete,
    Rename,
    CreatePty,
}

/// The per-call timeout of each operation, in milliseconds.
pub open spec fn op_timeout_spec(op: &SftpOp) -> u64 {
    match op {
        SftpOp::GetHomeDir => 30_000,
        SftpOp::ListDir => 45_000,
        SftpOp::ReadFile => 60_000,
        SftpOp::ReadFileWithStat => 75_000,
        SftpOp::WriteFile => 60_000,
        SftpOp::Stat => 30_000,
        SftpOp::CreateFile => 30_000,
        SftpOp::CreateDir => 30_000,
        SftpOp::Delete => 30_000,
        SftpOp::Rename => 30_000,
        SftpOp::CreatePty => 20_000,
    }
}

/// The timeout the actor must apply to one operation, in milliseconds.
pub fn op_timeout_ms(op: &SftpOp) -> (t: u64)
    ensures
        t == op_timeout_spec(op),
{
    match op {
        SftpOp::GetHomeDir => 30_000,
        SftpOp::ListDir => 45_000,
        SftpOp::ReadFile => 60_000,
        SftpOp::ReadFileWithStat => 75_000,
        SftpOp::WriteFile => 60_000,
        SftpOp::Stat => 30_000,
        SftpOp::CreateFile => 30_000,
        SftpOp::CreateDir => 30_000,
        SftpOp::Delete => 30_000,
        SftpOp::Rename => 30_000,
        SftpOp::CreatePty => 20_000,
    }
}

/// Whether a first attempt's outcome calls for a session recycle followed by
/// exactly one retry.
pub fn sftp_should_retry<T>(first: &Result<T, SshError>) -> (retry: bool)
    ensures
        retry == (first matches Err(e) && is_transient_sftp(&e)),
{
    match first {
        Err(SshError::SftpTimeout) => true,
        Err(SshError::SftpSessionClosed) => true,
        _ => false,
    }
}

/// How many recycles the facade performs for a given first outcome.
pub open spec fn facade_recycle_count<T>(first: &Result<T, SshError>) -> int {
    if first matches Err(e) && is_transient_sftp(e) {
        1
    } else {
        0
    }
}

/// The outcome the facade surfaces: the first result, unless it was
/// transient, in which case the single retry's result stands as is.
pub open spec fn facade_outcome_spec<T>(
    first: Result<T, SshError>,
    second: Result<T, SshError>,
) -> Result<T, SshError> {
    if first matches Err(e) && is_transient_sftp(&e) {
        second
    } else {
        first
    }
}

/// Combine the first attempt with the optional retry into the surfaced
/// result. The protocol obliges a retry exactly when the first outcome is
/// transient.
pub fn resolve_sftp_outcome<T>(
    first: Result<T, SshError>,
    second: Option<Result<T, SshError>>,
) -> (r: Result<T, SshError>)
    requires
        (second is Some) == (first matches Err(e) && is_transient_sftp(&e)),
    ensures
        match second {
            Some(s) => r == facade_outcome_spec(first, s),
            None => r == first,
        },
{
    match second {
        Some(s) => s,
        None => first,
    }
}

/// Law: in a run where the first attempt of an operation errors with a
/// transient class, the facade performs exactly one recycle and one retry,
/// and the surfaced result is an error precisely when the retry erred; a
/// non-transient first outcome is surfaced untouched with no recycle.
pub proof fn lemma_sftp_recycle_once<T>(first: Result<T, SshError>, second: Result<T, SshError>)
    ensures
        (first matches Err(e) && is_transient_sftp(&e)) ==> {
            &&& facade_recycle_count(&first) == 1
            &&& facade_outcome_spec(first, second) == second
            &&& (facade_outcome_spec(first, second) is Err) == (second is Err)
        },
        !(first matches Err(e) && is_transient_sftp(&e)) ==> {
            &&& facade_recycle_count(&first) == 0
            &&& facade_outcome_spec(first, second) == first
        },
{
}

/// Delete policy: removal as a file is attempted first; when it errs, the
/// removal as a directory decides, and its error is the surfaced one.
pub fn resolve_delete_outcome(
    file_attempt: Result<(), SshError>,
    dir_attempt: Option<Result<(), SshError>>,
) -> (r: Result<(), SshError>)
    requires
        (dir_attempt is Some) == (file_attempt is Err),
    ensures
        file_attempt is Ok ==> r is Ok,
        file_attempt is Err ==> r == dir_attempt->Some_0,
{
    match dir_attempt {
        Some(d) => d,
        None => Ok(()),
    }
}

} // verus!
