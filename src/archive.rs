//! What the matcher sees of an archive file, and which files are worth opening.
use vstd::prelude::*;
use crate::text::{lower_of, lowercase, lowered, views_of};

verus! {

/// How many entry names are read from an archive.
///
/// Signals that only appear after this many entries are missed; in exchange an archive with
/// a huge listing costs no more than a small one. A hundred entries hold the packages and
/// classes of a typical small mod.
pub const ENTRY_PREFIX_CAP: usize = 100;

/// Files smaller than this many bytes are not considered.
pub const MIN_ARCHIVE_BYTES: u64 = 1024;

/// Files larger than this many bytes (500 MiB) are not considered.
pub const MAX_ARCHIVE_BYTES: u64 = 524288000;

/// A bounded prefix of an archive's entry names, lower-cased, and the file's byte size.
#[derive(Clone, Debug)]
pub struct ArchiveSnapshot {
    /// Lower-cased entry names, in archive order, duplicates kept.
    pub names: Vec<String>,
    /// Size of the archive file in bytes, as the file system reports it.
    pub size: u64,
}

impl ArchiveSnapshot {
    /// The entry names as character sequences.
    pub open spec fn entries(&self) -> Seq<Seq<char>> {
        views_of(self.names@)
    }

    /// The number of entries kept from a listing of `n` names.
    pub open spec fn kept(n: nat) -> nat {
        if n <= ENTRY_PREFIX_CAP {
            n
        } else {
            ENTRY_PREFIX_CAP as nat
        }
    }

    /// Builds a snapshot from raw entry names in archive order: the first
    /// `ENTRY_PREFIX_CAP` of them, lower-cased.
    pub fn from_entry_names(raw: &Vec<String>, size: u64) -> (r: ArchiveSnapshot)
        ensures
            r.size == size,
            r.entries() == lowered(raw@).take(ArchiveSnapshot::kept(raw@.len()) as int),
    {
        let n = if raw.len() <= ENTRY_PREFIX_CAP {
            raw.len()
        } else {
            ENTRY_PREFIX_CAP
        };
        let mut names: Vec<String> = Vec::new();
        let mut i: usize = 0;
        while i < n
            invariant
                n <= raw@.len(),
                i <= n,
                names@.len() == i,
                forall|j: int| 0 <= j < i ==> #[trigger] names@[j]@ == lower_of(raw@[j]@),
            decreases n - i,
        {
            names.push(lowercase(raw[i].as_str()));
            i = i + 1;
        }
        let r = ArchiveSnapshot { names, size };
        assert(r.entries() =~= lowered(raw@).take(n as int));
        r
    }
}

/// The extension is `jar`, in any mix of ASCII case.
pub open spec fn is_jar_extension(ext: Seq<char>) -> bool {
    &&& ext.len() == 3
    &&& (ext[0] == 'j' || ext[0] == 'J')
    &&& (ext[1] == 'a' || ext[1] == 'A')
    &&& (ext[2] == 'r' || ext[2] == 'R')
}

/// Whether a regular file with this extension and byte size is a candidate for scanning:
/// a `jar` extension in any ASCII case, and a size between 1 KiB and 500 MiB, both included.
pub fn is_archive_candidate(extension: &str, size: u64) -> (r: bool)
    ensures
        r == (is_jar_extension(extension@) && MIN_ARCHIVE_BYTES <= size <= MAX_ARCHIVE_BYTES),
{
    if size < MIN_ARCHIVE_BYTES || size > MAX_ARCHIVE_BYTES {
        return false;
    }
    if extension.unicode_len() != 3 {
        return false;
    }
    let a = extension.get_char(0);
    let b = extension.get_char(1);
    let c = extension.get_char(2);
    (a == 'j' || a == 'J') && (b == 'a' || b == 'A') && (c == 'r' || c == 'R')
}

} // verus!
