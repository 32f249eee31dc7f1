//! Discovery of model files that are already present in a directory.
//!
//! Reading the directory is left to the caller, who hands over what the
//! listing gave. Which of the entries count as cached models is decided here.

use vstd::prelude::*;
use vstd::string::*;
use crate::text::{ends_with, str_ends_with, texts};

verus! {

/// One entry of a directory listing.
#[derive(Clone, Debug, PartialEq, Eq)]
pub enum DirectoryEntry {
    /// The entry could not be read, or its name is not text.
    Unreadable,
    /// A directory of the given name.
    Directory(String),
    /// Anything that is not a directory, of the given name.
    File(String),
}

/// What listing a directory gave.
#[derive(Clone, Debug, PartialEq, Eq)]
pub enum DirectoryListing {
    /// The directory could not be opened or listed.
    Unreadable,
    /// The entries, in the order in which the listing gave them.
    Entries(Vec<DirectoryEntry>),
}

/// Why no list of cached models could be made.
#[derive(Clone, Copy, Debug, PartialEq, Eq, Structural)]
pub enum ScanError {
    /// The directory itself could not be opened or listed.
    DirectoryUnreadable,
}

/// The suffix by which a model file is recognised.
pub open spec fn artifact_suffix() -> Seq<char> {
    ".gguf"@
}

impl DirectoryEntry {
    /// The name under which this entry counts as a cached model: that of a
    /// file whose name ends with the suffix, letter case included.
    pub open spec fn artifact_name(self) -> Option<Seq<char>> {
        match self {
            DirectoryEntry::File(name) if ends_with(name@, artifact_suffix()) => Some(name@),
            _ => None,
        }
    }
}

/// The cached models among `entries`: the artifact names, in listing order.
pub open spec fn cached_models(entries: Seq<DirectoryEntry>) -> Seq<Seq<char>> {
    entries.filter_map(|e: DirectoryEntry| e.artifact_name())
}

/// Whether a file of this name is a model file.
pub fn is_artifact_name(name: &str) -> (r: bool)
    ensures
        r == ends_with(name@, artifact_suffix()),
{
    str_ends_with(name, ".gguf")
}

/// Lists the cached models of a directory from its listing. Entries that
/// could not be read, directories and other names are passed over; only a
/// directory that could not be listed at all is an error.
pub fn scan(listing: &DirectoryListing) -> (r: Result<Vec<String>, ScanError>)
    ensures
        match *listing {
            DirectoryListing::Unreadable => r == Err::<Vec<String>, ScanError>(
                ScanError::DirectoryUnreadable,
            ),
            DirectoryListing::Entries(entries) => r is Ok && texts(r.unwrap()@) == cached_models(
                entries@,
            ),
        },
{
    match listing {
        DirectoryListing::Unreadable => Err(ScanError::DirectoryUnreadable),
        DirectoryListing::Entries(entries) => {
            let ghost pick = |e: DirectoryEntry| e.artifact_name();
            let mut found: Vec<String> = Vec::new();
            let mut i: usize = 0;
            assert(texts(found@) =~= entries@.take(0).filter_map(pick));
            while i < entries.len()
                invariant
                    i <= entries.len(),
                    pick == |e: DirectoryEntry| e.artifact_name(),
                    texts(found@) == entries@.take(i as int).filter_map(pick),
                decreases entries.len() - i,
            {
                proof {
                    entries@.lemma_filter_map_take_succ(pick, i as int);
                }
                let ghost before = found@;
                match &entries[i] {
                    DirectoryEntry::File(name) => {
                        if is_artifact_name(name.as_str()) {
                            found.push(name.clone());
                            assert(texts(found@) =~= texts(before).push(name@));
                        }
                    },
                    _ => {},
                }
                i = i + 1;
            }
            assert(entries@.take(i as int) =~= entries@);
            Ok(found)
        },
    }
}

} // verus!
