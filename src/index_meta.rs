//! Versioning state of the search index, decided from the contents of its
//! meta index.

use vstd::prelude::*;

verus! {

/// Version of the search index layout that this code writes and reads.
pub const VERSION: u32 = 4;

/// The one document stored in the meta index.
#[derive(Debug, Clone)]
pub struct Meta {
    pub id: String,
    /// Counts up whenever the index changes in a way that needs a rebuild.
    pub version: u32,
    /// Set while moving to a new index version; stays set if that fails.
    pub dirty: bool,
}

/// Versioning state of the index.
#[derive(Debug, Clone, Copy, PartialEq, Eq, Structural)]
pub enum IndexState {
    NoVersionInfo,
    BrokenVersionInfo,
    Info { dirty: bool, version: u32 },
}

/// Why the meta index could not be read.
#[derive(Debug, Clone, Copy, PartialEq, Eq, Structural)]
pub enum MetaError {
    /// The meta index holds more than one document.
    TooManyDocuments,
}

impl IndexState {
    /// The index must be rebuilt unless it is clean and of the current version.
    pub fn needs_rebuild(self) -> (r: bool)
        ensures
            r == (self != (IndexState::Info { dirty: false, version: VERSION })),
    {
        self != (IndexState::Info { dirty: false, version: VERSION })
    }

    /// The state given by the documents of the meta index: how many there
    /// are, and, for the first, its decoded content (`None` where it does not
    /// decode as `Meta`).
    pub fn from_documents(document_count: usize, first: Option<Meta>) -> (r: Result<
        IndexState,
        MetaError,
    >)
        ensures
            document_count == 0 ==> r == Ok::<IndexState, MetaError>(IndexState::NoVersionInfo),
            document_count > 1 ==> r == Err::<IndexState, MetaError>(MetaError::TooManyDocuments),
            document_count == 1 ==> r == Ok::<IndexState, MetaError>(
                match first {
                    None => IndexState::BrokenVersionInfo,
                    Some(m) => IndexState::Info { dirty: m.dirty, version: m.version },
                },
            ),
    {
        if document_count == 0 {
            return Ok(IndexState::NoVersionInfo);
        }
        if document_count > 1 {
            return Err(MetaError::TooManyDocuments);
        }
        match first {
            None => Ok(IndexState::BrokenVersionInfo),
            Some(m) => Ok(IndexState::Info { dirty: m.dirty, version: m.version }),
        }
    }
}

} // verus!
