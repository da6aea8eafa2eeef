//! The documents that are ingested.

use vstd::prelude::*;

verus! {

/// One revision of an article, as the archive lists it.
#[derive(Debug, Clone, PartialEq, Eq, Hash)]
pub struct Version {
    pub created: String,
    pub version: String,
}

/// One article of the archive: the document that is sent to the index.
///
/// A record is a plain value. The scheduler reads nothing of it but `id`,
/// the primary key under which the index stores it.
#[derive(Debug, Clone, PartialEq, Eq, Hash)]
pub struct ArxivEntry {
    pub abstract_text: String,
    pub authors: String,
    pub authors_parsed: Vec<Vec<String>>,
    pub categories: String,
    pub comments: Option<String>,
    pub doi: Option<String>,
    pub id: u32,
    pub journal_ref: Option<String>,
    pub license: Option<String>,
    pub report_no: Option<String>,
    pub submitter: String,
    pub title: String,
    pub update_date: String,
    pub versions: Vec<Version>,
}

/// The identifiers of `records`, in the same order.
pub open spec fn ids_of(records: Seq<ArxivEntry>) -> Seq<u32> {
    records.map_values(|r: ArxivEntry| r.id)
}

} // verus!
