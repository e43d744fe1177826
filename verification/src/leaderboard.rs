//! The most clicked links.
use vstd::prelude::*;

use crate::db;

verus! {

/// One link with its identifier, target URL and number of clicks.
#[derive(Debug)]
pub struct Entry {
    pub identifier: String,
    pub url: String,
    pub clicks: i64,
}

/// Why the leaderboard could not be read.
#[derive(Debug)]
pub enum Error {
    DbConnectionFailed(db::Error),
    DbCommunicationFailed,
    FailedToPrepareQuery,
    EmptyColumn,
}

impl From<db::Error> for Error {
    fn from(e: db::Error) -> (res: Self)
        ensures
            res == Error::DbConnectionFailed(e),
    {
        Error::DbConnectionFailed(e)
    }
}

impl vstd::std_specs::convert::FromSpecImpl<db::Error> for Error {
    open spec fn obeys_from_spec() -> bool {
        true
    }

    open spec fn from_spec(e: db::Error) -> Self {
        Error::DbConnectionFailed(e)
    }
}

/// One row of the leaderboard query: identifier, clicks and URL, each
/// `None` when its column cannot be read.
pub struct Row {
    pub identifier: Option<String>,
    pub clicks: Option<i64>,
    pub url: Option<String>,
}

/// Whether every column of a row could be read.
pub open spec fn row_complete(r: Row) -> bool {
    r.identifier is Some && r.clicks is Some && r.url is Some
}

/// Whether `e` holds what row `r` reports.
pub open spec fn entry_of(e: Entry, r: Row) -> bool {
    &&& r.identifier == Some(e.identifier)
    &&& r.clicks == Some(e.clicks)
    &&& r.url == Some(e.url)
}

/// The entries that the rows of the leaderboard query make, in the same
/// order; `EmptyColumn` as soon as one row has a column that cannot be read.
pub fn entries_from_rows(rows: Vec<Row>) -> (res: Result<Vec<Entry>, Error>)
    ensures
        (forall|i: int| 0 <= i < rows@.len() ==> row_complete(#[trigger] rows@[i])) ==> (res matches Ok(
            entries,
        ) && entries@.len() == rows@.len() && forall|i: int|
            0 <= i < rows@.len() ==> entry_of(#[trigger] entries@[i], rows@[i])),
        !(forall|i: int| 0 <= i < rows@.len() ==> row_complete(#[trigger] rows@[i])) ==> res matches Err(
            Error::EmptyColumn,
        ),
{
    let ghost given = rows@;
    let mut pending = rows;
    let mut entries: Vec<Entry> = Vec::new();
    while pending.len() > 0
        invariant
            given == rows@,
            entries@.len() + pending@.len() == given.len(),
            pending@ == given.subrange(entries@.len() as int, given.len() as int),
            forall|i: int| 0 <= i < entries@.len() ==> row_complete(#[trigger] given[i]),
            forall|i: int| 0 <= i < entries@.len() ==> entry_of(#[trigger] entries@[i], given[i]),
        decreases pending.len(),
    {
        let ghost k = entries@.len() as int;
        let row = pending.remove(0);
        proof {
            assert(row == given[k]);
            assert(pending@ =~= given.subrange(k + 1, given.len() as int));
        }
        if !(row.identifier.is_some() && row.clicks.is_some() && row.url.is_some()) {
            assert(!row_complete(given[k]));
            return Err(Error::EmptyColumn);
        }
        match (row.identifier, row.clicks, row.url) {
            (Some(identifier), Some(clicks), Some(url)) => {
                entries.push(Entry { identifier, url, clicks });
            },
            _ => {
                assert(!row_complete(given[k]));
                return Err(Error::EmptyColumn);
            },
        }
    }
    Ok(entries)
}

} // verus!
