//! Margin: the verified core of a local-first reading and annotation tool.
//!
//! Margin keeps documents, highlights, notes in the margin and corrections
//! in an embedded SQLite database, finds documents by full-text search
//! ranked by relevance, recency and frequency, and brings an older database
//! up to the current schema on every start.
//!
//! The library decides; it does no file or network I/O of its own. It
//! reaches the database, the JSON parser, the clock and the source of fresh
//! identifiers through a small number of declarations whose contracts are
//! assumed, gathered in [`db`], [`json`], [`clock`] and [`text`]. Everything
//! else is verified against contracts over mathematical models:
//!
//! - [`query`] turns free text into a safe query expression;
//! - [`search`] stores and removes index entries and runs the ranked lookup;
//! - [`reindex`] keeps the index in step with the files on disk;
//! - [`schema`] creates and migrates the tables;
//! - [`backfill`] recovers corrections from the append-only logs;
//! - [`corrections`], [`documents`], [`annotations`], [`tabs`] and
//!   [`writing_rules`] read and write the entities, decoded by [`rows`] and
//!   [`models`];
//! - [`files`], [`spotlight`] and [`keep_local`] hold the rules on file names
//!   and addresses that the application around the library applies;
//! - [`text`], [`seqs`] and [`timestamp`] are shared helpers.

use vstd::prelude::*;

pub mod annotations;
pub mod backfill;
pub mod clock;
pub mod corrections;
pub mod db;
pub mod documents;
pub mod files;
pub mod json;
pub mod keep_local;
pub mod models;
pub mod query;
pub mod reindex;
pub mod rows;
pub mod schema;
pub mod search;
pub mod seqs;
pub mod spotlight;
pub mod tabs;
pub mod text;
pub mod timestamp;
pub mod writing_rules;

verus! {

/// Paths of files that the system asked to open before the window was ready
/// to take them.
pub struct PendingOpenFiles(pub Vec<String>);

impl PendingOpenFiles {
    /// The paths that wait, in the order in which they came.
    pub open spec fn paths(&self) -> Seq<Seq<char>> {
        crate::text::texts(self.0@)
    }

    /// A queue in which nothing waits.
    pub fn new() -> (queue: PendingOpenFiles)
        ensures
            queue.paths() == Seq::<Seq<char>>::empty(),
    {
        let queue = PendingOpenFiles(Vec::new());
        assert(queue.paths() =~= Seq::<Seq<char>>::empty());
        queue
    }

    /// Lets a path wait, unless it waits already.
    pub fn queue(&mut self, path: String)
        ensures
            final(self).paths() == if old(self).paths().contains(path@) {
                old(self).paths()
            } else {
                old(self).paths().push(path@)
            },
    {
        if !crate::text::contains_text(&self.0, path.as_str()) {
            crate::text::push_line(&mut self.0, path);
        }
    }

    /// Hands over the paths that wait, in the order in which they came, and
    /// leaves nothing waiting.
    pub fn drain(&mut self) -> (paths: Vec<String>)
        ensures
            crate::text::texts(paths@) == old(self).paths(),
            final(self).paths() == Seq::<Seq<char>>::empty(),
    {
        let mut paths: Vec<String> = Vec::new();
        core::mem::swap(&mut self.0, &mut paths);
        assert(self.paths() =~= Seq::<Seq<char>>::empty());
        paths
    }
}

} // verus!
