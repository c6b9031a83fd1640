//! The shared "current track" cell: the single value that crosses the
//! concurrency boundary. The supervisor's driver writes it; the
//! presentation layer reads it on its own cadence. The lock guarantees
//! that a reader always sees a whole record, never a partial one, and
//! the cell's invariant guarantees that what it sees is nothing or a
//! displayable record.

use vstd::prelude::*;
use vstd::rwlock::RwLock;
use vstd::rwlock::RwLockPredicate;

use crate::track::TrackRecord;
use crate::track::opt_track_valid;

verus! {

/// The cell's invariant: only nothing or a displayable record is ever
/// stored.
pub struct ValidTrack {}

impl RwLockPredicate<Option<TrackRecord>> for ValidTrack {
    open spec fn inv(self, v: Option<TrackRecord>) -> bool {
        opt_track_valid(v)
    }
}

/// A concurrency-safe holder of the latest track record. Created
/// empty; safe to read from any thread while another publishes.
pub struct SharedCell {
    lock: RwLock<Option<TrackRecord>, ValidTrack>,
}

impl SharedCell {
    /// A fresh, empty cell.
    pub fn new() -> SharedCell {
        SharedCell { lock: RwLock::new(None, Ghost(ValidTrack {})) }
    }

    /// Replace the published value. A sample that is not displayable is
    /// demoted to nothing, so the invariant of the cell can never be
    /// broken by a caller; the result says whether the sample was kept
    /// as given.
    pub fn publish(&self, v: Option<TrackRecord>) -> (kept: bool)
        ensures
            kept == opt_track_valid(v),
    {
        let kept = match &v {
            Some(t) => t.is_displayable(),
            None => true,
        };
        let store = if kept {
            v
        } else {
            None
        };
        let (_, write_handle) = self.lock.acquire_write();
        write_handle.release_write(store);
        kept
    }

    /// Copy out the current value: nothing, or a whole, displayable
    /// record. Blocks only for the lock acquisition.
    pub fn read(&self) -> (v: Option<TrackRecord>)
        ensures
            opt_track_valid(v),
    {
        let read_handle = self.lock.acquire_read();
        let v = match read_handle.borrow() {
            Some(t) => Some(t.clone()),
            None => None,
        };
        read_handle.release_read();
        v
    }
}

} // verus!
