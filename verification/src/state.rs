use crate::codec::apply_chunk;
use crate::record::Record;
use vstd::prelude::*;
use vstd::rwlock::{RwLock, RwLockPredicate};

verus! {

/// Every record is a legal content of the store: the lock exists for
/// mutual exclusion, not to carry a data invariant.
pub struct AnyRecord {}

impl RwLockPredicate<Record> for AnyRecord {
    open spec fn inv(self, v: Record) -> bool {
        true
    }
}

/// The one store both listeners share: the whole [`Record`] behind a
/// single verified reader-writer lock.  A writer replaces the record
/// as one unit and a reader borrows a whole record, so a snapshot can
/// never pair the latitude of one update with the longitude of
/// another, and many readers may look at the same record at once.
pub struct SharedState {
    lock: RwLock<Record, AnyRecord>,
}

impl SharedState {
    /// A fresh store holding the initial record: position (0, 0),
    /// empty label.
    pub fn new() -> SharedState {
        SharedState { lock: RwLock::new(Record::new(), Ghost(AnyRecord {})) }
    }

    /// The position pair of one consistent record: both components
    /// come from the same completed update (or both are the default).
    pub fn get_position(&self) -> (u64, u64) {
        let handle = self.lock.acquire_read();
        let r = handle.borrow().get_position();
        handle.release_read();
        r
    }

    /// A copy of the current label.
    pub fn get_girouette(&self) -> String {
        let handle = self.lock.acquire_read();
        let s = handle.borrow().get_girouette();
        handle.release_read();
        s
    }

    /// Replaces the stored position pair as one unit, under the write
    /// lock.
    pub fn set_position(&self, lat_bits: u64, lon_bits: u64) {
        let (mut rec, handle) = self.lock.acquire_write();
        rec.set_position(lat_bits, lon_bits);
        handle.release_write(rec);
    }

    /// Replaces the stored label, under the write lock.
    pub fn set_girouette(&self, girouette: String) {
        let (mut rec, handle) = self.lock.acquire_write();
        rec.set_girouette(girouette);
        handle.release_write(rec);
    }

    /// A point-in-time copy of the whole record, read in one critical
    /// section, for serialization.
    pub fn snapshot(&self) -> Record {
        let handle = self.lock.acquire_read();
        let rec = handle.borrow();
        let copy = Record {
            lat_bits: rec.lat_bits,
            lon_bits: rec.lon_bits,
            girouette: rec.get_girouette(),
        };
        handle.release_read();
        copy
    }

    /// Decodes one read chunk and applies it to the shared record
    /// under the write lock, exactly as [`crate::codec::chunk_applied`]
    /// says of the record it finds there.
    pub fn ingest_chunk(&self, data: &[u8]) {
        let (mut rec, handle) = self.lock.acquire_write();
        apply_chunk(&mut rec, data);
        handle.release_write(rec);
    }
}

} // verus!
