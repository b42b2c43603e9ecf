//! Storage quota: the default allowance and the rules of checking, reserving and
//! releasing space.

use vstd::prelude::*;

use crate::storage::model::{QuotaSnapshot, StorageError};

verus! {

/// Quota of a scope that has no quota row yet: 100 MiB.
pub const DEFAULT_QUOTA: i64 = 104_857_600;

pub fn default_quota() -> (r: i64)
    ensures
        r == DEFAULT_QUOTA,
{
    DEFAULT_QUOTA
}

/// Whether `size` more bytes fit in a snapshot's quota.
pub open spec fn fits(snapshot: QuotaSnapshot, size: i64) -> bool {
    snapshot.used_bytes + size <= snapshot.quota_bytes
}

/// The error of a request that does not fit, reporting the usage it was checked against.
pub open spec fn exceeded(snapshot: QuotaSnapshot) -> StorageError {
    StorageError::QuotaExceeded { used_bytes: snapshot.used_bytes, quota_bytes: snapshot.quota_bytes }
}

/// Checks whether `size` more bytes fit, without reserving them.
pub fn quota_check(snapshot: QuotaSnapshot, size: i64) -> (r: Result<QuotaSnapshot, StorageError>)
    ensures
        fits(snapshot, size) ==> (r matches Ok(s) && s == snapshot),
        !fits(snapshot, size) ==> (r matches Err(e) && e == exceeded(snapshot)),
{
    if (snapshot.used_bytes as i128) + (size as i128) > snapshot.quota_bytes as i128 {
        return Err(StorageError::QuotaExceeded {
            used_bytes: snapshot.used_bytes,
            quota_bytes: snapshot.quota_bytes,
        });
    }
    Ok(snapshot)
}

/// Outcome of an atomic reservation: the usage it left when it applied, or the error
/// about the usage read after it did not.
pub fn reservation_outcome(updated: Option<(i64, i64)>, current: QuotaSnapshot) -> (r: Result<QuotaSnapshot, StorageError>)
    ensures
        match updated {
            Some((used, quota)) => r matches Ok(s) && s.used_bytes == used && s.quota_bytes == quota,
            None => r matches Err(e) && e == exceeded(current),
        },
{
    match updated {
        Some((used_bytes, quota_bytes)) => Ok(QuotaSnapshot { used_bytes, quota_bytes }),
        None => Err(StorageError::QuotaExceeded {
            used_bytes: current.used_bytes,
            quota_bytes: current.quota_bytes,
        }),
    }
}

/// The usage of one scope, kept in memory.
#[derive(Debug, Clone, Copy)]
pub struct QuotaAccount {
    pub used_bytes: i64,
    pub quota_bytes: i64,
}

impl QuotaAccount {
    /// A scope that has used nothing of `quota_bytes`.
    pub fn new(quota_bytes: i64) -> (a: Self)
        ensures
            a.used_bytes == 0,
            a.quota_bytes == quota_bytes,
    {
        QuotaAccount { used_bytes: 0, quota_bytes }
    }

    pub fn snapshot(&self) -> (s: QuotaSnapshot)
        ensures
            s.used_bytes == self.used_bytes,
            s.quota_bytes == self.quota_bytes,
    {
        QuotaSnapshot { used_bytes: self.used_bytes, quota_bytes: self.quota_bytes }
    }

    /// Reserves `size` bytes when they fit; otherwise changes nothing and reports the
    /// usage it found.
    pub fn consume(&mut self, size: i64) -> (r: Result<QuotaSnapshot, StorageError>)
        requires
            old(self).used_bytes + size >= i64::MIN,
        ensures
            *final(self) == consumed(*old(self), size),
            old(self).used_bytes + size <= old(self).quota_bytes ==> {
                &&& final(self).used_bytes == old(self).used_bytes + size
                &&& final(self).quota_bytes == old(self).quota_bytes
                &&& r matches Ok(s) && s.used_bytes == final(self).used_bytes && s.quota_bytes == final(self).quota_bytes
            },
            old(self).used_bytes + size > old(self).quota_bytes ==> {
                &&& *final(self) == *old(self)
                &&& r matches Err(e) && e == exceeded(old(self).snapshot_view())
            },
    {
        let total: i128 = (self.used_bytes as i128) + (size as i128);
        if total > self.quota_bytes as i128 {
            return Err(StorageError::QuotaExceeded {
                used_bytes: self.used_bytes,
                quota_bytes: self.quota_bytes,
            });
        }
        self.used_bytes = self.used_bytes + size;
        Ok(QuotaSnapshot { used_bytes: self.used_bytes, quota_bytes: self.quota_bytes })
    }

    /// Releases `size` bytes; usage never drops below zero.
    pub fn release(&mut self, size: i64) -> (s: QuotaSnapshot)
        requires
            size >= 0,
        ensures
            *final(self) == released(*old(self), size),
            s.used_bytes == final(self).used_bytes,
            s.quota_bytes == final(self).quota_bytes,
    {
        let rest: i128 = (self.used_bytes as i128) - (size as i128);
        self.used_bytes = if rest > 0 { rest as i64 } else { 0 };
        QuotaSnapshot { used_bytes: self.used_bytes, quota_bytes: self.quota_bytes }
    }

    pub open spec fn snapshot_view(self) -> QuotaSnapshot {
        QuotaSnapshot { used_bytes: self.used_bytes, quota_bytes: self.quota_bytes }
    }
}

/// The account after `consume(size)`: the size added when it fits, else unchanged.
pub open spec fn consumed(a: QuotaAccount, size: i64) -> QuotaAccount {
    if a.used_bytes + size <= a.quota_bytes {
        QuotaAccount { used_bytes: (a.used_bytes + size) as i64, quota_bytes: a.quota_bytes }
    } else {
        a
    }
}

/// The account after `release(size)`: the size taken off, never below zero.
pub open spec fn released(a: QuotaAccount, size: i64) -> QuotaAccount {
    QuotaAccount {
        used_bytes: if a.used_bytes - size > 0 { (a.used_bytes - size) as i64 } else { 0 },
        quota_bytes: a.quota_bytes,
    }
}

/// Consuming never takes an account within its quota above it, a refused consumption
/// changes nothing, and releasing what was consumed gives back the account as it was.
pub proof fn law_consume_release(a: QuotaAccount, size: i64)
    requires
        0 <= a.used_bytes <= a.quota_bytes,
        0 <= size,
    ensures
        0 <= consumed(a, size).used_bytes <= consumed(a, size).quota_bytes,
        a.used_bytes + size > a.quota_bytes ==> consumed(a, size) == a,
        a.used_bytes + size <= a.quota_bytes ==> released(consumed(a, size), size) == a,
{
}

/// A request fits exactly when the bytes already used plus its size stay within the
/// quota, so one that fills the quota to the byte is admitted and consumed in full, and
/// one byte more is refused, reporting the usage it was checked against; releasing takes
/// the size off the usage, and never below zero.
pub proof fn law_quota_boundary(snapshot: QuotaSnapshot, a: QuotaAccount, size: i64)
    ensures
        fits(snapshot, size) <==> snapshot.used_bytes + size <= snapshot.quota_bytes,
        !fits(snapshot, size) ==> exceeded(snapshot) == (StorageError::QuotaExceeded {
            used_bytes: snapshot.used_bytes, quota_bytes: snapshot.quota_bytes }),
        a.used_bytes + size == a.quota_bytes ==> consumed(a, size).used_bytes == a.quota_bytes,
        a.used_bytes + size == a.quota_bytes + 1 ==> consumed(a, size) == a,
        0 <= size <= a.used_bytes ==> released(a, size).used_bytes == a.used_bytes - size,
        size >= a.used_bytes ==> released(a, size).used_bytes == 0,
        released(a, size).quota_bytes == a.quota_bytes,
{
}

/// The usage of a scope as stored, or nothing used of the base quota when the scope has
/// no row yet.
pub fn loaded_quota(row: Option<(i64, i64)>, base_quota: i64) -> (s: QuotaSnapshot)
    ensures
        match row {
            Some((used, quota)) => s.used_bytes == used && s.quota_bytes == quota,
            None => s.used_bytes == 0 && s.quota_bytes == base_quota,
        },
{
    match row {
        Some((used_bytes, quota_bytes)) => QuotaSnapshot { used_bytes, quota_bytes },
        None => QuotaSnapshot { used_bytes: 0, quota_bytes: base_quota },
    }
}

} // verus!
