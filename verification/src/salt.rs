//! Salts: the random bytes that each board keeps, and the daily salt that the
//! service rotates once it is more than a day old.

use crate::schema::{DAILY_SALT_ROW_ID, SALT_COLUMN_BYTES};
use crate::time::{day_nanos, more_than_a_day_between, read_clock, ClockReading, Timestamp};
use rand::RngCore;
use vstd::prelude::*;

verus! {

/// `rand::rng()` and its `fill_bytes`: overwrites the buffer with random
/// bytes. The contract states only that the length stays the same. The call
/// panics only if the thread's generator cannot be seeded from the operating
/// system.
#[verifier::external_body]
fn fill_random(buf: &mut Vec<u8>)
    ensures
        final(buf)@.len() == old(buf)@.len(),
{
    rand::rng().fill_bytes(buf.as_mut_slice())
}

/// A fresh random salt of 16 bytes.
pub fn generate_salt() -> (salt: Vec<u8>)
    ensures
        salt@.len() == SALT_COLUMN_BYTES,
{
    let mut salt: Vec<u8> = vec![0u8; SALT_COLUMN_BYTES];
    fill_random(&mut salt);
    salt
}

/// The stored daily salt.
pub struct DailySaltRecord {
    pub id: i32,
    pub value: Vec<u8>,
    pub created_at: Timestamp,
}

/// Whether the daily salt must be replaced at `now`: when none is stored, or
/// when the stored one was created more than a day before `now`.
pub open spec fn rotation_due(stored: Option<DailySaltRecord>, now: Timestamp) -> bool {
    match stored {
        None => true,
        Some(r) => now.total_nanos() - r.created_at.total_nanos() > day_nanos(),
    }
}

/// Decides whether the daily salt must be replaced at `now`.
pub fn needs_rotation(stored: &Option<DailySaltRecord>, now: Timestamp) -> (r: bool)
    ensures
        r == rotation_due(*stored, now),
{
    match stored {
        None => true,
        Some(record) => more_than_a_day_between(record.created_at, now),
    }
}

/// A stored daily salt is kept until exactly one day after its creation, and
/// replaced at any later time.
pub proof fn lemma_daily_salt_kept_for_a_day(record: DailySaltRecord, now: Timestamp)
    ensures
        !rotation_due(Some(record), now) <==> now.total_nanos() <= record.created_at.total_nanos() + day_nanos(),
{
}

/// A new daily salt created at `now`: fresh random bytes in the single row.
pub fn rotate_daily_salt(now: Timestamp) -> (record: DailySaltRecord)
    ensures
        record.id == DAILY_SALT_ROW_ID,
        record.value@.len() == SALT_COLUMN_BYTES,
        record.created_at == now,
{
    DailySaltRecord { id: DAILY_SALT_ROW_ID, value: generate_salt(), created_at: now }
}

/// What to do with the daily salt.
pub enum DailySaltPlan {
    /// The stored salt is current: use its value.
    Reuse(Vec<u8>),
    /// Store this new salt (inserted, or replacing the stored one) and use
    /// its value.
    Rotate(DailySaltRecord),
}

/// Decides, at `now`, what to do with the stored daily salt: reuse it while
/// it is current, else replace it with a fresh salt created at `now`.
pub fn plan_daily_salt_at(stored: Option<DailySaltRecord>, now: Timestamp) -> (plan: DailySaltPlan)
    ensures
        !rotation_due(stored, now) ==> plan == DailySaltPlan::Reuse(stored->0.value),
        rotation_due(stored, now) ==> (plan matches DailySaltPlan::Rotate(r)
            && r.id == DAILY_SALT_ROW_ID
            && r.value@.len() == SALT_COLUMN_BYTES
            && r.created_at == now),
{
    if needs_rotation(&stored, now) {
        DailySaltPlan::Rotate(rotate_daily_salt(now))
    } else {
        DailySaltPlan::Reuse(stored.unwrap().value)
    }
}

/// The plan for the stored daily salt at `now`: reuse its value while it is
/// current, else rotate in a new row 1 of 16 bytes created at `now`.
pub open spec fn plan_fits(stored: Option<DailySaltRecord>, now: Timestamp, plan: DailySaltPlan) -> bool {
    &&& !rotation_due(stored, now) ==> plan == DailySaltPlan::Reuse(stored->0.value)
    &&& rotation_due(stored, now) ==> (plan matches DailySaltPlan::Rotate(r)
        && r.id == DAILY_SALT_ROW_ID
        && r.value@.len() == SALT_COLUMN_BYTES
        && r.created_at == now)
}

/// Decides what to do with the stored daily salt, judging its age by the
/// system clock: the plan is the one that `plan_daily_salt_at` gives at the
/// instant that the clock returned during the call.
pub fn plan_daily_salt(stored: Option<DailySaltRecord>) -> (plan: DailySaltPlan)
    ensures
        exists|reading: ClockReading| #[trigger] plan_fits(stored, reading.at(), plan),
        exists|now: Timestamp|
            #![trigger rotation_due(stored, now)]
            (!rotation_due(stored, now) ==> plan == DailySaltPlan::Reuse(stored->0.value)) && (
            rotation_due(stored, now) ==> (plan matches DailySaltPlan::Rotate(r)
                && r.id == DAILY_SALT_ROW_ID
                && r.value@.len() == SALT_COLUMN_BYTES
                && r.created_at == now)),
        plan matches DailySaltPlan::Reuse(v) ==> (stored matches Some(r) && v == r.value),
        plan matches DailySaltPlan::Rotate(r) ==> (r.id == DAILY_SALT_ROW_ID && r.value@.len() == SALT_COLUMN_BYTES),
{
    let reading = read_clock();
    let now = reading.timestamp();
    let ghost st = stored;
    let plan = plan_daily_salt_at(stored, now);
    assert(rotation_due(st, now) || !rotation_due(st, now));
    assert(plan_fits(st, reading.at(), plan));
    plan
}

/// A stored daily salt judged at any instant more than a day after its
/// creation is rotated: the plan is a new salt created at that instant, never
/// the stored value; judged at any instant up to a day after its creation,
/// the stored value is reused.
pub proof fn lemma_plan_rotates_stale_salt(record: DailySaltRecord, now: Timestamp, plan: DailySaltPlan)
    requires
        plan_fits(Some(record), now, plan),
    ensures
        now.total_nanos() > record.created_at.total_nanos() + day_nanos() ==> (plan matches DailySaltPlan::Rotate(r)
            && r.created_at == now),
        now.total_nanos() <= record.created_at.total_nanos() + day_nanos() ==> plan == DailySaltPlan::Reuse(record.value),
{
}

} // verus!
