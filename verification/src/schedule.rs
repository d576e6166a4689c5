//! The cron-based schedule: validating a crontab expression, choosing
//! between the remote expression and the compiled default, computing the
//! next firing instant, and the second-resolution cursor that gates the
//! detection check. The cron arithmetic and the calendar formatting come
//! from outside crates behind trusted wrappers; every decision over their
//! results is verified here.

use vstd::prelude::*;
use crate::config::DEFAULT_CRONTAB;

verus! {

/// Whether the cron parser accepts an expression; a function of the text
/// alone.
pub uninterp spec fn cron_valid(expr: Seq<char>) -> bool;

/// The textual timestamp (RFC 2822) of the earliest instant strictly after
/// `after_ts` (a Unix timestamp) that a valid expression matches; a function
/// of the expression and the timestamp alone.
pub uninterp spec fn next_fire_text(expr: Seq<char>, after_ts: int) -> Seq<char>;

/// The RFC 2822 rendering of a Unix timestamp, at UTC; a function of the
/// timestamp alone.
pub uninterp spec fn rfc2822_text(ts: int) -> Seq<char>;

/// The last second of calendar year 9999, the top of the range that RFC
/// 2822 text is defined for.
pub const MAX_RFC2822_TIMESTAMP: i64 = 253402300799;

/// Relies on cron::Schedule::from_str: whether the six/seven-field crontab
/// expression parses; success depends on the text alone.
#[verifier::external_body]
pub fn cron_expression_valid(expr: &str) -> (r: bool)
    ensures
        r == cron_valid(expr@),
{
    <cron::Schedule as core::str::FromStr>::from_str(expr).is_ok()
}

/// Relies on cron::Schedule::after and its iterator: the earliest matching
/// instant strictly after the given timestamp, rendered by
/// chrono::DateTime::to_rfc2822. `None` when the expression does not parse,
/// when the timestamp is below chrono's calendar, or when no matching
/// instant is left (cron caps the year fields at 2100, which also keeps the
/// rendering in range). cron starts its search one second after the given
/// instant, a step that panics at chrono's very last representable second;
/// the bound keeps every admitted timestamp far below it.
#[verifier::external_body]
pub fn next_fire_after(expr: &str, after_ts: i64) -> (r: Option<String>)
    requires
        after_ts <= MAX_RFC2822_TIMESTAMP,
    ensures
        r matches Some(s) ==> cron_valid(expr@) && s@ == next_fire_text(expr@, after_ts as int),
        !cron_valid(expr@) ==> r is None,
{
    let schedule = match <cron::Schedule as core::str::FromStr>::from_str(expr) {
        Ok(s) => s,
        Err(_) => {
            return None;
        },
    };
    let after = chrono::DateTime::from_timestamp(after_ts, 0)?;
    schedule.after(&after).next().map(|d| d.to_rfc2822())
}

/// Relies on chrono::Utc::now: the seconds of the current wall-clock time.
/// No two calls need agree; the loop treats every value it observes on its
/// own merits.
#[verifier::external_body]
pub fn utc_now_timestamp() -> i64 {
    chrono::Utc::now().timestamp()
}

/// Relies on chrono::DateTime::from_timestamp and to_rfc2822: the textual
/// form of a Unix timestamp at UTC, a function of the timestamp alone. The
/// formatter is defined only for years 0 through 9999 and panics outside
/// them; the bounds admit exactly the timestamps of years 1970 through
/// 9999, where both calls succeed.
#[verifier::external_body]
pub fn rfc2822_of_timestamp(ts: i64) -> (r: String)
    requires
        0 <= ts <= MAX_RFC2822_TIMESTAMP,
    ensures
        r@ == rfc2822_text(ts as int),
{
    chrono::DateTime::from_timestamp(ts, 0)
        .expect("timestamps of years 1970 through 9999 are representable")
        .to_rfc2822()
}

/// Chooses the crontab expression the schedule runs on: the remote one when
/// it parses, the compiled default otherwise. A bad remote expression is
/// never fatal.
pub fn select_crontab(remote: &String) -> (r: String)
    ensures
        cron_valid(remote@) ==> r@ == remote@,
        !cron_valid(remote@) ==> r@ == DEFAULT_CRONTAB@,
{
    if cron_expression_valid(remote.as_str()) {
        remote.clone()
    } else {
        DEFAULT_CRONTAB.to_owned()
    }
}

/// The schedule cursor: the next firing instant's text, and the previously
/// observed instant as a dedup guard, so that a second observed on two
/// consecutive fast polls is still accepted exactly as the freshly
/// computed instant does.
pub struct ScheduleCursor {
    pub next_fire: String,
    pub last_observed: String,
}

impl ScheduleCursor {
    /// The cursor at loop start: the first computed firing instant, and no
    /// observed instant yet.
    pub fn new(next_fire: String) -> (c: ScheduleCursor)
        ensures
            c.next_fire == next_fire,
            c.last_observed@ == Seq::<char>::empty(),
    {
        ScheduleCursor { next_fire, last_observed: String::new() }
    }

    /// The pass condition: the observed instant is the one the schedule
    /// computed, or the one the previous passing tick observed.
    pub open spec fn fires_on(self, now: Seq<char>) -> bool {
        now == self.next_fire@ || now == self.last_observed@
    }

    /// Whether this tick's observed instant is accepted.
    pub fn gate_passes(&self, now: &String) -> (r: bool)
        ensures
            r == self.fires_on(now@),
    {
        if String::eq(now, &self.next_fire) {
            true
        } else {
            String::eq(now, &self.last_observed)
        }
    }

    /// Moves the cursor after a passing tick: the observed instant becomes
    /// the dedup guard and the freshly computed instant becomes the target.
    pub fn advance(&mut self, observed: String, new_next: String)
        ensures
            final(self).next_fire == new_next,
            final(self).last_observed == observed,
    {
        self.next_fire = new_next;
        self.last_observed = observed;
    }
}

} // verus!
