//! Cron recurrences: the boundary with the `cron` crate.
//!
//! Parsing an expression and stepping through a schedule are left to `cron`.
//! What the crate answers is not proved here; it is given names, and the rest
//! of the library is verified against those names.

use std::str::FromStr;
use vstd::prelude::*;

use crate::time::MAX_SECONDS;

verus! {

#[verifier::external_type_specification]
#[verifier::external_body]
pub struct ExSchedule(cron::Schedule);

#[verifier::external_type_specification]
#[verifier::external_body]
pub struct ExCronError(cron::error::Error);

/// Whether `cron::Schedule::from_str` accepts `expression`.
pub uninterp spec fn cron_parses(expression: Seq<char>) -> bool;

/// The first item of the iterator that `cron::Schedule::after` returns for
/// the schedule parsed from `expression` and the UTC instant `secs` whole
/// seconds after the Unix epoch: the occurrence in seconds since the epoch,
/// or `None` when the schedule has none left.
pub uninterp spec fn cron_next_after(expression: Seq<char>, secs: int) -> Option<i64>;

/// A parsed cron expression.
///
/// `parse` is the only way to make one, so the schedule held here is always
/// the one that `cron` built from `source`.
#[derive(Debug)]
pub struct Recurrence {
    source: String,
    schedule: cron::Schedule,
}

impl Recurrence {
    /// The cron expression this recurrence was parsed from.
    pub closed spec fn expression(&self) -> Seq<char> {
        self.source@
    }

    /// The instants after which a recurrence can be asked for its next
    /// occurrence, in whole seconds since the Unix epoch: from the second
    /// before the first timestamp to the second before the last.
    pub open spec fn valid_reference(secs: int) -> bool {
        -1 <= secs < MAX_SECONDS
    }

    /// The next occurrence strictly after the whole second `secs`, if `secs`
    /// is an instant the recurrence can be asked about and the schedule has
    /// an occurrence left.
    pub open spec fn occurrence_after(&self, secs: int) -> Option<i64> {
        if Self::valid_reference(secs) {
            cron_next_after(self.expression(), secs)
        } else {
            None
        }
    }

    /// Calls `cron::Schedule::from_str`. The result is `Ok` exactly when
    /// `cron` accepts the expression, and then holds the schedule together
    /// with a copy of the expression it was parsed from.
    #[verifier::external_body]
    fn from_cron(expression: &str) -> (r: Result<Recurrence, cron::error::Error>)
        ensures
            r is Ok <==> cron_parses(expression@),
            r matches Ok(recurrence) ==> recurrence.expression() == expression@,
    {
        match cron::Schedule::from_str(expression) {
            Ok(schedule) => Ok(Recurrence { source: expression.to_owned(), schedule }),
            Err(error) => Err(error),
        }
    }

    /// Calls `cron::Schedule::after` on the UTC instant `secs` seconds after
    /// the Unix epoch and takes the first item of the iterator it returns.
    /// The result is that item in seconds since the epoch, `None` when the
    /// iterator is empty: the value named [`cron_next_after`]. `cron` adds one
    /// second to the instant it is given, so `secs` has to stay below the last
    /// second that `chrono` can represent; the bound asked for here lies far
    /// below it.
    #[verifier::external_body]
    fn first_after(&self, secs: i64) -> (r: Option<i64>)
        requires
            Self::valid_reference(secs as int),
        ensures
            r == cron_next_after(self.expression(), secs as int),
    {
        let after = chrono::DateTime::from_timestamp(secs, 0)?;
        match self.schedule.after(&after).next() {
            Some(next) => Some(next.timestamp()),
            None => None,
        }
    }

    /// Parses a cron expression.
    pub fn parse(expression: &str) -> (r: Option<Recurrence>)
        ensures
            r is Some <==> cron_parses(expression@),
            r matches Some(recurrence) ==> recurrence.expression() == expression@,
    {
        match Self::from_cron(expression) {
            Ok(recurrence) => Some(recurrence),
            Err(_) => None,
        }
    }

    /// The cron expression as text.
    pub fn source(&self) -> (r: &str)
        ensures
            r@ == self.expression(),
    {
        self.source.as_str()
    }

    /// The first occurrence strictly after the whole second `secs`, in seconds
    /// since the Unix epoch. Outside the instants a recurrence can be asked
    /// about there is no occurrence.
    pub fn next_after(&self, secs: i64) -> (r: Option<i64>)
        ensures
            r == self.occurrence_after(secs as int),
    {
        if -1 <= secs && secs < MAX_SECONDS {
            self.first_after(secs)
        } else {
            None
        }
    }
}

} // verus!
