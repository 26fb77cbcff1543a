//! The due-check and the work of one tick.
//!
//! Once per second the scheduler takes a reference instant `now`, asks every
//! rule for its next occurrence strictly after the second before `now`, and
//! requests a notification for each rule whose occurrence falls in the second
//! of `now`. Occurrences fall on whole seconds, so only the whole second of
//! the reference counts.

use vstd::prelude::*;

use crate::config::{Config, ParsedNotification, Rule};
use crate::recurrence::cron_next_after;
use crate::time::Timestamp;

verus! {

/// What a notification request says.
pub struct Request {
    pub title: Seq<char>,
    pub body: Seq<char>,
    pub icon: Seq<char>,
}

/// A request to the notifier to show one notification. An empty `icon` means
/// no icon.
#[derive(Debug)]
pub struct NotificationRequest {
    pub title: String,
    pub body: String,
    pub icon: String,
}

impl View for NotificationRequest {
    type V = Request;

    open spec fn view(&self) -> Request {
        Request { title: self.title@, body: self.body@, icon: self.icon@ }
    }
}

/// What each of the requests says, in order.
pub open spec fn contents(requests: Seq<NotificationRequest>) -> Seq<Request> {
    requests.map_values(|request: NotificationRequest| request@)
}

/// The notification a rule asks for: its name as the title, its body, and its
/// icon, or no icon where the rule names none.
pub open spec fn request_for(rule: Rule) -> Request {
    Request {
        title: rule.name,
        body: rule.body,
        icon: match rule.icon {
            Some(icon) => icon,
            None => Seq::empty(),
        },
    }
}

/// The occurrence that decides whether `rule` is due at `now`: its next
/// occurrence strictly after the second before `now`.
pub open spec fn candidate(rule: Rule, now: Timestamp) -> Option<i64> {
    cron_next_after(rule.cron, now.seconds() - 1)
}

/// The due-check: the candidate occurrence falls in the second of `now`.
pub open spec fn due(candidate: Option<i64>, now: Timestamp) -> bool {
    candidate matches Some(occurrence) && occurrence == now.seconds()
}

/// Whether `rule` is due at `now`.
pub open spec fn due_at(rule: Rule, now: Timestamp) -> bool {
    due(candidate(rule, now), now)
}

/// The request that `rule` gives rise to at `now`, if it is due.
pub open spec fn fired(rule: Rule, now: Timestamp) -> Option<Request> {
    if due_at(rule, now) {
        Some(request_for(rule))
    } else {
        None
    }
}

/// The requests of one tick: one for each rule due at `now`, in the order of
/// the rules.
pub open spec fn requests_at(rules: Seq<Rule>, now: Timestamp) -> Seq<Request> {
    rules.filter_map(|rule: Rule| fired(rule, now))
}

/// The due-check on a candidate occurrence, in seconds since the Unix epoch.
/// A rule without a next occurrence is not due.
pub fn is_due(candidate: Option<i64>, now: Timestamp) -> (r: bool)
    ensures
        r == due(candidate, now),
{
    match candidate {
        Some(occurrence) => occurrence == now.whole_second(),
        None => false,
    }
}

impl ParsedNotification {
    /// The rule's next occurrence strictly after the second before `now`, in
    /// seconds since the Unix epoch.
    pub fn next_occurrence(&self, now: Timestamp) -> (r: Option<i64>)
        ensures
            r == candidate(self@, now),
    {
        let reference: i64 = now.whole_second() - 1;
        self.recurrence().next_after(reference)
    }

    /// The notification this rule asks for.
    pub fn request(&self) -> (r: NotificationRequest)
        ensures
            r@ == request_for(self@),
    {
        let icon = match self.icon() {
            Some(icon) => icon.to_owned(),
            None => String::new(),
        };
        NotificationRequest { title: self.name().to_owned(), body: self.body().to_owned(), icon }
    }

    /// The rule's request if `candidate`, its next occurrence, makes it due at
    /// `now`.
    pub fn request_if_due(&self, candidate: Option<i64>, now: Timestamp) -> (r: Option<
        NotificationRequest,
    >)
        ensures
            r is Some <==> due(candidate, now),
            r matches Some(request) ==> request@ == request_for(self@),
    {
        if is_due(candidate, now) {
            Some(self.request())
        } else {
            None
        }
    }
}

/// For each rule, in order, its next occurrence strictly after the second
/// before `now`.
pub fn next_occurrences(config: &Config, now: Timestamp) -> (r: Vec<Option<i64>>)
    ensures
        r@ == config@.map_values(|rule: Rule| candidate(rule, now)),
{
    let rules = config.rules();
    let mut occurrences: Vec<Option<i64>> = Vec::new();
    for i in 0..rules.len()
        invariant
            rules@.map_values(|rule: ParsedNotification| rule@) == config@,
            occurrences@ == config@.take(i as int).map_values(|rule: Rule| candidate(rule, now)),
    {
        let occurrence = rules[i].next_occurrence(now);
        occurrences.push(occurrence);
        assert(config@.take(i + 1) == config@.take(i as int).push(config@[i as int]));
    }
    occurrences
}

/// One tick at the reference instant `now`: a notification request for every
/// rule that is due, in the order of the rules.
pub fn tick(config: &Config, now: Timestamp) -> (r: Vec<NotificationRequest>)
    ensures
        contents(r@) == requests_at(config@, now),
{
    let rules = config.rules();
    let mut requests: Vec<NotificationRequest> = Vec::new();
    for i in 0..rules.len()
        invariant
            rules@.map_values(|rule: ParsedNotification| rule@) == config@,
            contents(requests@) == requests_at(config@.take(i as int), now),
    {
        let rule = &rules[i];
        let candidate = rule.next_occurrence(now);
        proof {
            config@.lemma_filter_map_take_succ(|rule: Rule| fired(rule, now), i as int);
        }
        match rule.request_if_due(candidate, now) {
            Some(request) => {
                requests.push(request);
            },
            None => {},
        }
    }
    assert(config@.take(rules@.len() as int) == config@);
    requests
}

/// What one poll of the clock gave: the reference instant, if the clock
/// showed one that a timestamp can hold, and the requests of the tick at that
/// instant.
#[derive(Debug)]
pub struct Poll {
    pub now: Option<Timestamp>,
    pub requests: Vec<NotificationRequest>,
}

impl Poll {
    /// What a poll gives for the clock reading `reading`: the tick at that
    /// instant, or no request at all where the clock showed no instant that a
    /// timestamp can hold.
    pub fn at(config: &Config, reading: Option<Timestamp>) -> (r: Poll)
        ensures
            r.now == reading,
            match reading {
                Some(now) => contents(r.requests@) == requests_at(config@, now),
                None => r.requests@.len() == 0,
            },
    {
        match reading {
            Some(now) => Poll { now: Some(now), requests: tick(config, now) },
            None => Poll { now: None, requests: Vec::new() },
        }
    }
}

/// Reads the clock once and runs the tick at that instant. Nothing is due
/// while the clock shows no instant that a timestamp can hold.
pub fn poll(config: &Config) -> (r: Poll)
    ensures
        match r.now {
            Some(now) => contents(r.requests@) == requests_at(config@, now),
            None => r.requests@.len() == 0,
        },
{
    Poll::at(config, Timestamp::now())
}

/// Whether the next occurrence of `expression` strictly after the whole
/// second `after` is the second `occurrence`.
pub open spec fn occurs_next(expression: Seq<char>, after: int, occurrence: int) -> bool {
    cron_next_after(expression, after) matches Some(next) && next == occurrence
}

/// Whether `rule` is due at `now` for its occurrence in the second `second`.
pub open spec fn fires_for(rule: Rule, now: Timestamp, second: int) -> bool {
    due_at(rule, now) && now.seconds() == second
}

/// Whether the ticks are one second apart: each reference instant lies in the
/// second after that of the tick before.
pub open spec fn one_second_apart(ticks: Seq<Timestamp>) -> bool {
    forall|k: int|
        0 <= k < ticks.len() ==> (#[trigger] ticks[k]).seconds() == ticks[0].seconds() + k
}

/// At every instant within a second, wherever in the second it lies, a rule
/// is due exactly when its next occurrence after the second before is that
/// second.
pub proof fn lemma_due_within_second(rule: Rule, now: Timestamp, second: int)
    requires
        now.seconds() == second,
    ensures
        due_at(rule, now) <==> occurs_next(rule.cron, second - 1, second),
{
}

/// Over ticks one second apart that span the second of an occurrence, the
/// rule is due for that occurrence at exactly one tick: the one whose
/// reference instant lies in that second.
pub proof fn lemma_due_once_per_occurrence(rule: Rule, ticks: Seq<Timestamp>, second: int)
    requires
        one_second_apart(ticks),
        0 < ticks.len(),
        ticks[0].seconds() <= second < ticks[0].seconds() + ticks.len(),
        occurs_next(rule.cron, second - 1, second),
    ensures
        forall|k: int|
            0 <= k < ticks.len() ==> (#[trigger] fires_for(rule, ticks[k], second) <==> k == second
                - ticks[0].seconds()),
{
}

/// From one second to the next, a rule is due again only if its recurrence
/// has an occurrence in the next second as well: whether it was due a second
/// ago plays no part.
pub proof fn lemma_no_duplicate_firing(rule: Rule, now: Timestamp, next: Timestamp)
    requires
        next.seconds() == now.seconds() + 1,
    ensures
        due_at(rule, next) <==> occurs_next(rule.cron, now.seconds(), now.seconds() + 1),
{
}

/// The next occurrence is a function of the cron expression and the second of
/// the reference instant: asking again, or asking a recurrence parsed from the
/// same expression, gives the same answer.
pub proof fn lemma_occurrence_reproducible(
    rule: Rule,
    other: Rule,
    now: Timestamp,
    again: Timestamp,
)
    requires
        rule.cron == other.cron,
        now.seconds() == again.seconds(),
    ensures
        candidate(rule, now) == candidate(other, again),
        due_at(rule, now) == due_at(other, again),
{
}

/// Two rules with the same cron expression are due together, and each gets
/// its own request.
pub proof fn lemma_same_recurrence_fires_together(rule: Rule, other: Rule, now: Timestamp)
    requires
        rule.cron == other.cron,
    ensures
        requests_at(seq![rule, other], now) == if due_at(rule, now) {
            seq![request_for(rule), request_for(other)]
        } else {
            Seq::empty()
        },
{
    let rules = seq![rule, other];
    let fire = |rule: Rule| fired(rule, now);
    assert(rules.drop_last() == seq![rule]);
    Seq::lemma_filter_map_singleton(rule, fire);
}

/// Every rule that is due at `now` has its request among those of the tick.
pub proof fn lemma_due_rule_is_requested(rules: Seq<Rule>, now: Timestamp, i: int)
    requires
        0 <= i < rules.len(),
        due_at(rules[i], now),
    ensures
        requests_at(rules, now).contains(request_for(rules[i])),
    decreases rules.len(),
{
    let fire = |rule: Rule| fired(rule, now);
    let rest = rules.drop_last();
    if i == rules.len() - 1 {
        let requests = rest.filter_map(fire) + seq![request_for(rules[i])];
        assert(requests[requests.len() - 1] == request_for(rules[i]));
    } else {
        lemma_due_rule_is_requested(rest, now, i);
        let request = request_for(rules[i]);
        let earlier = rest.filter_map(fire);
        let k = choose|k: int| 0 <= k < earlier.len() && earlier[k] == request;
        assert(requests_at(rules, now)[k] == request);
    }
}

/// Every request of the tick comes from a rule that is due at `now`.
pub proof fn lemma_request_has_due_rule(rules: Seq<Rule>, now: Timestamp, request: Request)
    requires
        requests_at(rules, now).contains(request),
    ensures
        exists|i: int|
            0 <= i < rules.len() && due_at(#[trigger] rules[i], now) && request == request_for(
                rules[i],
            ),
{
    let fire = |rule: Rule| fired(rule, now);
    rules.lemma_filter_map_contains(fire, request);
    let rule = choose|rule: Rule| #[trigger] rules.contains(rule) && fire(rule) == Some(request);
    let i = choose|i: int| 0 <= i < rules.len() && rules[i] == rule;
    assert(due_at(rules[i], now) && request == request_for(rules[i]));
}

} // verus!
