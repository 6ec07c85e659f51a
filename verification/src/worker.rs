//! The breach-check worker: how a reply of the breach service is read, and
//! the decisions of the polling loop, with its back-off on failures.
use vstd::prelude::*;
use vstd::arithmetic::power2::{pow2, lemma_pow2_unfold, lemma_pow2_pos};

verus! {

/// Pause between two polls when nothing is pending, in seconds.
pub const POLL_INTERVAL_SECS: u64 = 5;

/// Upper bound of the back-off after failed checks (30 minutes), in seconds.
pub const MAX_BACKOFF_SECS: u64 = 1800;

/// Wait after a rate-limited reply that names no usable `Retry-After`, in seconds.
pub const DEFAULT_RATE_LIMIT_WAIT_SECS: u64 = 10;

/// Where the breach service is asked about accounts.
pub const HIBP_API_URL: &'static str = "https://haveibeenpwned.com/api/v3/breachedaccount";

/// The URL that `reqwest::Url` makes of `base` after one more path segment
/// (percent-encoded, `/` and `%` included) and one query pair are appended,
/// or none when `base` is not a URL that can take path segments.
pub uninterp spec fn url_with_segment_and_pair(
    base: Seq<char>,
    segment: Seq<char>,
    key: Seq<char>,
    value: Seq<char>,
) -> Option<Seq<char>>;

/// Calls `reqwest::Url::parse`, `path_segments_mut().push`,
/// `query_pairs_mut().append_pair` and `to_string`, in that order, on one URL.
/// Claimed: the outcome is a function of the four texts alone, named
/// `url_with_segment_and_pair`; how the segment is encoded is left unsaid.
#[verifier::external_body]
fn append_segment_and_pair(base: &str, segment: &str, key: &str, value: &str) -> (res: Option<
    String,
>)
    ensures
        match res {
            Some(u) => url_with_segment_and_pair(base@, segment@, key@, value@) == Some(u@),
            None => url_with_segment_and_pair(base@, segment@, key@, value@) is None,
        },
{
    let mut url = reqwest::Url::parse(base).ok()?;
    url.path_segments_mut().ok()?.push(segment);
    url.query_pairs_mut().append_pair(key, value);
    Some(url.to_string())
}

/// The URL that asks the breach service about an address: the address as one
/// more path segment of the service's account URL, with `truncateResponse=true`.
pub open spec fn breach_account_url(email: Seq<char>) -> Option<Seq<char>> {
    url_with_segment_and_pair(HIBP_API_URL@, email, "truncateResponse"@, "true"@)
}

/// Builds the request URL for a breach check of this address; none means the
/// check fails before anything is sent.
pub fn breach_check_url(email: &str) -> (res: Option<String>)
    ensures
        match res {
            Some(u) => breach_account_url(email@) == Some(u@),
            None => breach_account_url(email@) is None,
        },
{
    append_segment_and_pair(HIBP_API_URL, email, "truncateResponse", "true")
}

/// The byte of a header value that `HeaderValue::to_str` accepts: visible ASCII or tab.
pub open spec fn is_visible_ascii(b: u8) -> bool {
    (32 <= b && b < 127) || b == 9
}

/// A header value that reads as text.
pub open spec fn is_visible_text(s: Seq<u8>) -> bool {
    forall|i: int| 0 <= i < s.len() ==> is_visible_ascii(#[trigger] s[i])
}

/// An ASCII decimal digit.
pub open spec fn is_digit(b: u8) -> bool {
    48 <= b <= 57
}

/// Every byte is a decimal digit.
pub open spec fn all_digits(s: Seq<u8>) -> bool {
    forall|i: int| 0 <= i < s.len() ==> is_digit(#[trigger] s[i])
}

/// The number a string of decimal digits denotes.
pub open spec fn decimal_value(s: Seq<u8>) -> nat
    decreases s.len(),
{
    if s.len() == 0 {
        0
    } else {
        decimal_value(s.drop_last()) * 10 + (s.last() - 48) as nat
    }
}

/// The digits of an unsigned number: one leading `+` may stand before them.
pub open spec fn unsigned_digits(s: Seq<u8>) -> Seq<u8> {
    if s.len() > 0 && s[0] == 43 {
        s.skip(1)
    } else {
        s
    }
}

/// What `str::parse::<u64>` gives: a number for an optional `+` followed by
/// at least one digit and no other byte, when the value fits in 64 bits.
pub open spec fn parsed_u64(s: Seq<u8>) -> Option<u64> {
    let d = unsigned_digits(s);
    if d.len() > 0 && all_digits(d) && decimal_value(d) <= u64::MAX {
        Some(decimal_value(d) as u64)
    } else {
        None
    }
}

proof fn lemma_decimal_prefix_le(s: Seq<u8>, k: int)
    requires
        all_digits(s),
        0 <= k <= s.len(),
    ensures
        decimal_value(s.take(k)) <= decimal_value(s),
    decreases s.len(),
{
    if k == s.len() {
        assert(s.take(k) =~= s);
    } else {
        let d = s.drop_last();
        assert(d.take(k) =~= s.take(k));
        assert(all_digits(d)) by {
            assert forall|i: int| 0 <= i < d.len() implies is_digit(#[trigger] d[i]) by {
                assert(d[i] == s[i]);
            }
        }
        lemma_decimal_prefix_le(d, k);
    }
}

/// Reads a decimal `u64` the way `str::parse::<u64>` does.
pub fn parse_u64(s: &[u8]) -> (res: Option<u64>)
    ensures
        res == parsed_u64(s@),
{
    let n = s.len();
    let start: usize = if n > 0 && s[0] == 43u8 { 1 } else { 0 };
    let ghost d = unsigned_digits(s@);
    assert(d =~= s@.skip(start as int));
    if start == n {
        return None;
    }
    let mut acc: u64 = 0;
    let mut i: usize = start;
    assert(d.take(0) =~= Seq::<u8>::empty());
    while i < n
        invariant
            n == s.len(),
            start <= i <= n,
            d =~= s@.skip(start as int),
            d == unsigned_digits(s@),
            all_digits(d.take(i - start)),
            acc == decimal_value(d.take(i - start)),
        decreases n - i,
    {
        let b = s[i];
        if b < 48u8 || b > 57u8 {
            assert(!is_digit(d[i - start]));
            assert(!all_digits(d));
            return None;
        }
        let ghost k = i - start;
        assert(d.take(k + 1).drop_last() =~= d.take(k));
        assert(d.take(k + 1).last() == b);
        assert(all_digits(d.take(k + 1))) by {
            assert forall|j: int| 0 <= j < k + 1 implies is_digit(#[trigger] d.take(k + 1)[j]) by {
                if j < k {
                    assert(d.take(k + 1)[j] == d.take(k)[j]);
                }
            }
        }
        let digit: u64 = (b - 48u8) as u64;
        match acc.checked_mul(10) {
            None => {
                proof {
                    if all_digits(d) {
                        lemma_decimal_prefix_le(d, k + 1);
                    }
                }
                return None;
            },
            Some(m) => match m.checked_add(digit) {
                None => {
                    proof {
                        if all_digits(d) {
                            lemma_decimal_prefix_le(d, k + 1);
                        }
                    }
                    return None;
                },
                Some(v) => {
                    acc = v;
                },
            },
        }
        i = i + 1;
    }
    assert(d.take(n - start) =~= d);
    Some(acc)
}

/// Tests every byte for `is_visible_ascii`.
pub fn is_visible_header_text(s: &[u8]) -> (res: bool)
    ensures
        res == is_visible_text(s@),
{
    let mut i: usize = 0;
    while i < s.len()
        invariant
            i <= s.len(),
            forall|j: int| 0 <= j < i ==> is_visible_ascii(#[trigger] s@[j]),
        decreases s.len() - i,
    {
        let b = s[i];
        if !((32u8 <= b && b < 127u8) || b == 9u8) {
            assert(!is_visible_ascii(s@[i as int]));
            return false;
        }
        i = i + 1;
    }
    true
}

/// The wait a rate-limited reply asks for: the `Retry-After` seconds when the
/// header is present, reads as text and holds a number, else the default wait.
pub open spec fn retry_after_wait(header: Option<Seq<u8>>) -> u64 {
    match header {
        Some(h) => if is_visible_text(h) && parsed_u64(h) is Some {
            parsed_u64(h)->Some_0
        } else {
            DEFAULT_RATE_LIMIT_WAIT_SECS
        },
        None => DEFAULT_RATE_LIMIT_WAIT_SECS,
    }
}

/// Seconds to wait after a rate-limited reply, from its `Retry-After` header.
pub fn retry_after_secs(header: Option<&[u8]>) -> (res: u64)
    ensures
        res == retry_after_wait(match header {
            Some(h) => Some(h@),
            None => None,
        }),
{
    match header {
        Some(h) => {
            if is_visible_header_text(h) {
                match parse_u64(h) {
                    Some(n) => n,
                    None => DEFAULT_RATE_LIMIT_WAIT_SECS,
                }
            } else {
                DEFAULT_RATE_LIMIT_WAIT_SECS
            }
        },
        None => DEFAULT_RATE_LIMIT_WAIT_SECS,
    }
}

/// How a reply of the breach service is to be read.
#[derive(Clone, Copy, Debug, PartialEq, Eq, Structural)]
pub enum BreachLookup {
    /// `200 OK`: the body lists the breaches.
    Breaches,
    /// `404 Not Found`: the address is in no breach.
    NoBreaches,
    /// `429 Too Many Requests`: wait this many seconds.
    RateLimited { wait_secs: u64 },
    /// Any other status is a failed check.
    Unexpected { status: u16 },
}

/// The reading of a reply with this status and `Retry-After` header.
pub open spec fn breach_lookup(status: u16, retry_after: Option<Seq<u8>>) -> BreachLookup {
    if status == 200 {
        BreachLookup::Breaches
    } else if status == 404 {
        BreachLookup::NoBreaches
    } else if status == 429 {
        BreachLookup::RateLimited { wait_secs: retry_after_wait(retry_after) }
    } else {
        BreachLookup::Unexpected { status }
    }
}

/// Classifies a reply of the breach service by its status code.
pub fn classify_breach_response(status: u16, retry_after: Option<&[u8]>) -> (res: BreachLookup)
    ensures
        res == breach_lookup(status, match retry_after {
            Some(h) => Some(h@),
            None => None,
        }),
{
    if status == 200 {
        BreachLookup::Breaches
    } else if status == 404 {
        BreachLookup::NoBreaches
    } else if status == 429 {
        BreachLookup::RateLimited { wait_secs: retry_after_secs(retry_after) }
    } else {
        BreachLookup::Unexpected { status }
    }
}

/// What happened since the worker's last decision.
#[derive(Debug)]
pub enum WorkerEvent {
    /// The query for a pending participant failed.
    PollFailed,
    /// No participant waits for a check.
    NothingPending,
    /// This participant waits for a check of this address.
    Pending { id: u128, email: String },
    /// The check of this participant found these breaches.
    Checked { id: u128, breaches: Vec<String> },
    /// The service refused the check for this many seconds.
    RateLimited { retry_after_secs: u64 },
    /// The check failed for another reason.
    CheckFailed,
}

/// What the worker does next.
#[derive(Debug)]
pub enum WorkerAction {
    /// Sleep this many seconds, then poll for a pending participant.
    SleepThenPoll { secs: u64 },
    /// Ask the breach service about this address.
    CheckEmail { id: u128, email: String },
    /// Record the breaches of this participant, then poll again at once.
    StoreThenPoll { id: u128, breaches: Vec<String> },
}

/// The event a finished check turns into: the body's breach names for a
/// `200` reply (a body that could not be read is a failed check), no breach
/// for a `404`, the wait for a `429`, and a failure for anything else. The
/// body counts only for a `200` reply.
pub open spec fn is_check_event(
    id: u128,
    lookup: BreachLookup,
    body: Result<Vec<String>, ()>,
    event: WorkerEvent,
) -> bool {
    match lookup {
        BreachLookup::Breaches => match body {
            Ok(names) => event == (WorkerEvent::Checked { id, breaches: names }),
            Err(_) => event == WorkerEvent::CheckFailed,
        },
        BreachLookup::NoBreaches => event matches WorkerEvent::Checked { id: i, breaches }
            && i == id && breaches@.len() == 0,
        BreachLookup::RateLimited { wait_secs } => event == (WorkerEvent::RateLimited {
            retry_after_secs: wait_secs,
        }),
        BreachLookup::Unexpected { .. } => event == WorkerEvent::CheckFailed,
    }
}

/// Turns the reading of a reply, and for a `200` reply its parsed body, into a worker event.
pub fn check_event(id: u128, lookup: BreachLookup, body: Result<Vec<String>, ()>) -> (res:
    WorkerEvent)
    ensures
        is_check_event(id, lookup, body, res),
{
    match lookup {
        BreachLookup::Breaches => match body {
            Ok(names) => WorkerEvent::Checked { id, breaches: names },
            Err(_) => WorkerEvent::CheckFailed,
        },
        BreachLookup::NoBreaches => {
            let v: Vec<String> = Vec::new();
            WorkerEvent::Checked { id, breaches: v }
        },
        BreachLookup::RateLimited { wait_secs } => WorkerEvent::RateLimited {
            retry_after_secs: wait_secs,
        },
        BreachLookup::Unexpected { .. } => WorkerEvent::CheckFailed,
    }
}

/// The back-off after one more failed check: doubled, at most the maximum.
pub open spec fn next_backoff(b: u64) -> u64 {
    if 2 * b <= MAX_BACKOFF_SECS {
        (2 * b) as u64
    } else {
        MAX_BACKOFF_SECS
    }
}

/// The worker's decision on an event, given its back-off: the new back-off and the action.
pub open spec fn worker_step(backoff: u64, event: WorkerEvent) -> (u64, WorkerAction) {
    match event {
        WorkerEvent::PollFailed => (backoff, WorkerAction::SleepThenPoll { secs: POLL_INTERVAL_SECS }),
        WorkerEvent::NothingPending => (
            backoff,
            WorkerAction::SleepThenPoll { secs: POLL_INTERVAL_SECS },
        ),
        WorkerEvent::Pending { id, email } => (backoff, WorkerAction::CheckEmail { id, email }),
        WorkerEvent::Checked { id, breaches } => (
            POLL_INTERVAL_SECS,
            WorkerAction::StoreThenPoll { id, breaches },
        ),
        WorkerEvent::RateLimited { retry_after_secs } => (
            backoff,
            WorkerAction::SleepThenPoll { secs: retry_after_secs },
        ),
        WorkerEvent::CheckFailed => (
            next_backoff(backoff),
            WorkerAction::SleepThenPoll { secs: backoff },
        ),
    }
}

/// The state of the breach-check loop: the pause after the next failed check.
pub struct LeakWorker {
    backoff_secs: u64,
}

impl LeakWorker {
    #[verifier::type_invariant]
    spec fn backoff_in_range(&self) -> bool {
        POLL_INTERVAL_SECS <= self.backoff_secs <= MAX_BACKOFF_SECS
    }

    /// The pause, in seconds, after the next failed check.
    pub closed spec fn backoff(&self) -> u64 {
        self.backoff_secs
    }

    /// A worker that has not failed yet: its back-off is the poll interval.
    pub fn new() -> (w: LeakWorker)
        ensures
            w.backoff() == POLL_INTERVAL_SECS,
    {
        LeakWorker { backoff_secs: POLL_INTERVAL_SECS }
    }

    /// The current back-off in seconds; it always lies between the poll interval and the maximum.
    pub fn backoff_secs(&self) -> (b: u64)
        ensures
            b == self.backoff(),
            POLL_INTERVAL_SECS <= b <= MAX_BACKOFF_SECS,
    {
        proof {
            use_type_invariant(self);
        }
        self.backoff_secs
    }

    /// Decides what to do on an event and updates the back-off.
    pub fn step(&mut self, event: WorkerEvent) -> (action: WorkerAction)
        ensures
            (final(self).backoff(), action) == worker_step(old(self).backoff(), event),
            POLL_INTERVAL_SECS <= final(self).backoff() <= MAX_BACKOFF_SECS,
    {
        proof {
            use_type_invariant(&*self);
        }
        let b = self.backoff_secs;
        match event {
            WorkerEvent::PollFailed => WorkerAction::SleepThenPoll { secs: POLL_INTERVAL_SECS },
            WorkerEvent::NothingPending => WorkerAction::SleepThenPoll { secs: POLL_INTERVAL_SECS },
            WorkerEvent::Pending { id, email } => WorkerAction::CheckEmail { id, email },
            WorkerEvent::Checked { id, breaches } => {
                self.backoff_secs = POLL_INTERVAL_SECS;
                WorkerAction::StoreThenPoll { id, breaches }
            },
            WorkerEvent::RateLimited { retry_after_secs } => WorkerAction::SleepThenPoll {
                secs: retry_after_secs,
            },
            WorkerEvent::CheckFailed => {
                self.backoff_secs = if b <= MAX_BACKOFF_SECS / 2 {
                    b * 2
                } else {
                    MAX_BACKOFF_SECS
                };
                WorkerAction::SleepThenPoll { secs: b }
            },
        }
    }
}

/// The back-off after `k` failed checks in a row, starting from `b`.
pub open spec fn backoff_after_failures(b: u64, k: nat) -> u64
    decreases k,
{
    if k == 0 {
        b
    } else {
        next_backoff(backoff_after_failures(b, (k - 1) as nat))
    }
}

/// Law: whatever the worker is told, its back-off stays between the poll
/// interval and the maximum, and a successful check resets it.
pub proof fn law_backoff_bounded(backoff: u64, event: WorkerEvent)
    requires
        POLL_INTERVAL_SECS <= backoff <= MAX_BACKOFF_SECS,
    ensures
        POLL_INTERVAL_SECS <= worker_step(backoff, event).0 <= MAX_BACKOFF_SECS,
        event is Checked ==> worker_step(backoff, event).0 == POLL_INTERVAL_SECS,
{
}

/// Law: only a failed check changes the back-off; polls and rate limits leave it as it was,
/// and a rate limit waits exactly what the service asked for.
pub proof fn law_only_failures_grow_backoff(backoff: u64, event: WorkerEvent)
    ensures
        !(event is Checked) && !(event is CheckFailed) ==> worker_step(backoff, event).0 == backoff,
        event matches WorkerEvent::RateLimited { retry_after_secs } ==> worker_step(backoff, event).1
            == (WorkerAction::SleepThenPoll { secs: retry_after_secs }),
        event is CheckFailed ==> worker_step(backoff, event).1 == (WorkerAction::SleepThenPoll {
            secs: backoff,
        }),
{
}

/// Law: after `k` failed checks in a row from a fresh worker the back-off is
/// the poll interval doubled `k` times, capped at the maximum.
pub proof fn law_backoff_doubles_until_cap(k: nat)
    ensures
        backoff_after_failures(POLL_INTERVAL_SECS, k) == (if POLL_INTERVAL_SECS * pow2(k)
            <= MAX_BACKOFF_SECS {
            POLL_INTERVAL_SECS * pow2(k)
        } else {
            MAX_BACKOFF_SECS as int
        }),
    decreases k,
{
    if k == 0 {
        assert(pow2(0) == 1) by {
            vstd::arithmetic::power2::lemma2_to64();
        }
    } else {
        let k1 = (k - 1) as nat;
        law_backoff_doubles_until_cap(k1);
        lemma_pow2_unfold(k);
        lemma_pow2_pos(k1);
        let p = pow2(k1);
        assert(pow2(k) == 2 * p);
        assert(POLL_INTERVAL_SECS * pow2(k) == 2 * (POLL_INTERVAL_SECS * p)) by (nonlinear_arith)
            requires
                pow2(k) == 2 * p,
        ;
    }
}

/// An event that ends a check: breaches found, a rate limit, or a failure.
pub open spec fn is_check_outcome(e: WorkerEvent) -> bool {
    e is Checked || e is RateLimited || e is CheckFailed
}

/// An action after which the worker polls for the next pending participant.
pub open spec fn polls_next(a: WorkerAction) -> bool {
    a is SleepThenPoll || a is StoreThenPoll
}

/// Law: the worker never stops. A poll that finds nobody, or fails, is
/// answered by one sleep and a new poll; a pending participant is checked
/// under exactly the address the poll returned; and whatever the check comes
/// to, the worker goes back to polling, after at most one sleep in the round.
pub proof fn law_every_round_returns_to_polling(
    backoff: u64,
    poll: WorkerEvent,
    outcome: WorkerEvent,
)
    requires
        !is_check_outcome(poll),
        is_check_outcome(outcome),
    ensures
        !(poll is Pending) ==> worker_step(backoff, poll).1 is SleepThenPoll,
        poll matches WorkerEvent::Pending { id, email } ==> worker_step(backoff, poll).1 == (
        WorkerAction::CheckEmail { id, email }),
        polls_next(worker_step(worker_step(backoff, poll).0, outcome).1),
{
}

/// Law: a finished check always has exactly the breaches it found stored, all
/// of them and in their order, for the participant it was made for, and the
/// back-off starts over at the poll interval.
pub proof fn law_checked_stores_exactly_what_was_found(backoff: u64, id: u128, breaches: Vec<String>)
    ensures
        worker_step(backoff, WorkerEvent::Checked { id, breaches }).0 == POLL_INTERVAL_SECS,
        worker_step(backoff, WorkerEvent::Checked { id, breaches }).1 == (WorkerAction::StoreThenPoll {
            id,
            breaches,
        }),
        worker_step(backoff, WorkerEvent::PollFailed).1 == (WorkerAction::SleepThenPoll {
            secs: POLL_INTERVAL_SECS,
        }),
        worker_step(backoff, WorkerEvent::NothingPending).1 == (WorkerAction::SleepThenPoll {
            secs: POLL_INTERVAL_SECS,
        }),
{
}

/// Law: a `200` reply with a readable body becomes a finished check of this
/// participant whose breaches are the body's names, unchanged and in order; an
/// unreadable body is a failed check; a `404` is a finished check with no
/// breach; a `429` waits what the reply asked for; anything else is a failure.
pub proof fn law_reply_becomes_event(
    id: u128,
    lookup: BreachLookup,
    body: Result<Vec<String>, ()>,
    event: WorkerEvent,
)
    requires
        is_check_event(id, lookup, body, event),
    ensures
        match (lookup, body) {
            (BreachLookup::Breaches, Ok(names)) => event matches WorkerEvent::Checked {
                id: i,
                breaches,
            } && i == id && breaches@ == names@,
            _ => true,
        },
        lookup is Breaches && body is Err ==> event is CheckFailed,
        lookup is NoBreaches ==> (event matches WorkerEvent::Checked { id: i, breaches } && i == id
            && breaches@.len() == 0),
        lookup matches BreachLookup::RateLimited { wait_secs } ==> (event matches WorkerEvent::RateLimited {
            retry_after_secs,
        } && retry_after_secs == wait_secs),
        lookup is Unexpected ==> event is CheckFailed,
{
}

} // verus!
