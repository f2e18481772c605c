//! Bounded aggregate metrics: every label comes from a fixed allow-list, so
//! no identifier a request carries can become a series.

use vstd::prelude::*;
use crate::json::JsonValue;
use crate::text::{
    decimal, decimal_u128, hex_digit, hex_digit_exec, push_chars, push_decimal, push_str, str_eq,
    string_from_chars,
};

verus! {

/// The labels in a list, as texts.
pub open spec fn label_texts(labels: Seq<&'static str>) -> Seq<Seq<char>> {
    labels.map_values(|l: &'static str| l@)
}

/// Finds `value` among fixed labels and returns the label itself.
pub fn find_label(labels: &[&'static str], value: &str) -> (r: Option<&'static str>)
    ensures
        match r {
            Some(l) => l@ == value@ && label_texts(labels@).contains(value@),
            None => !label_texts(labels@).contains(value@),
        },
{
    let mut i: usize = 0;
    while i < labels.len()
        invariant
            i <= labels@.len(),
            forall|j: int| 0 <= j < i ==> labels@[j]@ != value@,
        decreases labels.len() - i,
    {
        if str_eq(labels[i], value) {
            assert(label_texts(labels@)[i as int] == value@);
            return Some(labels[i]);
        }
        i = i + 1;
    }
    assert forall|k: int| 0 <= k < label_texts(labels@).len() implies label_texts(labels@)[k]
        != value@ by {
        assert(label_texts(labels@)[k] == labels@[k]@);
    }
    None
}

/// Every route template that may label an HTTP series.
pub open spec fn route_labels() -> Seq<&'static str> {
    seq![
        "/health",
        "/ready",
        "/metrics",
        "/login",
        "/assets/paper-raid.js",
        "/assets/paper-raid.css",
        "/alpha/login",
        "/session/logout",
        "/session/refresh",
        "/api/session",
        "/api/onboarding/human/challenge",
        "/api/onboarding/human/register",
        "/api/onboarding/human/signing-frame",
        "/api/hepta/commands",
        "/api/agent-bindings",
        "/api/agent-bridge/pairing-grants",
        "/api/agent-bridge/pairing-grants/:grant_id/revoke",
        "/api/agent-bridge/pairing-context",
        "/api/agent-bridge/pair",
        "/api/agent-bridge/binding",
        "/api/agent-bridge/health",
        "/api/agent-bridge/practice-tasks",
        "/api/agent-bridge/practice-claims",
        "/api/agent-bridge/practice-results",
        "/api/agent-bridge/inbox",
        "/api/agent-bridge/delivery-drafts",
        "/api/agent-bridge/proposals",
        "/api/product-events",
        "/api/practice/session",
        "/api/practice/start",
        "/api/practice/advance",
        "/api/practice/abandon",
        "/api/papers/:paper_id/timeline",
        "/api/papers/:paper_id/outcome",
        "/api/papers/:paper_id/artifacts/:digest",
        "/league/start",
        "/league/onboarding",
        "/league",
        "/league/review",
        "/league/review/:paper_id",
        "/league/practice",
        "/league/formation/:team_id",
        "/league/papers/:paper_id",
    ]
}

/// The route template itself when it is one of the fixed route labels; a
/// concrete path (holding identifiers) never is.
pub fn bounded_route(route: &str) -> (r: Option<&'static str>)
    ensures
        match r {
            Some(l) => l@ == route@ && label_texts(route_labels()).contains(route@),
            None => !label_texts(route_labels()).contains(route@),
        },
{
    let labels: [&'static str; 43] = [
        "/health",
        "/ready",
        "/metrics",
        "/login",
        "/assets/paper-raid.js",
        "/assets/paper-raid.css",
        "/alpha/login",
        "/session/logout",
        "/session/refresh",
        "/api/session",
        "/api/onboarding/human/challenge",
        "/api/onboarding/human/register",
        "/api/onboarding/human/signing-frame",
        "/api/hepta/commands",
        "/api/agent-bindings",
        "/api/agent-bridge/pairing-grants",
        "/api/agent-bridge/pairing-grants/:grant_id/revoke",
        "/api/agent-bridge/pairing-context",
        "/api/agent-bridge/pair",
        "/api/agent-bridge/binding",
        "/api/agent-bridge/health",
        "/api/agent-bridge/practice-tasks",
        "/api/agent-bridge/practice-claims",
        "/api/agent-bridge/practice-results",
        "/api/agent-bridge/inbox",
        "/api/agent-bridge/delivery-drafts",
        "/api/agent-bridge/proposals",
        "/api/product-events",
        "/api/practice/session",
        "/api/practice/start",
        "/api/practice/advance",
        "/api/practice/abandon",
        "/api/papers/:paper_id/timeline",
        "/api/papers/:paper_id/outcome",
        "/api/papers/:paper_id/artifacts/:digest",
        "/league/start",
        "/league/onboarding",
        "/league",
        "/league/review",
        "/league/review/:paper_id",
        "/league/practice",
        "/league/formation/:team_id",
        "/league/papers/:paper_id",
    ];
    assert(labels@ =~= route_labels());
    find_label(&labels, route)
}

} // verus!

verus! {

/// Methods that label an HTTP series, in text order.
pub open spec fn method_labels() -> Seq<&'static str> {
    seq!["GET", "OTHER", "POST", "PUT"]
}

/// Status classes that label an HTTP series, in text order.
pub open spec fn status_labels() -> Seq<&'static str> {
    seq!["2xx", "3xx", "4xx", "5xx", "other"]
}

/// Routes that label an HTTP series (the fixed templates and `unmatched`), in text order.
pub open spec fn series_route_labels() -> Seq<&'static str> {
    seq![
        "/alpha/login",
        "/api/agent-bindings",
        "/api/agent-bridge/binding",
        "/api/agent-bridge/delivery-drafts",
        "/api/agent-bridge/health",
        "/api/agent-bridge/inbox",
        "/api/agent-bridge/pair",
        "/api/agent-bridge/pairing-context",
        "/api/agent-bridge/pairing-grants",
        "/api/agent-bridge/pairing-grants/:grant_id/revoke",
        "/api/agent-bridge/practice-claims",
        "/api/agent-bridge/practice-results",
        "/api/agent-bridge/practice-tasks",
        "/api/agent-bridge/proposals",
        "/api/hepta/commands",
        "/api/onboarding/human/challenge",
        "/api/onboarding/human/register",
        "/api/onboarding/human/signing-frame",
        "/api/papers/:paper_id/artifacts/:digest",
        "/api/papers/:paper_id/outcome",
        "/api/papers/:paper_id/timeline",
        "/api/practice/abandon",
        "/api/practice/advance",
        "/api/practice/session",
        "/api/practice/start",
        "/api/product-events",
        "/api/session",
        "/assets/paper-raid.css",
        "/assets/paper-raid.js",
        "/health",
        "/league",
        "/league/formation/:team_id",
        "/league/onboarding",
        "/league/papers/:paper_id",
        "/league/practice",
        "/league/review",
        "/league/review/:paper_id",
        "/league/start",
        "/login",
        "/metrics",
        "/ready",
        "/session/logout",
        "/session/refresh",
        "unmatched",
    ]
}

/// Hepta upstream error kinds, in text order.
pub open spec fn hepta_error_labels() -> Seq<&'static str> {
    seq![
        "finality_error",
        "finality_invalid",
        "finality_unavailable",
        "finality_unknown",
        "protocol",
        "server",
        "transport",
    ]
}

/// Agent Bridge operations, in text order.
pub open spec fn bridge_operation_labels() -> Seq<&'static str> {
    seq!["pairing", "recovery", "work_submit"]
}

/// Agent Bridge outcomes, in text order.
pub open spec fn bridge_outcome_labels() -> Seq<&'static str> {
    seq!["client_error", "conflict", "server_error", "success"]
}

/// Invite authentication outcomes, in text order.
pub open spec fn invite_outcome_labels() -> Seq<&'static str> {
    seq!["authenticated", "denied", "error", "rate_limited", "redeemed"]
}

/// Product events, in text order.
pub open spec fn product_event_labels() -> Seq<&'static str> {
    seq!["first_action", "login_succeeded"]
}

fn method_label_list() -> (r: [&'static str; 4])
    ensures
        r@ == method_labels(),
{
    let r: [&'static str; 4] = ["GET", "OTHER", "POST", "PUT"];
    assert(r@ =~= method_labels());
    r
}

fn status_label_list() -> (r: [&'static str; 5])
    ensures
        r@ == status_labels(),
{
    let r: [&'static str; 5] = ["2xx", "3xx", "4xx", "5xx", "other"];
    assert(r@ =~= status_labels());
    r
}

fn series_route_label_list() -> (r: [&'static str; 44])
    ensures
        r@ == series_route_labels(),
{
    let r: [&'static str; 44] = [
        "/alpha/login",
        "/api/agent-bindings",
        "/api/agent-bridge/binding",
        "/api/agent-bridge/delivery-drafts",
        "/api/agent-bridge/health",
        "/api/agent-bridge/inbox",
        "/api/agent-bridge/pair",
        "/api/agent-bridge/pairing-context",
        "/api/agent-bridge/pairing-grants",
        "/api/agent-bridge/pairing-grants/:grant_id/revoke",
        "/api/agent-bridge/practice-claims",
        "/api/agent-bridge/practice-results",
        "/api/agent-bridge/practice-tasks",
        "/api/agent-bridge/proposals",
        "/api/hepta/commands",
        "/api/onboarding/human/challenge",
        "/api/onboarding/human/register",
        "/api/onboarding/human/signing-frame",
        "/api/papers/:paper_id/artifacts/:digest",
        "/api/papers/:paper_id/outcome",
        "/api/papers/:paper_id/timeline",
        "/api/practice/abandon",
        "/api/practice/advance",
        "/api/practice/session",
        "/api/practice/start",
        "/api/product-events",
        "/api/session",
        "/assets/paper-raid.css",
        "/assets/paper-raid.js",
        "/health",
        "/league",
        "/league/formation/:team_id",
        "/league/onboarding",
        "/league/papers/:paper_id",
        "/league/practice",
        "/league/review",
        "/league/review/:paper_id",
        "/league/start",
        "/login",
        "/metrics",
        "/ready",
        "/session/logout",
        "/session/refresh",
        "unmatched",
    ];
    assert(r@ =~= series_route_labels());
    r
}

fn hepta_error_label_list() -> (r: [&'static str; 7])
    ensures
        r@ == hepta_error_labels(),
{
    let r: [&'static str; 7] = [
        "finality_error",
        "finality_invalid",
        "finality_unavailable",
        "finality_unknown",
        "protocol",
        "server",
        "transport",
    ];
    assert(r@ =~= hepta_error_labels());
    r
}

fn bridge_operation_label_list() -> (r: [&'static str; 3])
    ensures
        r@ == bridge_operation_labels(),
{
    let r: [&'static str; 3] = ["pairing", "recovery", "work_submit"];
    assert(r@ =~= bridge_operation_labels());
    r
}

fn bridge_outcome_label_list() -> (r: [&'static str; 4])
    ensures
        r@ == bridge_outcome_labels(),
{
    let r: [&'static str; 4] = ["client_error", "conflict", "server_error", "success"];
    assert(r@ =~= bridge_outcome_labels());
    r
}

fn invite_outcome_label_list() -> (r: [&'static str; 5])
    ensures
        r@ == invite_outcome_labels(),
{
    let r: [&'static str; 5] = ["authenticated", "denied", "error", "rate_limited", "redeemed"];
    assert(r@ =~= invite_outcome_labels());
    r
}

fn product_event_label_list() -> (r: [&'static str; 2])
    ensures
        r@ == product_event_labels(),
{
    let r: [&'static str; 2] = ["first_action", "login_succeeded"];
    assert(r@ =~= product_event_labels());
    r
}

/// `i` is the first position of `value` among the labels.
pub open spec fn is_first_label(labels: Seq<&'static str>, value: Seq<char>, i: int) -> bool {
    &&& 0 <= i < labels.len()
    &&& labels[i]@ == value
    &&& forall|j: int| 0 <= j < i ==> (#[trigger] labels[j])@ != value
}

/// The position of `value` among the labels, if it is one.
pub open spec fn label_index(labels: Seq<&'static str>, value: Seq<char>) -> Option<int> {
    if exists|i: int| is_first_label(labels, value, i) {
        Some(choose|i: int| is_first_label(labels, value, i))
    } else {
        None
    }
}

pub proof fn lemma_first_label_unique(labels: Seq<&'static str>, value: Seq<char>, i: int)
    requires
        is_first_label(labels, value, i),
    ensures
        label_index(labels, value) == Some(i),
{
    let k = choose|k: int| is_first_label(labels, value, k);
    assert(is_first_label(labels, value, k));
    if k < i {
        assert(labels[k]@ != value);
    } else if i < k {
        assert(labels[i]@ != value);
    }
}

/// The position of `value` among the labels.
pub fn find_index(labels: &[&'static str], value: &str) -> (r: Option<usize>)
    ensures
        r matches Some(i) ==> label_index(labels@, value@) == Some(i as int),
        r is None ==> label_index(labels@, value@) is None,
{
    let mut i: usize = 0;
    while i < labels.len()
        invariant
            i <= labels@.len(),
            forall|j: int| 0 <= j < i ==> (#[trigger] labels@[j])@ != value@,
        decreases labels.len() - i,
    {
        if str_eq(labels[i], value) {
            proof {
                lemma_first_label_unique(labels@, value@, i as int);
            }
            return Some(i);
        }
        i = i + 1;
    }
    assert(!exists|k: int| is_first_label(labels@, value@, k));
    None
}

} // verus!

verus! {

/// Upper bounds of the latency buckets, in nanoseconds (5 ms to 10 s).
pub open spec fn latency_bounds() -> Seq<u64> {
    seq![
        5_000_000,
        10_000_000,
        25_000_000,
        50_000_000,
        100_000_000,
        250_000_000,
        500_000_000,
        1_000_000_000,
        2_500_000_000,
        5_000_000_000,
        10_000_000_000,
    ]
}

fn latency_bound_list() -> (r: [u64; 11])
    ensures
        r@ == latency_bounds(),
{
    let r: [u64; 11] = [
        5_000_000,
        10_000_000,
        25_000_000,
        50_000_000,
        100_000_000,
        250_000_000,
        500_000_000,
        1_000_000_000,
        2_500_000_000,
        5_000_000_000,
        10_000_000_000,
    ];
    assert(r@ =~= latency_bounds());
    r
}

/// Number of distinct HTTP series labels: methods × routes × status classes.
pub const HTTP_SERIES_SLOTS: usize = 880;

/// The slot of an HTTP series: its labels in text order, method first.
pub open spec fn http_slot(method: int, route: int, status_class: int) -> int {
    (method * 44 + route) * 5 + status_class
}

/// The slot of a Bridge event: operation first.
pub open spec fn bridge_slot(operation: int, outcome: int) -> int {
    operation * 4 + outcome
}

/// One HTTP series: request count, total latency, and the cumulative
/// histogram (bucket `i` counts requests no slower than bound `i`).
#[derive(Debug, Clone, Copy, PartialEq, Eq)]
pub struct HttpSeries {
    pub count: u64,
    pub sum_nanos: u64,
    pub buckets: [u64; 11],
}

impl HttpSeries {
    /// The histogram is cumulative and never exceeds the request count.
    pub open spec fn wf(self) -> bool {
        &&& forall|i: int| 0 <= i < 11 ==> #[trigger] self.buckets@[i] <= self.count
        &&& forall|i: int, j: int|
            0 <= i <= j < 11 ==> #[trigger] self.buckets@[i] <= #[trigger] self.buckets@[j]
    }

    /// A series that has seen no request.
    pub open spec fn is_unused(self) -> bool {
        self.count == 0 && self.sum_nanos == 0 && forall|i: int|
            0 <= i < 11 ==> #[trigger] self.buckets@[i] == 0
    }

    /// The series after one more request that took `elapsed` nanoseconds.
    pub open spec fn observed(self, elapsed: u64) -> Self {
        HttpSeries {
            count: (self.count + 1) as u64,
            sum_nanos: (self.sum_nanos + elapsed) as u64,
            buckets: self.buckets,
        }
    }

    pub open spec fn bucket_after(self, elapsed: u64, i: int) -> u64 {
        if elapsed <= latency_bounds()[i] {
            (self.buckets@[i] + 1) as u64
        } else {
            self.buckets@[i]
        }
    }
}

#[derive(Debug, Clone, Copy, PartialEq, Eq)]
pub enum HeptaErrorKind {
    Transport,
    Protocol,
    Server,
    FinalityUnknown,
    FinalityUnavailable,
    FinalityError,
    FinalityInvalid,
}

impl HeptaErrorKind {
    /// Position of the kind's label in `hepta_error_labels`.
    pub open spec fn spec_index(self) -> int {
        match self {
            HeptaErrorKind::FinalityError => 0,
            HeptaErrorKind::FinalityInvalid => 1,
            HeptaErrorKind::FinalityUnavailable => 2,
            HeptaErrorKind::FinalityUnknown => 3,
            HeptaErrorKind::Protocol => 4,
            HeptaErrorKind::Server => 5,
            HeptaErrorKind::Transport => 6,
        }
    }

    pub fn index(self) -> (r: usize)
        ensures
            r == self.spec_index(),
    {
        match self {
            HeptaErrorKind::FinalityError => 0,
            HeptaErrorKind::FinalityInvalid => 1,
            HeptaErrorKind::FinalityUnavailable => 2,
            HeptaErrorKind::FinalityUnknown => 3,
            HeptaErrorKind::Protocol => 4,
            HeptaErrorKind::Server => 5,
            HeptaErrorKind::Transport => 6,
        }
    }
}

#[derive(Debug, Clone, Copy, PartialEq, Eq)]
pub enum InviteOutcome {
    Authenticated,
    Redeemed,
    Denied,
    RateLimited,
    Error,
}

impl InviteOutcome {
    /// Position of the outcome's label in `invite_outcome_labels`.
    pub open spec fn spec_index(self) -> int {
        match self {
            InviteOutcome::Authenticated => 0,
            InviteOutcome::Denied => 1,
            InviteOutcome::Error => 2,
            InviteOutcome::RateLimited => 3,
            InviteOutcome::Redeemed => 4,
        }
    }

    pub fn index(self) -> (r: usize)
        ensures
            r == self.spec_index(),
    {
        match self {
            InviteOutcome::Authenticated => 0,
            InviteOutcome::Denied => 1,
            InviteOutcome::Error => 2,
            InviteOutcome::RateLimited => 3,
            InviteOutcome::Redeemed => 4,
        }
    }
}

/// The bounded in-process aggregates. Each family of counters has one slot
/// per allowed label combination, in text order of the labels; a slot is
/// `None` until the first observation (or a restored snapshot) creates it.
#[derive(Debug)]
pub struct Metrics {
    pub http: Vec<Option<HttpSeries>>,
    pub hepta_errors: Vec<Option<u64>>,
    pub bridge_events: Vec<Option<u64>>,
    pub invite_events: Vec<Option<u64>>,
    pub product_events: Vec<Option<u64>>,
    pub stale_ui_reloads: u64,
    pub match_queue_depth: u64,
    pub match_eta_available: u64,
    pub match_eta_unavailable: u64,
    pub match_snapshot_available: bool,
    pub revision: u64,
    pub dirty: bool,
    pub snapshot_loaded: bool,
    pub snapshot_persisted: bool,
}

/// `count` more (0 for an absent slot).
pub open spec fn bumped(slot: Option<u64>) -> Option<u64> {
    match slot {
        Some(n) => Some((n + 1) as u64),
        None => Some(1u64),
    }
}

/// A slot can take one more observation without overflow.
pub open spec fn has_room(slot: Option<u64>) -> bool {
    match slot {
        Some(n) => n < u64::MAX,
        None => true,
    }
}

impl HttpSeries {
    /// Whether the histogram is cumulative and within the request count.
    pub fn is_wf(&self) -> (b: bool)
        ensures
            b == self.wf(),
    {
        let mut i: usize = 0;
        while i < 11
            invariant
                i <= 11,
                forall|k: int| 0 <= k < i ==> #[trigger] self.buckets@[k] <= self.count,
                forall|k: int, l: int|
                    0 <= k < i && k <= l < 11 ==> #[trigger] self.buckets@[k]
                        <= #[trigger] self.buckets@[l],
            decreases 11 - i,
        {
            if self.buckets[i] > self.count {
                return false;
            }
            let mut j: usize = i;
            while j < 11
                invariant
                    i < 11,
                    i <= j <= 11,
                    forall|l: int| i <= l < j ==> self.buckets@[i as int] <= #[trigger] self.buckets@[l],
                decreases 11 - j,
            {
                if self.buckets[i] > self.buckets[j] {
                    return false;
                }
                j = j + 1;
            }
            i = i + 1;
        }
        true
    }
}

impl Metrics {
    /// Whether the aggregates are well formed: every family has its number
    /// of slots and every HTTP series is well formed. Callers outside the
    /// library test this before they call what requires it.
    pub fn is_wf(&self) -> (b: bool)
        ensures
            b == self.wf(),
    {
        if self.http.len() != HTTP_SERIES_SLOTS || self.hepta_errors.len() != 7
            || self.bridge_events.len() != 12 || self.invite_events.len() != 5
            || self.product_events.len() != 2 {
            return false;
        }
        let mut i: usize = 0;
        while i < self.http.len()
            invariant
                i <= self.http@.len(),
                forall|k: int| 0 <= k < i ==> (#[trigger] self.http@[k] matches Some(s) ==> s.wf()),
            decreases self.http.len() - i,
        {
            match &self.http[i] {
                Some(s) => {
                    if !s.is_wf() {
                        return false;
                    }
                },
                None => {},
            }
            i = i + 1;
        }
        true
    }
}

impl Metrics {
    pub open spec fn wf(self) -> bool {
        &&& self.http@.len() == HTTP_SERIES_SLOTS
        &&& forall|i: int| 0 <= i < self.http@.len() ==> (#[trigger] self.http@[i] matches Some(
            s,
        ) ==> s.wf())
        &&& self.hepta_errors@.len() == 7
        &&& self.bridge_events@.len() == 12
        &&& self.invite_events@.len() == 5
        &&& self.product_events@.len() == 2
    }

    /// The state after any observation: one revision later (saturating),
    /// dirty, and not yet persisted.
    pub open spec fn changed(self) -> Self {
        Metrics {
            revision: if self.revision == u64::MAX {
                u64::MAX
            } else {
                (self.revision + 1) as u64
            },
            dirty: true,
            snapshot_persisted: false,
            ..self
        }
    }

    /// Nothing observed, nothing loaded or persisted, revision 0.
    pub open spec fn is_empty(self) -> bool {
        &&& self.wf()
        &&& forall|i: int| 0 <= i < self.http@.len() ==> #[trigger] self.http@[i] is None
        &&& forall|i: int| 0 <= i < 7 ==> #[trigger] self.hepta_errors@[i] is None
        &&& forall|i: int| 0 <= i < 12 ==> #[trigger] self.bridge_events@[i] is None
        &&& forall|i: int| 0 <= i < 5 ==> #[trigger] self.invite_events@[i] is None
        &&& forall|i: int| 0 <= i < 2 ==> #[trigger] self.product_events@[i] is None
        &&& self.stale_ui_reloads == 0
        &&& self.match_queue_depth == 0
        &&& self.match_eta_available == 0
        &&& self.match_eta_unavailable == 0
        &&& !self.match_snapshot_available
        &&& self.revision == 0
        &&& !self.dirty
        &&& !self.snapshot_loaded
        &&& !self.snapshot_persisted
    }

    fn mark_changed(&mut self)
        ensures
            *final(self) == old(self).changed(),
    {
        self.revision = self.revision.saturating_add(1);
        self.dirty = true;
        self.snapshot_persisted = false;
    }

    pub fn is_dirty(&self) -> (r: bool)
        ensures
            r == self.dirty,
    {
        self.dirty
    }

    /// Records that the snapshot of `revision` was stored. The dirty flag is
    /// cleared only when no observation came after that snapshot.
    pub fn mark_persisted(&mut self, revision: u64)
        ensures
            old(self).revision == revision ==> *final(self) == (Metrics {
                dirty: false,
                snapshot_persisted: true,
                ..*old(self)
            }),
            old(self).revision != revision ==> *final(self) == *old(self),
    {
        if self.revision == revision {
            self.dirty = false;
            self.snapshot_persisted = true;
        }
    }

    pub fn observe_hepta_error(&mut self, kind: HeptaErrorKind)
        requires
            old(self).wf(),
            has_room(old(self).hepta_errors@[kind.spec_index()]),
        ensures
            final(self).wf(),
            *final(self) == (Metrics {
                hepta_errors: final(self).hepta_errors,
                ..old(self).changed()
            }),
            final(self).hepta_errors@ == old(self).hepta_errors@.update(
                kind.spec_index(),
                bumped(old(self).hepta_errors@[kind.spec_index()]),
            ),
    {
        let i = kind.index();
        let next: u64 = match self.hepta_errors[i] {
            Some(n) => n + 1,
            None => 1,
        };
        self.hepta_errors.set(i, Some(next));
        self.mark_changed();
    }

    pub fn observe_invite(&mut self, outcome: InviteOutcome)
        requires
            old(self).wf(),
            has_room(old(self).invite_events@[outcome.spec_index()]),
        ensures
            final(self).wf(),
            *final(self) == (Metrics {
                invite_events: final(self).invite_events,
                ..old(self).changed()
            }),
            final(self).invite_events@ == old(self).invite_events@.update(
                outcome.spec_index(),
                bumped(old(self).invite_events@[outcome.spec_index()]),
            ),
    {
        let i = outcome.index();
        let next: u64 = match self.invite_events[i] {
            Some(n) => n + 1,
            None => 1,
        };
        self.invite_events.set(i, Some(next));
        self.mark_changed();
    }

    /// Counts a Bridge event; the operation and outcome are label positions.
    pub fn observe_bridge(&mut self, operation: usize, outcome: usize)
        requires
            old(self).wf(),
            operation < 3,
            outcome < 4,
            has_room(old(self).bridge_events@[bridge_slot(operation as int, outcome as int)]),
        ensures
            final(self).wf(),
            *final(self) == (Metrics {
                bridge_events: final(self).bridge_events,
                ..old(self).changed()
            }),
            final(self).bridge_events@ == old(self).bridge_events@.update(
                bridge_slot(operation as int, outcome as int),
                bumped(old(self).bridge_events@[bridge_slot(operation as int, outcome as int)]),
            ),
    {
        let i = operation * 4 + outcome;
        let next: u64 = match self.bridge_events[i] {
            Some(n) => n + 1,
            None => 1,
        };
        self.bridge_events.set(i, Some(next));
        self.mark_changed();
    }

    /// Counts a Bridge recovery: success, or a server error.
    pub fn observe_bridge_recovery(&mut self, succeeded: bool)
        requires
            old(self).wf(),
            has_room(old(self).bridge_events@[bridge_slot(1, if succeeded { 3 } else { 2 })]),
        ensures
            final(self).wf(),
            *final(self) == (Metrics {
                bridge_events: final(self).bridge_events,
                ..old(self).changed()
            }),
            final(self).bridge_events@ == old(self).bridge_events@.update(
                bridge_slot(1, if succeeded { 3 } else { 2 }),
                bumped(old(self).bridge_events@[bridge_slot(1, if succeeded { 3 } else { 2 })]),
            ),
    {
        self.observe_bridge(1, if succeeded { 3 } else { 2 });
    }

    /// Counts an onboarding event; any event outside the fixed list is ignored.
    pub fn observe_product_event(&mut self, event: &str)
        requires
            old(self).wf(),
            label_index(product_event_labels(), event@) matches Some(i) ==> has_room(
                old(self).product_events@[i],
            ),
        ensures
            final(self).wf(),
            match label_index(product_event_labels(), event@) {
                Some(i) => {
                    &&& *final(self) == (Metrics {
                        product_events: final(self).product_events,
                        ..old(self).changed()
                    })
                    &&& final(self).product_events@ == old(self).product_events@.update(
                        i,
                        bumped(old(self).product_events@[i]),
                    )
                },
                None => *final(self) == *old(self),
            },
    {
        let labels = product_event_label_list();
        match find_index(&labels, event) {
            Some(i) => {
                let next: u64 = match self.product_events[i] {
                    Some(n) => n + 1,
                    None => 1,
                };
                self.product_events.set(i, Some(next));
                self.mark_changed();
            },
            None => {},
        }
    }

    pub fn observe_stale_ui_reload(&mut self)
        requires
            old(self).stale_ui_reloads < u64::MAX,
        ensures
            *final(self) == (Metrics {
                stale_ui_reloads: (old(self).stale_ui_reloads + 1) as u64,
                ..old(self).changed()
            }),
    {
        self.stale_ui_reloads = self.stale_ui_reloads + 1;
        self.mark_changed();
    }
}

} // verus!

verus! {

/// Position of a request method's label: GET, POST and PUT name themselves,
/// every other method is `OTHER`.
pub open spec fn method_index(method: Seq<char>) -> int {
    if method == "GET"@ {
        0
    } else if method == "POST"@ {
        2
    } else if method == "PUT"@ {
        3
    } else {
        1
    }
}

pub fn bounded_method(method: &str) -> (r: usize)
    ensures
        r == method_index(method@),
        method_labels()[r as int]@ == "GET"@ || method_labels()[r as int]@ == "POST"@
            || method_labels()[r as int]@ == "PUT"@ || method_labels()[r as int]@ == "OTHER"@,
{
    proof {
        reveal_strlit("GET");
        reveal_strlit("POST");
        reveal_strlit("PUT");
        reveal_strlit("OTHER");
    }
    if str_eq(method, "GET") {
        0
    } else if str_eq(method, "POST") {
        2
    } else if str_eq(method, "PUT") {
        3
    } else {
        1
    }
}

/// Position of a status code's class label (`2xx` … `5xx`, else `other`).
pub open spec fn status_class_index(status: u16) -> int {
    let hundreds = status / 100;
    if 2 <= hundreds <= 5 {
        hundreds - 2
    } else {
        4
    }
}

pub fn bounded_status_class(status: u16) -> (r: usize)
    ensures
        r == status_class_index(status),
{
    let hundreds: u16 = status / 100;
    if 2 <= hundreds && hundreds <= 5 {
        (hundreds - 2) as usize
    } else {
        4
    }
}

/// Position of a Bridge outcome label for a response status: success for
/// 2xx, conflict for 409, client error for other 4xx, server error otherwise.
pub open spec fn bridge_outcome_index(status: u16) -> int {
    if 200 <= status <= 299 {
        3
    } else if status == 409 {
        1
    } else if 400 <= status <= 499 {
        0
    } else {
        2
    }
}

pub fn bridge_outcome(status: u16) -> (r: usize)
    ensures
        r == bridge_outcome_index(status),
{
    if 200 <= status && status <= 299 {
        3
    } else if status == 409 {
        1
    } else if 400 <= status && status <= 499 {
        0
    } else {
        2
    }
}

/// Position of the route label for a matched route template: the template
/// itself when it is one of the fixed labels, else `unmatched`.
pub open spec fn route_index(matched: Option<Seq<char>>) -> int {
    match matched {
        Some(r) => match label_index(series_route_labels(), r) {
            Some(i) => i,
            None => 43,
        },
        None => 43,
    }
}

/// The Bridge operation a route reports: pairing for the pair endpoint,
/// work submission for proposals.
pub open spec fn bridge_operation_for_route(route: int) -> Option<int> {
    if route == 6 {
        Some(0)
    } else if route == 13 {
        Some(2)
    } else {
        None
    }
}

impl Metrics {
    /// One HTTP series can take another request of `elapsed` nanoseconds.
    pub open spec fn http_has_room(self, slot: int, elapsed: u64) -> bool {
        match self.http@[slot] {
            Some(s) => s.count < u64::MAX && s.sum_nanos + elapsed <= u64::MAX,
            None => true,
        }
    }

    /// `after` is the series in `slot` after one request of `elapsed` nanoseconds.
    pub open spec fn http_observed(self, slot: int, elapsed: u64, after: HttpSeries) -> bool {
        match self.http@[slot] {
            Some(s) => {
                &&& after.count == s.count + 1
                &&& after.sum_nanos == s.sum_nanos + elapsed
                &&& forall|i: int| 0 <= i < 11 ==> #[trigger] after.buckets@[i] == s.bucket_after(
                    elapsed,
                    i,
                )
            },
            None => {
                &&& after.count == 1
                &&& after.sum_nanos == elapsed
                &&& forall|i: int|
                    0 <= i < 11 ==> #[trigger] after.buckets@[i] == (if elapsed
                        <= latency_bounds()[i] {
                        1u64
                    } else {
                        0u64
                    })
            },
        }
    }

    /// Counts one request in the series of its method, route and status
    /// class (label positions), and adds its latency to the histogram.
    pub fn observe_http(&mut self, method: usize, route: usize, status_class: usize, elapsed_nanos: u64)
        requires
            old(self).wf(),
            method < 4,
            route < 44,
            status_class < 5,
            old(self).http_has_room(
                http_slot(method as int, route as int, status_class as int),
                elapsed_nanos,
            ),
        ensures
            final(self).wf(),
            *final(self) == (Metrics { http: final(self).http, ..old(self).changed() }),
            ({
                let slot = http_slot(method as int, route as int, status_class as int);
                &&& final(self).http@.len() == old(self).http@.len()
                &&& forall|k: int|
                    0 <= k < old(self).http@.len() && k != slot ==> #[trigger] final(self).http@[k]
                        == old(self).http@[k]
                &&& final(self).http@[slot] matches Some(after) && old(self).http_observed(
                    slot,
                    elapsed_nanos,
                    after,
                )
            }),
    {
        let slot = (method * 44 + route) * 5 + status_class;
        let ghost old_slot = self.http@[slot as int];
        let mut series = match self.http[slot] {
            Some(s) => s,
            None => HttpSeries { count: 0, sum_nanos: 0, buckets: [0u64; 11] },
        };
        let ghost start = series;
        assert(start.wf() && (old_slot is None ==> start.count == 0 && start.sum_nanos == 0
            && forall|i: int| 0 <= i < 11 ==> #[trigger] start.buckets@[i] == 0));
        let bounds = latency_bound_list();
        assert(forall|i: int, j: int|
            0 <= i <= j < 11 ==> #[trigger] latency_bounds()[i] <= #[trigger] latency_bounds()[j]);
        series.count = series.count + 1;
        series.sum_nanos = series.sum_nanos + elapsed_nanos;
        let mut i: usize = 0;
        while i < 11
            invariant
                i <= 11,
                bounds@ == latency_bounds(),
                forall|a: int, b: int|
                    0 <= a <= b < 11 ==> #[trigger] latency_bounds()[a] <= #[trigger] latency_bounds()[b],
                start.wf(),
                series.count == start.count + 1,
                series.sum_nanos == start.sum_nanos + elapsed_nanos,
                forall|k: int| 0 <= k < i ==> #[trigger] series.buckets@[k] == start.bucket_after(
                    elapsed_nanos,
                    k,
                ),
                forall|k: int| i <= k < 11 ==> #[trigger] series.buckets@[k] == start.buckets@[k],
            decreases 11 - i,
        {
            if elapsed_nanos <= bounds[i] {
                series.buckets[i] = series.buckets[i] + 1;
            }
            i = i + 1;
        }
        assert(series.wf()) by {
            assert forall|a: int, b: int| 0 <= a <= b < 11 implies #[trigger] series.buckets@[a]
                <= #[trigger] series.buckets@[b] by {
                assert(series.buckets@[a] == start.bucket_after(elapsed_nanos, a));
                assert(series.buckets@[b] == start.bucket_after(elapsed_nanos, b));
                assert(start.buckets@[a] <= start.buckets@[b]);
            }
            assert forall|a: int| 0 <= a < 11 implies #[trigger] series.buckets@[a]
                <= series.count by {
                assert(series.buckets@[a] == start.bucket_after(elapsed_nanos, a));
            }
        }
        self.http.set(slot, Some(series));
        self.mark_changed();
    }

    /// One finished request: its bounded method, the matched route template
    /// (if any), its status and latency. Pair and proposal requests are also
    /// counted as Bridge events by outcome.
    pub open spec fn request_observed(
        self,
        after: Self,
        method: Seq<char>,
        matched: Option<Seq<char>>,
        status: u16,
        elapsed: u64,
    ) -> bool {
        let slot = http_slot(method_index(method), route_index(matched), status_class_index(status));
        let mid = Metrics { http: after.http, ..self.changed() };
        &&& after.http@.len() == self.http@.len()
        &&& forall|k: int|
            0 <= k < self.http@.len() && k != slot ==> #[trigger] after.http@[k] == self.http@[k]
        &&& after.http@[slot] matches Some(s) && self.http_observed(slot, elapsed, s)
        &&& match bridge_operation_for_route(route_index(matched)) {
            Some(op) => {
                let b = bridge_slot(op, bridge_outcome_index(status));
                &&& after == (Metrics { bridge_events: after.bridge_events, ..mid.changed() })
                &&& after.bridge_events@ == self.bridge_events@.update(
                    b,
                    bumped(self.bridge_events@[b]),
                )
            },
            None => after == mid,
        }
    }

    pub open spec fn request_has_room(
        self,
        method: Seq<char>,
        matched: Option<Seq<char>>,
        status: u16,
        elapsed: u64,
    ) -> bool {
        &&& self.http_has_room(
            http_slot(method_index(method), route_index(matched), status_class_index(status)),
            elapsed,
        )
        &&& bridge_operation_for_route(route_index(matched)) matches Some(op) ==> has_room(
            self.bridge_events@[bridge_slot(op, bridge_outcome_index(status))],
        )
    }

    /// Records one finished request under bounded labels only.
    pub fn observe_request(&mut self, method: &str, matched_route: Option<&str>, status: u16, elapsed_nanos: u64)
        requires
            old(self).wf(),
            old(self).request_has_room(
                method@,
                match matched_route {
                    Some(r) => Some(r@),
                    None => None,
                },
                status,
                elapsed_nanos,
            ),
        ensures
            final(self).wf(),
            old(self).request_observed(
                *final(self),
                method@,
                match matched_route {
                    Some(r) => Some(r@),
                    None => None,
                },
                status,
                elapsed_nanos,
            ),
    {
        let m = bounded_method(method);
        let labels = series_route_label_list();
        let route: usize = match matched_route {
            Some(r) => match find_index(&labels, r) {
                Some(i) => i,
                None => 43,
            },
            None => 43,
        };
        let ghost matched = match matched_route {
            Some(r) => Some(r@),
            None => None::<Seq<char>>,
        };
        assert(route == route_index(matched));
        let s = bounded_status_class(status);
        self.observe_http(m, route, s, elapsed_nanos);
        if route == 6 {
            self.observe_bridge(0, bridge_outcome(status));
        } else if route == 13 {
            self.observe_bridge(2, bridge_outcome(status));
        }
    }

    /// Records one finished request where its counters have room; a request
    /// that would overflow a counter leaves the aggregates unchanged, and
    /// the answer says which happened.
    pub fn try_observe_request(
        &mut self,
        method: &str,
        matched_route: Option<&str>,
        status: u16,
        elapsed_nanos: u64,
    ) -> (r: bool)
        requires
            old(self).wf(),
        ensures
            final(self).wf(),
            r == old(self).request_has_room(
                method@,
                match matched_route {
                    Some(r) => Some(r@),
                    None => None,
                },
                status,
                elapsed_nanos,
            ),
            r ==> old(self).request_observed(
                *final(self),
                method@,
                match matched_route {
                    Some(r) => Some(r@),
                    None => None,
                },
                status,
                elapsed_nanos,
            ),
            !r ==> *final(self) == *old(self),
    {
        let m = bounded_method(method);
        let labels = series_route_label_list();
        let route: usize = match matched_route {
            Some(r) => match find_index(&labels, r) {
                Some(i) => i,
                None => 43,
            },
            None => 43,
        };
        let ghost matched = match matched_route {
            Some(r) => Some(r@),
            None => None::<Seq<char>>,
        };
        assert(route == route_index(matched));
        let s = bounded_status_class(status);
        let slot = (m * 44 + route) * 5 + s;
        let http_room = match self.http[slot] {
            Some(series) => series.count < u64::MAX && series.sum_nanos <= u64::MAX - elapsed_nanos,
            None => true,
        };
        let bridge_room = if route == 6 || route == 13 {
            let op: usize = if route == 6 { 0 } else { 2 };
            match self.bridge_events[op * 4 + bridge_outcome(status)] {
                Some(n) => n < u64::MAX,
                None => true,
            }
        } else {
            true
        };
        if !(http_room && bridge_room) {
            return false;
        }
        self.observe_request(method, matched_route, status, elapsed_nanos);
        true
    }
}

} // verus!

verus! {

/// The text under `key` of a JSON object, if it is a string.
pub open spec fn text_field(v: JsonValue, key: Seq<char>) -> Option<Seq<char>> {
    match v.spec_get(key) {
        Some(f) => f.spec_as_str(),
        None => None,
    }
}

/// The Hepta error, if any, that a finality projection's status reports:
/// unknown, unavailable and error finality each have their kind; pending
/// and verified finality report none; any other status is invalid.
pub open spec fn finality_error_kind(projection: JsonValue) -> Option<HeptaErrorKind> {
    let status = text_field(projection, "status"@);
    if status == Some("unknown_finality"@) {
        Some(HeptaErrorKind::FinalityUnknown)
    } else if status == Some("unavailable_finality"@) {
        Some(HeptaErrorKind::FinalityUnavailable)
    } else if status == Some("error_finality"@) {
        Some(HeptaErrorKind::FinalityError)
    } else if status == Some("pending_finality"@) || status == Some("verified_finality"@) {
        None
    } else {
        Some(HeptaErrorKind::FinalityInvalid)
    }
}

/// A lobby ticket that is waiting in the queue.
pub open spec fn is_queued(ticket: JsonValue) -> bool {
    text_field(ticket, "status"@) == Some("queued"@)
}

/// A ticket whose queue hint carries a whole-second ETA.
pub open spec fn has_eta(ticket: JsonValue) -> bool {
    match ticket.spec_get("queue_hint"@) {
        Some(hint) => match hint.spec_get("eta_seconds"@) {
            Some(eta) => eta.spec_as_u64() is Some,
            None => false,
        },
        None => false,
    }
}

/// Queued tickets among the first `n`, with an ETA when `with_eta` is
/// `Some(true)`, without one when `Some(false)`, either way when `None`.
pub open spec fn queued_count(tickets: Seq<JsonValue>, n: int, with_eta: Option<bool>) -> nat
    decreases n,
{
    if n <= 0 {
        0
    } else {
        let t = tickets[n - 1];
        let counted = is_queued(t) && match with_eta {
            Some(e) => has_eta(t) == e,
            None => true,
        };
        queued_count(tickets, n - 1, with_eta) + if counted {
            1nat
        } else {
            0nat
        }
    }
}

proof fn lemma_queued_count_bounded(tickets: Seq<JsonValue>, n: int, with_eta: Option<bool>)
    requires
        0 <= n,
    ensures
        queued_count(tickets, n, with_eta) <= n,
    decreases n,
{
    if n > 0 {
        lemma_queued_count_bounded(tickets, n - 1, with_eta);
    }
}

fn text_field_is(v: &JsonValue, key: &str, expected: &str) -> (r: bool)
    ensures
        r == (text_field(*v, key@) == Some(expected@)),
{
    match v.get(key) {
        Some(f) => match f.as_str() {
            Some(t) => str_eq(t, expected),
            None => false,
        },
        None => false,
    }
}

fn ticket_has_eta(ticket: &JsonValue) -> (r: bool)
    ensures
        r == has_eta(*ticket),
{
    match ticket.get("queue_hint") {
        Some(hint) => match hint.get("eta_seconds") {
            Some(eta) => eta.as_u64().is_some(),
            None => false,
        },
        None => false,
    }
}

impl Metrics {
    /// An empty set of aggregates.
    pub fn new() -> (r: Self)
        ensures
            r.is_empty(),
    {
        let mut http: Vec<Option<HttpSeries>> = Vec::new();
        let mut i: usize = 0;
        while i < HTTP_SERIES_SLOTS
            invariant
                i <= HTTP_SERIES_SLOTS,
                http@.len() == i,
                forall|k: int| 0 <= k < i ==> #[trigger] http@[k] is None,
            decreases HTTP_SERIES_SLOTS - i,
        {
            http.push(None);
            i = i + 1;
        }
        Metrics {
            http,
            hepta_errors: vec![None, None, None, None, None, None, None],
            bridge_events: vec![None, None, None, None, None, None, None, None, None, None, None, None],
            invite_events: vec![None, None, None, None, None],
            product_events: vec![None, None],
            stale_ui_reloads: 0,
            match_queue_depth: 0,
            match_eta_available: 0,
            match_eta_unavailable: 0,
            match_snapshot_available: false,
            revision: 0,
            dirty: false,
            snapshot_loaded: false,
            snapshot_persisted: false,
        }
    }

    /// Counts the availability failure, if any, that a finality projection reports.
    pub fn observe_finality_availability(&mut self, projection: &JsonValue)
        requires
            old(self).wf(),
            finality_error_kind(*projection) matches Some(k) ==> has_room(
                old(self).hepta_errors@[k.spec_index()],
            ),
        ensures
            final(self).wf(),
            match finality_error_kind(*projection) {
                Some(k) => {
                    &&& *final(self) == (Metrics {
                        hepta_errors: final(self).hepta_errors,
                        ..old(self).changed()
                    })
                    &&& final(self).hepta_errors@ == old(self).hepta_errors@.update(
                        k.spec_index(),
                        bumped(old(self).hepta_errors@[k.spec_index()]),
                    )
                },
                None => *final(self) == *old(self),
            },
    {
        if text_field_is(projection, "status", "unknown_finality") {
            self.observe_hepta_error(HeptaErrorKind::FinalityUnknown);
        } else if text_field_is(projection, "status", "unavailable_finality") {
            self.observe_hepta_error(HeptaErrorKind::FinalityUnavailable);
        } else if text_field_is(projection, "status", "error_finality") {
            self.observe_hepta_error(HeptaErrorKind::FinalityError);
        } else if text_field_is(projection, "status", "pending_finality") || text_field_is(
            projection,
            "status",
            "verified_finality",
        ) {
        } else {
            self.observe_hepta_error(HeptaErrorKind::FinalityInvalid);
        }
    }

    /// Replaces the lobby gauges with the last ticket snapshot: queued
    /// tickets, with and without an ETA. A missing or non-array snapshot only
    /// marks the gauges unavailable.
    pub fn observe_match_queue(&mut self, tickets: Option<&JsonValue>)
        ensures
            match tickets {
                Some(JsonValue::Array(items)) => *final(self) == (Metrics {
                    match_queue_depth: queued_count(items@, items@.len() as int, None) as u64,
                    match_eta_available: queued_count(items@, items@.len() as int, Some(true))
                        as u64,
                    match_eta_unavailable: queued_count(items@, items@.len() as int, Some(false))
                        as u64,
                    match_snapshot_available: true,
                    ..old(self).changed()
                }),
                _ => *final(self) == (Metrics {
                    match_snapshot_available: false,
                    ..old(self).changed()
                }),
            },
    {
        let items = match tickets {
            Some(JsonValue::Array(items)) => items,
            _ => {
                self.match_snapshot_available = false;
                self.mark_changed();
                return;
            },
        };
        let mut depth: u64 = 0;
        let mut eta_available: u64 = 0;
        let mut eta_unavailable: u64 = 0;
        let mut i: usize = 0;
        while i < items.len()
            invariant
                i <= items@.len(),
                depth == queued_count(items@, i as int, None),
                eta_available == queued_count(items@, i as int, Some(true)),
                eta_unavailable == queued_count(items@, i as int, Some(false)),
            decreases items.len() - i,
        {
            proof {
                lemma_queued_count_bounded(items@, i as int, None);
                lemma_queued_count_bounded(items@, i as int, Some(true));
                lemma_queued_count_bounded(items@, i as int, Some(false));
            }
            let ticket = &items[i];
            if text_field_is(ticket, "status", "queued") {
                depth = depth + 1;
                if ticket_has_eta(ticket) {
                    eta_available = eta_available + 1;
                } else {
                    eta_unavailable = eta_unavailable + 1;
                }
            }
            i = i + 1;
        }
        self.match_queue_depth = depth;
        self.match_eta_available = eta_available;
        self.match_eta_unavailable = eta_unavailable;
        self.match_snapshot_available = true;
        self.mark_changed();
    }
}

} // verus!

verus! {

pub const METRICS_SNAPSHOT_SCHEMA: &'static str = "hepta.paper_raid.metrics_snapshot.v1";
pub const METRICS_PERSIST_INTERVAL_SECONDS: u64 = 15;
/// Most series of one family that a stored snapshot may hold.
pub const MAX_SNAPSHOT_SERIES: usize = 4096;

/// A stored counter with one label.
#[derive(Debug, Clone, PartialEq, Eq)]
pub struct DurableNamedCount {
    pub name: String,
    pub count: u64,
}

/// A stored Bridge counter.
#[derive(Debug, Clone, PartialEq, Eq)]
pub struct DurableBridgeCount {
    pub operation: String,
    pub outcome: String,
    pub count: u64,
}

/// A stored HTTP series; the latency total is in nanoseconds.
#[derive(Debug, Clone, PartialEq, Eq)]
pub struct DurableHttpSeries {
    pub method: String,
    pub route: String,
    pub status_class: String,
    pub count: u64,
    pub sum_nanos: u64,
    pub buckets: Vec<u64>,
}

/// The durable form of the aggregates, series in label order.
#[derive(Debug, Clone, PartialEq, Eq)]
pub struct DurableMetricsSnapshot {
    pub schema: String,
    pub revision: u64,
    pub http: Vec<DurableHttpSeries>,
    pub hepta_errors: Vec<DurableNamedCount>,
    pub bridge_events: Vec<DurableBridgeCount>,
    pub invite_events: Vec<DurableNamedCount>,
    pub product_events: Vec<DurableNamedCount>,
    pub stale_ui_reloads: u64,
    pub match_queue_depth: u64,
    pub match_eta_available: u64,
    pub match_eta_unavailable: u64,
    pub match_snapshot_available: bool,
}

/// Why a stored snapshot is refused.
#[derive(Debug, Clone, Copy, PartialEq, Eq)]
pub enum MetricsSnapshotError {
    SchemaMismatch,
    TooManySeries,
    UnknownMethod,
    UnknownRoute,
    UnknownStatusClass,
    InvalidHistogram,
    DuplicateHttp,
    UnknownHeptaError,
    DuplicateHeptaError,
    UnknownBridgeOperation,
    UnknownBridgeOutcome,
    DuplicateBridgeEvent,
    UnknownInviteOutcome,
    DuplicateInviteOutcome,
    UnknownProductEvent,
    DuplicateProductEvent,
}

impl MetricsSnapshotError {
    /// The human-readable text of the error.
    pub open spec fn spec_message(self) -> Seq<char> {
        match self {
            MetricsSnapshotError::SchemaMismatch => "metrics snapshot schema mismatch"@,
            MetricsSnapshotError::TooManySeries => "metrics snapshot contains too many series"@,
            MetricsSnapshotError::UnknownMethod => "metrics snapshot contains an unknown method"@,
            MetricsSnapshotError::UnknownRoute => "metrics snapshot contains an unknown route"@,
            MetricsSnapshotError::UnknownStatusClass => "metrics snapshot contains an unknown status class"@,
            MetricsSnapshotError::InvalidHistogram => "metrics snapshot contains an invalid HTTP histogram"@,
            MetricsSnapshotError::DuplicateHttp => "metrics snapshot contains duplicate HTTP series"@,
            MetricsSnapshotError::UnknownHeptaError => "metrics snapshot contains an unknown Hepta error"@,
            MetricsSnapshotError::DuplicateHeptaError => "metrics snapshot contains duplicate Hepta errors"@,
            MetricsSnapshotError::UnknownBridgeOperation => "metrics snapshot contains an unknown Bridge operation"@,
            MetricsSnapshotError::UnknownBridgeOutcome => "metrics snapshot contains an unknown Bridge outcome"@,
            MetricsSnapshotError::DuplicateBridgeEvent => "metrics snapshot contains duplicate Bridge events"@,
            MetricsSnapshotError::UnknownInviteOutcome => "metrics snapshot contains an unknown invite outcome"@,
            MetricsSnapshotError::DuplicateInviteOutcome => "metrics snapshot contains duplicate invite outcomes"@,
            MetricsSnapshotError::UnknownProductEvent => "metrics snapshot contains an unknown product event"@,
            MetricsSnapshotError::DuplicateProductEvent => "metrics snapshot contains duplicate product events"@,
        }
    }

    pub fn message(self) -> (r: &'static str)
        ensures
            r@ == self.spec_message(),
    {
        match self {
            MetricsSnapshotError::SchemaMismatch => "metrics snapshot schema mismatch",
            MetricsSnapshotError::TooManySeries => "metrics snapshot contains too many series",
            MetricsSnapshotError::UnknownMethod => "metrics snapshot contains an unknown method",
            MetricsSnapshotError::UnknownRoute => "metrics snapshot contains an unknown route",
            MetricsSnapshotError::UnknownStatusClass =>
                "metrics snapshot contains an unknown status class",
            MetricsSnapshotError::InvalidHistogram =>
                "metrics snapshot contains an invalid HTTP histogram",
            MetricsSnapshotError::DuplicateHttp => "metrics snapshot contains duplicate HTTP series",
            MetricsSnapshotError::UnknownHeptaError =>
                "metrics snapshot contains an unknown Hepta error",
            MetricsSnapshotError::DuplicateHeptaError =>
                "metrics snapshot contains duplicate Hepta errors",
            MetricsSnapshotError::UnknownBridgeOperation =>
                "metrics snapshot contains an unknown Bridge operation",
            MetricsSnapshotError::UnknownBridgeOutcome =>
                "metrics snapshot contains an unknown Bridge outcome",
            MetricsSnapshotError::DuplicateBridgeEvent =>
                "metrics snapshot contains duplicate Bridge events",
            MetricsSnapshotError::UnknownInviteOutcome =>
                "metrics snapshot contains an unknown invite outcome",
            MetricsSnapshotError::DuplicateInviteOutcome =>
                "metrics snapshot contains duplicate invite outcomes",
            MetricsSnapshotError::UnknownProductEvent =>
                "metrics snapshot contains an unknown product event",
            MetricsSnapshotError::DuplicateProductEvent =>
                "metrics snapshot contains duplicate product events",
        }
    }
}

/// The filled slots among the first `n`, in slot order, with their slot.
pub open spec fn present_slots<T>(slots: Seq<Option<T>>, n: int) -> Seq<(int, T)>
    decreases n,
{
    if n <= 0 {
        Seq::empty()
    } else {
        present_slots(slots, n - 1) + match slots[n - 1] {
            Some(v) => seq![(n - 1, v)],
            None => Seq::empty(),
        }
    }
}

/// A stored list of named counters lists exactly the filled slots, in order.
pub open spec fn named_counts_match(
    items: Seq<DurableNamedCount>,
    present: Seq<(int, u64)>,
    labels: Seq<&'static str>,
) -> bool {
    &&& items.len() == present.len()
    &&& forall|k: int|
        0 <= k < items.len() ==> (#[trigger] items[k]).name@ == labels[present[k].0]@
            && items[k].count == present[k].1
}

pub open spec fn bridge_counts_match(items: Seq<DurableBridgeCount>, present: Seq<(int, u64)>) -> bool {
    &&& items.len() == present.len()
    &&& forall|k: int|
        0 <= k < items.len() ==> (#[trigger] items[k]).operation@
            == bridge_operation_labels()[present[k].0 / 4]@ && items[k].outcome@
            == bridge_outcome_labels()[present[k].0 % 4]@ && items[k].count == present[k].1
}

pub open spec fn http_series_match(items: Seq<DurableHttpSeries>, present: Seq<(int, HttpSeries)>) -> bool {
    &&& items.len() == present.len()
    &&& forall|k: int|
        0 <= k < items.len() ==> {
            let slot = present[k].0;
            let s = present[k].1;
            &&& (#[trigger] items[k]).method@ == method_labels()[slot / 220]@
            &&& items[k].route@ == series_route_labels()[(slot / 5) % 44]@
            &&& items[k].status_class@ == status_labels()[slot % 5]@
            &&& items[k].count == s.count
            &&& items[k].sum_nanos == s.sum_nanos
            &&& items[k].buckets@ == s.buckets@
        }
}

impl Metrics {
    /// `d` is the durable form of these aggregates.
    pub open spec fn snapshot_describes(self, d: DurableMetricsSnapshot) -> bool {
        &&& d.schema@ == METRICS_SNAPSHOT_SCHEMA@
        &&& d.revision == self.revision
        &&& http_series_match(d.http@, present_slots(self.http@, self.http@.len() as int))
        &&& named_counts_match(d.hepta_errors@, present_slots(self.hepta_errors@, 7), hepta_error_labels())
        &&& bridge_counts_match(d.bridge_events@, present_slots(self.bridge_events@, 12))
        &&& named_counts_match(d.invite_events@, present_slots(self.invite_events@, 5), invite_outcome_labels())
        &&& named_counts_match(d.product_events@, present_slots(self.product_events@, 2), product_event_labels())
        &&& d.stale_ui_reloads == self.stale_ui_reloads
        &&& d.match_queue_depth == self.match_queue_depth
        &&& d.match_eta_available == self.match_eta_available
        &&& d.match_eta_unavailable == self.match_eta_unavailable
        &&& d.match_snapshot_available == self.match_snapshot_available
    }
}

fn named_snapshot(slots: &Vec<Option<u64>>, labels: &[&'static str]) -> (r: Vec<DurableNamedCount>)
    requires
        slots@.len() == labels@.len(),
    ensures
        named_counts_match(r@, present_slots(slots@, slots@.len() as int), labels@),
{
    let mut out: Vec<DurableNamedCount> = Vec::new();
    let mut i: usize = 0;
    while i < slots.len()
        invariant
            i <= slots@.len(),
            slots@.len() == labels@.len(),
            named_counts_match(out@, present_slots(slots@, i as int), labels@),
        decreases slots.len() - i,
    {
        let ghost before = out@;
        if let Some(count) = slots[i] {
            out.push(DurableNamedCount { name: labels[i].to_owned(), count });
        }
        i = i + 1;
        proof {
            let p = present_slots(slots@, i as int);
            assert(p == present_slots(slots@, i - 1) + match slots@[i - 1] {
                Some(v) => seq![(i - 1, v)],
                None => Seq::<(int, u64)>::empty(),
            });
            assert forall|k: int| 0 <= k < out@.len() implies (#[trigger] out@[k]).name@
                == labels@[p[k].0]@ && out@[k].count == p[k].1 by {
                if k < before.len() {
                    assert(out@[k] == before[k]);
                }
            }
        }
    }
    out
}

fn bridge_snapshot(slots: &Vec<Option<u64>>) -> (r: Vec<DurableBridgeCount>)
    requires
        slots@.len() == 12,
    ensures
        bridge_counts_match(r@, present_slots(slots@, 12)),
{
    let operations = bridge_operation_label_list();
    let outcomes = bridge_outcome_label_list();
    let mut out: Vec<DurableBridgeCount> = Vec::new();
    let mut i: usize = 0;
    while i < 12
        invariant
            i <= 12,
            slots@.len() == 12,
            operations@ == bridge_operation_labels(),
            outcomes@ == bridge_outcome_labels(),
            bridge_counts_match(out@, present_slots(slots@, i as int)),
        decreases 12 - i,
    {
        let ghost before = out@;
        if let Some(count) = slots[i] {
            out.push(
                DurableBridgeCount {
                    operation: operations[i / 4].to_owned(),
                    outcome: outcomes[i % 4].to_owned(),
                    count,
                },
            );
        }
        i = i + 1;
        proof {
            let p = present_slots(slots@, i as int);
            assert(p == present_slots(slots@, i - 1) + match slots@[i - 1] {
                Some(v) => seq![(i - 1, v)],
                None => Seq::<(int, u64)>::empty(),
            });
            assert forall|k: int| 0 <= k < out@.len() implies (#[trigger] out@[k]).operation@
                == bridge_operation_labels()[p[k].0 / 4]@ && out@[k].outcome@
                == bridge_outcome_labels()[p[k].0 % 4]@ && out@[k].count == p[k].1 by {
                if k < before.len() {
                    assert(out@[k] == before[k]);
                }
            }
        }
    }
    out
}

fn http_snapshot(slots: &Vec<Option<HttpSeries>>) -> (r: Vec<DurableHttpSeries>)
    requires
        slots@.len() == HTTP_SERIES_SLOTS,
    ensures
        http_series_match(r@, present_slots(slots@, slots@.len() as int)),
{
    let methods = method_label_list();
    let routes = series_route_label_list();
    let statuses = status_label_list();
    let mut out: Vec<DurableHttpSeries> = Vec::new();
    let mut i: usize = 0;
    while i < HTTP_SERIES_SLOTS
        invariant
            i <= HTTP_SERIES_SLOTS,
            slots@.len() == HTTP_SERIES_SLOTS,
            methods@ == method_labels(),
            routes@ == series_route_labels(),
            statuses@ == status_labels(),
            http_series_match(out@, present_slots(slots@, i as int)),
        decreases HTTP_SERIES_SLOTS - i,
    {
        let ghost before = out@;
        if let Some(s) = slots[i] {
            let mut buckets: Vec<u64> = Vec::new();
            let mut b: usize = 0;
            while b < 11
                invariant
                    b <= 11,
                    buckets@ == s.buckets@.take(b as int),
                decreases 11 - b,
            {
                buckets.push(s.buckets[b]);
                b = b + 1;
                assert(buckets@ =~= s.buckets@.take(b as int));
            }
            assert(buckets@ =~= s.buckets@);
            out.push(
                DurableHttpSeries {
                    method: methods[i / 220].to_owned(),
                    route: routes[(i / 5) % 44].to_owned(),
                    status_class: statuses[i % 5].to_owned(),
                    count: s.count,
                    sum_nanos: s.sum_nanos,
                    buckets,
                },
            );
        }
        i = i + 1;
        proof {
            let p = present_slots(slots@, i as int);
            assert(p == present_slots(slots@, i - 1) + match slots@[i - 1] {
                Some(v) => seq![(i - 1, v)],
                None => Seq::<(int, HttpSeries)>::empty(),
            });
            assert forall|k: int| 0 <= k < out@.len() implies {
                let slot = p[k].0;
                let s = p[k].1;
                &&& (#[trigger] out@[k]).method@ == method_labels()[slot / 220]@
                &&& out@[k].route@ == series_route_labels()[(slot / 5) % 44]@
                &&& out@[k].status_class@ == status_labels()[slot % 5]@
                &&& out@[k].count == s.count
                &&& out@[k].sum_nanos == s.sum_nanos
                &&& out@[k].buckets@ == s.buckets@
            } by {
                if k < before.len() {
                    assert(out@[k] == before[k]);
                }
            }
        }
    }
    out
}

impl Metrics {
    /// The durable form of the aggregates and the revision it holds.
    pub fn snapshot_with_revision(&self) -> (r: (DurableMetricsSnapshot, u64))
        requires
            self.wf(),
        ensures
            self.snapshot_describes(r.0),
            r.1 == self.revision,
    {
        let snapshot = DurableMetricsSnapshot {
            schema: METRICS_SNAPSHOT_SCHEMA.to_owned(),
            revision: self.revision,
            http: http_snapshot(&self.http),
            hepta_errors: named_snapshot(&self.hepta_errors, &hepta_error_label_list()),
            bridge_events: bridge_snapshot(&self.bridge_events),
            invite_events: named_snapshot(&self.invite_events, &invite_outcome_label_list()),
            product_events: named_snapshot(&self.product_events, &product_event_label_list()),
            stale_ui_reloads: self.stale_ui_reloads,
            match_queue_depth: self.match_queue_depth,
            match_eta_available: self.match_eta_available,
            match_eta_unavailable: self.match_eta_unavailable,
            match_snapshot_available: self.match_snapshot_available,
        };
        (snapshot, self.revision)
    }

    pub fn snapshot_json(&self) -> (r: DurableMetricsSnapshot)
        requires
            self.wf(),
        ensures
            self.snapshot_describes(r),
    {
        self.snapshot_with_revision().0
    }
}

} // verus!

verus! {

/// Why item `k` of a stored list of named counters is refused, given that
/// the items before it were accepted.
pub open spec fn named_item_error(
    items: Seq<DurableNamedCount>,
    k: int,
    labels: Seq<&'static str>,
    unknown: MetricsSnapshotError,
    duplicate: MetricsSnapshotError,
) -> Option<MetricsSnapshotError> {
    match label_index(labels, items[k].name@) {
        None => Some(unknown),
        Some(i) => if exists|j: int|
            0 <= j < k && #[trigger] label_index(labels, items[j].name@) == Some(i) {
            Some(duplicate)
        } else {
            None
        },
    }
}

/// The first refusal among the first `n` named counters.
pub open spec fn named_error_upto(
    items: Seq<DurableNamedCount>,
    n: int,
    labels: Seq<&'static str>,
    unknown: MetricsSnapshotError,
    duplicate: MetricsSnapshotError,
) -> Option<MetricsSnapshotError>
    decreases n,
{
    if n <= 0 {
        None
    } else {
        match named_error_upto(items, n - 1, labels, unknown, duplicate) {
            Some(e) => Some(e),
            None => named_item_error(items, n - 1, labels, unknown, duplicate),
        }
    }
}

/// The slots hold exactly the first `n` counters, each at its label.
pub open spec fn named_slots_from(
    slots: Seq<Option<u64>>,
    items: Seq<DurableNamedCount>,
    n: int,
    labels: Seq<&'static str>,
) -> bool {
    &&& forall|k: int|
        0 <= k < n ==> (#[trigger] label_index(labels, items[k].name@) matches Some(i) && slots[i]
            == Some(items[k].count))
    &&& forall|i: int|
        0 <= i < slots.len() && (#[trigger] slots[i]) is Some ==> exists|k: int|
            0 <= k < n && label_index(labels, items[k].name@) == Some(i)
}

proof fn lemma_named_error_sticks(
    items: Seq<DurableNamedCount>,
    n: int,
    m: int,
    labels: Seq<&'static str>,
    unknown: MetricsSnapshotError,
    duplicate: MetricsSnapshotError,
)
    requires
        0 <= n <= m,
        named_error_upto(items, n, labels, unknown, duplicate) is Some,
    ensures
        named_error_upto(items, m, labels, unknown, duplicate) == named_error_upto(
            items,
            n,
            labels,
            unknown,
            duplicate,
        ),
    decreases m - n,
{
    if m > n {
        lemma_named_error_sticks(items, n, m - 1, labels, unknown, duplicate);
    }
}

proof fn lemma_label_index_bounds(labels: Seq<&'static str>, value: Seq<char>)
    ensures
        label_index(labels, value) matches Some(i) ==> 0 <= i < labels.len() && labels[i]@
            == value,
{
    if exists|i: int| is_first_label(labels, value, i) {
        let i = choose|i: int| is_first_label(labels, value, i);
        assert(is_first_label(labels, value, i));
    }
}

#[verifier::spinoff_prover]
fn restore_named(
    items: &Vec<DurableNamedCount>,
    labels: &[&'static str],
    unknown: MetricsSnapshotError,
    duplicate: MetricsSnapshotError,
) -> (r: Result<Vec<Option<u64>>, MetricsSnapshotError>)
    ensures
        match named_error_upto(items@, items@.len() as int, labels@, unknown, duplicate) {
            Some(e) => r == Err::<Vec<Option<u64>>, MetricsSnapshotError>(e),
            None => r matches Ok(slots) && slots@.len() == labels@.len() && named_slots_from(
                slots@,
                items@,
                items@.len() as int,
                labels@,
            ),
        },
{
    let mut slots: Vec<Option<u64>> = Vec::new();
    let mut s: usize = 0;
    while s < labels.len()
        invariant
            s <= labels@.len(),
            slots@.len() == s,
            forall|k: int| 0 <= k < s ==> #[trigger] slots@[k] is None,
        decreases labels.len() - s,
    {
        slots.push(None);
        s = s + 1;
    }
    let mut i: usize = 0;
    while i < items.len()
        invariant
            i <= items@.len(),
            slots@.len() == labels@.len(),
            named_error_upto(items@, i as int, labels@, unknown, duplicate) is None,
            named_slots_from(slots@, items@, i as int, labels@),
        decreases items.len() - i,
    {
        proof {
            lemma_label_index_bounds(labels@, items@[i as int].name@);
        }
        let idx = match find_index(labels, items[i].name.as_str()) {
            Some(idx) => idx,
            None => {
                proof {
                    assert(named_error_upto(items@, i + 1, labels@, unknown, duplicate) == Some(
                        unknown,
                    ));
                    lemma_named_error_sticks(
                        items@,
                        i + 1,
                        items@.len() as int,
                        labels@,
                        unknown,
                        duplicate,
                    );
                }
                return Err(unknown);
            },
        };
        if slots[idx].is_some() {
            proof {
                let k = choose|k: int|
                    0 <= k < i && label_index(labels@, items@[k].name@) == Some(idx as int);
                assert(label_index(labels@, items@[k].name@) == Some(idx as int));
                assert(named_error_upto(items@, i + 1, labels@, unknown, duplicate) == Some(
                    duplicate,
                ));
                lemma_named_error_sticks(
                    items@,
                    i + 1,
                    items@.len() as int,
                    labels@,
                    unknown,
                    duplicate,
                );
            }
            return Err(duplicate);
        }
        let ghost before = slots@;
        slots.set(idx, Some(items[i].count));
        proof {
            assert(!exists|j: int|
                0 <= j < i && #[trigger] label_index(labels@, items@[j].name@) == Some(
                    idx as int,
                )) by {
                if exists|j: int|
                    0 <= j < i && #[trigger] label_index(labels@, items@[j].name@) == Some(
                        idx as int,
                    ) {
                    let j = choose|j: int|
                        0 <= j < i && #[trigger] label_index(labels@, items@[j].name@) == Some(
                            idx as int,
                        );
                    assert(before[idx as int] is Some);
                }
            }
            assert forall|k: int| 0 <= k < i + 1 implies (#[trigger] label_index(
                labels@,
                items@[k].name@,
            ) matches Some(x) && slots@[x] == Some(items@[k].count)) by {
                if k < i {
                    let x = label_index(labels@, items@[k].name@)->0;
                    assert(x != idx);
                }
            }
            assert forall|x: int| 0 <= x < slots@.len() && (#[trigger] slots@[x]) is Some implies exists|
                k: int,
            | 0 <= k < i + 1 && label_index(labels@, items@[k].name@) == Some(x) by {
                if x != idx {
                    assert(before[x] is Some);
                    let k = choose|k: int|
                        0 <= k < i && label_index(labels@, items@[k].name@) == Some(x);
                    assert(0 <= k < i + 1 && label_index(labels@, items@[k].name@) == Some(x));
                } else {
                    assert(label_index(labels@, items@[i as int].name@) == Some(x));
                }
            }
        }
        i = i + 1;
    }
    Ok(slots)
}

} // verus!

verus! {

/// Why Bridge counter `k` is refused, given that the ones before it were accepted.
pub open spec fn bridge_item_error(items: Seq<DurableBridgeCount>, k: int) -> Option<
    MetricsSnapshotError,
> {
    match label_index(bridge_operation_labels(), items[k].operation@) {
        None => Some(MetricsSnapshotError::UnknownBridgeOperation),
        Some(op) => match label_index(bridge_outcome_labels(), items[k].outcome@) {
            None => Some(MetricsSnapshotError::UnknownBridgeOutcome),
            Some(out) => if exists|j: int|
                0 <= j < k && #[trigger] bridge_item_slot(items[j]) == Some(bridge_slot(op, out)) {
                Some(MetricsSnapshotError::DuplicateBridgeEvent)
            } else {
                None
            },
        },
    }
}

/// The slot a Bridge counter belongs in, if its labels are known.
pub open spec fn bridge_item_slot(item: DurableBridgeCount) -> Option<int> {
    match label_index(bridge_operation_labels(), item.operation@) {
        Some(op) => match label_index(bridge_outcome_labels(), item.outcome@) {
            Some(out) => Some(bridge_slot(op, out)),
            None => None,
        },
        None => None,
    }
}

pub open spec fn bridge_error_upto(items: Seq<DurableBridgeCount>, n: int) -> Option<
    MetricsSnapshotError,
>
    decreases n,
{
    if n <= 0 {
        None
    } else {
        match bridge_error_upto(items, n - 1) {
            Some(e) => Some(e),
            None => bridge_item_error(items, n - 1),
        }
    }
}

pub open spec fn bridge_slots_from(
    slots: Seq<Option<u64>>,
    items: Seq<DurableBridgeCount>,
    n: int,
) -> bool {
    &&& forall|k: int|
        0 <= k < n ==> (#[trigger] bridge_item_slot(items[k]) matches Some(i) && slots[i] == Some(
            items[k].count,
        ))
    &&& forall|i: int|
        0 <= i < slots.len() && (#[trigger] slots[i]) is Some ==> exists|k: int|
            0 <= k < n && bridge_item_slot(items[k]) == Some(i)
}

proof fn lemma_bridge_error_sticks(items: Seq<DurableBridgeCount>, n: int, m: int)
    requires
        0 <= n <= m,
        bridge_error_upto(items, n) is Some,
    ensures
        bridge_error_upto(items, m) == bridge_error_upto(items, n),
    decreases m - n,
{
    if m > n {
        lemma_bridge_error_sticks(items, n, m - 1);
    }
}

#[verifier::spinoff_prover]
fn restore_bridge(items: &Vec<DurableBridgeCount>) -> (r: Result<
    Vec<Option<u64>>,
    MetricsSnapshotError,
>)
    ensures
        match bridge_error_upto(items@, items@.len() as int) {
            Some(e) => r == Err::<Vec<Option<u64>>, MetricsSnapshotError>(e),
            None => r matches Ok(slots) && slots@.len() == 12 && bridge_slots_from(
                slots@,
                items@,
                items@.len() as int,
            ),
        },
{
    let operations = bridge_operation_label_list();
    let outcomes = bridge_outcome_label_list();
    let mut slots: Vec<Option<u64>> = vec![None, None, None, None, None, None, None, None, None, None, None, None];
    let mut i: usize = 0;
    while i < items.len()
        invariant
            i <= items@.len(),
            operations@ == bridge_operation_labels(),
            outcomes@ == bridge_outcome_labels(),
            slots@.len() == 12,
            bridge_error_upto(items@, i as int) is None,
            bridge_slots_from(slots@, items@, i as int),
        decreases items.len() - i,
    {
        proof {
            lemma_label_index_bounds(bridge_operation_labels(), items@[i as int].operation@);
            lemma_label_index_bounds(bridge_outcome_labels(), items@[i as int].outcome@);
        }
        let op = match find_index(&operations, items[i].operation.as_str()) {
            Some(op) => op,
            None => {
                proof {
                    lemma_bridge_error_sticks(items@, i + 1, items@.len() as int);
                }
                return Err(MetricsSnapshotError::UnknownBridgeOperation);
            },
        };
        let out = match find_index(&outcomes, items[i].outcome.as_str()) {
            Some(out) => out,
            None => {
                proof {
                    lemma_bridge_error_sticks(items@, i + 1, items@.len() as int);
                }
                return Err(MetricsSnapshotError::UnknownBridgeOutcome);
            },
        };
        let idx = op * 4 + out;
        assert(bridge_item_slot(items@[i as int]) == Some(idx as int));
        if slots[idx].is_some() {
            proof {
                let k = choose|k: int|
                    0 <= k < i && bridge_item_slot(items@[k]) == Some(idx as int);
                assert(bridge_item_slot(items@[k]) == Some(idx as int));
                assert(bridge_error_upto(items@, i + 1) == Some(
                    MetricsSnapshotError::DuplicateBridgeEvent,
                ));
                lemma_bridge_error_sticks(items@, i + 1, items@.len() as int);
            }
            return Err(MetricsSnapshotError::DuplicateBridgeEvent);
        }
        let ghost before = slots@;
        slots.set(idx, Some(items[i].count));
        proof {
            assert(!exists|j: int|
                0 <= j < i && #[trigger] bridge_item_slot(items@[j]) == Some(idx as int)) by {
                if exists|j: int|
                    0 <= j < i && #[trigger] bridge_item_slot(items@[j]) == Some(idx as int) {
                    let j = choose|j: int|
                        0 <= j < i && #[trigger] bridge_item_slot(items@[j]) == Some(idx as int);
                    assert(before[idx as int] is Some);
                }
            }
            assert forall|k: int| 0 <= k < i + 1 implies (#[trigger] bridge_item_slot(
                items@[k],
            ) matches Some(x) && slots@[x] == Some(items@[k].count)) by {
                if k < i {
                    let x = bridge_item_slot(items@[k])->0;
                    assert(x != idx);
                }
            }
            assert forall|x: int| 0 <= x < slots@.len() && (#[trigger] slots@[x]) is Some implies exists|
                k: int,
            | 0 <= k < i + 1 && bridge_item_slot(items@[k]) == Some(x) by {
                if x != idx {
                    assert(before[x] is Some);
                    let k = choose|k: int| 0 <= k < i && bridge_item_slot(items@[k]) == Some(x);
                    assert(0 <= k < i + 1 && bridge_item_slot(items@[k]) == Some(x));
                } else {
                    assert(bridge_item_slot(items@[i as int]) == Some(x));
                }
            }
        }
        i = i + 1;
    }
    Ok(slots)
}

} // verus!

verus! {

/// A stored histogram has one bucket per bound, is cumulative, and never
/// exceeds the request count.
pub open spec fn histogram_valid(item: DurableHttpSeries) -> bool {
    &&& item.buckets@.len() == 11
    &&& forall|k: int| 0 <= k < 11 ==> #[trigger] item.buckets@[k] <= item.count
    &&& forall|k: int| 0 <= k < 10 ==> #[trigger] item.buckets@[k] <= item.buckets@[k + 1]
}

/// The slot an HTTP series belongs in, if its labels are known.
pub open spec fn http_item_slot(item: DurableHttpSeries) -> Option<int> {
    match label_index(method_labels(), item.method@) {
        Some(m) => match label_index(series_route_labels(), item.route@) {
            Some(r) => match label_index(status_labels(), item.status_class@) {
                Some(s) => Some(http_slot(m, r, s)),
                None => None,
            },
            None => None,
        },
        None => None,
    }
}

/// Why HTTP series `k` is refused, given that the ones before it were accepted.
pub open spec fn http_item_error(items: Seq<DurableHttpSeries>, k: int) -> Option<
    MetricsSnapshotError,
> {
    if label_index(method_labels(), items[k].method@) is None {
        Some(MetricsSnapshotError::UnknownMethod)
    } else if label_index(series_route_labels(), items[k].route@) is None {
        Some(MetricsSnapshotError::UnknownRoute)
    } else if label_index(status_labels(), items[k].status_class@) is None {
        Some(MetricsSnapshotError::UnknownStatusClass)
    } else if !histogram_valid(items[k]) {
        Some(MetricsSnapshotError::InvalidHistogram)
    } else if exists|j: int|
        0 <= j < k && #[trigger] http_item_slot(items[j]) == http_item_slot(items[k]) {
        Some(MetricsSnapshotError::DuplicateHttp)
    } else {
        None
    }
}

pub open spec fn http_error_upto(items: Seq<DurableHttpSeries>, n: int) -> Option<
    MetricsSnapshotError,
>
    decreases n,
{
    if n <= 0 {
        None
    } else {
        match http_error_upto(items, n - 1) {
            Some(e) => Some(e),
            None => http_item_error(items, n - 1),
        }
    }
}

/// The series holds exactly the stored values.
pub open spec fn series_holds(s: HttpSeries, item: DurableHttpSeries) -> bool {
    s.count == item.count && s.sum_nanos == item.sum_nanos && s.buckets@ == item.buckets@
}

pub open spec fn http_slots_from(
    slots: Seq<Option<HttpSeries>>,
    items: Seq<DurableHttpSeries>,
    n: int,
) -> bool {
    &&& forall|k: int|
        0 <= k < n ==> (#[trigger] http_item_slot(items[k]) matches Some(i) && slots[i] matches Some(
            s,
        ) && series_holds(s, items[k]))
    &&& forall|i: int|
        0 <= i < slots.len() && (#[trigger] slots[i]) is Some ==> exists|k: int|
            0 <= k < n && http_item_slot(items[k]) == Some(i)
}

proof fn lemma_http_error_sticks(items: Seq<DurableHttpSeries>, n: int, m: int)
    requires
        0 <= n <= m,
        http_error_upto(items, n) is Some,
    ensures
        http_error_upto(items, m) == http_error_upto(items, n),
    decreases m - n,
{
    if m > n {
        lemma_http_error_sticks(items, n, m - 1);
    }
}

proof fn lemma_adjacent_monotone(b: Seq<u64>, i: int, j: int)
    requires
        b.len() == 11,
        forall|k: int| 0 <= k < 10 ==> #[trigger] b[k] <= b[k + 1],
        0 <= i <= j < 11,
    ensures
        b[i] <= b[j],
    decreases j - i,
{
    if i < j {
        lemma_adjacent_monotone(b, i, j - 1);
        assert(b[j - 1] <= b[j]);
    }
}

fn histogram_ok(item: &DurableHttpSeries) -> (r: bool)
    ensures
        r == histogram_valid(*item),
{
    if item.buckets.len() != 11 {
        return false;
    }
    let mut k: usize = 0;
    while k < 11
        invariant
            k <= 11,
            item.buckets@.len() == 11,
            forall|a: int| 0 <= a < k ==> #[trigger] item.buckets@[a] <= item.count,
            forall|a: int| 0 <= a < k && a < 10 ==> #[trigger] item.buckets@[a] <= item.buckets@[a
                + 1],
        decreases 11 - k,
    {
        if item.buckets[k] > item.count {
            return false;
        }
        if k < 10 && item.buckets[k + 1] < item.buckets[k] {
            return false;
        }
        k = k + 1;
    }
    true
}

fn series_from(item: &DurableHttpSeries) -> (r: HttpSeries)
    requires
        histogram_valid(*item),
    ensures
        series_holds(r, *item),
        r.wf(),
{
    let mut buckets: [u64; 11] = [0u64; 11];
    let mut k: usize = 0;
    while k < 11
        invariant
            k <= 11,
            item.buckets@.len() == 11,
            forall|a: int| 0 <= a < k ==> #[trigger] buckets@[a] == item.buckets@[a],
        decreases 11 - k,
    {
        buckets[k] = item.buckets[k];
        k = k + 1;
    }
    assert(buckets@ =~= item.buckets@);
    let r = HttpSeries { count: item.count, sum_nanos: item.sum_nanos, buckets };
    assert forall|i: int, j: int| 0 <= i <= j < 11 implies #[trigger] r.buckets@[i]
        <= #[trigger] r.buckets@[j] by {
        lemma_adjacent_monotone(item.buckets@, i, j);
    }
    r
}

#[verifier::spinoff_prover]
#[verifier::rlimit(40)]
fn restore_http(items: &Vec<DurableHttpSeries>) -> (r: Result<
    Vec<Option<HttpSeries>>,
    MetricsSnapshotError,
>)
    ensures
        match http_error_upto(items@, items@.len() as int) {
            Some(e) => r == Err::<Vec<Option<HttpSeries>>, MetricsSnapshotError>(e),
            None => r matches Ok(slots) && slots@.len() == HTTP_SERIES_SLOTS && http_slots_from(
                slots@,
                items@,
                items@.len() as int,
            ) && forall|i: int| 0 <= i < slots@.len() ==> (#[trigger] slots@[i] matches Some(s)
                ==> s.wf()),
        },
{
    let methods = method_label_list();
    let routes = series_route_label_list();
    let statuses = status_label_list();
    let mut slots: Vec<Option<HttpSeries>> = Vec::new();
    let mut s: usize = 0;
    while s < HTTP_SERIES_SLOTS
        invariant
            s <= HTTP_SERIES_SLOTS,
            slots@.len() == s,
            forall|k: int| 0 <= k < s ==> #[trigger] slots@[k] is None,
        decreases HTTP_SERIES_SLOTS - s,
    {
        slots.push(None);
        s = s + 1;
    }
    let mut i: usize = 0;
    while i < items.len()
        invariant
            i <= items@.len(),
            methods@ == method_labels(),
            routes@ == series_route_labels(),
            statuses@ == status_labels(),
            slots@.len() == HTTP_SERIES_SLOTS,
            http_error_upto(items@, i as int) is None,
            http_slots_from(slots@, items@, i as int),
            forall|x: int| 0 <= x < slots@.len() ==> (#[trigger] slots@[x] matches Some(s) ==> s.wf()),
        decreases items.len() - i,
    {
        proof {
            lemma_label_index_bounds(method_labels(), items@[i as int].method@);
            lemma_label_index_bounds(series_route_labels(), items@[i as int].route@);
            lemma_label_index_bounds(status_labels(), items@[i as int].status_class@);
        }
        let m = match find_index(&methods, items[i].method.as_str()) {
            Some(m) => m,
            None => {
                proof {
                    lemma_http_error_sticks(items@, i + 1, items@.len() as int);
                }
                return Err(MetricsSnapshotError::UnknownMethod);
            },
        };
        let r = match find_index(&routes, items[i].route.as_str()) {
            Some(r) => r,
            None => {
                proof {
                    lemma_http_error_sticks(items@, i + 1, items@.len() as int);
                }
                return Err(MetricsSnapshotError::UnknownRoute);
            },
        };
        let st = match find_index(&statuses, items[i].status_class.as_str()) {
            Some(st) => st,
            None => {
                proof {
                    lemma_http_error_sticks(items@, i + 1, items@.len() as int);
                }
                return Err(MetricsSnapshotError::UnknownStatusClass);
            },
        };
        if !histogram_ok(&items[i]) {
            proof {
                lemma_http_error_sticks(items@, i + 1, items@.len() as int);
            }
            return Err(MetricsSnapshotError::InvalidHistogram);
        }
        let idx = (m * 44 + r) * 5 + st;
        assert(http_item_slot(items@[i as int]) == Some(idx as int));
        if slots[idx].is_some() {
            proof {
                let k = choose|k: int| 0 <= k < i && http_item_slot(items@[k]) == Some(idx as int);
                assert(http_item_slot(items@[k]) == http_item_slot(items@[i as int]));
                assert(http_error_upto(items@, i + 1) == Some(MetricsSnapshotError::DuplicateHttp));
                lemma_http_error_sticks(items@, i + 1, items@.len() as int);
            }
            return Err(MetricsSnapshotError::DuplicateHttp);
        }
        let series = series_from(&items[i]);
        let ghost before = slots@;
        slots.set(idx, Some(series));
        proof {
            assert(!exists|j: int|
                0 <= j < i && #[trigger] http_item_slot(items@[j]) == http_item_slot(
                    items@[i as int],
                )) by {
                if exists|j: int|
                    0 <= j < i && #[trigger] http_item_slot(items@[j]) == http_item_slot(
                        items@[i as int],
                    ) {
                    let j = choose|j: int|
                        0 <= j < i && #[trigger] http_item_slot(items@[j]) == http_item_slot(
                            items@[i as int],
                        );
                    assert(http_item_slot(items@[j]) matches Some(x) && before[x] is Some);
                }
            }
            assert forall|k: int| 0 <= k < i + 1 implies (#[trigger] http_item_slot(
                items@[k],
            ) matches Some(x) && slots@[x] matches Some(s) && series_holds(s, items@[k])) by {
                if k < i {
                    let x = http_item_slot(items@[k])->0;
                    assert(x != idx);
                }
            }
            assert forall|x: int| 0 <= x < slots@.len() && (#[trigger] slots@[x]) is Some implies exists|
                k: int,
            | 0 <= k < i + 1 && http_item_slot(items@[k]) == Some(x) by {
                if x != idx {
                    assert(before[x] is Some);
                    let k = choose|k: int| 0 <= k < i && http_item_slot(items@[k]) == Some(x);
                    assert(0 <= k < i + 1 && http_item_slot(items@[k]) == Some(x));
                } else {
                    assert(http_item_slot(items@[i as int]) == Some(x));
                }
            }
        }
        i = i + 1;
    }
    Ok(slots)
}

} // verus!

verus! {

/// Why a stored snapshot cannot be restored, in the order the checks run.
pub open spec fn snapshot_error(d: DurableMetricsSnapshot) -> Option<MetricsSnapshotError> {
    if d.schema@ != METRICS_SNAPSHOT_SCHEMA@ {
        Some(MetricsSnapshotError::SchemaMismatch)
    } else if d.http@.len() > MAX_SNAPSHOT_SERIES || d.hepta_errors@.len() > MAX_SNAPSHOT_SERIES
        || d.bridge_events@.len() > MAX_SNAPSHOT_SERIES || d.invite_events@.len()
        > MAX_SNAPSHOT_SERIES || d.product_events@.len() > MAX_SNAPSHOT_SERIES {
        Some(MetricsSnapshotError::TooManySeries)
    } else if http_error_upto(d.http@, d.http@.len() as int) is Some {
        http_error_upto(d.http@, d.http@.len() as int)
    } else if named_error_upto(
        d.hepta_errors@,
        d.hepta_errors@.len() as int,
        hepta_error_labels(),
        MetricsSnapshotError::UnknownHeptaError,
        MetricsSnapshotError::DuplicateHeptaError,
    ) is Some {
        named_error_upto(
            d.hepta_errors@,
            d.hepta_errors@.len() as int,
            hepta_error_labels(),
            MetricsSnapshotError::UnknownHeptaError,
            MetricsSnapshotError::DuplicateHeptaError,
        )
    } else if bridge_error_upto(d.bridge_events@, d.bridge_events@.len() as int) is Some {
        bridge_error_upto(d.bridge_events@, d.bridge_events@.len() as int)
    } else if named_error_upto(
        d.invite_events@,
        d.invite_events@.len() as int,
        invite_outcome_labels(),
        MetricsSnapshotError::UnknownInviteOutcome,
        MetricsSnapshotError::DuplicateInviteOutcome,
    ) is Some {
        named_error_upto(
            d.invite_events@,
            d.invite_events@.len() as int,
            invite_outcome_labels(),
            MetricsSnapshotError::UnknownInviteOutcome,
            MetricsSnapshotError::DuplicateInviteOutcome,
        )
    } else {
        named_error_upto(
            d.product_events@,
            d.product_events@.len() as int,
            product_event_labels(),
            MetricsSnapshotError::UnknownProductEvent,
            MetricsSnapshotError::DuplicateProductEvent,
        )
    }
}

impl Metrics {
    /// These aggregates are the ones that a stored snapshot holds, freshly
    /// loaded: clean, loaded and persisted at the stored revision.
    pub open spec fn restored_from(self, d: DurableMetricsSnapshot) -> bool {
        &&& self.wf()
        &&& http_slots_from(self.http@, d.http@, d.http@.len() as int)
        &&& named_slots_from(
            self.hepta_errors@,
            d.hepta_errors@,
            d.hepta_errors@.len() as int,
            hepta_error_labels(),
        )
        &&& bridge_slots_from(self.bridge_events@, d.bridge_events@, d.bridge_events@.len() as int)
        &&& named_slots_from(
            self.invite_events@,
            d.invite_events@,
            d.invite_events@.len() as int,
            invite_outcome_labels(),
        )
        &&& named_slots_from(
            self.product_events@,
            d.product_events@,
            d.product_events@.len() as int,
            product_event_labels(),
        )
        &&& self.stale_ui_reloads == d.stale_ui_reloads
        &&& self.match_queue_depth == d.match_queue_depth
        &&& self.match_eta_available == d.match_eta_available
        &&& self.match_eta_unavailable == d.match_eta_unavailable
        &&& self.match_snapshot_available == d.match_snapshot_available
        &&& self.revision == d.revision
        &&& !self.dirty
        &&& self.snapshot_loaded
        &&& self.snapshot_persisted
    }

    /// Restores only the exact bounded schema that `snapshot_with_revision`
    /// emits. Stored contents are untrusted: unknown labels, duplicate series
    /// and impossible histograms are refused and leave the aggregates as they were.
    pub fn restore_snapshot(&mut self, durable: &DurableMetricsSnapshot) -> (r: Result<
        (),
        MetricsSnapshotError,
    >)
        ensures
            match snapshot_error(*durable) {
                Some(e) => r == Err::<(), MetricsSnapshotError>(e) && *final(self) == *old(self),
                None => r is Ok && final(self).restored_from(*durable),
            },
    {
        if !str_eq(durable.schema.as_str(), METRICS_SNAPSHOT_SCHEMA) {
            return Err(MetricsSnapshotError::SchemaMismatch);
        }
        if durable.http.len() > MAX_SNAPSHOT_SERIES || durable.hepta_errors.len()
            > MAX_SNAPSHOT_SERIES || durable.bridge_events.len() > MAX_SNAPSHOT_SERIES
            || durable.invite_events.len() > MAX_SNAPSHOT_SERIES || durable.product_events.len()
            > MAX_SNAPSHOT_SERIES {
            return Err(MetricsSnapshotError::TooManySeries);
        }
        let http = restore_http(&durable.http)?;
        let hepta_errors = restore_named(
            &durable.hepta_errors,
            &hepta_error_label_list(),
            MetricsSnapshotError::UnknownHeptaError,
            MetricsSnapshotError::DuplicateHeptaError,
        )?;
        let bridge_events = restore_bridge(&durable.bridge_events)?;
        let invite_events = restore_named(
            &durable.invite_events,
            &invite_outcome_label_list(),
            MetricsSnapshotError::UnknownInviteOutcome,
            MetricsSnapshotError::DuplicateInviteOutcome,
        )?;
        let product_events = restore_named(
            &durable.product_events,
            &product_event_label_list(),
            MetricsSnapshotError::UnknownProductEvent,
            MetricsSnapshotError::DuplicateProductEvent,
        )?;
        self.http = http;
        self.hepta_errors = hepta_errors;
        self.bridge_events = bridge_events;
        self.invite_events = invite_events;
        self.product_events = product_events;
        self.stale_ui_reloads = durable.stale_ui_reloads;
        self.match_queue_depth = durable.match_queue_depth;
        self.match_eta_available = durable.match_eta_available;
        self.match_eta_unavailable = durable.match_eta_unavailable;
        self.match_snapshot_available = durable.match_snapshot_available;
        self.revision = durable.revision;
        self.dirty = false;
        self.snapshot_loaded = true;
        self.snapshot_persisted = true;
        Ok(())
    }
}

} // verus!

verus! {

/// The text of each latency bound, in seconds.
pub open spec fn bound_labels() -> Seq<&'static str> {
    seq!["0.005", "0.01", "0.025", "0.05", "0.1", "0.25", "0.5", "1", "2.5", "5", "10"]
}

fn bound_label_list() -> (r: [&'static str; 11])
    ensures
        r@ == bound_labels(),
{
    let r: [&'static str; 11] = [
        "0.005",
        "0.01",
        "0.025",
        "0.05",
        "0.1",
        "0.25",
        "0.5",
        "1",
        "2.5",
        "5",
        "10",
    ];
    assert(r@ =~= bound_labels());
    r
}

/// The last `width` decimal digits of `n`, zero-padded.
pub open spec fn padded_digits(n: nat, width: nat) -> Seq<char>
    decreases width,
{
    if width == 0 {
        Seq::empty()
    } else {
        padded_digits(n / 10, (width - 1) as nat) + seq![hex_digit((n % 10) as u8)]
    }
}

/// A nanosecond total as seconds with six decimals, rounded to the nearest
/// microsecond (halves up).
pub open spec fn seconds_text(nanos: u64) -> Seq<char> {
    let micros = (nanos as nat + 500) / 1000;
    decimal(micros / 1_000_000) + "."@ + padded_digits(micros % 1_000_000, 6)
}

fn push_padded(out: &mut Vec<char>, n: u64, width: usize)
    requires
        width <= 20,
    ensures
        final(out)@ == old(out)@ + padded_digits(n as nat, width as nat),
    decreases width,
{
    if width > 0 {
        push_padded(out, n / 10, width - 1);
        out.push(hex_digit_exec((n % 10) as u8));
    }
}

fn push_seconds(out: &mut Vec<char>, nanos: u64)
    ensures
        final(out)@ == old(out)@ + seconds_text(nanos),
{
    let micros: u64 = ((nanos as u128 + 500) / 1000) as u64;
    push_decimal(out, micros / 1_000_000);
    push_str(out, ".");
    push_padded(out, micros % 1_000_000, 6);
    proof {
        reveal_strlit(".");
    }
}

/// `method="…",route="…",status_class="…"` for a series slot.
pub open spec fn series_labels_text(slot: int) -> Seq<char> {
    "method=\""@ + method_labels()[slot / 220]@ + "\",route=\""@ + series_route_labels()[(slot / 5)
        % 44]@ + "\",status_class=\""@ + status_labels()[slot % 5]@ + "\""@
}

/// One exposition line: `{prefix}{labels}{mid}{value}` and a newline.
pub open spec fn metric_line(prefix: Seq<char>, labels: Seq<char>, mid: Seq<char>, value: Seq<char>) -> Seq<char> {
    prefix + labels + mid + value + "\n"@
}

/// The bucket lines of a series, bounds `0..n`.
pub open spec fn bucket_lines(labels: Seq<char>, s: HttpSeries, n: int) -> Seq<char>
    decreases n,
{
    if n <= 0 {
        Seq::empty()
    } else {
        bucket_lines(labels, s, n - 1) + metric_line(
            "paper_raid_bff_http_request_duration_seconds_bucket{"@,
            labels,
            ",le=\""@ + bound_labels()[n - 1]@ + "\"} "@,
            decimal(s.buckets@[n - 1] as nat),
        )
    }
}

/// The lines of one HTTP series: total, cumulative buckets, `+Inf`, sum and count.
pub open spec fn series_text(slot: int, s: HttpSeries) -> Seq<char> {
    let labels = series_labels_text(slot);
    metric_line("paper_raid_bff_http_requests_total{"@, labels, "} "@, decimal(s.count as nat))
        + bucket_lines(labels, s, 11) + metric_line(
        "paper_raid_bff_http_request_duration_seconds_bucket{"@,
        labels,
        ",le=\"+Inf\"} "@,
        decimal(s.count as nat),
    ) + metric_line(
        "paper_raid_bff_http_request_duration_seconds_sum{"@,
        labels,
        "} "@,
        seconds_text(s.sum_nanos),
    ) + metric_line(
        "paper_raid_bff_http_request_duration_seconds_count{"@,
        labels,
        "} "@,
        decimal(s.count as nat),
    )
}

/// The series of the first `n` slots, in slot order.
pub open spec fn http_text(slots: Seq<Option<HttpSeries>>, n: int) -> Seq<char>
    decreases n,
{
    if n <= 0 {
        Seq::empty()
    } else {
        http_text(slots, n - 1) + match slots[n - 1] {
            Some(s) => series_text(n - 1, s),
            None => Seq::empty(),
        }
    }
}

fn push_line(out: &mut Vec<char>, prefix: &str, labels: &Vec<char>, mid: &Vec<char>, value: &Vec<char>)
    ensures
        final(out)@ == old(out)@ + metric_line(prefix@, labels@, mid@, value@),
{
    let ghost start = out@;
    push_str(out, prefix);
    push_chars(out, labels);
    push_chars(out, mid);
    push_chars(out, value);
    push_str(out, "\n");
    assert(out@ =~= start + metric_line(prefix@, labels@, mid@, value@));
}

fn text_of(s: &str) -> (r: Vec<char>)
    ensures
        r@ == s@,
{
    let mut r: Vec<char> = Vec::new();
    push_str(&mut r, s);
    r
}

fn decimal_text(n: u64) -> (r: Vec<char>)
    ensures
        r@ == decimal(n as nat),
{
    decimal_u128(n as u128)
}

#[verifier::rlimit(30)]
fn push_series(out: &mut Vec<char>, slot: usize, s: &HttpSeries)
    requires
        slot < HTTP_SERIES_SLOTS,
    ensures
        final(out)@ == old(out)@ + series_text(slot as int, *s),
{
    let methods = method_label_list();
    let routes = series_route_label_list();
    let statuses = status_label_list();
    let bounds = bound_label_list();
    let mut labels: Vec<char> = Vec::new();
    push_str(&mut labels, "method=\"");
    push_str(&mut labels, methods[slot / 220]);
    push_str(&mut labels, "\",route=\"");
    push_str(&mut labels, routes[(slot / 5) % 44]);
    push_str(&mut labels, "\",status_class=\"");
    push_str(&mut labels, statuses[slot % 5]);
    push_str(&mut labels, "\"");
    assert(labels@ =~= series_labels_text(slot as int));
    let ghost start = out@;
    let count_text = decimal_text(s.count);
    push_line(out, "paper_raid_bff_http_requests_total{", &labels, &text_of("} "), &count_text);
    let ghost head = out@;
    let mut i: usize = 0;
    while i < 11
        invariant
            i <= 11,
            bounds@ == bound_labels(),
            labels@ == series_labels_text(slot as int),
            out@ == head + bucket_lines(labels@, *s, i as int),
        decreases 11 - i,
    {
        let mut mid = text_of(",le=\"");
        push_str(&mut mid, bounds[i]);
        push_str(&mut mid, "\"} ");
        push_line(
            out,
            "paper_raid_bff_http_request_duration_seconds_bucket{",
            &labels,
            &mid,
            &decimal_text(s.buckets[i]),
        );
        i = i + 1;
        assert(out@ =~= head + bucket_lines(labels@, *s, i as int));
    }
    let ghost buckets_done = out@;
    push_line(
        out,
        "paper_raid_bff_http_request_duration_seconds_bucket{",
        &labels,
        &text_of(",le=\"+Inf\"} "),
        &count_text,
    );
    let mut seconds: Vec<char> = Vec::new();
    push_seconds(&mut seconds, s.sum_nanos);
    assert(seconds@ =~= seconds_text(s.sum_nanos));
    push_line(
        out,
        "paper_raid_bff_http_request_duration_seconds_sum{",
        &labels,
        &text_of("} "),
        &seconds,
    );
    push_line(
        out,
        "paper_raid_bff_http_request_duration_seconds_count{",
        &labels,
        &text_of("} "),
        &count_text,
    );
    assert(out@ =~= start + series_text(slot as int, *s));
}

} // verus!

verus! {

/// A counter slot's value; an absent slot counts zero.
pub open spec fn slot_value(slot: Option<u64>) -> u64 {
    match slot {
        Some(n) => n,
        None => 0,
    }
}

/// Labelled counter lines of one metric: each entry is the label text and
/// the slot that holds its value.
pub open spec fn count_lines(
    metric: Seq<char>,
    entries: Seq<(&'static str, int)>,
    slots: Seq<Option<u64>>,
    n: int,
) -> Seq<char>
    decreases n,
{
    if n <= 0 {
        Seq::empty()
    } else {
        count_lines(metric, entries, slots, n - 1) + metric_line(
            metric + "{"@,
            entries[n - 1].0@,
            "} "@,
            decimal(slot_value(slots[entries[n - 1].1]) as nat),
        )
    }
}

pub open spec fn hepta_entries() -> Seq<(&'static str, int)> {
    seq![
        ("kind=\"transport\"", 6),
        ("kind=\"protocol\"", 4),
        ("kind=\"server\"", 5),
        ("kind=\"finality_unknown\"", 3),
        ("kind=\"finality_unavailable\"", 2),
        ("kind=\"finality_error\"", 0),
        ("kind=\"finality_invalid\"", 1),
    ]
}

pub open spec fn bridge_entries() -> Seq<(&'static str, int)> {
    seq![
        ("operation=\"pairing\",outcome=\"success\"", 3),
        ("operation=\"pairing\",outcome=\"client_error\"", 0),
        ("operation=\"pairing\",outcome=\"conflict\"", 1),
        ("operation=\"pairing\",outcome=\"server_error\"", 2),
        ("operation=\"work_submit\",outcome=\"success\"", 11),
        ("operation=\"work_submit\",outcome=\"client_error\"", 8),
        ("operation=\"work_submit\",outcome=\"conflict\"", 9),
        ("operation=\"work_submit\",outcome=\"server_error\"", 10),
        ("operation=\"recovery\",outcome=\"success\"", 7),
        ("operation=\"recovery\",outcome=\"client_error\"", 4),
        ("operation=\"recovery\",outcome=\"conflict\"", 5),
        ("operation=\"recovery\",outcome=\"server_error\"", 6),
    ]
}

pub open spec fn invite_entries() -> Seq<(&'static str, int)> {
    seq![
        ("outcome=\"authenticated\"", 0),
        ("outcome=\"redeemed\"", 4),
        ("outcome=\"denied\"", 1),
        ("outcome=\"rate_limited\"", 3),
        ("outcome=\"error\"", 2),
    ]
}

pub open spec fn product_entries() -> Seq<(&'static str, int)> {
    seq![("event=\"login_succeeded\"", 1), ("event=\"first_action\"", 0)]
}

fn push_count_lines(
    out: &mut Vec<char>,
    metric: &str,
    entries: &[(&'static str, usize)],
    slots: &Vec<Option<u64>>,
)
    requires
        forall|k: int| 0 <= k < entries@.len() ==> (#[trigger] entries@[k]).1 < slots@.len(),
    ensures
        final(out)@ == old(out)@ + count_lines(
            metric@,
            entries@.map_values(|e: (&'static str, usize)| (e.0, e.1 as int)),
            slots@,
            entries@.len() as int,
        ),
{
    let ghost spec_entries = entries@.map_values(|e: (&'static str, usize)| (e.0, e.1 as int));
    let ghost start = out@;
    let mut prefix = text_of(metric);
    push_str(&mut prefix, "{");
    let mut k: usize = 0;
    while k < entries.len()
        invariant
            k <= entries@.len(),
            prefix@ == metric@ + "{"@,
            spec_entries == entries@.map_values(|e: (&'static str, usize)| (e.0, e.1 as int)),
            forall|j: int| 0 <= j < entries@.len() ==> (#[trigger] entries@[j]).1 < slots@.len(),
            out@ == start + count_lines(metric@, spec_entries, slots@, k as int),
        decreases entries.len() - k,
    {
        let (label, slot) = entries[k];
        let value: u64 = match slots[slot] {
            Some(n) => n,
            None => 0,
        };
        let prefix_text = string_from_chars(&prefix);
        push_line(out, prefix_text.as_str(), &text_of(label), &text_of("} "), &decimal_text(value));
        k = k + 1;
        assert(spec_entries[k - 1] == (label, slot as int));
        assert(out@ =~= start + count_lines(metric@, spec_entries, slots@, k as int));
    }
}

} // verus!

verus! {

pub open spec fn http_header() -> Seq<char> {
    "# HELP paper_raid_bff_http_requests_total Completed HTTP requests by bounded route, method, and status class.\n"@
        + "# TYPE paper_raid_bff_http_requests_total counter\n"@
        + "# HELP paper_raid_bff_http_request_duration_seconds HTTP request duration by bounded route, method, and status class.\n"@
        + "# TYPE paper_raid_bff_http_request_duration_seconds histogram\n"@
}

pub open spec fn hepta_header() -> Seq<char> {
    "# HELP paper_raid_bff_hepta_upstream_errors_total Hepta transport, protocol, server, and finality availability failures.\n"@
        + "# TYPE paper_raid_bff_hepta_upstream_errors_total counter\n"@
}

pub open spec fn bridge_header() -> Seq<char> {
    "# HELP paper_raid_bff_agent_bridge_events_total Agent Bridge pairing, work submission, and recovery outcomes.\n"@
        + "# TYPE paper_raid_bff_agent_bridge_events_total counter\n"@
}

pub open spec fn invite_header() -> Seq<char> {
    "# HELP paper_raid_bff_invite_authentication_total Closed-Alpha credential authentication and invite redemption outcomes.\n"@
        + "# TYPE paper_raid_bff_invite_authentication_total counter\n"@
}

pub open spec fn product_header() -> Seq<char> {
    "# HELP paper_raid_bff_product_events_total Aggregate onboarding events used by credential-free synthetic/funnel monitoring.\n"@
        + "# TYPE paper_raid_bff_product_events_total counter\n"@
}

pub open spec fn flag(b: bool) -> nat {
    if b {
        1
    } else {
        0
    }
}

/// A metric's help and type lines followed by its sample lines.
pub open spec fn block(help: Seq<char>, kind: Seq<char>, samples: Seq<char>) -> Seq<char> {
    help + kind + samples
}

pub open spec fn value_line(name: Seq<char>, value: nat) -> Seq<char> {
    name + decimal(value) + "\n"@
}

/// The gauges and totals that follow the labelled families.
pub open spec fn scalar_text(m: Metrics) -> Seq<char> {
    block(
        "# HELP paper_raid_bff_stale_ui_reloads_total Browser reloads caused by an authoritative teammate mutation.\n"@,
        "# TYPE paper_raid_bff_stale_ui_reloads_total counter\n"@,
        value_line("paper_raid_bff_stale_ui_reloads_total "@, m.stale_ui_reloads as nat),
    ) + block(
        "# HELP paper_raid_bff_match_queue_depth Queued tickets in the last authoritative lobby snapshot.\n"@,
        "# TYPE paper_raid_bff_match_queue_depth gauge\n"@,
        value_line("paper_raid_bff_match_queue_depth "@, m.match_queue_depth as nat),
    ) + block(
        "# HELP paper_raid_bff_match_queue_eta_tickets Tickets with and without an authoritative ETA in the last lobby snapshot.\n"@,
        "# TYPE paper_raid_bff_match_queue_eta_tickets gauge\n"@,
        value_line(
            "paper_raid_bff_match_queue_eta_tickets{availability=\"available\"} "@,
            m.match_eta_available as nat,
        ) + value_line(
            "paper_raid_bff_match_queue_eta_tickets{availability=\"unavailable\"} "@,
            m.match_eta_unavailable as nat,
        ),
    ) + block(
        "# HELP paper_raid_bff_match_queue_snapshot_available Whether the latest lobby read produced an authoritative ticket snapshot.\n"@,
        "# TYPE paper_raid_bff_match_queue_snapshot_available gauge\n"@,
        value_line(
            "paper_raid_bff_match_queue_snapshot_available "@,
            flag(m.match_snapshot_available),
        ),
    ) + block(
        "# HELP paper_raid_bff_metrics_snapshot_loaded Whether a durable aggregate snapshot was loaded at startup.\n"@,
        "# TYPE paper_raid_bff_metrics_snapshot_loaded gauge\n"@,
        value_line("paper_raid_bff_metrics_snapshot_loaded "@, flag(m.snapshot_loaded)),
    ) + block(
        "# HELP paper_raid_bff_metrics_snapshot_persisted Whether the latest in-memory revision is durable.\n"@,
        "# TYPE paper_raid_bff_metrics_snapshot_persisted gauge\n"@,
        value_line("paper_raid_bff_metrics_snapshot_persisted "@, flag(m.snapshot_persisted)),
    ) + block(
        "# HELP paper_raid_bff_metrics_snapshot_revision Current aggregate snapshot revision.\n"@,
        "# TYPE paper_raid_bff_metrics_snapshot_revision gauge\n"@,
        value_line("paper_raid_bff_metrics_snapshot_revision "@, m.revision as nat),
    )
}

/// The Prometheus text exposition of the aggregates.
pub open spec fn render_text(m: Metrics) -> Seq<char> {
    http_header() + http_text(m.http@, m.http@.len() as int) + hepta_header() + count_lines(
        "paper_raid_bff_hepta_upstream_errors_total"@,
        hepta_entries(),
        m.hepta_errors@,
        7,
    ) + bridge_header() + count_lines(
        "paper_raid_bff_agent_bridge_events_total"@,
        bridge_entries(),
        m.bridge_events@,
        12,
    ) + invite_header() + count_lines(
        "paper_raid_bff_invite_authentication_total"@,
        invite_entries(),
        m.invite_events@,
        5,
    ) + product_header() + count_lines(
        "paper_raid_bff_product_events_total"@,
        product_entries(),
        m.product_events@,
        2,
    ) + scalar_text(m)
}

fn push_value_line(out: &mut Vec<char>, name: &str, value: u64)
    ensures
        final(out)@ == old(out)@ + value_line(name@, value as nat),
{
    let ghost start = out@;
    push_str(out, name);
    push_decimal(out, value);
    push_str(out, "\n");
    assert(out@ =~= start + value_line(name@, value as nat));
}

fn push_block(out: &mut Vec<char>, help: &str, kind: &str, name: &str, value: u64)
    ensures
        final(out)@ == old(out)@ + block(help@, kind@, value_line(name@, value as nat)),
{
    let ghost start = out@;
    push_str(out, help);
    push_str(out, kind);
    push_value_line(out, name, value);
    assert(out@ =~= start + block(help@, kind@, value_line(name@, value as nat)));
}

#[verifier::spinoff_prover]
#[verifier::rlimit(40)]
fn push_scalars(out: &mut Vec<char>, m: &Metrics)
    ensures
        final(out)@ == old(out)@ + scalar_text(*m),
{
    let ghost start = out@;
    push_block(
        out,
        "# HELP paper_raid_bff_stale_ui_reloads_total Browser reloads caused by an authoritative teammate mutation.\n",
        "# TYPE paper_raid_bff_stale_ui_reloads_total counter\n",
        "paper_raid_bff_stale_ui_reloads_total ",
        m.stale_ui_reloads,
    );
    push_block(
        out,
        "# HELP paper_raid_bff_match_queue_depth Queued tickets in the last authoritative lobby snapshot.\n",
        "# TYPE paper_raid_bff_match_queue_depth gauge\n",
        "paper_raid_bff_match_queue_depth ",
        m.match_queue_depth,
    );
    let ghost eta_start = out@;
    push_str(
        out,
        "# HELP paper_raid_bff_match_queue_eta_tickets Tickets with and without an authoritative ETA in the last lobby snapshot.\n",
    );
    push_str(out, "# TYPE paper_raid_bff_match_queue_eta_tickets gauge\n");
    push_value_line(
        out,
        "paper_raid_bff_match_queue_eta_tickets{availability=\"available\"} ",
        m.match_eta_available,
    );
    push_value_line(
        out,
        "paper_raid_bff_match_queue_eta_tickets{availability=\"unavailable\"} ",
        m.match_eta_unavailable,
    );
    let ghost eta_end = out@;
    push_block(
        out,
        "# HELP paper_raid_bff_match_queue_snapshot_available Whether the latest lobby read produced an authoritative ticket snapshot.\n",
        "# TYPE paper_raid_bff_match_queue_snapshot_available gauge\n",
        "paper_raid_bff_match_queue_snapshot_available ",
        if m.match_snapshot_available { 1 } else { 0 },
    );
    push_block(
        out,
        "# HELP paper_raid_bff_metrics_snapshot_loaded Whether a durable aggregate snapshot was loaded at startup.\n",
        "# TYPE paper_raid_bff_metrics_snapshot_loaded gauge\n",
        "paper_raid_bff_metrics_snapshot_loaded ",
        if m.snapshot_loaded { 1 } else { 0 },
    );
    push_block(
        out,
        "# HELP paper_raid_bff_metrics_snapshot_persisted Whether the latest in-memory revision is durable.\n",
        "# TYPE paper_raid_bff_metrics_snapshot_persisted gauge\n",
        "paper_raid_bff_metrics_snapshot_persisted ",
        if m.snapshot_persisted { 1 } else { 0 },
    );
    push_block(
        out,
        "# HELP paper_raid_bff_metrics_snapshot_revision Current aggregate snapshot revision.\n",
        "# TYPE paper_raid_bff_metrics_snapshot_revision gauge\n",
        "paper_raid_bff_metrics_snapshot_revision ",
        m.revision,
    );
    assert(out@ =~= start + scalar_text(*m));
}

} // verus!

verus! {

fn hepta_entry_list() -> (r: [(&'static str, usize); 7])
    ensures
        r@.map_values(|e: (&'static str, usize)| (e.0, e.1 as int)) == hepta_entries(),
{
    let r: [(&'static str, usize); 7] = [
        ("kind=\"transport\"", 6),
        ("kind=\"protocol\"", 4),
        ("kind=\"server\"", 5),
        ("kind=\"finality_unknown\"", 3),
        ("kind=\"finality_unavailable\"", 2),
        ("kind=\"finality_error\"", 0),
        ("kind=\"finality_invalid\"", 1),
    ];
    assert(r@.map_values(|e: (&'static str, usize)| (e.0, e.1 as int)) =~= hepta_entries());
    r
}

fn bridge_entry_list() -> (r: [(&'static str, usize); 12])
    ensures
        r@.map_values(|e: (&'static str, usize)| (e.0, e.1 as int)) == bridge_entries(),
{
    let r: [(&'static str, usize); 12] = [
        ("operation=\"pairing\",outcome=\"success\"", 3),
        ("operation=\"pairing\",outcome=\"client_error\"", 0),
        ("operation=\"pairing\",outcome=\"conflict\"", 1),
        ("operation=\"pairing\",outcome=\"server_error\"", 2),
        ("operation=\"work_submit\",outcome=\"success\"", 11),
        ("operation=\"work_submit\",outcome=\"client_error\"", 8),
        ("operation=\"work_submit\",outcome=\"conflict\"", 9),
        ("operation=\"work_submit\",outcome=\"server_error\"", 10),
        ("operation=\"recovery\",outcome=\"success\"", 7),
        ("operation=\"recovery\",outcome=\"client_error\"", 4),
        ("operation=\"recovery\",outcome=\"conflict\"", 5),
        ("operation=\"recovery\",outcome=\"server_error\"", 6),
    ];
    assert(r@.map_values(|e: (&'static str, usize)| (e.0, e.1 as int)) =~= bridge_entries());
    r
}

fn invite_entry_list() -> (r: [(&'static str, usize); 5])
    ensures
        r@.map_values(|e: (&'static str, usize)| (e.0, e.1 as int)) == invite_entries(),
{
    let r: [(&'static str, usize); 5] = [
        ("outcome=\"authenticated\"", 0),
        ("outcome=\"redeemed\"", 4),
        ("outcome=\"denied\"", 1),
        ("outcome=\"rate_limited\"", 3),
        ("outcome=\"error\"", 2),
    ];
    assert(r@.map_values(|e: (&'static str, usize)| (e.0, e.1 as int)) =~= invite_entries());
    r
}

fn product_entry_list() -> (r: [(&'static str, usize); 2])
    ensures
        r@.map_values(|e: (&'static str, usize)| (e.0, e.1 as int)) == product_entries(),
{
    let r: [(&'static str, usize); 2] = [
        ("event=\"login_succeeded\"", 1),
        ("event=\"first_action\"", 0),
    ];
    assert(r@.map_values(|e: (&'static str, usize)| (e.0, e.1 as int)) =~= product_entries());
    r
}

impl Metrics {
    /// The Prometheus text exposition: every series under bounded labels
    /// only, histograms cumulative with a `+Inf` bucket, then the fixed
    /// families with a zero for each label that was never observed.
    pub fn render(&self) -> (r: String)
        requires
            self.wf(),
        ensures
            r@ == render_text(*self),
    {
        let mut out: Vec<char> = Vec::new();
        push_str(&mut out, "# HELP paper_raid_bff_http_requests_total Completed HTTP requests by bounded route, method, and status class.\n");
        push_str(&mut out, "# TYPE paper_raid_bff_http_requests_total counter\n");
        push_str(&mut out, "# HELP paper_raid_bff_http_request_duration_seconds HTTP request duration by bounded route, method, and status class.\n");
        push_str(&mut out, "# TYPE paper_raid_bff_http_request_duration_seconds histogram\n");
        assert(out@ =~= http_header());
        let mut i: usize = 0;
        while i < HTTP_SERIES_SLOTS
            invariant
                i <= HTTP_SERIES_SLOTS,
                self.http@.len() == HTTP_SERIES_SLOTS,
                out@ == http_header() + http_text(self.http@, i as int),
            decreases HTTP_SERIES_SLOTS - i,
        {
            if let Some(series) = &self.http[i] {
                push_series(&mut out, i, series);
            }
            i = i + 1;
            assert(out@ =~= http_header() + http_text(self.http@, i as int));
        }
        let ghost after_http = out@;
        push_str(&mut out, "# HELP paper_raid_bff_hepta_upstream_errors_total Hepta transport, protocol, server, and finality availability failures.\n");
        push_str(&mut out, "# TYPE paper_raid_bff_hepta_upstream_errors_total counter\n");
        push_count_lines(&mut out, "paper_raid_bff_hepta_upstream_errors_total", &hepta_entry_list(), &self.hepta_errors);
        let ghost after_hepta = out@;
        push_str(&mut out, "# HELP paper_raid_bff_agent_bridge_events_total Agent Bridge pairing, work submission, and recovery outcomes.\n");
        push_str(&mut out, "# TYPE paper_raid_bff_agent_bridge_events_total counter\n");
        push_count_lines(&mut out, "paper_raid_bff_agent_bridge_events_total", &bridge_entry_list(), &self.bridge_events);
        let ghost after_bridge = out@;
        push_str(&mut out, "# HELP paper_raid_bff_invite_authentication_total Closed-Alpha credential authentication and invite redemption outcomes.\n");
        push_str(&mut out, "# TYPE paper_raid_bff_invite_authentication_total counter\n");
        push_count_lines(&mut out, "paper_raid_bff_invite_authentication_total", &invite_entry_list(), &self.invite_events);
        let ghost after_invite = out@;
        push_str(&mut out, "# HELP paper_raid_bff_product_events_total Aggregate onboarding events used by credential-free synthetic/funnel monitoring.\n");
        push_str(&mut out, "# TYPE paper_raid_bff_product_events_total counter\n");
        push_count_lines(&mut out, "paper_raid_bff_product_events_total", &product_entry_list(), &self.product_events);
        let ghost after_product = out@;
        push_scalars(&mut out, self);
        assert(out@ =~= render_text(*self));
        string_from_chars(&out)
    }
}

} // verus!

verus! {

} // verus!

verus! {

/// Tells the route labels apart by their length and characters.
pub open spec fn route_label_id(s: Seq<char>) -> int {
    if s.len() == 6 {
        if s[1] == 'l' {
            38
        } else {
            40
        }
    } else if s.len() == 7 {
        if s[1] == 'h' {
            29
        } else {
            30
        }
    } else if s.len() == 8 {
        39
    } else if s.len() == 9 {
        43
    } else if s.len() == 12 {
        if s[2] == 'l' {
            0
        } else {
            26
        }
    } else if s.len() == 13 {
        37
    } else if s.len() == 14 {
        35
    } else if s.len() == 15 {
        41
    } else if s.len() == 16 {
        if s[1] == 'l' {
            34
        } else {
            42
        }
    } else if s.len() == 18 {
        32
    } else if s.len() == 19 {
        if s[7] == 'a' {
            24
        } else if s[7] == 'e' {
            1
        } else if s[7] == 'o' {
            25
        } else {
            14
        }
    } else if s.len() == 21 {
        if s[15] == 'a' {
            28
        } else if s[15] == 'b' {
            21
        } else if s[15] == 'd' {
            22
        } else {
            23
        }
    } else if s.len() == 22 {
        if s[2] == 'p' {
            6
        } else {
            27
        }
    } else if s.len() == 23 {
        5
    } else if s.len() == 24 {
        if s[8] == 'n' {
            4
        } else if s[8] == 'p' {
            33
        } else {
            36
        }
    } else if s.len() == 25 {
        2
    } else if s.len() == 26 {
        31
    } else if s.len() == 27 {
        13
    } else if s.len() == 29 {
        19
    } else if s.len() == 30 {
        if s[5] == 'o' {
            16
        } else {
            20
        }
    } else if s.len() == 31 {
        15
    } else if s.len() == 32 {
        if s[19] == 'a' {
            8
        } else {
            12
        }
    } else if s.len() == 33 {
        if s[19] == 'a' {
            7
        } else if s[19] == 'e' {
            3
        } else {
            10
        }
    } else if s.len() == 34 {
        11
    } else if s.len() == 35 {
        17
    } else if s.len() == 39 {
        18
    } else {
        9
    }
}

/// Each route label is found at its own position, and at no other.
pub proof fn lemma_route_labels_distinct()
    ensures
        forall|i: int| 0 <= i < 44 ==> #[trigger] route_label_id(series_route_labels()[i]@) == i,
        forall|i: int, j: int|
            0 <= i < 44 && 0 <= j < 44 && #[trigger] series_route_labels()[i]@ == #[trigger] series_route_labels()[j]@ ==> i == j,
{
    reveal_strlit("/alpha/login");
    reveal_strlit("/api/agent-bindings");
    reveal_strlit("/api/agent-bridge/binding");
    reveal_strlit("/api/agent-bridge/delivery-drafts");
    reveal_strlit("/api/agent-bridge/health");
    reveal_strlit("/api/agent-bridge/inbox");
    reveal_strlit("/api/agent-bridge/pair");
    reveal_strlit("/api/agent-bridge/pairing-context");
    reveal_strlit("/api/agent-bridge/pairing-grants");
    reveal_strlit("/api/agent-bridge/pairing-grants/:grant_id/revoke");
    reveal_strlit("/api/agent-bridge/practice-claims");
    reveal_strlit("/api/agent-bridge/practice-results");
    reveal_strlit("/api/agent-bridge/practice-tasks");
    reveal_strlit("/api/agent-bridge/proposals");
    reveal_strlit("/api/hepta/commands");
    reveal_strlit("/api/onboarding/human/challenge");
    reveal_strlit("/api/onboarding/human/register");
    reveal_strlit("/api/onboarding/human/signing-frame");
    reveal_strlit("/api/papers/:paper_id/artifacts/:digest");
    reveal_strlit("/api/papers/:paper_id/outcome");
    reveal_strlit("/api/papers/:paper_id/timeline");
    reveal_strlit("/api/practice/abandon");
    reveal_strlit("/api/practice/advance");
    reveal_strlit("/api/practice/session");
    reveal_strlit("/api/practice/start");
    reveal_strlit("/api/product-events");
    reveal_strlit("/api/session");
    reveal_strlit("/assets/paper-raid.css");
    reveal_strlit("/assets/paper-raid.js");
    reveal_strlit("/health");
    reveal_strlit("/league");
    reveal_strlit("/league/formation/:team_id");
    reveal_strlit("/league/onboarding");
    reveal_strlit("/league/papers/:paper_id");
    reveal_strlit("/league/practice");
    reveal_strlit("/league/review");
    reveal_strlit("/league/review/:paper_id");
    reveal_strlit("/league/start");
    reveal_strlit("/login");
    reveal_strlit("/metrics");
    reveal_strlit("/ready");
    reveal_strlit("/session/logout");
    reveal_strlit("/session/refresh");
    reveal_strlit("unmatched");
    assert forall|i: int| 0 <= i < 44 implies #[trigger] route_label_id(series_route_labels()[i]@) == i by {
        if i == 0 {
            assert(series_route_labels()[0]@ == "/alpha/login"@);
        } else if i == 1 {
            assert(series_route_labels()[1]@ == "/api/agent-bindings"@);
        } else if i == 2 {
            assert(series_route_labels()[2]@ == "/api/agent-bridge/binding"@);
        } else if i == 3 {
            assert(series_route_labels()[3]@ == "/api/agent-bridge/delivery-drafts"@);
        } else if i == 4 {
            assert(series_route_labels()[4]@ == "/api/agent-bridge/health"@);
        } else if i == 5 {
            assert(series_route_labels()[5]@ == "/api/agent-bridge/inbox"@);
        } else if i == 6 {
            assert(series_route_labels()[6]@ == "/api/agent-bridge/pair"@);
        } else if i == 7 {
            assert(series_route_labels()[7]@ == "/api/agent-bridge/pairing-context"@);
        } else if i == 8 {
            assert(series_route_labels()[8]@ == "/api/agent-bridge/pairing-grants"@);
        } else if i == 9 {
            assert(series_route_labels()[9]@ == "/api/agent-bridge/pairing-grants/:grant_id/revoke"@);
        } else if i == 10 {
            assert(series_route_labels()[10]@ == "/api/agent-bridge/practice-claims"@);
        } else if i == 11 {
            assert(series_route_labels()[11]@ == "/api/agent-bridge/practice-results"@);
        } else if i == 12 {
            assert(series_route_labels()[12]@ == "/api/agent-bridge/practice-tasks"@);
        } else if i == 13 {
            assert(series_route_labels()[13]@ == "/api/agent-bridge/proposals"@);
        } else if i == 14 {
            assert(series_route_labels()[14]@ == "/api/hepta/commands"@);
        } else if i == 15 {
            assert(series_route_labels()[15]@ == "/api/onboarding/human/challenge"@);
        } else if i == 16 {
            assert(series_route_labels()[16]@ == "/api/onboarding/human/register"@);
        } else if i == 17 {
            assert(series_route_labels()[17]@ == "/api/onboarding/human/signing-frame"@);
        } else if i == 18 {
            assert(series_route_labels()[18]@ == "/api/papers/:paper_id/artifacts/:digest"@);
        } else if i == 19 {
            assert(series_route_labels()[19]@ == "/api/papers/:paper_id/outcome"@);
        } else if i == 20 {
            assert(series_route_labels()[20]@ == "/api/papers/:paper_id/timeline"@);
        } else if i == 21 {
            assert(series_route_labels()[21]@ == "/api/practice/abandon"@);
        } else if i == 22 {
            assert(series_route_labels()[22]@ == "/api/practice/advance"@);
        } else if i == 23 {
            assert(series_route_labels()[23]@ == "/api/practice/session"@);
        } else if i == 24 {
            assert(series_route_labels()[24]@ == "/api/practice/start"@);
        } else if i == 25 {
            assert(series_route_labels()[25]@ == "/api/product-events"@);
        } else if i == 26 {
            assert(series_route_labels()[26]@ == "/api/session"@);
        } else if i == 27 {
            assert(series_route_labels()[27]@ == "/assets/paper-raid.css"@);
        } else if i == 28 {
            assert(series_route_labels()[28]@ == "/assets/paper-raid.js"@);
        } else if i == 29 {
            assert(series_route_labels()[29]@ == "/health"@);
        } else if i == 30 {
            assert(series_route_labels()[30]@ == "/league"@);
        } else if i == 31 {
            assert(series_route_labels()[31]@ == "/league/formation/:team_id"@);
        } else if i == 32 {
            assert(series_route_labels()[32]@ == "/league/onboarding"@);
        } else if i == 33 {
            assert(series_route_labels()[33]@ == "/league/papers/:paper_id"@);
        } else if i == 34 {
            assert(series_route_labels()[34]@ == "/league/practice"@);
        } else if i == 35 {
            assert(series_route_labels()[35]@ == "/league/review"@);
        } else if i == 36 {
            assert(series_route_labels()[36]@ == "/league/review/:paper_id"@);
        } else if i == 37 {
            assert(series_route_labels()[37]@ == "/league/start"@);
        } else if i == 38 {
            assert(series_route_labels()[38]@ == "/login"@);
        } else if i == 39 {
            assert(series_route_labels()[39]@ == "/metrics"@);
        } else if i == 40 {
            assert(series_route_labels()[40]@ == "/ready"@);
        } else if i == 41 {
            assert(series_route_labels()[41]@ == "/session/logout"@);
        } else if i == 42 {
            assert(series_route_labels()[42]@ == "/session/refresh"@);
        } else if i == 43 {
            assert(series_route_labels()[43]@ == "unmatched"@);
        }
    }
    assert forall|i: int, j: int|
        0 <= i < 44 && 0 <= j < 44 && #[trigger] series_route_labels()[i]@ == #[trigger] series_route_labels()[j]@ implies i == j by {
        assert(route_label_id(series_route_labels()[i]@) == i);
        assert(route_label_id(series_route_labels()[j]@) == j);
    }
}

/// Tells the method labels apart by their length and characters.
pub open spec fn method_label_id(s: Seq<char>) -> int {
    if s[1] == 'E' {
        0
    } else if s[1] == 'O' {
        2
    } else if s[1] == 'T' {
        1
    } else {
        3
    }
}

/// Each method label is found at its own position, and at no other.
pub proof fn lemma_method_labels_distinct()
    ensures
        forall|i: int| 0 <= i < 4 ==> #[trigger] method_label_id(method_labels()[i]@) == i,
        forall|i: int, j: int|
            0 <= i < 4 && 0 <= j < 4 && #[trigger] method_labels()[i]@ == #[trigger] method_labels()[j]@ ==> i == j,
{
    reveal_strlit("GET");
    reveal_strlit("OTHER");
    reveal_strlit("POST");
    reveal_strlit("PUT");
    assert forall|i: int| 0 <= i < 4 implies #[trigger] method_label_id(method_labels()[i]@) == i by {
        if i == 0 {
            assert(method_labels()[0]@ == "GET"@);
        } else if i == 1 {
            assert(method_labels()[1]@ == "OTHER"@);
        } else if i == 2 {
            assert(method_labels()[2]@ == "POST"@);
        } else if i == 3 {
            assert(method_labels()[3]@ == "PUT"@);
        }
    }
    assert forall|i: int, j: int|
        0 <= i < 4 && 0 <= j < 4 && #[trigger] method_labels()[i]@ == #[trigger] method_labels()[j]@ implies i == j by {
        assert(method_label_id(method_labels()[i]@) == i);
        assert(method_label_id(method_labels()[j]@) == j);
    }
}

/// Tells the status labels apart by their length and characters.
pub open spec fn status_label_id(s: Seq<char>) -> int {
    if s[0] == '2' {
        0
    } else if s[0] == '3' {
        1
    } else if s[0] == '4' {
        2
    } else if s[0] == '5' {
        3
    } else {
        4
    }
}

/// Each status label is found at its own position, and at no other.
pub proof fn lemma_status_labels_distinct()
    ensures
        forall|i: int| 0 <= i < 5 ==> #[trigger] status_label_id(status_labels()[i]@) == i,
        forall|i: int, j: int|
            0 <= i < 5 && 0 <= j < 5 && #[trigger] status_labels()[i]@ == #[trigger] status_labels()[j]@ ==> i == j,
{
    reveal_strlit("2xx");
    reveal_strlit("3xx");
    reveal_strlit("4xx");
    reveal_strlit("5xx");
    reveal_strlit("other");
    assert forall|i: int| 0 <= i < 5 implies #[trigger] status_label_id(status_labels()[i]@) == i by {
        if i == 0 {
            assert(status_labels()[0]@ == "2xx"@);
        } else if i == 1 {
            assert(status_labels()[1]@ == "3xx"@);
        } else if i == 2 {
            assert(status_labels()[2]@ == "4xx"@);
        } else if i == 3 {
            assert(status_labels()[3]@ == "5xx"@);
        } else if i == 4 {
            assert(status_labels()[4]@ == "other"@);
        }
    }
    assert forall|i: int, j: int|
        0 <= i < 5 && 0 <= j < 5 && #[trigger] status_labels()[i]@ == #[trigger] status_labels()[j]@ implies i == j by {
        assert(status_label_id(status_labels()[i]@) == i);
        assert(status_label_id(status_labels()[j]@) == j);
    }
}

/// Tells the hepta labels apart by their length and characters.
pub open spec fn hepta_label_id(s: Seq<char>) -> int {
    if s.len() == 6 {
        5
    } else if s.len() == 8 {
        4
    } else if s.len() == 9 {
        6
    } else if s.len() == 14 {
        0
    } else if s.len() == 16 {
        if s[9] == 'i' {
            1
        } else {
            3
        }
    } else {
        2
    }
}

/// Each hepta label is found at its own position, and at no other.
pub proof fn lemma_hepta_labels_distinct()
    ensures
        forall|i: int| 0 <= i < 7 ==> #[trigger] hepta_label_id(hepta_error_labels()[i]@) == i,
        forall|i: int, j: int|
            0 <= i < 7 && 0 <= j < 7 && #[trigger] hepta_error_labels()[i]@ == #[trigger] hepta_error_labels()[j]@ ==> i == j,
{
    reveal_strlit("finality_error");
    reveal_strlit("finality_invalid");
    reveal_strlit("finality_unavailable");
    reveal_strlit("finality_unknown");
    reveal_strlit("protocol");
    reveal_strlit("server");
    reveal_strlit("transport");
    assert forall|i: int| 0 <= i < 7 implies #[trigger] hepta_label_id(hepta_error_labels()[i]@) == i by {
        if i == 0 {
            assert(hepta_error_labels()[0]@ == "finality_error"@);
        } else if i == 1 {
            assert(hepta_error_labels()[1]@ == "finality_invalid"@);
        } else if i == 2 {
            assert(hepta_error_labels()[2]@ == "finality_unavailable"@);
        } else if i == 3 {
            assert(hepta_error_labels()[3]@ == "finality_unknown"@);
        } else if i == 4 {
            assert(hepta_error_labels()[4]@ == "protocol"@);
        } else if i == 5 {
            assert(hepta_error_labels()[5]@ == "server"@);
        } else if i == 6 {
            assert(hepta_error_labels()[6]@ == "transport"@);
        }
    }
    assert forall|i: int, j: int|
        0 <= i < 7 && 0 <= j < 7 && #[trigger] hepta_error_labels()[i]@ == #[trigger] hepta_error_labels()[j]@ implies i == j by {
        assert(hepta_label_id(hepta_error_labels()[i]@) == i);
        assert(hepta_label_id(hepta_error_labels()[j]@) == j);
    }
}

/// Tells the operation labels apart by their length and characters.
pub open spec fn operation_label_id(s: Seq<char>) -> int {
    if s.len() == 7 {
        0
    } else if s.len() == 8 {
        1
    } else {
        2
    }
}

/// Each operation label is found at its own position, and at no other.
pub proof fn lemma_operation_labels_distinct()
    ensures
        forall|i: int| 0 <= i < 3 ==> #[trigger] operation_label_id(bridge_operation_labels()[i]@) == i,
        forall|i: int, j: int|
            0 <= i < 3 && 0 <= j < 3 && #[trigger] bridge_operation_labels()[i]@ == #[trigger] bridge_operation_labels()[j]@ ==> i == j,
{
    reveal_strlit("pairing");
    reveal_strlit("recovery");
    reveal_strlit("work_submit");
    assert forall|i: int| 0 <= i < 3 implies #[trigger] operation_label_id(bridge_operation_labels()[i]@) == i by {
        if i == 0 {
            assert(bridge_operation_labels()[0]@ == "pairing"@);
        } else if i == 1 {
            assert(bridge_operation_labels()[1]@ == "recovery"@);
        } else if i == 2 {
            assert(bridge_operation_labels()[2]@ == "work_submit"@);
        }
    }
    assert forall|i: int, j: int|
        0 <= i < 3 && 0 <= j < 3 && #[trigger] bridge_operation_labels()[i]@ == #[trigger] bridge_operation_labels()[j]@ implies i == j by {
        assert(operation_label_id(bridge_operation_labels()[i]@) == i);
        assert(operation_label_id(bridge_operation_labels()[j]@) == j);
    }
}

/// Tells the outcome labels apart by their length and characters.
pub open spec fn outcome_label_id(s: Seq<char>) -> int {
    if s[1] == 'e' {
        2
    } else if s[1] == 'l' {
        0
    } else if s[1] == 'o' {
        1
    } else {
        3
    }
}

/// Each outcome label is found at its own position, and at no other.
pub proof fn lemma_outcome_labels_distinct()
    ensures
        forall|i: int| 0 <= i < 4 ==> #[trigger] outcome_label_id(bridge_outcome_labels()[i]@) == i,
        forall|i: int, j: int|
            0 <= i < 4 && 0 <= j < 4 && #[trigger] bridge_outcome_labels()[i]@ == #[trigger] bridge_outcome_labels()[j]@ ==> i == j,
{
    reveal_strlit("client_error");
    reveal_strlit("conflict");
    reveal_strlit("server_error");
    reveal_strlit("success");
    assert forall|i: int| 0 <= i < 4 implies #[trigger] outcome_label_id(bridge_outcome_labels()[i]@) == i by {
        if i == 0 {
            assert(bridge_outcome_labels()[0]@ == "client_error"@);
        } else if i == 1 {
            assert(bridge_outcome_labels()[1]@ == "conflict"@);
        } else if i == 2 {
            assert(bridge_outcome_labels()[2]@ == "server_error"@);
        } else if i == 3 {
            assert(bridge_outcome_labels()[3]@ == "success"@);
        }
    }
    assert forall|i: int, j: int|
        0 <= i < 4 && 0 <= j < 4 && #[trigger] bridge_outcome_labels()[i]@ == #[trigger] bridge_outcome_labels()[j]@ implies i == j by {
        assert(outcome_label_id(bridge_outcome_labels()[i]@) == i);
        assert(outcome_label_id(bridge_outcome_labels()[j]@) == j);
    }
}

/// Tells the invite labels apart by their length and characters.
pub open spec fn invite_label_id(s: Seq<char>) -> int {
    if s.len() == 5 {
        2
    } else if s.len() == 6 {
        1
    } else if s.len() == 8 {
        4
    } else if s.len() == 12 {
        3
    } else {
        0
    }
}

/// Each invite label is found at its own position, and at no other.
pub proof fn lemma_invite_labels_distinct()
    ensures
        forall|i: int| 0 <= i < 5 ==> #[trigger] invite_label_id(invite_outcome_labels()[i]@) == i,
        forall|i: int, j: int|
            0 <= i < 5 && 0 <= j < 5 && #[trigger] invite_outcome_labels()[i]@ == #[trigger] invite_outcome_labels()[j]@ ==> i == j,
{
    reveal_strlit("authenticated");
    reveal_strlit("denied");
    reveal_strlit("error");
    reveal_strlit("rate_limited");
    reveal_strlit("redeemed");
    assert forall|i: int| 0 <= i < 5 implies #[trigger] invite_label_id(invite_outcome_labels()[i]@) == i by {
        if i == 0 {
            assert(invite_outcome_labels()[0]@ == "authenticated"@);
        } else if i == 1 {
            assert(invite_outcome_labels()[1]@ == "denied"@);
        } else if i == 2 {
            assert(invite_outcome_labels()[2]@ == "error"@);
        } else if i == 3 {
            assert(invite_outcome_labels()[3]@ == "rate_limited"@);
        } else if i == 4 {
            assert(invite_outcome_labels()[4]@ == "redeemed"@);
        }
    }
    assert forall|i: int, j: int|
        0 <= i < 5 && 0 <= j < 5 && #[trigger] invite_outcome_labels()[i]@ == #[trigger] invite_outcome_labels()[j]@ implies i == j by {
        assert(invite_label_id(invite_outcome_labels()[i]@) == i);
        assert(invite_label_id(invite_outcome_labels()[j]@) == j);
    }
}

/// Tells the product labels apart by their length and characters.
pub open spec fn product_label_id(s: Seq<char>) -> int {
    if s.len() == 12 {
        0
    } else {
        1
    }
}

/// Each product label is found at its own position, and at no other.
pub proof fn lemma_product_labels_distinct()
    ensures
        forall|i: int| 0 <= i < 2 ==> #[trigger] product_label_id(product_event_labels()[i]@) == i,
        forall|i: int, j: int|
            0 <= i < 2 && 0 <= j < 2 && #[trigger] product_event_labels()[i]@ == #[trigger] product_event_labels()[j]@ ==> i == j,
{
    reveal_strlit("first_action");
    reveal_strlit("login_succeeded");
    assert forall|i: int| 0 <= i < 2 implies #[trigger] product_label_id(product_event_labels()[i]@) == i by {
        if i == 0 {
            assert(product_event_labels()[0]@ == "first_action"@);
        } else if i == 1 {
            assert(product_event_labels()[1]@ == "login_succeeded"@);
        }
    }
    assert forall|i: int, j: int|
        0 <= i < 2 && 0 <= j < 2 && #[trigger] product_event_labels()[i]@ == #[trigger] product_event_labels()[j]@ implies i == j by {
        assert(product_label_id(product_event_labels()[i]@) == i);
        assert(product_label_id(product_event_labels()[j]@) == j);
    }
}

} // verus!

verus! {

proof fn lemma_index_of_distinct_label(labels: Seq<&'static str>, i: int)
    requires
        0 <= i < labels.len(),
        forall|a: int, b: int|
            0 <= a < labels.len() && 0 <= b < labels.len() && #[trigger] labels[a]@
                == #[trigger] labels[b]@ ==> a == b,
    ensures
        label_index(labels, labels[i]@) == Some(i),
{
    assert forall|j: int| 0 <= j < i implies (#[trigger] labels[j])@ != labels[i]@ by {
        if labels[j]@ == labels[i]@ {
            assert(j == i);
        }
    }
    lemma_first_label_unique(labels, labels[i]@, i);
}

/// What `present_slots` lists: filled slots only, each once, in slot order.
proof fn lemma_present_slots<T>(slots: Seq<Option<T>>, n: int)
    requires
        0 <= n <= slots.len(),
    ensures
        present_slots(slots, n).len() <= n,
        forall|k: int|
            0 <= k < present_slots(slots, n).len() ==> {
                let p = #[trigger] present_slots(slots, n)[k];
                0 <= p.0 < n && slots[p.0] == Some(p.1)
            },
        forall|a: int, b: int|
            0 <= a < b < present_slots(slots, n).len() ==> #[trigger] present_slots(slots, n)[a].0
                < #[trigger] present_slots(slots, n)[b].0,
        forall|i: int|
            0 <= i < n && (#[trigger] slots[i]) is Some ==> exists|k: int|
                0 <= k < present_slots(slots, n).len() && present_slots(slots, n)[k].0 == i,
    decreases n,
{
    if n > 0 {
        lemma_present_slots(slots, n - 1);
        let prev = present_slots(slots, n - 1);
        let cur = present_slots(slots, n);
        assert forall|k: int| 0 <= k < prev.len() implies cur[k] == prev[k] by {}
        assert forall|i: int| 0 <= i < n && (#[trigger] slots[i]) is Some implies exists|k: int|
            0 <= k < cur.len() && cur[k].0 == i by {
            if i < n - 1 {
                let k = choose|k: int| 0 <= k < prev.len() && prev[k].0 == i;
                assert(cur[k] == prev[k]);
            } else {
                assert(cur[prev.len() as int].0 == i);
            }
        }
    }
}

/// Two slot sequences filled in the same places.
pub open spec fn same_pattern<A, B>(a: Seq<Option<A>>, b: Seq<Option<B>>) -> bool {
    a.len() == b.len() && forall|i: int| 0 <= i < a.len() ==> ((#[trigger] a[i]) is Some <==> b[i] is Some)
}

proof fn lemma_present_same_pattern<A, B>(a: Seq<Option<A>>, b: Seq<Option<B>>, n: int)
    requires
        same_pattern(a, b),
        0 <= n <= a.len(),
    ensures
        present_slots(a, n).len() == present_slots(b, n).len(),
        forall|k: int|
            0 <= k < present_slots(a, n).len() ==> #[trigger] present_slots(a, n)[k].0
                == present_slots(b, n)[k].0,
    decreases n,
{
    if n > 0 {
        lemma_present_same_pattern(a, b, n - 1);
        assert(a[n - 1] is Some <==> b[n - 1] is Some);
    }
}

/// A slot number splits into its method, route and status-class positions.
proof fn lemma_http_slot_parts(slot: int)
    requires
        0 <= slot < 880,
    ensures
        0 <= slot / 220 < 4,
        0 <= (slot / 5) % 44 < 44,
        0 <= slot % 5 < 5,
        http_slot(slot / 220, (slot / 5) % 44, slot % 5) == slot,
{
    assert(http_slot(slot / 220, (slot / 5) % 44, slot % 5) == slot) by (nonlinear_arith)
        requires
            0 <= slot < 880,
    ;
}

proof fn lemma_bridge_slot_parts(slot: int)
    requires
        0 <= slot < 12,
    ensures
        0 <= slot / 4 < 3,
        0 <= slot % 4 < 4,
        bridge_slot(slot / 4, slot % 4) == slot,
{
}

} // verus!

verus! {

pub open spec fn labels_distinct(labels: Seq<&'static str>) -> bool {
    forall|a: int, b: int|
        0 <= a < labels.len() && 0 <= b < labels.len() && #[trigger] labels[a]@ == #[trigger] labels[b]@
            ==> a == b
}

proof fn lemma_named_snapshot_accepted(
    slots: Seq<Option<u64>>,
    items: Seq<DurableNamedCount>,
    labels: Seq<&'static str>,
    unknown: MetricsSnapshotError,
    duplicate: MetricsSnapshotError,
    n: int,
)
    requires
        slots.len() == labels.len(),
        labels_distinct(labels),
        named_counts_match(items, present_slots(slots, slots.len() as int), labels),
        0 <= n <= items.len(),
    ensures
        named_error_upto(items, n, labels, unknown, duplicate) is None,
        forall|k: int|
            0 <= k < n ==> #[trigger] label_index(labels, items[k].name@) == Some(
                present_slots(slots, slots.len() as int)[k].0,
            ),
    decreases n,
{
    let p = present_slots(slots, slots.len() as int);
    lemma_present_slots(slots, slots.len() as int);
    if n > 0 {
        lemma_named_snapshot_accepted(slots, items, labels, unknown, duplicate, n - 1);
        let k = n - 1;
        assert(items[k].name@ == labels[p[k].0]@);
        lemma_index_of_distinct_label(labels, p[k].0);
        if exists|j: int| 0 <= j < k && #[trigger] label_index(labels, items[j].name@) == Some(p[k].0) {
            let j = choose|j: int|
                0 <= j < k && #[trigger] label_index(labels, items[j].name@) == Some(p[k].0);
            assert(p[j].0 < p[k].0);
        }
    }
}

proof fn lemma_named_restore_same(
    slots: Seq<Option<u64>>,
    items: Seq<DurableNamedCount>,
    labels: Seq<&'static str>,
    r: Seq<Option<u64>>,
)
    requires
        slots.len() == labels.len(),
        r.len() == slots.len(),
        labels_distinct(labels),
        named_counts_match(items, present_slots(slots, slots.len() as int), labels),
        named_slots_from(r, items, items.len() as int, labels),
    ensures
        r == slots,
{
    let p = present_slots(slots, slots.len() as int);
    lemma_present_slots(slots, slots.len() as int);
    lemma_named_snapshot_accepted(
        slots,
        items,
        labels,
        MetricsSnapshotError::UnknownHeptaError,
        MetricsSnapshotError::DuplicateHeptaError,
        items.len() as int,
    );
    assert forall|i: int| 0 <= i < r.len() implies r[i] == slots[i] by {
        if slots[i] is Some {
            let k = choose|k: int| 0 <= k < p.len() && p[k].0 == i;
            assert(label_index(labels, items[k].name@) == Some(i));
        } else if r[i] is Some {
            let k = choose|k: int|
                0 <= k < items.len() && label_index(labels, items[k].name@) == Some(i);
            assert(label_index(labels, items[k].name@) == Some(p[k].0));
        }
    }
    assert(r =~= slots);
}

proof fn lemma_bridge_snapshot_accepted(slots: Seq<Option<u64>>, items: Seq<DurableBridgeCount>, n: int)
    requires
        slots.len() == 12,
        bridge_counts_match(items, present_slots(slots, 12)),
        0 <= n <= items.len(),
    ensures
        bridge_error_upto(items, n) is None,
        forall|k: int|
            0 <= k < n ==> #[trigger] bridge_item_slot(items[k]) == Some(present_slots(slots, 12)[k].0),
    decreases n,
{
    let p = present_slots(slots, 12);
    lemma_present_slots(slots, 12);
    lemma_operation_labels_distinct();
    lemma_outcome_labels_distinct();
    if n > 0 {
        lemma_bridge_snapshot_accepted(slots, items, n - 1);
        let k = n - 1;
        lemma_bridge_slot_parts(p[k].0);
        lemma_index_of_distinct_label(bridge_operation_labels(), p[k].0 / 4);
        lemma_index_of_distinct_label(bridge_outcome_labels(), p[k].0 % 4);
        assert(bridge_item_slot(items[k]) == Some(p[k].0));
        if exists|j: int| 0 <= j < k && #[trigger] bridge_item_slot(items[j]) == Some(p[k].0) {
            let j = choose|j: int| 0 <= j < k && #[trigger] bridge_item_slot(items[j]) == Some(p[k].0);
            assert(p[j].0 < p[k].0);
        }
    }
}

proof fn lemma_bridge_restore_same(slots: Seq<Option<u64>>, items: Seq<DurableBridgeCount>, r: Seq<Option<u64>>)
    requires
        slots.len() == 12,
        r.len() == 12,
        bridge_counts_match(items, present_slots(slots, 12)),
        bridge_slots_from(r, items, items.len() as int),
    ensures
        r == slots,
{
    let p = present_slots(slots, 12);
    lemma_present_slots(slots, 12);
    lemma_bridge_snapshot_accepted(slots, items, items.len() as int);
    assert forall|i: int| 0 <= i < r.len() implies r[i] == slots[i] by {
        if slots[i] is Some {
            let k = choose|k: int| 0 <= k < p.len() && p[k].0 == i;
            assert(bridge_item_slot(items[k]) == Some(i));
        } else if r[i] is Some {
            let k = choose|k: int| 0 <= k < items.len() && bridge_item_slot(items[k]) == Some(i);
            assert(bridge_item_slot(items[k]) == Some(p[k].0));
        }
    }
    assert(r =~= slots);
}

} // verus!

verus! {

#[verifier::spinoff_prover]
#[verifier::rlimit(60)]
proof fn lemma_http_snapshot_accepted(slots: Seq<Option<HttpSeries>>, items: Seq<DurableHttpSeries>, n: int)
    requires
        slots.len() == HTTP_SERIES_SLOTS,
        forall|i: int| 0 <= i < slots.len() ==> (#[trigger] slots[i] matches Some(s) ==> s.wf()),
        http_series_match(items, present_slots(slots, HTTP_SERIES_SLOTS as int)),
        0 <= n <= items.len(),
    ensures
        http_error_upto(items, n) is None,
        forall|k: int|
            0 <= k < n ==> #[trigger] http_item_slot(items[k]) == Some(
                present_slots(slots, HTTP_SERIES_SLOTS as int)[k].0,
            ),
    decreases n,
{
    let p = present_slots(slots, HTTP_SERIES_SLOTS as int);
    lemma_present_slots(slots, HTTP_SERIES_SLOTS as int);
    lemma_method_labels_distinct();
    lemma_route_labels_distinct();
    lemma_status_labels_distinct();
    if n > 0 {
        lemma_http_snapshot_accepted(slots, items, n - 1);
        let k = n - 1;
        let slot = p[k].0;
        lemma_http_slot_parts(slot);
        lemma_index_of_distinct_label(method_labels(), slot / 220);
        lemma_index_of_distinct_label(series_route_labels(), (slot / 5) % 44);
        lemma_index_of_distinct_label(status_labels(), slot % 5);
        assert(http_item_slot(items[k]) == Some(slot));
        let s = p[k].1;
        assert(slots[slot] == Some(s));
        assert(s.wf());
        assert(s.buckets@.len() == 11);
        assert(histogram_valid(items[k])) by {
            assert forall|b: int| 0 <= b < 10 implies #[trigger] items[k].buckets@[b]
                <= items[k].buckets@[b + 1] by {
                assert(s.buckets@[b] <= s.buckets@[b + 1]);
            }
        }
        if exists|j: int| 0 <= j < k && #[trigger] http_item_slot(items[j]) == http_item_slot(items[k]) {
            let j = choose|j: int|
                0 <= j < k && #[trigger] http_item_slot(items[j]) == http_item_slot(items[k]);
            assert(p[j].0 < p[k].0);
        }
    }
}

/// Two series with the same counts, total and buckets.
pub open spec fn same_series(a: HttpSeries, b: HttpSeries) -> bool {
    a.count == b.count && a.sum_nanos == b.sum_nanos && a.buckets@ == b.buckets@
}

proof fn lemma_http_restore_agrees(
    slots: Seq<Option<HttpSeries>>,
    items: Seq<DurableHttpSeries>,
    r: Seq<Option<HttpSeries>>,
)
    requires
        slots.len() == HTTP_SERIES_SLOTS,
        r.len() == HTTP_SERIES_SLOTS,
        forall|i: int| 0 <= i < slots.len() ==> (#[trigger] slots[i] matches Some(s) ==> s.wf()),
        http_series_match(items, present_slots(slots, HTTP_SERIES_SLOTS as int)),
        http_slots_from(r, items, items.len() as int),
    ensures
        same_pattern(r, slots),
        forall|i: int|
            0 <= i < slots.len() ==> (#[trigger] slots[i] matches Some(s) ==> r[i] matches Some(t)
                && same_series(t, s)),
{
    let p = present_slots(slots, HTTP_SERIES_SLOTS as int);
    lemma_present_slots(slots, HTTP_SERIES_SLOTS as int);
    lemma_http_snapshot_accepted(slots, items, items.len() as int);
    assert forall|i: int| 0 <= i < slots.len() implies ((#[trigger] r[i]) is Some <==> slots[i] is Some)
        && (slots[i] matches Some(s) ==> r[i] matches Some(t) && same_series(t, s)) by {
        if slots[i] is Some {
            let k = choose|k: int| 0 <= k < p.len() && p[k].0 == i;
            assert(http_item_slot(items[k]) == Some(i));
        } else if r[i] is Some {
            let k = choose|k: int| 0 <= k < items.len() && http_item_slot(items[k]) == Some(i);
            assert(http_item_slot(items[k]) == Some(p[k].0));
        }
    }
}

proof fn lemma_http_describes_transfer(
    slots: Seq<Option<HttpSeries>>,
    r: Seq<Option<HttpSeries>>,
    items: Seq<DurableHttpSeries>,
)
    requires
        slots.len() == HTTP_SERIES_SLOTS,
        same_pattern(r, slots),
        forall|i: int|
            0 <= i < slots.len() ==> (#[trigger] slots[i] matches Some(s) ==> r[i] matches Some(t)
                && same_series(t, s)),
        http_series_match(items, present_slots(slots, HTTP_SERIES_SLOTS as int)),
    ensures
        http_series_match(items, present_slots(r, HTTP_SERIES_SLOTS as int)),
{
    let n = HTTP_SERIES_SLOTS as int;
    lemma_present_slots(slots, n);
    lemma_present_slots(r, n);
    lemma_present_same_pattern(r, slots, n);
    let ps = present_slots(slots, n);
    let pr = present_slots(r, n);
    assert forall|k: int| 0 <= k < items.len() implies {
        let slot = pr[k].0;
        let s = pr[k].1;
        &&& (#[trigger] items[k]).method@ == method_labels()[slot / 220]@
        &&& items[k].route@ == series_route_labels()[(slot / 5) % 44]@
        &&& items[k].status_class@ == status_labels()[slot % 5]@
        &&& items[k].count == s.count
        &&& items[k].sum_nanos == s.sum_nanos
        &&& items[k].buckets@ == s.buckets@
    } by {
        assert(pr[k].0 == ps[k].0);
        let i = ps[k].0;
        assert(slots[i] == Some(ps[k].1));
        assert(r[i] == Some(pr[k].1));
    }
}

} // verus!

verus! {

proof fn lemma_contains_middle(x: Seq<char>, n: Seq<char>, y: Seq<char>)
    ensures
        crate::text::has_substring(x + n + y, n),
{
    assert((x + n + y).subrange(x.len() as int, (x.len() + n.len()) as int) =~= n);
    assert(crate::text::occurs_at(x + n + y, n, x.len() as int));
}

/// The rendered text of loaded aggregates holds the `snapshot_loaded 1` line.
proof fn lemma_loaded_line_rendered(m: Metrics)
    requires
        m.snapshot_loaded,
    ensures
        crate::text::has_substring(
            render_text(m),
            value_line("paper_raid_bff_metrics_snapshot_loaded "@, 1),
        ),
{
    let n = value_line("paper_raid_bff_metrics_snapshot_loaded "@, 1);
    let s = scalar_text(m);
    let head = render_text(m).subrange(0, render_text(m).len() - s.len());
    assert(render_text(m) =~= head + s);
    let x = head + block(
        "# HELP paper_raid_bff_stale_ui_reloads_total Browser reloads caused by an authoritative teammate mutation.\n"@,
        "# TYPE paper_raid_bff_stale_ui_reloads_total counter\n"@,
        value_line("paper_raid_bff_stale_ui_reloads_total "@, m.stale_ui_reloads as nat),
    ) + block(
        "# HELP paper_raid_bff_match_queue_depth Queued tickets in the last authoritative lobby snapshot.\n"@,
        "# TYPE paper_raid_bff_match_queue_depth gauge\n"@,
        value_line("paper_raid_bff_match_queue_depth "@, m.match_queue_depth as nat),
    ) + block(
        "# HELP paper_raid_bff_match_queue_eta_tickets Tickets with and without an authoritative ETA in the last lobby snapshot.\n"@,
        "# TYPE paper_raid_bff_match_queue_eta_tickets gauge\n"@,
        value_line(
            "paper_raid_bff_match_queue_eta_tickets{availability=\"available\"} "@,
            m.match_eta_available as nat,
        ) + value_line(
            "paper_raid_bff_match_queue_eta_tickets{availability=\"unavailable\"} "@,
            m.match_eta_unavailable as nat,
        ),
    ) + block(
        "# HELP paper_raid_bff_match_queue_snapshot_available Whether the latest lobby read produced an authoritative ticket snapshot.\n"@,
        "# TYPE paper_raid_bff_match_queue_snapshot_available gauge\n"@,
        value_line(
            "paper_raid_bff_match_queue_snapshot_available "@,
            flag(m.match_snapshot_available),
        ),
    ) + "# HELP paper_raid_bff_metrics_snapshot_loaded Whether a durable aggregate snapshot was loaded at startup.\n"@
        + "# TYPE paper_raid_bff_metrics_snapshot_loaded gauge\n"@;
    let y = block(
        "# HELP paper_raid_bff_metrics_snapshot_persisted Whether the latest in-memory revision is durable.\n"@,
        "# TYPE paper_raid_bff_metrics_snapshot_persisted gauge\n"@,
        value_line("paper_raid_bff_metrics_snapshot_persisted "@, flag(m.snapshot_persisted)),
    ) + block(
        "# HELP paper_raid_bff_metrics_snapshot_revision Current aggregate snapshot revision.\n"@,
        "# TYPE paper_raid_bff_metrics_snapshot_revision gauge\n"@,
        value_line("paper_raid_bff_metrics_snapshot_revision "@, m.revision as nat),
    );
    assert(render_text(m) =~= x + n + y);
    lemma_contains_middle(x, n, y);
}

/// A snapshot of the aggregates is always accepted by `restore_snapshot`,
/// and the aggregates it restores hold the same counters and series and
/// give back the very same snapshot, now clean and marked as loaded.
pub proof fn lemma_snapshot_round_trip(m: Metrics, d: DurableMetricsSnapshot, r: Metrics)
    requires
        m.wf(),
        m.snapshot_describes(d),
        r.restored_from(d),
    ensures
        snapshot_error(d) is None,
        r.snapshot_describes(d),
        same_pattern(r.http@, m.http@),
        forall|i: int|
            0 <= i < m.http@.len() ==> (#[trigger] m.http@[i] matches Some(s) ==> r.http@[i] matches Some(
                t,
            ) && same_series(t, s)),
        r.hepta_errors@ == m.hepta_errors@,
        r.bridge_events@ == m.bridge_events@,
        r.invite_events@ == m.invite_events@,
        r.product_events@ == m.product_events@,
        r.stale_ui_reloads == m.stale_ui_reloads,
        r.match_queue_depth == m.match_queue_depth,
        r.match_eta_available == m.match_eta_available,
        r.match_eta_unavailable == m.match_eta_unavailable,
        r.match_snapshot_available == m.match_snapshot_available,
        r.revision == m.revision,
        !r.dirty,
        r.snapshot_loaded,
        crate::text::has_substring(
            render_text(r),
            value_line("paper_raid_bff_metrics_snapshot_loaded "@, 1),
        ),
{
    lemma_loaded_line_rendered(r);
    lemma_hepta_labels_distinct();
    lemma_invite_labels_distinct();
    lemma_product_labels_distinct();
    lemma_present_slots(m.http@, HTTP_SERIES_SLOTS as int);
    lemma_present_slots(m.hepta_errors@, 7);
    lemma_present_slots(m.bridge_events@, 12);
    lemma_present_slots(m.invite_events@, 5);
    lemma_present_slots(m.product_events@, 2);
    lemma_http_snapshot_accepted(m.http@, d.http@, d.http@.len() as int);
    lemma_named_snapshot_accepted(
        m.hepta_errors@,
        d.hepta_errors@,
        hepta_error_labels(),
        MetricsSnapshotError::UnknownHeptaError,
        MetricsSnapshotError::DuplicateHeptaError,
        d.hepta_errors@.len() as int,
    );
    lemma_bridge_snapshot_accepted(m.bridge_events@, d.bridge_events@, d.bridge_events@.len() as int);
    lemma_named_snapshot_accepted(
        m.invite_events@,
        d.invite_events@,
        invite_outcome_labels(),
        MetricsSnapshotError::UnknownInviteOutcome,
        MetricsSnapshotError::DuplicateInviteOutcome,
        d.invite_events@.len() as int,
    );
    lemma_named_snapshot_accepted(
        m.product_events@,
        d.product_events@,
        product_event_labels(),
        MetricsSnapshotError::UnknownProductEvent,
        MetricsSnapshotError::DuplicateProductEvent,
        d.product_events@.len() as int,
    );
    lemma_http_restore_agrees(m.http@, d.http@, r.http@);
    lemma_http_describes_transfer(m.http@, r.http@, d.http@);
    lemma_named_restore_same(m.hepta_errors@, d.hepta_errors@, hepta_error_labels(), r.hepta_errors@);
    lemma_bridge_restore_same(m.bridge_events@, d.bridge_events@, r.bridge_events@);
    lemma_named_restore_same(m.invite_events@, d.invite_events@, invite_outcome_labels(), r.invite_events@);
    lemma_named_restore_same(m.product_events@, d.product_events@, product_event_labels(), r.product_events@);
}

/// Every observation leaves the aggregates dirty and unpersisted, and a
/// persistence acknowledgement for an older revision never clears them.
pub proof fn lemma_stale_ack_keeps_dirty(m: Metrics, revision: u64)
    requires
        m.revision < u64::MAX,
        revision == m.revision,
    ensures
        m.changed().dirty,
        !m.changed().snapshot_persisted,
        m.changed().revision != revision,
{
}

} // verus!

verus! {

/// A request matched to the proposals route counts one Bridge event of the
/// `work_submit` operation, one matched to the pair route one of `pairing`,
/// and a request under any other route counts no Bridge event.
pub proof fn lemma_bridge_route_operations(matched: Option<Seq<char>>)
    ensures
        matched == Some("/api/agent-bridge/proposals"@) ==> (bridge_operation_for_route(
            route_index(matched),
        ) matches Some(op) && bridge_operation_labels()[op]@ == "work_submit"@),
        matched == Some("/api/agent-bridge/pair"@) ==> (bridge_operation_for_route(
            route_index(matched),
        ) matches Some(op) && bridge_operation_labels()[op]@ == "pairing"@),
        bridge_operation_for_route(route_index(matched)) is Some ==> matched == Some(
            "/api/agent-bridge/proposals"@,
        ) || matched == Some("/api/agent-bridge/pair"@),
{
    lemma_route_labels_distinct();
    let labels = series_route_labels();
    assert(labels[13]@ == "/api/agent-bridge/proposals"@);
    assert(labels[6]@ == "/api/agent-bridge/pair"@);
    assert(is_first_label(labels, labels[13]@, 13));
    assert(is_first_label(labels, labels[6]@, 6));
    lemma_first_label_unique(labels, labels[13]@, 13);
    lemma_first_label_unique(labels, labels[6]@, 6);
    match matched {
        Some(r) => {
            if exists|i: int| is_first_label(labels, r, i) {
                let i = choose|i: int| is_first_label(labels, r, i);
                assert(is_first_label(labels, r, i));
            }
        },
        None => {},
    }
}

} // verus!
