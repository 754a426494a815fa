use crate::queue::Queue;
use crate::remotekeyboard::{Keys, SpecialKey};
use vstd::prelude::*;

verus! {

/// A remote call failed, timed out, or its endpoint vanished.
#[derive(Debug, Clone)]
pub struct TransportError {
    pub message: String,
}

/// Where the relay stands within one tick.
#[derive(Debug, Clone, Copy, PartialEq, Eq, Structural)]
pub enum Phase {
    /// No tick in progress.
    Idle,
    /// Waiting for the endpoint listing.
    Listing,
    /// Waiting for the selected endpoint's readiness.
    Querying,
    /// Waiting for the outcome of sending the head key.
    Sending,
}

/// The remote call that the driver is to make next, if any.
#[derive(Debug, Clone)]
pub enum Action {
    /// List the paired, reachable endpoints.
    ListEndpoints,
    /// Ask the endpoint with this identifier whether it accepts keys.
    QueryReadiness(String),
    /// Send this key to the endpoint with this identifier.
    SendKey(String, Keys),
    /// Nothing more this tick.
    Idle,
}

/// The abstract value of an `Action`.
pub ghost enum Request {
    ListEndpoints,
    QueryReadiness(Seq<char>),
    SendKey(Seq<char>, Keys),
    Idle,
}

impl View for Action {
    type V = Request;

    open spec fn view(&self) -> Request {
        match self {
            Action::ListEndpoints => Request::ListEndpoints,
            Action::QueryReadiness(id) => Request::QueryReadiness(id@),
            Action::SendKey(id, k) => Request::SendKey(id@, *k),
            Action::Idle => Request::Idle,
        }
    }
}

/// What the driver hands back: the start of a tick, or the outcome of a call.
/// A failed call carries `None` or `false`.
pub ghost enum Signal {
    Tick,
    Endpoints(Option<Seq<Seq<char>>>),
    Readiness(Option<bool>),
    Sent(bool),
}

/// The abstract state of the relay.
pub ghost struct RelayState {
    /// Keys waiting to be sent, head first.
    pub keys: Seq<Keys>,
    /// Identifiers of the endpoints of the latest listing.
    pub endpoints: Seq<Seq<char>>,
    /// Index of the endpoint chosen by the user; it may point past the listing.
    pub selected: nat,
    /// Whether the endpoint last asked accepts keys.
    pub ready: bool,
    pub phase: Phase,
    /// The endpoint addressed during the current tick.
    pub target: Seq<char>,
}

/// The state of a fresh relay.
pub open spec fn initial_state() -> RelayState {
    RelayState {
        keys: Seq::empty(),
        endpoints: Seq::empty(),
        selected: 0,
        ready: false,
        phase: Phase::Idle,
        target: Seq::empty(),
    }
}

/// One transition: the next state and the call to make next.
///
/// A tick lists the endpoints; a failed listing counts as an empty one.
/// With the selection inside the listing, the selected endpoint is asked for
/// its readiness (a failed answer counts as not ready); otherwise the tick
/// ends there and the relay is not ready. When ready and a key is waiting,
/// the head key is sent, and it leaves the queue only when the send
/// succeeded. A signal that does not answer the pending call ends the tick
/// and changes nothing else.
pub open spec fn step(s: RelayState, sig: Signal) -> (RelayState, Request) {
    let quiet = (RelayState { phase: Phase::Idle, ..s }, Request::Idle);
    match sig {
        Signal::Tick => (RelayState { phase: Phase::Listing, ..s }, Request::ListEndpoints),
        Signal::Endpoints(listing) => {
            if s.phase != Phase::Listing {
                quiet
            } else {
                let eps = match listing {
                    Some(l) => l,
                    None => Seq::empty(),
                };
                if s.selected < eps.len() {
                    let id = eps[s.selected as int];
                    (
                        RelayState { endpoints: eps, phase: Phase::Querying, target: id, ..s },
                        Request::QueryReadiness(id),
                    )
                } else {
                    (RelayState { endpoints: eps, ready: false, phase: Phase::Idle, ..s }, Request::Idle)
                }
            }
        },
        Signal::Readiness(answer) => {
            if s.phase != Phase::Querying {
                quiet
            } else {
                let ready = answer == Some(true);
                if ready && s.keys.len() > 0 {
                    (
                        RelayState { ready: true, phase: Phase::Sending, ..s },
                        Request::SendKey(s.target, s.keys[0]),
                    )
                } else {
                    (RelayState { ready: ready, phase: Phase::Idle, ..s }, Request::Idle)
                }
            }
        },
        Signal::Sent(ok) => {
            if s.phase != Phase::Sending {
                quiet
            } else {
                let keys = if ok && s.keys.len() > 0 {
                    s.keys.drop_first()
                } else {
                    s.keys
                };
                (RelayState { keys: keys, phase: Phase::Idle, ..s }, Request::Idle)
            }
        },
    }
}

/// The final state and the calls asked for when the signals `sigs` arrive in order.
pub open spec fn run(s: RelayState, sigs: Seq<Signal>) -> (RelayState, Seq<Request>)
    decreases sigs.len(),
{
    if sigs.len() == 0 {
        (s, Seq::empty())
    } else {
        let first = step(s, sigs[0]);
        let rest = run(first.0, sigs.drop_first());
        (rest.0, seq![first.1] + rest.1)
    }
}

/// How many of the calls asked for are sends.
pub open spec fn sends(reqs: Seq<Request>) -> nat
    decreases reqs.len(),
{
    if reqs.len() == 0 {
        0
    } else {
        (if reqs[0] is SendKey {
            1nat
        } else {
            0nat
        }) + sends(reqs.drop_first())
    }
}

/// The result type of a listing, seen as a value: `None` when the call failed.
pub open spec fn listing_view(listing: Result<Vec<String>, TransportError>) -> Option<Seq<Seq<char>>> {
    match listing {
        Ok(v) => Some(v@.map_values(|e: String| e@)),
        Err(_) => None,
    }
}

/// The result of a readiness query, seen as a value: `None` when the call failed.
pub open spec fn readiness_view(answer: Result<bool, TransportError>) -> Option<bool> {
    match answer {
        Ok(b) => Some(b),
        Err(_) => None,
    }
}

/// Whether `c` is a printable ASCII character: a space, a letter, a digit or a
/// punctuation mark, not a control character.
pub open spec fn is_printable_ascii(c: char) -> bool {
    32 <= (c as u32) < 127
}

/// The state after the character `c` is typed: it joins the tail of the
/// waiting keys when printable, whatever the readiness.
pub open spec fn typed(s: RelayState, c: char) -> RelayState {
    if is_printable_ascii(c) {
        RelayState { keys: s.keys.push(char_key(c)), ..s }
    } else {
        s
    }
}

/// The state after the characters `cs` are typed in order.
pub open spec fn typed_all(s: RelayState, cs: Seq<char>) -> RelayState
    decreases cs.len(),
{
    if cs.len() == 0 {
        s
    } else {
        typed_all(typed(s, cs[0]), cs.drop_first())
    }
}

/// The key that stands for the typed character `c`.
pub open spec fn char_key(c: char) -> Keys {
    Keys::Char(c)
}

/// The keys that stand for the characters `cs`, in order.
pub open spec fn char_keys(cs: Seq<char>) -> Seq<Keys>
    decreases cs.len(),
{
    if cs.len() == 0 {
        Seq::empty()
    } else {
        seq![char_key(cs[0])] + char_keys(cs.drop_first())
    }
}

/// Typed keys keep their order: printable characters typed one after another,
/// ready or not, join the tail of the waiting keys in the order in which they
/// were typed, behind the keys already waiting, and nothing else changes.
pub proof fn lemma_typed_in_order(s: RelayState, cs: Seq<char>)
    requires
        forall|i: int| 0 <= i < cs.len() ==> is_printable_ascii(#[trigger] cs[i]),
    ensures
        typed_all(s, cs) == (RelayState { keys: s.keys + char_keys(cs), ..s }),
    decreases cs.len(),
{
    if cs.len() == 0 {
        assert(s.keys + char_keys(cs) =~= s.keys);
    } else {
        let rest = cs.drop_first();
        assert(is_printable_ascii(cs[0]));
        assert forall|i: int| 0 <= i < rest.len() implies is_printable_ascii(#[trigger] rest[i]) by {
            assert(rest[i] == cs[i + 1]);
        }
        let next = typed(s, cs[0]);
        lemma_typed_in_order(next, rest);
        let k = char_key(cs[0]);
        assert(next.keys == s.keys.push(k));
        assert(char_keys(cs) == seq![k] + char_keys(rest));
        assert(s.keys.push(k) + char_keys(rest) =~= s.keys + (seq![k] + char_keys(rest)));
        assert(typed_all(s, cs) == typed_all(next, rest));
    }
}

/// Whether no signal in `sigs` starts a new tick.
pub open spec fn within_tick(sigs: Seq<Signal>) -> bool {
    forall|i: int| 0 <= i < sigs.len() ==> !(#[trigger] sigs[i] is Tick)
}

/// The number of sends still possible within a tick from phase `p`.
spec fn send_budget(p: Phase) -> nat {
    match p {
        Phase::Listing | Phase::Querying => 1,
        _ => 0,
    }
}

proof fn lemma_sends_within_budget(s: RelayState, sigs: Seq<Signal>)
    requires
        within_tick(sigs),
    ensures
        sends(run(s, sigs).1) <= send_budget(s.phase),
    decreases sigs.len(),
{
    if sigs.len() > 0 {
        let first = step(s, sigs[0]);
        let rest = sigs.drop_first();
        assert(!(sigs[0] is Tick));
        assert forall|i: int| 0 <= i < rest.len() implies !(#[trigger] rest[i] is Tick) by {
            assert(rest[i] == sigs[i + 1]);
        }
        lemma_sends_within_budget(first.0, rest);
        let reqs = run(s, sigs).1;
        assert(reqs[0] == first.1);
        assert(reqs.drop_first() =~= run(first.0, rest).1);
    }
}

/// At most one send per tick: whatever outcomes arrive after a tick starts,
/// and however many keys are waiting, at most one send is asked for before
/// the next tick starts.
pub proof fn lemma_one_send_per_tick(s: RelayState, sigs: Seq<Signal>)
    requires
        within_tick(sigs),
    ensures
        sends(run(step(s, Signal::Tick).0, sigs).1) <= 1,
{
    lemma_sends_within_budget(step(s, Signal::Tick).0, sigs);
}

/// Retry under failure: as long as no send succeeds, over any number of ticks,
/// the waiting keys stay exactly as they were, and every send asked for
/// carries the same head key.
pub proof fn lemma_failed_sends_keep_queue(s: RelayState, sigs: Seq<Signal>)
    requires
        forall|i: int| 0 <= i < sigs.len() ==> #[trigger] sigs[i] != Signal::Sent(true),
    ensures
        run(s, sigs).0.keys == s.keys,
        forall|i: int|
            0 <= i < run(s, sigs).1.len() && (#[trigger] run(s, sigs).1[i]) is SendKey
                ==> run(s, sigs).1[i]->1 == s.keys[0],
    decreases sigs.len(),
{
    if sigs.len() > 0 {
        let first = step(s, sigs[0]);
        let rest = sigs.drop_first();
        assert(sigs[0] != Signal::Sent(true));
        assert(first.0.keys == s.keys);
        assert forall|i: int| 0 <= i < rest.len() implies #[trigger] rest[i] != Signal::Sent(true) by {
            assert(rest[i] == sigs[i + 1]);
        }
        lemma_failed_sends_keep_queue(first.0, rest);
        let reqs = run(s, sigs).1;
        let tail = run(first.0, rest).1;
        assert forall|i: int| 0 <= i < reqs.len() && (#[trigger] reqs[i]) is SendKey implies reqs[i]->1
            == s.keys[0] by {
            if i > 0 {
                assert(reqs[i] == tail[i - 1]);
            }
        }
    }
}

/// A run over `a + b` is the run over `a` followed by the run over `b`.
pub proof fn lemma_run_append(s: RelayState, a: Seq<Signal>, b: Seq<Signal>)
    ensures
        run(s, a + b).0 == run(run(s, a).0, b).0,
        run(s, a + b).1 == run(s, a).1 + run(run(s, a).0, b).1,
    decreases a.len(),
{
    if a.len() == 0 {
        assert(a + b =~= b);
        assert(run(s, a).1 + run(s, b).1 =~= run(s, b).1);
    } else {
        let first = step(s, a[0]);
        assert((a + b)[0] == a[0]);
        assert((a + b).drop_first() =~= a.drop_first() + b);
        lemma_run_append(first.0, a.drop_first(), b);
        let mid = run(first.0, a.drop_first());
        let last = run(mid.0, b);
        assert(seq![first.1] + (mid.1 + last.1) =~= (seq![first.1] + mid.1) + last.1);
    }
}

/// The signals of one tick in which the listing is `ids`, the selected
/// endpoint is ready, and the send fails.
pub open spec fn failing_tick(ids: Seq<Seq<char>>) -> Seq<Signal> {
    seq![Signal::Tick, Signal::Endpoints(Some(ids)), Signal::Readiness(Some(true)), Signal::Sent(false)]
}

/// `n` such ticks in a row.
pub open spec fn failing_ticks(ids: Seq<Seq<char>>, n: nat) -> Seq<Signal>
    decreases n,
{
    if n == 0 {
        Seq::empty()
    } else {
        failing_tick(ids) + failing_ticks(ids, (n - 1) as nat)
    }
}

/// The calls asked for in one tick that sends `key` to endpoint `id`.
pub open spec fn sending_tick_requests(id: Seq<char>, key: Keys) -> Seq<Request> {
    seq![Request::ListEndpoints, Request::QueryReadiness(id), Request::SendKey(id, key), Request::Idle]
}

/// `reqs` repeated `n` times.
pub open spec fn repeated(reqs: Seq<Request>, n: nat) -> Seq<Request>
    decreases n,
{
    if n == 0 {
        Seq::empty()
    } else {
        reqs + repeated(reqs, (n - 1) as nat)
    }
}

proof fn lemma_one_failing_tick(s: RelayState, ids: Seq<Seq<char>>)
    requires
        s.selected < ids.len(),
        s.keys.len() > 0,
    ensures
        run(s, failing_tick(ids)).0 == (RelayState {
            endpoints: ids,
            ready: true,
            phase: Phase::Idle,
            target: ids[s.selected as int],
            ..s
        }),
        run(s, failing_tick(ids)).1 == sending_tick_requests(ids[s.selected as int], s.keys[0]),
{
    let sigs = failing_tick(ids);
    let s1 = step(s, sigs[0]).0;
    let s2 = step(s1, sigs[1]).0;
    let s3 = step(s2, sigs[2]).0;
    let s4 = step(s3, sigs[3]).0;
    assert(sigs.drop_first() =~= seq![sigs[1], sigs[2], sigs[3]]);
    assert(sigs.drop_first().drop_first() =~= seq![sigs[2], sigs[3]]);
    assert(sigs.drop_first().drop_first().drop_first() =~= seq![sigs[3]]);
    assert(sigs.drop_first().drop_first().drop_first().drop_first() =~= Seq::<Signal>::empty());
    let r4 = run(s4, Seq::<Signal>::empty());
    let r3 = run(s3, seq![sigs[3]]);
    let r2 = run(s2, seq![sigs[2], sigs[3]]);
    let r1 = run(s1, seq![sigs[1], sigs[2], sigs[3]]);
    let r0 = run(s, sigs);
    assert(seq![sigs[3]].drop_first() =~= Seq::<Signal>::empty());
    assert(seq![sigs[2], sigs[3]].drop_first() =~= seq![sigs[3]]);
    assert(seq![sigs[1], sigs[2], sigs[3]].drop_first() =~= seq![sigs[2], sigs[3]]);
    assert(r0.1 =~= sending_tick_requests(ids[s.selected as int], s.keys[0]));
}

/// Retry over any number of ticks: while the selected endpoint stays listed
/// and ready and every send fails, each of `n` ticks asks for exactly one
/// send, of the same head key to the same endpoint, and after every one of
/// them the waiting keys are exactly what they were.
pub proof fn lemma_failing_ticks_retry_head(s: RelayState, ids: Seq<Seq<char>>, n: nat)
    requires
        s.selected < ids.len(),
        s.keys.len() > 0,
    ensures
        run(s, failing_ticks(ids, n)).0.keys == s.keys,
        run(s, failing_ticks(ids, n)).1 == repeated(
            sending_tick_requests(ids[s.selected as int], s.keys[0]),
            n,
        ),
    decreases n,
{
    if n > 0 {
        let t = failing_tick(ids);
        let more = failing_ticks(ids, (n - 1) as nat);
        lemma_run_append(s, t, more);
        lemma_one_failing_tick(s, ids);
        let s1 = run(s, t).0;
        lemma_failing_ticks_retry_head(s1, ids, (n - 1) as nat);
    } else {
        assert(run(s, failing_ticks(ids, n)).1 =~= repeated(
            sending_tick_requests(ids[s.selected as int], s.keys[0]),
            n,
        ));
    }
}

proof fn lemma_idle_stays_quiet(s: RelayState, sigs: Seq<Signal>)
    requires
        s.phase == Phase::Idle,
        within_tick(sigs),
    ensures
        run(s, sigs).0 == s,
        forall|i: int| 0 <= i < run(s, sigs).1.len() ==> #[trigger] run(s, sigs).1[i] == Request::Idle,
    decreases sigs.len(),
{
    if sigs.len() > 0 {
        let first = step(s, sigs[0]);
        let rest = sigs.drop_first();
        assert(!(sigs[0] is Tick));
        assert(first.0 == s);
        assert forall|i: int| 0 <= i < rest.len() implies !(#[trigger] rest[i] is Tick) by {
            assert(rest[i] == sigs[i + 1]);
        }
        lemma_idle_stays_quiet(first.0, rest);
        let reqs = run(s, sigs).1;
        let tail = run(first.0, rest).1;
        assert forall|i: int| 0 <= i < reqs.len() implies #[trigger] reqs[i] == Request::Idle by {
            if i > 0 {
                assert(reqs[i] == tail[i - 1]);
            }
        }
    }
}

/// No endpoints, no session: when the listing of a tick is empty, neither a
/// readiness query nor a send is asked for for the rest of the tick, and the
/// waiting keys are left as they were.
pub proof fn lemma_no_endpoints_no_session(s: RelayState, sigs: Seq<Signal>)
    requires
        s.phase == Phase::Listing,
        within_tick(sigs),
    ensures
        ({
            let r = run(s, seq![Signal::Endpoints(Some(Seq::empty()))].add(sigs));
            &&& r.0.keys == s.keys
            &&& forall|i: int| 0 <= i < r.1.len() ==> #[trigger] r.1[i] == Request::Idle
        }),
{
    let all = seq![Signal::Endpoints(Some(Seq::empty()))].add(sigs);
    let first = step(s, all[0]);
    assert(all.drop_first() =~= sigs);
    lemma_idle_stays_quiet(first.0, sigs);
    let reqs = run(s, all).1;
    let tail = run(first.0, sigs).1;
    assert forall|i: int| 0 <= i < reqs.len() implies #[trigger] reqs[i] == Request::Idle by {
        if i > 0 {
            assert(reqs[i] == tail[i - 1]);
        }
    }
}

/// The relay: the pending keys, the endpoint selection, and the progress of the
/// current tick.
pub struct Relay {
    keys: Queue<Keys>,
    endpoints: Vec<String>,
    selected: usize,
    ready: bool,
    phase: Phase,
    target: String,
}

impl View for Relay {
    type V = RelayState;

    closed spec fn view(&self) -> RelayState {
        RelayState {
            keys: self.keys@,
            endpoints: self.endpoints@.map_values(|e: String| e@),
            selected: self.selected as nat,
            ready: self.ready,
            phase: self.phase,
            target: self.target@,
        }
    }
}

impl Relay {
    pub fn new() -> (r: Relay)
        ensures
            r@ == initial_state(),
    {
        let r = Relay {
            keys: Queue::new(),
            endpoints: Vec::new(),
            selected: 0,
            ready: false,
            phase: Phase::Idle,
            target: String::new(),
        };
        proof {
            assert(r@.endpoints =~= Seq::<Seq<char>>::empty());
        }
        r
    }

    /// Starts a tick.
    pub fn begin_tick(&mut self) -> (r: Action)
        ensures
            (final(self)@, r@) == step(old(self)@, Signal::Tick),
    {
        self.phase = Phase::Listing;
        Action::ListEndpoints
    }

    /// Takes the outcome of listing the endpoints.
    pub fn on_endpoints(&mut self, listing: Result<Vec<String>, TransportError>) -> (r: Action)
        ensures
            (final(self)@, r@) == step(old(self)@, Signal::Endpoints(listing_view(listing))),
    {
        if self.phase != Phase::Listing {
            self.phase = Phase::Idle;
            return Action::Idle;
        }
        let eps = match listing {
            Ok(v) => v,
            Err(_) => Vec::new(),
        };
        self.endpoints = eps;
        proof {
            if listing is Err {
                assert(self@.endpoints =~= Seq::<Seq<char>>::empty());
            }
        }
        if self.selected < self.endpoints.len() {
            let id = self.endpoints[self.selected].clone();
            self.target = id.clone();
            self.phase = Phase::Querying;
            Action::QueryReadiness(id)
        } else {
            self.ready = false;
            self.phase = Phase::Idle;
            Action::Idle
        }
    }

    /// Takes the outcome of asking the selected endpoint whether it accepts keys.
    pub fn on_readiness(&mut self, answer: Result<bool, TransportError>) -> (r: Action)
        ensures
            (final(self)@, r@) == step(old(self)@, Signal::Readiness(readiness_view(answer))),
    {
        if self.phase != Phase::Querying {
            self.phase = Phase::Idle;
            return Action::Idle;
        }
        let ready = match answer {
            Ok(b) => b,
            Err(_) => false,
        };
        self.ready = ready;
        if ready {
            if let Some(k) = self.keys.peek() {
                let key = *k;
                self.phase = Phase::Sending;
                return Action::SendKey(self.target.clone(), key);
            }
        }
        self.phase = Phase::Idle;
        Action::Idle
    }

    /// Takes the outcome of sending the head key.
    pub fn on_sent(&mut self, outcome: Result<(), TransportError>) -> (r: Action)
        ensures
            (final(self)@, r@) == step(old(self)@, Signal::Sent(outcome is Ok)),
    {
        if self.phase != Phase::Sending {
            self.phase = Phase::Idle;
            return Action::Idle;
        }
        if outcome.is_ok() {
            self.keys.dequeue();
        }
        self.phase = Phase::Idle;
        Action::Idle
    }
    /// Buffers `key` behind the keys already waiting.
    pub fn enqueue(&mut self, key: Keys)
        ensures
            final(self)@ == (RelayState { keys: old(self)@.keys.push(key), ..old(self)@ }),
    {
        self.keys.enqueue(key);
    }

    /// A typed character: buffered, whatever the readiness, when it is
    /// printable ASCII; other characters are ignored.
    pub fn on_char(&mut self, c: char)
        ensures
            final(self)@ == typed(old(self)@, c),
    {
        let code = c as u32;
        if 32 <= code && code < 127 {
            self.keys.enqueue(Keys::Char(c));
        }
    }

    /// A pressed special key: always buffered, whatever the readiness.
    pub fn on_special(&mut self, key: SpecialKey)
        ensures
            final(self)@ == (RelayState { keys: old(self)@.keys.push(Keys::Special(key)), ..old(self)@ }),
    {
        self.keys.enqueue(Keys::Special(key));
    }

    /// The user's choice of endpoint, by its index in the listing.
    pub fn select(&mut self, index: usize)
        ensures
            final(self)@ == (RelayState { selected: index as nat, ..old(self)@ }),
    {
        self.selected = index;
    }

    pub fn is_ready(&self) -> (r: bool)
        ensures
            r == self@.ready,
    {
        self.ready
    }

    pub fn selected(&self) -> (r: usize)
        ensures
            r == self@.selected,
    {
        self.selected
    }

    pub fn phase(&self) -> (r: Phase)
        ensures
            r == self@.phase,
    {
        self.phase
    }

    /// Identifiers of the endpoints of the latest listing.
    pub fn endpoints(&self) -> (r: &Vec<String>)
        ensures
            r@.map_values(|e: String| e@) == self@.endpoints,
    {
        &self.endpoints
    }

    /// The keys waiting to be sent.
    pub fn pending(&self) -> (r: &Queue<Keys>)
        ensures
            r@ == self@.keys,
    {
        &self.keys
    }
}

} // verus!
