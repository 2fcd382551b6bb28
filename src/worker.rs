//! The probe scheduler's state and the decisions of each tick.
//!
//! The scheduler owns the target, the sequence counter, the history of outcomes
//! and the registered callback. Each tick runs in two steps: `begin_tick`
//! decides whether a probe is due and hands out its request, and
//! `finish_tick` records what the probe returned. Whoever drives the ticks
//! sends the probe in between and holds one lock around the whole tick.
use std::collections::VecDeque;
use vstd::prelude::*;
use crate::address::{DnsError, IpAddress};
use crate::fixed_size_deque::pushed;
use crate::result::{PingResult, PROBE_TTL};

verus! {

/// One probe to send: where to, and what its outcome will carry.
#[derive(Debug)]
pub struct ProbeRequest {
    pub hostname: String,
    pub ip_addr: IpAddress,
    pub icmp_seq: u64,
    pub ttl: u32,
}

/// The scheduler's state as a mathematical value.
pub ghost struct WorkerView<C> {
    /// The host string and the address it resolved to; `None` when unconfigured.
    pub target: Option<(Seq<char>, IpAddress)>,
    /// The sequence number of the last probe sent.
    pub icmp_seq: u64,
    /// How many outcomes the history keeps.
    pub capacity: nat,
    /// The kept outcomes, oldest first; `None` for a slot not yet filled.
    pub history: Seq<Option<PingResult>>,
    /// The callback to notify after each tick.
    pub on_tick: Option<C>,
}

/// The counter after one more probe (it wraps after `u64::MAX`).
pub open spec fn next_seq(n: u64) -> u64 {
    if n == u64::MAX {
        0
    } else {
        (n + 1) as u64
    }
}

/// A freshly built scheduler keeping `capacity` outcomes.
pub open spec fn initial_state<C>(capacity: nat) -> WorkerView<C> {
    WorkerView {
        target: None,
        icmp_seq: 0,
        capacity,
        history: Seq::new(capacity, |i: int| None::<PingResult>),
        on_tick: None,
    }
}

/// The state after setting the host `hostname`, which resolved to `resolved`
/// (`None`: it could not be resolved, and the target is cleared).
pub open spec fn after_set_hostname<C>(
    s: WorkerView<C>,
    hostname: Seq<char>,
    resolved: Option<IpAddress>,
) -> WorkerView<C> {
    WorkerView {
        target: match resolved {
            Some(a) => Some((hostname, a)),
            None => None,
        },
        ..s
    }
}

/// The state after registering the callback `f`, which replaces any earlier one.
pub open spec fn after_subscribe<C>(s: WorkerView<C>, f: C) -> WorkerView<C> {
    WorkerView { on_tick: Some(f), ..s }
}

/// `s` with one more outcome recorded.
pub open spec fn record<C>(s: WorkerView<C>, outcome: PingResult) -> WorkerView<C> {
    WorkerView { history: pushed(s.history, outcome, s.capacity), ..s }
}

/// The first step of a tick: with a target, the counter advances and a probe is
/// due; without one, `NotConfigured` is recorded at once.
pub open spec fn after_begin_tick<C>(s: WorkerView<C>) -> WorkerView<C> {
    match s.target {
        Some(_) => WorkerView { icmp_seq: next_seq(s.icmp_seq), ..s },
        None => record(s, PingResult::NotConfigured),
    }
}

/// The request is the one `begin_tick` hands out for the state `s`.
pub open spec fn is_request_for<C>(s: WorkerView<C>, r: Option<ProbeRequest>) -> bool {
    match s.target {
        Some((hostname, ip_addr)) => match r {
            Some(req) => {
                &&& req.hostname@ == hostname
                &&& req.ip_addr == ip_addr
                &&& req.icmp_seq == next_seq(s.icmp_seq)
                &&& req.ttl == PROBE_TTL
            },
            None => false,
        },
        None => r is None,
    }
}

/// The outcome of the probe `req` whose reply was `reply`: the round trip in
/// milliseconds, or the text of the transport error.
pub open spec fn reply_outcome(req: ProbeRequest, reply: Result<u128, String>) -> PingResult {
    match reply {
        Ok(ms) => PingResult::Done {
            hostname: req.hostname,
            icmp_seq: req.icmp_seq,
            ttl: req.ttl,
            round_trip_ms: ms,
        },
        Err(message) => PingResult::Error(message),
    }
}

/// The second step of a tick: the probe's outcome is recorded.
pub open spec fn after_finish_tick<C>(
    s: WorkerView<C>,
    req: ProbeRequest,
    reply: Result<u128, String>,
) -> WorkerView<C> {
    record(s, reply_outcome(req, reply))
}

impl PingResult {
    /// The outcome of the probe `request` whose reply was `reply`.
    pub fn from_reply(request: &ProbeRequest, reply: Result<u128, String>) -> (r: PingResult)
        ensures
            r == reply_outcome(*request, reply),
    {
        match reply {
            Ok(ms) => PingResult::Done {
                hostname: request.hostname.clone(),
                icmp_seq: request.icmp_seq,
                ttl: request.ttl,
                round_trip_ms: ms,
            },
            Err(message) => PingResult::Error(message),
        }
    }
}

/// The probe scheduler. `C` is the type of the callback notified after each tick.
pub struct Worker<C> {
    hostname_and_ip_addr: Option<(String, IpAddress)>,
    icmp_seq: u64,
    results_to_keep: usize,
    last_results: VecDeque<Option<PingResult>>,
    on_tick: Option<C>,
}

impl<C> View for Worker<C> {
    type V = WorkerView<C>;

    closed spec fn view(&self) -> WorkerView<C> {
        WorkerView {
            target: match self.hostname_and_ip_addr {
                Some((h, a)) => Some((h@, a)),
                None => None,
            },
            icmp_seq: self.icmp_seq,
            capacity: self.results_to_keep as nat,
            history: self.last_results@,
            on_tick: self.on_tick,
        }
    }
}

impl<C> Worker<C> {
    /// Well-formed: the history holds exactly `capacity` slots.
    pub open spec fn wf(&self) -> bool {
        self@.history.len() == self@.capacity
    }

    /// A scheduler with no target, its counter at zero, no callback, and a
    /// history of `results_to_keep` empty slots.
    pub fn new(results_to_keep: usize) -> (r: Self)
        ensures
            r.wf(),
            r@ == initial_state::<C>(results_to_keep as nat),
    {
        let mut last_results: VecDeque<Option<PingResult>> = VecDeque::new();
        let mut i: usize = 0;
        while i < results_to_keep
            invariant
                i <= results_to_keep,
                last_results@ == Seq::new(i as nat, |j: int| None::<PingResult>),
            decreases results_to_keep - i,
        {
            last_results.push_back(None);
            i = i + 1;
            assert(last_results@ =~= Seq::new(i as nat, |j: int| None::<PingResult>));
        }
        let r = Worker {
            hostname_and_ip_addr: None,
            icmp_seq: 0,
            results_to_keep,
            last_results,
            on_tick: None,
        };
        assert(r@.history =~= initial_state::<C>(results_to_keep as nat).history);
        r
    }

    /// Sets the target to `hostname`, which resolved to `resolved`. When it did
    /// not resolve, the target is cleared and `DnsError` comes back: the next
    /// tick then records `NotConfigured` rather than probe a stale address.
    pub fn set_hostname(&mut self, hostname: &str, resolved: Option<IpAddress>) -> (r: Result<
        (),
        DnsError,
    >)
        requires
            old(self).wf(),
        ensures
            final(self).wf(),
            final(self)@ == after_set_hostname(old(self)@, hostname@, resolved),
            r is Ok <==> resolved is Some,
    {
        match resolved {
            Some(ip_addr) => {
                self.hostname_and_ip_addr = Some((hostname.to_owned(), ip_addr));
                Ok(())
            },
            None => {
                self.hostname_and_ip_addr = None;
                Err(DnsError)
            },
        }
    }

    /// Registers `f` as the callback, replacing any earlier one.
    pub fn subscribe(&mut self, f: C)
        requires
            old(self).wf(),
        ensures
            final(self).wf(),
            final(self)@ == after_subscribe(old(self)@, f),
    {
        self.on_tick = Some(f);
    }

    /// The registered callback, if any.
    pub fn on_tick(&self) -> (r: Option<&C>)
        ensures
            match r {
                Some(f) => self@.on_tick == Some(*f),
                None => self@.on_tick is None,
            },
    {
        self.on_tick.as_ref()
    }

    /// The sequence number of the last probe sent.
    pub fn icmp_seq(&self) -> (r: u64)
        ensures
            r == self@.icmp_seq,
    {
        self.icmp_seq
    }

    /// The target's host string, or `None` when unconfigured.
    pub fn hostname(&self) -> (r: Option<String>)
        ensures
            match self@.target {
                Some((h, _)) => r matches Some(s) && s@ == h,
                None => r is None,
            },
    {
        match &self.hostname_and_ip_addr {
            Some((h, _)) => Some(h.clone()),
            None => None,
        }
    }

    /// Appends `outcome` to the history, dropping the oldest slot.
    fn record(&mut self, outcome: PingResult)
        requires
            old(self).wf(),
        ensures
            final(self).wf(),
            final(self)@ == record(old(self)@, outcome),
    {
        let ghost before = self.last_results@;
        if self.results_to_keep == 0 {
            assert(pushed(before, outcome, 0) =~= before);
            return;
        }
        self.last_results.pop_front();
        self.last_results.push_back(Some(outcome));
        assert(self.last_results@ =~= pushed(before, outcome, self.results_to_keep as nat));
    }

    /// The first step of a tick. With a target, advances the counter and hands
    /// out the probe to send; without one, records `NotConfigured` and hands out
    /// nothing.
    pub fn begin_tick(&mut self) -> (r: Option<ProbeRequest>)
        requires
            old(self).wf(),
        ensures
            final(self).wf(),
            final(self)@ == after_begin_tick(old(self)@),
            is_request_for(old(self)@, r),
    {
        match &self.hostname_and_ip_addr {
            Some((hostname, ip_addr)) => {
                let request = ProbeRequest {
                    hostname: hostname.clone(),
                    ip_addr: *ip_addr,
                    icmp_seq: self.icmp_seq.wrapping_add(1),
                    ttl: PROBE_TTL,
                };
                self.icmp_seq = request.icmp_seq;
                Some(request)
            },
            None => {
                self.record(PingResult::NotConfigured);
                None
            },
        }
    }

    /// The second step of a tick: records the outcome of `request`, whose
    /// reply was the round trip in milliseconds or the transport error's text.
    pub fn finish_tick(&mut self, request: &ProbeRequest, reply: Result<u128, String>)
        requires
            old(self).wf(),
        ensures
            final(self).wf(),
            final(self)@ == after_finish_tick(old(self)@, *request, reply),
    {
        let outcome = PingResult::from_reply(request, reply);
        self.record(outcome);
    }

    /// A copy of the history, oldest first.
    pub fn current_stats(&self) -> (r: Vec<Option<PingResult>>)
        requires
            self.wf(),
        ensures
            r@ == self@.history,
    {
        let mut result: Vec<Option<PingResult>> = Vec::new();
        let mut i: usize = 0;
        while i < self.last_results.len()
            invariant
                i <= self.last_results@.len(),
                result@ == self.last_results@.take(i as int),
            decreases self.last_results@.len() - i,
        {
            let slot = match &self.last_results[i] {
                Some(outcome) => Some(outcome.duplicate()),
                None => None,
            };
            result.push(slot);
            i = i + 1;
            assert(result@ =~= self.last_results@.take(i as int));
        }
        assert(self.last_results@.take(i as int) =~= self.last_results@);
        result
    }
}

/// The title shown for the host after a request to change it to `new_host`.
pub open spec fn host_title_text(new_host: Seq<char>, ok: bool) -> Seq<char> {
    if ok {
        "Host: "@ + new_host
    } else {
        "error setting hostname: "@ + crate::address::dns_error_text()
    }
}

/// The title shown for the host after `set_hostname(new_host)` returned `outcome`:
/// `Host: {new_host}`, or `error setting hostname: {error}`.
pub fn host_title(new_host: &str, outcome: &Result<(), DnsError>) -> (r: String)
    ensures
        r@ == host_title_text(new_host@, outcome is Ok),
{
    match outcome {
        Ok(()) => {
            let mut title = String::from_str("Host: ");
            title.append(new_host);
            title
        },
        Err(e) => {
            let mut title = String::from_str("error setting hostname: ");
            let message = e.message();
            title.append(message.as_str());
            title
        },
    }
}

/// A host that did not resolve leaves the scheduler unconfigured: the next tick
/// sends no probe, leaves the counter alone and records `NotConfigured`.
pub proof fn lemma_unresolved_host_records_not_configured<C>(s: WorkerView<C>, hostname: Seq<char>)
    requires
        s.history.len() == s.capacity,
        s.capacity >= 1,
    ensures
        after_set_hostname(s, hostname, None).target is None,
        forall|r: Option<ProbeRequest>| #[trigger]
            is_request_for(after_set_hostname(s, hostname, None), r) <==> r is None,
        after_begin_tick(after_set_hostname(s, hostname, None)).icmp_seq == s.icmp_seq,
        after_begin_tick(after_set_hostname(s, hostname, None)).history == pushed(
            s.history,
            PingResult::NotConfigured,
            s.capacity,
        ),
        after_begin_tick(after_set_hostname(s, hostname, None)).history.last() == Some(
            PingResult::NotConfigured,
        ),
{
}

/// A tick whose probe fails adds exactly one `Error` entry, carrying the
/// transport error's text, and still advances the counter.
pub proof fn lemma_failed_probe_records_error<C>(s: WorkerView<C>, req: ProbeRequest, message: String)
    requires
        s.history.len() == s.capacity,
        s.capacity >= 1,
        s.target is Some,
        is_request_for(s, Some(req)),
        message@.len() > 0,
    ensures
        after_finish_tick(after_begin_tick(s), req, Err(message)).icmp_seq == next_seq(s.icmp_seq),
        after_finish_tick(after_begin_tick(s), req, Err(message)).target == s.target,
        after_finish_tick(after_begin_tick(s), req, Err(message)).history == pushed(
            s.history,
            PingResult::Error(message),
            s.capacity,
        ),
        after_finish_tick(after_begin_tick(s), req, Err(message)).history.len() == s.capacity,
        after_finish_tick(after_begin_tick(s), req, Err(message)).history.last() matches Some(
            PingResult::Error(m),
        ) && m@.len() > 0,
{
}

/// A tick whose probe is answered records `Done` with the next sequence number,
/// one more than the last configured tick's, and a time-to-live of 64.
pub proof fn lemma_answered_probe_records_done<C>(s: WorkerView<C>, req: ProbeRequest, ms: u128)
    requires
        s.history.len() == s.capacity,
        s.capacity >= 1,
        s.target is Some,
        s.icmp_seq < u64::MAX,
        is_request_for(s, Some(req)),
    ensures
        after_finish_tick(after_begin_tick(s), req, Ok(ms)).icmp_seq == s.icmp_seq + 1,
        after_finish_tick(after_begin_tick(s), req, Ok(ms)).history.last() matches Some(
            PingResult::Done { hostname, icmp_seq, ttl, round_trip_ms },
        ) && hostname@ == s.target.unwrap().0 && icmp_seq == s.icmp_seq + 1 && ttl == 64
            && round_trip_ms == ms,
{
}

/// Of two callbacks registered one after the other only the second stays, and
/// ticks and changes of host keep it.
pub proof fn lemma_last_subscriber_wins<C>(
    s: WorkerView<C>,
    first: C,
    second: C,
    req: ProbeRequest,
    reply: Result<u128, String>,
    hostname: Seq<char>,
    resolved: Option<IpAddress>,
)
    ensures
        after_subscribe(after_subscribe(s, first), second).on_tick == Some(second),
        after_begin_tick(after_subscribe(after_subscribe(s, first), second)).on_tick == Some(
            second,
        ),
        after_finish_tick(after_subscribe(after_subscribe(s, first), second), req, reply).on_tick
            == Some(second),
        after_set_hostname(
            after_subscribe(after_subscribe(s, first), second),
            hostname,
            resolved,
        ).on_tick == Some(second),
{
}

/// The target is replaced whole: after any two changes of host, the hostname and
/// the address both come from the later one, and ticks leave the target alone.
pub proof fn lemma_target_from_one_call<C>(
    s: WorkerView<C>,
    h1: Seq<char>,
    r1: Option<IpAddress>,
    h2: Seq<char>,
    r2: Option<IpAddress>,
    req: ProbeRequest,
    reply: Result<u128, String>,
)
    ensures
        after_set_hostname(after_set_hostname(s, h1, r1), h2, r2).target == after_set_hostname(
            s,
            h2,
            r2,
        ).target,
        match after_set_hostname(after_set_hostname(s, h1, r1), h2, r2).target {
            Some((h, a)) => h == h2 && r2 == Some(a),
            None => r2 is None,
        },
        after_begin_tick(s).target == s.target,
        after_finish_tick(s, req, reply).target == s.target,
{
}

} // verus!
