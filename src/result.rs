//! The outcome of one tick, and the text shown for it.
use vstd::prelude::*;
use vstd::string::*;

verus! {

/// The time-to-live that every probe is sent with.
pub const PROBE_TTL: u32 = 64;

/// What one tick produced.
#[derive(Clone, Debug, PartialEq, Eq)]
pub enum PingResult {
    /// An echo reply came back.
    Done { hostname: String, icmp_seq: u64, ttl: u32, round_trip_ms: u128 },
    /// The probe itself failed: timeout, unreachable host, missing permission.
    Error(String),
    /// No target was set when the tick ran.
    NotConfigured,
}

pub open spec fn digit_char(d: nat) -> char {
    if d == 0 { '0' }
    else if d == 1 { '1' }
    else if d == 2 { '2' }
    else if d == 3 { '3' }
    else if d == 4 { '4' }
    else if d == 5 { '5' }
    else if d == 6 { '6' }
    else if d == 7 { '7' }
    else if d == 8 { '8' }
    else { '9' }
}

/// `n` written in decimal, without leading zeros.
pub open spec fn decimal(n: nat) -> Seq<char>
    decreases n,
{
    if n < 10 {
        seq![digit_char(n)]
    } else {
        decimal(n / 10).push(digit_char(n % 10))
    }
}

/// The line shown for an outcome.
pub open spec fn render_text(r: PingResult) -> Seq<char> {
    match r {
        PingResult::Done { hostname, icmp_seq, ttl, round_trip_ms } => "64 bytes from "@
            + hostname@ + ": icmp_seq="@ + decimal(icmp_seq as nat) + " ttl="@ + decimal(
            ttl as nat,
        ) + " time="@ + decimal(round_trip_ms as nat) + "ms"@,
        PingResult::Error(message) => "Error: "@ + message@,
        PingResult::NotConfigured => "---"@,
    }
}

/// The line shown for a history slot: an empty slot shows as a placeholder.
pub open spec fn render_slot_text(slot: Option<PingResult>) -> Seq<char> {
    match slot {
        Some(r) => render_text(r),
        None => "---"@,
    }
}

fn digit_str(d: u128) -> (r: &'static str)
    requires
        d < 10,
    ensures
        r@ == seq![digit_char(d as nat)],
{
    proof {
        reveal_strlit("0");
        reveal_strlit("1");
        reveal_strlit("2");
        reveal_strlit("3");
        reveal_strlit("4");
        reveal_strlit("5");
        reveal_strlit("6");
        reveal_strlit("7");
        reveal_strlit("8");
        reveal_strlit("9");
    }
    if d == 0 { "0" }
    else if d == 1 { "1" }
    else if d == 2 { "2" }
    else if d == 3 { "3" }
    else if d == 4 { "4" }
    else if d == 5 { "5" }
    else if d == 6 { "6" }
    else if d == 7 { "7" }
    else if d == 8 { "8" }
    else { "9" }
}

/// Appends `n` in decimal to `out`.
pub fn push_decimal(out: &mut String, n: u128)
    ensures
        final(out)@ == old(out)@ + decimal(n as nat),
    decreases n,
{
    if n >= 10 {
        push_decimal(out, n / 10);
    }
    out.append(digit_str(n % 10));
}

impl PingResult {
    /// A copy of this outcome.
    pub fn duplicate(&self) -> (r: PingResult)
        ensures
            r == *self,
    {
        match self {
            PingResult::Done { hostname, icmp_seq, ttl, round_trip_ms } => PingResult::Done {
                hostname: hostname.clone(),
                icmp_seq: *icmp_seq,
                ttl: *ttl,
                round_trip_ms: *round_trip_ms,
            },
            PingResult::Error(message) => PingResult::Error(message.clone()),
            PingResult::NotConfigured => PingResult::NotConfigured,
        }
    }

    /// The line shown for this outcome:
    /// `64 bytes from {hostname}: icmp_seq={n} ttl={ttl} time={ms}ms`,
    /// `Error: {message}`, or `---` when no target was set.
    pub fn render(&self) -> (r: String)
        ensures
            r@ == render_text(*self),
    {
        match self {
            PingResult::Done { hostname, icmp_seq, ttl, round_trip_ms } => {
                let mut out = String::from_str("64 bytes from ");
                out.append(hostname.as_str());
                out.append(": icmp_seq=");
                push_decimal(&mut out, *icmp_seq as u128);
                out.append(" ttl=");
                push_decimal(&mut out, *ttl as u128);
                out.append(" time=");
                push_decimal(&mut out, *round_trip_ms);
                out.append("ms");
                out
            },
            PingResult::Error(message) => {
                let mut out = String::from_str("Error: ");
                out.append(message.as_str());
                out
            },
            PingResult::NotConfigured => String::from_str("---"),
        }
    }
}

/// The line shown for a history slot; an empty slot shows as `---`.
pub fn render_slot(slot: &Option<PingResult>) -> (r: String)
    ensures
        r@ == render_slot_text(*slot),
{
    match slot {
        Some(result) => result.render(),
        None => String::from_str("---"),
    }
}

} // verus!
