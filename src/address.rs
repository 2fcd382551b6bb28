//! Network addresses, and the recognition of a host string that is already a
//! literal IPv4 address, alone or followed by a port.
use vstd::prelude::*;
use vstd::string::*;

verus! {

/// A concrete network address.
#[derive(Clone, Copy, Debug, PartialEq, Eq)]
pub enum IpAddress {
    V4([u8; 4]),
    V6([u16; 8]),
}

/// The error of a host string that names no address.
#[derive(Clone, Copy, Debug, PartialEq, Eq)]
pub struct DnsError;

impl DnsError {
    /// The text shown for this error.
    pub fn message(&self) -> (r: String)
        ensures
            r@ == dns_error_text(),
    {
        String::from_str("DNS lookup error")
    }
}

pub open spec fn dns_error_text() -> Seq<char> {
    "DNS lookup error"@
}

pub open spec fn is_digit(c: char) -> bool {
    '0' <= c && c <= '9'
}

pub open spec fn all_digits(s: Seq<char>) -> bool {
    forall|i: int| 0 <= i < s.len() ==> is_digit(#[trigger] s[i])
}

/// The number that the decimal digits `s` write.
pub open spec fn decimal_value(s: Seq<char>) -> nat
    decreases s.len(),
{
    if s.len() == 0 {
        0
    } else {
        decimal_value(s.drop_last()) * 10 + ((s.last() as nat) - ('0' as nat)) as nat
    }
}

/// An IPv4 octet: one to three digits, no leading zero, at most 255.
pub open spec fn is_octet(s: Seq<char>) -> bool {
    &&& 1 <= s.len() <= 3
    &&& all_digits(s)
    &&& (s.len() == 1 || s[0] != '0')
    &&& decimal_value(s) <= 255
}

/// A port: one or more digits (leading zeros allowed) whose value fits in 16 bits.
pub open spec fn is_port(s: Seq<char>) -> bool {
    &&& 1 <= s.len()
    &&& all_digits(s)
    &&& decimal_value(s) <= 65535
}

/// The pieces of `s` between the occurrences of `sep`; one piece more than there
/// are separators.
pub open spec fn fields(s: Seq<char>, sep: char) -> Seq<Seq<char>>
    decreases s.len(),
{
    if s.len() == 0 {
        seq![Seq::empty()]
    } else {
        let f = fields(s.drop_last(), sep);
        if s.last() == sep {
            f.push(Seq::empty())
        } else {
            f.update(f.len() - 1, f.last().push(s.last()))
        }
    }
}

/// The four octets of `s` when `s` is a dotted-quad IPv4 address.
pub open spec fn ipv4_octets(s: Seq<char>) -> Option<Seq<u8>> {
    let f = fields(s, '.');
    if f.len() == 4 && is_octet(f[0]) && is_octet(f[1]) && is_octet(f[2]) && is_octet(f[3]) {
        Some(
            seq![
                decimal_value(f[0]) as u8,
                decimal_value(f[1]) as u8,
                decimal_value(f[2]) as u8,
                decimal_value(f[3]) as u8,
            ],
        )
    } else {
        None
    }
}

/// The address that the host string `s` writes literally: an IPv4 address, or
/// an IPv4 address, a colon and a port. `None` when it is neither, and a name
/// lookup is needed.
pub open spec fn literal_octets(s: Seq<char>) -> Option<Seq<u8>> {
    if ipv4_octets(s) is Some {
        ipv4_octets(s)
    } else {
        let p = fields(s, ':');
        if p.len() == 2 && is_port(p[1]) {
            ipv4_octets(p[0])
        } else {
            None
        }
    }
}

/// The address of `literal_octets` as an `IpAddress`.
pub open spec fn literal_address(s: Seq<char>) -> Option<IpAddress> {
    match literal_octets(s) {
        Some(o) => Some(IpAddress::V4([o[0], o[1], o[2], o[3]])),
        None => None,
    }
}

proof fn lemma_decimal_value_grows(s: Seq<char>, i: int)
    requires
        0 <= i <= s.len(),
    ensures
        decimal_value(s.take(i)) <= decimal_value(s),
    decreases s.len() - i,
{
    if i < s.len() {
        lemma_decimal_value_grows(s, i + 1);
        assert(s.take(i + 1).drop_last() =~= s.take(i));
    } else {
        assert(s.take(i) =~= s);
    }
}

/// The characters of `s`.
fn chars_of(s: &str) -> (r: Vec<char>)
    ensures
        r@ == s@,
{
    let n = s.unicode_len();
    let mut r: Vec<char> = Vec::new();
    let mut i: usize = 0;
    while i < n
        invariant
            n == s@.len(),
            i <= n,
            r@ == s@.take(i as int),
        decreases n - i,
    {
        r.push(s.get_char(i));
        i = i + 1;
        assert(r@ =~= s@.take(i as int));
    }
    assert(s@.take(n as int) =~= s@);
    r
}

/// The contents of each of `v`.
pub open spec fn views(v: Seq<Vec<char>>) -> Seq<Seq<char>> {
    v.map_values(|x: Vec<char>| x@)
}

/// Splits `s` at each occurrence of `sep`.
fn split_fields(s: &Vec<char>, sep: char) -> (r: Vec<Vec<char>>)
    ensures
        views(r@) == fields(s@, sep),
{
    let mut parts: Vec<Vec<char>> = Vec::new();
    let mut current: Vec<char> = Vec::new();
    let mut i: usize = 0;
    assert(s@.take(0) =~= Seq::<char>::empty());
    assert(views(parts@).push(current@) =~= fields(s@.take(0), sep));
    while i < s.len()
        invariant
            i <= s@.len(),
            views(parts@).push(current@) == fields(s@.take(i as int), sep),
        decreases s@.len() - i,
    {
        let c = s[i];
        let ghost pre = s@.take(i as int);
        let ghost next = s@.take(i as int + 1);
        assert(next.drop_last() =~= pre);
        assert(next.last() == c);
        if c == sep {
            let ghost before = views(parts@);
            let done = current;
            parts.push(done);
            current = Vec::new();
            assert(views(parts@) =~= before.push(done@));
            assert(views(parts@).push(current@) =~= fields(pre, sep).push(Seq::empty()));
        } else {
            current.push(c);
            let ghost f = fields(pre, sep);
            assert(views(parts@).push(current@) =~= f.update(f.len() - 1, f.last().push(c)));
        }
        i = i + 1;
    }
    assert(s@.take(s@.len() as int) =~= s@);
    let ghost before = views(parts@);
    let ghost last = current@;
    parts.push(current);
    assert(views(parts@) =~= before.push(last));
    parts
}

/// The value of the decimal digits `s`, when they are all digits, there is at
/// least one, and the value is at most `limit`.
fn parse_decimal(s: &Vec<char>, limit: u32) -> (r: Option<u32>)
    requires
        limit <= 65535,
    ensures
        r == (if 1 <= s@.len() && all_digits(s@) && decimal_value(s@) <= limit {
            Some(decimal_value(s@) as u32)
        } else {
            None::<u32>
        }),
{
    if s.len() == 0 {
        return None;
    }
    let mut value: u32 = 0;
    let mut i: usize = 0;
    while i < s.len()
        invariant
            i <= s@.len(),
            limit <= 65535,
            all_digits(s@.take(i as int)),
            value == decimal_value(s@.take(i as int)),
            value <= limit,
        decreases s@.len() - i,
    {
        let c = s[i];
        let ghost next = s@.take(i as int + 1);
        assert(next.drop_last() =~= s@.take(i as int));
        if !('0' <= c && c <= '9') {
            assert(!is_digit(s@[i as int]));
            return None;
        }
        let d = (c as u32) - ('0' as u32);
        let v = value * 10 + d;
        i = i + 1;
        if v > limit {
            proof {
                lemma_decimal_value_grows(s@, i as int);
            }
            return None;
        }
        value = v;
        assert(all_digits(next));
    }
    assert(s@.take(s@.len() as int) =~= s@);
    Some(value)
}

/// The value of an IPv4 octet.
fn parse_octet(s: &Vec<char>) -> (r: Option<u8>)
    ensures
        r == (if is_octet(s@) {
            Some(decimal_value(s@) as u8)
        } else {
            None::<u8>
        }),
{
    if s.len() > 3 || (s.len() > 1 && s[0] == '0') {
        return None;
    }
    match parse_decimal(s, 255) {
        Some(v) => Some(v as u8),
        None => None,
    }
}

/// The four octets of a dotted-quad IPv4 address.
fn parse_ipv4(s: &Vec<char>) -> (r: Option<[u8; 4]>)
    ensures
        match r {
            Some(a) => ipv4_octets(s@) == Some(a@),
            None => ipv4_octets(s@) is None,
        },
{
    let f = split_fields(s, '.');
    if f.len() != 4 {
        return None;
    }
    assert(f@[0]@ == views(f@)[0]);
    assert(f@[1]@ == views(f@)[1]);
    assert(f@[2]@ == views(f@)[2]);
    assert(f@[3]@ == views(f@)[3]);
    let a = match parse_octet(&f[0]) {
        Some(v) => v,
        None => return None,
    };
    let b = match parse_octet(&f[1]) {
        Some(v) => v,
        None => return None,
    };
    let c = match parse_octet(&f[2]) {
        Some(v) => v,
        None => return None,
    };
    let d = match parse_octet(&f[3]) {
        Some(v) => v,
        None => return None,
    };
    let r = [a, b, c, d];
    assert(r@ =~= ipv4_octets(s@).unwrap());
    Some(r)
}

/// The address that `host` writes literally, found without any name lookup: a
/// dotted-quad IPv4 address, alone or followed by `:` and a port. `None` means
/// that `host` must be looked up by name.
pub fn parse_literal_address(host: &str) -> (r: Option<IpAddress>)
    ensures
        r == literal_address(host@),
{
    let s = chars_of(host);
    match parse_ipv4(&s) {
        Some(a) => {
            assert(a@ =~= seq![a[0], a[1], a[2], a[3]]);
            assert(a =~= [a@[0], a@[1], a@[2], a@[3]]);
            return Some(IpAddress::V4(a));
        },
        None => {},
    }
    let p = split_fields(&s, ':');
    if p.len() != 2 {
        return None;
    }
    assert(p@[0]@ == views(p@)[0]);
    assert(p@[1]@ == views(p@)[1]);
    match parse_decimal(&p[1], 65535) {
        Some(_) => {},
        None => return None,
    }
    match parse_ipv4(&p[0]) {
        Some(a) => {
            assert(a@ =~= seq![a[0], a[1], a[2], a[3]]);
            assert(a =~= [a@[0], a@[1], a@[2], a@[3]]);
            Some(IpAddress::V4(a))
        },
        None => None,
    }
}

} // verus!
