//! IP address literals (`APP_HOST`), read as `IpAddr::from_str` reads them:
//! an IPv4 address in dotted decimal, or else an IPv6 address.
use vstd::prelude::*;

use super::env::ConfigValue;
use crate::text::chars_of;

verus! {

pub open spec fn is_dec_digit(c: char) -> bool {
    48 <= (c as u32) && (c as u32) <= 57
}

pub open spec fn is_hex_digit(c: char) -> bool {
    is_dec_digit(c) || (97 <= (c as u32) && (c as u32) <= 102) || (65 <= (c as u32) && (c as u32)
        <= 70)
}

/// The number of decimal (or, with `hex`, hexadecimal) digits in `s` from `p` on.
pub open spec fn digit_run(s: Seq<char>, p: int, hex: bool) -> nat
    decreases s.len() - p,
{
    if 0 <= p < s.len() && (if hex {
        is_hex_digit(s[p])
    } else {
        is_dec_digit(s[p])
    }) {
        1 + digit_run(s, p + 1, hex)
    } else {
        0
    }
}

/// The value of the `n` decimal digits of `s` from `p` on.
pub open spec fn dec_value(s: Seq<char>, p: int, n: nat) -> int
    decreases n,
{
    if n == 0 {
        0
    } else {
        dec_value(s, p, (n - 1) as nat) * 10 + (s[p + n - 1] as u32 - 48)
    }
}

/// An octet of a dotted-decimal address at `p`: one to three digits, no
/// leading zero, at most 255. The position after it.
pub open spec fn octet_end(s: Seq<char>, p: int) -> Option<int> {
    let n = digit_run(s, p, false);
    if n == 0 || n > 3 || (s[p] == '0' && n > 1) || dec_value(s, p, n) > 255 {
        None
    } else {
        Some(p + n)
    }
}

/// A hexadecimal group at `p`: one to four digits. The position after it.
pub open spec fn group_end(s: Seq<char>, p: int) -> Option<int> {
    let n = digit_run(s, p, true);
    if n == 0 || n > 4 {
        None
    } else {
        Some(p + n)
    }
}

/// `s[p]` is `c`.
pub open spec fn char_at(s: Seq<char>, p: int, c: char) -> bool {
    0 <= p < s.len() && s[p] == c
}

/// Four octets separated by dots at `p`. The position after them.
pub open spec fn ipv4_end(s: Seq<char>, p: int) -> Option<int> {
    match octet_end(s, p) {
        Some(p1) => if char_at(s, p1, '.') {
            match octet_end(s, p1 + 1) {
                Some(p2) => if char_at(s, p2, '.') {
                    match octet_end(s, p2 + 1) {
                        Some(p3) => if char_at(s, p3, '.') {
                            octet_end(s, p3 + 1)
                        } else {
                            None
                        },
                        None => None,
                    }
                } else {
                    None
                },
                None => None,
            }
        } else {
            None
        },
        None => None,
    }
}

/// Where the `i`-th group (of at most `limit`) starts when the previous one
/// ended at `p`: after a `:` except for the first.
pub open spec fn group_start(s: Seq<char>, p: int, i: int) -> Option<int> {
    if i == 0 {
        Some(p)
    } else if char_at(s, p, ':') {
        Some(p + 1)
    } else {
        None
    }
}

/// Reads groups `i..limit` of an IPv6 address from `p`: each is a
/// hexadecimal group, or, while two groups are left, an embedded IPv4
/// address that ends the run. Gives the number of groups read, whether the
/// run ended in an IPv4 address, and the position reached.
pub open spec fn read_groups(s: Seq<char>, p: int, i: int, limit: int) -> (int, bool, int)
    decreases limit - i,
{
    if i >= limit {
        (i, false, p)
    } else {
        match group_start(s, p, i) {
            None => (i, false, p),
            Some(q) => if i < limit - 1 && ipv4_end(s, q) is Some {
                (i + 2, true, ipv4_end(s, q)->0)
            } else {
                match group_end(s, q) {
                    Some(e) => read_groups(s, e, i + 1, limit),
                    None => (i, false, p),
                }
            },
        }
    }
}

/// `s` is an IPv6 address: eight groups, or fewer around one `::`, with an
/// embedded IPv4 address allowed only at the end.
pub open spec fn is_ipv6(s: Seq<char>) -> bool {
    let (h, head_v4, e) = read_groups(s, 0, 0, 8);
    if h == 8 {
        e == s.len()
    } else if head_v4 {
        false
    } else if char_at(s, e, ':') && char_at(s, e + 1, ':') {
        read_groups(s, e + 2, 0, 7 - h).2 == s.len()
    } else {
        false
    }
}

/// `IpAddr::from_str` accepts `s`: a whole dotted-decimal IPv4 address, or,
/// when no IPv4 address starts `s`, an IPv6 address.
pub open spec fn is_ip_literal(s: Seq<char>) -> bool {
    match ipv4_end(s, 0) {
        Some(e) => e == s.len(),
        None => is_ipv6(s),
    }
}

fn digit_run_exec(v: &Vec<char>, p: usize, hex: bool) -> (n: usize)
    requires
        p <= v.len(),
    ensures
        n == digit_run(v@, p as int, hex),
        p + n <= v.len(),
{
    let mut q = p;
    while q < v.len() && is_digit_of(v[q], hex)
        invariant
            p <= q <= v.len(),
            digit_run(v@, p as int, hex) == (q - p) + digit_run(v@, q as int, hex),
        decreases v.len() - q,
    {
        q += 1;
    }
    q - p
}

fn is_digit_of(c: char, hex: bool) -> (r: bool)
    ensures
        r == (if hex {
            is_hex_digit(c)
        } else {
            is_dec_digit(c)
        }),
{
    if hex {
        is_hex(c)
    } else {
        is_dec(c)
    }
}

fn is_dec(c: char) -> (r: bool)
    ensures
        r == is_dec_digit(c),
{
    let u = c as u32;
    48 <= u && u <= 57
}

fn is_hex(c: char) -> (r: bool)
    ensures
        r == is_hex_digit(c),
{
    let u = c as u32;
    (48 <= u && u <= 57) || (97 <= u && u <= 102) || (65 <= u && u <= 70)
}

fn octet_end_exec(v: &Vec<char>, p: usize) -> (r: Option<usize>)
    requires
        p <= v.len(),
    ensures
        match (r, octet_end(v@, p as int)) {
            (Some(a), Some(b)) => a == b && a <= v.len(),
            (None, None) => true,
            _ => false,
        },
{
    let n = digit_run_exec(v, p, false);
    if n == 0 || n > 3 {
        return None;
    }
    if v[p] == '0' && n > 1 {
        return None;
    }
    let mut value: u32 = 0;
    let mut k: usize = 0;
    while k < n
        invariant
            k <= n <= 3,
            p + n <= v.len(),
            n == digit_run(v@, p as int, false),
            value == dec_value(v@, p as int, k as nat),
            k == 0 ==> value == 0,
            k == 1 ==> value < 10,
            k == 2 ==> value < 100,
            k == 3 ==> value < 1000,
        decreases n - k,
    {
        proof {
            lemma_run_digits(v@, p as int, false, k as int);
        }
        let d = (v[p + k] as u32) - 48;
        value = value * 10 + d;
        k += 1;
    }
    if value > 255 {
        None
    } else {
        Some(p + n)
    }
}

/// Every character within a digit run is a digit.
proof fn lemma_run_digits(s: Seq<char>, p: int, hex: bool, k: int)
    requires
        0 <= k < digit_run(s, p, hex),
    ensures
        0 <= p + k < s.len(),
        if hex {
            is_hex_digit(s[p + k])
        } else {
            is_dec_digit(s[p + k])
        },
    decreases k,
{
    if k > 0 {
        lemma_run_digits(s, p + 1, hex, k - 1);
    }
}

fn group_end_exec(v: &Vec<char>, p: usize) -> (r: Option<usize>)
    requires
        p <= v.len(),
    ensures
        match (r, group_end(v@, p as int)) {
            (Some(a), Some(b)) => a == b && a <= v.len(),
            (None, None) => true,
            _ => false,
        },
{
    let n = digit_run_exec(v, p, true);
    if n == 0 || n > 4 {
        None
    } else {
        Some(p + n)
    }
}

fn char_at_exec(v: &Vec<char>, p: usize, c: char) -> (r: bool)
    ensures
        r == char_at(v@, p as int, c),
{
    p < v.len() && v[p] == c
}

fn ipv4_end_exec(v: &Vec<char>, p: usize) -> (r: Option<usize>)
    requires
        p <= v.len(),
    ensures
        match (r, ipv4_end(v@, p as int)) {
            (Some(a), Some(b)) => a == b && a <= v.len(),
            (None, None) => true,
            _ => false,
        },
{
    let p1 = octet_end_exec(v, p)?;
    if !char_at_exec(v, p1, '.') {
        return None;
    }
    let p2 = octet_end_exec(v, p1 + 1)?;
    if !char_at_exec(v, p2, '.') {
        return None;
    }
    let p3 = octet_end_exec(v, p2 + 1)?;
    if !char_at_exec(v, p3, '.') {
        return None;
    }
    octet_end_exec(v, p3 + 1)
}

fn read_groups_exec(v: &Vec<char>, p: usize, limit: usize) -> (r: (usize, bool, usize))
    requires
        p <= v.len(),
        limit <= 8,
    ensures
        (r.0 as int, r.1, r.2 as int) == read_groups(v@, p as int, 0, limit as int),
        r.0 <= limit,
        r.2 <= v.len(),
{
    let mut i: usize = 0;
    let mut pos = p;
    while i < limit
        invariant
            i <= limit <= 8,
            pos <= v.len(),
            read_groups(v@, p as int, 0, limit as int) == read_groups(
                v@,
                pos as int,
                i as int,
                limit as int,
            ),
        decreases limit - i,
    {
        let start = if i == 0 {
            pos
        } else if char_at_exec(v, pos, ':') {
            pos + 1
        } else {
            return (i, false, pos);
        };
        if i + 1 < limit {
            if let Some(e) = ipv4_end_exec(v, start) {
                return (i + 2, true, e);
            }
        }
        match group_end_exec(v, start) {
            Some(e) => {
                pos = e;
            },
            None => {
                return (i, false, pos);
            },
        }
        i += 1;
    }
    (i, false, pos)
}

/// Whether `s` is an IP address literal, as `IpAddr::from_str` decides.
pub fn ip_literal_ok(s: &str) -> (r: bool)
    ensures
        r == is_ip_literal(s@),
{
    let v = chars_of(s);
    if let Some(e) = ipv4_end_exec(&v, 0) {
        return e == v.len();
    }
    let (h, head_v4, e) = read_groups_exec(&v, 0, 8);
    if h == 8 {
        e == v.len()
    } else if head_v4 {
        false
    } else if char_at_exec(&v, e, ':') && char_at_exec(&v, e + 1, ':') {
        let (_, _, e2) = read_groups_exec(&v, e + 2, 7 - h);
        e2 == v.len()
    } else {
        false
    }
}

/// The text of an IP address literal: the address the server binds to.
pub struct IpLiteral {
    text: String,
}

impl View for IpLiteral {
    type V = Seq<char>;

    closed spec fn view(&self) -> Seq<char> {
        self.text@
    }
}

impl IpLiteral {
    /// `0.0.0.0`, every IPv4 interface.
    pub fn unspecified() -> (r: IpLiteral)
        ensures
            r@ == "0.0.0.0"@,
    {
        IpLiteral { text: "0.0.0.0".to_owned() }
    }

    pub fn as_str(&self) -> (r: &str)
        ensures
            r@ == self@,
    {
        self.text.as_str()
    }
}

impl ConfigValue for IpLiteral {
    open spec fn spec_parse(text: Seq<char>) -> Result<Seq<char>, Seq<char>> {
        if is_ip_literal(text) {
            Ok(text)
        } else {
            Err("invalid IP address syntax"@)
        }
    }

    fn parse_config(text: &str) -> (r: Result<IpLiteral, String>) {
        if ip_literal_ok(text) {
            Ok(IpLiteral { text: text.to_owned() })
        } else {
            Err("invalid IP address syntax".to_owned())
        }
    }
}

} // verus!
