//! Socket addresses as the library models them: an IPv4 or IPv6 address and
//! a port, together with the textual forms the proxy protocols need.
//!
//! Formatting renders an address as bytes (`ipv4_text`, `ipv6_text`,
//! `dec_digits`); parsing reads the textual form back
//! (`spec_parse_socket_address` is the grammar, the exec parsers implement
//! it exactly).

use vstd::prelude::*;

verus! {

/// An IP address: four octets, or eight 16-bit groups.
#[derive(Debug, Clone, Copy, PartialEq, Eq)]
pub enum IpAddress {
    V4([u8; 4]),
    V6([u16; 8]),
}

/// An IP address together with a port.
#[derive(Debug, Clone, Copy, PartialEq, Eq)]
pub struct SocketAddress {
    pub ip: IpAddress,
    pub port: u16,
}

/// The decimal digits of `n`, most significant first, no leading zeros.
pub open spec fn dec_digits(n: nat) -> Seq<u8>
    decreases n,
{
    if n < 10 {
        seq![(48 + n) as u8]
    } else {
        dec_digits(n / 10).push((48 + n % 10) as u8)
    }
}

/// One lowercase hexadecimal digit.
pub open spec fn hex_digit(n: nat) -> u8
    recommends
        n < 16,
{
    if n < 10 {
        (48 + n) as u8
    } else {
        (87 + n) as u8
    }
}

/// The hexadecimal digits of `n`, most significant first, no leading zeros,
/// lowercase.
pub open spec fn hex_digits(n: nat) -> Seq<u8>
    decreases n,
{
    if n < 16 {
        seq![hex_digit(n)]
    } else {
        hex_digits(n / 16).push(hex_digit(n % 16))
    }
}

/// Text of an IPv4 address: the four octets in decimal, joined by dots.
pub open spec fn ipv4_text(oct: [u8; 4]) -> Seq<u8> {
    dec_digits(oct[0] as nat) + seq![46u8] + dec_digits(oct[1] as nat) + seq![46u8] + dec_digits(
        oct[2] as nat,
    ) + seq![46u8] + dec_digits(oct[3] as nat)
}

/// Text of an IPv6 address: the eight groups in lowercase hexadecimal,
/// joined by colons, without zero-run compression.
pub open spec fn ipv6_text(seg: [u16; 8]) -> Seq<u8> {
    ipv6_text_from(seg, 0)
}

/// Text of the groups of `seg` from position `i` on, joined by colons.
pub open spec fn ipv6_text_from(seg: [u16; 8], i: int) -> Seq<u8>
    recommends
        0 <= i < 8,
    decreases 8 - i,
{
    if i >= 7 {
        hex_digits(seg[7] as nat)
    } else {
        hex_digits(seg[i] as nat) + seq![58u8] + ipv6_text_from(seg, i + 1)
    }
}

/// Text of an IP address as it stands in an HTTP CONNECT request line:
/// dotted decimal for IPv4, uncompressed groups for IPv6.
pub open spec fn ip_text(ip: IpAddress) -> Seq<u8> {
    match ip {
        IpAddress::V4(oct) => ipv4_text(oct),
        IpAddress::V6(seg) => ipv6_text(seg),
    }
}

/// Renders `n` in decimal.
pub fn format_dec(n: u16) -> (r: Vec<u8>)
    ensures
        r@ == dec_digits(n as nat),
    decreases n,
{
    if n < 10 {
        let mut v: Vec<u8> = Vec::new();
        v.push(48 + (n as u8));
        v
    } else {
        let mut v = format_dec(n / 10);
        v.push(48 + ((n % 10) as u8));
        v
    }
}

/// Renders `n` in lowercase hexadecimal.
pub fn format_hex(n: u16) -> (r: Vec<u8>)
    ensures
        r@ == hex_digits(n as nat),
    decreases n,
{
    if n < 16 {
        let d: u8 = n as u8;
        let mut v: Vec<u8> = Vec::new();
        if d < 10 {
            v.push(48 + d);
        } else {
            v.push(87 + d);
        }
        v
    } else {
        let mut v = format_hex(n / 16);
        let d: u8 = (n % 16) as u8;
        if d < 10 {
            v.push(48 + d);
        } else {
            v.push(87 + d);
        }
        v
    }
}

/// Renders an IP address as the proxy protocols write it in text.
pub fn format_ip(ip: &IpAddress) -> (r: Vec<u8>)
    ensures
        r@ == ip_text(*ip),
{
    match ip {
        IpAddress::V4(oct) => {
            let mut v = format_dec(oct[0] as u16);
            v.push(46);
            let mut p1 = format_dec(oct[1] as u16);
            v.append(&mut p1);
            v.push(46);
            let mut p2 = format_dec(oct[2] as u16);
            v.append(&mut p2);
            v.push(46);
            let mut p3 = format_dec(oct[3] as u16);
            v.append(&mut p3);
            assert(v@ =~= ipv4_text(*oct));
            v
        },
        IpAddress::V6(seg) => {
            let mut v: Vec<u8> = Vec::new();
            let mut i: usize = 0;
            while i < 7
                invariant
                    0 <= i <= 7,
                    ipv6_text(*seg) =~= v@ + ipv6_text_from(*seg, i as int),
                decreases 7 - i,
            {
                let mut g = format_hex(seg[i]);
                v.append(&mut g);
                v.push(58);
                i = i + 1;
            }
            let mut g = format_hex(seg[7]);
            v.append(&mut g);
            assert(v@ =~= ipv6_text(*seg));
            v
        },
    }
}

/// The spec-level shape of an IP address: the octet or group values.
pub enum IpView {
    V4(Seq<u8>),
    V6(Seq<u16>),
}

/// The spec-level shape of a socket address.
pub struct SocketAddressView {
    pub ip: IpView,
    pub port: u16,
}

impl View for IpAddress {
    type V = IpView;

    open spec fn view(&self) -> IpView {
        match self {
            IpAddress::V4(oct) => IpView::V4(oct@),
            IpAddress::V6(seg) => IpView::V6(seg@),
        }
    }
}

impl View for SocketAddress {
    type V = SocketAddressView;

    open spec fn view(&self) -> SocketAddressView {
        SocketAddressView { ip: self.ip@, port: self.port }
    }
}

pub open spec fn is_dec_digit(b: u8) -> bool {
    48 <= b <= 57
}

pub open spec fn is_hex_digit(b: u8) -> bool {
    48 <= b <= 57 || 97 <= b <= 102 || 65 <= b <= 70
}

/// Value of one hexadecimal digit, either case.
pub open spec fn hex_digit_val(b: u8) -> nat
    recommends
        is_hex_digit(b),
{
    if 48 <= b <= 57 {
        (b - 48) as nat
    } else if 97 <= b <= 102 {
        (b - 87) as nat
    } else {
        (b - 55) as nat
    }
}

/// Index of the first byte at or after `i` that is not a decimal digit.
pub open spec fn digit_run_end(s: Seq<u8>, i: int) -> int
    recommends
        0 <= i <= s.len(),
    decreases s.len() - i
        when 0 <= i <= s.len()
{
    if i < s.len() && is_dec_digit(s[i]) {
        digit_run_end(s, i + 1)
    } else {
        i
    }
}

/// Index of the first byte at or after `i` that is not a hexadecimal digit.
pub open spec fn hex_run_end(s: Seq<u8>, i: int) -> int
    recommends
        0 <= i <= s.len(),
    decreases s.len() - i
        when 0 <= i <= s.len()
{
    if i < s.len() && is_hex_digit(s[i]) {
        hex_run_end(s, i + 1)
    } else {
        i
    }
}

/// Value of a run of decimal digits, most significant first.
pub open spec fn dec_val(s: Seq<u8>) -> nat
    recommends
        forall|k: int| 0 <= k < s.len() ==> is_dec_digit(s[k]),
    decreases s.len(),
{
    if s.len() == 0 {
        0
    } else {
        dec_val(s.drop_last()) * 10 + (s.last() - 48) as nat
    }
}

/// Value of a run of hexadecimal digits, most significant first.
pub open spec fn hex_val(s: Seq<u8>) -> nat
    recommends
        forall|k: int| 0 <= k < s.len() ==> is_hex_digit(s[k]),
    decreases s.len(),
{
    if s.len() == 0 {
        0
    } else {
        hex_val(s.drop_last()) * 16 + hex_digit_val(s.last())
    }
}

/// One decimal octet at position `i`: one to three digits, no leading zero,
/// value at most 255.  Yields the value and the position after the run.
pub open spec fn spec_parse_octet(s: Seq<u8>, i: int) -> Option<(u8, int)>
    recommends
        0 <= i <= s.len(),
{
    let j = digit_run_end(s, i);
    if i < j && j <= i + 3 && (j - i >= 2 ==> s[i] != 48) && dec_val(s.subrange(i, j)) <= 255 {
        Some((dec_val(s.subrange(i, j)) as u8, j))
    } else {
        None
    }
}

/// One hexadecimal group at position `i`: one to four digits, any case,
/// leading zeros allowed.  Yields the value and the position after the run.
pub open spec fn spec_parse_hex_group(s: Seq<u8>, i: int) -> Option<(u16, int)>
    recommends
        0 <= i <= s.len(),
{
    let j = hex_run_end(s, i);
    if i < j && j <= i + 4 {
        Some((hex_val(s.subrange(i, j)) as u16, j))
    } else {
        None
    }
}

proof fn lemma_run_end_bounds(s: Seq<u8>, i: int)
    requires
        0 <= i <= s.len(),
    ensures
        i <= digit_run_end(s, i) <= s.len(),
        i <= hex_run_end(s, i) <= s.len(),
        forall|k: int| i <= k < digit_run_end(s, i) ==> is_dec_digit(s[k]),
        forall|k: int| i <= k < hex_run_end(s, i) ==> is_hex_digit(s[k]),
    decreases s.len() - i,
{
    if i < s.len() {
        lemma_run_end_bounds(s, i + 1);
    }
}

/// Advances over decimal digits.
fn digit_run_end_x(s: &[u8], i: usize) -> (j: usize)
    requires
        i <= s@.len(),
    ensures
        j == digit_run_end(s@, i as int),
        i <= j <= s@.len(),
{
    let mut j = i;
    while j < s.len() && 48 <= s[j] && s[j] <= 57
        invariant
            i <= j <= s@.len(),
            digit_run_end(s@, i as int) == digit_run_end(s@, j as int),
        decreases s@.len() - j,
    {
        j = j + 1;
    }
    proof {
        lemma_run_end_bounds(s@, j as int);
    }
    j
}

/// Advances over hexadecimal digits.
fn hex_run_end_x(s: &[u8], i: usize) -> (j: usize)
    requires
        i <= s@.len(),
    ensures
        j == hex_run_end(s@, i as int),
        i <= j <= s@.len(),
{
    let mut j = i;
    while j < s.len() && (48 <= s[j] && s[j] <= 57 || 97 <= s[j] && s[j] <= 102 || 65 <= s[j]
        && s[j] <= 70)
        invariant
            i <= j <= s@.len(),
            hex_run_end(s@, i as int) == hex_run_end(s@, j as int),
        decreases s@.len() - j,
    {
        j = j + 1;
    }
    proof {
        lemma_run_end_bounds(s@, j as int);
    }
    j
}

/// Reads the decimal value of `s[i..j]`, which must be all digits.
fn dec_val_x(s: &[u8], i: usize, j: usize) -> (v: u32)
    requires
        i <= j <= s@.len(),
        j - i <= 5,
        forall|k: int| i <= k < j ==> is_dec_digit(s@[k]),
    ensures
        v == dec_val(s@.subrange(i as int, j as int)),
        v < 100000,
{
    let mut v: u32 = 0;
    let mut k = i;
    assert(s@.subrange(i as int, i as int) =~= Seq::<u8>::empty());
    while k < j
        invariant
            i <= k <= j <= s@.len(),
            j - i <= 5,
            forall|m: int| i <= m < j ==> is_dec_digit(s@[m]),
            v == dec_val(s@.subrange(i as int, k as int)),
            v < pow10((k - i) as nat),
        decreases j - k,
    {
        proof {
            lemma_dec_val_step(s@, i as int, k as int);
            assert(pow10(4) == 10000) by {
                reveal_with_fuel(pow10, 5);
            }
            lemma_pow10_mono((k - i) as nat, 4);
        }
        v = v * 10 + ((s[k] - 48) as u32);
        k = k + 1;
    }
    proof {
        assert(pow10(5) == 100000) by {
            reveal_with_fuel(pow10, 6);
        }
        lemma_pow10_mono((j - i) as nat, 5);
    }
    v
}

/// Reads the hexadecimal value of `s[i..j]`, which must be all hex digits.
fn hex_val_x(s: &[u8], i: usize, j: usize) -> (v: u32)
    requires
        i <= j <= s@.len(),
        j - i <= 4,
        forall|k: int| i <= k < j ==> is_hex_digit(s@[k]),
    ensures
        v == hex_val(s@.subrange(i as int, j as int)),
        v < 65536,
{
    let mut v: u32 = 0;
    let mut k = i;
    assert(s@.subrange(i as int, i as int) =~= Seq::<u8>::empty());
    while k < j
        invariant
            i <= k <= j <= s@.len(),
            j - i <= 4,
            forall|m: int| i <= m < j ==> is_hex_digit(s@[m]),
            v == hex_val(s@.subrange(i as int, k as int)),
            v < pow16((k - i) as nat),
        decreases j - k,
    {
        proof {
            lemma_hex_val_step(s@, i as int, k as int);
            assert(pow16(3) == 4096) by {
                reveal_with_fuel(pow16, 4);
            }
            lemma_pow16_mono((k - i) as nat, 3);
        }
        let b = s[k];
        let d: u32 = if 48 <= b && b <= 57 {
            (b - 48) as u32
        } else if 97 <= b && b <= 102 {
            (b - 87) as u32
        } else {
            (b - 55) as u32
        };
        v = v * 16 + d;
        k = k + 1;
    }
    proof {
        assert(pow16(4) == 65536) by {
            reveal_with_fuel(pow16, 5);
        }
        lemma_pow16_mono((j - i) as nat, 4);
    }
    v
}

pub open spec fn pow10(n: nat) -> nat
    decreases n,
{
    if n == 0 {
        1
    } else {
        10 * pow10((n - 1) as nat)
    }
}

pub open spec fn pow16(n: nat) -> nat
    decreases n,
{
    if n == 0 {
        1
    } else {
        16 * pow16((n - 1) as nat)
    }
}

proof fn lemma_pow10_mono(a: nat, b: nat)
    requires
        a <= b,
    ensures
        pow10(a) <= pow10(b),
    decreases b,
{
    if a < b && b > 0 {
        lemma_pow10_mono(a, (b - 1) as nat);
    }
}

proof fn lemma_pow16_mono(a: nat, b: nat)
    requires
        a <= b,
    ensures
        pow16(a) <= pow16(b),
    decreases b,
{
    if a < b && b > 0 {
        lemma_pow16_mono(a, (b - 1) as nat);
    }
}

proof fn lemma_dec_val_step(s: Seq<u8>, i: int, k: int)
    requires
        0 <= i <= k < s.len(),
        is_dec_digit(s[k]),
    ensures
        dec_val(s.subrange(i, k + 1)) == dec_val(s.subrange(i, k)) * 10 + (s[k] - 48),
{
    assert(s.subrange(i, k + 1).drop_last() =~= s.subrange(i, k));
    assert(s.subrange(i, k + 1).last() == s[k]);
}

proof fn lemma_hex_val_step(s: Seq<u8>, i: int, k: int)
    requires
        0 <= i <= k < s.len(),
        is_hex_digit(s[k]),
    ensures
        hex_val(s.subrange(i, k + 1)) == hex_val(s.subrange(i, k)) * 16 + hex_digit_val(s[k]),
{
    assert(s.subrange(i, k + 1).drop_last() =~= s.subrange(i, k));
    assert(s.subrange(i, k + 1).last() == s[k]);
}

/// Parses one decimal octet, as `spec_parse_octet` says.
fn parse_octet_x(s: &[u8], i: usize) -> (r: Option<(u8, usize)>)
    requires
        i <= s@.len(),
    ensures
        match r {
            Some((v, j)) => spec_parse_octet(s@, i as int) == Some((v, j as int)) && i < j
                <= s@.len(),
            None => spec_parse_octet(s@, i as int) is None,
        },
{
    let j = digit_run_end_x(s, i);
    proof {
        lemma_run_end_bounds(s@, i as int);
    }
    if i < j && j - i <= 3 && (j - i < 2 || s[i] != 48) {
        let v = dec_val_x(s, i, j);
        if v <= 255 {
            Some(((v as u8), j))
        } else {
            None
        }
    } else {
        None
    }
}

/// Parses one hexadecimal group, as `spec_parse_hex_group` says.
fn parse_hex_group_x(s: &[u8], i: usize) -> (r: Option<(u16, usize)>)
    requires
        i <= s@.len(),
    ensures
        match r {
            Some((v, j)) => spec_parse_hex_group(s@, i as int) == Some((v, j as int)) && i < j
                <= s@.len(),
            None => spec_parse_hex_group(s@, i as int) is None,
        },
{
    let j = hex_run_end_x(s, i);
    proof {
        lemma_run_end_bounds(s@, i as int);
    }
    if i < j && j - i <= 4 {
        let v = hex_val_x(s, i, j);
        Some(((v as u16), j))
    } else {
        None
    }
}

/// An IPv4 address between positions `i` and `end`: four octets joined by
/// dots, ending exactly at `end`.
pub open spec fn spec_parse_ipv4(s: Seq<u8>, i: int, end: int) -> Option<Seq<u8>>
    recommends
        0 <= i <= end <= s.len(),
{
    match spec_parse_octet(s, i) {
        None => None,
        Some((a, i1)) => if i1 < end && s[i1] == 46 {
            match spec_parse_octet(s, i1 + 1) {
                None => None,
                Some((b, i2)) => if i2 < end && s[i2] == 46 {
                    match spec_parse_octet(s, i2 + 1) {
                        None => None,
                        Some((c, i3)) => if i3 < end && s[i3] == 46 {
                            match spec_parse_octet(s, i3 + 1) {
                                None => None,
                                Some((d, i4)) => if i4 == end {
                                    Some(seq![a, b, c, d])
                                } else {
                                    None
                                },
                            }
                        } else {
                            None
                        },
                    }
                } else {
                    None
                },
            }
        } else {
            None
        },
    }
}

/// Hexadecimal groups joined by single colons, from `i` to exactly `end`.
/// The empty region holds the empty list; otherwise every group is
/// non-empty and no colon leads, trails or doubles.
pub open spec fn spec_parse_group_list(s: Seq<u8>, i: int, end: int) -> Option<Seq<u16>>
    recommends
        0 <= i <= end <= s.len(),
    decreases end - i
        when 0 <= i <= end <= s.len()
{
    if i == end {
        Some(seq![])
    } else {
        match spec_parse_hex_group(s, i) {
            None => None,
            Some((v, j)) => if j == end {
                Some(seq![v])
            } else if j < end && s[j] == 58 && j + 1 < end {
                match spec_parse_group_list(s, j + 1, end) {
                    None => None,
                    Some(rest) => Some(seq![v] + rest),
                }
            } else {
                None
            },
        }
    }
}

/// Position of the first `::` between `i` and `end`, if any.
pub open spec fn spec_find_dcolon(s: Seq<u8>, i: int, end: int) -> Option<int>
    recommends
        0 <= i <= end <= s.len(),
    decreases end - i
        when 0 <= i <= end <= s.len()
{
    if i + 1 >= end {
        None
    } else if s[i] == 58 && s[i + 1] == 58 {
        Some(i)
    } else {
        spec_find_dcolon(s, i + 1, end)
    }
}

/// `n` zero groups.
pub open spec fn zero_groups(n: nat) -> Seq<u16> {
    Seq::new(n, |k: int| 0u16)
}

/// An IPv6 address between `i` and `end`: eight groups, either written in
/// full, or with one `::` standing for the missing zero groups.
pub open spec fn spec_parse_ipv6(s: Seq<u8>, i: int, end: int) -> Option<Seq<u16>>
    recommends
        0 <= i <= end <= s.len(),
{
    match spec_find_dcolon(s, i, end) {
        None => match spec_parse_group_list(s, i, end) {
            None => None,
            Some(gs) => if gs.len() == 8 {
                Some(gs)
            } else {
                None
            },
        },
        Some(d) => match (spec_parse_group_list(s, i, d), spec_parse_group_list(s, d + 2, end)) {
            (Some(l), Some(r)) => if l.len() + r.len() <= 7 {
                Some(l + zero_groups((8 - l.len() - r.len()) as nat) + r)
            } else {
                None
            },
            _ => None,
        },
    }
}

/// A port between `i` and `end`: at least one decimal digit, nothing else,
/// value at most 65535.  Leading zeros are accepted.
pub open spec fn spec_parse_port(s: Seq<u8>, i: int, end: int) -> Option<u16>
    recommends
        0 <= i <= end <= s.len(),
{
    if i < end && digit_run_end(s, i) == end && end == s.len() && dec_val(
        s.subrange(i, end),
    ) <= 65535 {
        Some(dec_val(s.subrange(i, end)) as u16)
    } else {
        None
    }
}

/// A socket address in text: `a.b.c.d:port`, or `[v6]:port` with the
/// address in brackets.
pub open spec fn spec_parse_socket_address(s: Seq<u8>) -> Option<SocketAddressView> {
    if s.len() > 0 && s[0] == 91 {
        match spec_find_byte(s, 1, 93) {
            None => None,
            Some(rb) => if rb + 1 < s.len() && s[rb + 1] == 58 {
                match (spec_parse_ipv6(s, 1, rb), spec_parse_port(s, rb + 2, s.len() as int)) {
                    (Some(seg), Some(p)) => Some(
                        SocketAddressView { ip: IpView::V6(seg), port: p },
                    ),
                    _ => None,
                }
            } else {
                None
            },
        }
    } else {
        match spec_find_last_byte(s, 58) {
            None => None,
            Some(c) => match (spec_parse_ipv4(s, 0, c), spec_parse_port(s, c + 1, s.len() as int)) {
                (Some(oct), Some(p)) => Some(SocketAddressView { ip: IpView::V4(oct), port: p }),
                _ => None,
            },
        }
    }
}

/// Position of the first occurrence of `b` at or after `i`, if any.
pub open spec fn spec_find_byte(s: Seq<u8>, i: int, b: u8) -> Option<int>
    recommends
        0 <= i <= s.len(),
    decreases s.len() - i
        when 0 <= i <= s.len()
{
    if i >= s.len() {
        None
    } else if s[i] == b {
        Some(i)
    } else {
        spec_find_byte(s, i + 1, b)
    }
}

/// Position of the last occurrence of `b`, if any.
pub open spec fn spec_find_last_byte(s: Seq<u8>, b: u8) -> Option<int>
    decreases s.len(),
{
    if s.len() == 0 {
        None
    } else if s.last() == b {
        Some(s.len() - 1)
    } else {
        match spec_find_last_byte(s.drop_last(), b) {
            None => None,
            Some(k) => Some(k),
        }
    }
}

/// Parses four dotted octets, as `spec_parse_ipv4` says.
fn parse_ipv4_x(s: &[u8], i: usize, end: usize) -> (r: Option<[u8; 4]>)
    requires
        i <= end <= s@.len(),
    ensures
        match r {
            Some(oct) => spec_parse_ipv4(s@, i as int, end as int) == Some(oct@),
            None => spec_parse_ipv4(s@, i as int, end as int) is None,
        },
{
    let r0 = parse_octet_x(s, i);
    match r0 {
        None => None,
        Some((a, i1)) => {
            if !(i1 < end && s[i1] == 46) {
                return None;
            }
            let r1 = parse_octet_x(s, i1 + 1);
            match r1 {
                None => None,
                Some((b, i2)) => {
                    if !(i2 < end && s[i2] == 46) {
                        return None;
                    }
                    let r2 = parse_octet_x(s, i2 + 1);
                    match r2 {
                        None => None,
                        Some((c, i3)) => {
                            if !(i3 < end && s[i3] == 46) {
                                return None;
                            }
                            let r3 = parse_octet_x(s, i3 + 1);
                            match r3 {
                                None => None,
                                Some((d, i4)) => {
                                    if i4 == end {
                                        let oct: [u8; 4] = [a, b, c, d];
                                        assert(oct@ =~= seq![a, b, c, d]);
                                        Some(oct)
                                    } else {
                                        None
                                    }
                                },
                            }
                        },
                    }
                },
            }
        },
    }
}

/// Parses a colon-separated group list, as `spec_parse_group_list` says.
fn parse_group_list_x(s: &[u8], i: usize, end: usize) -> (r: Option<Vec<u16>>)
    requires
        i <= end <= s@.len(),
    ensures
        match r {
            Some(gs) => spec_parse_group_list(s@, i as int, end as int) == Some(gs@),
            None => spec_parse_group_list(s@, i as int, end as int) is None,
        },
{
    let mut out: Vec<u16> = Vec::new();
    let mut cur = i;
    loop
        invariant
            i <= cur <= end <= s@.len(),
            spec_parse_group_list(s@, i as int, end as int) == (match spec_parse_group_list(
                s@,
                cur as int,
                end as int,
            ) {
                Some(rest) => Some(out@ + rest),
                None => None::<Seq<u16>>,
            }),
        decreases end - cur,
    {
        if cur == end {
            assert(out@ + Seq::<u16>::empty() =~= out@);
            return Some(out);
        }
        match parse_hex_group_x(s, cur) {
            None => {
                return None;
            },
            Some((v, j)) => {
                let ghost prev = out@;
                out.push(v);
                if j == end {
                    assert(prev + seq![v] =~= out@);
                    return Some(out);
                }
                if j < end && s[j] == 58 && j + 1 < end {
                    proof {
                        assert forall|rest: Seq<u16>| prev + (seq![v] + rest) == out@
                            + rest by {
                            assert(prev + (seq![v] + rest) =~= out@ + rest);
                        }
                    }
                    cur = j + 1;
                } else {
                    return None;
                }
            },
        }
    }
}

/// Finds the first `::`, as `spec_find_dcolon` says.
fn find_dcolon_x(s: &[u8], i: usize, end: usize) -> (r: Option<usize>)
    requires
        i <= end <= s@.len(),
    ensures
        match r {
            Some(d) => spec_find_dcolon(s@, i as int, end as int) == Some(d as int) && i <= d && d
                + 1 < end,
            None => spec_find_dcolon(s@, i as int, end as int) is None,
        },
{
    let mut cur = i;
    loop
        invariant
            i <= cur <= end <= s@.len(),
            spec_find_dcolon(s@, i as int, end as int) == spec_find_dcolon(
                s@,
                cur as int,
                end as int,
            ),
        decreases end - cur,
    {
        if end - cur < 2 {
            return None;
        }
        if s[cur] == 58 && s[cur + 1] == 58 {
            return Some(cur);
        }
        cur = cur + 1;
    }
}

/// Parses an IPv6 address, as `spec_parse_ipv6` says.
fn parse_ipv6_x(s: &[u8], i: usize, end: usize) -> (r: Option<[u16; 8]>)
    requires
        i <= end <= s@.len(),
    ensures
        match r {
            Some(seg) => spec_parse_ipv6(s@, i as int, end as int) == Some(seg@),
            None => spec_parse_ipv6(s@, i as int, end as int) is None,
        },
{
    match find_dcolon_x(s, i, end) {
        None => {
            match parse_group_list_x(s, i, end) {
                None => None,
                Some(gs) => {
                    if gs.len() == 8 {
                        let seg: [u16; 8] = [gs[0], gs[1], gs[2], gs[3], gs[4], gs[5], gs[6], gs[7]];
                        assert(seg@ =~= gs@);
                        Some(seg)
                    } else {
                        None
                    }
                },
            }
        },
        Some(d) => {
            let left = parse_group_list_x(s, i, d);
            match left {
                None => None,
                Some(l) => {
                    let right = parse_group_list_x(s, d + 2, end);
                    match right {
                        None => None,
                        Some(rt) => {
                            if l.len() <= 7 && rt.len() <= 7 - l.len() {
                                let mut gs: Vec<u16> = Vec::new();
                                let mut k: usize = 0;
                                while k < l.len()
                                    invariant
                                        0 <= k <= l@.len(),
                                        gs@ =~= l@.subrange(0, k as int),
                                    decreases l@.len() - k,
                                {
                                    gs.push(l[k]);
                                    k = k + 1;
                                }
                                let zeros = 8 - l.len() - rt.len();
                                let mut z: usize = 0;
                                while z < zeros
                                    invariant
                                        0 <= z <= zeros,
                                        zeros == 8 - l@.len() - rt@.len(),
                                        gs@ =~= l@ + zero_groups(z as nat),
                                    decreases zeros - z,
                                {
                                    gs.push(0);
                                    assert(gs@ =~= l@ + zero_groups((z + 1) as nat));
                                    z = z + 1;
                                }
                                let mut k2: usize = 0;
                                while k2 < rt.len()
                                    invariant
                                        0 <= k2 <= rt@.len(),
                                        l@.len() + rt@.len() <= 7,
                                        gs@ =~= l@ + zero_groups(
                                            (8 - l@.len() - rt@.len()) as nat,
                                        ) + rt@.subrange(0, k2 as int),
                                    decreases rt@.len() - k2,
                                {
                                    gs.push(rt[k2]);
                                    k2 = k2 + 1;
                                }
                                assert(gs@ =~= l@ + zero_groups((8 - l@.len() - rt@.len()) as nat)
                                    + rt@);
                                let seg: [u16; 8] = [gs[0], gs[1], gs[2], gs[3], gs[4], gs[5], gs[6], gs[7]];
                                assert(seg@ =~= gs@);
                                Some(seg)
                            } else {
                                None
                            }
                        },
                    }
                },
            }
        },
    }
}

/// Parses a port, as `spec_parse_port` says.
fn parse_port_x(s: &[u8], i: usize) -> (r: Option<u16>)
    requires
        i <= s@.len(),
    ensures
        match r {
            Some(p) => spec_parse_port(s@, i as int, s@.len() as int) == Some(p),
            None => spec_parse_port(s@, i as int, s@.len() as int) is None,
        },
{
    let end = s.len();
    let j = digit_run_end_x(s, i);
    if !(i < end && j == end) {
        return None;
    }
    proof {
        lemma_run_end_bounds(s@, i as int);
    }
    let mut z = i;
    while z < end && s[z] == 48
        invariant
            i <= z <= end == s@.len(),
            forall|k: int| i <= k < z ==> s@[k] == 48,
        decreases end - z,
    {
        z = z + 1;
    }
    proof {
        lemma_dec_val_skip_zeros(s@, i as int, z as int, end as int);
    }
    if end - z <= 5 {
        let v = dec_val_x(s, z, end);
        if v <= 65535 {
            Some(v as u16)
        } else {
            None
        }
    } else {
        proof {
            lemma_dec_val_min(s@.subrange(z as int, end as int));
            assert(pow10(5) == 100000) by {
                reveal_with_fuel(pow10, 6);
            }
            lemma_pow10_mono(5, (end - z - 1) as nat);
        }
        None
    }
}

/// An all-zero digit prefix does not change a run's value.
proof fn lemma_dec_val_skip_zeros(s: Seq<u8>, i: int, z: int, end: int)
    requires
        0 <= i <= z <= end <= s.len(),
        forall|k: int| i <= k < z ==> s[k] == 48,
    ensures
        dec_val(s.subrange(i, end)) == dec_val(s.subrange(z, end)),
    decreases end - z,
{
    if z == end {
        lemma_dec_val_zero_run(s.subrange(i, end));
    } else {
        lemma_dec_val_skip_zeros(s, i, z, end - 1);
        assert(s.subrange(i, end).drop_last() =~= s.subrange(i, end - 1));
        assert(s.subrange(z, end).drop_last() =~= s.subrange(z, end - 1));
        assert(s.subrange(i, end).last() == s[end - 1]);
        assert(s.subrange(z, end).last() == s[end - 1]);
    }
}

/// A run of `0` digits has value zero.
proof fn lemma_dec_val_zero_run(s: Seq<u8>)
    requires
        forall|k: int| 0 <= k < s.len() ==> s[k] == 48,
    ensures
        dec_val(s) == 0,
    decreases s.len(),
{
    if s.len() > 0 {
        lemma_dec_val_zero_run(s.drop_last());
    }
}

/// A digit run that starts with a non-zero digit is at least
/// `pow10(len - 1)`.
proof fn lemma_dec_val_min(s: Seq<u8>)
    requires
        s.len() >= 1,
        forall|k: int| 0 <= k < s.len() ==> is_dec_digit(s[k]),
        s[0] != 48,
    ensures
        dec_val(s) >= pow10((s.len() - 1) as nat),
    decreases s.len(),
{
    if s.len() == 1 {
    } else {
        lemma_dec_val_min(s.drop_last());
    }
}

/// Finds the first occurrence of `b` at or after `i`, as `spec_find_byte`
/// says.
fn find_byte_x(s: &[u8], i: usize, b: u8) -> (r: Option<usize>)
    requires
        i <= s@.len(),
    ensures
        match r {
            Some(p) => spec_find_byte(s@, i as int, b) == Some(p as int) && i <= p < s@.len(),
            None => spec_find_byte(s@, i as int, b) is None,
        },
{
    let mut cur = i;
    loop
        invariant
            i <= cur <= s@.len(),
            spec_find_byte(s@, i as int, b) == spec_find_byte(s@, cur as int, b),
        decreases s@.len() - cur,
    {
        if cur >= s.len() {
            return None;
        }
        if s[cur] == b {
            return Some(cur);
        }
        cur = cur + 1;
    }
}

/// Finds the last occurrence of `b`, as `spec_find_last_byte` says.
fn find_last_byte_x(s: &[u8], b: u8) -> (r: Option<usize>)
    ensures
        match r {
            Some(p) => spec_find_last_byte(s@, b) == Some(p as int) && p < s@.len(),
            None => spec_find_last_byte(s@, b) is None,
        },
{
    let mut cur = s.len();
    assert(s@.subrange(0, s@.len() as int) =~= s@);
    loop
        invariant
            cur <= s@.len(),
            spec_find_last_byte(s@, b) == spec_find_last_byte(s@.subrange(0, cur as int), b),
        decreases cur,
    {
        if cur == 0 {
            assert(s@.subrange(0, 0) =~= Seq::<u8>::empty());
            return None;
        }
        proof {
            assert(s@.subrange(0, cur as int).drop_last() =~= s@.subrange(0, cur as int - 1));
            assert(s@.subrange(0, cur as int).last() == s@[cur as int - 1]);
        }
        if s[cur - 1] == b {
            return Some(cur - 1);
        }
        cur = cur - 1;
    }
}

/// Parses the textual form of a socket address, exactly as
/// `spec_parse_socket_address` reads it: `a.b.c.d:port`, or `[v6]:port`.
pub fn parse_socket_address(s: &[u8]) -> (r: Option<SocketAddress>)
    ensures
        match r {
            Some(sa) => spec_parse_socket_address(s@) == Some(sa@),
            None => spec_parse_socket_address(s@) is None,
        },
{
    if s.len() > 0 && s[0] == 91 {
        match find_byte_x(s, 1, 93) {
            None => None,
            Some(rb) => {
                if rb + 1 < s.len() && s[rb + 1] == 58 {
                    let ip = parse_ipv6_x(s, 1, rb);
                    let port = parse_port_x(s, rb + 2);
                    match (ip, port) {
                        (Some(seg), Some(p)) => Some(
                            SocketAddress { ip: IpAddress::V6(seg), port: p },
                        ),
                        _ => None,
                    }
                } else {
                    None
                }
            },
        }
    } else {
        match find_last_byte_x(s, 58) {
            None => None,
            Some(c) => {
                let ip = parse_ipv4_x(s, 0, c);
                let port = parse_port_x(s, c + 1);
                match (ip, port) {
                    (Some(oct), Some(p)) => Some(
                        SocketAddress { ip: IpAddress::V4(oct), port: p },
                    ),
                    _ => None,
                }
            },
        }
    }
}

} // verus!