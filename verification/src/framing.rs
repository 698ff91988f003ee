//! Wire framing: length-prefixed headers around message payloads.
//!
//! Each message travels as a header line naming the payload's byte length,
//! a blank line, then the payload.  Encoding a frame and reading the length
//! back out of a header line are pure byte functions, verified here together
//! with the round trip between the two; the unverified shell only moves the
//! bytes.

use vstd::prelude::*;

verus! {

use vstd::arithmetic::div_mod::lemma_fundamental_div_mod;
use vstd::string::StringSliceAdditionalSpecFns;

/// The ASCII digit of `n`'s lowest decimal place.
pub open spec fn digit_of(n: nat) -> u8 {
    (48 + (n % 10)) as u8
}

/// The decimal representation of `n`, most significant digit first, without
/// leading zeros.
pub open spec fn dec_rep(n: nat) -> Seq<u8>
    decreases n,
{
    if n < 10 {
        seq![digit_of(n)]
    } else {
        dec_rep(n / 10).push(digit_of(n))
    }
}

/// Whether `b` is an ASCII digit.
pub open spec fn is_digit(b: u8) -> bool {
    48 <= b <= 57
}

/// Whether every byte of `s` is an ASCII digit.
pub open spec fn all_digits(s: Seq<u8>) -> bool {
    forall|i: int| 0 <= i < s.len() ==> is_digit(#[trigger] s[i])
}

/// The number a digit string denotes.
pub open spec fn dec_value(s: Seq<u8>) -> nat
    decreases s.len(),
{
    if s.len() == 0 {
        0
    } else {
        dec_value(s.drop_last()) * 10 + ((s.last() - 48) as nat)
    }
}

/// The decimal representation consists of digits and is never empty.
pub proof fn lemma_dec_rep_digits(n: nat)
    ensures
        all_digits(dec_rep(n)),
        dec_rep(n).len() >= 1,
    decreases n,
{
    if n < 10 {
        assert(dec_rep(n) == seq![digit_of(n)]);
        assert(dec_rep(n)[0] == digit_of(n));
    } else {
        lemma_dec_rep_digits(n / 10);
        let s = dec_rep(n / 10);
        assert forall|i: int| 0 <= i < dec_rep(n).len() implies is_digit(#[trigger] dec_rep(n)[i]) by {
            if i < s.len() {
                assert(dec_rep(n)[i] == s[i]);
            } else {
                assert(dec_rep(n)[i] == digit_of(n));
            }
        }
    }
}

/// Reading the decimal representation back yields the number: one direction
/// of the print/parse round trip.
pub proof fn lemma_dec_value_of_rep(n: nat)
    ensures
        dec_value(dec_rep(n)) == n,
    decreases n,
{
    if n < 10 {
        let s = seq![digit_of(n)];
        assert(s.len() == 1);
        assert(s.drop_last() =~= Seq::<u8>::empty());
        assert(s.last() == digit_of(n));
        assert(dec_value(Seq::<u8>::empty()) == 0);
        assert(dec_value(s) == dec_value(s.drop_last()) * 10 + ((s.last() - 48) as nat));
        assert(digit_of(n) == (48 + n) as u8);
        assert(((digit_of(n) - 48) as nat) == n);
    } else {
        lemma_dec_value_of_rep(n / 10);
        let s = dec_rep(n / 10).push(digit_of(n));
        assert(s.drop_last() =~= dec_rep(n / 10));
        assert(s.last() == digit_of(n));
        lemma_fundamental_div_mod(n as int, 10);
    }
}

/// Renders a number in decimal.
pub fn u64_to_dec(n: u64) -> (r: Vec<u8>)
    ensures
        r@ == dec_rep(n as nat),
{
    let mut rev: Vec<u8> = Vec::new();
    let mut m: u64 = n;
    proof {
        assert(dec_rep(n as nat) =~= dec_rep(m as nat) + rev@.reverse());
    }
    while m >= 10
        invariant
            dec_rep(n as nat) == dec_rep(m as nat) + rev@.reverse(),
        decreases m,
    {
        let ghost m0 = m as nat;
        let ghost rev0 = rev@;
        let d: u8 = 48 + (m % 10) as u8;
        rev.push(d);
        m = m / 10;
        proof {
            assert(d == digit_of(m0));
            assert(m as nat == m0 / 10);
            assert(dec_rep(m0) == dec_rep(m0 / 10).push(digit_of(m0)));
            assert(rev@ == rev0.push(d));
            assert(rev@.reverse() =~= seq![d] + rev0.reverse());
            assert(dec_rep(m0 / 10).push(digit_of(m0)) + rev0.reverse() =~= dec_rep(m0 / 10) + (
            seq![digit_of(m0)] + rev0.reverse()));
        }
    }
    let ghost m1 = m as nat;
    let ghost rev1 = rev@;
    let d_last: u8 = 48 + (m % 10) as u8;
    rev.push(d_last);
    proof {
        assert(d_last == digit_of(m1));
        assert(dec_rep(m1) == seq![digit_of(m1)]);
        assert(rev@.reverse() =~= seq![digit_of(m1)] + rev1.reverse());
        assert(dec_rep(n as nat) =~= rev@.reverse());
    }
    let k: usize = rev.len();
    let mut out: Vec<u8> = Vec::new();
    let mut i: usize = k;
    while i > 0
        invariant
            0 <= i <= k,
            k == rev@.len(),
            out@.len() == k - i,
            forall|j: int| 0 <= j < out@.len() ==> out@[j] == rev@[k - 1 - j],
        decreases i,
    {
        i = i - 1;
        let b = rev[i];
        out.push(b);
    }
    proof {
        assert(out@ =~= rev@.reverse());
    }
    out
}

/// The header bytes that announce a payload of `n` bytes.
pub open spec fn content_length_prefix() -> Seq<u8> {
    "Content-Length: ".spec_bytes()
}

/// The full header of a frame whose payload has `n` bytes: the length line
/// followed by the blank line.
pub open spec fn frame_header(n: nat) -> Seq<u8> {
    content_length_prefix() + dec_rep(n) + "\r\n\r\n".spec_bytes()
}

/// A whole frame: header, then payload.
pub open spec fn spec_frame(payload: Seq<u8>) -> Seq<u8> {
    frame_header(payload.len()) + payload
}

/// Frames a payload for the wire.
pub fn encode_frame(payload: &Vec<u8>) -> (r: Vec<u8>)
    ensures
        r@ == spec_frame(payload@),
{
    let mut out: Vec<u8> = Vec::new();
    out.extend_from_slice("Content-Length: ".as_bytes());
    let mut len_bytes = u64_to_dec(payload.len() as u64);
    out.append(&mut len_bytes);
    out.extend_from_slice("\r\n\r\n".as_bytes());
    out.extend_from_slice(payload.as_slice());
    proof {
        assert(out@ =~= spec_frame(payload@));
    }
    out
}

/// A longer digit prefix of one string never denotes a smaller number.
proof fn lemma_dec_value_prefix_monotone(s: Seq<u8>, i: int, j: int)
    requires
        0 <= i <= j <= s.len(),
    ensures
        dec_value(s.subrange(0, i)) <= dec_value(s.subrange(0, j)),
    decreases j - i,
{
    if i < j {
        lemma_dec_value_prefix_monotone(s, i, j - 1);
        let p = s.subrange(0, j);
        assert(p.drop_last() =~= s.subrange(0, j - 1));
        assert(dec_value(p) == dec_value(p.drop_last()) * 10 + ((p.last() - 48) as nat));
        assert(dec_value(p.drop_last()) * 10 >= dec_value(p.drop_last()));
    }
}

/// Reads a decimal number.  Succeeds exactly on a nonempty all-digit string
/// whose value fits the result type, and then returns that value.
pub fn parse_dec(s: &[u8]) -> (r: Option<u64>)
    ensures
        match r {
            Some(v) => s@.len() > 0 && all_digits(s@) && v as nat == dec_value(s@),
            None => s@.len() == 0 || !all_digits(s@) || dec_value(s@) > u64::MAX,
        },
{
    let n: usize = s.len();
    if n == 0 {
        return None;
    }
    let mut acc: u64 = 0;
    let mut i: usize = 0;
    while i < n
        invariant
            0 <= i <= n,
            n == s@.len(),
            forall|j: int| 0 <= j < i ==> is_digit(#[trigger] s@[j]),
            acc as nat == dec_value(s@.subrange(0, i as int)),
        decreases n - i,
    {
        let b = s[i];
        if b < 48 || b > 57 {
            return None;
        }
        let d: u64 = (b - 48) as u64;
        let ghost acc0 = acc as nat;
        if acc > (u64::MAX - d) / 10 {
            proof {
                assert(acc0 * 10 + d > u64::MAX) by (nonlinear_arith)
                    requires
                        acc0 > ((u64::MAX - d) as nat) / 10,
                        d <= 9,
                ;
                let p = s@.subrange(0, i as int + 1);
                assert(p.drop_last() =~= s@.subrange(0, i as int));
                assert(p.last() == s@[i as int]);
                assert(dec_value(p) == acc0 * 10 + ((s@[i as int] - 48) as nat));
                if all_digits(s@) {
                    lemma_dec_value_prefix_monotone(s@, i as int + 1, n as int);
                    assert(s@.subrange(0, n as int) =~= s@);
                }
            }
            return None;
        }
        proof {
            assert(acc0 * 10 + d <= u64::MAX) by (nonlinear_arith)
                requires
                    acc0 <= ((u64::MAX - d) as nat) / 10,
                    d <= 9,
            ;
        }
        acc = acc * 10 + d;
        i = i + 1;
        proof {
            let p = s@.subrange(0, i as int);
            assert(p.drop_last() =~= s@.subrange(0, i as int - 1));
            assert(p.last() == s@[i as int - 1]);
        }
    }
    proof {
        assert(s@.subrange(0, n as int) =~= s@);
    }
    Some(acc)
}

/// Reads the payload length out of one header line.  Succeeds exactly when
/// the line is the length header: the announcing prefix followed by a
/// nonempty digit string whose value fits, and then returns that value.
pub fn content_length_of_line(line: &[u8]) -> (r: Option<u64>)
    ensures
        ({
            let plen = content_length_prefix().len() as int;
            match r {
                Some(v) => {
                    &&& line@.len() > plen
                    &&& line@.subrange(0, plen) == content_length_prefix()
                    &&& all_digits(line@.subrange(plen, line@.len() as int))
                    &&& v as nat == dec_value(line@.subrange(plen, line@.len() as int))
                },
                None => {
                    ||| line@.len() <= plen
                    ||| line@.subrange(0, plen) != content_length_prefix()
                    ||| !all_digits(line@.subrange(plen, line@.len() as int))
                    ||| dec_value(line@.subrange(plen, line@.len() as int)) > u64::MAX
                },
            }
        }),
{
    let prefix = "Content-Length: ".as_bytes();
    let plen: usize = prefix.len();
    let n: usize = line.len();
    if n <= plen {
        return None;
    }
    let mut i: usize = 0;
    while i < plen
        invariant
            0 <= i <= plen,
            plen == content_length_prefix().len(),
            n == line@.len(),
            n > plen,
            prefix@ == content_length_prefix(),
            forall|j: int| 0 <= j < i ==> line@[j] == content_length_prefix()[j],
        decreases plen - i,
    {
        if line[i] != prefix[i] {
            proof {
                assert(line@.subrange(0, plen as int)[i as int] != content_length_prefix()[i as int]);
            }
            return None;
        }
        i = i + 1;
    }
    proof {
        assert(line@.subrange(0, plen as int) =~= content_length_prefix());
    }
    let mut acc: u64 = 0;
    let mut j: usize = plen;
    let ghost rest = line@.subrange(plen as int, n as int);
    proof {
        assert(rest.subrange(0, 0) =~= Seq::<u8>::empty());
    }
    while j < n
        invariant
            plen <= j <= n,
            n == line@.len(),
            n > plen,
            plen == content_length_prefix().len(),
            line@.subrange(0, plen as int) == content_length_prefix(),
            rest == line@.subrange(plen as int, n as int),
            forall|t: int| 0 <= t < j - plen ==> is_digit(#[trigger] rest[t]),
            acc as nat == dec_value(rest.subrange(0, j - plen)),
        decreases n - j,
    {
        let b = line[j];
        proof {
            assert(rest[j - plen] == line@[j as int]);
        }
        if b < 48 || b > 57 {
            proof {
                assert(!is_digit(rest[j - plen]));
            }
            return None;
        }
        let d: u64 = (b - 48) as u64;
        let ghost acc0 = acc as nat;
        if acc > (u64::MAX - d) / 10 {
            proof {
                assert(acc0 * 10 + d > u64::MAX) by (nonlinear_arith)
                    requires
                        acc0 > ((u64::MAX - d) as nat) / 10,
                        d <= 9,
                ;
                let p = rest.subrange(0, j - plen + 1);
                assert(p.drop_last() =~= rest.subrange(0, j as int - plen));
                assert(p.last() == rest[j - plen]);
                assert(dec_value(p) == acc0 * 10 + ((rest[j - plen] - 48) as nat));
                assert(((rest[j - plen] - 48) as nat) == d as nat);
                assert(dec_value(p) > u64::MAX);
                if all_digits(rest) {
                    lemma_dec_value_prefix_monotone(rest, j - plen + 1, rest.len() as int);
                    assert(rest.subrange(0, rest.len() as int) =~= rest);
                    assert(dec_value(rest) > u64::MAX);
                }
            }
            return None;
        }
        proof {
            assert(acc0 * 10 + d <= u64::MAX) by (nonlinear_arith)
                requires
                    acc0 <= ((u64::MAX - d) as nat) / 10,
                    d <= 9,
            ;
        }
        acc = acc * 10 + d;
        j = j + 1;
        proof {
            let p = rest.subrange(0, j - plen);
            assert(p.drop_last() =~= rest.subrange(0, j - plen - 1));
            assert(p.last() == rest[j - plen - 1]);
        }
    }
    proof {
        assert(rest.subrange(0, rest.len() as int) =~= rest);
    }
    Some(acc)
}

/// The header line that `encode_frame` emits for a payload of `n` bytes is
/// exactly what `content_length_of_line` accepts, and it reads back as `n`:
/// the frame round trip.
pub proof fn lemma_header_line_round_trip(n: u64)
    ensures
        ({
            let line = content_length_prefix() + dec_rep(n as nat);
            let plen = content_length_prefix().len() as int;
            &&& line.len() > plen
            &&& line.subrange(0, plen) == content_length_prefix()
            &&& line.subrange(plen, line.len() as int) == dec_rep(n as nat)
            &&& all_digits(line.subrange(plen, line.len() as int))
            &&& dec_value(line.subrange(plen, line.len() as int)) == n as nat
        }),
{
    lemma_dec_rep_digits(n as nat);
    lemma_dec_value_of_rep(n as nat);
    let line = content_length_prefix() + dec_rep(n as nat);
    let plen = content_length_prefix().len() as int;
    assert(line.subrange(0, plen) =~= content_length_prefix());
    assert(line.subrange(plen, line.len() as int) =~= dec_rep(n as nat));
}

/// How the reader loop classifies one decoded message.
#[derive(Debug, Clone, Copy, PartialEq, Eq, Structural)]
pub enum MessageKind {
    /// Carries an identifier and no method: the reply to a pending request.
    Response,
    /// Carries a method and no identifier: a server-pushed notification.
    Notification,
    /// Carries both: a request from the server to the client.
    ServerRequest,
    /// Carries neither: malformed, logged and dropped without terminating
    /// the reader loop.
    Invalid,
}

/// The classification rule on the two shape marks of a decoded message.
pub open spec fn spec_classify_message(has_id: bool, has_method: bool) -> MessageKind {
    if has_id && !has_method {
        MessageKind::Response
    } else if !has_id && has_method {
        MessageKind::Notification
    } else if has_id && has_method {
        MessageKind::ServerRequest
    } else {
        MessageKind::Invalid
    }
}

/// Classifies a decoded message by whether it carries an identifier and
/// whether it carries a method name.
pub fn classify_message(has_id: bool, has_method: bool) -> (r: MessageKind)
    ensures
        r == spec_classify_message(has_id, has_method),
{
    if has_id && !has_method {
        MessageKind::Response
    } else if !has_id && has_method {
        MessageKind::Notification
    } else if has_id && has_method {
        MessageKind::ServerRequest
    } else {
        MessageKind::Invalid
    }
}

} // verus!
