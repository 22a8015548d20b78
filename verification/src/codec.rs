//! The settings file format: a small, human-readable JSON object with
//! one brightness slot per actionable power condition,
//!
//! ```text
//! {
//!   "ac_brightness": 100,
//!   "dc_brightness": 0
//! }
//! ```
//!
//! The encoder emits exactly this shape; the decoder accepts it with
//! the numbers written as decimal JSON integers (no leading zeros) in
//! `0..=100`, and rejects everything else. Decoding inverts encoding:
//! see [`lemma_encode_decode_round_trip`].

use vstd::prelude::*;
use crate::errors::ControllerError;
use crate::settings::Settings;

verus! {

pub open spec fn is_digit_byte(c: u8) -> bool {
    48 <= c <= 57
}

/// The decimal digits of a brightness value, most significant first,
/// without leading zeros.
pub open spec fn spec_digits(n: u8) -> Seq<u8>
    recommends
        n <= 100,
{
    if n >= 100 {
        seq![49u8, 48u8, 48u8]
    } else if n >= 10 {
        seq![(48 + n / 10) as u8, (48 + n % 10) as u8]
    } else {
        seq![(48 + n) as u8]
    }
}

/// Everything before the first number: `{`, a newline, and the quoted
/// `ac_brightness` key with its colon.
pub open spec fn json_prefix() -> Seq<u8> {
    seq![
        123u8, 10u8, 32u8, 32u8, 34u8, 97u8, 99u8, 95u8, 98u8, 114u8, 105u8, 103u8, 104u8, 116u8,
        110u8, 101u8, 115u8, 115u8, 34u8, 58u8, 32u8,
    ]
}

/// Everything between the two numbers: the comma, a newline, and the
/// quoted `dc_brightness` key with its colon.
pub open spec fn json_mid() -> Seq<u8> {
    seq![
        44u8, 10u8, 32u8, 32u8, 34u8, 100u8, 99u8, 95u8, 98u8, 114u8, 105u8, 103u8, 104u8, 116u8,
        110u8, 101u8, 115u8, 115u8, 34u8, 58u8, 32u8,
    ]
}

/// Everything after the second number: a newline and the closing `}`.
pub open spec fn json_suffix() -> Seq<u8> {
    seq![10u8, 125u8]
}

/// The canonical byte serialization of a settings value.
pub open spec fn spec_encode(s: Settings) -> Seq<u8> {
    json_prefix() + spec_digits(s.ac_brightness) + json_mid() + spec_digits(s.dc_brightness)
        + json_suffix()
}

/// Whether `pat` occurs in `b` starting at position `i`.
pub open spec fn match_at(b: Seq<u8>, i: int, pat: Seq<u8>) -> bool {
    &&& 0 <= i
    &&& i + pat.len() <= b.len()
    &&& b.subrange(i, i + pat.len()) == pat
}

/// The position right after the run of digit bytes that starts at `i`.
pub open spec fn run_end(b: Seq<u8>, i: int) -> int
    recommends
        0 <= i <= b.len(),
    decreases b.len() - i when 0 <= i <= b.len()
{
    if i < b.len() && is_digit_byte(b[i]) {
        run_end(b, i + 1)
    } else {
        i
    }
}

/// The value of the decimal digits `b[i..j]`, most significant first.
pub open spec fn num_of(b: Seq<u8>, i: int, j: int) -> int
    decreases j - i,
{
    if i >= j {
        0
    } else {
        num_of(b, i, j - 1) * 10 + (b[j - 1] - 48)
    }
}

/// The settings a byte string decodes to, or `None` when it is not in
/// the format this module writes: the fixed prefix, a decimal integer
/// in `0..=100` without leading zeros, the fixed middle, a second such
/// integer, and the fixed suffix, with nothing following.
pub open spec fn spec_decode(b: Seq<u8>) -> Option<Settings> {
    let i0 = json_prefix().len() as int;
    if !match_at(b, 0, json_prefix()) {
        None
    } else {
        let j1 = run_end(b, i0);
        if j1 == i0 || j1 > i0 + 3 || (j1 - i0 > 1 && b[i0] == 48) {
            None
        } else {
            let ac = num_of(b, i0, j1);
            if ac > 100 {
                None
            } else if !match_at(b, j1, json_mid()) {
                None
            } else {
                let i2 = j1 + json_mid().len();
                let j2 = run_end(b, i2);
                if j2 == i2 || j2 > i2 + 3 || (j2 - i2 > 1 && b[i2] == 48) {
                    None
                } else {
                    let dc = num_of(b, i2, j2);
                    if dc > 100 {
                        None
                    } else if !(match_at(b, j2, json_suffix()) && b.len() == j2
                        + json_suffix().len()) {
                        None
                    } else {
                        Some(Settings { ac_brightness: ac as u8, dc_brightness: dc as u8 })
                    }
                }
            }
        }
    }
}

/// The shape of a digit sequence: one to three bytes, all digits, and
/// no leading zero unless the value itself is a single digit.
proof fn lemma_digits_shape(n: u8)
    requires
        n <= 100,
    ensures
        1 <= spec_digits(n).len() <= 3,
        forall|k: int| 0 <= k < spec_digits(n).len() ==> is_digit_byte(spec_digits(n)[k]),
        spec_digits(n).len() > 1 ==> spec_digits(n)[0] != 48,
        n >= 100 ==> spec_digits(n).len() == 3,
        10 <= n < 100 ==> spec_digits(n).len() == 2,
        n < 10 ==> spec_digits(n).len() == 1,
{
}

/// Scanning and evaluating a digit run embedded in a larger byte
/// string: where `spec_digits(n)` sits at position `i` and the byte
/// after it (if any) is not a digit, the digit run ends exactly at the
/// end of `spec_digits(n)` and evaluates back to `n`.
proof fn lemma_embedded_digits(b: Seq<u8>, i: int, n: u8)
    requires
        n <= 100,
        0 <= i,
        i + spec_digits(n).len() <= b.len(),
        b.subrange(i, i + spec_digits(n).len()) == spec_digits(n),
        i + spec_digits(n).len() == b.len() || !is_digit_byte(b[i + spec_digits(n).len()]),
    ensures
        run_end(b, i) == i + spec_digits(n).len(),
        num_of(b, i, i + spec_digits(n).len()) == n,
        spec_digits(n).len() > 1 ==> b[i] != 48,
{
    let d = spec_digits(n);
    let l = d.len() as int;
    lemma_digits_shape(n);
    assert forall|k: int| 0 <= k < l implies b[i + k] == d[k] by {
        assert(b.subrange(i, i + l)[k] == b[i + k]);
    }
    assert(run_end(b, i + l) == i + l);
    if n >= 100 {
        assert(run_end(b, i + 2) == i + 3);
        assert(run_end(b, i + 1) == i + 3);
        assert(run_end(b, i) == i + 3);
        assert(num_of(b, i, i) == 0);
        assert(num_of(b, i, i + 1) == 1);
        assert(num_of(b, i, i + 2) == 10);
        assert(num_of(b, i, i + 3) == 100);
    } else if n >= 10 {
        assert(run_end(b, i + 1) == i + 2);
        assert(run_end(b, i) == i + 2);
        assert(num_of(b, i, i) == 0);
        assert(num_of(b, i, i + 1) == n / 10);
        assert(num_of(b, i, i + 2) == (n / 10) * 10 + n % 10);
        assert((n / 10) * 10 + n % 10 == n);
    } else {
        assert(b[i + 0] == d[0]);
        assert(run_end(b, i) == i + 1);
        assert(num_of(b, i, i) == 0);
        assert(num_of(b, i, i + 1) == n);
    }
}

/// Decoding inverts encoding: every well-formed settings value comes
/// back unchanged from its own serialization.
pub proof fn lemma_encode_decode_round_trip(s: Settings)
    requires
        s.wf(),
    ensures
        spec_decode(spec_encode(s)) == Some(s),
{
    let b = spec_encode(s);
    let pre = json_prefix();
    let d1 = spec_digits(s.ac_brightness);
    let mid = json_mid();
    let d2 = spec_digits(s.dc_brightness);
    let suf = json_suffix();
    lemma_digits_shape(s.ac_brightness);
    lemma_digits_shape(s.dc_brightness);
    let i0 = pre.len() as int;
    let j1 = i0 + d1.len() as int;
    let i2 = j1 + mid.len() as int;
    let j2 = i2 + d2.len() as int;
    assert(b.len() == j2 + suf.len());
    assert(b.subrange(0, i0) =~= pre);
    assert(b.subrange(i0, j1) =~= d1);
    assert(b.subrange(j1, i2) =~= mid);
    assert(b.subrange(i2, j2) =~= d2);
    assert(b.subrange(j2, b.len() as int) =~= suf);
    assert(match_at(b, 0, pre));
    assert(!is_digit_byte(b[j1])) by {
        assert(b.subrange(j1, i2)[0] == b[j1]);
    }
    assert(!is_digit_byte(b[j2])) by {
        assert(b.subrange(j2, b.len() as int)[0] == b[j2]);
    }
    lemma_embedded_digits(b, i0, s.ac_brightness);
    lemma_embedded_digits(b, i2, s.dc_brightness);
    assert(match_at(b, j1, mid));
    assert(match_at(b, j2, suf));
    assert(spec_decode(b) == Some(s));
}

fn is_digit(c: u8) -> (r: bool)
    ensures
        r == is_digit_byte(c),
{
    48 <= c && c <= 57
}

fn push_prefix(v: &mut Vec<u8>)
    ensures
        final(v)@ == old(v)@ + json_prefix(),
{
    v.push(123u8);
    v.push(10u8);
    v.push(32u8);
    v.push(32u8);
    v.push(34u8);
    v.push(97u8);
    v.push(99u8);
    v.push(95u8);
    v.push(98u8);
    v.push(114u8);
    v.push(105u8);
    v.push(103u8);
    v.push(104u8);
    v.push(116u8);
    v.push(110u8);
    v.push(101u8);
    v.push(115u8);
    v.push(115u8);
    v.push(34u8);
    v.push(58u8);
    v.push(32u8);
    proof {
        assert(v@ =~= old(v)@ + json_prefix());
    }
}

fn push_mid(v: &mut Vec<u8>)
    ensures
        final(v)@ == old(v)@ + json_mid(),
{
    v.push(44u8);
    v.push(10u8);
    v.push(32u8);
    v.push(32u8);
    v.push(34u8);
    v.push(100u8);
    v.push(99u8);
    v.push(95u8);
    v.push(98u8);
    v.push(114u8);
    v.push(105u8);
    v.push(103u8);
    v.push(104u8);
    v.push(116u8);
    v.push(110u8);
    v.push(101u8);
    v.push(115u8);
    v.push(115u8);
    v.push(34u8);
    v.push(58u8);
    v.push(32u8);
    proof {
        assert(v@ =~= old(v)@ + json_mid());
    }
}

fn push_suffix(v: &mut Vec<u8>)
    ensures
        final(v)@ == old(v)@ + json_suffix(),
{
    v.push(10u8);
    v.push(125u8);
    proof {
        assert(v@ =~= old(v)@ + json_suffix());
    }
}

fn push_decimal(v: &mut Vec<u8>, n: u8)
    requires
        n <= 100,
    ensures
        final(v)@ == old(v)@ + spec_digits(n),
{
    if n >= 100 {
        v.push(49);
        v.push(48);
        v.push(48);
    } else if n >= 10 {
        v.push(48 + n / 10);
        v.push(48 + n % 10);
    } else {
        v.push(48 + n);
    }
    proof {
        assert(v@ =~= old(v)@ + spec_digits(n));
    }
}

/// Serialize a settings value into the canonical byte form.
pub fn to_json(s: &Settings) -> (v: Vec<u8>)
    requires
        s.wf(),
    ensures
        v@ == spec_encode(*s),
{
    let mut v: Vec<u8> = Vec::new();
    push_prefix(&mut v);
    push_decimal(&mut v, s.ac_brightness);
    push_mid(&mut v);
    push_decimal(&mut v, s.dc_brightness);
    push_suffix(&mut v);
    proof {
        assert(v@ =~= spec_encode(*s));
    }
    v
}

fn prefix_vec() -> (v: Vec<u8>)
    ensures
        v@ == json_prefix(),
{
    let mut v: Vec<u8> = Vec::new();
    push_prefix(&mut v);
    proof {
        assert(v@ =~= json_prefix());
    }
    v
}

fn mid_vec() -> (v: Vec<u8>)
    ensures
        v@ == json_mid(),
{
    let mut v: Vec<u8> = Vec::new();
    push_mid(&mut v);
    proof {
        assert(v@ =~= json_mid());
    }
    v
}

fn suffix_vec() -> (v: Vec<u8>)
    ensures
        v@ == json_suffix(),
{
    let mut v: Vec<u8> = Vec::new();
    push_suffix(&mut v);
    proof {
        assert(v@ =~= json_suffix());
    }
    v
}

fn check_at(b: &Vec<u8>, i: usize, pat: &Vec<u8>) -> (r: bool)
    ensures
        r == match_at(b@, i as int, pat@),
{
    if i > b.len() || b.len() - i < pat.len() {
        return false;
    }
    let mut k: usize = 0;
    while k < pat.len()
        invariant
            i + pat@.len() <= b@.len(),
            b@.len() <= usize::MAX,
            k <= pat@.len(),
            forall|m: int| 0 <= m < k ==> b@[i + m] == pat@[m],
        decreases pat@.len() - k,
    {
        if b[i + k] != pat[k] {
            proof {
                if match_at(b@, i as int, pat@) {
                    assert(b@.subrange(i as int, i + pat@.len())[k as int] == b@[i + k]);
                }
            }
            return false;
        }
        k += 1;
    }
    proof {
        assert(b@.subrange(i as int, i + pat@.len()) =~= pat@);
    }
    true
}

fn scan_digits(b: &Vec<u8>, i: usize) -> (j: usize)
    requires
        i <= b@.len(),
    ensures
        j as int == run_end(b@, i as int),
        i <= j <= b@.len(),
        forall|k: int| i <= k < j ==> is_digit_byte(b@[k]),
{
    let mut j: usize = i;
    while j < b.len() && is_digit(b[j])
        invariant
            i <= j <= b@.len(),
            run_end(b@, i as int) == run_end(b@, j as int),
            forall|k: int| i <= k < j ==> is_digit_byte(b@[k]),
        decreases b@.len() - j,
    {
        proof {
            assert(run_end(b@, j as int) == run_end(b@, j + 1));
        }
        j += 1;
    }
    proof {
        assert(run_end(b@, j as int) == j);
    }
    j
}

fn parse_number(b: &Vec<u8>, i: usize, j: usize) -> (n: u32)
    requires
        i < j <= b@.len(),
        j - i <= 3,
        forall|k: int| i <= k < j ==> is_digit_byte(b@[k]),
    ensures
        n as int == num_of(b@, i as int, j as int),
        n < 1000,
{
    let mut n: u32 = (b[i] - 48) as u32;
    proof {
        assert(num_of(b@, i as int, i as int) == 0);
        assert(num_of(b@, i as int, i + 1) == b@[i as int] - 48);
    }
    if j - i >= 2 {
        n = n * 10 + (b[i + 1] - 48) as u32;
        proof {
            assert(num_of(b@, i as int, i + 2) == num_of(b@, i as int, i + 1) * 10 + (b@[i + 1]
                - 48));
        }
    }
    if j - i == 3 {
        n = n * 10 + (b[i + 2] - 48) as u32;
        proof {
            assert(num_of(b@, i as int, i + 3) == num_of(b@, i as int, i + 2) * 10 + (b@[i + 2]
                - 48));
        }
    }
    n
}

/// Parse a byte string in the canonical settings format. Returns the
/// decoded value exactly when [`spec_decode`] does.
pub fn from_json(b: &Vec<u8>) -> (r: Option<Settings>)
    ensures
        r == spec_decode(b@),
        r matches Some(s) ==> s.wf(),
{
    let pre = prefix_vec();
    let mid = mid_vec();
    let suf = suffix_vec();
    if !check_at(b, 0, &pre) {
        return None;
    }
    let i0 = pre.len();
    let j1 = scan_digits(b, i0);
    if j1 == i0 || j1 > i0 + 3 || (j1 - i0 > 1 && b[i0] == 48) {
        return None;
    }
    let ac = parse_number(b, i0, j1);
    if ac > 100 {
        return None;
    }
    if !check_at(b, j1, &mid) {
        return None;
    }
    let i2 = j1 + mid.len();
    let j2 = scan_digits(b, i2);
    if j2 == i2 || j2 > i2 + 3 || (j2 - i2 > 1 && b[i2] == 48) {
        return None;
    }
    let dc = parse_number(b, i2, j2);
    if dc > 100 {
        return None;
    }
    if !(check_at(b, j2, &suf) && b.len() == j2 + suf.len()) {
        return None;
    }
    Some(Settings { ac_brightness: ac as u8, dc_brightness: dc as u8 })
}

/// Interpret what was read from the settings store: a missing file
/// (`None`) yields the defaults without error, readable contents are
/// decoded, and contents in any other shape are a persistence error.
pub fn settings_from_file(contents: Option<&Vec<u8>>) -> (r: Result<Settings, ControllerError>)
    ensures
        contents is None ==> r == Ok::<Settings, ControllerError>(Settings {
            ac_brightness: 100u8,
            dc_brightness: 0u8,
        }),
        contents matches Some(b) ==> match spec_decode(b@) {
            Some(s) => r == Ok::<Settings, ControllerError>(s),
            None => r == Err::<Settings, ControllerError>(ControllerError::Persistence),
        },
        r matches Ok(s) ==> s.wf(),
{
    match contents {
        None => Ok(Settings::default()),
        Some(b) => match from_json(b) {
            Some(s) => Ok(s),
            None => Err(ControllerError::Persistence),
        },
    }
}

} // verus!
