//! Byte-level string operations with the meaning that Rust's `str` gives them.
//!
//! Rust slices, compares and searches strings by their UTF-8 bytes, so the
//! specifications here are stated over `s.spec_bytes()`, the UTF-8 encoding of
//! the string's characters.  Trimming is the one operation defined on characters.

use vstd::prelude::*;
use vstd::string::StringSliceAdditionalSpecFns;

verus! {

broadcast use vstd::utf8::encode_utf8_valid_utf8, vstd::utf8::encode_utf8_decode_utf8;

// ---------------------------------------------------------------------------
// Specifications
// ---------------------------------------------------------------------------

/// ASCII lower-casing of one byte (other bytes are unchanged).
pub open spec fn lower_byte(b: u8) -> u8 {
    if 65 <= b <= 90 {
        (b + 32) as u8
    } else {
        b
    }
}

/// ASCII upper-casing of one byte (other bytes are unchanged).
pub open spec fn upper_byte(b: u8) -> u8 {
    if 97 <= b <= 122 {
        (b - 32) as u8
    } else {
        b
    }
}

/// `s.to_ascii_lowercase()` on the byte level.
pub open spec fn lower_bytes(s: Seq<u8>) -> Seq<u8> {
    Seq::new(s.len(), |i: int| lower_byte(s[i]))
}

/// `s.to_ascii_uppercase()` on the byte level.
pub open spec fn upper_bytes(s: Seq<u8>) -> Seq<u8> {
    Seq::new(s.len(), |i: int| upper_byte(s[i]))
}

/// `a.eq_ignore_ascii_case(b)`.
pub open spec fn eq_ignore_case(a: Seq<u8>, b: Seq<u8>) -> bool {
    lower_bytes(a) == lower_bytes(b)
}

/// `s.starts_with(p)`.
pub open spec fn has_prefix(s: Seq<u8>, p: Seq<u8>) -> bool {
    p.len() <= s.len() && s.subrange(0, p.len() as int) == p
}

/// `s.ends_with(p)`.
pub open spec fn has_suffix(s: Seq<u8>, p: Seq<u8>) -> bool {
    p.len() <= s.len() && s.subrange(s.len() - p.len(), s.len() as int) == p
}

/// `p` occurs in `s` starting at byte `i`.
pub open spec fn occurs_at(s: Seq<u8>, p: Seq<u8>, i: int) -> bool {
    0 <= i && i + p.len() <= s.len() && s.subrange(i, i + p.len()) == p
}

/// `s.contains(p)`.
pub open spec fn has_infix(s: Seq<u8>, p: Seq<u8>) -> bool {
    exists|i: int| occurs_at(s, p, i)
}

/// Lexicographic byte order, the order of `<` on `str`.
pub open spec fn lex_lt(a: Seq<u8>, b: Seq<u8>) -> bool
    decreases a.len(),
{
    if a.len() == 0 {
        b.len() > 0
    } else if b.len() == 0 {
        false
    } else if a[0] < b[0] {
        true
    } else if a[0] > b[0] {
        false
    } else {
        lex_lt(a.drop_first(), b.drop_first())
    }
}

/// `s.get(start..end)`: the bytes between two character boundaries.
pub open spec fn byte_range(s: Seq<u8>, start: int, end: int) -> Option<Seq<u8>> {
    if start <= end && end <= s.len() && vstd::utf8::is_char_boundary(s, start)
        && vstd::utf8::is_char_boundary(s, end) {
        Some(s.subrange(start, end))
    } else {
        None
    }
}

/// The bytes of an optional string slice.
pub open spec fn opt_bytes(o: Option<&str>) -> Option<Seq<u8>> {
    match o {
        Some(t) => Some(t.spec_bytes()),
        None => None,
    }
}

/// Decimal digit byte.
pub open spec fn is_digit(b: u8) -> bool {
    48 <= b <= 57
}

/// The value of a run of decimal digits.
pub open spec fn digits_value(d: Seq<u8>) -> int
    decreases d.len(),
{
    if d.len() == 0 {
        0
    } else {
        10 * digits_value(d.drop_last()) + (d.last() - 48)
    }
}

/// The run of digits after an optional sign.
pub open spec fn unsigned_part(s: Seq<u8>) -> Seq<u8> {
    if s.len() > 0 && (s[0] == 43 || s[0] == 45) {
        s.drop_first()
    } else {
        s
    }
}

/// The integer that `s` spells: an optional `+` or `-` followed by at least one digit.
pub open spec fn parse_int(s: Seq<u8>) -> Option<int> {
    let d = unsigned_part(s);
    if d.len() > 0 && (forall|i: int| 0 <= i < d.len() ==> is_digit(#[trigger] d[i])) {
        if s[0] == 45 {
            Some(-digits_value(d))
        } else {
            Some(digits_value(d))
        }
    } else {
        None
    }
}

/// `s.parse::<i32>().ok()`.
pub open spec fn parse_i32(s: Seq<u8>) -> Option<i32> {
    match parse_int(s) {
        Some(v) => if i32::MIN <= v <= i32::MAX {
            Some(v as i32)
        } else {
            None
        },
        None => None,
    }
}

/// Unicode `White_Space`, the property that `char::is_whitespace` tests.
pub open spec fn is_white_space(c: char) -> bool {
    let u = c as u32;
    (9 <= u <= 13) || u == 32 || u == 0x85 || u == 0xa0 || u == 0x1680 || (0x2000 <= u <= 0x200a)
        || u == 0x2028 || u == 0x2029 || u == 0x202f || u == 0x205f || u == 0x3000
}

/// The characters left after removing leading white space.
pub open spec fn trim_start(s: Seq<char>) -> Seq<char>
    decreases s.len(),
{
    if s.len() > 0 && is_white_space(s[0]) {
        trim_start(s.drop_first())
    } else {
        s
    }
}

/// The characters left after removing trailing white space.
pub open spec fn trim_end(s: Seq<char>) -> Seq<char>
    decreases s.len(),
{
    if s.len() > 0 && is_white_space(s.last()) {
        trim_end(s.drop_last())
    } else {
        s
    }
}

/// `s.trim()`.
pub open spec fn trim(s: Seq<char>) -> Seq<char> {
    trim_end(trim_start(s))
}

// ---------------------------------------------------------------------------
// Lemmas
// ---------------------------------------------------------------------------

proof fn lemma_digits_value_nonneg(d: Seq<u8>)
    requires
        forall|i: int| 0 <= i < d.len() ==> is_digit(#[trigger] d[i]),
    ensures
        digits_value(d) >= 0,
    decreases d.len(),
{
    if d.len() > 0 {
        lemma_digits_value_nonneg(d.drop_last());
    }
}

proof fn lemma_digits_value_grows(d: Seq<u8>, k: int)
    requires
        0 <= k <= d.len(),
        forall|i: int| 0 <= i < d.len() ==> is_digit(#[trigger] d[i]),
    ensures
        digits_value(d.subrange(0, k)) <= digits_value(d),
    decreases d.len(),
{
    if k < d.len() {
        assert(d.drop_last() =~= d.subrange(0, d.len() - 1));
        lemma_digits_value_grows(d.drop_last(), k);
        assert(d.drop_last().subrange(0, k) =~= d.subrange(0, k));
        lemma_digits_value_nonneg(d.drop_last());
    } else {
        assert(d.subrange(0, k) =~= d);
    }
}

proof fn lemma_trim_start_is_suffix(s: Seq<char>) -> (k: int)
    ensures
        0 <= k <= s.len(),
        trim_start(s) == s.subrange(k, s.len() as int),
        forall|i: int| 0 <= i < k ==> is_white_space(#[trigger] s[i]),
        k < s.len() ==> !is_white_space(s[k]),
    decreases s.len(),
{
    if s.len() > 0 && is_white_space(s[0]) {
        let k1 = lemma_trim_start_is_suffix(s.drop_first());
        assert(s.drop_first().subrange(k1, s.drop_first().len() as int) =~= s.subrange(
            k1 + 1,
            s.len() as int,
        ));
        assert forall|i: int| 0 <= i < k1 + 1 implies is_white_space(#[trigger] s[i]) by {
            if i > 0 {
                assert(s[i] == s.drop_first()[i - 1]);
            }
        }
        k1 + 1
    } else {
        assert(s.subrange(0, s.len() as int) =~= s);
        0
    }
}

proof fn lemma_trim_end_is_prefix(s: Seq<char>) -> (k: int)
    ensures
        0 <= k <= s.len(),
        trim_end(s) == s.subrange(0, k),
        forall|i: int| k <= i < s.len() ==> is_white_space(#[trigger] s[i]),
        k > 0 ==> !is_white_space(s[k - 1]),
    decreases s.len(),
{
    if s.len() > 0 && is_white_space(s.last()) {
        let k1 = lemma_trim_end_is_prefix(s.drop_last());
        assert(s.drop_last().subrange(0, k1) =~= s.subrange(0, k1));
        assert forall|i: int| k1 <= i < s.len() implies is_white_space(#[trigger] s[i]) by {
            if i < s.len() - 1 {
                assert(s[i] == s.drop_last()[i]);
            }
        }
        k1
    } else {
        assert(s.subrange(0, s.len() as int) =~= s);
        s.len() as int
    }
}

/// Byte order is dictionary order: `a` sorts before `b` exactly when it is a
/// proper prefix of `b`, or at the first byte where they differ `a` has the
/// smaller one.
pub proof fn lemma_lex_lt_is_dictionary_order(a: Seq<u8>, b: Seq<u8>)
    ensures
        lex_lt(a, b) <==> (a.len() < b.len() && b.subrange(0, a.len() as int) == a) || exists|i: int|
            0 <= i < a.len() && i < b.len() && a.subrange(0, i) == b.subrange(0, i) && #[trigger] a[i] < b[i],
    decreases a.len(),
{
    if a.len() == 0 {
        assert(b.subrange(0, 0) =~= a);
    } else if b.len() == 0 {
    } else if a[0] < b[0] {
        assert(a.subrange(0, 0) =~= b.subrange(0, 0));
        assert(a[0] < b[0]);
    } else if a[0] > b[0] {
        if exists|i: int| 0 <= i < a.len() && i < b.len() && a.subrange(0, i) == b.subrange(0, i) && #[trigger] a[i] < b[i] {
            let i = choose|i: int| 0 <= i < a.len() && i < b.len() && a.subrange(0, i) == b.subrange(0, i) && #[trigger] a[i] < b[i];
            if i > 0 {
                assert(a.subrange(0, i)[0] == b.subrange(0, i)[0]);
            }
        }
        if a.len() < b.len() && b.subrange(0, a.len() as int) == a {
            assert(b.subrange(0, a.len() as int)[0] == a[0]);
        }
    } else {
        let a1 = a.drop_first();
        let b1 = b.drop_first();
        lemma_lex_lt_is_dictionary_order(a1, b1);
        if a1.len() < b1.len() && b1.subrange(0, a1.len() as int) == a1 {
            assert forall|j: int| 0 <= j < a.len() implies b.subrange(0, a.len() as int)[j] == a[j] by {
                if j > 0 {
                    assert(b1.subrange(0, a1.len() as int)[j - 1] == a1[j - 1]);
                }
            }
            assert(b.subrange(0, a.len() as int) =~= a);
        }
        if a.len() < b.len() && b.subrange(0, a.len() as int) == a {
            assert(b1.subrange(0, a1.len() as int) =~= a1);
        }
        if exists|i: int| 0 <= i < a1.len() && i < b1.len() && a1.subrange(0, i) == b1.subrange(0, i) && #[trigger] a1[i] < b1[i] {
            let i = choose|i: int| 0 <= i < a1.len() && i < b1.len() && a1.subrange(0, i) == b1.subrange(0, i) && #[trigger] a1[i] < b1[i];
            assert forall|j: int| 0 <= j < i + 1 implies #[trigger] a.subrange(0, i + 1)[j] == b.subrange(0, i + 1)[j] by {
                if j > 0 {
                    assert(a1.subrange(0, i)[j - 1] == b1.subrange(0, i)[j - 1]);
                }
            }
            assert(a.subrange(0, i + 1) =~= b.subrange(0, i + 1));
            assert(a[i + 1] < b[i + 1]);
        }
        if exists|i: int| 0 <= i < a.len() && i < b.len() && a.subrange(0, i) == b.subrange(0, i) && #[trigger] a[i] < b[i] {
            let i = choose|i: int| 0 <= i < a.len() && i < b.len() && a.subrange(0, i) == b.subrange(0, i) && #[trigger] a[i] < b[i];
            assert(i > 0);
            assert forall|j: int| 0 <= j < i - 1 implies #[trigger] a1.subrange(0, i - 1)[j] == b1.subrange(0, i - 1)[j] by {
                assert(a.subrange(0, i)[j + 1] == b.subrange(0, i)[j + 1]);
            }
            assert(a1.subrange(0, i - 1) =~= b1.subrange(0, i - 1));
            assert(a1[i - 1] < b1[i - 1]);
        }
    }
}

/// Trimming removes exactly the white space at both ends: what is left is a
/// run `[a, b)` of the characters, everything before `a` and from `b` on is
/// white space, and a non-empty run starts and ends with a character that is
/// not.
pub proof fn lemma_trim_strips_white_space(s: Seq<char>)
    ensures
        exists|a: int, b: int|
            0 <= a <= b <= s.len() && trim(s) == s.subrange(a, b) && (forall|i: int|
                0 <= i < a ==> is_white_space(#[trigger] s[i])) && (forall|i: int|
                b <= i < s.len() ==> is_white_space(#[trigger] s[i])) && (a < b ==> !is_white_space(s[a])
                && !is_white_space(s[b - 1])),
{
    let a = lemma_trim_start_is_suffix(s);
    let t = s.subrange(a, s.len() as int);
    let k = lemma_trim_end_is_prefix(t);
    let b = a + k;
    assert(t.subrange(0, k) =~= s.subrange(a, b));
    assert forall|i: int| b <= i < s.len() implies is_white_space(#[trigger] s[i]) by {
        assert(s[i] == t[i - a]);
    }
    if a < b {
        assert(s[a] == t[0]);
        assert(s[b - 1] == t[k - 1]);
    }
}

/// Trimming twice is trimming once.
pub proof fn lemma_trim_idempotent(s: Seq<char>)
    ensures
        trim(trim(s)) == trim(s),
{
    lemma_trim_strips_white_space(s);
    let t = trim(s);
    let a0 = lemma_trim_start_is_suffix(t);
    if t.len() > 0 {
        assert(!is_white_space(t[0]));
        assert(a0 == 0);
    }
    assert(t.subrange(0, t.len() as int) =~= t);
    let k0 = lemma_trim_end_is_prefix(t);
    if t.len() > 0 {
        assert(!is_white_space(t[t.len() - 1]));
        assert(k0 == t.len());
    }
}

// ---------------------------------------------------------------------------
// Executable operations
// ---------------------------------------------------------------------------

/// ASCII lower-casing of one byte.
pub fn to_lower_byte(b: u8) -> (r: u8)
    ensures
        r == lower_byte(b),
{
    if 65 <= b && b <= 90 {
        b + 32
    } else {
        b
    }
}

/// ASCII upper-casing of one byte.
pub fn to_upper_byte(b: u8) -> (r: u8)
    ensures
        r == upper_byte(b),
{
    if 97 <= b && b <= 122 {
        b - 32
    } else {
        b
    }
}

/// Whether `a` and `b` are the same string.
pub fn str_eq(a: &str, b: &str) -> (r: bool)
    ensures
        r == (a@ == b@),
{
    let x = a.as_bytes();
    let y = b.as_bytes();
    if x.len() != y.len() {
        proof {
            if a@ == b@ {
                assert(x@ == y@);
            }
        }
        return false;
    }
    let mut i: usize = 0;
    while i < x.len()
        invariant
            x@ == a.spec_bytes(),
            y@ == b.spec_bytes(),
            x@.len() == y@.len(),
            i <= x@.len(),
            forall|j: int| 0 <= j < i ==> x@[j] == y@[j],
        decreases x@.len() - i,
    {
        if x[i] != y[i] {
            proof {
                if a@ == b@ {
                    assert(x@ == y@);
                }
            }
            return false;
        }
        i = i + 1;
    }
    proof {
        assert(x@ =~= y@);
        assert(vstd::utf8::decode_utf8(vstd::utf8::encode_utf8(a@)) == a@);
        assert(vstd::utf8::decode_utf8(vstd::utf8::encode_utf8(b@)) == b@);
    }
    true
}

/// `s.get(start..end)`.
pub fn str_get(s: &str, start: usize, end: usize) -> (r: Option<&str>)
    ensures
        opt_bytes(r) == byte_range(s.spec_bytes(), start as int, end as int),
{
    let bytes = s.as_bytes();
    if start <= end && end <= bytes.len() && s.is_char_boundary(start) && s.is_char_boundary(end) {
        let ghost sb = s.spec_bytes();
        let (head, _tail) = s.split_at(end);
        proof {
            vstd::utf8::valid_utf8_split(sb, end as int);
            let hb = head.spec_bytes();
            assert(hb =~= sb.subrange(0, end as int));
            if start == end {
                vstd::utf8::is_char_boundary_start_end_of_seq(hb);
            } else {
                vstd::utf8::is_char_boundary_iff_not_is_continuation_byte(sb, start as int);
                vstd::utf8::is_char_boundary_iff_not_is_continuation_byte(hb, start as int);
                assert(hb[start as int] == sb[start as int]);
            }
        }
        let (_front, mid) = head.split_at(start);
        proof {
            assert(mid.spec_bytes() =~= sb.subrange(start as int, end as int));
        }
        Some(mid)
    } else {
        None
    }
}

/// `s.starts_with(p)`.
pub fn starts_with(s: &str, p: &str) -> (r: bool)
    ensures
        r == has_prefix(s.spec_bytes(), p.spec_bytes()),
{
    let x = s.as_bytes();
    let y = p.as_bytes();
    if y.len() > x.len() {
        return false;
    }
    let mut i: usize = 0;
    while i < y.len()
        invariant
            x@ == s.spec_bytes(),
            y@ == p.spec_bytes(),
            y@.len() <= x@.len(),
            i <= y@.len(),
            forall|j: int| 0 <= j < i ==> x@[j] == y@[j],
        decreases y@.len() - i,
    {
        if x[i] != y[i] {
            proof {
                assert(x@.subrange(0, y@.len() as int)[i as int] != y@[i as int]);
            }
            return false;
        }
        i = i + 1;
    }
    assert(x@.subrange(0, y@.len() as int) =~= y@);
    true
}

/// `s.ends_with(p)`.
pub fn ends_with(s: &str, p: &str) -> (r: bool)
    ensures
        r == has_suffix(s.spec_bytes(), p.spec_bytes()),
{
    let x = s.as_bytes();
    let y = p.as_bytes();
    if y.len() > x.len() {
        return false;
    }
    let off = x.len() - y.len();
    let mut i: usize = 0;
    while i < y.len()
        invariant
            x@ == s.spec_bytes(),
            y@ == p.spec_bytes(),
            y@.len() <= x@.len(),
            x@.len() == x.len(),
            off == x@.len() - y@.len(),
            i <= y@.len(),
            forall|j: int| 0 <= j < i ==> x@[off + j] == y@[j],
        decreases y@.len() - i,
    {
        if x[off + i] != y[i] {
            proof {
                assert(x@.subrange(off as int, x@.len() as int)[i as int] != y@[i as int]);
            }
            return false;
        }
        i = i + 1;
    }
    assert(x@.subrange(off as int, x@.len() as int) =~= y@);
    true
}

/// Whether `y` occurs in `x` at byte `at`.
fn bytes_occur_at(x: &[u8], y: &[u8], at: usize) -> (r: bool)
    requires
        at + y@.len() <= x@.len(),
    ensures
        r == occurs_at(x@, y@, at as int),
{
    let mut i: usize = 0;
    while i < y.len()
        invariant
            at + y@.len() <= x@.len(),
            x@.len() == x.len(),
            i <= y@.len(),
            forall|j: int| 0 <= j < i ==> x@[at + j] == y@[j],
        decreases y@.len() - i,
    {
        if x[at + i] != y[i] {
            proof {
                assert(x@.subrange(at as int, at + y@.len())[i as int] != y@[i as int]);
            }
            return false;
        }
        i = i + 1;
    }
    assert(x@.subrange(at as int, at + y@.len()) =~= y@);
    true
}

/// `s.contains(p)`.
pub fn contains(s: &str, p: &str) -> (r: bool)
    ensures
        r == has_infix(s.spec_bytes(), p.spec_bytes()),
{
    let x = s.as_bytes();
    let y = p.as_bytes();
    if y.len() > x.len() {
        return false;
    }
    if y.len() == 0 {
        assert(x@.subrange(0, 0) =~= y@);
        assert(occurs_at(x@, y@, 0));
        return true;
    }
    let last = x.len() - y.len();
    let mut at: usize = 0;
    while at <= last
        invariant
            x@ == s.spec_bytes(),
            y@ == p.spec_bytes(),
            last == x@.len() - y@.len(),
            x@.len() == x.len(),
            y@.len() > 0,
            at <= last + 1,
            forall|j: int| 0 <= j < at ==> !occurs_at(x@, y@, j),
        decreases last + 1 - at,
    {
        if bytes_occur_at(x, y, at) {
            return true;
        }
        at = at + 1;
    }
    assert forall|j: int| !occurs_at(x@, y@, j) by {
        if 0 <= j < at {
        }
    }
    false
}

/// `a.eq_ignore_ascii_case(b)`.
pub fn eq_ignore_ascii_case(a: &str, b: &str) -> (r: bool)
    ensures
        r == eq_ignore_case(a.spec_bytes(), b.spec_bytes()),
{
    let x = a.as_bytes();
    let y = b.as_bytes();
    if x.len() != y.len() {
        proof {
            if eq_ignore_case(x@, y@) {
                assert(lower_bytes(x@).len() == lower_bytes(y@).len());
            }
        }
        return false;
    }
    let mut i: usize = 0;
    while i < x.len()
        invariant
            x@ == a.spec_bytes(),
            y@ == b.spec_bytes(),
            x@.len() == y@.len(),
            i <= x@.len(),
            forall|j: int| 0 <= j < i ==> lower_byte(x@[j]) == lower_byte(y@[j]),
        decreases x@.len() - i,
    {
        if to_lower_byte(x[i]) != to_lower_byte(y[i]) {
            proof {
                assert(lower_bytes(x@)[i as int] != lower_bytes(y@)[i as int]);
            }
            return false;
        }
        i = i + 1;
    }
    assert(lower_bytes(x@) =~= lower_bytes(y@));
    true
}

/// `s.to_ascii_lowercase() == lit`.
pub fn lowercase_equals(s: &str, lit: &str) -> (r: bool)
    ensures
        r == (lower_bytes(s.spec_bytes()) == lit.spec_bytes()),
{
    let x = s.as_bytes();
    let y = lit.as_bytes();
    if x.len() != y.len() {
        proof {
            if lower_bytes(x@) == y@ {
                assert(lower_bytes(x@).len() == y@.len());
            }
        }
        return false;
    }
    let mut i: usize = 0;
    while i < x.len()
        invariant
            x@ == s.spec_bytes(),
            y@ == lit.spec_bytes(),
            x@.len() == y@.len(),
            i <= x@.len(),
            forall|j: int| 0 <= j < i ==> lower_byte(x@[j]) == y@[j],
        decreases x@.len() - i,
    {
        if to_lower_byte(x[i]) != y[i] {
            proof {
                assert(lower_bytes(x@)[i as int] != y@[i as int]);
            }
            return false;
        }
        i = i + 1;
    }
    assert(lower_bytes(x@) =~= y@);
    true
}

/// `s.to_ascii_uppercase().starts_with(p)`.
pub fn uppercase_starts_with(s: &str, p: &str) -> (r: bool)
    ensures
        r == has_prefix(upper_bytes(s.spec_bytes()), p.spec_bytes()),
{
    let x = s.as_bytes();
    let y = p.as_bytes();
    let ghost u = upper_bytes(x@);
    if y.len() > x.len() {
        return false;
    }
    let mut i: usize = 0;
    while i < y.len()
        invariant
            u == upper_bytes(x@),
            x@ == s.spec_bytes(),
            y@ == p.spec_bytes(),
            y@.len() <= x@.len(),
            i <= y@.len(),
            forall|j: int| 0 <= j < i ==> u[j] == y@[j],
        decreases y@.len() - i,
    {
        if to_upper_byte(x[i]) != y[i] {
            proof {
                assert(u.subrange(0, y@.len() as int)[i as int] != y@[i as int]);
            }
            return false;
        }
        i = i + 1;
    }
    assert(u.subrange(0, y@.len() as int) =~= y@);
    true
}

/// `s.to_ascii_uppercase().ends_with(p)`.
pub fn uppercase_ends_with(s: &str, p: &str) -> (r: bool)
    ensures
        r == has_suffix(upper_bytes(s.spec_bytes()), p.spec_bytes()),
{
    let x = s.as_bytes();
    let y = p.as_bytes();
    let ghost u = upper_bytes(x@);
    if y.len() > x.len() {
        return false;
    }
    let off = x.len() - y.len();
    let mut i: usize = 0;
    while i < y.len()
        invariant
            u == upper_bytes(x@),
            x@ == s.spec_bytes(),
            y@ == p.spec_bytes(),
            x@.len() == x.len(),
            y@.len() <= x@.len(),
            off == x@.len() - y@.len(),
            i <= y@.len(),
            forall|j: int| 0 <= j < i ==> u[off + j] == y@[j],
        decreases y@.len() - i,
    {
        if to_upper_byte(x[off + i]) != y[i] {
            proof {
                assert(u.subrange(off as int, u.len() as int)[i as int] != y@[i as int]);
            }
            return false;
        }
        i = i + 1;
    }
    assert(u.subrange(off as int, u.len() as int) =~= y@);
    true
}

/// `a < b` on strings (byte-wise lexicographic order).
pub fn str_lt(a: &str, b: &str) -> (r: bool)
    ensures
        r == lex_lt(a.spec_bytes(), b.spec_bytes()),
{
    let x = a.as_bytes();
    let y = b.as_bytes();
    let mut i: usize = 0;
    assert(x@.subrange(0, x@.len() as int) =~= x@);
    assert(y@.subrange(0, y@.len() as int) =~= y@);
    while i < x.len() && i < y.len()
        invariant
            x@ == a.spec_bytes(),
            y@ == b.spec_bytes(),
            i <= x@.len(),
            i <= y@.len(),
            lex_lt(x@, y@) == lex_lt(x@.subrange(i as int, x@.len() as int), y@.subrange(i as int, y@.len() as int)),
        decreases x@.len() - i,
    {
        let ghost xs = x@.subrange(i as int, x@.len() as int);
        let ghost ys = y@.subrange(i as int, y@.len() as int);
        if x[i] < y[i] {
            return true;
        }
        if x[i] > y[i] {
            return false;
        }
        proof {
            assert(xs.drop_first() =~= x@.subrange(i + 1, x@.len() as int));
            assert(ys.drop_first() =~= y@.subrange(i + 1, y@.len() as int));
        }
        i = i + 1;
    }
    i < y.len()
}

/// `s.parse::<i32>().ok()`.
pub fn parse_i32_str(s: &str) -> (r: Option<i32>)
    ensures
        r == parse_i32(s.spec_bytes()),
{
    let x = s.as_bytes();
    let ghost d = unsigned_part(x@);
    if x.len() == 0 {
        return None;
    }
    let negative = x[0] == 45;
    let start: usize = if x[0] == 43 || x[0] == 45 { 1 } else { 0 };
    proof {
        assert(d =~= x@.subrange(start as int, x@.len() as int));
    }
    if start >= x.len() {
        return None;
    }
    let mut i: usize = start;
    let mut acc: i64 = 0;
    while i < x.len()
        invariant
            x@ == s.spec_bytes(),
            d == unsigned_part(x@),
            x@.len() == x.len(),
            negative == (x@[0] == 45),
            d == x@.subrange(start as int, x@.len() as int),
            start <= i <= x@.len(),
            forall|j: int| start <= j < i ==> is_digit(#[trigger] x@[j]),
            acc == digits_value(x@.subrange(start as int, i as int)),
            0 <= acc <= 2147483648,
        decreases x@.len() - i,
    {
        let b = x[i];
        if b < 48 || b > 57 {
            proof {
                assert(!is_digit(d[i - start]));
            }
            return None;
        }
        let next = acc * 10 + (b - 48) as i64;
        proof {
            let p = x@.subrange(start as int, i + 1);
            assert(p.drop_last() =~= x@.subrange(start as int, i as int));
        }
        if next > 2147483648 {
            proof {
                // the remaining bytes can only make the value larger, or fail to parse
                if forall|j: int| 0 <= j < d.len() ==> is_digit(#[trigger] d[j]) {
                    lemma_digits_value_grows(d, i + 1 - start);
                    assert(d.subrange(0, i + 1 - start) =~= x@.subrange(start as int, i + 1));
                }
            }
            return None;
        }
        acc = next;
        i = i + 1;
    }
    proof {
        assert(x@.subrange(start as int, x@.len() as int) =~= d);
        assert forall|j: int| 0 <= j < d.len() implies is_digit(#[trigger] d[j]) by {
            assert(d[j] == x@[start + j]);
        }
    }
    if negative {
        Some((-acc) as i32)
    } else if acc <= 2147483647 {
        Some(acc as i32)
    } else {
        None
    }
}

/// `s.trim()`.
pub fn trim_str(s: &str) -> (r: &str)
    ensures
        r@ == trim(s@),
{
    let n = s.unicode_len();
    let ghost k1 = lemma_trim_start_is_suffix(s@);
    let mut lo: usize = 0;
    while lo < n && is_white_space_char(s.get_char(lo))
        invariant
            n == s@.len(),
            lo <= k1,
            0 <= k1 <= n,
            forall|i: int| 0 <= i < k1 ==> is_white_space(#[trigger] s@[i]),
            k1 < n ==> !is_white_space(s@[k1]),
        decreases n - lo,
    {
        lo = lo + 1;
    }
    assert(lo == k1);
    let ghost t = s@.subrange(lo as int, n as int);
    let ghost k2 = lemma_trim_end_is_prefix(t);
    let mut hi: usize = n;
    while hi > lo && is_white_space_char(s.get_char(hi - 1))
        invariant
            n == s@.len(),
            lo <= n,
            t == s@.subrange(lo as int, n as int),
            lo + k2 <= hi <= n,
            forall|i: int| k2 <= i < t.len() ==> is_white_space(#[trigger] t[i]),
            k2 > 0 ==> !is_white_space(t[k2 - 1]),
        decreases hi - lo,
    {
        proof {
            assert(t[hi - 1 - lo] == s@[hi - 1]);
        }
        hi = hi - 1;
    }
    proof {
        if hi > lo + k2 {
            assert(t[hi - 1 - lo] == s@[hi - 1]);
        }
        assert(t.subrange(0, k2) =~= s@.subrange(lo as int, hi as int));
    }
    s.substring_char(lo, hi)
}

/// `c.is_whitespace()`.
pub fn is_white_space_char(c: char) -> (r: bool)
    ensures
        r == is_white_space(c),
{
    let u = c as u32;
    (9 <= u && u <= 13) || u == 32 || u == 0x85 || u == 0xa0 || u == 0x1680 || (0x2000 <= u
        && u <= 0x200a) || u == 0x2028 || u == 0x2029 || u == 0x202f || u == 0x205f || u == 0x3000
}

} // verus!
