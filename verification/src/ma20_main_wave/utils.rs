//! Shared rules for entry/exit enforcement: market inference from a symbol,
//! local trading time of a bar, the close-of-session window and the T+1
//! settlement rule.
//!
//! Every rule reads only the symbol, the bar's own UTC timestamp or the
//! parameters, never data of a later bar.

use vstd::prelude::*;
use vstd::string::StringSliceAdditionalSpecFns;
use crate::param_bag::{lookup, value_as_bool, value_as_str, ParamBag, ParamValue};
use crate::text::{
    byte_range, eq_ignore_case, has_prefix, has_suffix, lex_lt, lower_bytes, parse_i32, trim,
    upper_bytes,
};

verus! {

/// The market that a symbol's prefix names: `HK`, `US`, otherwise `CN`.
pub open spec fn market_of_symbol(symbol: Seq<u8>) -> Seq<char> {
    if has_prefix(symbol, "HK".spec_bytes()) {
        "HK"@
    } else if has_prefix(symbol, "US".spec_bytes()) {
        "US"@
    } else {
        "CN"@
    }
}

/// Infer market from symbol prefix (SZ/SH → CN, HK → HK, US → US).
pub fn symbol_market(symbol: &str) -> (r: &str)
    ensures
        r@ == market_of_symbol(symbol.spec_bytes()),
{
    if crate::text::starts_with(symbol, "HK") {
        "HK"
    } else if crate::text::starts_with(symbol, "US") {
        "US"
    } else {
        "CN"
    }
}

/// Hours between UTC and local time of a market: CN/HK +8, US -5, other 0.
pub open spec fn market_offset_hours(market: Seq<char>) -> int {
    if market == "CN"@ || market == "HK"@ {
        8
    } else if market == "US"@ {
        -5
    } else {
        0
    }
}

/// A minute count moved once into the day: a negative total gains a day, a
/// total of a day or more loses one.
pub open spec fn wrap_day_once(total: int) -> int {
    if total < 0 {
        total + 1440
    } else if total >= 1440 {
        total - 1440
    } else {
        total
    }
}

/// The two-byte number at bytes `[start, start + 2)` of `s`, if it parses.
pub open spec fn two_byte_number(s: Seq<u8>, start: int) -> Option<i32> {
    match byte_range(s, start, start + 2) {
        Some(t) => parse_i32(t),
        None => None,
    }
}

/// Local minutes since midnight of a timestamp `YYYY-MM-DDTHH:MM...` in UTC.
pub open spec fn local_time_minutes(ts: Seq<u8>, market: Seq<char>) -> Option<i32> {
    match (two_byte_number(ts, 11), two_byte_number(ts, 14)) {
        (Some(hh), Some(mm)) => Some(
            wrap_day_once(hh * 60 + mm + market_offset_hours(market) * 60) as i32,
        ),
        _ => None,
    }
}

/// The timestamp's hour field reads 00–23 and its minute field 00–59.
pub open spec fn valid_clock_fields(ts: Seq<u8>) -> bool {
    &&& two_byte_number(ts, 11) is Some
    &&& two_byte_number(ts, 14) is Some
    &&& 0 <= two_byte_number(ts, 11).unwrap() < 24
    &&& 0 <= two_byte_number(ts, 14).unwrap() < 60
}

/// A timestamp with a valid hour and minute falls on a minute of the local
/// day, `0 <= minutes < 1440`, in every market.
pub proof fn lemma_local_time_within_day(ts: Seq<u8>, market: Seq<char>)
    requires
        valid_clock_fields(ts),
    ensures
        local_time_minutes(ts, market) is Some,
        0 <= local_time_minutes(ts, market).unwrap() < 1440,
{
}

/// Minutes of a `HH:MM` string.
pub open spec fn clock_minutes(s: Seq<u8>) -> Option<i32> {
    match (two_byte_number(s, 0), two_byte_number(s, 3)) {
        (Some(hh), Some(mm)) => Some((hh * 60 + mm) as i32),
        _ => None,
    }
}

proof fn lemma_two_digits_value(d: Seq<u8>)
    requires
        d.len() <= 2,
        forall|i: int| 0 <= i < d.len() ==> crate::text::is_digit(#[trigger] d[i]),
    ensures
        0 <= crate::text::digits_value(d) <= 99,
        d.len() <= 1 ==> crate::text::digits_value(d) <= 9,
{
    reveal_with_fuel(crate::text::digits_value, 3);
    if d.len() == 2 {
        assert(d.drop_last().drop_last().len() == 0);
    }
}

proof fn lemma_two_byte_parse_bounds(t: Seq<u8>)
    requires
        t.len() == 2,
    ensures
        parse_i32(t) matches Some(v) ==> -9 <= v <= 99,
{
    let d = crate::text::unsigned_part(t);
    if d.len() > 0 && (forall|i: int| 0 <= i < d.len() ==> crate::text::is_digit(#[trigger] d[i])) {
        lemma_two_digits_value(d);
    }
}

/// Reads the two-byte number at `start` of `s`.
fn read_two_byte_number(s: &str, start: usize) -> (r: Option<i32>)
    requires
        start <= 16,
    ensures
        r == two_byte_number(s.spec_bytes(), start as int),
        r matches Some(v) ==> -9 <= v <= 99,
{
    match crate::text::str_get(s, start, start + 2) {
        Some(t) => {
            proof {
                lemma_two_byte_parse_bounds(t.spec_bytes());
            }
            crate::text::parse_i32_str(t)
        },
        None => None,
    }
}

/// Parse ts_utc like "2026-06-01T06:30:00Z" into local-time minutes since midnight.
/// Market offset: CN/HK → +8h, US → -5h.
pub fn bar_local_time_minutes(ts_utc: &str, market: &str) -> (r: Option<i32>)
    ensures
        r == local_time_minutes(ts_utc.spec_bytes(), market@),
{
    let hh = match read_two_byte_number(ts_utc, 11) {
        Some(v) => v,
        None => return None,
    };
    let mm = match read_two_byte_number(ts_utc, 14) {
        Some(v) => v,
        None => return None,
    };
    let offset: i32 = if crate::text::str_eq(market, "CN") || crate::text::str_eq(market, "HK") {
        8
    } else if crate::text::str_eq(market, "US") {
        -5
    } else {
        0
    };
    let total = hh * 60 + mm + offset * 60;
    Some(
        if total < 0 {
            total + 1440
        } else if total >= 1440 {
            total - 1440
        } else {
            total
        },
    )
}

/// Parse "HH:MM" into total minutes.
pub fn time_str_minutes(s: &str) -> (r: Option<i32>)
    ensures
        r == clock_minutes(s.spec_bytes()),
{
    let hh = match read_two_byte_number(s, 0) {
        Some(v) => v,
        None => return None,
    };
    let mm = match read_two_byte_number(s, 3) {
        Some(v) => v,
        None => return None,
    };
    Some(hh * 60 + mm)
}

/// With a valid hour `hh` and minute `mm`, the local minute is
/// `hh * 60 + mm + offset * 60` taken modulo a day (Euclidean remainder), in
/// every market.
pub proof fn lemma_local_time_is_day_remainder(ts: Seq<u8>, market: Seq<char>)
    requires
        valid_clock_fields(ts),
    ensures
        local_time_minutes(ts, market) == Some(
            ((two_byte_number(ts, 11).unwrap() * 60 + two_byte_number(ts, 14).unwrap()
                + market_offset_hours(market) * 60) % 1440) as i32,
        ),
{
    let total = two_byte_number(ts, 11).unwrap() * 60 + two_byte_number(ts, 14).unwrap()
        + market_offset_hours(market) * 60;
    assert(-300 <= total < 2880);
    if total < 0 {
        assert(total % 1440 == total + 1440);
    } else if total >= 1440 {
        assert(total % 1440 == total - 1440);
    } else {
        assert(total % 1440 == total);
    }
}

/// In a market without offset (other than CN, HK and US), a timestamp with a
/// valid hour and minute has a clock field at bytes `[11, 16)`, and its local
/// minute is the `HH:MM` reading of that field.
pub proof fn lemma_zero_offset_reads_clock_field(ts: Seq<u8>, market: Seq<char>)
    requires
        vstd::utf8::valid_utf8(ts),
        valid_clock_fields(ts),
        market_offset_hours(market) == 0,
    ensures
        byte_range(ts, 11, 16) is Some,
        local_time_minutes(ts, market) == clock_minutes(byte_range(ts, 11, 16).unwrap()),
{
    broadcast use vstd::utf8::is_char_boundary_start_end_of_seq;

    let t = ts.subrange(11, 16);
    let rest = ts.subrange(11, ts.len() as int);
    vstd::utf8::valid_utf8_split(ts, 11);
    assert(vstd::utf8::is_char_boundary(rest, 5)) by {
        if rest.len() > 5 {
            assert(rest[5] == ts[16]);
            vstd::utf8::is_char_boundary_iff_not_is_continuation_byte(ts, 16);
            vstd::utf8::is_char_boundary_iff_not_is_continuation_byte(rest, 5);
        }
    }
    vstd::utf8::valid_utf8_split(rest, 5);
    assert(rest.subrange(0, 5) =~= t);
    assert(vstd::utf8::valid_utf8(t));
    assert(vstd::utf8::is_char_boundary(t, 2)) by {
        assert(t[2] == ts[13]);
        vstd::utf8::is_char_boundary_iff_not_is_continuation_byte(ts, 13);
        vstd::utf8::is_char_boundary_iff_not_is_continuation_byte(t, 2);
    }
    assert(vstd::utf8::is_char_boundary(t, 3)) by {
        assert(t[3] == ts[14]);
        vstd::utf8::is_char_boundary_iff_not_is_continuation_byte(ts, 14);
        vstd::utf8::is_char_boundary_iff_not_is_continuation_byte(t, 3);
    }
    assert(vstd::utf8::is_char_boundary(t, 0));
    assert(vstd::utf8::is_char_boundary(t, 5));
    assert(t.subrange(0, 2) =~= ts.subrange(11, 13));
    assert(t.subrange(3, 5) =~= ts.subrange(14, 16));
    assert(two_byte_number(t, 0) == two_byte_number(ts, 11));
    assert(two_byte_number(t, 3) == two_byte_number(ts, 14));
}

/// The character of a decimal digit `0 <= d <= 9`.
pub open spec fn digit_char(d: int) -> char {
    (48 + d) as char
}

/// The zero-padded `HH:MM` text of hour `h` and minute `m`.
pub open spec fn clock_text(h: int, m: int) -> Seq<char> {
    seq![digit_char(h / 10), digit_char(h % 10), ':', digit_char(m / 10), digit_char(m % 10)]
}

/// The bytes of a zero-padded `HH:MM` text: ASCII, one byte per character.
proof fn lemma_clock_text_bytes(h: int, m: int)
    requires
        0 <= h < 24,
        0 <= m < 60,
    ensures
        vstd::utf8::encode_utf8(clock_text(h, m)) =~= seq![
            (48 + h / 10) as u8,
            (48 + h % 10) as u8,
            58u8,
            (48 + m / 10) as u8,
            (48 + m % 10) as u8,
        ],
        vstd::utf8::valid_utf8(vstd::utf8::encode_utf8(clock_text(h, m))),
{
    let c = clock_text(h, m);
    assert(vstd::utf8::is_ascii_chars(c));
    vstd::utf8::is_ascii_chars_encode_utf8(c);
    vstd::utf8::encode_utf8_valid_utf8(c);
}

/// A zero-padded `HH:MM` text of a valid clock time reads as its minute of
/// the day.
pub proof fn lemma_clock_text_minutes(h: int, m: int)
    requires
        0 <= h < 24,
        0 <= m < 60,
    ensures
        clock_minutes(vstd::utf8::encode_utf8(clock_text(h, m))) == Some((h * 60 + m) as i32),
        0 <= h * 60 + m < 1440,
{
    broadcast use vstd::utf8::is_char_boundary_start_end_of_seq;

    let e = vstd::utf8::encode_utf8(clock_text(h, m));
    lemma_clock_text_bytes(h, m);
    vstd::utf8::is_char_boundary_iff_not_is_continuation_byte(e, 2);
    vstd::utf8::is_char_boundary_iff_not_is_continuation_byte(e, 3);
    reveal_with_fuel(crate::text::digits_value, 3);
    let hd = e.subrange(0, 2);
    let md = e.subrange(3, 5);
    assert(crate::text::unsigned_part(hd) == hd);
    assert(crate::text::unsigned_part(md) == md);
    assert(hd.drop_last().drop_last().len() == 0);
    assert(md.drop_last().drop_last().len() == 0);
    assert(crate::text::digits_value(hd) == h);
    assert(crate::text::digits_value(md) == m);
}

/// Zero-padded `HH:MM` texts of valid clock times compare as their minutes
/// of the day: one text sorts before another exactly when its minute is
/// earlier, and two texts are equal exactly when their minutes are.
pub proof fn lemma_clock_text_order(h1: int, m1: int, h2: int, m2: int)
    requires
        0 <= h1 < 24,
        0 <= m1 < 60,
        0 <= h2 < 24,
        0 <= m2 < 60,
    ensures
        clock_minutes(vstd::utf8::encode_utf8(clock_text(h1, m1))) == Some((h1 * 60 + m1) as i32),
        clock_minutes(vstd::utf8::encode_utf8(clock_text(h2, m2))) == Some((h2 * 60 + m2) as i32),
        lex_lt(vstd::utf8::encode_utf8(clock_text(h1, m1)), vstd::utf8::encode_utf8(clock_text(h2, m2)))
            <==> h1 * 60 + m1 < h2 * 60 + m2,
        vstd::utf8::encode_utf8(clock_text(h1, m1)) == vstd::utf8::encode_utf8(clock_text(h2, m2))
            <==> h1 * 60 + m1 == h2 * 60 + m2,
{
    lemma_clock_text_minutes(h1, m1);
    lemma_clock_text_minutes(h2, m2);
    lemma_clock_text_bytes(h1, m1);
    lemma_clock_text_bytes(h2, m2);
    let a = vstd::utf8::encode_utf8(clock_text(h1, m1));
    let b = vstd::utf8::encode_utf8(clock_text(h2, m2));
    reveal_with_fuel(lex_lt, 6);
    assert(h1 == 10 * (h1 / 10) + h1 % 10);
    assert(h2 == 10 * (h2 / 10) + h2 % 10);
    assert(m1 == 10 * (m1 / 10) + m1 % 10);
    assert(m2 == 10 * (m2 / 10) + m2 % 10);
    assert(a.drop_first() =~= a.subrange(1, 5));
    assert(b.drop_first() =~= b.subrange(1, 5));
    if a == b {
        assert(a[0] == b[0] && a[1] == b[1] && a[3] == b[3] && a[4] == b[4]);
    }
}

/// Whether the clock time at bytes `[11, 16)` of `ts` is at or after `from`.
pub open spec fn clock_at_or_after(ts: Seq<u8>, from: Seq<u8>) -> bool {
    match byte_range(ts, 11, 16) {
        Some(t) => !lex_lt(t, from),
        None => false,
    }
}

/// The close-of-session rule: for CN, HK and US (any letter case) a bar whose
/// UTC clock time is at or after 06:45, 07:45 and 19:45 respectively.
pub open spec fn close_bar(market: Seq<u8>, ts: Seq<u8>) -> bool {
    if eq_ignore_case(market, "CN".spec_bytes()) {
        clock_at_or_after(ts, "06:45".spec_bytes())
    } else if eq_ignore_case(market, "HK".spec_bytes()) {
        clock_at_or_after(ts, "07:45".spec_bytes())
    } else if eq_ignore_case(market, "US".spec_bytes()) {
        clock_at_or_after(ts, "19:45".spec_bytes())
    } else {
        false
    }
}

fn clock_not_before(ts_utc: &str, from: &str) -> (r: bool)
    ensures
        r == clock_at_or_after(ts_utc.spec_bytes(), from.spec_bytes()),
{
    match crate::text::str_get(ts_utc, 11, 16) {
        Some(time_str) => !crate::text::str_lt(time_str, from),
        None => false,
    }
}

/// Check if a bar is a market close bar (last 15 minutes before close).
///
/// Close bars use a higher fast threshold to filter auction noise.
pub fn is_market_close_bar(market: &str, ts_utc: &str) -> (r: bool)
    ensures
        r == close_bar(market.spec_bytes(), ts_utc.spec_bytes()),
{
    if crate::text::eq_ignore_ascii_case(market, "CN") {
        clock_not_before(ts_utc, "06:45")
    } else if crate::text::eq_ignore_ascii_case(market, "HK") {
        clock_not_before(ts_utc, "07:45")
    } else if crate::text::eq_ignore_ascii_case(market, "US") {
        clock_not_before(ts_utc, "19:45")
    } else {
        false
    }
}

/// The bytes of a market name are its ASCII characters.
proof fn lemma_market_name_bytes(name: &str)
    requires
        vstd::utf8::is_ascii_chars(name@),
    ensures
        name.spec_bytes().len() == name@.len(),
        forall|i: int| 0 <= i < name@.len() ==> name.spec_bytes()[i] == name@[i] as u8,
{
    vstd::utf8::is_ascii_chars_encode_utf8(name@);
}

/// The close-of-session bars are the last quarter hour of each session: with
/// a zero-padded clock field `HH:MM` (UTC), a bar is a close bar for CN, HK
/// and US exactly when its UTC clock is at or after 06:45, 07:45 and 19:45;
/// in local time, a CN bar of the session (09:30 to 15:00) is one exactly
/// from 14:45 on, and an HK bar of the session (09:30 to 16:00) exactly from
/// 15:45 on.
pub proof fn lemma_close_bar_is_last_quarter_hour(ts: Seq<u8>, h: int, m: int)
    requires
        valid_clock_fields(ts),
        0 <= h < 24,
        0 <= m < 60,
        byte_range(ts, 11, 16) == Some(vstd::utf8::encode_utf8(clock_text(h, m))),
    ensures
        close_bar("CN".spec_bytes(), ts) <==> h * 60 + m >= 405,
        close_bar("HK".spec_bytes(), ts) <==> h * 60 + m >= 465,
        close_bar("US".spec_bytes(), ts) <==> h * 60 + m >= 1185,
        570 <= local_time_minutes(ts, "CN"@).unwrap() < 900 ==> (close_bar("CN".spec_bytes(), ts)
            <==> local_time_minutes(ts, "CN"@).unwrap() >= 885),
        570 <= local_time_minutes(ts, "HK"@).unwrap() < 960 ==> (close_bar("HK".spec_bytes(), ts)
            <==> local_time_minutes(ts, "HK"@).unwrap() >= 945),
{
    reveal_strlit("CN");
    reveal_strlit("HK");
    reveal_strlit("US");
    reveal_strlit("06:45");
    reveal_strlit("07:45");
    reveal_strlit("19:45");
    assert(vstd::utf8::is_ascii_chars("CN"@));
    assert(vstd::utf8::is_ascii_chars("HK"@));
    assert(vstd::utf8::is_ascii_chars("US"@));
    lemma_market_name_bytes("CN");
    lemma_market_name_bytes("HK");
    lemma_market_name_bytes("US");
    assert(lower_bytes("CN".spec_bytes())[0] != lower_bytes("HK".spec_bytes())[0]);
    assert(lower_bytes("CN".spec_bytes())[0] != lower_bytes("US".spec_bytes())[0]);
    assert(lower_bytes("HK".spec_bytes())[0] != lower_bytes("US".spec_bytes())[0]);
    assert("06:45"@ =~= clock_text(6, 45));
    assert("07:45"@ =~= clock_text(7, 45));
    assert("19:45"@ =~= clock_text(19, 45));
    lemma_clock_text_order(h, m, 6, 45);
    lemma_clock_text_order(h, m, 7, 45);
    lemma_clock_text_order(h, m, 19, 45);
    // the parsed hour and minute of the timestamp are `h` and `m`
    let t = vstd::utf8::encode_utf8(clock_text(h, m));
    lemma_clock_text_bytes(h, m);
    lemma_clock_text_minutes(h, m);
    broadcast use vstd::utf8::is_char_boundary_start_end_of_seq;
    vstd::utf8::is_char_boundary_iff_not_is_continuation_byte(t, 2);
    vstd::utf8::is_char_boundary_iff_not_is_continuation_byte(t, 3);
    assert(t.subrange(0, 2) =~= ts.subrange(11, 13));
    assert(t.subrange(3, 5) =~= ts.subrange(14, 16));
    assert(two_byte_number(t, 0) == two_byte_number(ts, 11));
    assert(two_byte_number(t, 3) == two_byte_number(ts, 14));
    lemma_local_time_is_day_remainder(ts, "CN"@);
    lemma_local_time_is_day_remainder(ts, "HK"@);
}

/// The market parameter: `market` if present (its string, or empty when it is
/// not a string), else the string of `backtest_market`, else empty.
pub open spec fn market_param(params: Seq<(String, ParamValue)>) -> Seq<char> {
    let v = match lookup(params, "market"@) {
        Some(m) => value_as_str(Some(m)),
        None => value_as_str(lookup(params, "backtest_market"@)),
    };
    match v {
        Some(s) => s,
        None => Seq::empty(),
    }
}

/// A symbol that looks like a mainland stock: after trimming and
/// upper-casing it starts with `SH`/`SZ` or ends with `.SH`/`.SZ`.
pub open spec fn cn_stock_symbol(symbol: Seq<char>) -> bool {
    let u = upper_bytes(vstd::utf8::encode_utf8(trim(symbol)));
    has_prefix(u, "SH".spec_bytes()) || has_prefix(u, "SZ".spec_bytes()) || has_suffix(
        u,
        ".SH".spec_bytes(),
    ) || has_suffix(u, ".SZ".spec_bytes())
}

/// The T+1 settlement rule, in order of precedence.
pub open spec fn t_plus_one_applies(params: Seq<(String, ParamValue)>, symbol: Seq<char>) -> bool {
    if value_as_bool(lookup(params, "t_plus_one"@)) == Some(true) {
        true
    } else if let Some(rule) = value_as_str(lookup(params, "settlement_rule"@)) {
        let l = lower_bytes(vstd::utf8::encode_utf8(rule));
        l == "t+1".spec_bytes() || l == "t1".spec_bytes() || l == "t_plus_one".spec_bytes()
    } else {
        let market = market_param(params);
        if eq_ignore_case(vstd::utf8::encode_utf8(market), "CN".spec_bytes()) {
            true
        } else if market.len() == 0 {
            cn_stock_symbol(symbol)
        } else {
            false
        }
    }
}

/// The precedence of the T+1 rule.  A `t_plus_one` flag set to true decides
/// first.  Otherwise a `settlement_rule` string decides alone: T+1 exactly
/// when it reads `t+1`, `t1` or `t_plus_one` in any ASCII letter case,
/// whatever the market and the symbol.  Only without both does a `market`
/// (or, without one, `backtest_market`) of `CN` in any case turn T+1 on, and
/// with neither market key present the symbol decides.
pub proof fn lemma_t_plus_one_precedence(params: Seq<(String, ParamValue)>, symbol: Seq<char>)
    ensures
        lookup(params, "t_plus_one"@) == Some(ParamValue::Bool(true)) ==> t_plus_one_applies(params, symbol),
        lookup(params, "t_plus_one"@) != Some(ParamValue::Bool(true)) ==> (lookup(params, "settlement_rule"@) matches Some(ParamValue::Str(rule))
            ==> t_plus_one_applies(params, symbol) == ({
                let l = lower_bytes(vstd::utf8::encode_utf8(rule@));
                l == "t+1".spec_bytes() || l == "t1".spec_bytes() || l == "t_plus_one".spec_bytes()
            })),
        lookup(params, "t_plus_one"@) != Some(ParamValue::Bool(true)) && value_as_str(lookup(params, "settlement_rule"@)) is None
            && (lookup(params, "market"@) matches Some(ParamValue::Str(m)) && eq_ignore_case(
            vstd::utf8::encode_utf8(m@),
            "CN".spec_bytes(),
        )) ==> t_plus_one_applies(params, symbol),
        lookup(params, "t_plus_one"@) != Some(ParamValue::Bool(true)) && value_as_str(lookup(params, "settlement_rule"@)) is None
            && lookup(params, "market"@) is None && (lookup(params, "backtest_market"@) matches Some(ParamValue::Str(m))
            && eq_ignore_case(vstd::utf8::encode_utf8(m@), "CN".spec_bytes())) ==> t_plus_one_applies(params, symbol),
        lookup(params, "t_plus_one"@) != Some(ParamValue::Bool(true)) && value_as_str(lookup(params, "settlement_rule"@)) is None
            && lookup(params, "market"@) is None && lookup(params, "backtest_market"@) is None
            ==> t_plus_one_applies(params, symbol) == cn_stock_symbol(symbol),
{
    reveal_strlit("");
    reveal_strlit("CN");
    vstd::utf8::is_ascii_chars_encode_utf8("CN"@);
    vstd::utf8::is_ascii_chars_encode_utf8(Seq::<char>::empty());
    assert(lower_bytes(vstd::utf8::encode_utf8(Seq::<char>::empty())).len() == 0);
    assert(lower_bytes("CN".spec_bytes()).len() == 2);
}

/// Determine whether T+1 settlement applies.
///
/// Checks (in order):
/// 1. `t_plus_one` boolean parameter
/// 2. `settlement_rule` string ("t+1", "t1", "t_plus_one")
/// 3. `market` / `backtest_market` → CN market auto-enables T+1
/// 4. Symbol prefix heuristic (SH/SZ/*.SH/*.SZ) → CN stock
pub fn enforce_t_plus_one(parameters: &ParamBag, symbol: &str) -> (r: bool)
    ensures
        r == t_plus_one_applies(parameters.entries@, symbol@),
{
    if let Some(true) = parameters.get_bool("t_plus_one") {
        return true;
    }
    if let Some(rule) = parameters.get_str("settlement_rule") {
        return crate::text::lowercase_equals(rule, "t+1") || crate::text::lowercase_equals(
            rule,
            "t1",
        ) || crate::text::lowercase_equals(rule, "t_plus_one");
    }
    let market: &str = match parameters.get("market") {
        Some(ParamValue::Str(s)) => s.as_str(),
        Some(_) => "",
        None => match parameters.get_str("backtest_market") {
            Some(s) => s,
            None => "",
        },
    };
    proof {
        reveal_strlit("");
    }
    if crate::text::eq_ignore_ascii_case(market, "CN") {
        return true;
    }
    if market.is_empty() {
        let s = crate::text::trim_str(symbol);
        return crate::text::uppercase_starts_with(s, "SH") || crate::text::uppercase_starts_with(
            s,
            "SZ",
        ) || crate::text::uppercase_ends_with(s, ".SH") || crate::text::uppercase_ends_with(
            s,
            ".SZ",
        );
    }
    false
}

} // verus!
