//! Verified string building: decimal rendering of integers,
//! `application/x-www-form-urlencoded` percent-encoding, and `key=value`
//! pair assembly for query strings and form bodies.

use vstd::prelude::*;
use vstd::utf8::encode_utf8;

verus! {

/// The decimal digit character for `n` in `0..=9`.
pub open spec fn dec_digit(n: int) -> char
    recommends
        0 <= n < 10,
{
    ((0x30 + n) as u8) as char
}

/// The decimal rendering of a natural number, most significant digit first,
/// with no leading zeros (`0` renders as `"0"`).
pub open spec fn spec_dec_nat(n: nat) -> Seq<char>
    decreases n,
{
    if n < 10 {
        seq![dec_digit(n as int)]
    } else {
        spec_dec_nat(n / 10) + seq![dec_digit((n % 10) as int)]
    }
}

/// The decimal rendering of an integer: a minus sign for negatives, then
/// the digits of the magnitude.
pub open spec fn spec_dec_int(n: int) -> Seq<char> {
    if n < 0 {
        seq!['-'] + spec_dec_nat((-n) as nat)
    } else {
        spec_dec_nat(n as nat)
    }
}

/// The digit character for `d` in `0..=9`.
fn digit_char(d: u8) -> (r: char)
    requires
        d < 10,
    ensures
        r == dec_digit(d as int),
{
    (0x30 + d) as char
}

/// Renders `n` in decimal.
pub fn dec_u64(n: u64) -> (r: String)
    ensures
        r@ == spec_dec_nat(n as nat),
    decreases n,
{
    if n < 10 {
        let mut s = String::new();
        push_char(&mut s, digit_char(n as u8));
        s
    } else {
        let mut s = dec_u64(n / 10);
        push_char(&mut s, digit_char((n % 10) as u8));
        s
    }
}

/// Renders `n` in decimal, with a leading `-` when negative.
pub fn dec_i64(n: i64) -> (r: String)
    ensures
        r@ == spec_dec_int(n as int),
{
    if n >= 0 {
        dec_u64(n as u64)
    } else {
        let magnitude: u64 = (-(n + 1)) as u64 + 1;
        assert(magnitude as int == -(n as int));
        let mut s = String::new();
        push_char(&mut s, '-');
        s.append(dec_u64(magnitude).as_str());
        assert(s@ =~= spec_dec_int(n as int));
        s
    }
}

/// Renders `n` in decimal.
pub fn dec_u32(n: u32) -> (r: String)
    ensures
        r@ == spec_dec_nat(n as nat),
{
    dec_u64(n as u64)
}

/// Bytes that `application/x-www-form-urlencoded` passes through unchanged:
/// ASCII alphanumerics and `*`, `-`, `.`, `_`.
pub open spec fn is_form_unreserved(b: u8) -> bool {
    ||| 0x30 <= b <= 0x39
    ||| 0x41 <= b <= 0x5a
    ||| 0x61 <= b <= 0x7a
    ||| b == 0x2a
    ||| b == 0x2d
    ||| b == 0x2e
    ||| b == 0x5f
}

/// The upper-case hexadecimal digit character for `n` in `0..=15`.
pub open spec fn hex_digit(n: int) -> char
    recommends
        0 <= n < 16,
{
    if n < 10 {
        ((0x30 + n) as u8) as char
    } else {
        ((0x41 + (n - 10)) as u8) as char
    }
}

/// The form encoding of one byte: unreserved bytes pass through, a space
/// becomes `+`, anything else becomes `%` and two upper-case hex digits.
pub open spec fn enc_byte(b: u8) -> Seq<char> {
    if is_form_unreserved(b) {
        seq![b as char]
    } else if b == 0x20 {
        seq!['+']
    } else {
        seq!['%', hex_digit(b as int / 16), hex_digit(b as int % 16)]
    }
}

/// The form encoding of a byte sequence.
pub open spec fn enc_bytes(s: Seq<u8>) -> Seq<char>
    decreases s.len(),
{
    if s.len() == 0 {
        Seq::empty()
    } else {
        enc_byte(s[0]) + enc_bytes(s.drop_first())
    }
}

/// The form encoding of a string: its UTF-8 bytes, each encoded.
pub open spec fn form_encoded(s: Seq<char>) -> Seq<char> {
    enc_bytes(encode_utf8(s))
}

fn is_unreserved(b: u8) -> (r: bool)
    ensures
        r == is_form_unreserved(b),
{
    (0x30 <= b && b <= 0x39) || (0x41 <= b && b <= 0x5a) || (0x61 <= b && b <= 0x7a) || b == 0x2a
        || b == 0x2d || b == 0x2e || b == 0x5f
}

fn hex_char(d: u8) -> (r: char)
    requires
        d < 16,
    ensures
        r == hex_digit(d as int),
{
    if d < 10 {
        (0x30 + d) as char
    } else {
        (0x41 + (d - 10)) as char
    }
}

/// Form-encodes a string: UTF-8 bytes, unreserved bytes unchanged, space as
/// `+`, everything else percent-escaped in upper-case hex.
pub fn form_encode(s: &str) -> (r: String)
    ensures
        r@ == form_encoded(s@),
{
    let bytes = s.as_bytes();
    let mut out = String::new();
    let n = bytes.len();
    assert(bytes@.skip(0) == bytes@);
    let mut i: usize = 0;
    while i < n
        invariant
            n == bytes@.len(),
            i <= n,
            enc_bytes(bytes@) =~= out@ + enc_bytes(bytes@.skip(i as int)),
        decreases n - i,
    {
        let b = bytes[i];
        if is_unreserved(b) {
            push_char(&mut out, b as char);
        } else if b == 0x20 {
            push_char(&mut out, '+');
        } else {
            push_char(&mut out, '%');
            push_char(&mut out, hex_char(b / 16));
            push_char(&mut out, hex_char(b % 16));
        }
        assert(bytes@.skip(i as int).drop_first() == bytes@.skip(i + 1));
        i = i + 1;
    }
    assert(bytes@ == encode_utf8(s@));
    out
}

/// Appends `key=value` to `acc`, preceded by `&` when `acc` is non-empty.
pub open spec fn qs_push(acc: Seq<char>, key: Seq<char>, value: Seq<char>) -> Seq<char> {
    (if acc.len() == 0 {
        acc
    } else {
        acc + "&"@
    }) + key + "="@ + value
}

/// Appends `key=value` to `out`, separated from existing content by `&`.
pub fn append_pair(out: &mut String, key: &str, value: &str)
    ensures
        final(out)@ == qs_push(old(out)@, key@, value@),
{
    if !out.as_str().is_empty() {
        out.append("&");
    }
    out.append(key);
    out.append("=");
    out.append(value);
    assert(out@ =~= qs_push(old(out)@, key@, value@));
}

/// Appends `key=` and the form encoding of `value` to `out`, separated from
/// existing content by `&`.
pub fn append_pair_encoded(out: &mut String, key: &str, value: &str)
    ensures
        final(out)@ == qs_push(old(out)@, key@, form_encoded(value@)),
{
    let encoded = form_encode(value);
    append_pair(out, key, encoded.as_str());
}

/// Appends one `key=value` pair per value, in order: the repeated-key
/// convention for list-valued fields (`key=a&key=b&key=c`).
pub open spec fn qs_push_all(acc: Seq<char>, key: Seq<char>, values: Seq<Seq<char>>) -> Seq<char>
    decreases values.len(),
{
    if values.len() == 0 {
        acc
    } else {
        qs_push_all(qs_push(acc, key, values[0]), key, values.drop_first())
    }
}

pub proof fn lemma_qs_push_all_snoc(
    acc: Seq<char>,
    key: Seq<char>,
    values: Seq<Seq<char>>,
    v: Seq<char>,
)
    ensures
        qs_push_all(acc, key, values.push(v)) == qs_push(qs_push_all(acc, key, values), key, v),
    decreases values.len(),
{
    if values.len() == 0 {
        assert(values.push(v).drop_first() =~= Seq::<Seq<char>>::empty());
        assert(values.push(v)[0] == v);
        assert(qs_push_all(acc, key, values.push(v)) == qs_push_all(
            qs_push(acc, key, v),
            key,
            values.push(v).drop_first(),
        ));
        assert(qs_push_all(qs_push(acc, key, v), key, Seq::<Seq<char>>::empty()) == qs_push(
            acc,
            key,
            v,
        ));
    } else {
        assert(values.push(v)[0] == values[0]);
        assert(values.push(v).drop_first() =~= values.drop_first().push(v));
        lemma_qs_push_all_snoc(qs_push(acc, key, values[0]), key, values.drop_first(), v);
        assert(qs_push_all(acc, key, values.push(v)) == qs_push_all(
            qs_push(acc, key, values[0]),
            key,
            values.drop_first().push(v),
        ));
        assert(qs_push_all(acc, key, values) == qs_push_all(
            qs_push(acc, key, values[0]),
            key,
            values.drop_first(),
        ));
    }
}

/// Appends one `key=` plus form-encoded value pair per string, in order.
pub fn append_pairs_encoded(out: &mut String, key: &str, values: &Vec<String>)
    ensures
        final(out)@ == qs_push_all(
            old(out)@,
            key@,
            values@.map_values(|v: String| form_encoded(v@)),
        ),
{
    let ghost model = values@.map_values(|v: String| form_encoded(v@));
    let n = values.len();
    let mut i: usize = 0;
    while i < n
        invariant
            n == values@.len(),
            i <= n,
            model == values@.map_values(|v: String| form_encoded(v@)),
            out@ == qs_push_all(old(out)@, key@, model.take(i as int)),
        decreases n - i,
    {
        append_pair_encoded(out, key, values[i].as_str());
        proof {
            assert(model.take(i + 1) =~= model.take(i as int).push(model[i as int]));
            lemma_qs_push_all_snoc(old(out)@, key@, model.take(i as int), model[i as int]);
        }
        i = i + 1;
    }
    proof {
        assert(model.take(n as int) =~= model);
    }
}

/// Appends one `key=` plus decimal value pair per integer, in order.
pub fn append_pairs_dec_i64(out: &mut String, key: &str, values: &Vec<i64>)
    ensures
        final(out)@ == qs_push_all(
            old(out)@,
            key@,
            values@.map_values(|v: i64| spec_dec_int(v as int)),
        ),
{
    let ghost model = values@.map_values(|v: i64| spec_dec_int(v as int));
    let n = values.len();
    let mut i: usize = 0;
    while i < n
        invariant
            n == values@.len(),
            i <= n,
            model == values@.map_values(|v: i64| spec_dec_int(v as int)),
            out@ == qs_push_all(old(out)@, key@, model.take(i as int)),
        decreases n - i,
    {
        append_pair(out, key, dec_i64(values[i]).as_str());
        proof {
            assert(model.take(i + 1) =~= model.take(i as int).push(model[i as int]));
            lemma_qs_push_all_snoc(old(out)@, key@, model.take(i as int), model[i as int]);
        }
        i = i + 1;
    }
    proof {
        assert(model.take(n as int) =~= model);
    }
}

/// The wire rendering of a boolean.
pub open spec fn spec_bool(b: bool) -> Seq<char> {
    if b {
        "true"@
    } else {
        "false"@
    }
}

/// Renders a boolean as `true` or `false`.
pub fn bool_str(b: bool) -> (r: &'static str)
    ensures
        r@ == spec_bool(b),
{
    if b {
        "true"
    } else {
        "false"
    }
}

/// String equality, decided by view.
pub fn str_eq(a: &str, b: &str) -> (r: bool)
    ensures
        r == (a@ == b@),
{
    a.to_owned() == b.to_owned()
}

/// The values joined by `sep`: empty for none, the single value alone, and
/// otherwise each pair of neighbours separated by one `sep`.
pub open spec fn spec_join(values: Seq<Seq<char>>, sep: Seq<char>) -> Seq<char>
    decreases values.len(),
{
    if values.len() == 0 {
        Seq::empty()
    } else if values.len() == 1 {
        values[0]
    } else {
        values[0] + sep + spec_join(values.drop_first(), sep)
    }
}

proof fn lemma_join_snoc(values: Seq<Seq<char>>, sep: Seq<char>, v: Seq<char>)
    requires
        values.len() > 0,
    ensures
        spec_join(values.push(v), sep) == spec_join(values, sep) + sep + v,
    decreases values.len(),
{
    if values.len() == 1 {
        assert(values.push(v).drop_first() =~= seq![v]);
        assert(values.push(v)[0] == values[0]);
        assert(spec_join(seq![v], sep) == v);
        assert(spec_join(values.push(v), sep) =~= spec_join(values, sep) + sep + v);
    } else {
        lemma_join_snoc(values.drop_first(), sep, v);
        assert(values.push(v).drop_first() =~= values.drop_first().push(v));
        assert(values.push(v)[0] == values[0]);
        assert(spec_join(values.push(v), sep) == values[0] + sep + spec_join(
            values.drop_first().push(v),
            sep,
        ));
        assert(spec_join(values.push(v), sep) =~= spec_join(values, sep) + sep + v);
    }
}

/// Joins the strings with `sep` between neighbours.
pub fn join(values: &Vec<String>, sep: &str) -> (r: String)
    ensures
        r@ == spec_join(values@.map_values(|v: String| v@), sep@),
{
    let ghost model = values@.map_values(|v: String| v@);
    let mut out = String::new();
    let n = values.len();
    let mut i: usize = 0;
    while i < n
        invariant
            n == values@.len(),
            i <= n,
            model == values@.map_values(|v: String| v@),
            out@ == spec_join(model.take(i as int), sep@),
        decreases n - i,
    {
        if i > 0 {
            out.append(sep);
        }
        out.append(values[i].as_str());
        proof {
            assert(model.take(i + 1) =~= model.take(i as int).push(model[i as int]));
            if i > 0 {
                lemma_join_snoc(model.take(i as int), sep@, model[i as int]);
            }
        }
        i = i + 1;
    }
    proof {
        assert(model.take(n as int) =~= model);
    }
    out
}

/// Relies on `String::push`: appends exactly the one character.
#[verifier::external_body]
pub fn push_char(s: &mut String, c: char)
    ensures
        final(s)@ == old(s)@ + seq![c],
{
    s.push(c);
}

} // verus!
