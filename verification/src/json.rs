//! The JSON wire format of the vault request bodies: string escaping,
//! decimal number rendering, and the parse of a signed-envelope object.
//!
//! Everything here is defined by spec functions over character sequences;
//! the executable encoders are proved to produce exactly those sequences.

use vstd::prelude::*;

use vstd::string::StrSliceExecFns;
use vstd::string::StringExecFns;

use crate::envelope::{JwsBody, SpecJwsBody};
use crate::errors::VaultError;

verus! {

/// The lower-case hex digit of a value below sixteen.
pub open spec fn spec_hex_digit(n: int) -> char {
    if n == 0 {
        '0'
    } else if n == 1 {
        '1'
    } else if n == 2 {
        '2'
    } else if n == 3 {
        '3'
    } else if n == 4 {
        '4'
    } else if n == 5 {
        '5'
    } else if n == 6 {
        '6'
    } else if n == 7 {
        '7'
    } else if n == 8 {
        '8'
    } else if n == 9 {
        '9'
    } else if n == 10 {
        'a'
    } else if n == 11 {
        'b'
    } else if n == 12 {
        'c'
    } else if n == 13 {
        'd'
    } else if n == 14 {
        'e'
    } else {
        'f'
    }
}

/// How one character is written inside a JSON string: quotes and
/// backslashes are escaped, control characters take the four-digit escape,
/// everything else stands as it is.
pub open spec fn spec_escape_char(c: char) -> Seq<char> {
    if c == '"' {
        seq!['\\', '"']
    } else if c == '\\' {
        seq!['\\', '\\']
    } else if (c as int) < 0x20 {
        seq!['\\', 'u', '0', '0', spec_hex_digit((c as int) / 16), spec_hex_digit((c as int) % 16)]
    } else {
        seq![c]
    }
}

/// A whole sequence escaped for a JSON string.
pub open spec fn spec_json_escape(s: Seq<char>) -> Seq<char>
    decreases s.len(),
{
    if s.len() == 0 {
        Seq::empty()
    } else {
        spec_escape_char(s[0]) + spec_json_escape(s.skip(1))
    }
}

/// Escaping distributes over concatenation.
pub proof fn lemma_json_escape_concat(a: Seq<char>, b: Seq<char>)
    ensures
        spec_json_escape(a + b) == spec_json_escape(a) + spec_json_escape(b),
    decreases a.len(),
{
    if a.len() == 0 {
        assert(a + b =~= b);
        assert(spec_json_escape(a) + spec_json_escape(b) =~= spec_json_escape(b));
    } else {
        assert((a + b).len() > 0);
        assert((a + b)[0] == a[0]);
        assert((a + b).skip(1) =~= a.skip(1) + b);
        lemma_json_escape_concat(a.skip(1), b);
        assert(spec_json_escape(a + b) =~= spec_json_escape(a) + spec_json_escape(b));
    }
}

/// A string value as it stands in JSON: escaped, between quotes.
pub open spec fn spec_json_string(s: Seq<char>) -> Seq<char> {
    seq!['"'] + spec_json_escape(s) + seq!['"']
}

/// An optional string value: the string, or the `null` keyword.
pub open spec fn spec_json_opt_string(s: Option<Seq<char>>) -> Seq<char> {
    match s {
        Some(v) => spec_json_string(v),
        None => "null"@,
    }
}

fn hex_digit_str(n: u8) -> (r: &'static str)
    requires
        n < 16,
    ensures
        r@ == seq![spec_hex_digit(n as int)],
{
    let r: &'static str = match n {
        0 => "0",
        1 => "1",
        2 => "2",
        3 => "3",
        4 => "4",
        5 => "5",
        6 => "6",
        7 => "7",
        8 => "8",
        9 => "9",
        10 => "a",
        11 => "b",
        12 => "c",
        13 => "d",
        14 => "e",
        _ => "f",
    };
    proof {
        reveal_strlit("0");
        reveal_strlit("1");
        reveal_strlit("2");
        reveal_strlit("3");
        reveal_strlit("4");
        reveal_strlit("5");
        reveal_strlit("6");
        reveal_strlit("7");
        reveal_strlit("8");
        reveal_strlit("9");
        reveal_strlit("a");
        reveal_strlit("b");
        reveal_strlit("c");
        reveal_strlit("d");
        reveal_strlit("e");
        reveal_strlit("f");
    }
    r
}

/// Append a string's JSON-escaped form.
fn append_escaped(out: &mut String, s: &str)
    ensures
        final(out)@ == old(out)@ + spec_json_escape(s@),
{
    let n = s.unicode_len();
    let ghost base = out@;
    proof {
        assert(s@.subrange(0, 0) =~= Seq::<char>::empty());
        assert(base + spec_json_escape(s@.subrange(0, 0)) =~= base);
    }
    for i in 0..n
        invariant
            n == s@.len(),
            out@ == base + spec_json_escape(s@.subrange(0, i as int)),
    {
        let c = s.get_char(i);
        proof {
            assert(s@.subrange(0, i as int + 1) =~= s@.subrange(0, i as int) + seq![s@[i as int]]);
            lemma_json_escape_concat(s@.subrange(0, i as int), seq![s@[i as int]]);
            assert(seq![s@[i as int]].len() == 1);
            assert(seq![s@[i as int]].skip(1) =~= Seq::<char>::empty());
            assert(spec_json_escape(Seq::<char>::empty()) =~= Seq::<char>::empty());
            assert(seq![s@[i as int]][0] == s@[i as int]);
            assert(spec_escape_char(s@[i as int]) + Seq::<char>::empty() =~= spec_escape_char(
                s@[i as int],
            ));
            assert(spec_json_escape(seq![s@[i as int]]) =~= spec_escape_char(s@[i as int]));
        }
        if c == '"' {
            out.append("\\\"");
            proof {
                assert("\\\""@ =~= seq!['\\', '"']) by {
                    reveal_strlit("\\\"");
                }
                assert(out@ =~= base + spec_json_escape(s@.subrange(0, i as int + 1)));
            }
        } else if c == '\\' {
            out.append("\\\\");
            proof {
                assert("\\\\"@ =~= seq!['\\', '\\']) by {
                    reveal_strlit("\\\\");
                }
                assert(out@ =~= base + spec_json_escape(s@.subrange(0, i as int + 1)));
            }
        } else if (c as u32) < 0x20 {
            out.append("\\u00");
            let v = c as u32;
            out.append(hex_digit_str((v / 16) as u8));
            out.append(hex_digit_str((v % 16) as u8));
            proof {
                assert("\\u00"@ =~= seq!['\\', 'u', '0', '0']) by {
                    reveal_strlit("\\u00");
                }
                assert(out@ =~= base + spec_json_escape(s@.subrange(0, i as int + 1)));
            }
        } else {
            let piece = s.substring_char(i, i + 1);
            out.append(piece);
            proof {
                assert(piece@ =~= seq![s@[i as int]]);
                assert(out@ =~= base + spec_json_escape(s@.subrange(0, i as int + 1)));
            }
        }
    }
    proof {
        assert(s@.subrange(0, n as int) =~= s@);
    }
}

/// Append a string value in its JSON form: escaped, between quotes.
pub fn append_json_string(out: &mut String, s: &str)
    ensures
        final(out)@ == old(out)@ + spec_json_string(s@),
{
    out.append("\"");
    append_escaped(out, s);
    out.append("\"");
    proof {
        assert("\""@ =~= seq!['"']) by {
            reveal_strlit("\"");
        }
        assert(out@ =~= old(out)@ + spec_json_string(s@));
    }
}

/// Append an optional string value: the string, or `null`.
pub fn append_json_opt_string(out: &mut String, s: &Option<String>)
    ensures
        final(out)@ == old(out)@ + spec_json_opt_string(s.deep_view()),
{
    match s {
        Some(v) => {
            append_json_string(out, v.as_str());
        },
        None => {
            out.append("null");
        },
    }
}

/// The decimal form of a non-negative number, most significant digit first.
pub open spec fn spec_u64_dec(n: int) -> Seq<char>
    decreases n,
{
    if n <= 0 {
        Seq::empty()
    } else {
        spec_u64_dec(n / 10) + seq![spec_hex_digit(n % 10)]
    }
}

/// The decimal form of an integer as JSON writes it: `0` for zero, a
/// leading minus for negative values.
pub open spec fn spec_i64_dec(n: int) -> Seq<char> {
    if n == 0 {
        seq!['0']
    } else if n < 0 {
        seq!['-'] + spec_u64_dec(-n)
    } else {
        spec_u64_dec(n)
    }
}

fn u64_dec(n: u64) -> (r: String)
    requires
        n > 0,
    ensures
        r@ == spec_u64_dec(n as int),
{
    let mut digits: Vec<u8> = Vec::new();
    let mut m = n;
    proof {
        assert(digits@ =~= Seq::<u8>::empty());
        assert(digits_seq(digits@) =~= Seq::<char>::empty());
        assert(spec_u64_dec(n as int) + Seq::<char>::empty() =~= spec_u64_dec(n as int));
    }
    while m > 0
        invariant
            0 <= m <= n,
            forall|j: int| 0 <= j < digits@.len() ==> digits@[j] < 10,
            spec_u64_dec(n as int) == spec_u64_dec(m as int) + digits_seq(digits@),
        decreases m,
    {
        let d = (m % 10) as u8;
        let ghost pre_digits = digits@;
        let ghost pre_m = m as int;
        digits.push(d);
        m = m / 10;
        proof {
            assert(digits@ =~= pre_digits.push(d));
            lemma_digits_seq_push(pre_digits, d);
            assert(spec_u64_dec(pre_m) == spec_u64_dec(pre_m / 10) + seq![spec_hex_digit(
                pre_m % 10,
            )]);
            assert(spec_u64_dec(m as int) + digits_seq(digits@) =~= spec_u64_dec(m as int) + (seq![
                spec_hex_digit(d as int),
            ] + digits_seq(pre_digits)));
            assert(spec_u64_dec(m as int) + (seq![spec_hex_digit(d as int)] + digits_seq(
                pre_digits,
            )) =~= (spec_u64_dec(m as int) + seq![spec_hex_digit(d as int)]) + digits_seq(
                pre_digits,
            ));
            assert(spec_u64_dec(n as int) =~= spec_u64_dec(m as int) + digits_seq(digits@));
        }
    }
    proof {
        assert(spec_u64_dec(0) =~= Seq::<char>::empty());
        assert(Seq::<char>::empty() + digits_seq(digits@) =~= digits_seq(digits@));
        assert(spec_u64_dec(n as int) == digits_seq(digits@));
        lemma_digits_seq_index(digits@);
    }
    let mut r = String::new();
    let k = digits.len();
    for idx in 0..k
        invariant
            k == digits.len(),
            forall|j: int| 0 <= j < digits@.len() ==> digits@[j] < 10,
            r@.len() == idx,
            forall|j: int| 0 <= j < idx ==> r@[j] == spec_hex_digit(digits@[k - 1 - j] as int),
    {
        let pos = k - 1 - idx;
        r.append(hex_digit_str(digits[pos]));
    }
    proof {
        lemma_digits_seq_index(digits@);
        assert(r@ =~= digits_seq(digits@));
    }
    r
}

/// The digits collected least-significant first, read back most
/// significant first.
pub open spec fn digits_seq(ds: Seq<u8>) -> Seq<char>
    decreases ds.len(),
{
    if ds.len() == 0 {
        Seq::empty()
    } else {
        digits_seq(ds.skip(1)) + seq![spec_hex_digit(ds[0] as int)]
    }
}

proof fn lemma_digits_seq_push(ds: Seq<u8>, d: u8)
    ensures
        digits_seq(ds.push(d)) == seq![spec_hex_digit(d as int)] + digits_seq(ds),
    decreases ds.len(),
{
    if ds.len() == 0 {
        assert(ds.push(d).skip(1) =~= Seq::<u8>::empty());
        assert(ds.push(d)[0] == d);
        assert(digits_seq(Seq::<u8>::empty()) =~= Seq::<char>::empty());
        assert(Seq::<char>::empty() + seq![spec_hex_digit(d as int)] =~= seq![spec_hex_digit(
            d as int,
        )]);
        assert(seq![spec_hex_digit(d as int)] + digits_seq(ds) =~= seq![spec_hex_digit(d as int)]);
        assert(digits_seq(ds.push(d)) =~= seq![spec_hex_digit(d as int)] + digits_seq(ds));
    } else {
        assert(ds.push(d)[0] == ds[0]);
        assert(ds.push(d).skip(1) =~= ds.skip(1).push(d));
        lemma_digits_seq_push(ds.skip(1), d);
        assert(digits_seq(ds.push(d)) == digits_seq(ds.skip(1).push(d)) + seq![spec_hex_digit(
            ds[0] as int,
        )]);
        assert((seq![spec_hex_digit(d as int)] + digits_seq(ds.skip(1))) + seq![spec_hex_digit(
            ds[0] as int,
        )] =~= seq![spec_hex_digit(d as int)] + (digits_seq(ds.skip(1)) + seq![spec_hex_digit(
            ds[0] as int,
        )]));
        assert(digits_seq(ds.push(d)) =~= seq![spec_hex_digit(d as int)] + digits_seq(ds));
    }
}

/// Reading the collected digits back: one rendered character per digit,
/// most significant first.
proof fn lemma_digits_seq_index(ds: Seq<u8>)
    ensures
        digits_seq(ds).len() == ds.len(),
        forall|j: int|
            0 <= j < ds.len() ==> digits_seq(ds)[j] == spec_hex_digit(
                ds[ds.len() - 1 - j] as int,
            ),
    decreases ds.len(),
{
    if ds.len() > 0 {
        lemma_digits_seq_index(ds.skip(1));
        assert forall|j: int| 0 <= j < ds.len() implies digits_seq(ds)[j] == spec_hex_digit(
            ds[ds.len() - 1 - j] as int,
        ) by {
            if j < ds.len() - 1 {
                assert(digits_seq(ds)[j] == digits_seq(ds.skip(1))[j]);
                assert(ds.skip(1)[ds.skip(1).len() - 1 - j] == ds[ds.len() - 1 - j]);
            } else {
                assert(digits_seq(ds)[j] == spec_hex_digit(ds[0] as int));
            }
        }
    }
}

/// Render an integer the way JSON writes it.
pub fn i64_dec(n: i64) -> (r: String)
    ensures
        r@ == spec_i64_dec(n as int),
{
    if n == 0 {
        let r = String::from_str("0");
        proof {
            assert("0"@ =~= seq!['0']) by {
                reveal_strlit("0");
            }
        }
        r
    } else if n < 0 {
        let magnitude: u64 = if n == i64::MIN {
            9223372036854775808u64
        } else {
            (-n) as u64
        };
        let mut r = String::from_str("-");
        proof {
            assert("-"@ =~= seq!['-']) by {
                reveal_strlit("-");
            }
        }
        let digits = u64_dec(magnitude);
        r.append(digits.as_str());
        proof {
            assert(r@ =~= seq!['-'] + spec_u64_dec(magnitude as int));
        }
        r
    } else {
        u64_dec(n as u64)
    }
}

/// The JSON object of a signed envelope, fields in declaration order.
pub open spec fn spec_jws_body_json(b: SpecJwsBody) -> Seq<char> {
    "{\"header\":"@ + spec_json_string(b.header) + ",\"payload\":"@ + spec_json_string(b.payload)
        + ",\"signature\":"@ + spec_json_string(b.signature) + "}"@
}

/// Encode a signed envelope as its JSON object.
pub fn encode_jws_body(b: &JwsBody) -> (r: String)
    ensures
        r@ == spec_jws_body_json(b@),
{
    let mut r = String::from_str("{\"header\":");
    append_json_string(&mut r, b.header.as_str());
    r.append(",\"payload\":");
    append_json_string(&mut r, b.payload.as_str());
    r.append(",\"signature\":");
    append_json_string(&mut r, b.signature.as_str());
    r.append("}");
    r
}


/// A sequence with no character that JSON escaping would rewrite.
pub open spec fn json_plain(s: Seq<char>) -> bool {
    forall|i: int| 0 <= i < s.len() ==> s[i] != '"' && s[i] != '\\' && (s[i] as int) >= 0x20
}

/// Escaping leaves a plain sequence as it is.
pub proof fn lemma_escape_plain(s: Seq<char>)
    requires
        json_plain(s),
    ensures
        spec_json_escape(s) == s,
    decreases s.len(),
{
    if s.len() == 0 {
        assert(spec_json_escape(s) =~= s);
    } else {
        assert(json_plain(s.skip(1)));
        lemma_escape_plain(s.skip(1));
        assert(spec_escape_char(s[0]) =~= seq![s[0]]);
        assert(spec_json_escape(s) =~= s);
    }
}

/// Where every piece of the canonical object of a plain signed envelope
/// stands: the literals, the three contents, their closing quotes, and the
/// final brace.
proof fn lemma_canonical_shape(s: Seq<char>, b: SpecJwsBody)
    requires
        json_plain(b.header),
        json_plain(b.payload),
        json_plain(b.signature),
        s == spec_jws_body_json(b),
    ensures
        ({
            let h = b.header.len() as int;
            let p = b.payload.len() as int;
            let g = b.signature.len() as int;
            &&& s.len() == 41 + h + p + g
            &&& s.subrange(0, 11) == "{\"header\":\""@
            &&& s.subrange(11, 11 + h) == b.header
            &&& s[11 + h] == '"'
            &&& (forall|j: int| 11 <= j < 11 + h ==> s[j] != '"')
            &&& s.subrange(12 + h, 24 + h) == ",\"payload\":\""@
            &&& s.subrange(24 + h, 24 + h + p) == b.payload
            &&& s[24 + h + p] == '"'
            &&& (forall|j: int| 24 + h <= j < 24 + h + p ==> s[j] != '"')
            &&& s.subrange(25 + h + p, 39 + h + p) == ",\"signature\":\""@
            &&& s.subrange(39 + h + p, 39 + h + p + g) == b.signature
            &&& s[39 + h + p + g] == '"'
            &&& (forall|j: int| 39 + h + p <= j < 39 + h + p + g ==> s[j] != '"')
            &&& s[40 + h + p + g] == '}'
        }),
{
    lemma_escape_plain(b.header);
    lemma_escape_plain(b.payload);
    lemma_escape_plain(b.signature);
    reveal_strlit("{\"header\":");
    reveal_strlit(",\"payload\":");
    reveal_strlit(",\"signature\":");
    reveal_strlit("}");
    reveal_strlit("\"");
    reveal_strlit("{\"header\":\"");
    reveal_strlit(",\"payload\":\"");
    reveal_strlit(",\"signature\":\"");
    let h = b.header.len() as int;
    let p = b.payload.len() as int;
    let g = b.signature.len() as int;
    assert(spec_json_string(b.header) =~= seq!['"'] + b.header + seq!['"']);
    assert(spec_json_string(b.payload) =~= seq!['"'] + b.payload + seq!['"']);
    assert(spec_json_string(b.signature) =~= seq!['"'] + b.signature + seq!['"']);
    assert(s.len() == 41 + h + p + g);
    assert(s.subrange(0, 11) =~= "{\"header\":\""@);
    assert(s.subrange(11, 11 + h) =~= b.header);
    assert(s[11 + h] == '"');
    assert forall|j: int| 11 <= j < 11 + h implies s[j] != '"' by {
        assert(s[j] == b.header[j - 11]);
    }
    assert(s.subrange(12 + h, 24 + h) =~= ",\"payload\":\""@);
    assert(s.subrange(24 + h, 24 + h + p) =~= b.payload);
    assert(s[24 + h + p] == '"');
    assert forall|j: int| 24 + h <= j < 24 + h + p implies s[j] != '"' by {
        assert(s[j] == b.payload[j - 24 - h]);
    }
    assert(s.subrange(25 + h + p, 39 + h + p) =~= ",\"signature\":\""@);
    assert(s.subrange(39 + h + p, 39 + h + p + g) =~= b.signature);
    assert(s[39 + h + p + g] == '"');
    assert forall|j: int| 39 + h + p <= j < 39 + h + p + g implies s[j] != '"' by {
        assert(s[j] == b.signature[j - 39 - h - p]);
    }
    assert(s[40 + h + p + g] == '}');
}

/// Read the characters of a quoted JSON string from `start` up to the next
/// quote. Succeeds exactly when a quote follows, and hands back the
/// quote-free content together with the position after the closing quote.
fn scan_quoted(s: &str, start: usize) -> (r: Option<(String, usize)>)
    requires
        start <= s@.len(),
    ensures
        r is Some ==> ({
            let (content, next) = r->0;
            &&& start < next <= s@.len()
            &&& s@[next - 1] == '"'
            &&& content@ == s@.subrange(start as int, next - 1)
            &&& forall|j: int| start <= j < next - 1 ==> s@[j] != '"'
        }),
        r is None ==> forall|j: int| start <= j < s@.len() ==> s@[j] != '"',
{
    let n = s.unicode_len();
    for i in start..n
        invariant
            n == s@.len(),
            start <= i <= n,
            forall|j: int| start <= j < i ==> s@[j] != '"',
    {
        if s.get_char(i) == '"' {
            let content = s.substring_char(start, i).to_owned();
            return Some((content, i + 1));
        }
    }
    None
}

/// Whether a string slice equals this prefix of another, by characters.
fn has_prefix_at(s: &str, start: usize, lit: &str) -> (r: bool)
    requires
        start <= s@.len(),
    ensures
        r <==> (start + lit@.len() <= s@.len() && s@.subrange(
            start as int,
            start + lit@.len(),
        ) == lit@),
{
    let m = lit.unicode_len();
    let n = s.unicode_len();
    if n - start < m {
        proof {
            assert(start + lit@.len() > s@.len());
        }
        return false;
    }
    for i in 0..m
        invariant
            m == lit@.len(),
            n == s@.len(),
            start + m <= n,
            forall|j: int| 0 <= j < i ==> s@[start + j] == lit@[j],
    {
        if s.get_char(start + i) != lit.get_char(i) {
            proof {
                assert(s@.subrange(start as int, start + lit@.len())[i as int] != lit@[i as int]);
            }
            return false;
        }
    }
    proof {
        assert(s@.subrange(start as int, start + lit@.len()) =~= lit@);
    }
    true
}

/// Parse the JSON object of a signed envelope, as this library writes it:
/// the three string fields in declaration order. The result is checked by
/// re-encoding it, so success means the input is exactly the JSON object of
/// the returned body; and the object of any envelope with escape-free parts
/// is accepted and returned unchanged.
pub fn parse_jws_body(s: &str) -> (r: Result<JwsBody, VaultError>)
    ensures
        r is Ok ==> spec_jws_body_json(r->Ok_0@) == s@,
        r is Err ==> r->Err_0 == VaultError::ResponseDeserializationFailed,
        forall|b: SpecJwsBody|
            json_plain(b.header) && json_plain(b.payload) && json_plain(b.signature) && s@
                == #[trigger] spec_jws_body_json(b) ==> r is Ok && r->Ok_0@ == b,
{
    let lit1 = "{\"header\":\"";
    let lit2 = ",\"payload\":\"";
    let lit3 = ",\"signature\":\"";
    let n = s.unicode_len();
    proof {
        assert(lit1@.len() == 11 && lit2@.len() == 12 && lit3@.len() == 14) by {
            reveal_strlit("{\"header\":\"");
            reveal_strlit(",\"payload\":\"");
            reveal_strlit(",\"signature\":\"");
        }
    }
    if !has_prefix_at(s, 0, lit1) {
        proof {
            assert forall|b: SpecJwsBody|
                json_plain(b.header) && json_plain(b.payload) && json_plain(b.signature) && s@
                    == #[trigger] spec_jws_body_json(b) implies false by {
                lemma_canonical_shape(s@, b);
            }
        }
        return Err(VaultError::ResponseDeserializationFailed);
    }
    let h_scan = scan_quoted(s, 11);
    if h_scan.is_none() {
        proof {
            assert forall|b: SpecJwsBody|
                json_plain(b.header) && json_plain(b.payload) && json_plain(b.signature) && s@
                    == #[trigger] spec_jws_body_json(b) implies false by {
                lemma_canonical_shape(s@, b);
                let h = b.header.len() as int;
                assert(s@[11 + h] == '"');
            }
        }
        return Err(VaultError::ResponseDeserializationFailed);
    }
    let (header, p2) = h_scan.unwrap();
    proof {
        // in the canonical object the first scan stops exactly at the
        // header's closing quote
        assert forall|b: SpecJwsBody|
            json_plain(b.header) && json_plain(b.payload) && json_plain(b.signature) && s@
                == #[trigger] spec_jws_body_json(b) implies p2 == 12 + b.header.len()
            && header@ == b.header by {
            lemma_canonical_shape(s@, b);
            let h = b.header.len() as int;
            if p2 - 1 < 11 + h {
                assert(s@[p2 - 1] != '"');
            } else if p2 - 1 > 11 + h {
                assert(header@[11 + h - 11] == s@[11 + h]);
            }
            assert(p2 - 1 == 11 + h);
            assert(header@ =~= b.header);
        }
    }
    if p2 > usize::MAX - 12 {
        proof {
            assert forall|b: SpecJwsBody|
                json_plain(b.header) && json_plain(b.payload) && json_plain(b.signature) && s@
                    == #[trigger] spec_jws_body_json(b) implies false by {
                lemma_canonical_shape(s@, b);
                let h = b.header.len() as int;
                assert(p2 == 12 + h);
                assert(24 + h <= n as int);
            }
        }
        return Err(VaultError::ResponseDeserializationFailed);
    }
    if !has_prefix_at(s, p2, lit2) {
        proof {
            assert forall|b: SpecJwsBody|
                json_plain(b.header) && json_plain(b.payload) && json_plain(b.signature) && s@
                    == #[trigger] spec_jws_body_json(b) implies false by {
                lemma_canonical_shape(s@, b);
                let h = b.header.len() as int;
                assert(p2 == 12 + h);
                assert(s@.subrange(12 + h, 24 + h) == lit2@);
                assert(24 + h <= s@.len());
            }
        }
        return Err(VaultError::ResponseDeserializationFailed);
    }
    let p_scan = scan_quoted(s, p2 + 12);
    if p_scan.is_none() {
        proof {
            assert forall|b: SpecJwsBody|
                json_plain(b.header) && json_plain(b.payload) && json_plain(b.signature) && s@
                    == #[trigger] spec_jws_body_json(b) implies false by {
                lemma_canonical_shape(s@, b);
                let h = b.header.len() as int;
                let p = b.payload.len() as int;
                assert(s@[24 + h + p] == '"');
            }
        }
        return Err(VaultError::ResponseDeserializationFailed);
    }
    let (payload, p4) = p_scan.unwrap();
    proof {
        assert forall|b: SpecJwsBody|
            json_plain(b.header) && json_plain(b.payload) && json_plain(b.signature) && s@
                == #[trigger] spec_jws_body_json(b) implies p4 == 25 + b.header.len()
            + b.payload.len() && payload@ == b.payload by {
            lemma_canonical_shape(s@, b);
            let h = b.header.len() as int;
            let p = b.payload.len() as int;
            assert(p2 == 12 + h);
            if p4 - 1 < 24 + h + p {
                assert(s@[p4 - 1] != '"');
            } else if p4 - 1 > 24 + h + p {
                assert(payload@[24 + h + p - (24 + h)] == s@[24 + h + p]);
            }
            assert(p4 - 1 == 24 + h + p);
            assert(payload@ =~= b.payload);
        }
    }
    if p4 > usize::MAX - 14 {
        proof {
            assert forall|b: SpecJwsBody|
                json_plain(b.header) && json_plain(b.payload) && json_plain(b.signature) && s@
                    == #[trigger] spec_jws_body_json(b) implies false by {
                lemma_canonical_shape(s@, b);
                let h = b.header.len() as int;
                let p = b.payload.len() as int;
                assert(p4 == 25 + h + p);
                assert(39 + h + p <= n as int);
            }
        }
        return Err(VaultError::ResponseDeserializationFailed);
    }
    if !has_prefix_at(s, p4, lit3) {
        proof {
            assert forall|b: SpecJwsBody|
                json_plain(b.header) && json_plain(b.payload) && json_plain(b.signature) && s@
                    == #[trigger] spec_jws_body_json(b) implies false by {
                lemma_canonical_shape(s@, b);
                let h = b.header.len() as int;
                let p = b.payload.len() as int;
                assert(p4 == 25 + h + p);
                assert(s@.subrange(25 + h + p, 39 + h + p) == lit3@);
                assert(39 + h + p <= s@.len());
            }
        }
        return Err(VaultError::ResponseDeserializationFailed);
    }
    let g_scan = scan_quoted(s, p4 + 14);
    if g_scan.is_none() {
        proof {
            assert forall|b: SpecJwsBody|
                json_plain(b.header) && json_plain(b.payload) && json_plain(b.signature) && s@
                    == #[trigger] spec_jws_body_json(b) implies false by {
                lemma_canonical_shape(s@, b);
                let h = b.header.len() as int;
                let p = b.payload.len() as int;
                let g = b.signature.len() as int;
                assert(s@[39 + h + p + g] == '"');
            }
        }
        return Err(VaultError::ResponseDeserializationFailed);
    }
    let (signature, _p6) = g_scan.unwrap();
    proof {
        assert forall|b: SpecJwsBody|
            json_plain(b.header) && json_plain(b.payload) && json_plain(b.signature) && s@
                == #[trigger] spec_jws_body_json(b) implies signature@ == b.signature by {
            lemma_canonical_shape(s@, b);
            let h = b.header.len() as int;
            let p = b.payload.len() as int;
            let g = b.signature.len() as int;
            assert(p4 == 25 + h + p);
            if _p6 - 1 < 39 + h + p + g {
                assert(s@[_p6 - 1] != '"');
            } else if _p6 - 1 > 39 + h + p + g {
                assert(signature@[39 + h + p + g - (39 + h + p)] == s@[39 + h + p + g]);
            }
            assert(_p6 - 1 == 39 + h + p + g);
            assert(signature@ =~= b.signature);
        }
    }
    let body = JwsBody { header, payload, signature };
    let reencoded = encode_jws_body(&body);
    if reencoded == s.to_owned() {
        Ok(body)
    } else {
        proof {
            assert forall|b: SpecJwsBody|
                json_plain(b.header) && json_plain(b.payload) && json_plain(b.signature) && s@
                    == #[trigger] spec_jws_body_json(b) implies false by {
                assert(body@ == b);
                assert(reencoded@ == spec_jws_body_json(b));
            }
        }
        Err(VaultError::ResponseDeserializationFailed)
    }
}

} // verus!
