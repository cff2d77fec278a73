//! The vault envelope shapes: a JWS as its three dotted parts, a JWE as its
//! five, the compact (dotted) serialization of each, and the parse back.
//!
//! The parse follows dot-splitting exactly: a compact string with enough
//! parts yields a body made of its first parts, and serializing a body with
//! dot-free parts and parsing it back returns the body unchanged.

use vstd::prelude::*;

use vstd::string::StrSliceExecFns;
use vstd::string::StringExecFns;

verus! {

/// View of a [`JwsBody`].
pub struct SpecJwsBody {
    pub header: Seq<char>,
    pub payload: Seq<char>,
    pub signature: Seq<char>,
}

/// A signed envelope as its three parts.
#[derive(Debug)]
pub struct JwsBody {
    pub header: String,
    pub payload: String,
    pub signature: String,
}

impl View for JwsBody {
    type V = SpecJwsBody;

    open spec fn view(&self) -> SpecJwsBody {
        SpecJwsBody {
            header: self.header@,
            payload: self.payload@,
            signature: self.signature@,
        }
    }
}

impl Clone for JwsBody {
    fn clone(&self) -> (r: Self)
        ensures
            r == *self,
    {
        JwsBody {
            header: self.header.clone(),
            payload: self.payload.clone(),
            signature: self.signature.clone(),
        }
    }
}

/// View of a [`JweBody`].
pub struct SpecJweBody {
    pub header: Seq<char>,
    pub encrypted_key: Seq<char>,
    pub iv: Seq<char>,
    pub encrypted_payload: Seq<char>,
    pub tag: Seq<char>,
}

/// An encrypted envelope as its five parts.
#[derive(Debug)]
pub struct JweBody {
    pub header: String,
    pub encrypted_key: String,
    pub iv: String,
    pub encrypted_payload: String,
    pub tag: String,
}

impl View for JweBody {
    type V = SpecJweBody;

    open spec fn view(&self) -> SpecJweBody {
        SpecJweBody {
            header: self.header@,
            encrypted_key: self.encrypted_key@,
            iv: self.iv@,
            encrypted_payload: self.encrypted_payload@,
            tag: self.tag@,
        }
    }
}

impl Clone for JweBody {
    fn clone(&self) -> (r: Self)
        ensures
            r == *self,
    {
        JweBody {
            header: self.header.clone(),
            encrypted_key: self.encrypted_key.clone(),
            iv: self.iv.clone(),
            encrypted_payload: self.encrypted_payload.clone(),
            tag: self.tag.clone(),
        }
    }
}

/// No dot occurs in the sequence.
pub open spec fn dot_free(s: Seq<char>) -> bool {
    forall|i: int| 0 <= i < s.len() ==> s[i] != '.'
}

/// The dot-separated parts of a sequence: splitting on every dot, keeping
/// empty parts; never empty, and one part longer than the number of dots.
pub open spec fn split_dots(s: Seq<char>) -> Seq<Seq<char>>
    decreases s.len(),
{
    if s.len() == 0 {
        seq![Seq::<char>::empty()]
    } else if s[0] == '.' {
        seq![Seq::<char>::empty()] + split_dots(s.skip(1))
    } else {
        let rest = split_dots(s.skip(1));
        rest.update(0, seq![s[0]] + rest[0])
    }
}

/// Splitting yields at least one part.
pub proof fn lemma_split_dots_nonempty(s: Seq<char>)
    ensures
        split_dots(s).len() >= 1,
    decreases s.len(),
{
    if s.len() != 0 {
        lemma_split_dots_nonempty(s.skip(1));
    }
}

/// Prepending a dot-free prefix extends the first part and nothing else.
pub proof fn lemma_split_dots_prepend(x: Seq<char>, s: Seq<char>)
    requires
        dot_free(x),
    ensures
        split_dots(x + s) == split_dots(s).update(0, x + split_dots(s)[0]),
    decreases x.len(),
{
    lemma_split_dots_nonempty(s);
    if x.len() == 0 {
        assert(x + s =~= s);
        assert(x + split_dots(s)[0] =~= split_dots(s)[0]);
        assert(split_dots(s).update(0, split_dots(s)[0]) =~= split_dots(s));
    } else {
        assert((x + s).len() > 0);
        assert((x + s)[0] == x[0]);
        assert(x[0] != '.');
        assert((x + s).skip(1) =~= x.skip(1) + s);
        assert(dot_free(x.skip(1)));
        lemma_split_dots_prepend(x.skip(1), s);
        let rest = split_dots(x.skip(1) + s);
        lemma_split_dots_nonempty(x.skip(1) + s);
        assert(split_dots(x + s) == rest.update(0, seq![x[0]] + rest[0]));
        assert(rest == split_dots(s).update(0, x.skip(1) + split_dots(s)[0]));
        assert(rest[0] == x.skip(1) + split_dots(s)[0]);
        assert(seq![x[0]] + (x.skip(1) + split_dots(s)[0]) =~= x + split_dots(s)[0]);
        assert(split_dots(x + s) =~= split_dots(s).update(0, x + split_dots(s)[0]));
    }
}

/// A dot-free sequence is a single part.
pub proof fn lemma_split_dots_dot_free(s: Seq<char>)
    requires
        dot_free(s),
    ensures
        split_dots(s) == seq![s],
{
    lemma_split_dots_prepend(s, Seq::<char>::empty());
    assert(s + Seq::<char>::empty() =~= s);
    assert(s + split_dots(Seq::<char>::empty())[0] =~= s);
    assert(split_dots(Seq::<char>::empty()).update(0, s) =~= seq![s]);
}

/// Prepending one dot adds one empty part in front.
pub proof fn lemma_split_dots_dot(s: Seq<char>)
    ensures
        split_dots(seq!['.'] + s) == seq![Seq::<char>::empty()] + split_dots(s),
{
    let d = seq!['.'] + s;
    assert(d.len() > 0);
    assert(d[0] == '.');
    assert(d.skip(1) =~= s);
}

/// Split a string into its dot-separated parts.
pub fn split_on_dots(s: &str) -> (parts: Vec<String>)
    ensures
        parts.deep_view() == split_dots(s@),
{
    let mut parts: Vec<String> = Vec::new();
    let mut start: usize = 0;
    let n = s.unicode_len();
    proof {
        assert(parts.deep_view() =~= Seq::<Seq<char>>::empty());
        assert(s@.subrange(0, 0) =~= Seq::<char>::empty());
        assert(s@.subrange(0, s@.len() as int) =~= s@);
        lemma_split_dots_nonempty(s@);
    }
    for i in 0..n
        invariant
            n == s@.len(),
            0 <= start <= i <= n,
            dot_free(s@.subrange(start as int, i as int)),
            ({
                let rem = s@.subrange(i as int, n as int);
                let acc = s@.subrange(start as int, i as int);
                &&& split_dots(rem).len() >= 1
                &&& split_dots(s@) == parts.deep_view() + seq![acc + split_dots(rem)[0]]
                    + split_dots(rem).skip(1)
            }),
    {
        let ghost rem = s@.subrange(i as int, n as int);
        let ghost rem1 = s@.subrange(i as int + 1, n as int);
        let ghost acc = s@.subrange(start as int, i as int);
        proof {
            assert(rem.len() > 0);
            assert(rem[0] == s@[i as int]);
            assert(rem.skip(1) =~= rem1);
            lemma_split_dots_nonempty(rem1);
        }
        if s.get_char(i) == '.' {
            let part = s.substring_char(start, i).to_owned();
            parts.push(part);
            start = i + 1;
            proof {
                assert(seq!['.'] + rem1 =~= rem);
                lemma_split_dots_dot(rem1);
                assert(split_dots(rem) == seq![Seq::<char>::empty()] + split_dots(rem1));
                assert(split_dots(rem)[0] =~= Seq::<char>::empty());
                assert(acc + split_dots(rem)[0] =~= acc);
                assert(split_dots(rem).skip(1) =~= split_dots(rem1));
                let new_acc = s@.subrange(start as int, i as int + 1);
                assert(new_acc =~= Seq::<char>::empty());
                assert(parts.deep_view() + seq![new_acc + split_dots(rem1)[0]] + split_dots(
                    rem1,
                ).skip(1) =~= split_dots(s@));
            }
        } else {
            proof {
                assert(rem[0] != '.');
                assert(seq![rem[0]] + rem1 =~= rem);
                assert(dot_free(seq![rem[0]]));
                lemma_split_dots_prepend(seq![rem[0]], rem1);
                assert(split_dots(rem) == split_dots(rem1).update(
                    0,
                    seq![rem[0]] + split_dots(rem1)[0],
                ));
                let new_acc = s@.subrange(start as int, i as int + 1);
                assert(new_acc =~= acc + seq![rem[0]]);
                assert(new_acc + split_dots(rem1)[0] =~= acc + (seq![rem[0]] + split_dots(
                    rem1,
                )[0]));
                assert(split_dots(rem).skip(1) =~= split_dots(rem1).skip(1));
                assert(parts.deep_view() + seq![new_acc + split_dots(rem1)[0]] + split_dots(
                    rem1,
                ).skip(1) =~= split_dots(s@));
            }
        }
    }
    let last = s.substring_char(start, n).to_owned();
    parts.push(last);
    proof {
        let rem = s@.subrange(n as int, n as int);
        assert(rem =~= Seq::<char>::empty());
        let acc = s@.subrange(start as int, n as int);
        assert(split_dots(rem) =~= seq![Seq::<char>::empty()]);
        assert(acc + split_dots(rem)[0] =~= acc);
        assert(split_dots(rem).skip(1) =~= Seq::<Seq<char>>::empty());
        assert(parts.deep_view() =~= split_dots(s@));
    }
    parts
}

/// The compact serialization of a signed envelope: its parts joined with
/// dots.
pub open spec fn spec_dotted_jws(b: SpecJwsBody) -> Seq<char> {
    b.header + seq!['.'] + b.payload + seq!['.'] + b.signature
}

/// Join a signed envelope's parts with dots.
pub fn get_dotted_jws(jws: JwsBody) -> (r: String)
    ensures
        r@ == spec_dotted_jws(jws@),
{
    let header = jws.header;
    let payload = jws.payload;
    let signature = jws.signature;
    let mut r = header;
    r.append(".");
    r.append(payload.as_str());
    r.append(".");
    r.append(signature.as_str());
    proof {
        assert("."@ =~= seq!['.']) by {
            reveal_strlit(".");
        }
    }
    r
}

/// The compact serialization of an encrypted envelope: header, encrypted
/// key, initialization vector, ciphertext and tag, joined with dots.
pub open spec fn spec_dotted_jwe(b: SpecJweBody) -> Seq<char> {
    b.header + seq!['.'] + b.encrypted_key + seq!['.'] + b.iv + seq!['.'] + b.encrypted_payload
        + seq!['.'] + b.tag
}

/// Join an encrypted envelope's parts with dots.
pub fn get_dotted_jwe(jwe: JweBody) -> (r: String)
    ensures
        r@ == spec_dotted_jwe(jwe@),
{
    let header = jwe.header;
    let encryption_key = jwe.encrypted_key;
    let iv = jwe.iv;
    let encryption_payload = jwe.encrypted_payload;
    let tag = jwe.tag;
    let mut r = header;
    r.append(".");
    r.append(encryption_key.as_str());
    r.append(".");
    r.append(iv.as_str());
    r.append(".");
    r.append(encryption_payload.as_str());
    r.append(".");
    r.append(tag.as_str());
    proof {
        assert("."@ =~= seq!['.']) by {
            reveal_strlit(".");
        }
    }
    r
}

/// Rebuild a signed envelope from a compact string: succeeds exactly when
/// the string has at least three dot-separated parts, and takes the first
/// three.
pub fn jws_body_from_compact(s: &str) -> (r: Option<JwsBody>)
    ensures
        r is Some <==> split_dots(s@).len() >= 3,
        r is Some ==> r->0@ == (SpecJwsBody {
            header: split_dots(s@)[0],
            payload: split_dots(s@)[1],
            signature: split_dots(s@)[2],
        }),
{
    let parts = split_on_dots(s);
    if parts.len() >= 3 {
        Some(
            JwsBody {
                header: parts[0].clone(),
                payload: parts[1].clone(),
                signature: parts[2].clone(),
            },
        )
    } else {
        None
    }
}

/// Rebuild an encrypted envelope from a compact string: succeeds exactly
/// when the string has at least five dot-separated parts, and takes the
/// first five.
pub fn jwe_body_from_compact(s: &str) -> (r: Option<JweBody>)
    ensures
        r is Some <==> split_dots(s@).len() >= 5,
        r is Some ==> r->0@ == (SpecJweBody {
            header: split_dots(s@)[0],
            encrypted_key: split_dots(s@)[1],
            iv: split_dots(s@)[2],
            encrypted_payload: split_dots(s@)[3],
            tag: split_dots(s@)[4],
        }),
{
    let parts = split_on_dots(s);
    if parts.len() >= 5 {
        Some(
            JweBody {
                header: parts[0].clone(),
                encrypted_key: parts[1].clone(),
                iv: parts[2].clone(),
                encrypted_payload: parts[3].clone(),
                tag: parts[4].clone(),
            },
        )
    } else {
        None
    }
}

/// Round trip of the signed envelope: serializing a body with dot-free
/// parts and splitting it back yields exactly the three parts.
pub proof fn lemma_jws_round_trip(b: SpecJwsBody)
    requires
        dot_free(b.header),
        dot_free(b.payload),
        dot_free(b.signature),
    ensures
        split_dots(spec_dotted_jws(b)) == seq![b.header, b.payload, b.signature],
{
    let tail2 = b.signature;
    let tail1 = b.payload + seq!['.'] + b.signature;
    lemma_split_dots_dot_free(tail2);
    lemma_split_dots_dot(tail2);
    assert(seq!['.'] + tail2 =~= seq!['.'] + b.signature);
    assert(split_dots(seq!['.'] + b.signature) == seq![Seq::<char>::empty()] + seq![b.signature]);
    lemma_split_dots_prepend(b.payload, seq!['.'] + b.signature);
    assert(tail1 =~= b.payload + (seq!['.'] + b.signature));
    assert(split_dots(tail1) =~= seq![b.payload, b.signature]) by {
        assert(split_dots(seq!['.'] + b.signature)[0] == Seq::<char>::empty());
        assert(b.payload + Seq::<char>::empty() =~= b.payload);
        assert((seq![Seq::<char>::empty()] + seq![b.signature]).update(0, b.payload) =~= seq![
            b.payload,
            b.signature,
        ]);
    }
    lemma_split_dots_dot(tail1);
    lemma_split_dots_prepend(b.header, seq!['.'] + tail1);
    assert(spec_dotted_jws(b) =~= b.header + (seq!['.'] + tail1));
    assert(split_dots(spec_dotted_jws(b)) =~= seq![b.header, b.payload, b.signature]) by {
        assert(split_dots(seq!['.'] + tail1) == seq![Seq::<char>::empty()] + split_dots(tail1));
        assert(split_dots(seq!['.'] + tail1)[0] == Seq::<char>::empty());
        assert(b.header + Seq::<char>::empty() =~= b.header);
        assert((seq![Seq::<char>::empty()] + seq![b.payload, b.signature]).update(0, b.header)
            =~= seq![b.header, b.payload, b.signature]);
    }
}

/// Round trip of the encrypted envelope: serializing a body with dot-free
/// parts and splitting it back yields exactly the five parts.
pub proof fn lemma_jwe_round_trip(b: SpecJweBody)
    requires
        dot_free(b.header),
        dot_free(b.encrypted_key),
        dot_free(b.iv),
        dot_free(b.encrypted_payload),
        dot_free(b.tag),
    ensures
        split_dots(spec_dotted_jwe(b)) == seq![
            b.header,
            b.encrypted_key,
            b.iv,
            b.encrypted_payload,
            b.tag,
        ],
{
    let t4 = b.tag;
    let t3 = b.encrypted_payload + seq!['.'] + b.tag;
    let t2 = b.iv + seq!['.'] + t3;
    let t1 = b.encrypted_key + seq!['.'] + t2;
    lemma_split_dots_dot_free(t4);
    lemma_split_dots_dot(t4);
    lemma_split_dots_prepend(b.encrypted_payload, seq!['.'] + t4);
    assert(t3 =~= b.encrypted_payload + (seq!['.'] + t4));
    assert(split_dots(t3) =~= seq![b.encrypted_payload, b.tag]) by {
        assert(split_dots(seq!['.'] + t4) == seq![Seq::<char>::empty()] + seq![b.tag]);
        assert(b.encrypted_payload + Seq::<char>::empty() =~= b.encrypted_payload);
        assert((seq![Seq::<char>::empty()] + seq![b.tag]).update(0, b.encrypted_payload) =~= seq![
            b.encrypted_payload,
            b.tag,
        ]);
    }
    lemma_split_dots_dot(t3);
    lemma_split_dots_prepend(b.iv, seq!['.'] + t3);
    assert(t2 =~= b.iv + (seq!['.'] + t3));
    assert(split_dots(t2) =~= seq![b.iv, b.encrypted_payload, b.tag]) by {
        assert(split_dots(seq!['.'] + t3) == seq![Seq::<char>::empty()] + split_dots(t3));
        assert(b.iv + Seq::<char>::empty() =~= b.iv);
        assert((seq![Seq::<char>::empty()] + seq![b.encrypted_payload, b.tag]).update(0, b.iv)
            =~= seq![b.iv, b.encrypted_payload, b.tag]);
    }
    lemma_split_dots_dot(t2);
    lemma_split_dots_prepend(b.encrypted_key, seq!['.'] + t2);
    assert(t1 =~= b.encrypted_key + (seq!['.'] + t2));
    assert(split_dots(t1) =~= seq![b.encrypted_key, b.iv, b.encrypted_payload, b.tag]) by {
        assert(split_dots(seq!['.'] + t2) == seq![Seq::<char>::empty()] + split_dots(t2));
        assert(b.encrypted_key + Seq::<char>::empty() =~= b.encrypted_key);
        assert((seq![Seq::<char>::empty()] + seq![b.iv, b.encrypted_payload, b.tag]).update(
            0,
            b.encrypted_key,
        ) =~= seq![b.encrypted_key, b.iv, b.encrypted_payload, b.tag]);
    }
    lemma_split_dots_dot(t1);
    lemma_split_dots_prepend(b.header, seq!['.'] + t1);
    assert(spec_dotted_jwe(b) =~= b.header + (seq!['.'] + t1));
    assert(split_dots(spec_dotted_jwe(b)) =~= seq![
        b.header,
        b.encrypted_key,
        b.iv,
        b.encrypted_payload,
        b.tag,
    ]) by {
        assert(split_dots(seq!['.'] + t1) == seq![Seq::<char>::empty()] + split_dots(t1));
        assert(b.header + Seq::<char>::empty() =~= b.header);
        assert((seq![Seq::<char>::empty()] + seq![
            b.encrypted_key,
            b.iv,
            b.encrypted_payload,
            b.tag,
        ]).update(0, b.header) =~= seq![
            b.header,
            b.encrypted_key,
            b.iv,
            b.encrypted_payload,
            b.tag,
        ]);
    }
}

} // verus!
