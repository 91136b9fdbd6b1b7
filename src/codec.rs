//! The payload encoding: a list of credential records as the bytes that are
//! encrypted.
//!
//! Each text field is written as its UTF-8 length (eight bytes, little
//! endian) followed by its UTF-8 bytes; a record is its service, login and
//! password fields in that order; a payload is its records in order.
//! Payloads in any other layout, such as a JSON list of records, do not
//! decode and are reported as format errors.
//!
//! The buffers that hold decoded secrets are wiped before they are dropped,
//! also on the failure paths, and the encoder allocates its output once so
//! that no reallocation leaves a copy behind.

use crate::secret::{wipe_bytes, wipe_string};
use crate::vault::{credentials, wipe_entries, Credential, Entry};
use vstd::bytes::*;
use vstd::prelude::*;
use vstd::utf8::*;

verus! {



/// The bytes of one text field.
pub open spec fn field_bytes(s: Seq<char>) -> Seq<u8> {
    spec_u64_to_le_bytes(encode_utf8(s).len() as u64) + encode_utf8(s)
}

/// The bytes of one record.
pub open spec fn record_bytes(c: Credential) -> Seq<u8> {
    field_bytes(c.service) + field_bytes(c.login) + field_bytes(c.password)
}

/// The payload of a list of records.
pub open spec fn payload_bytes(cs: Seq<Credential>) -> Seq<u8>
    decreases cs.len(),
{
    if cs.len() == 0 {
        seq![]
    } else {
        record_bytes(cs[0]) + payload_bytes(cs.drop_first())
    }
}

/// Whether each text field of a record has a UTF-8 length that its
/// eight-byte length prefix can hold (true of every record in memory).
pub open spec fn record_fits(c: Credential) -> bool {
    &&& encode_utf8(c.service).len() <= u64::MAX
    &&& encode_utf8(c.login).len() <= u64::MAX
    &&& encode_utf8(c.password).len() <= u64::MAX
}

/// Whether every record of a list fits its length prefixes.
pub open spec fn all_fit(cs: Seq<Credential>) -> bool {
    forall|i: int| 0 <= i < cs.len() ==> record_fits(#[trigger] cs[i])
}

/// The text field at the start of `b`, with the number of bytes it takes.
pub open spec fn parse_field(b: Seq<u8>) -> Option<(Seq<char>, int)> {
    if b.len() < 8 {
        None
    } else {
        let n = spec_u64_from_le_bytes(b.take(8)) as int;
        if n > b.len() - 8 {
            None
        } else if !valid_utf8(b.subrange(8, 8 + n)) {
            None
        } else {
            Some((decode_utf8(b.subrange(8, 8 + n)), 8 + n))
        }
    }
}

/// The record at the start of `b`, with the number of bytes it takes.
pub open spec fn parse_record(b: Seq<u8>) -> Option<(Credential, int)> {
    match parse_field(b) {
        None => None,
        Some((service, k1)) => match parse_field(b.skip(k1)) {
            None => None,
            Some((login, k2)) => match parse_field(b.skip(k1 + k2)) {
                None => None,
                Some((password, k3)) => Some(
                    (Credential { service, login, password }, k1 + k2 + k3),
                ),
            },
        },
    }
}

/// The records that a payload holds, or `None` when it is malformed.
pub open spec fn parse_payload(b: Seq<u8>) -> Option<Seq<Credential>>
    decreases b.len(),
{
    if b.len() == 0 {
        Some(seq![])
    } else {
        match parse_record(b) {
            None => None,
            Some((c, k)) => if 0 < k <= b.len() {
                match parse_payload(b.skip(k)) {
                    None => None,
                    Some(rest) => Some(seq![c] + rest),
                }
            } else {
                None
            },
        }
    }
}

/// `head` followed by the records of `tail`, or `None` when `tail` is `None`.
pub open spec fn prepend(head: Seq<Credential>, tail: Option<Seq<Credential>>) -> Option<
    Seq<Credential>,
> {
    match tail {
        None => None,
        Some(t) => Some(head + t),
    }
}

proof fn lemma_parse_field(s: Seq<char>, rest: Seq<u8>)
    requires
        encode_utf8(s).len() <= u64::MAX,
    ensures
        parse_field(field_bytes(s) + rest) == Some((s, field_bytes(s).len() as int)),
        field_bytes(s).len() == 8 + encode_utf8(s).len(),
{
    let u = encode_utf8(s);
    let b = field_bytes(s) + rest;
    lemma_auto_spec_u64_to_from_le_bytes();
    encode_utf8_valid_utf8(s);
    encode_utf8_decode_utf8(s);
    let n = u.len() as u64;
    assert(b.take(8) =~= spec_u64_to_le_bytes(n));
    assert(b.subrange(8, 8 + u.len() as int) =~= u);
}

proof fn lemma_parse_record(c: Credential, rest: Seq<u8>)
    requires
        record_fits(c),
    ensures
        parse_record(record_bytes(c) + rest) == Some((c, record_bytes(c).len() as int)),
        record_bytes(c).len() >= 24,
{
    let fs = field_bytes(c.service);
    let fl = field_bytes(c.login);
    let fp = field_bytes(c.password);
    let b = record_bytes(c) + rest;
    lemma_parse_field(c.service, fl + fp + rest);
    lemma_parse_field(c.login, fp + rest);
    lemma_parse_field(c.password, rest);
    assert(b =~= fs + (fl + fp + rest));
    assert(b.skip(fs.len() as int) =~= fl + (fp + rest));
    assert(b.skip((fs.len() + fl.len()) as int) =~= fp + rest);
}

/// Appending a record to a list appends its bytes to the payload.
proof fn lemma_payload_push(cs: Seq<Credential>, c: Credential)
    ensures
        payload_bytes(cs.push(c)) == payload_bytes(cs) + record_bytes(c),
    decreases cs.len(),
{
    if cs.len() == 0 {
        assert(cs.push(c).drop_first() =~= seq![]);
        assert(payload_bytes(cs.push(c)) =~= record_bytes(c) + payload_bytes(seq![]));
    } else {
        assert(cs.push(c).drop_first() =~= cs.drop_first().push(c));
        lemma_payload_push(cs.drop_first(), c);
        assert(payload_bytes(cs.push(c)) =~= payload_bytes(cs) + record_bytes(c));
    }
}

/// Decoding the encoding of any list of records, the empty one included,
/// gives back the same records in the same order.
pub proof fn lemma_decode_encode(cs: Seq<Credential>)
    requires
        all_fit(cs),
    ensures
        parse_payload(payload_bytes(cs)) == Some(cs),
    decreases cs.len(),
{
    if cs.len() > 0 {
        let b = payload_bytes(cs);
        let rest = payload_bytes(cs.drop_first());
        lemma_parse_record(cs[0], rest);
        let k = record_bytes(cs[0]).len() as int;
        assert(b.skip(k) =~= rest);
        assert(all_fit(cs.drop_first())) by {
            assert forall|i: int| 0 <= i < cs.drop_first().len() implies record_fits(
                #[trigger] cs.drop_first()[i],
            ) by {
                assert(cs.drop_first()[i] == cs[i + 1]);
            }
        }
        lemma_decode_encode(cs.drop_first());
        assert(seq![cs[0]] + cs.drop_first() =~= cs);
    }
}

/// Relies on `String::from_utf8`: it succeeds exactly on valid UTF-8, and the
/// string then holds those bytes; on failure `FromUtf8Error::into_bytes`
/// hands the bytes back.
#[verifier::external_body]
fn string_from_utf8(bytes: Vec<u8>) -> (r: Result<String, Vec<u8>>)
    ensures
        r is Ok <==> valid_utf8(bytes@),
        r matches Ok(s) ==> encode_utf8(s@) == bytes@,
        r matches Err(b) ==> b@ == bytes@,
{
    String::from_utf8(bytes).map_err(|e| e.into_bytes())
}

fn push_field(out: &mut Vec<u8>, s: &String)
    ensures
        final(out)@ == old(out)@ + field_bytes(s@),
        encode_utf8(s@).len() <= u64::MAX,
{
    let bytes = s.as_str().as_bytes();
    let n = bytes.len();
    let prefix = u64_to_le_bytes(n as u64);
    out.extend_from_slice(prefix.as_slice());
    out.extend_from_slice(bytes);
    assert(final(out)@ =~= old(out)@ + field_bytes(s@));
}

/// Encodes a list of entries, passwords included, as the payload to encrypt.
pub fn encode_entries(entries: &Vec<Entry>) -> (r: Vec<u8>)
    ensures
        r@ == payload_bytes(credentials(entries@)),
        all_fit(credentials(entries@)),
{
    let mut total: usize = 0;
    let mut j: usize = 0;
    while j < entries.len()
        invariant
            j <= entries@.len(),
        decreases entries@.len() - j,
    {
        let e = &entries[j];
        total = total.saturating_add(24);
        total = total.saturating_add(e.service.as_str().as_bytes().len());
        total = total.saturating_add(e.login.as_str().as_bytes().len());
        total = total.saturating_add(e.password.as_str().as_bytes().len());
        j = j + 1;
    }
    let mut out: Vec<u8> = Vec::with_capacity(total);
    let ghost cs = credentials(entries@);
    let mut i: usize = 0;
    while i < entries.len()
        invariant
            i <= entries@.len(),
            cs == credentials(entries@),
            out@ == payload_bytes(cs.take(i as int)),
            forall|j: int| 0 <= j < i ==> record_fits(#[trigger] cs[j]),
        decreases entries@.len() - i,
    {
        let e = &entries[i];
        proof {
            assert(cs.take(i + 1) =~= cs.take(i as int).push(cs[i as int]));
            lemma_payload_push(cs.take(i as int), cs[i as int]);
        }
        push_field(&mut out, &e.service);
        push_field(&mut out, &e.login);
        push_field(&mut out, &e.password);
        assert(out@ =~= payload_bytes(cs.take(i as int)) + record_bytes(cs[i as int]));
        i = i + 1;
    }
    assert(cs.take(i as int) =~= cs);
    out
}

fn read_field(bytes: &[u8], pos: usize) -> (r: Option<(String, usize)>)
    requires
        pos <= bytes@.len(),
    ensures
        match r {
            Some((s, k)) => parse_field(bytes@.skip(pos as int)) == Some((s@, k as int)) && pos
                + k <= bytes@.len(),
            None => parse_field(bytes@.skip(pos as int)) is None,
        },
{
    let ghost b = bytes@.skip(pos as int);
    if bytes.len() - pos < 8 {
        return None;
    }
    let n = u64_from_le_bytes(vstd::slice::slice_subrange(bytes, pos, pos + 8));
    assert(bytes@.subrange(pos as int, pos + 8) =~= b.take(8));
    if n > (bytes.len() - pos - 8) as u64 {
        return None;
    }
    let n = n as usize;
    let body = vstd::slice::slice_to_vec(vstd::slice::slice_subrange(bytes, pos + 8, pos + 8 + n));
    assert(body@ =~= b.subrange(8, 8 + n));
    match string_from_utf8(body) {
        Err(mut rejected) => {
            wipe_bytes(&mut rejected);
            None
        },
        Ok(s) => {
            proof {
                decode_utf8_encode_utf8(body@);
                encode_utf8_decode_utf8(s@);
            }
            Some((s, 8 + n))
        },
    }
}

proof fn lemma_parse_payload_step(b: Seq<u8>, c: Credential, k: int)
    requires
        parse_record(b) == Some((c, k)),
        0 < k <= b.len(),
    ensures
        parse_payload(b) == prepend(seq![c], parse_payload(b.skip(k))),
{
}

/// Decodes a payload into its entries, or `None` when it is malformed.
pub fn decode_entries(bytes: &[u8]) -> (r: Option<Vec<Entry>>)
    ensures
        match r {
            Some(v) => parse_payload(bytes@) == Some(credentials(v@)),
            None => parse_payload(bytes@) is None,
        },
{
    let mut out: Vec<Entry> = Vec::new();
    let mut pos: usize = 0;
    assert(bytes@.skip(0) =~= bytes@);
    while pos < bytes.len()
        invariant
            pos <= bytes@.len(),
            parse_payload(bytes@) == prepend(credentials(out@), parse_payload(bytes@.skip(pos as int))),
        decreases bytes@.len() - pos,
    {
        let ghost b = bytes@.skip(pos as int);
        let (mut service, k1) = match read_field(bytes, pos) {
            None => {
                wipe_entries(&mut out);
                return None;
            },
            Some(f) => f,
        };
        assert(bytes@.skip(pos + k1) =~= b.skip(k1 as int));
        let (mut login, k2) = match read_field(bytes, pos + k1) {
            None => {
                wipe_string(&mut service);
                wipe_entries(&mut out);
                return None;
            },
            Some(f) => f,
        };
        assert(bytes@.skip(pos + k1 + k2) =~= b.skip(k1 + k2));
        let (password, k3) = match read_field(bytes, pos + k1 + k2) {
            None => {
                wipe_string(&mut service);
                wipe_string(&mut login);
                wipe_entries(&mut out);
                return None;
            },
            Some(f) => f,
        };
        let entry = Entry { service, login, password };
        let ghost old_out = out@;
        let ghost k = (k1 + k2 + k3) as int;
        proof {
            assert(parse_record(b) == Some((entry@, k)));
            lemma_parse_payload_step(b, entry@, k);
            assert(bytes@.skip(pos + k) =~= b.skip(k));
        }
        out.push(entry);
        pos = pos + k1 + k2 + k3;
        proof {
            assert(credentials(out@) =~= credentials(old_out).push(entry@));
            match parse_payload(bytes@.skip(pos as int)) {
                None => {},
                Some(t) => {
                    assert(credentials(old_out) + (seq![entry@] + t) =~= credentials(out@) + t);
                },
            }
        }
    }
    assert(bytes@.skip(pos as int) =~= seq![]);
    assert(credentials(out@) + seq![] =~= credentials(out@));
    Some(out)
}

} // verus!
