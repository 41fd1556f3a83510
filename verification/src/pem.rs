//! Certificates in PEM form, as the MQTT client reads a CA bundle: the
//! base64 body of each `BEGIN CERTIFICATE` ... `END CERTIFICATE` block,
//! decoded.
use vstd::prelude::*;
use vstd::utf8::{decode_utf8, valid_utf8};
use crate::encoding::{base64_decoded, base64_standard_decode, utf8_text};
use crate::text::{chars_of, starts_with, starts_with_chars, string_of, trim_chars, trimmed};

verus! {

/// The line that opens a certificate.
pub const PEM_BEGIN: &'static str = "-----BEGIN CERTIFICATE-----";

/// The line that closes a certificate.
pub const PEM_END: &'static str = "-----END CERTIFICATE-----";

/// The position of the first line feed in `d`, or -1.
pub open spec fn index_of_newline(d: Seq<u8>) -> int
    decreases d.len(),
{
    if d.len() == 0 {
        -1
    } else if d[0] == 10u8 {
        0
    } else {
        let k = index_of_newline(d.drop_first());
        if k < 0 {
            -1
        } else {
            k + 1
        }
    }
}

/// The pieces of `d` between line feeds, as `<[u8]>::split` gives them: an
/// empty input is one empty piece, and a final line feed leaves an empty
/// last piece.
pub open spec fn byte_lines(d: Seq<u8>) -> Seq<Seq<u8>>
    decreases d.len(),
{
    let i = index_of_newline(d);
    if 0 <= i < d.len() {
        seq![d.take(i)] + byte_lines(d.skip(i + 1))
    } else {
        seq![d]
    }
}

/// The text of a line: its characters when it is valid UTF-8, else empty.
pub open spec fn line_text(line: Seq<u8>) -> Seq<char> {
    if valid_utf8(line) {
        decode_utf8(line)
    } else {
        seq![]
    }
}

/// The state of the scan: inside a certificate or not, the base64 text
/// gathered for it, and the certificates decoded so far.
pub type PemScan = (bool, Seq<char>, Seq<Seq<u8>>);

/// One line of the scan: a begin line opens a certificate and clears its
/// text; an end line inside a certificate closes it and keeps its decoded
/// bytes if the text is valid base64; any other line inside a certificate
/// adds its trimmed text; anything else is skipped.
pub open spec fn pem_step(st: PemScan, line: Seq<char>) -> PemScan {
    if starts_with(line, PEM_BEGIN@) {
        (true, seq![], st.2)
    } else if starts_with(line, PEM_END@) {
        if st.0 {
            (
                false,
                st.1,
                match base64_decoded(st.1) {
                    Some(der) => st.2.push(der),
                    None => st.2,
                },
            )
        } else {
            st
        }
    } else if st.0 {
        (true, st.1 + trimmed(line), st.2)
    } else {
        st
    }
}

/// The scan over a sequence of lines.
pub open spec fn pem_scan(lines: Seq<Seq<u8>>) -> PemScan
    decreases lines.len(),
{
    if lines.len() == 0 {
        (false, seq![], seq![])
    } else {
        pem_step(pem_scan(lines.drop_last()), line_text(lines.last()))
    }
}

/// The DER bytes of the certificates in a PEM text, in order.
pub open spec fn pem_certificates(data: Seq<u8>) -> Seq<Seq<u8>> {
    pem_scan(byte_lines(data)).2
}

proof fn lemma_index_of_newline(d: Seq<u8>, k: int)
    requires
        0 <= k <= d.len(),
        forall|j: int| 0 <= j < k ==> d[j] != 10u8,
        k < d.len() ==> d[k] == 10u8,
    ensures
        k < d.len() ==> index_of_newline(d) == k,
        k == d.len() ==> index_of_newline(d) == -1,
    decreases k,
{
    if k > 0 {
        lemma_index_of_newline(d.drop_first(), k - 1);
    }
}

fn byte_range(d: &[u8], from: usize, to: usize) -> (r: Vec<u8>)
    requires
        from <= to <= d@.len(),
    ensures
        r@ == d@.subrange(from as int, to as int),
{
    let mut r: Vec<u8> = Vec::new();
    let mut i = from;
    while i < to
        invariant
            from <= i <= to,
            to <= d@.len(),
            r@ == d@.subrange(from as int, i as int),
        decreases to - i,
    {
        r.push(d[i]);
        i = i + 1;
        assert(r@ =~= d@.subrange(from as int, i as int));
    }
    r
}

/// The pieces of `data` between line feeds.
pub fn split_lines(data: &[u8]) -> (r: Vec<Vec<u8>>)
    ensures
        r@.map_values(|v: Vec<u8>| v@) == byte_lines(data@),
{
    let n = data.len();
    let mut r: Vec<Vec<u8>> = Vec::new();
    let mut pos: usize = 0;
    assert(data@.skip(0) =~= data@);
    loop
        invariant
            n == data@.len(),
            pos <= n,
            byte_lines(data@) == r@.map_values(|v: Vec<u8>| v@) + byte_lines(data@.skip(pos as int)),
        decreases n - pos,
    {
        let ghost t = data@.skip(pos as int);
        let mut k: usize = pos;
        while k < n && data[k] != 10u8
            invariant
                n == data@.len(),
                pos <= k <= n,
                t == data@.skip(pos as int),
                forall|j: int| pos <= j < k ==> data@[j] != 10u8,
            decreases n - k,
        {
            k = k + 1;
        }
        proof {
            lemma_index_of_newline(t, k - pos);
        }
        let ghost before = r@.map_values(|v: Vec<u8>| v@);
        let piece = byte_range(data, pos, k);
        if k == n {
            assert(piece@ =~= t);
            r.push(piece);
            assert(r@.map_values(|v: Vec<u8>| v@) =~= before.push(t));
            assert(byte_lines(t) == seq![t]);
            assert(before + seq![t] =~= before.push(t));
            return r;
        }
        assert(piece@ =~= t.take((k - pos) as int));
        r.push(piece);
        assert(t.skip((k - pos) as int + 1) =~= data@.skip(k + 1));
        assert(r@.map_values(|v: Vec<u8>| v@) =~= before.push(t.take((k - pos) as int)));
        assert(byte_lines(t) == seq![t.take((k - pos) as int)] + byte_lines(data@.skip(k + 1)));
        assert(before + byte_lines(t) =~= before.push(t.take((k - pos) as int)) + byte_lines(
            data@.skip(k + 1),
        ));
        pos = k + 1;
    }
}

/// The DER bytes of the certificates in a PEM text, in order. A block whose
/// body is not valid base64 is left out; lines that are not UTF-8 count as
/// empty.
pub fn parse_pem_certs(data: &[u8]) -> (r: Vec<Vec<u8>>)
    ensures
        r@.map_values(|v: Vec<u8>| v@) == pem_certificates(data@),
{
    let begin = chars_of(PEM_BEGIN);
    let end = chars_of(PEM_END);
    let ls = split_lines(data);
    let ghost all = ls@.map_values(|v: Vec<u8>| v@);
    let mut certs: Vec<Vec<u8>> = Vec::new();
    let mut in_cert = false;
    let mut b64: Vec<char> = Vec::new();
    let mut k: usize = 0;
    while k < ls.len()
        invariant
            k <= ls@.len(),
            all == ls@.map_values(|v: Vec<u8>| v@),
            all == byte_lines(data@),
            begin@ == PEM_BEGIN@,
            end@ == PEM_END@,
            pem_scan(all.take(k as int)) == (in_cert, b64@, certs@.map_values(|v: Vec<u8>| v@)),
        decreases ls@.len() - k,
    {
        assert(all.take(k + 1).drop_last() =~= all.take(k as int));
        assert(all.take(k + 1).last() == ls@[k as int]@);
        let text: Vec<char> = match utf8_text(ls[k].as_slice()) {
            Some(t) => chars_of(t.as_str()),
            None => Vec::new(),
        };
        assert(text@ == line_text(ls@[k as int]@));
        let ghost before = certs@.map_values(|v: Vec<u8>| v@);
        if starts_with_chars(text.as_slice(), begin.as_slice()) {
            in_cert = true;
            b64 = Vec::new();
        } else if starts_with_chars(text.as_slice(), end.as_slice()) {
            if in_cert {
                in_cert = false;
                let body = string_of(b64.as_slice());
                match base64_standard_decode(body.as_str()) {
                    Some(der) => {
                        certs.push(der);
                        assert(certs@.map_values(|v: Vec<u8>| v@) =~= before.push(
                            base64_decoded(b64@).unwrap(),
                        ));
                    },
                    None => {},
                }
            }
        } else if in_cert {
            let t = trim_chars(text.as_slice());
            let mut i: usize = 0;
            let ghost start = b64@;
            while i < t.len()
                invariant
                    i <= t@.len(),
                    b64@ == start + t@.take(i as int),
                decreases t@.len() - i,
            {
                b64.push(t[i]);
                i = i + 1;
                assert(b64@ =~= start + t@.take(i as int));
            }
            assert(t@.take(i as int) =~= t@);
        }
        k = k + 1;
    }
    assert(all.take(k as int) =~= all);
    certs
}

// ---------------------------------------------------------------------------
// Laws
// ---------------------------------------------------------------------------
/// A text without line feed is one line.
proof fn lemma_byte_lines_single(x: Seq<u8>)
    requires
        forall|j: int| 0 <= j < x.len() ==> x[j] != 10u8,
    ensures
        byte_lines(x) == seq![x],
{
    lemma_index_of_newline(x, x.len() as int);
}

/// The lines of two texts joined by a line feed are the lines of the
/// first followed by the lines of the second.
pub proof fn lemma_byte_lines_join(x: Seq<u8>, y: Seq<u8>)
    ensures
        byte_lines(x + seq![10u8] + y) == byte_lines(x) + byte_lines(y),
    decreases x.len(),
{
    let d = x + seq![10u8] + y;
    // Where the first line feed of `x` is, if it has one.
    if exists|k: int| 0 <= k < x.len() && x[k] == 10u8 {
        let k0 = choose|k: int| 0 <= k < x.len() && x[k] == 10u8;
        lemma_first_newline_exists(x, k0);
        let k = index_of_newline(x);
        lemma_first_newline_facts(x);
        assert forall|j: int| 0 <= j < k implies d[j] != 10u8 by {
            assert(d[j] == x[j]);
        }
        assert(d[k] == x[k]);
        lemma_index_of_newline(d, k);
        lemma_index_of_newline(x, k);
        assert(d.take(k) =~= x.take(k));
        assert(d.skip(k + 1) =~= x.skip(k + 1) + seq![10u8] + y);
        lemma_byte_lines_join(x.skip(k + 1), y);
        assert(byte_lines(d) =~= seq![x.take(k)] + (byte_lines(x.skip(k + 1)) + byte_lines(y)));
        assert(byte_lines(x) == seq![x.take(k)] + byte_lines(x.skip(k + 1)));
    } else {
        assert forall|j: int| 0 <= j < x.len() implies d[j] != 10u8 by {
            assert(d[j] == x[j]);
        }
        assert(d[x.len() as int] == 10u8);
        lemma_index_of_newline(d, x.len() as int);
        lemma_byte_lines_single(x);
        assert(d.take(x.len() as int) =~= x);
        assert(d.skip(x.len() as int + 1) =~= y);
    }
}

proof fn lemma_first_newline_exists(x: Seq<u8>, k0: int)
    requires
        0 <= k0 < x.len(),
        x[k0] == 10u8,
    ensures
        0 <= index_of_newline(x) <= k0,
    decreases x.len(),
{
    if x[0] != 10u8 {
        lemma_first_newline_exists(x.drop_first(), k0 - 1);
    }
}

proof fn lemma_first_newline_facts(x: Seq<u8>)
    requires
        0 <= index_of_newline(x),
    ensures
        index_of_newline(x) < x.len(),
        x[index_of_newline(x)] == 10u8,
        forall|j: int| 0 <= j < index_of_newline(x) ==> x[j] != 10u8,
    decreases x.len(),
{
    if x.len() > 0 && x[0] != 10u8 {
        lemma_first_newline_facts(x.drop_first());
        assert forall|j: int| 0 <= j < index_of_newline(x) implies x[j] != 10u8 by {
            if j > 0 {
                assert(x[j] == x.drop_first()[j - 1]);
            }
        }
    }
}

/// The scan of lines `a` then `b`, once `a` ended outside a certificate,
/// goes as the scan of `b` alone, after the certificates of `a`.
proof fn lemma_scan_join(a: Seq<Seq<u8>>, b: Seq<Seq<u8>>)
    requires
        !pem_scan(a).0,
    ensures
        pem_scan(a + b).0 == pem_scan(b).0,
        pem_scan(b).0 ==> pem_scan(a + b).1 == pem_scan(b).1,
        pem_scan(a + b).2 == pem_scan(a).2 + pem_scan(b).2,
    decreases b.len(),
{
    if b.len() == 0 {
        assert(a + b =~= a);
        assert(pem_scan(a).2 + Seq::<Seq<u8>>::empty() =~= pem_scan(a).2);
    } else {
        lemma_scan_join(a, b.drop_last());
        assert((a + b).drop_last() =~= a + b.drop_last());
        assert((a + b).last() == b.last());
        let h = pem_scan(a).2;
        let t = pem_scan(b.drop_last()).2;
        match base64_decoded(pem_scan(b.drop_last()).1) {
            Some(der) => {
                assert((h + t).push(der) =~= h + t.push(der));
            },
            None => {},
        }
    }
}

/// A scan whose last line is an end line ends outside a certificate.
pub proof fn lemma_end_line_closes(ls: Seq<Seq<u8>>)
    requires
        ls.len() > 0,
        starts_with(line_text(ls.last()), PEM_END@),
    ensures
        !pem_scan(ls).0,
{
    reveal_strlit("-----BEGIN CERTIFICATE-----");
    reveal_strlit("-----END CERTIFICATE-----");
    let l = line_text(ls.last());
    if starts_with(l, PEM_BEGIN@) {
        assert(l[5] == PEM_BEGIN@[5]);
        assert(l[5] == PEM_END@[5]);
    }
}

/// The certificates of two PEM texts joined by a line feed are those of
/// the first followed by those of the second, when the first ends outside
/// a certificate (for instance with an end line): every block counts, in
/// order.
pub proof fn lemma_certificates_of_joined_texts(x: Seq<u8>, y: Seq<u8>)
    requires
        !pem_scan(byte_lines(x)).0,
    ensures
        pem_certificates(x + seq![10u8] + y) == pem_certificates(x) + pem_certificates(y),
        pem_certificates(x + seq![10u8] + y).len() == pem_certificates(x).len() + pem_certificates(y).len(),
{
    lemma_byte_lines_join(x, y);
    lemma_scan_join(byte_lines(x), byte_lines(y));
}

/// One certificate block, a begin line, one body line and an end line
/// (none holding a line feed), gives the body's base64 bytes as its one
/// certificate, and nothing when the body is not base64.
pub proof fn lemma_single_block(b: Seq<u8>, m: Seq<u8>, e: Seq<u8>)
    requires
        forall|j: int| 0 <= j < b.len() ==> b[j] != 10u8,
        forall|j: int| 0 <= j < m.len() ==> m[j] != 10u8,
        forall|j: int| 0 <= j < e.len() ==> e[j] != 10u8,
        starts_with(line_text(b), PEM_BEGIN@),
        !starts_with(line_text(m), PEM_BEGIN@),
        !starts_with(line_text(m), PEM_END@),
        starts_with(line_text(e), PEM_END@),
    ensures
        pem_certificates(b + seq![10u8] + m + seq![10u8] + e) == (match base64_decoded(
            trimmed(line_text(m)),
        ) {
            Some(der) => seq![der],
            None => seq![],
        }),
        !pem_scan(byte_lines(b + seq![10u8] + m + seq![10u8] + e)).0,
{
    reveal_strlit("-----BEGIN CERTIFICATE-----");
    reveal_strlit("-----END CERTIFICATE-----");
    let me = m + seq![10u8] + e;
    lemma_byte_lines_single(b);
    lemma_byte_lines_single(m);
    lemma_byte_lines_single(e);
    lemma_byte_lines_join(m, e);
    assert(b + seq![10u8] + m + seq![10u8] + e =~= b + seq![10u8] + me);
    lemma_byte_lines_join(b, me);
    let ls = seq![b, m, e];
    assert(byte_lines(b + seq![10u8] + me) =~= ls);
    let le = line_text(e);
    assert(!starts_with(le, PEM_BEGIN@)) by {
        if starts_with(le, PEM_BEGIN@) {
            assert(le[5] == PEM_BEGIN@[5]);
            assert(le[5] == PEM_END@[5]);
        }
    }
    assert(ls.drop_last() =~= seq![b, m]);
    assert(seq![b, m].drop_last() =~= seq![b]);
    assert(seq![b].drop_last() =~= Seq::<Seq<u8>>::empty());
    assert(pem_scan(Seq::<Seq<u8>>::empty()).2 =~= Seq::<Seq<u8>>::empty());
    assert(pem_scan(seq![b]) == (true, Seq::<char>::empty(), Seq::<Seq<u8>>::empty()));
    assert(Seq::<char>::empty() + trimmed(line_text(m)) =~= trimmed(line_text(m)));
    assert(pem_scan(seq![b, m]) == (true, trimmed(line_text(m)), Seq::<Seq<u8>>::empty()));
}

} // verus!
