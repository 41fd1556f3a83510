//! Setting the clock from the `Date` header of web servers: which servers
//! are asked, and the time taken from an answer.
use vstd::prelude::*;
use crate::discovery::texts;
use crate::text::{chars_of, owned, string_of, trim_chars, trimmed};

verus! {

/// The servers asked when none are configured.
pub open spec fn default_time_urls() -> Seq<Seq<char>> {
    seq![
        "http://www.gstatic.com/generate_204"@,
        "http://cp.cloudflare.com/"@,
        "http://edge-http.microsoft.com/captiveportal/generate_204"@,
    ]
}

/// The pieces of `s` between commas, in order.
pub open spec fn comma_pieces(s: Seq<char>) -> Seq<Seq<char>>
    decreases s.len(),
{
    if s.len() == 0 {
        seq![seq![]]
    } else {
        let rest = comma_pieces(s.drop_last());
        if s.last() == ',' {
            rest.push(seq![])
        } else {
            rest.update(rest.len() - 1, rest.last().push(s.last()))
        }
    }
}

proof fn lemma_comma_pieces_nonempty(s: Seq<char>)
    ensures
        comma_pieces(s).len() >= 1,
    decreases s.len(),
{
    if s.len() > 0 {
        lemma_comma_pieces_nonempty(s.drop_last());
    }
}

/// The pieces without surrounding white space, the empty ones left out.
pub open spec fn kept_pieces(ps: Seq<Seq<char>>) -> Seq<Seq<char>>
    decreases ps.len(),
{
    if ps.len() == 0 {
        seq![]
    } else {
        kept_pieces(ps.drop_last()) + if trimmed(ps.last()).len() > 0 {
            seq![trimmed(ps.last())]
        } else {
            seq![]
        }
    }
}

/// The servers to ask: from the comma-separated list of the environment
/// (each trimmed, empty ones left out), or the default ones.
pub open spec fn time_urls(env_value: Option<Seq<char>>) -> Seq<Seq<char>> {
    match env_value {
        Some(s) => kept_pieces(comma_pieces(s)),
        None => default_time_urls(),
    }
}

fn split_commas(s: &str) -> (r: Vec<Vec<char>>)
    ensures
        r@.map_values(|v: Vec<char>| v@) == comma_pieces(s@),
{
    let cs = chars_of(s);
    let mut r: Vec<Vec<char>> = Vec::new();
    r.push(Vec::new());
    let mut i: usize = 0;
    assert(cs@.subrange(0, 0) =~= Seq::<char>::empty());
    assert(r@.map_values(|v: Vec<char>| v@) =~= seq![Seq::<char>::empty()]);
    while i < cs.len()
        invariant
            i <= cs@.len(),
            cs@ == s@,
            r@.len() >= 1,
            r@.map_values(|v: Vec<char>| v@) == comma_pieces(cs@.subrange(0, i as int)),
        decreases cs@.len() - i,
    {
        let ghost pre = cs@.subrange(0, i + 1);
        assert(pre.drop_last() =~= cs@.subrange(0, i as int));
        proof {
            lemma_comma_pieces_nonempty(cs@.subrange(0, i as int));
        }
        let ghost before = r@.map_values(|v: Vec<char>| v@);
        if cs[i] == ',' {
            r.push(Vec::new());
            assert(r@.map_values(|v: Vec<char>| v@) =~= before.push(Seq::<char>::empty()));
        } else {
            let last = r.len() - 1;
            let mut piece = r.remove(last);
            let ghost pv = piece@;
            piece.push(cs[i]);
            r.push(piece);
            assert(r@.map_values(|v: Vec<char>| v@) =~= before.update(before.len() - 1, pv.push(cs@[i as int])));
        }
        i = i + 1;
    }
    assert(cs@.subrange(0, cs@.len() as int) =~= cs@);
    r
}

/// The servers to ask.
pub fn time_sync_urls(env_value: Option<&str>) -> (r: Vec<String>)
    ensures
        texts(r@) == time_urls(
            match env_value {
                Some(s) => Some(s@),
                None => None,
            },
        ),
{
    match env_value {
        Some(s) => {
            let pieces = split_commas(s);
            let ghost pv = pieces@.map_values(|v: Vec<char>| v@);
            let mut r: Vec<String> = Vec::new();
            let mut i: usize = 0;
            while i < pieces.len()
                invariant
                    i <= pieces@.len(),
                    pv == pieces@.map_values(|v: Vec<char>| v@),
                    texts(r@) == kept_pieces(pv.subrange(0, i as int)),
                decreases pieces@.len() - i,
            {
                assert(pv.subrange(0, i + 1).drop_last() =~= pv.subrange(0, i as int));
                let t = trim_chars(pieces[i].as_slice());
                if t.len() > 0 {
                    let ghost prev = texts(r@);
                    r.push(string_of(t.as_slice()));
                    assert(texts(r@) =~= prev.push(t@));
                } else {
                    assert(kept_pieces(pv.subrange(0, i + 1)) =~= kept_pieces(pv.subrange(0, i as int)));
                }
                i = i + 1;
            }
            assert(pv.subrange(0, pv.len() as int) =~= pv);
            r
        },
        None => {
            let v = vec![
                owned("http://www.gstatic.com/generate_204"),
                owned("http://cp.cloudflare.com/"),
                owned("http://edge-http.microsoft.com/captiveportal/generate_204"),
            ];
            assert(texts(v@) =~= default_time_urls());
            v
        },
    }
}

/// What `httpdate::parse_http_date` gives for a header value: the time it
/// names, in seconds since the Unix epoch, or nothing when it is not an
/// HTTP date.
pub uninterp spec fn http_date_secs(value: Seq<char>) -> Option<u64>;

/// `httpdate::parse_http_date`, as seconds since the Unix epoch (every
/// HTTP date it reads lies after the epoch); the result depends on the
/// value alone.
#[verifier::external_body]
fn parse_http_date(value: &str) -> (r: Option<u64>)
    ensures
        r == http_date_secs(value@),
{
    match httpdate::parse_http_date(value) {
        Ok(t) => t.duration_since(std::time::UNIX_EPOCH).ok().map(|d| d.as_secs()),
        Err(_) => None,
    }
}

/// The time to set, in nanoseconds since the epoch: the server's time plus
/// half the round trip.
pub fn corrected_time(server_secs: u64, rtt_nanos: u128) -> (r: u128)
    requires
        rtt_nanos <= u64::MAX as u128 * 1_000_000_000,
    ensures
        r == server_secs as int * 1_000_000_000 + rtt_nanos / 2,
{
    server_secs as u128 * 1_000_000_000 + rtt_nanos / 2
}

/// The time an answer gives, in nanoseconds since the epoch: nothing
/// without a `Date` header or when it is not an HTTP date; otherwise the
/// server's time plus half the round trip.
pub fn time_from_answer(date_header: Option<&str>, rtt_nanos: u128) -> (r: Option<u128>)
    requires
        rtt_nanos <= u64::MAX as u128 * 1_000_000_000,
    ensures
        match date_header {
            None => r is None,
            Some(d) => match http_date_secs(d@) {
                None => r is None,
                Some(s) => r == Some((s as int * 1_000_000_000 + rtt_nanos / 2) as u128),
            },
        },
{
    match date_header {
        None => None,
        Some(d) => match parse_http_date(d) {
            None => None,
            Some(s) => Some(corrected_time(s, rtt_nanos)),
        },
    }
}

} // verus!
