//! The origins a browser may read a reply from, as configured by a
//! comma-separated list.

use vstd::prelude::*;
use crate::text::{chars_of, trim, trimmed, unicode_white_space, lemma_trimmed_edges};

verus! {

/// `s` cut at every `sep`, as `str::split` cuts it: `k` separators give
/// `k + 1` pieces, empty ones included.
pub open spec fn split_on(s: Seq<char>, sep: char) -> Seq<Seq<char>>
    decreases s.len(),
{
    if s.len() == 0 {
        seq![Seq::<char>::empty()]
    } else {
        let prev = split_on(s.drop_last(), sep);
        if s.last() == sep {
            prev.push(Seq::<char>::empty())
        } else {
            prev.update(prev.len() - 1, prev.last().push(s.last()))
        }
    }
}

/// A character that `http::HeaderValue::from_str` accepts: a tab, or any
/// character from the space upwards except DEL.
pub open spec fn header_value_char(c: char) -> bool {
    c == '\t' || (c as u32 >= 32 && c as u32 != 127)
}

/// Text that `http::HeaderValue::from_str` accepts.
pub open spec fn header_value_text(s: Seq<char>) -> bool {
    forall|i: int| 0 <= i < s.len() ==> header_value_char(#[trigger] s[i])
}

/// `str::parse::<http::HeaderValue>`, reduced to whether it succeeds.
///
/// `HeaderValue::from_str` checks every byte of the UTF-8 encoding and accepts
/// a byte `b` when `b >= 32 && b != 127 || b == b'\t'`; every byte of a
/// character beyond ASCII is at least `0x80`, so the check comes down to the
/// characters above.
#[verifier::external_body]
fn header_value_accepts(s: &str) -> (accepted: bool)
    ensures
        accepted == header_value_text(s@),
{
    s.parse::<axum::http::HeaderValue>().is_ok()
}

/// The trimmed pieces that are valid header values, in order.
pub open spec fn accepted_trimmed(pieces: Seq<Seq<char>>) -> Seq<Seq<char>>
    decreases pieces.len(),
{
    if pieces.len() == 0 {
        Seq::<Seq<char>>::empty()
    } else {
        let rest = accepted_trimmed(pieces.drop_last());
        let t = trimmed(pieces.last());
        if header_value_text(t) {
            rest.push(t)
        } else {
            rest
        }
    }
}

/// The origins a comma-separated list names: each entry trimmed, and those
/// that cannot be a header value left out.
pub open spec fn origin_list(list: Seq<char>) -> Seq<Seq<char>> {
    accepted_trimmed(split_on(list, ','))
}

/// The pieces of `s` between the commas.
fn split_commas(s: &str) -> (pieces: Vec<String>)
    ensures
        pieces.len() == split_on(s@, ',').len(),
        forall|i: int| 0 <= i < pieces.len() ==> #[trigger] pieces[i]@ == split_on(s@, ',')[i],
{
    let chars = chars_of(s);
    let len = chars.len();
    let mut pieces: Vec<String> = Vec::new();
    let ghost mut done: Seq<Seq<char>> = Seq::empty();
    let mut start: usize = 0;
    let mut k: usize = 0;
    proof {
        assert(s@.take(0) =~= Seq::<char>::empty());
        assert(s@.subrange(0, 0) =~= Seq::<char>::empty());
        assert(done.push(s@.subrange(0, 0)) =~= seq![Seq::<char>::empty()]);
    }
    while k < len
        invariant
            chars@ == s@,
            len == chars.len(),
            start <= k <= len,
            pieces.len() == done.len(),
            forall|i: int| 0 <= i < pieces.len() ==> #[trigger] pieces[i]@ == done[i],
            split_on(s@.take(k as int), ',') == done.push(s@.subrange(start as int, k as int)),
        decreases len - k,
    {
        let c = chars[k];
        proof {
            assert(s@.take(k + 1).drop_last() =~= s@.take(k as int));
            assert(s@.take(k + 1).last() == c);
        }
        if c == ',' {
            let piece = String::from_str(s.substring_char(start, k));
            pieces.push(piece);
            proof {
                done = done.push(s@.subrange(start as int, k as int));
                assert(s@.subrange((k + 1) as int, (k + 1) as int) =~= Seq::<char>::empty());
            }
            start = k + 1;
        } else {
            proof {
                assert(s@.subrange(start as int, k as int).push(c) =~= s@.subrange(
                    start as int,
                    (k + 1) as int,
                ));
            }
        }
        k += 1;
    }
    let last = String::from_str(s.substring_char(start, len));
    pieces.push(last);
    proof {
        assert(s@.take(len as int) =~= s@);
        done = done.push(s@.subrange(start as int, len as int));
    }
    pieces
}

/// The origins that a comma-separated list allows: every entry is trimmed,
/// and an entry that is not a valid header value is skipped.
pub fn allowed_origins(list: &str) -> (origins: Vec<String>)
    ensures
        origins.len() == origin_list(list@).len(),
        forall|i: int|
            0 <= i < origins.len() ==> #[trigger] origins[i]@ == origin_list(list@)[i],
{
    let pieces = split_commas(list);
    let ghost all = split_on(list@, ',');
    let mut origins: Vec<String> = Vec::new();
    let mut i: usize = 0;
    while i < pieces.len()
        invariant
            pieces.len() == all.len(),
            forall|j: int| 0 <= j < pieces.len() ==> #[trigger] pieces[j]@ == all[j],
            i <= pieces.len(),
            origins.len() == accepted_trimmed(all.take(i as int)).len(),
            forall|j: int|
                0 <= j < origins.len() ==> #[trigger] origins[j]@ == accepted_trimmed(
                    all.take(i as int),
                )[j],
        decreases pieces.len() - i,
    {
        let t = trim(pieces[i].as_str());
        proof {
            assert(all.take(i + 1).drop_last() =~= all.take(i as int));
            assert(all.take(i + 1).last() == all[i as int]);
        }
        if header_value_accepts(t.as_str()) {
            origins.push(t);
        }
        i += 1;
    }
    proof {
        assert(all.take(pieces.len() as int) =~= all);
    }
    origins
}

/// Every origin that a list allows can be sent as a header value, whatever
/// the list holds.
pub proof fn lemma_origins_are_header_values(pieces: Seq<Seq<char>>)
    ensures
        forall|i: int|
            0 <= i < accepted_trimmed(pieces).len() ==> header_value_text(
                #[trigger] accepted_trimmed(pieces)[i],
            ),
    decreases pieces.len(),
{
    if pieces.len() > 0 {
        let rest = accepted_trimmed(pieces.drop_last());
        lemma_origins_are_header_values(pieces.drop_last());
        assert forall|i: int|
            0 <= i < accepted_trimmed(pieces).len() implies header_value_text(
            #[trigger] accepted_trimmed(pieces)[i],
        ) by {
            if i < rest.len() {
                assert(accepted_trimmed(pieces)[i] == rest[i]);
            }
        }
    }
}

proof fn lemma_accepted_trimmed_edges(pieces: Seq<Seq<char>>)
    ensures
        forall|i: int|
            0 <= i < accepted_trimmed(pieces).len() ==> (#[trigger] accepted_trimmed(pieces)[i]).len()
                == 0 || (!unicode_white_space(accepted_trimmed(pieces)[i][0])
                && !unicode_white_space(accepted_trimmed(pieces)[i].last())),
    decreases pieces.len(),
{
    if pieces.len() > 0 {
        let rest = accepted_trimmed(pieces.drop_last());
        lemma_accepted_trimmed_edges(pieces.drop_last());
        lemma_trimmed_edges(pieces.last());
        assert forall|i: int| 0 <= i < accepted_trimmed(pieces).len() implies (
        #[trigger] accepted_trimmed(pieces)[i]).len() == 0 || (!unicode_white_space(
            accepted_trimmed(pieces)[i][0],
        ) && !unicode_white_space(accepted_trimmed(pieces)[i].last())) by {
            if i < rest.len() {
                assert(accepted_trimmed(pieces)[i] == rest[i]);
            }
        }
    }
}

/// Every allowed origin is trimmed on both sides: none begins or ends with
/// white space, so each can match a browser's `Origin` header as written.
pub proof fn lemma_origins_are_trimmed(list: Seq<char>)
    ensures
        forall|i: int|
            0 <= i < origin_list(list).len() ==> (#[trigger] origin_list(list)[i]).len() == 0 || (
            !unicode_white_space(origin_list(list)[i][0]) && !unicode_white_space(
                origin_list(list)[i].last(),
            )),
{
    lemma_accepted_trimmed_edges(split_on(list, ','));
}

} // verus!
