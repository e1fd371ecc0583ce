//! The query string of a parameter mapping.

use crate::params::{pairs_of, Parameters};
use vstd::prelude::*;

verus! {

/// The text of one pair: name, equals sign, value.
pub open spec fn pair_text(pair: (Seq<char>, Seq<char>)) -> Seq<char> {
    pair.0 + seq!['='] + pair.1
}

/// The texts of `pairs` in their order, with an ampersand between one and
/// the next: none before the first and none after the last.
pub open spec fn query_string(pairs: Seq<(Seq<char>, Seq<char>)>) -> Seq<char>
    decreases pairs.len(),
{
    if pairs.len() == 0 {
        Seq::<char>::empty()
    } else if pairs.len() == 1 {
        pair_text(pairs[0])
    } else {
        query_string(pairs.drop_last()) + seq!['&'] + pair_text(pairs.last())
    }
}

/// Where the text of pair `i` begins in `query_string(pairs)`.
pub open spec fn pair_offset(pairs: Seq<(Seq<char>, Seq<char>)>, i: int) -> int
    decreases pairs.len(),
{
    if pairs.len() <= 1 || i < 0 || i >= pairs.len() {
        0
    } else if i == pairs.len() - 1 {
        query_string(pairs.drop_last()).len() as int + 1
    } else {
        pair_offset(pairs.drop_last(), i)
    }
}

/// The query string holds the text of every pair: the text of pair `i`
/// stands at `pair_offset(pairs, i)`, where the string begins or an
/// ampersand goes before it, and there the string ends or an ampersand
/// follows.
pub proof fn lemma_query_string_holds_pair(pairs: Seq<(Seq<char>, Seq<char>)>, i: int)
    requires
        0 <= i < pairs.len(),
    ensures
        ({
            let text = query_string(pairs);
            let from = pair_offset(pairs, i);
            let to = from + pair_text(pairs[i]).len();
            &&& 0 <= from <= to <= text.len()
            &&& text.subrange(from, to) == pair_text(pairs[i])
            &&& from == 0 <==> i == 0
            &&& from > 0 ==> text[from - 1] == '&'
            &&& to == text.len() <==> i == pairs.len() - 1
            &&& to < text.len() ==> text[to] == '&'
        }),
    decreases pairs.len(),
{
    let text = query_string(pairs);
    let from = pair_offset(pairs, i);
    let to = from + pair_text(pairs[i]).len();
    if pairs.len() == 1 {
        assert(text.subrange(from, to) =~= pair_text(pairs[i]));
    } else {
        let front = pairs.drop_last();
        let head = query_string(front);
        assert(text == head + seq!['&'] + pair_text(pairs.last()));
        if i == pairs.len() - 1 {
            assert(text.subrange(from, to) =~= pair_text(pairs[i]));
        } else {
            lemma_query_string_holds_pair(front, i);
            assert(front[i] == pairs[i]);
            assert(text.subrange(from, to) =~= head.subrange(from, to));
            if to == head.len() {
                assert(text[to] == '&');
            } else {
                assert(text[to] == head[to]);
            }
            if from > 0 {
                assert(text[from - 1] == head[from - 1]);
            }
        }
    }
}

/// Renders `params` as a query string, such as `ticker=AAPL&order=desc`:
/// the pairs in the order in which the mapping keeps them, nothing
/// encoded.
pub fn params_to_query_string(params: &Parameters) -> (query: String)
    ensures
        query@ == query_string(params.pairs()),
{
    let pairs = params.to_vec();
    let mut query = String::new();
    let mut i: usize = 0;
    proof {
        reveal_strlit("&");
        reveal_strlit("=");
    }
    while i < pairs.len()
        invariant
            i <= pairs@.len(),
            pairs_of(pairs@) == params.pairs(),
            query@ == query_string(params.pairs().take(i as int)),
            "&"@ == seq!['&'],
            "="@ == seq!['='],
        decreases pairs@.len() - i,
    {
        let ghost before = params.pairs().take(i as int);
        let ghost after = params.pairs().take(i + 1);
        if i > 0 {
            query.append("&");
        }
        query.append(pairs[i].0.as_str());
        query.append("=");
        query.append(pairs[i].1.as_str());
        proof {
            assert(after.drop_last() =~= before);
            assert(after.last() == params.pairs()[i as int]);
            assert(params.pairs()[i as int] == (pairs@[i as int].0@, pairs@[i as int].1@));
            assert(query@ =~= query_string(after));
        }
        i += 1;
    }
    assert(params.pairs().take(i as int) =~= params.pairs());
    query
}

} // verus!
