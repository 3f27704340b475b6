//! Quotes and the messages that add and fetch them.
use vstd::prelude::*;
use crate::text::{all_ascii, ascii_lowercase, lowercase, to_lowercase};

verus! {

/// A quote and the person who said it.
#[derive(Debug)]
pub struct Quote {
    pub quote: String,
    pub who: String,
}

impl Clone for Quote {
    fn clone(&self) -> (r: Self)
        ensures
            r == *self,
    {
        Quote { quote: self.quote.clone(), who: self.who.clone() }
    }
}

/// Adds one quote to the store.
#[derive(Debug)]
pub struct AddQuote {
    pub quote: String,
    pub who: String,
}

/// Adds several quotes to the store, in order.
#[derive(Debug)]
pub struct AddQuotes {
    pub quotes: Vec<Quote>,
}

/// Asks for a random quote by `who`, or by anyone where `who` is empty.
#[derive(Debug)]
pub struct GetQuote {
    pub who: String,
}

/// Whether `q` was said by `who`, the names compared without regard to case.
pub open spec fn said_by(q: Quote, who: Seq<char>) -> bool {
    lowercase(q.who@) == lowercase(who)
}

/// The positions, in increasing order, of the quotes said by `who`.
pub open spec fn positions_by(quotes: Seq<Quote>, who: Seq<char>) -> Seq<int>
    decreases quotes.len(),
{
    if quotes.len() == 0 {
        Seq::empty()
    } else {
        let earlier = positions_by(quotes.drop_last(), who);
        if said_by(quotes.last(), who) {
            earlier.push(quotes.len() - 1)
        } else {
            earlier
        }
    }
}

/// The positions that `positions_by` lists are exactly those of the quotes
/// said by `who`, in strictly increasing order.
pub proof fn lemma_positions_by(quotes: Seq<Quote>, who: Seq<char>)
    ensures
        forall|i: int|
            0 <= i < positions_by(quotes, who).len() ==> 0 <= #[trigger] positions_by(quotes, who)[i]
                < quotes.len() && said_by(quotes[positions_by(quotes, who)[i]], who),
        forall|i: int, j: int|
            0 <= i < j < positions_by(quotes, who).len() ==> positions_by(quotes, who)[i]
                < positions_by(quotes, who)[j],
        forall|k: int|
            0 <= k < quotes.len() && said_by(#[trigger] quotes[k], who) ==> exists|i: int|
                0 <= i < positions_by(quotes, who).len() && positions_by(quotes, who)[i] == k,
    decreases quotes.len(),
{
    if quotes.len() > 0 {
        let rest = quotes.drop_last();
        lemma_positions_by(rest, who);
        let earlier = positions_by(rest, who);
        let m = positions_by(quotes, who);
        assert forall|i: int| 0 <= i < m.len() implies 0 <= #[trigger] m[i] < quotes.len()
            && said_by(quotes[m[i]], who) by {
            if i < earlier.len() {
                assert(m[i] == earlier[i]);
                assert(quotes[earlier[i]] == rest[earlier[i]]);
            }
        }
        assert forall|k: int| 0 <= k < quotes.len() && said_by(#[trigger] quotes[k], who) implies exists|i: int|
            0 <= i < m.len() && m[i] == k by {
            if k < quotes.len() - 1 {
                assert(rest[k] == quotes[k]);
                let i = choose|i: int| 0 <= i < earlier.len() && earlier[i] == k;
                assert(m[i] == earlier[i]);
            } else {
                assert(m[m.len() - 1] == k);
            }
        }
    }
}

/// The positions of the quotes said by `who`, compared without regard to
/// case, in increasing order.
pub fn quotes_by(quotes: &Vec<Quote>, who: &str) -> (r: Vec<usize>)
    ensures
        r@.len() == positions_by(quotes@, who@).len(),
        forall|i: int| 0 <= i < r@.len() ==> r@[i] as int == #[trigger] positions_by(quotes@, who@)[i],
        forall|k: int|
            0 <= k < quotes@.len() && all_ascii(who@) && all_ascii(#[trigger] quotes@[k].who@) ==> (
            said_by(quotes@[k], who@) <==> ascii_lowercase(quotes@[k].who@) == ascii_lowercase(who@)),
{
    let target = to_lowercase(who);
    let mut r: Vec<usize> = Vec::new();
    let mut i: usize = 0;
    while i < quotes.len()
        invariant
            i <= quotes@.len(),
            target@ == lowercase(who@),
            all_ascii(who@) ==> target@ == ascii_lowercase(who@),
            forall|k: int|
                0 <= k < i && all_ascii(who@) && all_ascii(#[trigger] quotes@[k].who@) ==> (
                said_by(quotes@[k], who@) <==> ascii_lowercase(quotes@[k].who@) == ascii_lowercase(who@)),
            r@.len() == positions_by(quotes@.take(i as int), who@).len(),
            forall|j: int|
                0 <= j < r@.len() ==> r@[j] as int == #[trigger] positions_by(
                    quotes@.take(i as int),
                    who@,
                )[j],
        decreases quotes@.len() - i,
    {
        let name = to_lowercase(quotes[i].who.as_str());
        let ghost before = quotes@.take(i as int);
        let ghost after = quotes@.take(i + 1);
        assert(after.drop_last() =~= before);
        assert(after.last() == quotes@[i as int]);
        if name == target {
            r.push(i);
        }
        i = i + 1;
    }
    assert(quotes@.take(quotes@.len() as int) =~= quotes@);
    r
}

} // verus!
