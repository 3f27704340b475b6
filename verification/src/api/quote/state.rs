//! A shared list of quotes that hands them out in any of the API's shapes.
use vstd::prelude::*;
use crate::chance::{choose_from, thread_rng};
use crate::models::quote::{lemma_positions_by, positions_by, quotes_by, said_by};
use crate::models::StateView;

verus! {

/// The quotes this state holds.
pub type Quote = crate::models::Quote;

/// A list of quotes, in the order they were added.
pub struct QuotesState {
    pub quotes: Vec<Quote>,
}

impl QuotesState {
    /// A state without quotes.
    pub fn new() -> (s: Self)
        ensures
            s.quotes@ == Seq::<Quote>::empty(),
    {
        QuotesState { quotes: Vec::new() }
    }

    /// Adds the quote that `quote` shows after those already held.
    pub fn add_quote<T: StateView<Quote>>(&mut self, quote: &T)
        ensures
            final(self).quotes@.len() == old(self).quotes@.len() + 1,
            final(self).quotes@.drop_last() == old(self).quotes@,
            quote.represents(final(self).quotes@.last()),
    {
        let q = T::to_state(quote);
        self.quotes.push(q);
        proof {
            assert(self.quotes@.drop_last() =~= old(self).quotes@);
        }
    }

    /// A random quote, shown as `T`; `None` exactly when there are none.
    pub fn quote<T: StateView<Quote>>(&self) -> (r: Option<T>)
        ensures
            r is None <==> self.quotes@.len() == 0,
            r matches Some(t) ==> exists|i: int|
                0 <= i < self.quotes@.len() && t.represents(#[trigger] self.quotes@[i]),
    {
        let mut rng = thread_rng();
        match choose_from(&self.quotes, &mut rng) {
            Some(q) => Some(T::from_state(q)),
            None => None,
        }
    }

    /// A random quote said by `person`, names compared without regard to
    /// case, shown as `T`; `None` exactly when there is no such quote.
    pub fn quote_by<T: StateView<Quote>>(&self, person: &str) -> (r: Option<T>)
        ensures
            r is None <==> !(exists|i: int|
                0 <= i < self.quotes@.len() && said_by(#[trigger] self.quotes@[i], person@)),
            r matches Some(t) ==> exists|i: int|
                0 <= i < self.quotes@.len() && said_by(self.quotes@[i], person@) && t.represents(
                    #[trigger] self.quotes@[i],
                ),
    {
        let positions = quotes_by(&self.quotes, person);
        proof {
            lemma_positions_by(self.quotes@, person@);
        }
        let mut rng = thread_rng();
        match choose_from(&positions, &mut rng) {
            Some(p) => {
                let ghost m = positions_by(self.quotes@, person@);
                let ghost k = choose|k: int| 0 <= k < positions@.len() && positions@[k] == *p;
                assert(m[k] == *p as int);
                let t = T::from_state(&self.quotes[*p]);
                assert(t.represents(self.quotes@[*p as int]));
                Some(t)
            },
            None => {
                proof {
                    if exists|i: int| 0 <= i < self.quotes@.len() && said_by(#[trigger] self.quotes@[i], person@) {
                        let i = choose|i: int| 0 <= i < self.quotes@.len() && said_by(#[trigger] self.quotes@[i], person@);
                        assert(said_by(self.quotes@[i], person@));
                    }
                }
                None
            },
        }
    }
}

} // verus!
