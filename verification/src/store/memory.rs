//! The in-memory quote store.
use vstd::prelude::*;
use crate::api::error::{error_view, APIError, APIErrorView};
use crate::chance::{choose_from, thread_rng};
use crate::clock::{utc_now, Timestamp};
use crate::models::quote::{lemma_positions_by, positions_by, quotes_by, said_by};
use crate::text::{all_ascii, ascii_lowercase};
use crate::models::{AddQuote, AddQuotes, GetHealth, GetQuote, Health, Quote};

verus! {

/// The answer when no quote matches a request.
pub open spec fn no_quotes_error() -> APIErrorView {
    error_view(
        404,
        "Not Found"@,
        "There are no quotes available right now, please add one and try again."@,
    )
}

/// Whether a request for quotes by `who` may be answered with `q`: any quote
/// where `who` is empty, otherwise one said by `who`, without regard to case.
pub open spec fn selects(who: Seq<char>, q: Quote) -> bool {
    who.len() == 0 || said_by(q, who)
}

/// Whether some quote in `quotes` answers a request for quotes by `who`.
pub open spec fn has_quote_for(quotes: Seq<Quote>, who: Seq<char>) -> bool {
    exists|i: int| 0 <= i < quotes.len() && selects(who, #[trigger] quotes[i])
}

/// An empty store has no quote for any request: every request is answered
/// with the "no quotes" error.
pub proof fn lemma_empty_store_has_no_quote(who: Seq<char>)
    ensures
        !has_quote_for(Seq::<Quote>::empty(), who),
{
}

/// Once a quote is added, every request that it answers finds a quote.
pub proof fn lemma_added_quote_is_found(quotes: Seq<Quote>, q: Quote, who: Seq<char>)
    requires
        selects(who, q),
    ensures
        has_quote_for(quotes.push(q), who),
{
    assert(quotes.push(q)[quotes.len() as int] == q);
}

/// Adding quotes never takes an answer away: a request answered before is
/// answered after.
pub proof fn lemma_adding_keeps_answers(quotes: Seq<Quote>, added: Seq<Quote>, who: Seq<char>)
    requires
        has_quote_for(quotes, who),
    ensures
        has_quote_for(quotes + added, who),
{
    let i = choose|i: int| 0 <= i < quotes.len() && selects(who, #[trigger] quotes[i]);
    assert((quotes + added)[i] == quotes[i]);
}

/// Each quote of a batch, once added, answers the requests that it matches.
pub proof fn lemma_added_batch_is_found(quotes: Seq<Quote>, added: Seq<Quote>, j: int, who: Seq<char>)
    requires
        0 <= j < added.len(),
        selects(who, added[j]),
    ensures
        has_quote_for(quotes + added, who),
{
    assert((quotes + added)[quotes.len() + j] == added[j]);
}

/// A request for quotes by anyone is answered exactly when the store holds a
/// quote.
pub proof fn lemma_anyone_answered_iff_nonempty(quotes: Seq<Quote>)
    ensures
        has_quote_for(quotes, Seq::<char>::empty()) <==> quotes.len() > 0,
{
    if quotes.len() > 0 {
        assert(selects(Seq::<char>::empty(), quotes[0]));
    }
}

/// Names that differ only in case select the same quotes.
pub proof fn lemma_selection_ignores_case(w1: Seq<char>, w2: Seq<char>, q: Quote)
    requires
        w1.len() > 0,
        w2.len() > 0,
        crate::text::lowercase(w1) == crate::text::lowercase(w2),
    ensures
        selects(w1, q) == selects(w2, q),
{
}

/// Whether some quote in `quotes` is by a name of ASCII characters that
/// equals `who`, also of ASCII characters, but for the case of its letters.
pub open spec fn has_ascii_match(quotes: Seq<Quote>, who: Seq<char>) -> bool {
    exists|i: int|
        0 <= i < quotes.len() && all_ascii(who) && all_ascii(#[trigger] quotes[i].who@) && ascii_lowercase(
            quotes[i].who@,
        ) == ascii_lowercase(who)
}

/// The state of a store started at `now`: no quotes yet.
pub open spec fn initial_state(now: Timestamp) -> (Seq<Quote>, Timestamp) {
    (Seq::empty(), now)
}

/// The state after a batch of quotes is added: the quotes follow those held,
/// and the start time stays.
pub open spec fn add_batch(s: (Seq<Quote>, Timestamp), batch: Seq<Quote>) -> (Seq<Quote>, Timestamp) {
    (s.0 + batch, s.1)
}

/// The state after the batches are added, in order.
pub open spec fn add_batches(s: (Seq<Quote>, Timestamp), batches: Seq<Seq<Quote>>) -> (Seq<Quote>, Timestamp)
    decreases batches.len(),
{
    if batches.len() == 0 {
        s
    } else {
        add_batch(add_batches(s, batches.drop_last()), batches.last())
    }
}

/// The health that a store in state `s` reports.
pub open spec fn health_of(s: (Seq<Quote>, Timestamp)) -> Health {
    Health { ok: true, started_at: s.1 }
}

/// However many quotes are added, and in whatever batches, a store keeps its
/// start time, so its health is always "working, started when it was
/// created"; and it holds the quotes of all batches, in order.
pub proof fn lemma_health_after_adds(now: Timestamp, batches: Seq<Seq<Quote>>)
    ensures
        add_batches(initial_state(now), batches).1 == now,
        health_of(add_batches(initial_state(now), batches)) == (Health { ok: true, started_at: now }),
        add_batches(initial_state(now), batches).0 == batches.fold_left(
            Seq::<Quote>::empty(),
            |acc: Seq<Quote>, b: Seq<Quote>| acc + b,
        ),
    decreases batches.len(),
{
    if batches.len() > 0 {
        lemma_health_after_adds(now, batches.drop_last());
    }
}

/// A quote whose author's name, in ASCII, equals the requested name but for
/// the case of its letters is found once it is added, alone or in a batch.
pub proof fn lemma_ascii_case_variant_found(quotes: Seq<Quote>, added: Seq<Quote>, j: int, who: Seq<char>)
    requires
        0 <= j < added.len(),
        all_ascii(who),
        all_ascii(added[j].who@),
        ascii_lowercase(added[j].who@) == ascii_lowercase(who),
    ensures
        has_ascii_match(quotes + added, who),
{
    assert((quotes + added)[quotes.len() + j] == added[j]);
}

/// The store's answer once a quote has been picked: that quote, or the
/// "no quotes" error where none was found.
pub fn quote_from_choice(chosen: Option<&Quote>) -> (r: Result<Quote, APIError>)
    ensures
        match chosen {
            Some(q) => r == Ok::<Quote, APIError>(*q),
            None => r matches Err(e) && e@ == no_quotes_error(),
        },
{
    match chosen {
        Some(q) => Ok(q.clone()),
        None => Err(
            APIError::new(
                404,
                "Not Found",
                "There are no quotes available right now, please add one and try again.",
            ),
        ),
    }
}

/// The quotes the service knows, in the order they were added, and the time
/// at which the store was started.
pub struct MemoryStore {
    quotes: Vec<Quote>,
    started_at: Timestamp,
}

impl View for MemoryStore {
    type V = Seq<Quote>;

    closed spec fn view(&self) -> Seq<Quote> {
        self.quotes@
    }
}

impl MemoryStore {
    /// When the store was started.
    pub closed spec fn start_time(&self) -> Timestamp {
        self.started_at
    }

    /// What the store holds: its quotes, in order, and its start time.
    pub open spec fn state(&self) -> (Seq<Quote>, Timestamp) {
        (self@, self.start_time())
    }

    /// An empty store, started at `now`.
    pub fn started_at(now: Timestamp) -> (s: Self)
        ensures
            s@ == Seq::<Quote>::empty(),
            s.start_time() == now,
            s.state() == initial_state(now),
    {
        MemoryStore { quotes: Vec::new(), started_at: now }
    }

    /// An empty store, started now: at the time that the clock reads.
    pub fn new() -> (s: Self)
        ensures
            s@ == Seq::<Quote>::empty(),
    {
        let now = utc_now();
        MemoryStore::started_at(now)
    }

    /// Adds the quote after those already held.
    pub fn add_quote(&mut self, msg: AddQuote) -> (r: Result<(), APIError>)
        ensures
            r is Ok,
            final(self)@ == old(self)@.push(Quote { quote: msg.quote, who: msg.who }),
            final(self).start_time() == old(self).start_time(),
            final(self).state() == add_batch(
                old(self).state(),
                seq![Quote { quote: msg.quote, who: msg.who }],
            ),
    {
        self.quotes.push(Quote { quote: msg.quote, who: msg.who });
        proof {
            assert(self@ =~= old(self)@ + seq![Quote { quote: msg.quote, who: msg.who }]);
        }
        Ok(())
    }

    /// Adds the quotes, in order, after those already held.
    pub fn add_quotes(&mut self, msg: AddQuotes) -> (r: Result<(), APIError>)
        ensures
            r is Ok,
            final(self)@ == old(self)@ + msg.quotes@,
            final(self).start_time() == old(self).start_time(),
            final(self).state() == add_batch(old(self).state(), msg.quotes@),
    {
        let mut quotes = msg.quotes;
        self.quotes.append(&mut quotes);
        Ok(())
    }

    /// A random quote by `msg.who` (by anyone where it is empty), names
    /// compared without regard to case; the "no quotes" error exactly when
    /// the store holds no such quote. Names of ASCII characters that differ
    /// only in the case of their letters always find each other's quotes.
    pub fn get_quote(&self, msg: &GetQuote) -> (r: Result<Quote, APIError>)
        ensures
            r is Ok <==> has_quote_for(self@, msg.who@),
            has_ascii_match(self@, msg.who@) ==> r is Ok,
            r matches Ok(q) ==> exists|i: int|
                0 <= i < self@.len() && self@[i] == q && selects(msg.who@, self@[i]),
            r matches Err(e) ==> e@ == no_quotes_error(),
    {
        let mut rng = thread_rng();
        if msg.who.as_str().is_empty() {
            let chosen = choose_from(&self.quotes, &mut rng);
            proof {
                if has_ascii_match(self@, msg.who@) {
                    assert(self@.len() > 0);
                    assert(selects(msg.who@, self@[0]));
                }
                if has_quote_for(self@, msg.who@) {
                    assert(self@.len() > 0);
                }
            }
            quote_from_choice(chosen)
        } else {
            let positions = quotes_by(&self.quotes, msg.who.as_str());
            proof {
                lemma_positions_by(self@, msg.who@);
                if has_ascii_match(self@, msg.who@) {
                    let i = choose|i: int|
                        0 <= i < self@.len() && all_ascii(msg.who@) && all_ascii(#[trigger] self@[i].who@)
                            && ascii_lowercase(self@[i].who@) == ascii_lowercase(msg.who@);
                    assert(said_by(self@[i], msg.who@));
                    assert(selects(msg.who@, self@[i]));
                }
            }
            let chosen = choose_from(&positions, &mut rng);
            match chosen {
                Some(p) => {
                    let ghost m = positions_by(self@, msg.who@);
                    let ghost k = choose|k: int| 0 <= k < positions@.len() && positions@[k] == *p;
                    assert(m[k] == *p as int);
                    let q = &self.quotes[*p];
                    quote_from_choice(Some(q))
                },
                None => {
                    proof {
                        if has_quote_for(self@, msg.who@) {
                            let i = choose|i: int| 0 <= i < self@.len() && selects(msg.who@, #[trigger] self@[i]);
                            assert(said_by(self@[i], msg.who@));
                        }
                    }
                    quote_from_choice(None)
                },
            }
        }
    }

    /// The service's health: always working, started when the store was.
    pub fn get_health(&self, msg: &GetHealth) -> (r: Result<Health, APIError>)
        ensures
            r == Ok::<Health, APIError>(Health { ok: true, started_at: self.start_time() }),
            r == Ok::<Health, APIError>(health_of(self.state())),
    {
        Ok(Health { ok: true, started_at: self.started_at })
    }
}

} // verus!
