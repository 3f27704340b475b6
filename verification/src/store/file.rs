//! Loading quotes from a JSON file.
use vstd::prelude::*;
use vstd::std_specs::convert::FromSpec;
use vstd::std_specs::convert::FromSpecImpl;
use vstd::std_specs::convert::IntoSpec;
use vstd::std_specs::convert::IntoSpecImpl;
use crate::api::error::{error_view, APIError, APIErrorView};
use crate::models::{AddQuotes, Quote};
use crate::store::memory::{has_ascii_match, has_quote_for, lemma_added_batch_is_found, lemma_ascii_case_variant_found};
use crate::text::{all_ascii, ascii_lowercase};

verus! {

/// Where the quotes file is.
#[derive(Debug)]
pub struct FileLoader {
    pub path: String,
}

/// A quote as the quotes file holds it.
#[derive(Debug)]
pub struct FileQuoteV1 {
    pub quote: String,
    pub who: String,
}

impl Clone for FileQuoteV1 {
    fn clone(&self) -> (r: Self)
        ensures
            r == *self,
    {
        FileQuoteV1 { quote: self.quote.clone(), who: self.who.clone() }
    }
}

impl Into<Quote> for FileQuoteV1 {
    fn into(self) -> (r: Quote) {
        Quote { quote: self.quote, who: self.who }
    }
}

impl IntoSpecImpl<Quote> for FileQuoteV1 {
    open spec fn obeys_into_spec() -> bool {
        true
    }

    open spec fn into_spec(self) -> Quote {
        Quote { quote: self.quote, who: self.who }
    }
}

impl From<Quote> for FileQuoteV1 {
    fn from(state: Quote) -> (r: Self)
        ensures
            r.quote@ == state.quote@,
            r.who@ == state.who@,
    {
        FileQuoteV1 { quote: state.quote, who: state.who }
    }
}

impl FromSpecImpl<Quote> for FileQuoteV1 {
    open spec fn obeys_from_spec() -> bool {
        true
    }

    open spec fn from_spec(state: Quote) -> FileQuoteV1 {
        FileQuoteV1 { quote: state.quote, who: state.who }
    }
}

/// Storing a quote in the file's form and reading it back gives the same
/// quote, and the reverse holds too.
pub proof fn lemma_file_quote_roundtrip(q: Quote, f: FileQuoteV1)
    ensures
        <FileQuoteV1 as IntoSpec<Quote>>::into_spec(<FileQuoteV1 as FromSpec<Quote>>::from_spec(q)) == q,
        <FileQuoteV1 as FromSpec<Quote>>::from_spec(<FileQuoteV1 as IntoSpec<Quote>>::into_spec(f)) == f,
{
}

/// Each quote read from the file keeps its text and its author, in its
/// place: the store's form of the file's quotes has the same length, and its
/// `i`-th quote has the text and author of the file's `i`-th quote.
pub proof fn lemma_file_quotes_keep_fields(qs: Seq<FileQuoteV1>)
    ensures
        file_quotes(qs).len() == qs.len(),
        forall|i: int|
            0 <= i < qs.len() ==> (#[trigger] file_quotes(qs)[i]).quote@ == qs[i].quote@
                && file_quotes(qs)[i].who@ == qs[i].who@,
{
}

/// Why the quotes file could not be read.
#[derive(Clone, Copy, Debug, PartialEq, Eq, Structural)]
pub enum FileLoadError {
    /// The file could not be opened.
    Open,
    /// The file is not a JSON list of quotes.
    Parse,
}

/// The answer when the quotes file cannot be read.
pub open spec fn file_unavailable_error() -> APIErrorView {
    error_view(
        503,
        "Service Unavailable"@,
        "We could not load the quotes needed to give you your daily dose of fun, we're so sorry."@,
    )
}

/// The quotes of a file, in the store's form.
pub open spec fn file_quotes(quotes: Seq<FileQuoteV1>) -> Seq<Quote> {
    quotes.map_values(|f: FileQuoteV1| <FileQuoteV1 as IntoSpec<Quote>>::into_spec(f))
}

/// Once a file's quotes are added to a store, a request for quotes by
/// anyone is answered, and so is a request by the author of any of them, by
/// that name or, for ASCII names, by one that differs only in the case of its
/// letters.
pub proof fn lemma_loaded_file_quote_found(quotes: Seq<Quote>, loaded: Seq<FileQuoteV1>, j: int, who: Seq<char>)
    requires
        0 <= j < loaded.len(),
    ensures
        has_quote_for(quotes + file_quotes(loaded), Seq::<char>::empty()),
        has_quote_for(quotes + file_quotes(loaded), loaded[j].who@),
        all_ascii(who) && all_ascii(loaded[j].who@) && ascii_lowercase(loaded[j].who@) == ascii_lowercase(who)
            ==> has_ascii_match(quotes + file_quotes(loaded), who),
{
    let added = file_quotes(loaded);
    assert(added[j].who@ == loaded[j].who@);
    lemma_added_batch_is_found(quotes, added, j, Seq::<char>::empty());
    lemma_added_batch_is_found(quotes, added, j, loaded[j].who@);
    if all_ascii(who) && all_ascii(loaded[j].who@) && ascii_lowercase(loaded[j].who@) == ascii_lowercase(who) {
        lemma_ascii_case_variant_found(quotes, added, j, who);
    }
}

impl FileLoader {
    /// What to add to the store, given what reading the quotes file gave:
    /// its quotes, in order, or the "service unavailable" error (503) where
    /// the file could not be opened or parsed.
    pub fn load_quotes(&self, contents: Result<Vec<FileQuoteV1>, FileLoadError>) -> (r: Result<
        AddQuotes,
        APIError,
    >)
        ensures
            r is Ok <==> contents is Ok,
            contents matches Ok(qs) ==> r matches Ok(msg) && msg.quotes@ == file_quotes(qs@),
            contents matches Ok(qs) ==> r matches Ok(msg) && msg.quotes@.len() == qs@.len() && (
            forall|i: int|
                0 <= i < qs@.len() ==> (#[trigger] msg.quotes@[i]).quote@ == qs@[i].quote@
                    && msg.quotes@[i].who@ == qs@[i].who@),
            r matches Err(e) ==> e@ == file_unavailable_error(),
    {
        match contents {
            Ok(fc) => {
                let mut quotes: Vec<Quote> = Vec::new();
                let mut i: usize = 0;
                while i < fc.len()
                    invariant
                        i <= fc@.len(),
                        quotes@ =~= file_quotes(fc@.take(i as int)),
                    decreases fc@.len() - i,
                {
                    let q: Quote = fc[i].clone().into();
                    quotes.push(q);
                    proof {
                        assert(fc@.take(i + 1) =~= fc@.take(i as int).push(fc@[i as int]));
                    }
                    i = i + 1;
                }
                proof {
                    assert(fc@.take(fc@.len() as int) =~= fc@);
                    lemma_file_quotes_keep_fields(fc@);
                }
                Ok(AddQuotes { quotes })
            },
            Err(_) => Err(
                APIError::new(
                    503,
                    "Service Unavailable",
                    "We could not load the quotes needed to give you your daily dose of fun, we're so sorry.",
                ),
            ),
        }
    }
}

} // verus!
