//! Loading quotes from a JSON file in Azure blob storage.
use vstd::prelude::*;
use vstd::std_specs::convert::FromSpec;
use vstd::std_specs::convert::FromSpecImpl;
use crate::api::error::{error_view, APIError, APIErrorView};
use crate::models::{AddQuotes, Quote};

verus! {

/// Where the quotes blob is: the storage account, the container and the
/// blob's path in it.
#[derive(Debug)]
pub struct BlobLoader {
    pub account_name: String,
    pub container: String,
    pub path: String,
}

/// A quote as the quotes blob holds it.
#[derive(Debug)]
pub struct BlobQuoteV1 {
    pub quote: String,
    pub who: String,
}

impl Clone for BlobQuoteV1 {
    fn clone(&self) -> (r: Self)
        ensures
            r == *self,
    {
        BlobQuoteV1 { quote: self.quote.clone(), who: self.who.clone() }
    }
}

impl From<BlobQuoteV1> for Quote {
    fn from(val: BlobQuoteV1) -> (r: Self)
        ensures
            r.quote@ == val.quote@,
            r.who@ == val.who@,
    {
        Quote { quote: val.quote.clone(), who: val.who }
    }
}

impl FromSpecImpl<BlobQuoteV1> for Quote {
    open spec fn obeys_from_spec() -> bool {
        true
    }

    open spec fn from_spec(val: BlobQuoteV1) -> Quote {
        Quote { quote: val.quote, who: val.who }
    }
}

impl From<Quote> for BlobQuoteV1 {
    fn from(state: Quote) -> (r: Self)
        ensures
            r.quote@ == state.quote@,
            r.who@ == state.who@,
    {
        BlobQuoteV1 { quote: state.quote.clone(), who: state.who }
    }
}

impl FromSpecImpl<Quote> for BlobQuoteV1 {
    open spec fn obeys_from_spec() -> bool {
        true
    }

    open spec fn from_spec(state: Quote) -> BlobQuoteV1 {
        BlobQuoteV1 { quote: state.quote, who: state.who }
    }
}

/// Storing a quote in the blob's form and reading it back gives the same
/// quote, and the reverse holds too.
pub proof fn lemma_blob_quote_roundtrip(q: Quote, b: BlobQuoteV1)
    ensures
        <Quote as FromSpec<BlobQuoteV1>>::from_spec(<BlobQuoteV1 as FromSpec<Quote>>::from_spec(q)) == q,
        <BlobQuoteV1 as FromSpec<Quote>>::from_spec(<Quote as FromSpec<BlobQuoteV1>>::from_spec(b)) == b,
{
}

/// Each quote read from the blob keeps its text and its author, in its
/// place: the store's form of the blob's quotes has the same length, and its
/// `i`-th quote has the text and author of the blob's `i`-th quote.
pub proof fn lemma_blob_quotes_keep_fields(qs: Seq<BlobQuoteV1>)
    ensures
        blob_quotes(qs).len() == qs.len(),
        forall|i: int|
            0 <= i < qs.len() ==> (#[trigger] blob_quotes(qs)[i]).quote@ == qs[i].quote@
                && blob_quotes(qs)[i].who@ == qs[i].who@,
{
}

/// Why the quotes blob could not be read.
#[derive(Clone, Copy, Debug, PartialEq, Eq, Structural)]
pub enum BlobLoadError {
    /// No credential for the storage account could be had.
    Credential,
    /// No client for the blob could be made.
    Client,
    /// The blob could not be fetched.
    Download,
    /// The blob's body could not be read.
    Read,
    /// The blob is not a JSON list of quotes.
    Parse,
}

/// The answer when the storage client cannot be set up.
pub open spec fn blob_setup_error() -> APIErrorView {
    error_view(
        503,
        "Service Unavailable"@,
        "We're sorry, but we can't seem to load quotes right now. Please try again later..."@,
    )
}

/// The answer when the quotes blob cannot be fetched, read or parsed.
pub open spec fn blob_fetch_error() -> APIErrorView {
    error_view(
        503,
        "Service Unavailable"@,
        "We're sorry, but we can't seem to find any quotes around here right now. Please check back soon."@,
    )
}

/// The error answered for each way that reading the blob can fail.
pub open spec fn blob_error(e: BlobLoadError) -> APIErrorView {
    match e {
        BlobLoadError::Credential | BlobLoadError::Client => blob_setup_error(),
        _ => blob_fetch_error(),
    }
}

/// The quotes of a blob, in the store's form.
pub open spec fn blob_quotes(quotes: Seq<BlobQuoteV1>) -> Seq<Quote> {
    quotes.map_values(|b: BlobQuoteV1| <Quote as FromSpec<BlobQuoteV1>>::from_spec(b))
}

/// The address of a storage account's blob service.
pub open spec fn blob_endpoint(account_name: Seq<char>) -> Seq<char> {
    "https://"@ + account_name + ".blob.core.windows.net"@
}

impl BlobLoader {
    /// The address of the storage account's blob service:
    /// `https://<account>.blob.core.windows.net`.
    pub fn endpoint(&self) -> (s: String)
        ensures
            s@ == blob_endpoint(self.account_name@),
    {
        let mut s = String::new();
        s.append("https://");
        s.append(self.account_name.as_str());
        s.append(".blob.core.windows.net");
        proof {
            assert(s@ =~= blob_endpoint(self.account_name@));
        }
        s
    }

    /// What to add to the store, given what reading the quotes blob gave:
    /// its quotes, in order, or the "service unavailable" error (503) that
    /// matches the failure.
    pub fn load_quotes(&self, contents: Result<Vec<BlobQuoteV1>, BlobLoadError>) -> (r: Result<
        AddQuotes,
        APIError,
    >)
        ensures
            r is Ok <==> contents is Ok,
            contents matches Ok(qs) ==> r matches Ok(msg) && msg.quotes@ == blob_quotes(qs@),
            contents matches Ok(qs) ==> r matches Ok(msg) && msg.quotes@.len() == qs@.len() && (
            forall|i: int|
                0 <= i < qs@.len() ==> (#[trigger] msg.quotes@[i]).quote@ == qs@[i].quote@
                    && msg.quotes@[i].who@ == qs@[i].who@),
            contents matches Err(e) ==> r matches Err(err) && err@ == blob_error(e),
    {
        match contents {
            Ok(fc) => {
                let mut quotes: Vec<Quote> = Vec::new();
                let mut i: usize = 0;
                while i < fc.len()
                    invariant
                        i <= fc@.len(),
                        quotes@ =~= blob_quotes(fc@.take(i as int)),
                    decreases fc@.len() - i,
                {
                    let q: Quote = fc[i].clone().into();
                    quotes.push(q);
                    proof {
                        assert(fc@.take(i + 1) =~= fc@.take(i as int).push(fc@[i as int]));
                    }
                    i = i + 1;
                }
                proof {
                    assert(fc@.take(fc@.len() as int) =~= fc@);
                    lemma_blob_quotes_keep_fields(fc@);
                }
                Ok(AddQuotes { quotes })
            },
            Err(BlobLoadError::Credential) | Err(BlobLoadError::Client) => Err(
                APIError::new(
                    503,
                    "Service Unavailable",
                    "We're sorry, but we can't seem to load quotes right now. Please try again later...",
                ),
            ),
            Err(_) => Err(
                APIError::new(
                    503,
                    "Service Unavailable",
                    "We're sorry, but we can't seem to find any quotes around here right now. Please check back soon.",
                ),
            ),
        }
    }
}

} // verus!
