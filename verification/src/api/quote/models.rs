//! The quote as the API sends it, and the formats it is sent in.
use vstd::prelude::*;
use crate::models::{Quote, StateView};

verus! {

/// A quote as version 1 of the API sends it.
#[derive(Debug, PartialEq, Eq)]
pub struct QuoteV1 {
    pub quote: String,
    pub who: String,
}

impl StateView<Quote> for QuoteV1 {
    open spec fn represents(&self, state: Quote) -> bool {
        self.quote@ == state.quote@ && self.who@ == state.who@
    }

    fn to_state(&self) -> (s: Quote)
        ensures
            s.quote@ == self.quote@,
            s.who@ == self.who@,
    {
        Quote { quote: self.quote.clone(), who: self.who.clone() }
    }

    fn from_state(state: &Quote) -> (r: Self)
        ensures
            r.quote@ == state.quote@,
            r.who@ == state.who@,
    {
        QuoteV1 { quote: state.quote.clone(), who: state.who.clone() }
    }
}

/// A `QuoteV1` that shows a quote carries that quote's text in `quote` and
/// its author in `who`, whatever their lengths.
pub proof fn lemma_quote_v1_fields(v: QuoteV1, q: Quote)
    requires
        v.represents(q),
    ensures
        v.quote@ == q.quote@,
        v.who@ == q.who@,
{
}

/// A quote and its author are shown as a `QuoteV1` with the same text and
/// author: for any quote `q`, the `QuoteV1` of `q`'s text and author shows `q`,
/// and shows no quote whose text or author differs.
pub proof fn lemma_quote_v1_shows_exactly(v: QuoteV1, q: Quote)
    ensures
        v.represents(q) <==> (v.quote@ == q.quote@ && v.who@ == q.who@),
{
}

/// Showing a quote as `QuoteV1` and turning it back into a quote loses
/// nothing: any two quotes that one `QuoteV1` shows have the same text and
/// author.
pub proof fn lemma_quote_v1_roundtrip(v: QuoteV1, q: Quote, back: Quote)
    requires
        v.represents(q),
        v.represents(back),
    ensures
        back.quote@ == q.quote@,
        back.who@ == q.who@,
{
}

/// The formats a quote can be sent in.
#[derive(Clone, Copy, Debug, PartialEq, Eq, Structural)]
pub enum ContentType {
    Json,
    Html,
    Plain,
}

/// The format that a media type names, where it names one the API sends.
pub open spec fn known_content_type(essence: Seq<char>) -> Option<ContentType> {
    if essence == "application/json"@ {
        Some(ContentType::Json)
    } else if essence == "text/html"@ {
        Some(ContentType::Html)
    } else if essence == "text/plain"@ {
        Some(ContentType::Plain)
    } else {
        None
    }
}

/// The format of the first accepted media type that the API can send, in
/// the order the client listed them; JSON where it names none.
pub open spec fn first_known_content_type(accepted: Seq<Seq<char>>) -> ContentType
    decreases accepted.len(),
{
    if accepted.len() == 0 {
        ContentType::Json
    } else {
        match known_content_type(accepted[0]) {
            Some(t) => t,
            None => first_known_content_type(accepted.drop_first()),
        }
    }
}

/// Only the three media types `application/json`, `text/html` and
/// `text/plain` name a format, and each names its own: JSON, HTML and plain
/// text. Any other media type, such as `*/*` or `image/png`, names none.
pub proof fn lemma_known_content_types(essence: Seq<char>)
    ensures
        known_content_type(essence) is Some ==> (essence == "application/json"@ || essence
            == "text/html"@ || essence == "text/plain"@),
        known_content_type("application/json"@) == Some(ContentType::Json),
        known_content_type("text/html"@) == Some(ContentType::Html),
        known_content_type("text/plain"@) == Some(ContentType::Plain),
{
    reveal_strlit("application/json");
    reveal_strlit("text/html");
    reveal_strlit("text/plain");
    assert("text/html"@[0] != "application/json"@[0]);
    assert("text/plain"@[0] != "application/json"@[0]);
    assert("text/plain"@[5] != "text/html"@[5]);
}

/// A client that lists none of `application/json`, `text/html` and
/// `text/plain` (for example one that sends `Accept: */*`) is answered in
/// JSON.
pub proof fn lemma_other_types_get_json(accepted: Seq<Seq<char>>)
    requires
        forall|i: int|
            0 <= i < accepted.len() ==> #[trigger] accepted[i] != "application/json"@ && accepted[i]
                != "text/html"@ && accepted[i] != "text/plain"@,
    ensures
        first_known_content_type(accepted) == ContentType::Json,
{
    assert forall|i: int| 0 <= i < accepted.len() implies known_content_type(#[trigger] accepted[i]) is None by {
        lemma_known_content_types(accepted[i]);
    }
    lemma_json_by_default(accepted);
}

/// The first of `application/json`, `text/html` and `text/plain` that the
/// client lists decides the format: JSON, HTML or plain text respectively.
pub proof fn lemma_first_listed_type_decides(accepted: Seq<Seq<char>>, k: int)
    requires
        0 <= k < accepted.len(),
        accepted[k] == "application/json"@ || accepted[k] == "text/html"@ || accepted[k]
            == "text/plain"@,
        forall|i: int|
            0 <= i < k ==> #[trigger] accepted[i] != "application/json"@ && accepted[i]
                != "text/html"@ && accepted[i] != "text/plain"@,
    ensures
        accepted[k] == "application/json"@ ==> first_known_content_type(accepted) == ContentType::Json,
        accepted[k] == "text/html"@ ==> first_known_content_type(accepted) == ContentType::Html,
        accepted[k] == "text/plain"@ ==> first_known_content_type(accepted) == ContentType::Plain,
{
    lemma_known_content_types(accepted[k]);
    assert forall|i: int| 0 <= i < k implies known_content_type(#[trigger] accepted[i]) is None by {
        lemma_known_content_types(accepted[i]);
    }
    lemma_first_known_wins(accepted, k);
}

/// Where the client names no media type that the API sends (or no
/// media type at all), the answer is JSON.
pub proof fn lemma_json_by_default(accepted: Seq<Seq<char>>)
    requires
        forall|i: int| 0 <= i < accepted.len() ==> known_content_type(#[trigger] accepted[i]) is None,
    ensures
        first_known_content_type(accepted) == ContentType::Json,
    decreases accepted.len(),
{
    if accepted.len() > 0 {
        let rest = accepted.drop_first();
        assert forall|i: int| 0 <= i < rest.len() implies known_content_type(#[trigger] rest[i]) is None by {
            assert(rest[i] == accepted[i + 1]);
        }
        lemma_json_by_default(rest);
    }
}

/// The first media type, in the client's order, that the API can send
/// decides the format; those after it do not matter.
pub proof fn lemma_first_known_wins(accepted: Seq<Seq<char>>, k: int)
    requires
        0 <= k < accepted.len(),
        known_content_type(accepted[k]) is Some,
        forall|i: int| 0 <= i < k ==> known_content_type(#[trigger] accepted[i]) is None,
    ensures
        first_known_content_type(accepted) == known_content_type(accepted[k])->0,
    decreases k,
{
    if k > 0 {
        let rest = accepted.drop_first();
        assert(rest[k - 1] == accepted[k]);
        assert forall|i: int| 0 <= i < k - 1 implies known_content_type(#[trigger] rest[i]) is None by {
            assert(rest[i] == accepted[i + 1]);
        }
        lemma_first_known_wins(rest, k - 1);
    }
}

/// The format to answer in, given the media types of the client's `Accept`
/// header (type and subtype, without parameters), or `None` where that header
/// could not be read.
pub open spec fn negotiated_content_type(accepted: Option<Seq<Seq<char>>>) -> ContentType {
    match accepted {
        Some(a) => first_known_content_type(a),
        None => ContentType::Json,
    }
}

/// The media type of a format, as sent in the `Content-Type` header.
pub open spec fn content_type_name(t: ContentType) -> Seq<char> {
    match t {
        ContentType::Json => "application/json"@,
        ContentType::Html => "text/html"@,
        ContentType::Plain => "text/plain"@,
    }
}

impl ContentType {
    /// The media type of this format.
    pub fn name(&self) -> (s: &'static str)
        ensures
            s@ == content_type_name(*self),
    {
        match self {
            ContentType::Json => "application/json",
            ContentType::Html => "text/html",
            ContentType::Plain => "text/plain",
        }
    }
}

/// The view of a list of strings as a sequence of character sequences.
pub open spec fn strings_view(v: Seq<String>) -> Seq<Seq<char>> {
    v.map_values(|s: String| s@)
}

/// The format to answer in: that of the first accepted media type the API
/// can send, JSON where there is none or the `Accept` header was unreadable.
pub fn preferred_content_type(accepted: Option<&Vec<String>>) -> (t: ContentType)
    ensures
        t == negotiated_content_type(
            match accepted {
                Some(a) => Some(strings_view(a@)),
                None => None,
            },
        ),
{
    match accepted {
        None => ContentType::Json,
        Some(list) => {
            let json = "application/json".to_owned();
            let html = "text/html".to_owned();
            let plain = "text/plain".to_owned();
            let ghost all = strings_view(list@);
            let mut i: usize = 0;
            assert(all.skip(0) =~= all);
            while i < list.len()
                invariant
                    i <= list@.len(),
                    accepted == Some(list),
                    all == strings_view(list@),
                    json@ == "application/json"@,
                    html@ == "text/html"@,
                    plain@ == "text/plain"@,
                    forall|j: int| 0 <= j < i ==> known_content_type(#[trigger] all[j]) is None,
                    first_known_content_type(all) == first_known_content_type(all.skip(i as int)),
                decreases list@.len() - i,
            {
                let essence = &list[i];
                let ghost rest = all.skip(i as int);
                assert(all.len() == list@.len());
                assert(rest.len() > 0);
                assert(rest[0] == essence@);
                assert(first_known_content_type(rest) == match known_content_type(rest[0]) {
                    Some(t) => t,
                    None => first_known_content_type(rest.drop_first()),
                });
                assert(rest.drop_first() =~= all.skip(i + 1));
                if *essence == json {
                    return ContentType::Json;
                } else if *essence == html {
                    return ContentType::Html;
                } else if *essence == plain {
                    return ContentType::Plain;
                }
                i = i + 1;
            }
            assert(all.skip(i as int) =~= Seq::<Seq<char>>::empty());
            ContentType::Json
        },
    }
}

/// What separates a quote from its author in plain text.
pub const PLAIN_SEPARATOR: &'static str = " \u{2013} ";

/// The HTML page up to the quote.
pub const HTML_HEAD: &'static str = "<html>
    <head>
        <style>
            body {
                font-family: Sans-serif;
            }

            figure {
                margin: 20px;
            }

            blockquote {
                margin-left: 1em;
            }

            figcaption {
                margin-left: 2em;
                font-size: 0.8em;
                font-weight: bold;
            }

            figcaption::before {
                display: inline;
                content: \"–\";
                padding-right: 0.5em;
            }
        </style>
    </head>
    <body>
        <figure>
            <blockquote>";

/// The HTML page between the quote and its author.
pub const HTML_MIDDLE: &'static str = "</blockquote>
            <figcaption>";

/// The HTML page after the author.
pub const HTML_TAIL: &'static str = "</figcaption>
        </figure>
    </body>
</html>";

/// The plain-text form of a quote: `<quote> – <who>`.
pub open spec fn plain_text(quote: Seq<char>, who: Seq<char>) -> Seq<char> {
    quote + PLAIN_SEPARATOR@ + who
}

/// The HTML page that shows a quote and its author.
pub open spec fn html_page(quote: Seq<char>, who: Seq<char>) -> Seq<char> {
    HTML_HEAD@ + quote + HTML_MIDDLE@ + who + HTML_TAIL@
}

/// The body of a quote response.
#[derive(Debug, PartialEq, Eq)]
pub enum QuoteBody {
    /// The quote as plain text.
    Plain(String),
    /// The quote as an HTML page.
    Html(String),
    /// The quote itself, to be sent as JSON.
    Json(QuoteV1),
}

/// A quote response: its content type and its body.
#[derive(Debug, PartialEq, Eq)]
pub struct QuoteResponse {
    pub content_type: ContentType,
    pub body: QuoteBody,
}

impl QuoteV1 {
    /// The response to a client whose `Accept` header lists the media types
    /// `accepted` (`None` where it could not be read): the quote in the
    /// negotiated format.
    pub fn respond_to(self, accepted: Option<&Vec<String>>) -> (r: QuoteResponse)
        ensures
            r.content_type == negotiated_content_type(
                match accepted {
                    Some(a) => Some(strings_view(a@)),
                    None => None,
                },
            ),
            r.content_type == ContentType::Plain ==> (r.body matches QuoteBody::Plain(s) && s@
                == plain_text(self.quote@, self.who@)),
            r.content_type == ContentType::Html ==> (r.body matches QuoteBody::Html(s) && s@
                == html_page(self.quote@, self.who@)),
            r.content_type == ContentType::Json ==> r.body == QuoteBody::Json(self),
    {
        let content_type = preferred_content_type(accepted);
        match content_type {
            ContentType::Plain => {
                let mut s = self.quote.clone();
                s.append(PLAIN_SEPARATOR);
                s.append(self.who.as_str());
                QuoteResponse { content_type, body: QuoteBody::Plain(s) }
            },
            ContentType::Html => {
                let mut s = String::new();
                s.append(HTML_HEAD);
                s.append(self.quote.as_str());
                s.append(HTML_MIDDLE);
                s.append(self.who.as_str());
                s.append(HTML_TAIL);
                proof {
                    assert(s@ =~= html_page(self.quote@, self.who@));
                }
                QuoteResponse { content_type, body: QuoteBody::Html(s) }
            },
            ContentType::Json => QuoteResponse { content_type, body: QuoteBody::Json(self) },
        }
    }
}

} // verus!
