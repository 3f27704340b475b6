use actix_web::http::header::{self, Header};
use actix_web::test::TestRequest;
use bender::api::quote::models::{ContentType, QuoteBody, QuoteV1, HTML_HEAD, HTML_MIDDLE, HTML_TAIL};
use bender::api::quote::state::QuotesState;
use bender::api::quote::{quote_by_v1, quote_v1};
use bender::models::{AddQuote, Quote, StateView};
use bender::store::MemoryStore;

/// The media types of a request's `Accept` header, as the server reads them.
fn accepted_types(accept: &str) -> Option<Vec<String>> {
    let request = TestRequest::default()
        .insert_header((header::ACCEPT, accept))
        .to_http_request();
    header::Accept::parse(&request)
        .ok()
        .map(|a| a.iter().map(|q| q.item.essence_str().to_string()).collect())
}

fn test_quote() -> QuoteV1 {
    QuoteV1 {
        quote: "This is a test".to_string(),
        who: "Tester".to_string(),
    }
}

#[test]
fn quote_text() {
    let accepted = accepted_types("text/plain; charset=utf-8");
    let resp = test_quote().respond_to(accepted.as_ref());
    assert_eq!(resp.content_type.name(), "text/plain");
    assert_eq!(resp.body, QuoteBody::Plain("This is a test \u{2013} Tester".to_string()));
}

#[test]
fn quote_html() {
    let accepted = accepted_types("text/html; charset=utf-8");
    let resp = test_quote().respond_to(accepted.as_ref());
    assert_eq!(resp.content_type.name(), "text/html");
    let expected = format!("{}This is a test{}Tester{}", HTML_HEAD, HTML_MIDDLE, HTML_TAIL);
    assert_eq!(resp.body, QuoteBody::Html(expected.clone()));
    assert!(expected.contains("<blockquote>This is a test</blockquote>"));
    assert!(expected.contains("<figcaption>Tester</figcaption>"));
    assert!(expected.starts_with("<html>\n    <head>\n        <style>"));
    assert!(expected.contains("content: \"\u{2013}\";"));
    assert!(expected.ends_with("</figure>\n    </body>\n</html>"));
}

#[test]
fn quote_json() {
    let accepted = accepted_types("application/json; charset=utf-8");
    let resp = test_quote().respond_to(accepted.as_ref());
    assert_eq!(resp.content_type.name(), "application/json");
    assert_eq!(resp.body, QuoteBody::Json(test_quote()));
}

#[test]
fn quote_other() {}

#[test]
fn quote_unknown_type_is_json() {
    let accepted = accepted_types("image/png, application/xml");
    let resp = test_quote().respond_to(accepted.as_ref());
    assert_eq!(resp.content_type, ContentType::Json);
    let resp = test_quote().respond_to(None);
    assert_eq!(resp.content_type, ContentType::Json);
    let resp = test_quote().respond_to(Some(&vec![]));
    assert_eq!(resp.content_type, ContentType::Json);
}

#[test]
fn quote_first_known_type_wins() {
    let accepted = accepted_types("image/png, text/html;q=0.1, text/plain");
    assert_eq!(
        test_quote().respond_to(accepted.as_ref()).content_type,
        ContentType::Html
    );
    let accepted = vec!["text/plain".to_string(), "application/json".to_string()];
    assert_eq!(
        test_quote().respond_to(Some(&accepted)).content_type,
        ContentType::Plain
    );
}

fn store_with_bender() -> MemoryStore {
    let mut store = MemoryStore::new();
    store
        .add_quote(AddQuote {
            who: "Bender".to_string(),
            quote: "Bite my shiny metal ass!".to_string(),
        })
        .expect("The quote should have been added to the store");
    store
}

#[test]
fn quote_v1_not_found_status() {
    let store = MemoryStore::new();
    let err = quote_v1(&store).unwrap_err();
    assert!(err.status_code() == 404);
    assert_eq!(err.error, "Not Found");
    assert_eq!(
        err.message,
        "There are no quotes available right now, please add one and try again."
    );
}

#[test]
fn quote_v1_found_status() {
    let store = store_with_bender();
    assert!(quote_v1(&store).is_ok());
}

#[test]
fn quote_v1_content() {
    let store = store_with_bender();
    let response = quote_v1(&store).unwrap();
    assert_eq!(response.who, "Bender");
    assert_eq!(response.quote, "Bite my shiny metal ass!");
}

#[test]
fn quote_by_v1_ignores_case() {
    let store = store_with_bender();
    let response = quote_by_v1(&store, "bEnDeR").unwrap();
    assert_eq!(response.who, "Bender");
    let err = quote_by_v1(&store, "Fry").unwrap_err();
    assert_eq!(err.code, 404);
    assert_eq!(err.error, "Not Found");
    assert_eq!(
        err.message,
        "We could not find the resource you were looking for, please check your request and try again."
    );
}

#[test]
fn quote_v1_state_roundtrip() {
    let q = Quote {
        quote: "Good news, everyone!".to_string(),
        who: "Farnsworth".to_string(),
    };
    let v = QuoteV1::from_state(&q);
    assert_eq!(v.quote, q.quote);
    assert_eq!(v.who, q.who);
    let back = v.to_state();
    assert_eq!(back.quote, q.quote);
    assert_eq!(back.who, q.who);
}

#[test]
fn quotes_state_hands_out_quotes() {
    let mut state = QuotesState::new();
    assert!(state.quote::<QuoteV1>().is_none());
    state.add_quote(&QuoteV1 {
        quote: "Shut up and take my money!".to_string(),
        who: "Fry".to_string(),
    });
    state.add_quote(&test_quote());
    assert_eq!(state.quotes.len(), 2);
    let any: QuoteV1 = state.quote().unwrap();
    assert!(any.who == "Fry" || any.who == "Tester");
    let fry: QuoteV1 = state.quote_by("FRY").unwrap();
    assert_eq!(fry.quote, "Shut up and take my money!");
    assert!(state.quote_by::<QuoteV1>("Leela").is_none());
}
