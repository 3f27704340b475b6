use bender::api::error::APIError;
use bender::models::quote::quotes_by;
use bender::models::{AddQuote, AddQuotes, GetQuote, Quote};
use bender::store::blob::{BlobLoadError, BlobLoader, BlobQuoteV1};
use bender::store::file::{FileLoadError, FileLoader, FileQuoteV1};
use bender::store::memory::quote_from_choice;
use bender::store::{MemoryStore, Store};

const QUOTES_JSON: &str = r#"[
    { "quote": "Bite my shiny metal ass!", "who": "Bender" },
    { "quote": "Good news, everyone!", "who": "Professor Farnsworth" },
    { "quote": "I'm back, baby!", "who": "Bender" }
]"#;

/// The quotes of a JSON list, each read from its `quote` and `who` fields.
fn json_quotes() -> Vec<(String, String)> {
    let value: serde_json::Value = serde_json::from_str(QUOTES_JSON).unwrap();
    value
        .as_array()
        .unwrap()
        .iter()
        .map(|q| {
            (
                q["quote"].as_str().unwrap().to_string(),
                q["who"].as_str().unwrap().to_string(),
            )
        })
        .collect()
}

fn get(store: &Store, who: &str) -> Result<Quote, APIError> {
    store.get_quote(&GetQuote {
        who: who.to_string(),
    })
}

#[test]
fn file_load_quotes() {
    let loader = FileLoader {
        path: "quotes.json".to_string(),
    };
    let quotes: Vec<FileQuoteV1> = json_quotes()
        .into_iter()
        .map(|(quote, who)| FileQuoteV1 { quote, who })
        .collect();

    let mut state = Store::new();
    let msg = loader.load_quotes(Ok(quotes)).unwrap();
    assert_eq!(msg.quotes.len(), 3);
    state.add_quotes(msg).unwrap();

    get(&state, "").expect("we should get a quote");
    get(&state, "Bender").expect("we should get a quote");
    get(&state, "bEnDeR").expect("we should get a quote");
}

#[test]
fn blob_load_quotes() {
    let loader = BlobLoader {
        account_name: "devstoreaccount1".to_string(),
        container: "quotes".to_string(),
        path: "quotes.json".to_string(),
    };
    let quotes: Vec<BlobQuoteV1> = json_quotes()
        .into_iter()
        .map(|(quote, who)| BlobQuoteV1 { quote, who })
        .collect();

    let mut state = Store::new();
    state.add_quotes(loader.load_quotes(Ok(quotes)).unwrap()).unwrap();

    get(&state, "").expect("we should get a quote");
    get(&state, "Bender").expect("we should get a quote");
    get(&state, "bEnDeR").expect("we should get a quote");
}

#[test]
fn file_load_errors() {
    let loader = FileLoader {
        path: "missing.json".to_string(),
    };
    for failure in [FileLoadError::Open, FileLoadError::Parse] {
        let err = loader.load_quotes(Err(failure)).unwrap_err();
        assert_eq!(err.code, 503);
        assert_eq!(err.error, "Service Unavailable");
        assert_eq!(
            err.message,
            "We could not load the quotes needed to give you your daily dose of fun, we're so sorry."
        );
    }
}

#[test]
fn blob_load_errors() {
    let loader = BlobLoader {
        account_name: "devstoreaccount1".to_string(),
        container: "quotes".to_string(),
        path: "quotes.json".to_string(),
    };
    assert_eq!(loader.endpoint(), "https://devstoreaccount1.blob.core.windows.net");
    for failure in [BlobLoadError::Credential, BlobLoadError::Client] {
        let err = loader.load_quotes(Err(failure)).unwrap_err();
        assert_eq!(err.code, 503);
        assert_eq!(
            err.message,
            "We're sorry, but we can't seem to load quotes right now. Please try again later..."
        );
    }
    for failure in [BlobLoadError::Download, BlobLoadError::Read, BlobLoadError::Parse] {
        let err = loader.load_quotes(Err(failure)).unwrap_err();
        assert_eq!(err.code, 503);
        assert_eq!(err.error, "Service Unavailable");
        assert_eq!(
            err.message,
            "We're sorry, but we can't seem to find any quotes around here right now. Please check back soon."
        );
    }
}

#[test]
fn loaded_quotes_keep_order_and_content() {
    let loader = FileLoader {
        path: "quotes.json".to_string(),
    };
    let quotes: Vec<FileQuoteV1> = json_quotes()
        .into_iter()
        .map(|(quote, who)| FileQuoteV1 { quote, who })
        .collect();
    let msg = loader.load_quotes(Ok(quotes)).unwrap();
    let read: Vec<(String, String)> = msg
        .quotes
        .iter()
        .map(|q| (q.quote.clone(), q.who.clone()))
        .collect();
    assert_eq!(read, json_quotes());
}

#[test]
fn empty_store_has_no_quotes() {
    let store = MemoryStore::new();
    let err = get(&store, "").unwrap_err();
    assert_eq!(err.code, 404);
    assert_eq!(get(&store, "Bender").unwrap_err().code, 404);
}

#[test]
fn get_quote_only_returns_matching_quotes() {
    let mut store = MemoryStore::new();
    store
        .add_quotes(AddQuotes {
            quotes: vec![
                Quote {
                    quote: "A".to_string(),
                    who: "Leela".to_string(),
                },
                Quote {
                    quote: "B".to_string(),
                    who: "Bender".to_string(),
                },
                Quote {
                    quote: "C".to_string(),
                    who: "Fry".to_string(),
                },
            ],
        })
        .unwrap();
    for _ in 0..50 {
        let q = get(&store, "BENDER").unwrap();
        assert_eq!(q.quote, "B");
        let any = get(&store, "").unwrap();
        assert!(["A", "B", "C"].contains(&any.quote.as_str()));
    }
    assert_eq!(get(&store, "Zoidberg").unwrap_err().code, 404);
}

#[test]
fn added_quote_is_found() {
    let mut store = MemoryStore::new();
    store
        .add_quote(AddQuote {
            quote: "Why not Zoidberg?".to_string(),
            who: "Zoidberg".to_string(),
        })
        .unwrap();
    let q = get(&store, "zoidberg").unwrap();
    assert_eq!(q.quote, "Why not Zoidberg?");
    assert_eq!(q.who, "Zoidberg");
}

#[test]
fn quotes_by_lists_positions_in_order() {
    let quotes = vec![
        Quote {
            quote: "1".to_string(),
            who: "Bender".to_string(),
        },
        Quote {
            quote: "2".to_string(),
            who: "Fry".to_string(),
        },
        Quote {
            quote: "3".to_string(),
            who: "BENDER".to_string(),
        },
    ];
    assert_eq!(quotes_by(&quotes, "bender"), vec![0, 2]);
    assert_eq!(quotes_by(&quotes, "fry"), vec![1]);
    assert_eq!(quotes_by(&quotes, "Amy"), Vec::<usize>::new());
}

#[test]
fn choice_answers() {
    let q = Quote {
        quote: "x".to_string(),
        who: "y".to_string(),
    };
    let found = quote_from_choice(Some(&q)).unwrap();
    assert_eq!(found.quote, "x");
    let err = quote_from_choice(None).unwrap_err();
    assert_eq!(err.code, 404);
}

#[test]
fn file_and_blob_quote_conversions() {
    let q = Quote {
        quote: "Q".to_string(),
        who: "W".to_string(),
    };
    let f: FileQuoteV1 = q.clone().into();
    assert_eq!((f.quote.as_str(), f.who.as_str()), ("Q", "W"));
    let back: Quote = f.into();
    assert_eq!((back.quote.as_str(), back.who.as_str()), ("Q", "W"));
    let b: BlobQuoteV1 = q.into();
    let back: Quote = b.into();
    assert_eq!((back.quote.as_str(), back.who.as_str()), ("Q", "W"));
}
