use dee::wiki::{
    first_sentence, get, search, summary, validate_lang, AppError, ContentUrls, Desktop, GetArgs,
    SearchArgs, SummaryApi,
    Thumbnail,
};

fn args(lang: &str) -> GetArgs {
    GetArgs { title: "Rust".to_string(), lang: lang.to_string() }
}

fn page(title: Option<&str>, extract: Option<&str>) -> SummaryApi {
    SummaryApi {
        title: title.map(|s| s.to_string()),
        extract: extract.map(|s| s.to_string()),
        content_urls: Some(ContentUrls {
            desktop: Some(Desktop { page: Some("https://en.wikipedia.org/wiki/Rust".to_string()) }),
        }),
        thumbnail: Some(Thumbnail { source: None }),
    }
}

#[test]
fn get_invalid_lang_json_error_on_stdout() {
    let e = get(&args("123"), 200, Some(page(Some("Rust"), None))).err().unwrap();
    assert!(matches!(e, AppError::InvalidLanguage));
    assert_eq!(e.code(), "INVALID_LANGUAGE");
}

#[test]
fn search_invalid_lang_json_error_on_stdout() {
    let args = SearchArgs { query: "anything".to_string(), limit: 5, lang: "!!".to_string() };
    let e = search(&args, None, None, None).err().unwrap();
    assert!(matches!(e, AppError::InvalidLanguage));
    assert!(matches!(validate_lang("!!"), Err(AppError::InvalidLanguage)));
}

#[test]
fn language_codes() {
    assert!(validate_lang("en").is_ok());
    assert!(validate_lang("zh-min-nan").is_ok());
    assert!(validate_lang("").is_err());
    assert!(validate_lang("e n").is_err());
    assert!(validate_lang("\u{fc}").is_err());
}

#[test]
fn error_codes_of_lookups() {
    assert_eq!(AppError::Request.code(), "REQUEST_FAILED");
    assert_eq!(AppError::Parse.code(), "PARSE_FAILED");
    assert_eq!(AppError::NotFound.code(), "NOT_FOUND");
    assert_eq!(AppError::InvalidLanguage.code(), "INVALID_LANGUAGE");
}

#[test]
fn first_sentence_skips_abbreviations() {
    assert_eq!(first_sentence("Dr. Smith went home. He slept."), "Dr. Smith went home.");
    assert_eq!(first_sentence("One. Two."), "One.");
    assert_eq!(first_sentence("No break here"), "No break here");
    assert_eq!(first_sentence("Ends with dot."), "Ends with dot.");
    assert_eq!(first_sentence("e.g. this, i.e. that. Next"), "e.g. this, i.e. that.");
    assert_eq!(first_sentence(""), "");
}

#[test]
fn get_builds_full_item() {
    let resp = get(&args("en"), 200, Some(page(Some("Rust"), Some("First. Second.")))).unwrap();
    assert!(resp.ok);
    assert_eq!(resp.item.title, "Rust");
    assert_eq!(resp.item.extract, "First. Second.");
    assert_eq!(resp.item.url, "https://en.wikipedia.org/wiki/Rust");
    assert_eq!(resp.item.thumbnail, "");
    assert_eq!(resp.item.lang, "en");
}

#[test]
fn summary_keeps_first_sentence() {
    let resp = summary(&args("de"), 200, Some(page(Some("Berlin"), Some("Berlin is big. It is old.")))).unwrap();
    assert_eq!(resp.item.extract, "Berlin is big.");
    assert_eq!(resp.item.lang, "de");
}

#[test]
fn lookup_failures() {
    assert!(matches!(get(&args("en"), 404, None), Err(AppError::NotFound)));
    assert!(matches!(get(&args("en"), 500, None), Err(AppError::Request)));
    assert!(matches!(get(&args("en"), 200, None), Err(AppError::Parse)));
    assert!(matches!(get(&args("en"), 200, Some(page(None, Some("x")))), Err(AppError::NotFound)));
    assert!(matches!(summary(&args("en"), 200, Some(page(Some(""), None))), Err(AppError::NotFound)));
}

fn column(values: &[Option<&str>]) -> Option<Vec<Option<String>>> {
    Some(values.iter().map(|v| v.map(|s| s.to_string())).collect())
}

#[test]
fn search_builds_one_hit_per_title() {
    let args = SearchArgs { query: "rust".to_string(), limit: 5, lang: "en".to_string() };
    let resp = search(
        &args,
        column(&[Some("Rust"), Some("Rust (fungus)"), None]),
        column(&[Some("A language"), None]),
        column(&[Some("https://en.wikipedia.org/wiki/Rust")]),
    )
    .unwrap();
    assert!(resp.ok);
    assert_eq!(resp.count, 3);
    assert_eq!(resp.items[0].title, "Rust");
    assert_eq!(resp.items[0].description, "A language");
    assert_eq!(resp.items[0].url, "https://en.wikipedia.org/wiki/Rust");
    assert_eq!(resp.items[1].title, "Rust (fungus)");
    assert_eq!(resp.items[1].description, "");
    assert_eq!(resp.items[1].url, "");
    assert_eq!(resp.items[2].title, "");
    assert_eq!(resp.items[2].lang, "en");
}

#[test]
fn search_failures() {
    let bad = SearchArgs { query: "x".to_string(), limit: 1, lang: "!!".to_string() };
    assert!(matches!(search(&bad, column(&[]), column(&[]), column(&[])), Err(AppError::InvalidLanguage)));
    let good = SearchArgs { query: "x".to_string(), limit: 1, lang: "en".to_string() };
    assert!(matches!(search(&good, column(&[]), None, column(&[])), Err(AppError::Parse)));
    let empty = search(&good, column(&[]), column(&[]), column(&[])).unwrap();
    assert_eq!(empty.count, 0);
}
