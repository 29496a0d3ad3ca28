use newsapi::{Category, Country, NewsAPI, NewsAPIError, NewsAPIResponse, NewsCard};

fn api(category: Category, country: Country, search: &str) -> NewsAPI {
    NewsAPI::new("key".to_string(), category, country, search.to_string())
}

#[test]
fn headlines_url_general() {
    let url = api(Category::General, Country::UnitedStates, "").prepare_url().unwrap();
    assert_eq!(url, "https://newsapi.org/v2/top-headlines?country=us");
}

#[test]
fn headlines_url_with_category() {
    let url = api(Category::Business, Country::UnitedKingdom, "").prepare_url().unwrap();
    assert_eq!(
        url,
        "https://newsapi.org/v2/top-headlines?country=gb&category=Business"
    );
}

#[test]
fn headlines_url_other_countries() {
    let url = api(Category::Science, Country::Germany, "").prepare_url().unwrap();
    assert_eq!(
        url,
        "https://newsapi.org/v2/top-headlines?country=de&category=Science"
    );
    let url = api(Category::General, Country::Japan, "").prepare_url().unwrap();
    assert_eq!(url, "https://newsapi.org/v2/top-headlines?country=jp");
}

#[test]
fn search_url_plain_term() {
    let url = api(Category::General, Country::UnitedStates, "rust").prepare_url().unwrap();
    assert_eq!(
        url,
        "https://newsapi.org/v2/everything?q=rust&sortBy=popularity"
    );
}

#[test]
fn search_overrides_category_and_country() {
    let url = api(Category::Sports, Country::France, "ferris").prepare_url().unwrap();
    assert_eq!(
        url,
        "https://newsapi.org/v2/everything?q=ferris&sortBy=popularity"
    );
    assert!(!url.contains("country="));
    assert!(!url.contains("category="));
}

#[test]
fn search_url_term_with_space_is_encoded() {
    let url = api(Category::General, Country::UnitedStates, "rust lang")
        .prepare_url()
        .unwrap();
    assert_eq!(
        url,
        "https://newsapi.org/v2/everything?q=rust%20lang&sortBy=popularity"
    );
}

#[test]
fn classify_with_code_and_message() {
    let resp = NewsAPIResponse::new(
        "error".to_string(),
        Some("apiKeyInvalid".to_string()),
        Some("Your key is invalid".to_string()),
        Vec::new(),
    );
    let err = NewsAPI::map_response_err(resp);
    match err {
        NewsAPIError::BadRequest(m) => {
            assert_eq!(m, "apiKeyInvalid - Your key is invalid");
        }
        _ => panic!("expected BadRequest"),
    }
}

#[test]
fn classify_without_fields() {
    let resp = NewsAPIResponse::new("error".to_string(), None, None, Vec::new());
    let err = NewsAPI::map_response_err(resp);
    match err {
        NewsAPIError::BadRequest(m) => assert_eq!(m, "Unknown error"),
        _ => panic!("expected BadRequest"),
    }
}

#[test]
fn classify_with_only_code() {
    let resp = NewsAPIResponse::new(
        "error".to_string(),
        Some("rateLimited".to_string()),
        None,
        Vec::new(),
    );
    match NewsAPI::map_response_err(resp) {
        NewsAPIError::BadRequest(m) => assert_eq!(m, "Unknown error"),
        _ => panic!("expected BadRequest"),
    }
}

fn card(title: &str) -> NewsCard {
    NewsCard::new(
        None,
        None,
        "2024-03-10T09:30:00Z".to_string(),
        None,
        title.to_string(),
        "https://example.org/a".to_string(),
    )
}

#[test]
fn ok_envelope_returns_articles_in_order() {
    let resp = NewsAPIResponse::new(
        "ok".to_string(),
        None,
        None,
        vec![card("first"), card("second"), card("third")],
    );
    let articles = NewsAPI::handle_response(resp).unwrap();
    assert_eq!(articles.len(), 3);
    assert_eq!(articles[0].title(), "first");
    assert_eq!(articles[1].title(), "second");
    assert_eq!(articles[2].title(), "third");
}

#[test]
fn failed_envelope_is_classified() {
    let resp = NewsAPIResponse::new(
        "error".to_string(),
        Some("parametersMissing".to_string()),
        Some("Required parameters are missing".to_string()),
        vec![card("ignored")],
    );
    match NewsAPI::handle_response(resp) {
        Err(NewsAPIError::BadRequest(m)) => {
            assert_eq!(m, "parametersMissing - Required parameters are missing");
        }
        _ => panic!("expected BadRequest"),
    }
}

#[test]
fn error_messages() {
    let e = NewsAPIError::RequestFailed("dns".to_string());
    assert_eq!(
        e.message(),
        "Unable to fetch articles at this time.\n\nCheck your internet connection."
    );
    let e = NewsAPIError::FailedResponseToJson("bad json".to_string());
    assert_eq!(e.message(), "Oops! Unable to read the news! Try again soon.");
    let e = NewsAPIError::UrlParsing;
    assert_eq!(e.message(), "Url parsing failed. Please contact creator.");
    let e = NewsAPIError::BadRequest("x - y".to_string());
    assert_eq!(
        e.message(),
        "Not a Prometheus error.\nwww.newsapi.org error: x - y"
    );
}
