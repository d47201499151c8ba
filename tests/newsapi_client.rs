use newsapi::{Article, Country, Endpoint, NewsApi, NewsApiError, NewsApiResponse};
use newsapi::render::article_lines;

fn article(title: &str, url: &str) -> Article {
    Article {
        title: title.to_string(),
        url: url.to_string(),
    }
}

fn refusal(code: Option<&str>) -> NewsApiResponse {
    NewsApiResponse {
        status: "error".to_string(),
        articles: Vec::new(),
        code: code.map(|c| c.to_string()),
    }
}

fn bad_request_message(r: Result<NewsApiResponse, NewsApiError>) -> String {
    match r {
        Err(NewsApiError::BadRequest(m)) => m,
        Err(e) => panic!("unexpected error: {}", e.message()),
        Ok(_) => panic!("unexpected success"),
    }
}

#[test]
fn url_for_us_top_headlines() {
    let mut api = NewsApi::new("key");
    api.country(Country::Us).endpoint(Endpoint::TopHeadlines);
    let url = api.prepare_url().ok().unwrap();
    assert_eq!(url, "https://newsapi.org/v2/top-headlines?country=us");
}

#[test]
fn url_of_a_fresh_configuration() {
    let api = NewsApi::new("");
    let url = api.prepare_url().ok().unwrap();
    assert_eq!(url, "https://newsapi.org/v2/top-headlines?country=us");
}

#[test]
fn ok_reply_keeps_its_articles() {
    let api = NewsApi::new("key");
    let reply = NewsApiResponse {
        status: "ok".to_string(),
        articles: vec![article("A", "https://a.example/1"), article("B", "https://b.example/2")],
        code: None,
    };
    let r = api.parse_resp(reply).ok().unwrap();
    assert_eq!(r.status, "ok");
    let got = r.get_articles();
    assert_eq!(got.len(), 2);
    assert_eq!(got[0].title(), "A");
    assert_eq!(got[0].url(), "https://a.example/1");
    assert_eq!(got[1].title(), "B");
    assert_eq!(got[1].url(), "https://b.example/2");
}

#[test]
fn ok_reply_with_no_articles() {
    let api = NewsApi::new("key");
    let reply = NewsApiResponse {
        status: "ok".to_string(),
        articles: Vec::new(),
        code: None,
    };
    let r = api.parse_resp(reply).ok().unwrap();
    assert!(r.get_articles().is_empty());
}

#[test]
fn invalid_key_is_bad_request() {
    let api = NewsApi::new("key");
    let m = bad_request_message(api.parse_resp(refusal(Some("apiKeyInvalid"))));
    assert_eq!(m, "API key is invalid");
}

#[test]
fn unknown_code_is_unknown_error() {
    let api = NewsApi::new("key");
    let m = bad_request_message(api.parse_resp(refusal(Some("unknownXYZ"))));
    assert_eq!(m, "Unknown error");
}

#[test]
fn missing_code_is_unknown_error() {
    let api = NewsApi::new("key");
    let m = bad_request_message(api.parse_resp(refusal(None)));
    assert_eq!(m, "Unknown error");
}

#[test]
fn every_code_of_the_table() {
    let api = NewsApi::new("key");
    let table = [
        ("apiKeyDisabled", "API key is disabled"),
        ("apiKeyExhausted", "API key has no more requests available"),
        ("apiKeyInvalid", "API key is invalid"),
        ("apiKeyMissing", "API key is missing"),
        ("parameterInvalid", "Parameters are invalid"),
        ("parametersMissing", "Parameters are missing"),
        ("rateLimited", "Request is rate limited"),
        ("", "Unknown error"),
        ("apikeyinvalid", "Unknown error"),
    ];
    for (code, message) in table.iter() {
        let m = bad_request_message(api.parse_resp(refusal(Some(code))));
        assert_eq!(m, *message);
        match api.map_response_err(Some(code.to_string())) {
            NewsApiError::BadRequest(m) => assert_eq!(m, *message),
            _ => panic!("not a bad request"),
        }
    }
}

#[test]
fn status_other_than_ok_refuses_even_with_articles() {
    let api = NewsApi::new("key");
    let reply = NewsApiResponse {
        status: "OK".to_string(),
        articles: vec![article("A", "u")],
        code: Some("rateLimited".to_string()),
    };
    let m = bad_request_message(api.parse_resp(reply));
    assert_eq!(m, "Request is rate limited");
}

#[test]
fn malformed_body_is_parse_error() {
    let api = NewsApi::new("key");
    let decoded = serde_json::from_str::<serde_json::Value>("{\"status\": \"ok\", \"articles\": [")
        .map(|_| refusal(None));
    assert!(decoded.is_err());
    let r = api.accept_decoded(decoded);
    assert!(matches!(r, Err(NewsApiError::ParseFailed(_))));
}

#[test]
fn decoded_reply_goes_through_the_rules() {
    let api = NewsApi::new("key");
    let m = bad_request_message(api.accept_decoded(Ok(refusal(Some("apiKeyMissing")))));
    assert_eq!(m, "API key is missing");
    let ok = NewsApiResponse {
        status: "ok".to_string(),
        articles: vec![article("T", "U")],
        code: None,
    };
    let r = api.accept_decoded(Ok(ok)).ok().unwrap();
    assert_eq!(r.get_articles()[0].title(), "T");
}

#[test]
fn wire_forms() {
    assert_eq!(Country::Us.to_string(), "us");
    assert_eq!(Endpoint::TopHeadlines.to_string(), "top-headlines");
}

#[test]
fn configuration_keeps_key_and_selection() {
    let mut api = NewsApi::new("SECRET-REDACTED");
    assert_eq!(api.api_key(), "SECRET-REDACTED");
    api.endpoint(Endpoint::TopHeadlines).country(Country::Us);
    assert_eq!(api.api_key(), "SECRET-REDACTED");
    assert_eq!(api.endpoint_text_of(), "top-headlines");
    assert_eq!(api.country_text_of(), "us");
}

#[test]
fn error_messages() {
    assert_eq!(NewsApiError::UrlPreparingFailed.message(), "Failed to prepare URL");
    let e = std::io::Error::new(std::io::ErrorKind::Other, "closed");
    assert_eq!(
        NewsApiError::ResponseToStringFailed(e).message(),
        "Failed to convert response to string"
    );
    assert_eq!(
        NewsApiError::BadRequest("API key is invalid".to_string()).message(),
        "Bad request: API key is invalid"
    );
    let e = url::Url::parse("no address").err().unwrap();
    assert_eq!(NewsApiError::UrlParseFailed(e).message(), "Failed to parse URL");
    let e = serde_json::from_str::<serde_json::Value>("[").err().unwrap();
    assert_eq!(NewsApiError::ParseFailed(e).message(), "Failed to parse data");
}

#[test]
fn lines_for_articles() {
    let articles = vec![article("T", "U"), article("Second", "https://x.example/")];
    let lines = article_lines(&articles);
    assert_eq!(
        lines,
        vec![
            "Top headlines\n\n".to_string(),
            "`T`".to_string(),
            "> *U*".to_string(),
            "---".to_string(),
            "`Second`".to_string(),
            "> *https://x.example/*".to_string(),
            "---".to_string(),
        ]
    );
}

#[test]
fn lines_for_no_articles() {
    let lines = article_lines(&Vec::new());
    assert_eq!(lines, vec!["Top headlines\n\n".to_string()]);
}
