use scrapbox_journal::api::{
    create_payload, creation_from_response, is_success, page_exists_from_status, pages_url,
    text_url,
};
use scrapbox_journal::browser::{
    create_url, page_exists_in, page_url, CREATED_SELECTOR, LOADED_SELECTOR, NEW_PAGE_PHRASE,
    UNREADABLE_PAGE,
};
use scrapbox_journal::remote::{
    ConfigError, CookiePriority, RemoteCredential, SourceScheme, TransportError,
};
use scrapbox_journal::template::{template_for, DAILY_TEXT, WEEKLY_TEXT};
use scrapbox_journal::title::PeriodKind;

#[test]
fn templates_are_the_fixed_texts() {
    assert_eq!(template_for(PeriodKind::Daily), "[* ルーティン]\n[* 感想]\n#daily");
    assert_eq!(
        template_for(PeriodKind::Weekly),
        "[* 目標]\n[* 振り返り]\n[* 感想]\n[* 日記]\n#weekly"
    );
    assert_eq!(template_for(PeriodKind::Daily), DAILY_TEXT);
    assert_eq!(template_for(PeriodKind::Weekly), WEEKLY_TEXT);
}

#[test]
fn templates_end_with_their_tag_on_its_own_line() {
    assert!(template_for(PeriodKind::Daily).ends_with("\n#daily"));
    assert!(template_for(PeriodKind::Weekly).ends_with("\n#weekly"));
}

#[test]
fn page_url_joins_host_project_and_title() {
    assert_eq!(
        page_url("my-project", "2024/1/3 (Wed)"),
        "https://scrapbox.io/my-project/2024/1/3 (Wed)"
    );
    assert_eq!(page_url("", ""), "https://scrapbox.io//");
}

#[test]
fn create_url_carries_the_encoded_body() {
    assert_eq!(
        create_url("my-project", "2024/1/3 (Wed)", DAILY_TEXT),
        "https://scrapbox.io/my-project/2024/1/3 (Wed)?body=%5B%2A%20%E3%83%AB%E3%83%BC%E3%83%86%E3%82%A3%E3%83%B3%5D%0A%5B%2A%20%E6%84%9F%E6%83%B3%5D%0A%23daily"
    );
    assert_eq!(
        create_url("p", "2024/1/29 ~ 2024/2/4", WEEKLY_TEXT),
        "https://scrapbox.io/p/2024/1/29 ~ 2024/2/4?body=%5B%2A%20%E7%9B%AE%E6%A8%99%5D%0A%5B%2A%20%E6%8C%AF%E3%82%8A%E8%BF%94%E3%82%8A%5D%0A%5B%2A%20%E6%84%9F%E6%83%B3%5D%0A%5B%2A%20%E6%97%A5%E8%A8%98%5D%0A%23weekly"
    );
}

#[test]
fn create_url_keeps_unreserved_characters_and_encodes_the_rest() {
    assert_eq!(
        create_url("p", "t", "AZaz09-._~ !*'();:@&=+$,/?#[]%"),
        "https://scrapbox.io/p/t?body=AZaz09-._~%20%21%2A%27%28%29%3B%3A%40%26%3D%2B%24%2C%2F%3F%23%5B%5D%25"
    );
    assert_eq!(
        create_url("p", "t", "\u{0}\u{7f}é\u{1F600}"),
        "https://scrapbox.io/p/t?body=%00%7F%C3%A9%F0%9F%98%80"
    );
    assert_eq!(create_url("p", "t", ""), "https://scrapbox.io/p/t?body=");
}

#[test]
fn rendered_text_with_the_phrase_means_the_page_is_absent() {
    assert_eq!(NEW_PAGE_PHRASE, "create new page");
    assert_eq!(page_exists_in(Some("2024/1/3 (Wed)\nClick to create new page")), Ok(false));
    assert_eq!(page_exists_in(Some("create new page")), Ok(false));
}

#[test]
fn rendered_text_without_the_phrase_means_the_page_exists() {
    assert_eq!(page_exists_in(Some("2024/1/3 (Wed)\n[* ルーティン]\n#daily")), Ok(true));
    assert_eq!(page_exists_in(Some("")), Ok(true));
    assert_eq!(page_exists_in(Some("Create New Page")), Ok(true));
}

#[test]
fn text_that_could_not_be_read_is_a_failure() {
    assert_eq!(UNREADABLE_PAGE, "the text of the page could not be read");
    assert_eq!(
        page_exists_in(None),
        Err(TransportError::Failure {
            detail: String::from("the text of the page could not be read")
        })
    );
}

#[test]
fn browser_waits_for_the_documented_elements() {
    assert_eq!(LOADED_SELECTOR, "body");
    assert_eq!(CREATED_SELECTOR, ".page-wrapper");
}

#[test]
fn api_urls_name_project_and_title() {
    assert_eq!(
        text_url("my-project", "2024/1/3 (Wed)"),
        "https://scrapbox.io/api/pages/my-project/2024/1/3 (Wed)/text"
    );
    assert_eq!(pages_url("my-project"), "https://scrapbox.io/api/pages/my-project");
}

#[test]
fn success_is_a_status_from_200_to_299() {
    assert!(!is_success(0));
    assert!(!is_success(199));
    assert!(is_success(200));
    assert!(is_success(201));
    assert!(is_success(204));
    assert!(is_success(299));
    assert!(!is_success(300));
    assert!(!is_success(404));
    assert!(!is_success(500));
    assert!(!is_success(u16::MAX));
}

#[test]
fn a_page_exists_when_its_text_is_served() {
    assert!(page_exists_from_status(200));
    assert!(!page_exists_from_status(404));
    assert!(!page_exists_from_status(401));
    assert!(!page_exists_from_status(500));
}

#[test]
fn a_rejected_creation_carries_status_and_message() {
    assert_eq!(creation_from_response(200, String::from("ok")), Ok(()));
    assert_eq!(creation_from_response(201, String::new()), Ok(()));
    assert_eq!(
        creation_from_response(403, String::from("forbidden")),
        Err(TransportError::Rejected { status: 403, message: String::from("forbidden") })
    );
    assert_eq!(
        creation_from_response(500, String::new()),
        Err(TransportError::Rejected { status: 500, message: String::new() })
    );
}

#[test]
fn create_payload_is_a_json_object_of_title_and_content() {
    assert_eq!(
        create_payload("2024/1/3 (Wed)", DAILY_TEXT),
        "{\"title\":\"2024/1/3 (Wed)\",\"content\":\"[* ルーティン]\\n[* 感想]\\n#daily\"}"
    );
    assert_eq!(create_payload("", ""), "{\"title\":\"\",\"content\":\"\"}");
}

#[test]
fn create_payload_escapes_what_json_requires() {
    assert_eq!(
        create_payload("a\"b\\c", "\u{8}\u{c}\n\r\t\u{0}\u{1f}\u{7f} é"),
        "{\"title\":\"a\\\"b\\\\c\",\"content\":\"\\b\\f\\n\\r\\t\\u0000\\u001f\u{7f} é\"}"
    );
}

#[test]
fn credential_needs_both_settings() {
    assert_eq!(
        RemoteCredential::from_settings(None, Some(String::from("p"))),
        Err(ConfigError::MissingSessionId)
    );
    assert_eq!(RemoteCredential::from_settings(None, None), Err(ConfigError::MissingSessionId));
    assert_eq!(
        RemoteCredential::from_settings(Some(String::from("s")), None),
        Err(ConfigError::MissingProject)
    );
    let credential =
        RemoteCredential::from_settings(Some(String::from("s%3Aabc")), Some(String::from("p")))
            .unwrap();
    assert_eq!(credential.session_id(), "s%3Aabc");
    assert_eq!(credential.project(), "p");
}

#[test]
fn config_errors_name_the_missing_setting() {
    assert_eq!(ConfigError::MissingSessionId.message(), "SCRAPBOX_SID must be set in .env file");
    assert_eq!(
        ConfigError::MissingProject.message(),
        "SCRAPBOX_PROJECT_NAME must be set in .env file"
    );
}

#[test]
fn session_cookie_lasts_for_the_session_on_the_host_alone() {
    let credential =
        RemoteCredential::from_settings(Some(String::from("secret")), Some(String::from("p")))
            .unwrap();
    let cookie = credential.session_cookie();
    assert_eq!(cookie.name, "connect.sid");
    assert_eq!(cookie.value, "secret");
    assert_eq!(cookie.url, "https://scrapbox.io/");
    assert_eq!(cookie.domain, "scrapbox.io");
    assert_eq!(cookie.path, "/");
    assert_eq!(cookie.expires, None);
    assert!(cookie.http_only);
    assert!(cookie.secure);
    assert!(!cookie.same_party);
    assert_eq!(cookie.priority, CookiePriority::Medium);
    assert_eq!(cookie.source_scheme, SourceScheme::Secure);
    assert_eq!(cookie.source_port, 443);
}

#[test]
fn cookie_header_names_the_session_cookie() {
    let credential =
        RemoteCredential::from_settings(Some(String::from("secret")), Some(String::from("p")))
            .unwrap();
    assert_eq!(credential.cookie_header(), "connect.sid=secret");
}
