use auth_core::credentials::{
    extract_bearer_token, extract_cookie_token, extract_query_token, extract_token,
    is_browser_request, login_url, login_url_for,
};
use auth_core::text::{cut_at, ends_with, starts_with, str_eq};

fn some(text: &str) -> Option<String> {
    Some(text.to_string())
}

#[test]
fn text_is_cut_at_the_first_separator() {
    assert_eq!(cut_at("a=b=c", '='), ("a", Some("b=c")));
    assert_eq!(cut_at("=b", '='), ("", Some("b")));
    assert_eq!(cut_at("a=", '='), ("a", Some("")));
    assert_eq!(cut_at("abc", '='), ("abc", None));
    assert_eq!(cut_at("", '='), ("", None));
    assert_eq!(cut_at("\u{e9}t\u{e9}=\u{fc}", '='), ("\u{e9}t\u{e9}", Some("\u{fc}")));
}

#[test]
fn prefixes_and_suffixes() {
    assert!(starts_with("Bearer x", "Bearer "));
    assert!(starts_with("abc", ""));
    assert!(starts_with("", ""));
    assert!(!starts_with("Bear", "Bearer "));
    assert!(!starts_with("bearer x", "Bearer "));
    assert!(ends_with("a.json", ".json"));
    assert!(ends_with("a", ""));
    assert!(!ends_with("json", ".json"));
    assert!(!ends_with("a.jsonx", ".json"));
    assert!(ends_with("\u{e9}.json", ".json"));
}

#[test]
fn the_bearer_token_follows_the_word_bearer() {
    assert_eq!(extract_bearer_token("Bearer abc.def.ghi"), some("abc.def.ghi"));
    assert_eq!(extract_bearer_token("Bearer "), some(""));
    assert_eq!(extract_bearer_token("Bearer Bearer abc"), some("abc"));
    assert_eq!(extract_bearer_token("Bearer  abc"), some(" abc"));
    assert_eq!(extract_bearer_token("bearer abc"), None);
    assert_eq!(extract_bearer_token("Basic dXNlcjpwdw=="), None);
    assert_eq!(extract_bearer_token("Bearer"), None);
    assert_eq!(extract_bearer_token(""), None);
    assert_eq!(extract_bearer_token(" Bearer abc"), None);
}

#[test]
fn the_query_token_is_the_decoded_value_of_the_first_token_parameter() {
    assert_eq!(extract_query_token("token=abc"), some("abc"));
    assert_eq!(extract_query_token("a=1&token=abc&b=2"), some("abc"));
    assert_eq!(extract_query_token("token=a%20b%2Fc"), some("a b/c"));
    assert_eq!(extract_query_token("token=a+b"), some("a+b"));
    assert_eq!(extract_query_token("token="), some(""));
    assert_eq!(extract_query_token("token=first&token=second"), some("first"));
    assert_eq!(extract_query_token("token=a=b"), some("a=b"));
    assert_eq!(extract_query_token("token"), None);
    assert_eq!(extract_query_token("token&token=x"), some("x"));
    assert_eq!(extract_query_token("Token=abc"), None);
    assert_eq!(extract_query_token("xtoken=abc"), None);
    assert_eq!(extract_query_token(""), None);
    assert_eq!(extract_query_token("&&"), None);
    assert_eq!(extract_query_token("a=1&b=2"), None);
}

#[test]
fn a_token_parameter_that_does_not_decode_ends_the_search() {
    assert_eq!(extract_query_token("token=%FF&token=good"), None);
    assert_eq!(extract_query_token("token=%C3%A9"), some("\u{e9}"));
    assert_eq!(extract_query_token("token=%zz"), some("%zz"));
}

#[test]
fn the_cookie_token_is_the_value_of_the_auth_token_cookie() {
    assert_eq!(extract_cookie_token("auth_token=abc"), some("abc"));
    assert_eq!(extract_cookie_token("theme=dark; auth_token=abc; lang=en"), some("abc"));
    assert_eq!(extract_cookie_token("theme=dark;auth_token=abc"), some("abc"));
    assert_eq!(extract_cookie_token("  auth_token=abc  ; x=y"), some("abc"));
    assert_eq!(extract_cookie_token("auth_token=a=b"), some("a=b"));
    assert_eq!(extract_cookie_token("auth_token="), some(""));
    assert_eq!(extract_cookie_token("auth_token=one; auth_token=two"), some("one"));
    assert_eq!(extract_cookie_token("auth_token =abc"), None);
    assert_eq!(extract_cookie_token("auth_token"), None);
    assert_eq!(extract_cookie_token("AUTH_TOKEN=abc"), None);
    assert_eq!(extract_cookie_token("theme=dark"), None);
    assert_eq!(extract_cookie_token(""), None);
}

#[test]
fn the_header_wins_over_the_query_and_the_query_over_the_cookie() {
    assert_eq!(
        extract_token(Some("Bearer h"), Some("token=q"), Some("auth_token=c")),
        some("h")
    );
    assert_eq!(extract_token(Some("Basic x"), Some("token=q"), Some("auth_token=c")), some("q"));
    assert_eq!(extract_token(None, Some("token=q"), Some("auth_token=c")), some("q"));
    assert_eq!(extract_token(None, Some("a=b"), Some("auth_token=c")), some("c"));
    assert_eq!(extract_token(None, None, Some("auth_token=c")), some("c"));
    assert_eq!(extract_token(Some("Basic x"), Some("a=b"), Some("theme=dark")), None);
    assert_eq!(extract_token(None, None, None), None);
}

#[test]
fn a_browser_asks_for_html() {
    assert!(is_browser_request(Some("text/html,application/xhtml+xml")));
    assert!(is_browser_request(Some("application/json, text/html;q=0.9")));
    assert!(!is_browser_request(Some("application/json")));
    assert!(!is_browser_request(Some("TEXT/HTML")));
    assert!(!is_browser_request(Some("")));
    assert!(!is_browser_request(None));
}

#[test]
fn the_login_address_carries_the_encoded_way_back() {
    assert_eq!(
        login_url("https://localhost:8443", "https://localhost:8445", "/dashboard"),
        "https://localhost:8443/?redirect=https%3A%2F%2Flocalhost%3A8445%2Fdashboard"
    );
    assert_eq!(
        login_url("https://auth", "https://admin", "/users?search=a b&x=~y"),
        "https://auth/?redirect=https%3A%2F%2Fadmin%2Fusers%3Fsearch%3Da%20b%26x%3D~y"
    );
    assert_eq!(login_url("", "", ""), "/?redirect=");
    assert_eq!(login_url_for("https://auth", "abc"), "https://auth/?redirect=abc");
}

#[test]
fn texts_are_equal_when_their_characters_are() {
    assert!(str_eq("", ""));
    assert!(str_eq("all", "all"));
    assert!(str_eq("\u{e9}t\u{e9}", "\u{e9}t\u{e9}"));
    assert!(!str_eq("all", "al"));
    assert!(!str_eq("al", "all"));
    assert!(!str_eq("all", "alL"));
    assert!(!str_eq("", "a"));
    assert!(!str_eq("e\u{301}", "\u{e9}"));
    assert!(!str_eq("abc", "abd"));
}
