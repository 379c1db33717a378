use restson::{Error, RestClient};

fn uri(base: &str, path: &str, query: Option<&[(&str, &str)]>) -> String {
    RestClient::new(base).unwrap().make_uri(path, query).unwrap()
}

#[test]
fn query_pairs_follow_the_joined_path_in_order() {
    let query = [("a", "2"), ("b", "abcd")];
    assert_eq!(uri("http://x.test/", "anything", Some(&query)), "http://x.test/anything?a=2&b=abcd");
    assert_eq!(uri("http://x.test/", "anything", None), "http://x.test/anything");
    assert_eq!(uri("http://x.test/", "anything", Some(&[])), "http://x.test/anything");
}

#[test]
fn repeated_names_are_kept() {
    let query = [("a", "1"), ("b", "x"), ("a", "2")];
    assert_eq!(uri("http://x.test/", "p", Some(&query)), "http://x.test/p?a=1&b=x&a=2");
}

#[test]
fn unreserved_characters_stay_as_they_are() {
    let query = [("A-z_0.9*", "*-._"), ("", "")];
    assert_eq!(uri("http://x.test/", "p", Some(&query)), "http://x.test/p?A-z_0.9*=*-._&=");
}

#[test]
fn other_characters_are_form_encoded() {
    let query = [("q", "a b&c=d/\u{e9}?"), ("x y", "~\u{0}\u{7f}+%#")];
    assert_eq!(
        uri("http://x.test/", "p", Some(&query)),
        "http://x.test/p?q=a+b%26c%3Dd%2F%C3%A9%3F&x+y=%7E%00%7F%2B%25%23"
    );
}

#[test]
fn pairs_go_after_a_query_of_the_path() {
    let query = [("k", "v"), ("l", "w")];
    assert_eq!(uri("http://x.test/", "a?x=1", Some(&query)), "http://x.test/a?x=1&k=v&l=w");
    assert_eq!(uri("http://x.test/", "a?", Some(&query)), "http://x.test/a?k=v&l=w");
    assert_eq!(uri("http://x.test/", "a?x=?", Some(&query)), "http://x.test/a?x=?&k=v&l=w");
}

#[test]
fn pairs_go_before_a_fragment_of_the_path() {
    let query = [("k", "v")];
    assert_eq!(uri("http://x.test/", "a#frag", Some(&query)), "http://x.test/a?k=v#frag");
    assert_eq!(uri("http://x.test/", "a?x=1#f?g", Some(&query)), "http://x.test/a?x=1&k=v#f?g");
    assert_eq!(uri("http://x.test/", "a?#", Some(&query)), "http://x.test/a?k=v#");
}

#[test]
fn paths_are_joined_as_urls_are() {
    assert_eq!(uri("http://x.test/api/", "devices/1234", None), "http://x.test/api/devices/1234");
    assert_eq!(uri("http://x.test/api", "devices/1234", None), "http://x.test/devices/1234");
    assert_eq!(uri("http://x.test/api/", "/root", None), "http://x.test/root");
    assert_eq!(uri("http://x.test/api/", "../up", None), "http://x.test/up");
    assert_eq!(uri("http://x.test", "a b", None), "http://x.test/a%20b");
    assert_eq!(uri("HTTP://X.test", "", None), "http://x.test/");
}

#[test]
fn url_that_cannot_be_made_is_a_url_error() {
    let client = RestClient::new("http://x.test/").unwrap();
    match client.make_uri("http://[", None) {
        Err(Error::UrlError) => (),
        _ => panic!("expected url error"),
    }
    let long = "a".repeat(70000);
    match client.make_uri(&long, None) {
        Err(Error::UrlError) => (),
        _ => panic!("expected url error"),
    }
    match client.make_uri("p", Some(&[("k", long.as_str())])) {
        Err(Error::UrlError) => (),
        _ => panic!("expected url error"),
    }
}

#[test]
fn text_of_a_url_parses_to_itself() {
    for base in [
        "HTTP://X.test",
        "http://x.test/a b?c d#e f",
        "https://user:pw@x.test:8443/p/../q/?k=v&k=w#frag",
        "http://[::1]:80/",
        "http://x.test/caf\u{e9}?\u{e9}=\u{e9}",
    ] {
        let once = uri(base, "", None);
        let twice = uri(&once, "", None);
        assert_eq!(once, twice);
        let query = [("k", "v w"), ("\u{e9}", "#")];
        let extended = uri(base, "", Some(&query));
        assert_eq!(uri(&extended, "", None), extended);
    }
}
