use hyper::header::HeaderMap;
use restson::{Error, Method, Request, Response, RestClient, RestPath, Timeout, TransportOutcome};
use serde::de::{DeserializeOwned, Error as _};
use serde::{Deserialize, Deserializer};
use serde_json::Value;

struct HttpBinAnything {
    url: String,
    args: HttpBinAnythingArgs,
}

struct HttpRelativePath {
    url: String,
}

struct HttpBinAnythingArgs {
    a: String,
    b: String,
}

fn text_field(value: &Value, name: &'static str) -> String {
    value.get(name).and_then(Value::as_str).unwrap_or("").to_owned()
}

impl<'de> Deserialize<'de> for HttpBinAnything {
    fn deserialize<D: Deserializer<'de>>(deserializer: D) -> Result<Self, D::Error> {
        let value = Value::deserialize(deserializer)?;
        let url = match value.get("url").and_then(Value::as_str) {
            Some(url) => url.to_owned(),
            None => return Err(D::Error::missing_field("url")),
        };
        let args = match value.get("args") {
            Some(args) => HttpBinAnythingArgs { a: text_field(args, "a"), b: text_field(args, "b") },
            None => return Err(D::Error::missing_field("args")),
        };
        Ok(HttpBinAnything { url, args })
    }
}

impl<'de> Deserialize<'de> for HttpRelativePath {
    fn deserialize<D: Deserializer<'de>>(deserializer: D) -> Result<Self, D::Error> {
        let value = Value::deserialize(deserializer)?;
        match value.get("url").and_then(Value::as_str) {
            Some(url) => Ok(HttpRelativePath { url: url.to_owned() }),
            None => Err(D::Error::missing_field("url")),
        }
    }
}

impl RestPath<()> for HttpBinAnything {
    fn get_path(_: ()) -> Result<String, Error> {
        Ok(String::from("anything"))
    }
}

impl RestPath<u32> for HttpBinAnything {
    fn get_path(param: u32) -> Result<String, Error> {
        Ok(format!("anything/{}", param))
    }
}

impl<'a> RestPath<(u32, &'a str)> for HttpBinAnything {
    fn get_path(param: (u32, &str)) -> Result<String, Error> {
        let (a, b) = param;
        Ok(format!("anything/{}/{}", a, b))
    }
}

impl RestPath<()> for HttpRelativePath {
    fn get_path(_: ()) -> Result<String, Error> {
        Ok(String::from("test"))
    }
}

/// Answers as a server that echoes the request: its URL and the pairs of its query.
fn echo(request: &Request) -> TransportOutcome {
    let url = url::Url::parse(&request.uri).unwrap();
    let mut args = serde_json::Map::new();
    for (name, value) in url.query_pairs() {
        args.insert(name.into_owned(), Value::String(value.into_owned()));
    }
    let mut answer = serde_json::Map::new();
    answer.insert("url".to_owned(), Value::String(request.uri.clone()));
    answer.insert("args".to_owned(), Value::Object(args));
    TransportOutcome::Answered {
        status: 200,
        headers: HeaderMap::new(),
        body: Value::Object(answer).to_string().into_bytes(),
    }
}

fn get<U, T>(client: &RestClient, params: U) -> Result<Response<T>, Error>
where
    T: DeserializeOwned + RestPath<U>,
{
    let request = client.make_request::<U, T>(Method::Get, params, None, None)?;
    assert_eq!(request.method, Method::Get);
    assert!(request.body.is_none());
    client.run_request(echo(&request), std::convert::identity)?.parse()
}

fn get_with<U, T>(
    client: &RestClient,
    params: U,
    query: &[(&str, &str)],
) -> Result<Response<T>, Error>
where
    T: DeserializeOwned + RestPath<U>,
{
    let request = client.make_request::<U, T>(Method::Get, params, Some(query), None)?;
    client.run_request(echo(&request), std::convert::identity)?.parse()
}

#[test]
fn basic_get_http() {
    let client = RestClient::new("http://httpbin.org").unwrap();

    let data = get::<_, HttpBinAnything>(&client, ()).unwrap().into_inner();
    assert_eq!(data.url, "http://httpbin.org/anything");
}

#[test]
fn get_basic_get_https() {
    let client = RestClient::new("https://httpbin.org").unwrap();

    let data = get::<_, HttpBinAnything>(&client, ()).unwrap().into_inner();
    assert_eq!(data.url, "https://httpbin.org/anything");
}

#[test]
fn get_get_path_param() {
    let client = RestClient::new("http://httpbin.org").unwrap();

    let data = get::<_, HttpBinAnything>(&client, 1234).unwrap().into_inner();
    assert_eq!(data.url, "http://httpbin.org/anything/1234");
}

#[test]
fn get_get_multi_path_param() {
    let client = RestClient::new("http://httpbin.org").unwrap();

    let data = get::<_, HttpBinAnything>(&client, (1234, "abcd")).unwrap().into_inner();
    assert_eq!(data.url, "http://httpbin.org/anything/1234/abcd");
}

#[test]
fn get_get_query_params() {
    let client = RestClient::new("http://httpbin.org").unwrap();

    let params = vec![("a", "2"), ("b", "abcd")];
    let data = get_with::<_, HttpBinAnything>(&client, (), &params).unwrap().into_inner();

    assert_eq!(data.url, "http://httpbin.org/anything?a=2&b=abcd");
    assert_eq!(data.args.a, "2");
    assert_eq!(data.args.b, "abcd");
}

#[test]
fn basic_get_builder() {
    let client = RestClient::builder()
        .timeout(Timeout::from_secs(10))
        .send_null_body(false)
        .build("https://httpbin.org")
        .unwrap();

    assert_eq!(client.timeout(), Timeout::from_secs(10));
    assert_eq!(client.time_limit(), Some(Timeout::from_secs(10)));
    assert!(!client.sends_null_body());
    let data = get::<_, HttpBinAnything>(&client, ()).unwrap();
    assert_eq!(data.url, "https://httpbin.org/anything");
}

#[test]
fn relative_path() {
    // A base URL that paths are to be appended to ends with '/': without it the
    // path replaces the last element of the base.
    let client = RestClient::new("https://httpbin.org/anything/api/").unwrap();

    let data = get::<_, HttpRelativePath>(&client, ()).unwrap();
    assert_eq!(data.url, "https://httpbin.org/anything/api/test");
}

#[test]
fn relative_path_replaces_last_element() {
    let client = RestClient::new("https://httpbin.org/anything/api").unwrap();

    let data = get::<_, HttpRelativePath>(&client, ()).unwrap().into_inner();
    assert_eq!(data.url, "https://httpbin.org/anything/test");
}

#[test]
fn body_wash_fn() {
    let client = RestClient::new("https://httpbin.org").unwrap();

    // The text of the server is dropped for a fixed one, to show that the function
    // was called.
    let body_wash_fn = |_body: String| -> String {
        String::from("{\"url\": \"from body wash fn\", \"args\": {}}")
    };

    let request =
        client.make_request::<_, HttpBinAnything>(Method::Get, (), None, None).unwrap();
    let data = client
        .run_request(echo(&request), body_wash_fn)
        .unwrap()
        .parse::<HttpBinAnything>()
        .unwrap();
    assert_eq!(data.url, "from body wash fn");
}

#[test]
fn get_twice_gives_equal_results() {
    let client = RestClient::new("http://httpbin.org").unwrap();

    let params = vec![("a", "2"), ("b", "abcd")];
    let first = get_with::<_, HttpBinAnything>(&client, (), &params).unwrap().into_inner();
    let second = get_with::<_, HttpBinAnything>(&client, (), &params).unwrap().into_inner();
    assert_eq!(first.url, second.url);
    assert_eq!(first.args.a, second.args.a);
    assert_eq!(first.args.b, second.args.b);
}
