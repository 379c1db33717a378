use hyper::header::HeaderMap;
use restson::{Error, Method, Request, Response, RestClient, RestPath, TransportOutcome};
use serde::de::{DeserializeOwned, Error as _};
use serde::ser::SerializeMap;
use serde::{Deserialize, Deserializer, Serialize, Serializer};
use serde_json::Value;

struct HttpBinPost {
    data: String,
}

struct HttpBinPostResp {
    json: HttpBinPost,
    url: String,
}

impl Serialize for HttpBinPost {
    fn serialize<S: Serializer>(&self, serializer: S) -> Result<S::Ok, S::Error> {
        let mut fields = serializer.serialize_map(Some(1))?;
        fields.serialize_entry("data", &self.data)?;
        fields.end()
    }
}

impl<'de> Deserialize<'de> for HttpBinPostResp {
    fn deserialize<D: Deserializer<'de>>(deserializer: D) -> Result<Self, D::Error> {
        let value = Value::deserialize(deserializer)?;
        let url = match value.get("url").and_then(Value::as_str) {
            Some(url) => url.to_owned(),
            None => return Err(D::Error::missing_field("url")),
        };
        let data = match value.get("json").and_then(|json| json.get("data")).and_then(Value::as_str)
        {
            Some(data) => data.to_owned(),
            None => return Err(D::Error::missing_field("json")),
        };
        Ok(HttpBinPostResp { json: HttpBinPost { data }, url })
    }
}

impl RestPath<()> for HttpBinPost {
    fn get_path(_: ()) -> Result<String, Error> {
        Ok(String::from("post"))
    }
}

/// Answers as a server that echoes the request: its URL and its body as JSON. A
/// request with another method than the path is for is refused.
fn echo(request: &Request) -> TransportOutcome {
    if request.method != Method::Post {
        return TransportOutcome::Answered {
            status: 405,
            headers: HeaderMap::new(),
            body: Vec::new(),
        };
    }
    let mut answer = serde_json::Map::new();
    answer.insert("url".to_owned(), Value::String(request.uri.clone()));
    let json = match &request.body {
        Some(body) => serde_json::from_str(body).unwrap(),
        None => Value::Null,
    };
    answer.insert("json".to_owned(), json);
    TransportOutcome::Answered {
        status: 200,
        headers: HeaderMap::new(),
        body: Value::Object(answer).to_string().into_bytes(),
    }
}

fn request<U, T>(
    client: &RestClient,
    params: U,
    data: &T,
    query: Option<&[(&str, &str)]>,
) -> Result<Request, Error>
where
    T: Serialize + RestPath<U>,
{
    let data = serde_json::to_string(data).map_err(Error::SerializeParseError)?;
    client.make_request::<U, T>(Method::Post, params, query, Some(data))
}

fn send<U, T>(
    client: &RestClient,
    params: U,
    data: &T,
    query: Option<&[(&str, &str)]>,
) -> Result<Response<String>, Error>
where
    T: Serialize + RestPath<U>,
{
    let request = request(client, params, data, query)?;
    client.run_request(echo(&request), std::convert::identity)
}

fn write<U, T>(
    client: &RestClient,
    params: U,
    data: &T,
    query: Option<&[(&str, &str)]>,
) -> Result<Response<()>, Error>
where
    T: Serialize + RestPath<U>,
{
    let request = request(client, params, data, query)?;
    client.run_write(echo(&request))
}

fn post<U, T>(client: &RestClient, params: U, data: &T) -> Result<Response<()>, Error>
where
    T: Serialize + RestPath<U>,
{
    write(client, params, data, None)
}

fn post_with<U, T>(
    client: &RestClient,
    params: U,
    data: &T,
    query: &[(&str, &str)],
) -> Result<Response<()>, Error>
where
    T: Serialize + RestPath<U>,
{
    write(client, params, data, Some(query))
}

fn post_capture<U, T, K>(client: &RestClient, params: U, data: &T) -> Result<Response<K>, Error>
where
    T: Serialize + RestPath<U>,
    K: DeserializeOwned,
{
    send(client, params, data, None)?.parse()
}

fn post_capture_with<U, T, K>(
    client: &RestClient,
    params: U,
    data: &T,
    query: &[(&str, &str)],
) -> Result<Response<K>, Error>
where
    T: Serialize + RestPath<U>,
    K: DeserializeOwned,
{
    send(client, params, data, Some(query))?.parse()
}

#[test]
fn post_basic_post() {
    let client = RestClient::new("https://httpbin.org").unwrap();

    let data = HttpBinPost {
        data: String::from("test data"),
    };
    post(&client, (), &data).unwrap();
}

#[test]
fn post_post_query_params() {
    let client = RestClient::new("https://httpbin.org").unwrap();

    let params = vec![("a", "2"), ("b", "abcd")];
    let data = HttpBinPost {
        data: String::from("test data"),
    };
    post_with(&client, (), &data, &params).unwrap();
}

#[test]
fn post_post_capture() {
    let client = RestClient::new("https://httpbin.org").unwrap();

    let data = HttpBinPost {
        data: String::from("test data"),
    };
    let resp = post_capture::<_, _, HttpBinPostResp>(&client, (), &data).unwrap();

    assert_eq!(resp.json.data, "test data");
    assert_eq!(resp.url, "https://httpbin.org/post");
}

#[test]
fn post_post_capture_query_params() {
    let client = RestClient::new("https://httpbin.org").unwrap();

    let params = vec![("a", "2"), ("b", "abcd")];
    let data = HttpBinPost {
        data: String::from("test data"),
    };
    let resp = post_capture_with::<_, _, HttpBinPostResp>(&client, (), &data, &params).unwrap();

    assert_eq!(resp.json.data, "test data");
    assert_eq!(resp.url, "https://httpbin.org/post?a=2&b=abcd");
}

#[test]
fn post_request_carries_json() {
    let client = RestClient::new("https://httpbin.org").unwrap();

    let body = String::from("{\"data\":\"test data\"}");
    let request = client
        .make_request::<(), HttpBinPost>(Method::Post, (), None, Some(body.clone()))
        .unwrap();
    assert_eq!(request.method, Method::Post);
    assert_eq!(request.uri, "https://httpbin.org/post");
    assert_eq!(request.body, Some(body));
    assert_eq!(request.headers["content-length"], "20");
    assert_eq!(request.headers["content-type"], "application/json");
}
