use std::collections::HashMap;

use http_client::response::header_line;
use http_client::{
    parse_json, Action, ErrorKind, Event, Execution, HttpClient, HttpMethod, Interceptor, Request,
    RequestError, Response,
};
use serde_json::Value;

/// What stands for the transport handle here: the options an interceptor may
/// set.
#[derive(Default)]
struct Transport {
    basic_auth: bool,
    username: Option<String>,
    password: Option<String>,
}

/// An interceptor made of a closure.
struct Modify<F>(F);

impl<F: Fn(&mut Transport, &Request)> Interceptor<Transport> for Modify<F> {
    fn modify(&self, transport: &mut Transport, request: &Request) {
        (self.0)(transport, request)
    }

    fn add_headers(&self, _: &mut Vec<String>, _: &Request) {}
}

fn completed(status_code: u32, raw_headers: &[&[u8]], body: Vec<u8>) -> Event {
    let headers = raw_headers.iter().map(|raw| header_line(raw).unwrap()).collect();
    Event::Completed(Response { status_code, body, headers })
}

fn echo(url: &url::Url, lines: &[String]) -> Vec<u8> {
    let mut args = serde_json::Map::new();
    for (name, value) in url.query_pairs() {
        args.insert(name.into_owned(), Value::String(value.into_owned()));
    }
    let mut headers = serde_json::Map::new();
    for line in lines {
        let (name, value) = line.split_once(": ").unwrap();
        headers.insert(name.to_string(), Value::String(value.to_string()));
    }
    let mut document = serde_json::Map::new();
    document.insert("args".to_string(), Value::Object(args));
    document.insert("headers".to_string(), Value::Object(headers));
    document.insert("url".to_string(), Value::String(url.to_string()));
    serde_json::to_vec(&Value::Object(document)).unwrap()
}

/// A server that answers as an echo service does.
fn serve(request: &Request, lines: &[String], transport: &Transport) -> Event {
    let url = url::Url::parse(&request.url).unwrap();
    let segments: Vec<&str> = url.path_segments().unwrap().collect();
    let status_line: &[u8] = b"HTTP/1.1 200 OK\r\n";
    match segments.as_slice() {
        ["get"] | ["delay", _] => completed(
            200,
            &[status_line, b"content-type: application/json\r\n", b"\r\n"],
            echo(&url, lines),
        ),
        ["status", code] => completed(code.parse().unwrap(), &[b"\r\n"], vec![]),
        ["basic-auth", user, password] => {
            let allowed = transport.basic_auth
                && transport.username.as_deref() == Some(*user)
                && transport.password.as_deref() == Some(*password);
            if allowed {
                let mut document = serde_json::Map::new();
                document.insert("authenticated".to_string(), Value::Bool(true));
                document.insert("user".to_string(), Value::String(user.to_string()));
                completed(200, &[status_line], serde_json::to_vec(&Value::Object(document)).unwrap())
            } else {
                completed(401, &[b"HTTP/1.1 401 UNAUTHORIZED\r\n"], vec![])
            }
        }
        ["response-headers"] => {
            let mut raw: Vec<Vec<u8>> = vec![status_line.to_vec()];
            for (name, value) in url.query_pairs() {
                raw.push(format!("{}: {}\r\n", name.to_lowercase(), value).into_bytes());
            }
            let raw: Vec<&[u8]> = raw.iter().map(|line| line.as_slice()).collect();
            completed(200, &raw, b"{}".to_vec())
        }
        _ => completed(404, &[b"HTTP/1.1 404 NOT FOUND\r\n"], vec![]),
    }
}

/// One execution against the server above.
fn perform_request<I, R, P>(client: &HttpClient<I>, request: Request, parse: P) -> Result<R, RequestError>
where
    I: Interceptor<Transport>,
    P: FnOnce(Request, Response) -> Result<R, RequestError>,
{
    let mut transport = Transport::default();
    let lines = client.prepare(&request, &mut transport);
    let mut state = Execution::start(request);
    loop {
        state = match state.action() {
            Action::Transfer => {
                let event = match &state {
                    Execution::Attempting { request, .. } => serve(request, &lines, &transport),
                    _ => unreachable!(),
                };
                state.step(event)
            }
            Action::Sleep(_) => state.step(Event::Waited),
            Action::Deliver | Action::Report => return state.finish(parse),
        }
    }
}

fn decode(request: Request, response: Response) -> Result<Value, RequestError> {
    parse_json(request, response, |body| serde_json::from_slice(body))
}

fn get<I: Interceptor<Transport>>(client: &HttpClient<I>, path: &[&str]) -> Result<Value, RequestError> {
    perform_request(client, client.new_request(path), decode)
}

fn get_with_params<I: Interceptor<Transport>>(
    client: &HttpClient<I>,
    path: &[&str],
    params: &[(&str, &str)],
) -> Result<Value, RequestError> {
    perform_request(client, client.new_request_with_params(path, params), decode)
}

fn value_of(result: Result<Value, RequestError>) -> Value {
    match result {
        Ok(value) => value,
        Err(error) => panic!("{}", error.to_debug_string()),
    }
}

fn args_of(response: &Value) -> HashMap<String, String> {
    response["args"]
        .as_object()
        .unwrap()
        .iter()
        .map(|(name, value)| (name.clone(), value.as_str().unwrap().to_owned()))
        .collect()
}

fn two_params() -> HashMap<String, String> {
    [
        ("key1".to_owned(), "value1".to_owned()),
        ("key2".to_owned(), "value2".to_owned()),
    ]
    .iter()
    .cloned()
    .collect()
}

type Setup = fn(&mut Transport, &Request);

fn nothing(_: &mut Transport, _: &Request) {}

fn basic_auth(transport: &mut Transport, _: &Request) {
    transport.basic_auth = true;
    transport.username = Some("me".to_string());
    transport.password = Some("secure".to_string());
}

#[test]
fn get_test_get() {
    let url = url::Url::parse("https://httpbin.org/").unwrap();
    let http_client = HttpClient::new(url.as_ref()).unwrap();

    assert_eq!(
        value_of(get(&http_client, &["get"]))["url"],
        "https://httpbin.org/get"
    );
}

#[test]
fn test_get_join() {
    let http_client = HttpClient::new("https://httpbin.org/").unwrap();
    let results = (
        get(&http_client, &["delay", "2"]),
        get(&http_client, &["delay", "1"]),
    );

    assert_eq!(value_of(results.0)["url"], "https://httpbin.org/delay/2");
    assert_eq!(value_of(results.1)["url"], "https://httpbin.org/delay/1");
}

#[test]
fn get_test_get_with_params() {
    let http_client = HttpClient::new("https://httpbin.org/").unwrap();

    let params = vec![("key1", "value1"), ("key2", "value2")];
    let response = value_of(get_with_params(&http_client, &["get"], &params));

    assert_eq!(
        response["url"],
        "https://httpbin.org/get?key1=value1&key2=value2"
    );
    assert_eq!(args_of(&response), two_params())
}

#[test]
fn get_test_interceptor() {
    let mut http_client = HttpClient::new("https://httpbin.org/")
        .unwrap()
        .with_interceptor(Modify(nothing as Setup));

    http_client.set_interceptor(Modify(basic_auth as Setup));

    let response = value_of(get(&http_client, &["basic-auth", "me", "secure"]));

    assert_eq!(response["user"], "me");
    assert!(response["authenticated"].as_bool().unwrap());
}

#[test]
fn get_custom_test_get() {
    struct Found {
        location: String,
    }

    let url = url::Url::parse("https://httpbin.org/").unwrap();
    let http_client = HttpClient::new(url.as_ref()).unwrap();

    let params = vec![("Location", "test")];

    let request = http_client.new_request_with_params(&["response-headers"], &params);

    let response = perform_request(&http_client, request, |_request, response| {
        let mut location = None;

        for header in response.headers.iter() {
            if header.starts_with("location: ") {
                let (_, value) = header.split_at("Location: ".len());
                location = Some(value);
                break;
            }
        }

        Ok(Found {
            location: location
                .expect("Location header wasn't received")
                .to_string(),
        })
    });

    match response {
        Ok(found) => assert_eq!(found.location, "test"),
        Err(error) => panic!("{}", error.to_debug_string()),
    }
}

#[test]
fn get_json_test_get() {
    let url = url::Url::parse("https://httpbin.org/").unwrap();
    let http_client = HttpClient::new(url.as_ref()).unwrap();

    assert_eq!(
        value_of(get(&http_client, &["get"]))["url"],
        "https://httpbin.org/get"
    );
}

#[test]
fn get_json_test_get_with_params() {
    let http_client = HttpClient::new("https://httpbin.org/").unwrap();

    let params = vec![("key1", "value1"), ("key2", "value2")];
    let response = value_of(get_with_params(&http_client, &["get"], &params));

    assert_eq!(
        response["url"],
        "https://httpbin.org/get?key1=value1&key2=value2"
    );
    assert_eq!(args_of(&response), two_params())
}

#[test]
fn get_json_test_interceptor() {
    let http_client = HttpClient::new("https://httpbin.org/")
        .unwrap()
        .with_interceptor(Modify(|transport: &mut Transport, request: &Request| {
            basic_auth(transport, request)
        }));

    let response = value_of(get(&http_client, &["basic-auth", "me", "secure"]));

    assert_eq!(response["user"], "me");
    assert!(response["authenticated"].as_bool().unwrap());
}

#[test]
fn a_request_without_credentials_is_refused() {
    let http_client = HttpClient::new("https://httpbin.org/").unwrap();
    match get(&http_client, &["basic-auth", "me", "secure"]) {
        Err(RequestError { kind: ErrorKind::HttpError(response), .. }) => {
            assert_eq!(response.status_code, 401);
            assert_eq!(response.headers, vec!["HTTP/1.1 401 UNAUTHORIZED"]);
        }
        _ => panic!("a request without credentials went through"),
    }
}

#[test]
fn test_default_headers() {
    let mut http_client = HttpClient::new("https://httpbin.org/").unwrap();
    http_client.set_default_headers(&[("Authorization", "Bearer kek")]);

    let response = value_of(get(&http_client, &["get"]));

    assert_eq!(response["headers"]["Authorization"], "Bearer kek");
}

#[test]
fn test_request_headers() {
    let mut http_client = HttpClient::new("https://httpbin.org/").unwrap();
    http_client.set_default_headers(&[("Authorization", "Bearer default")]);

    let mut request = http_client.new_request(&["get"]);
    request.headers = Some(vec![("X-Kek-Id".to_string(), "123".to_string())]);

    let response = value_of(perform_request(&http_client, request, decode));

    assert_eq!(response["headers"]["Authorization"], "Bearer default");

    assert_eq!(response["headers"]["X-Kek-Id"], "123");
}

#[test]
fn test_interceptor_headers() {
    struct Authenticator;

    impl Interceptor<Transport> for Authenticator {
        fn modify(&self, _: &mut Transport, _: &Request) {}

        fn add_headers(&self, headers: &mut Vec<String>, _: &Request) {
            headers.push(format!("X-Interceptor: intercepted"));
        }
    }

    let mut http_client = HttpClient::new("https://httpbin.org/")
        .unwrap()
        .with_interceptor(Authenticator);
    http_client.set_default_headers(&[("Authorization", "Bearer default")]);

    let request = http_client.new_request(&["get"]);
    let response = value_of(perform_request(&http_client, request, decode));

    assert_eq!(response["headers"]["Authorization"], "Bearer default");

    assert_eq!(response["headers"]["X-Interceptor"], "intercepted");
}

#[test]
fn test_404() {
    let http_client = HttpClient::new("https://httpbin.org/").unwrap();
    let error = match get(&http_client, &["status", "404"]) {
        Err(error) => error,
        Ok(_) => panic!("status 404 gave a value"),
    };

    match &error.kind {
        ErrorKind::HttpError(response) => {
            assert_eq!(error.request.url.as_str(), "https://httpbin.org/status/404");
            assert!(error.request.method == HttpMethod::Get);
            assert_eq!(response.status_code, 404)
        }
        _ => panic!(
            r#"assertion failed:
expected: `ErrorKind::HttpError`
     got: `{}`"#,
            error.to_debug_string()
        ),
    }
}
