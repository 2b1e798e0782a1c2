use expo_notification::client::{ExpoClient, ExpoConfig, Header};
use expo_notification::json::{Json, Member};
use expo_notification::notification::Notification;

fn client(host: &str, path: &str, token: Option<&str>) -> ExpoClient {
    ExpoClient::new(ExpoConfig {
        host: host.to_string(),
        push_path: path.to_string(),
        access_token: token.map(|t| t.to_string()),
    })
}

fn header(name: &str, value: &str) -> Header {
    Header { name: name.to_string(), value: value.to_string() }
}

#[test]
fn the_address_is_host_and_path_as_they_are() {
    assert_eq!(
        client("https://exp.host", "/--/api/v2/push/send", None).push_url(),
        "https://exp.host/--/api/v2/push/send"
    );
    assert_eq!(client("https://exp.host/", "/send", None).push_url(), "https://exp.host//send");
    assert_eq!(client("https://exp.host", "send", None).push_url(), "https://exp.hostsend");
    assert_eq!(client("", "", None).push_url(), "");
}

#[test]
fn three_headers_go_with_every_request() {
    assert_eq!(
        client("h", "/p", None).headers(),
        vec![
            header("Accept", "application/json"),
            header("Accept-Encoding", "gzip, deflate"),
            header("Content-Type", "application/json"),
        ]
    );
}

#[test]
fn an_access_token_is_sent_as_a_bearer_token() {
    assert_eq!(
        client("h", "/p", Some("SECRET-REDACTED")).headers(),
        vec![
            header("Accept", "application/json"),
            header("Accept-Encoding", "gzip, deflate"),
            header("Content-Type", "application/json"),
            header("Authorization", "Bearer SECRET-REDACTED"),
        ]
    );
}

#[test]
fn a_request_holds_address_headers_and_message() {
    let c = client("https://exp.host", "/--/api/v2/push/send", Some("t0"));
    let mut n = Notification::new(vec!["a".to_string(), "b".to_string()]);
    n.with_title("Hello chip".to_string());
    let request = c.push_request(&n);
    assert_eq!(request.method, "POST");
    assert_eq!(request.url, c.push_url());
    assert_eq!(request.headers, c.headers());
    assert_eq!(request.body, n.to_json());
    assert_eq!(
        request.body,
        Json::Object(vec![
            Member {
                key: "to".to_string(),
                value: Json::Array(vec![Json::Text("a".to_string()), Json::Text("b".to_string())]),
            },
            Member { key: "title".to_string(), value: Json::Text("Hello chip".to_string()) },
        ])
    );
}

#[test]
fn a_client_gives_the_same_request_every_time() {
    let c = client("https://exp.host", "/send", None);
    let n = Notification::new(vec!["a".to_string()]);
    assert_eq!(c.push_request(&n), c.push_request(&n));
    assert_eq!(c.clone().push_request(&n), c.push_request(&n));
}
