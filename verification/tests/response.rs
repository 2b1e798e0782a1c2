use expo_notification::client::{DecodeError, ExpoClient, ExpoConfig, PushError, PushRequest, Reply};
use expo_notification::json::{Json, Member};
use expo_notification::notification::Notification;
use expo_notification::ticket::{
    Misfit, PushTicket, PushTicketResponse, ServerTicketError, TicketDetails,
};

fn tree(value: &serde_json::Value) -> Json {
    match value {
        serde_json::Value::Null => Json::Null,
        serde_json::Value::Bool(b) => Json::Bool(*b),
        serde_json::Value::Number(n) => {
            if let Some(u) = n.as_u64() {
                Json::Integer(u as i128)
            } else if let Some(i) = n.as_i64() {
                Json::Integer(i as i128)
            } else {
                Json::Real(n.as_f64().unwrap().to_bits())
            }
        }
        serde_json::Value::String(s) => Json::Text(s.clone()),
        serde_json::Value::Array(items) => Json::Array(items.iter().map(tree).collect()),
        serde_json::Value::Object(members) => Json::Object(
            members
                .iter()
                .map(|(key, value)| Member { key: key.clone(), value: tree(value) })
                .collect(),
        ),
    }
}

fn parse(text: &str) -> Json {
    tree(&serde_json::from_str::<serde_json::Value>(text).unwrap())
}

fn client() -> ExpoClient {
    ExpoClient::new(ExpoConfig {
        host: "https://exp.host".to_string(),
        push_path: "/--/api/v2/push/send".to_string(),
        access_token: None,
    })
}

fn message() -> Notification {
    Notification::new(vec!["ExponentPushToken[x]".to_string()])
}

fn answer(body: &str) -> Result<Vec<PushTicket>, PushError> {
    let body = parse(body);
    client().send_push_notification(&message(), move |_request: PushRequest| Reply::Body(body))
}

fn ok(id: &str) -> PushTicket {
    PushTicket { status: "ok".to_string(), id: id.to_string(), details: None }
}

#[test]
fn an_accepted_message_gives_its_ticket() {
    let tickets = answer("{\"data\":[{\"status\":\"ok\",\"id\":\"abc\"}]}").unwrap();
    assert_eq!(tickets.len(), 1);
    assert_eq!(tickets[0].status, "ok");
    assert_eq!(tickets[0].id, "abc");
    assert_eq!(tickets[0].details, None);
}

#[test]
fn a_refused_recipient_is_a_ticket_and_no_failure() {
    let tickets =
        answer("{\"data\":[{\"status\":\"error\",\"details\":{\"error\":\"DeviceNotRegistered\"}}]}")
            .unwrap();
    assert_eq!(
        tickets,
        vec![PushTicket {
            status: "error".to_string(),
            id: String::new(),
            details: Some(TicketDetails {
                error: "DeviceNotRegistered".to_string(),
                expo_push_token: None,
            }),
        }]
    );
}

#[test]
fn an_error_of_the_whole_request_fails_the_push() {
    let result = answer(
        "{\"data\":[],\"errors\":[{\"code\":\"RATE_LIMITED\",\"message\":\"...\",\"isTransient\":true}]}",
    );
    match result {
        Err(PushError::GatewayError(error)) => {
            assert_eq!(error.code, "RATE_LIMITED");
            assert_eq!(error.message, "...");
            assert!(error.is_transient);
        }
        other => panic!("not a gateway error: {:?}", other),
    }
}

#[test]
fn a_failed_connection_fails_the_push() {
    let result = client().send_push_notification(&message(), |_request: PushRequest| {
        Reply::Failed("connection refused".to_string())
    });
    assert_eq!(result, Err(PushError::TransportError("connection refused".to_string())));
}

#[test]
fn a_body_that_is_not_json_fails_the_push() {
    let result = client().send_push_notification(&message(), |_request: PushRequest| {
        Reply::Unreadable("expected value at line 1 column 1".to_string())
    });
    assert_eq!(
        result,
        Err(PushError::DecodeError(DecodeError::Syntax(
            "expected value at line 1 column 1".to_string()
        )))
    );
}

#[test]
fn the_transport_is_handed_the_request_once() {
    let mut calls = 0;
    let mut seen = None;
    let result = client().send_push_notification(&message(), |request: PushRequest| {
        calls += 1;
        seen = Some(request);
        Reply::Failed("down".to_string())
    });
    assert!(result.is_err());
    assert_eq!(calls, 1);
    assert_eq!(seen, Some(client().push_request(&message())));
}

#[test]
fn push_result_agrees_with_send() {
    let body = "{\"data\":[{\"status\":\"ok\",\"id\":\"abc\"}]}";
    assert_eq!(client().push_result(Reply::Body(parse(body))), answer(body));
    assert_eq!(client().push_result(Reply::Body(parse(body))), Ok(vec![ok("abc")]));
}

#[test]
fn tickets_keep_the_order_of_the_answer() {
    let tickets = answer(
        "{\"data\":[{\"status\":\"ok\",\"id\":\"3\"},{\"status\":\"ok\",\"id\":\"1\"},\
         {\"status\":\"error\",\"details\":{\"error\":\"MessageTooBig\"}},{\"status\":\"ok\",\"id\":\"2\"}]}",
    )
    .unwrap();
    assert_eq!(
        tickets,
        vec![
            ok("3"),
            ok("1"),
            PushTicket {
                status: "error".to_string(),
                id: String::new(),
                details: Some(TicketDetails {
                    error: "MessageTooBig".to_string(),
                    expo_push_token: None,
                }),
            },
            ok("2"),
        ]
    );
}

#[test]
fn details_may_name_the_token() {
    let tickets = answer(
        "{\"data\":[{\"status\":\"error\",\"id\":\"\",\"message\":\"gone\",\
         \"details\":{\"error\":\"DeviceNotRegistered\",\"expoPushToken\":\"ExponentPushToken[x]\"}}]}",
    )
    .unwrap();
    assert_eq!(
        tickets[0].details,
        Some(TicketDetails {
            error: "DeviceNotRegistered".to_string(),
            expo_push_token: Some("ExponentPushToken[x]".to_string()),
        })
    );
}

#[test]
fn an_empty_answer_gives_no_tickets() {
    assert_eq!(answer("{\"data\":[]}"), Ok(vec![]));
    assert_eq!(answer("{\"data\":[],\"errors\":[]}"), Ok(vec![]));
    assert_eq!(answer("{\"errors\":[],\"data\":[{\"status\":\"ok\",\"id\":\"a\"}]}"), Ok(vec![ok("a")]));
}

#[test]
fn the_first_error_of_several_is_given() {
    let result = answer(
        "{\"data\":[{\"status\":\"ok\",\"id\":\"a\"}],\"errors\":[\
         {\"code\":\"FIRST\",\"message\":\"one\",\"isTransient\":false},\
         {\"code\":\"SECOND\",\"message\":\"two\",\"isTransient\":true}]}",
    );
    assert_eq!(
        result,
        Err(PushError::GatewayError(ServerTicketError {
            code: "FIRST".to_string(),
            message: "one".to_string(),
            is_transient: false,
        }))
    );
}

#[test]
fn details_that_are_null_read_as_none() {
    assert_eq!(answer("{\"data\":[{\"status\":\"ok\",\"id\":\"a\",\"details\":null}]}"), Ok(vec![ok("a")]));
}

#[test]
fn a_status_is_passed_through_as_it_is() {
    let tickets = answer("{\"data\":[{\"status\":\"queued\"}]}").unwrap();
    assert_eq!(tickets[0].status, "queued");
    assert_eq!(tickets[0].id, "");
}

#[test]
fn members_under_unknown_keys_are_passed_over() {
    assert_eq!(
        answer("{\"meta\":{\"took\":1.25},\"data\":[{\"status\":\"ok\",\"id\":\"a\",\"extra\":[null]}]}"),
        Ok(vec![ok("a")])
    );
}

fn shape(body: &str, misfit: Misfit) {
    assert_eq!(answer(body), Err(PushError::DecodeError(DecodeError::Shape(misfit))), "{}", body);
    assert_eq!(PushTicketResponse::from_json(&parse(body)), Err(misfit), "{}", body);
}

#[test]
fn a_body_that_is_no_object_fails_the_push() {
    shape("null", Misfit::Document);
    shape("[]", Misfit::Document);
    shape("\"ok\"", Misfit::Document);
    shape("12", Misfit::Document);
    shape("[[{\"status\":\"ok\",\"id\":\"a\"}],[]]", Misfit::Document);
}

#[test]
fn an_answer_without_its_tickets_fails_the_push() {
    shape("{}", Misfit::Data);
    shape("{\"errors\":[]}", Misfit::Data);
    shape("{\"data\":null}", Misfit::Data);
    shape("{\"data\":{}}", Misfit::Data);
    shape("{\"data\":\"\",\"errors\":null}", Misfit::Data);
    shape("{\"Data\":[]}", Misfit::Data);
}

#[test]
fn the_first_item_that_is_no_ticket_is_named() {
    shape("{\"data\":[1]}", Misfit::Ticket(0));
    shape("{\"data\":[{}]}", Misfit::Ticket(0));
    shape("{\"data\":[{\"id\":\"a\"}]}", Misfit::Ticket(0));
    shape("{\"data\":[{\"status\":1}]}", Misfit::Ticket(0));
    shape("{\"data\":[{\"status\":null}]}", Misfit::Ticket(0));
    shape("{\"data\":[{\"status\":\"ok\",\"id\":null}]}", Misfit::Ticket(0));
    shape("{\"data\":[{\"status\":\"ok\",\"id\":7}]}", Misfit::Ticket(0));
    shape("{\"data\":[{\"status\":\"ok\",\"details\":\"x\"}]}", Misfit::Ticket(0));
    shape("{\"data\":[{\"status\":\"error\",\"details\":{}}]}", Misfit::Ticket(0));
    shape("{\"data\":[{\"status\":\"error\",\"details\":{\"error\":1}}]}", Misfit::Ticket(0));
    shape(
        "{\"data\":[{\"status\":\"error\",\"details\":{\"error\":\"E\",\"expoPushToken\":1}}]}",
        Misfit::Ticket(0),
    );
    shape("{\"data\":[{\"status\":\"ok\",\"id\":\"a\"},{\"status\":\"ok\",\"id\":2}]}", Misfit::Ticket(1));
    shape(
        "{\"data\":[{\"status\":\"ok\"},{\"status\":\"ok\"},null,{\"status\":\"ok\"},0]}",
        Misfit::Ticket(2),
    );
    shape("{\"data\":[{\"status\":\"ok\"},7],\"errors\":null}", Misfit::Ticket(1));
    shape("{\"errors\":[3],\"data\":[7]}", Misfit::Ticket(0));
}

#[test]
fn errors_of_another_shape_fail_the_push() {
    shape("{\"data\":[],\"errors\":null}", Misfit::Errors);
    shape("{\"data\":[],\"errors\":{}}", Misfit::Errors);
    shape("{\"data\":[{\"status\":\"ok\"}],\"errors\":\"none\"}", Misfit::Errors);
    shape("{\"data\":[],\"errors\":[{\"code\":\"C\",\"message\":\"m\"}]}", Misfit::ServerError(0));
    shape("{\"data\":[],\"errors\":[{\"code\":\"C\",\"isTransient\":true}]}", Misfit::ServerError(0));
    shape("{\"data\":[],\"errors\":[{\"message\":\"m\",\"isTransient\":true}]}", Misfit::ServerError(0));
    shape(
        "{\"data\":[],\"errors\":[{\"code\":\"C\",\"message\":\"m\",\"isTransient\":\"yes\"}]}",
        Misfit::ServerError(0),
    );
    shape(
        "{\"data\":[],\"errors\":[{\"code\":\"C\",\"message\":\"m\",\"is_transient\":true}]}",
        Misfit::ServerError(0),
    );
    shape(
        "{\"data\":[],\"errors\":[{\"code\":\"C\",\"message\":\"m\",\"isTransient\":true},[],1]}",
        Misfit::ServerError(1),
    );
}

#[test]
fn a_known_key_given_twice_fails_the_push() {
    let twice = Json::Object(vec![
        Member { key: "data".to_string(), value: Json::Array(vec![]) },
        Member { key: "data".to_string(), value: Json::Array(vec![]) },
    ]);
    assert_eq!(
        client().push_result(Reply::Body(twice)),
        Err(PushError::DecodeError(DecodeError::Shape(Misfit::Data)))
    );
    let inner = Json::Object(vec![Member {
        key: "data".to_string(),
        value: Json::Array(vec![Json::Object(vec![
            Member { key: "status".to_string(), value: Json::Text("ok".to_string()) },
            Member { key: "status".to_string(), value: Json::Text("ok".to_string()) },
        ])]),
    }]);
    assert_eq!(
        client().push_result(Reply::Body(inner)),
        Err(PushError::DecodeError(DecodeError::Shape(Misfit::Ticket(0))))
    );
    let errors_twice = Json::Object(vec![
        Member { key: "errors".to_string(), value: Json::Array(vec![]) },
        Member { key: "data".to_string(), value: Json::Array(vec![]) },
        Member { key: "errors".to_string(), value: Json::Array(vec![]) },
    ]);
    assert_eq!(
        client().push_result(Reply::Body(errors_twice)),
        Err(PushError::DecodeError(DecodeError::Shape(Misfit::Errors)))
    );
}

#[test]
fn an_answer_with_errors_still_reads_as_a_response() {
    let response = PushTicketResponse::from_json(&parse(
        "{\"data\":[{\"status\":\"ok\",\"id\":\"a\"}],\
         \"errors\":[{\"code\":\"C\",\"message\":\"m\",\"isTransient\":true}]}",
    ))
    .unwrap();
    assert_eq!(response.data, vec![ok("a")]);
    assert_eq!(
        response.errors,
        vec![ServerTicketError {
            code: "C".to_string(),
            message: "m".to_string(),
            is_transient: true,
        }]
    );
}

#[test]
fn each_part_of_an_answer_reads_alone() {
    assert_eq!(PushTicket::from_json(&parse("{\"status\":\"ok\",\"id\":\"z\"}")), Some(ok("z")));
    assert_eq!(PushTicket::from_json(&parse("[]")), None);
    assert_eq!(
        TicketDetails::from_json(&parse("{\"error\":\"E\",\"expoPushToken\":null}")),
        Some(TicketDetails { error: "E".to_string(), expo_push_token: None })
    );
    assert_eq!(TicketDetails::from_json(&parse("{\"expoPushToken\":\"t\"}")), None);
    assert_eq!(
        ServerTicketError::from_json(&parse("{\"isTransient\":false,\"message\":\"m\",\"code\":\"C\"}")),
        Some(ServerTicketError {
            code: "C".to_string(),
            message: "m".to_string(),
            is_transient: false,
        })
    );
    assert_eq!(ServerTicketError::from_json(&parse("true")), None);
    assert_eq!(
        PushTicket::list_from_json(&vec![parse("{\"status\":\"ok\"}"), parse("{\"status\":\"error\"}")])
            .map(|tickets| tickets.len()),
        Ok(2)
    );
    assert_eq!(PushTicket::list_from_json(&vec![parse("{\"status\":\"ok\"}"), parse("0")]), Err(1));
    assert_eq!(PushTicket::list_from_json(&vec![]), Ok(vec![]));
    assert_eq!(ServerTicketError::list_from_json(&vec![]), Ok(vec![]));
    assert_eq!(ServerTicketError::list_from_json(&vec![parse("{}")]), Err(0));
}
