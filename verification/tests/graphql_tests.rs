use api_tester::graphql::{
    conclude, graphql_call, graphql_outcome, GraphQLError, GraphQLEvent, GraphQLRequest,
    GraphQLResponse,
};
use api_tester::method::Method;
use api_tester::outbound::{OutboundCall, Payload, UpstreamBody};
use api_tester::settings::Settings;

fn json(text: &str) -> serde_json::Value {
    serde_json::from_str(text).unwrap()
}

fn pair(name: &str, value: &str) -> (String, String) {
    (name.to_string(), value.to_string())
}

fn answered(body: &str, elapsed_ms: u64) -> GraphQLEvent {
    GraphQLEvent::Answered { body: UpstreamBody::Bytes { bytes: body.as_bytes().to_vec() }, elapsed_ms }
}

fn operation(headers: Option<Vec<(String, String)>>) -> GraphQLRequest {
    GraphQLRequest {
        url: "http://gql".to_string(),
        query: "{ a }".to_string(),
        variables: None,
        headers,
    }
}

#[test]
fn an_operation_is_always_a_post_with_a_json_content_type() {
    let settings = Settings::default();
    let call = graphql_call(
        GraphQLRequest {
            url: "http://gql".to_string(),
            query: "{ me { name } }".to_string(),
            variables: None,
            headers: None,
        },
        &settings,
    );
    assert_eq!(
        call,
        OutboundCall {
            method: Method::Post,
            url: "http://gql".to_string(),
            headers: vec![pair("content-type", "application/json")],
            body: Some(Payload::GraphQl { query: "{ me { name } }".to_string(), variables: None }),
            timeout_secs: Some(30),
        }
    );
}

#[test]
fn the_call_is_bounded_by_the_configured_timeout() {
    let mut settings = Settings::default();
    settings.request_timeout_secs = 7;
    let call = graphql_call(operation(None), &settings);
    assert_eq!(call.timeout_secs, Some(7));
}

#[test]
fn the_callers_headers_follow_the_default_and_bad_ones_are_dropped() {
    let settings = Settings::default();
    let call = graphql_call(
        GraphQLRequest {
            url: "http://gql".to_string(),
            query: "query($id: ID!) { item(id: $id) { id } }".to_string(),
            variables: Some(json("{\"id\":\"7\"}")),
            headers: Some(vec![
                pair("authorization", "Bearer abc"),
                pair("bad header", "x"),
                pair("x-trace", "1"),
            ]),
        },
        &settings,
    );
    assert_eq!(
        call.headers,
        vec![
            pair("content-type", "application/json"),
            pair("authorization", "Bearer abc"),
            pair("x-trace", "1"),
        ]
    );
    assert_eq!(
        call.body,
        Some(Payload::GraphQl {
            query: "query($id: ID!) { item(id: $id) { id } }".to_string(),
            variables: Some(json("{\"id\":\"7\"}")),
        })
    );
}

#[test]
fn the_callers_content_type_replaces_the_default() {
    let settings = Settings::default();
    let call = graphql_call(
        operation(Some(vec![pair("Content-Type", "application/graphql"), pair("X-Trace", "1")])),
        &settings,
    );
    assert_eq!(
        call.headers,
        vec![pair("Content-Type", "application/graphql"), pair("X-Trace", "1")]
    );
    let call = graphql_call(
        operation(Some(vec![pair("x-trace", "1"), pair("CONTENT-TYPE", "text/plain")])),
        &settings,
    );
    assert_eq!(call.headers, vec![pair("x-trace", "1"), pair("CONTENT-TYPE", "text/plain")]);
}

#[test]
fn a_content_type_that_cannot_be_sent_does_not_replace_the_default() {
    let settings = Settings::default();
    let call = graphql_call(
        operation(Some(vec![pair("content-type", "bad\nvalue"), pair("content_type", "x")])),
        &settings,
    );
    assert_eq!(
        call.headers,
        vec![pair("content-type", "application/json"), pair("content_type", "x")]
    );
}

#[test]
fn an_endpoint_that_never_answers_is_a_gateway_timeout() {
    let outcome = graphql_outcome(GraphQLEvent::TimedOut);
    assert_eq!(outcome, Err(GraphQLError::Timeout));
    assert_eq!(GraphQLError::Timeout.status_code(), 504);
    assert_eq!(GraphQLError::Timeout.message(), "Request timeout");
}

#[test]
fn errors_from_the_endpoint_are_passed_on_as_they_are() {
    let outcome = graphql_outcome(answered(
        "{\"errors\":[{\"message\":\"Cannot query field bad\"}],\"data\":null}",
        17,
    ));
    assert_eq!(
        outcome,
        Ok(GraphQLResponse {
            data: Some(serde_json::Value::Null),
            errors: Some(json("[{\"message\":\"Cannot query field bad\"}]")),
            duration_ms: 17,
        })
    );
}

#[test]
fn data_is_passed_on_as_it_is() {
    let outcome = graphql_outcome(answered("{\"data\":{\"me\":{\"name\":\"Ada\"}}}", 5));
    assert_eq!(
        outcome,
        Ok(GraphQLResponse { data: Some(json("{\"me\":{\"name\":\"Ada\"}}")), errors: None, duration_ms: 5 })
    );
}

#[test]
fn an_answer_that_is_no_object_has_neither_data_nor_errors() {
    assert_eq!(
        graphql_outcome(answered("[1,2]", 1)),
        Ok(GraphQLResponse { data: None, errors: None, duration_ms: 1 })
    );
    assert_eq!(
        graphql_outcome(answered("{\"Data\":1}", 1)),
        Ok(GraphQLResponse { data: None, errors: None, duration_ms: 1 })
    );
}

#[test]
fn an_answer_that_is_not_json_is_an_error() {
    let outcome = graphql_outcome(answered("<html>", 1));
    let error = GraphQLError::MalformedResponse { reason: "expected value at line 1 column 1".to_string() };
    assert_eq!(outcome, Err(error.clone()));
    assert_eq!(error.status_code(), 500);
    assert_eq!(error.message(), "Failed to parse GraphQL response: expected value at line 1 column 1");

    let outcome = graphql_outcome(answered("", 1));
    assert_eq!(
        outcome,
        Err(GraphQLError::MalformedResponse {
            reason: "EOF while parsing a value at line 1 column 0".to_string(),
        })
    );
}

#[test]
fn an_answer_that_broke_off_is_an_error() {
    let outcome = graphql_outcome(GraphQLEvent::Answered {
        body: UpstreamBody::Unreadable { reason: "connection reset".to_string() },
        elapsed_ms: 1,
    });
    assert_eq!(outcome, Err(GraphQLError::MalformedResponse { reason: "connection reset".to_string() }));
}

#[test]
fn an_unreachable_endpoint_is_an_error() {
    let outcome = graphql_outcome(GraphQLEvent::Unreachable { reason: "dns failure".to_string() });
    let error = GraphQLError::RequestFailed { reason: "dns failure".to_string() };
    assert_eq!(outcome, Err(error.clone()));
    assert_eq!(error.status_code(), 500);
    assert_eq!(error.message(), "GraphQL request failed: dns failure");
}

#[test]
fn conclude_takes_the_parse_as_given() {
    assert_eq!(
        conclude(serde_json::from_str("{\"data\":1,\"errors\":2,\"extensions\":3}"), 4),
        Ok(GraphQLResponse { data: Some(json("1")), errors: Some(json("2")), duration_ms: 4 })
    );
    assert_eq!(
        conclude(serde_json::from_str("{"), 4),
        Err(GraphQLError::MalformedResponse {
            reason: "EOF while parsing an object at line 1 column 1".to_string(),
        })
    );
}

#[test]
fn of_two_content_types_of_the_caller_the_last_goes_out_alone() {
    let settings = Settings::default();
    let call = graphql_call(
        operation(Some(vec![
            pair("content-type", "a/b"),
            pair("x-trace", "1"),
            pair("Content-Type", "c/d"),
        ])),
        &settings,
    );
    assert_eq!(call.headers, vec![pair("x-trace", "1"), pair("Content-Type", "c/d")]);
}
