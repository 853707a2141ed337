use unraid::client::GraphQlError;
use unraid::client::GraphQlResponse;
use unraid::client::process_response;

#[test]
fn process_response_returns_data_when_no_errors() {
    let cases: Vec<(GraphQlResponse<String>, &str)> = vec![
        (
            GraphQlResponse {
                data: Some("hello".to_string()),
                errors: None,
            },
            "errors=None",
        ),
        (
            GraphQlResponse {
                data: Some("hello".to_string()),
                errors: Some(vec![]),
            },
            "errors=Some([])",
        ),
    ];

    for (response, label) in cases {
        let result = process_response(response).unwrap();
        assert_eq!(result, "hello", "{label}");
    }
}

#[test]
fn process_response_returns_error_when_data_is_none() {
    let response: GraphQlResponse<String> = GraphQlResponse {
        data: None,
        errors: None,
    };

    let err = process_response(response).unwrap_err();
    assert!(err.message().contains("No data returned"));
}

#[test]
fn process_response_returns_error_on_graphql_errors() {
    let response: GraphQlResponse<String> = GraphQlResponse {
        data: Some("ignored".to_string()),
        errors: Some(vec![GraphQlError {
            message: "field not found".to_string(),
        }]),
    };

    let err = process_response(response).unwrap_err();
    assert!(err.message().contains("GraphQL errors"));
    assert!(err.message().contains("field not found"));
}

#[test]
fn process_response_joins_multiple_error_messages() {
    let response: GraphQlResponse<String> = GraphQlResponse {
        data: None,
        errors: Some(vec![
            GraphQlError {
                message: "error one".to_string(),
            },
            GraphQlError {
                message: "error two".to_string(),
            },
        ]),
    };

    let err = process_response(response).unwrap_err();
    assert!(err.message().contains("error one"));
    assert!(err.message().contains("error two"));
}

#[test]
fn process_response_envelope_decision_rule() {
    // data present, errors absent
    let r1: GraphQlResponse<String> = GraphQlResponse {
        data: Some("x".to_string()),
        errors: None,
    };
    assert_eq!(process_response(r1).unwrap(), "x");

    // data present, errors present but empty
    let r2: GraphQlResponse<String> = GraphQlResponse {
        data: Some("x".to_string()),
        errors: Some(vec![]),
    };
    assert_eq!(process_response(r2).unwrap(), "x");

    // neither data nor errors
    let r3: GraphQlResponse<String> = GraphQlResponse {
        data: None,
        errors: None,
    };
    let e3 = process_response(r3).unwrap_err();
    assert!(e3.message().contains("No data returned"));

    // data present, but errors too: the errors win, joined with ", "
    let r4: GraphQlResponse<String> = GraphQlResponse {
        data: Some("x".to_string()),
        errors: Some(vec![
            GraphQlError {
                message: "a".to_string(),
            },
            GraphQlError {
                message: "b".to_string(),
            },
        ]),
    };
    let e4 = process_response(r4).unwrap_err();
    assert!(e4.message().contains("a"));
    assert!(e4.message().contains("b"));
    assert_eq!(e4.message(), "GraphQL errors: a, b");
}

#[test]
fn join_messages_uses_comma_space_between_messages() {
    let msgs = vec![
        GraphQlError {
            message: "one".to_string(),
        },
        GraphQlError {
            message: "two".to_string(),
        },
        GraphQlError {
            message: "three".to_string(),
        },
    ];
    assert_eq!(unraid::client::join_messages(&msgs), "one, two, three");

    let empty: Vec<GraphQlError> = vec![];
    assert_eq!(unraid::client::join_messages(&empty), "");
}
