use xbrl_api_client::client::{resolve_response, HttpMethod, HttpOutcome, XbrlClient};
use xbrl_api_client::errors::XbrlApiError;
use xbrl_api_client::facts::FactValue;
use xbrl_api_client::json::JsonNumber;
use xbrl_api_client::models::{ApiResponse, PaginationParams, QueryParams, SearchParams};
use xbrl_api_client::taxonomy::Taxonomy;
use xbrl_api_client::text::u64_to_string;

fn taxonomy(name: &str) -> Taxonomy {
    Taxonomy {
        name: name.to_string(),
        description: format!("{} taxonomy", name),
        version: "2024".to_string(),
        documentation_url: None,
    }
}

#[test]
fn test_taxonomies_payload_order() {
    // A success envelope carrying three taxonomies comes back as exactly
    // those three, in the order the server sent them.
    let envelope = ApiResponse {
        status: "success".to_string(),
        message: None,
        data: Some(vec![taxonomy("us-gaap"), taxonomy("ifrs"), taxonomy("dei")]),
        errors: None,
    };
    let result = resolve_response(HttpOutcome::HttpSuccess {
        status_code: 200,
        envelope: Ok(envelope),
    });
    let taxonomies = result.unwrap();
    assert_eq!(taxonomies.len(), 3);
    assert_eq!(taxonomies[0].name, "us-gaap");
    assert_eq!(taxonomies[1].name, "ifrs");
    assert_eq!(taxonomies[2].name, "dei");
}

#[test]
fn test_resolve_unauthorized() {
    let result: Result<Vec<Taxonomy>, XbrlApiError> = resolve_response(HttpOutcome::HttpFailure {
        status_code: 401,
        body: "Unauthorized".to_string(),
    });
    match result {
        Err(XbrlApiError::ApiError {
            status_code,
            message,
        }) => {
            assert_eq!(status_code, 401);
            assert_eq!(message, "Unauthorized");
        }
        _ => panic!("Expected an API error with status code 401"),
    }
}

#[test]
fn test_resolve_server_error() {
    // The body need not have any particular shape.
    let result: Result<Vec<Taxonomy>, XbrlApiError> = resolve_response(HttpOutcome::HttpFailure {
        status_code: 500,
        body: "<html>oops</html>".to_string(),
    });
    match result {
        Err(XbrlApiError::ApiError { status_code, .. }) => assert_eq!(status_code, 500),
        _ => panic!("Expected an API error with status code 500"),
    }
}

#[test]
fn test_resolve_transport_failure() {
    let result: Result<Vec<Taxonomy>, XbrlApiError> =
        resolve_response(HttpOutcome::TransportFailure {
            message: "connection refused".to_string(),
        });
    match result {
        Err(XbrlApiError::HttpError(message)) => assert_eq!(message, "connection refused"),
        _ => panic!("Expected a transport error"),
    }
}

#[test]
fn test_resolve_malformed_envelope() {
    let result: Result<Vec<Taxonomy>, XbrlApiError> = resolve_response(HttpOutcome::HttpSuccess {
        status_code: 200,
        envelope: Err("expected value at line 1 column 1".to_string()),
    });
    match result {
        Err(XbrlApiError::SerializationError(message)) => {
            assert_eq!(message, "expected value at line 1 column 1")
        }
        _ => panic!("Expected a serialization error"),
    }
}

#[test]
fn test_resolve_null_data_with_message() {
    let envelope: ApiResponse<Vec<Taxonomy>> = ApiResponse {
        status: "error".to_string(),
        message: Some("no such taxonomy".to_string()),
        data: None,
        errors: None,
    };
    let result = resolve_response(HttpOutcome::HttpSuccess {
        status_code: 200,
        envelope: Ok(envelope),
    });
    match result {
        Err(XbrlApiError::ApiError {
            status_code,
            message,
        }) => {
            assert_eq!(status_code, 200);
            assert_eq!(message, "no such taxonomy");
        }
        _ => panic!("Expected an API error"),
    }
}

#[test]
fn test_resolve_null_data_default_message() {
    let envelope: ApiResponse<Vec<Taxonomy>> = ApiResponse {
        status: "error".to_string(),
        message: None,
        data: None,
        errors: None,
    };
    let result = resolve_response(HttpOutcome::HttpSuccess {
        status_code: 200,
        envelope: Ok(envelope),
    });
    match result {
        Err(XbrlApiError::ApiError {
            status_code,
            message,
        }) => {
            assert_eq!(status_code, 200);
            assert_eq!(message, "No error message provided");
        }
        _ => panic!("Expected an API error"),
    }
}

#[test]
fn test_with_pagination_page_only() {
    let mut params = QueryParams::new();
    XbrlClient::with_pagination(
        &mut params,
        Some(PaginationParams {
            page: Some(2),
            page_size: None,
        }),
    );
    assert_eq!(params.len(), 1);
    assert_eq!(params.get("page").unwrap().as_str(), "2");
    assert!(!params.contains_key("pageSize"));
}

#[test]
fn test_with_pagination_absent_fields() {
    let mut params = QueryParams::new();
    XbrlClient::with_pagination(
        &mut params,
        Some(PaginationParams {
            page: None,
            page_size: None,
        }),
    );
    assert_eq!(params.len(), 0);

    XbrlClient::with_pagination(&mut params, None);
    assert_eq!(params.len(), 0);
}

#[test]
fn test_with_pagination_both_fields() {
    let mut params = QueryParams::new();
    params.insert("taxonomy".to_string(), "us-gaap".to_string());
    XbrlClient::with_pagination(
        &mut params,
        Some(PaginationParams {
            page: Some(2),
            page_size: Some(50),
        }),
    );
    assert_eq!(params.len(), 3);
    assert_eq!(params.get("page").unwrap().as_str(), "2");
    assert_eq!(params.get("pageSize").unwrap().as_str(), "50");
    assert_eq!(params.get("taxonomy").unwrap().as_str(), "us-gaap");
}

#[test]
fn test_client_base_url() {
    let client = XbrlClient::new("some_key");
    assert_eq!(client.base_url(), "https://api.xbrl.us/api/v1");

    let mut client = XbrlClient::with_base_url("some_key", "http://localhost:8080/api");
    assert_eq!(client.base_url(), "http://localhost:8080/api");

    client.set_base_url("http://localhost:9090/api");
    assert_eq!(client.base_url(), "http://localhost:9090/api");
}

#[test]
fn test_request_builders() {
    let client = XbrlClient::with_base_url("test_api_key", "http://localhost:8080/api");

    let request = client.taxonomies_request();
    assert_eq!(request.method, HttpMethod::Get);
    assert_eq!(request.url, "http://localhost:8080/api/taxonomies");
    assert_eq!(request.header_name, "X-API-KEY");
    assert_eq!(request.header_value, "test_api_key");
    assert!(request.body.is_none());

    let request = client.reports_request("us-gaap");
    assert_eq!(request.url, "http://localhost:8080/api/reports?taxonomy=us-gaap");

    let request = client.facts_request("rpt-123456");
    assert_eq!(request.url, "http://localhost:8080/api/facts?reportId=rpt-123456");

    let request = client.concepts_request("us-gaap");
    assert_eq!(request.url, "http://localhost:8080/api/concepts?taxonomy=us-gaap");

    let request = client.concept_details_request("us-gaap", "Assets");
    assert_eq!(
        request.url,
        "http://localhost:8080/api/concepts/Assets?taxonomy=us-gaap"
    );

    let request = client.dimensions_request("us-gaap");
    assert_eq!(request.url, "http://localhost:8080/api/dimensions?taxonomy=us-gaap");

    let request = client.networks_request("us-gaap");
    assert_eq!(request.url, "http://localhost:8080/api/networks?taxonomy=us-gaap");

    let request = client.network_details_request("net-123");
    assert_eq!(request.url, "http://localhost:8080/api/networks/net-123");
}

#[test]
fn test_search_request_body() {
    let client = XbrlClient::with_base_url("test_api_key", "http://localhost:8080/api");
    let params = SearchParams {
        taxonomy: "us-gaap".to_string(),
        concept_name: Some("Assets".to_string()),
        entity_id: None,
        fiscal_year: None,
        fiscal_period: None,
        dimension_name: None,
        member_name: None,
        text_search: None,
        value_greater_than: None,
        value_less_than: None,
    };
    let request = client.search_request(&params);
    assert_eq!(request.method, HttpMethod::Post);
    assert_eq!(request.url, "http://localhost:8080/api/search");
    let body = request.body.unwrap();
    assert_eq!(body, "{\"taxonomy\":\"us-gaap\",\"concept_name\":\"Assets\"}");
}

#[test]
fn test_fact_value_round_trip() {
    let values = vec![
        FactValue::String("Test".to_string()),
        FactValue::String("a\"b\\c\nd".to_string()),
        FactValue::Number(JsonNumber::from_text("123.45".to_string()).unwrap()),
        FactValue::Number(JsonNumber::from_text("-0.5e10".to_string()).unwrap()),
        FactValue::Boolean(true),
        FactValue::Boolean(false),
    ];
    for value in values {
        let text = value.to_json();
        let back = FactValue::from_json(&text).unwrap();
        assert_eq!(back, value);
    }
}

#[test]
fn test_json_number_validation() {
    assert!(JsonNumber::from_text("0".to_string()).is_some());
    assert!(JsonNumber::from_text("123.45".to_string()).is_some());
    assert!(JsonNumber::from_text("-0.5e10".to_string()).is_some());
    assert!(JsonNumber::from_text("1E+9".to_string()).is_some());
    assert!(JsonNumber::from_text("".to_string()).is_none());
    assert!(JsonNumber::from_text("abc".to_string()).is_none());
    assert!(JsonNumber::from_text("01".to_string()).is_none());
    assert!(JsonNumber::from_text("1.".to_string()).is_none());
    assert!(JsonNumber::from_text("+1".to_string()).is_none());
    assert!(JsonNumber::from_text("1e".to_string()).is_none());
}

#[test]
fn test_fact_value_rejects_malformed() {
    assert!(FactValue::from_json("").is_none());
    assert!(FactValue::from_json("\"unterminated").is_none());
    assert!(FactValue::from_json("\"bad escape \\x\"").is_none());
    assert!(FactValue::from_json("null").is_none());
    assert!(FactValue::from_json("True").is_none());
}

#[test]
fn test_string_map_insert_replaces() {
    let mut map = QueryParams::new();
    map.insert("page".to_string(), "1".to_string());
    map.insert("page".to_string(), "2".to_string());
    assert_eq!(map.len(), 1);
    assert_eq!(map.get("page").unwrap().as_str(), "2");
    assert!(map.get("pageSize").is_none());
}

#[test]
fn test_decimal_rendering() {
    assert_eq!(u64_to_string(0), "0");
    assert_eq!(u64_to_string(7), "7");
    assert_eq!(u64_to_string(401), "401");
    assert_eq!(u64_to_string(1000000), "1000000");
}

#[test]
fn test_error_display_variants() {
    let err = XbrlApiError::SerializationError("bad json".to_string());
    assert_eq!(err.display_text(), "Serialization error: bad json");
    let err = XbrlApiError::UrlError("bad url".to_string());
    assert_eq!(err.display_text(), "URL error: bad url");
    let err = XbrlApiError::ValidationError("bad input".to_string());
    assert_eq!(err.display_text(), "Validation error: bad input");
    let err = XbrlApiError::Unknown("who knows".to_string());
    assert_eq!(err.display_text(), "Unknown error: who knows");
}

#[test]
fn test_fact_value_empty_string() {
    let value = FactValue::String("".to_string());
    let text = value.to_json();
    assert_eq!(text, "\"\"");
    let back = FactValue::from_json(&text).unwrap();
    assert_eq!(back, value);
}

#[test]
fn test_fact_value_escaped_output() {
    let value = FactValue::String("a\"b".to_string());
    assert_eq!(value.to_json(), "\"a\\\"b\"");
    let value = FactValue::String("line1\nline2\tend".to_string());
    assert_eq!(value.to_json(), "\"line1\\nline2\\tend\"");
}

#[test]
fn test_resolve_empty_payload_list() {
    // An empty list is still a present payload, not an error.
    let envelope: ApiResponse<Vec<Taxonomy>> = ApiResponse {
        status: "success".to_string(),
        message: None,
        data: Some(vec![]),
        errors: None,
    };
    let result = resolve_response(HttpOutcome::HttpSuccess {
        status_code: 200,
        envelope: Ok(envelope),
    });
    assert_eq!(result.unwrap().len(), 0);
}

#[test]
fn test_json_number_from_u64() {
    assert_eq!(JsonNumber::from_u64(0).as_text(), "0");
    assert_eq!(JsonNumber::from_u64(1_000_000).as_text(), "1000000");
}
