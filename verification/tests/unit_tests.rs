use tokio::runtime::Runtime;
use xbrl_api_client::endpoints::Endpoints;
use xbrl_api_client::errors::XbrlApiError;
use xbrl_api_client::facts::FactValue;
use xbrl_api_client::json::JsonNumber;
use xbrl_api_client::models::SearchParams;

#[test]
fn test_endpoints_default() {
    let endpoints = Endpoints::default();
    assert_eq!(endpoints.base_url(), "https://api.xbrl.us/api/v1");
    assert_eq!(endpoints.taxonomies(), "https://api.xbrl.us/api/v1/taxonomies");
    assert_eq!(
        endpoints.reports("us-gaap"),
        "https://api.xbrl.us/api/v1/reports?taxonomy=us-gaap"
    );
}

#[test]
fn test_endpoints_custom_base_url() {
    let endpoints = Endpoints::new("http://localhost:8080/api");
    assert_eq!(endpoints.base_url(), "http://localhost:8080/api");
    assert_eq!(endpoints.taxonomies(), "http://localhost:8080/api/taxonomies");
    assert_eq!(
        endpoints.reports("us-gaap"),
        "http://localhost:8080/api/reports?taxonomy=us-gaap"
    );
}

#[test]
fn test_fact_value_serialization() {
    // String value
    let string_value = FactValue::String("Test".to_string());
    let serialized = string_value.to_json();
    assert_eq!(serialized, "\"Test\"");

    // Number value
    let number_value = FactValue::Number(JsonNumber::from_text("123.45".to_string()).unwrap());
    let serialized = number_value.to_json();
    assert_eq!(serialized, "123.45");

    // Boolean value
    let bool_value = FactValue::Boolean(true);
    let serialized = bool_value.to_json();
    assert_eq!(serialized, "true");
}

#[test]
fn test_fact_value_deserialization() {
    // String value
    let json_string = "\"Test\"";
    let deserialized = FactValue::from_json(json_string).unwrap();
    match deserialized {
        FactValue::String(val) => assert_eq!(val, "Test"),
        _ => panic!("Expected String value"),
    }

    // Number value
    let json_number = "123.45";
    let deserialized = FactValue::from_json(json_number).unwrap();
    match deserialized {
        FactValue::Number(val) => assert_eq!(val.as_text(), "123.45"),
        _ => panic!("Expected Number value"),
    }

    // Boolean value
    let json_bool = "true";
    let deserialized = FactValue::from_json(json_bool).unwrap();
    match deserialized {
        FactValue::Boolean(val) => assert_eq!(val, true),
        _ => panic!("Expected Boolean value"),
    }
}

#[test]
fn test_search_params_serialization() {
    let params = SearchParams {
        taxonomy: "us-gaap".to_string(),
        concept_name: Some("Assets".to_string()),
        entity_id: None,
        fiscal_year: Some(2022),
        fiscal_period: Some("FY".to_string()),
        dimension_name: None,
        member_name: None,
        text_search: None,
        value_greater_than: Some(JsonNumber::from_text("1000000.0".to_string()).unwrap()),
        value_less_than: None,
    };

    let serialized = params.to_json();

    // Check that the JSON contains the expected fields
    let json: serde_json::Value = serde_json::from_str(&serialized).unwrap();
    assert_eq!(json["taxonomy"], "us-gaap");
    assert_eq!(json["concept_name"], "Assets");
    assert_eq!(json["fiscal_year"], 2022);
    assert_eq!(json["fiscal_period"], "FY");
    assert_eq!(json["value_greater_than"], 1_000_000.0);

    // Make sure the null fields are not included
    assert!(json.get("entity_id").is_none() || json["entity_id"].is_null());
    assert!(json.get("dimension_name").is_none() || json["dimension_name"].is_null());
}

#[test]
fn test_error_handling() {
    // HTTP error - create a reqwest error by requesting a closed port
    let http_err = {
        let rt = Runtime::new().unwrap();
        rt.block_on(async {
            match reqwest::get("http://localhost:1").await {
                Ok(_) => panic!("Expected request to fail"),
                Err(e) => e,
            }
        })
    };

    let xbrl_err = XbrlApiError::HttpError(http_err.to_string());
    assert!(xbrl_err.display_text().contains("HTTP error"));

    // API error
    let api_err = XbrlApiError::ApiError {
        status_code: 401,
        message: "Unauthorized".to_string(),
    };
    assert_eq!(api_err.display_text(), "API error: 401 - Unauthorized");

    // Auth error
    let auth_err = XbrlApiError::AuthError("Invalid API key".to_string());
    assert_eq!(auth_err.display_text(), "Authentication error: Invalid API key");
}
