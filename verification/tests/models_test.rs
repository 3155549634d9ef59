use serde_json::Value;
use xbrl_api_client::json::JsonNumber;
use xbrl_api_client::models::{EntityFilterParams, PaginationParams, SearchParams};

#[test]
fn test_pagination_params_serialization() {
    // Test with both fields
    let params = PaginationParams {
        page: Some(2),
        page_size: Some(50),
    };

    let serialized = params.to_json();
    let json: Value = serde_json::from_str(&serialized).unwrap();

    assert_eq!(json["page"], 2);
    assert_eq!(json["page_size"], 50);

    // Test with optional fields omitted
    let params = PaginationParams {
        page: None,
        page_size: Some(25),
    };

    let serialized = params.to_json();
    let json: Value = serde_json::from_str(&serialized).unwrap();

    assert!(json.get("page").is_none() || json["page"].is_null());
    assert_eq!(json["page_size"], 25);
}

#[test]
fn test_entity_filter_params_serialization() {
    let params = EntityFilterParams {
        entity_id: Some("ent-123".to_string()),
        entity_name: Some("Example Corp".to_string()),
        cik: Some("0001234567".to_string()),
    };

    let serialized = params.to_json();
    let json: Value = serde_json::from_str(&serialized).unwrap();

    assert_eq!(json["entity_id"], "ent-123");
    assert_eq!(json["entity_name"], "Example Corp");
    assert_eq!(json["cik"], "0001234567");

    // Test with optional fields omitted
    let params = EntityFilterParams {
        entity_id: None,
        entity_name: Some("Example Corp".to_string()),
        cik: None,
    };

    let serialized = params.to_json();
    let json: Value = serde_json::from_str(&serialized).unwrap();

    assert!(json.get("entity_id").is_none() || json["entity_id"].is_null());
    assert_eq!(json["entity_name"], "Example Corp");
    assert!(json.get("cik").is_none() || json["cik"].is_null());
}

#[test]
fn test_search_params_full_serialization() {
    let params = SearchParams {
        taxonomy: "us-gaap".to_string(),
        concept_name: Some("Assets".to_string()),
        entity_id: Some("ent-123".to_string()),
        fiscal_year: Some(2022),
        fiscal_period: Some("Q1".to_string()),
        dimension_name: Some("LegalEntityAxis".to_string()),
        member_name: Some("SubsidiaryMember".to_string()),
        text_search: Some("current assets".to_string()),
        value_greater_than: Some(JsonNumber::from_text("1000000.0".to_string()).unwrap()),
        value_less_than: Some(JsonNumber::from_text("2000000.0".to_string()).unwrap()),
    };

    let serialized = params.to_json();
    let json: Value = serde_json::from_str(&serialized).unwrap();

    assert_eq!(json["taxonomy"], "us-gaap");
    assert_eq!(json["concept_name"], "Assets");
    assert_eq!(json["entity_id"], "ent-123");
    assert_eq!(json["fiscal_year"], 2022);
    assert_eq!(json["fiscal_period"], "Q1");
    assert_eq!(json["dimension_name"], "LegalEntityAxis");
    assert_eq!(json["member_name"], "SubsidiaryMember");
    assert_eq!(json["text_search"], "current assets");
    assert_eq!(json["value_greater_than"], 1000000.0);
    assert_eq!(json["value_less_than"], 2000000.0);
}
