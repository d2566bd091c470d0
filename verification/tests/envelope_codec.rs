//! The inbound envelope: decoding, success and error signalling, and the
//! typed record shapes.

use novaposhta::decode_typed;
use novaposhta::error::NovaError;
use novaposhta::json::JsonValue;
use novaposhta::models::{NovaDeliveryDate, NovaDocumentPrice, NovaShipmentCreated};
use novaposhta::raw::{NovaCity, NovaTTNFromList, ScanSheetRefsDelete};
use novaposhta::NovaResponse;

fn obj(fields: Vec<(&str, JsonValue)>) -> JsonValue {
    JsonValue::Obj(
        fields
            .into_iter()
            .map(|(k, v)| (k.to_string(), v))
            .collect(),
    )
}

fn s(text: &str) -> JsonValue {
    JsonValue::Str(text.to_string())
}

fn envelope(success: bool, data: Vec<JsonValue>, errors: Vec<JsonValue>) -> JsonValue {
    obj(vec![
        ("success", JsonValue::Bool(success)),
        ("data", JsonValue::Arr(data)),
        ("errors", JsonValue::Arr(errors)),
        ("warnings", JsonValue::Arr(vec![])),
    ])
}

fn city(description: &str, id: &str) -> JsonValue {
    obj(vec![("description", s(description)), ("ref", s(id))])
}

#[test]
fn first_or_error_returns_single_record_unchanged() {
    let resp = NovaResponse {
        success: true,
        data: vec![NovaCity {
            description: "Kharkiv".to_string(),
            id: "ref-1".to_string(),
        }],
        errors: vec![],
        warnings: vec![],
    };
    let got = resp.first_or_error().unwrap();
    assert_eq!(got.description, "Kharkiv");
    assert_eq!(got.id, "ref-1");
}

#[test]
fn first_or_error_empty_data_is_empty_result() {
    let resp: NovaResponse<NovaCity> = NovaResponse {
        success: true,
        data: vec![],
        errors: vec![s("nothing matched")],
        warnings: vec![],
    };
    match resp.first_or_error() {
        Err(NovaError::EmptyResult { errors }) => assert_eq!(errors, vec![s("nothing matched")]),
        other => panic!("expected EmptyResult, got {:?}", other),
    }
}

#[test]
fn first_or_error_failure_is_carrier_rejection_with_errors() {
    let resp: NovaResponse<NovaCity> = NovaResponse {
        success: false,
        data: vec![],
        errors: vec![s("API key is invalid")],
        warnings: vec![],
    };
    match resp.first_or_error() {
        Err(NovaError::CarrierRejection { errors }) => {
            assert_eq!(errors, vec![s("API key is invalid")])
        }
        other => panic!("expected CarrierRejection, got {:?}", other),
    }
}

#[test]
fn first_or_error_keeps_first_of_many() {
    let resp = NovaResponse {
        success: true,
        data: vec![
            NovaCity {
                description: "first".to_string(),
                id: "1".to_string(),
            },
            NovaCity {
                description: "second".to_string(),
                id: "2".to_string(),
            },
        ],
        errors: vec![],
        warnings: vec![],
    };
    assert_eq!(resp.first_or_error().unwrap().id, "1");
}

#[test]
fn decode_typed_decodes_every_data_element() {
    let env = envelope(
        true,
        vec![city("Kharkiv", "ref-1"), city("Kyiv", "ref-2")],
        vec![],
    );
    let resp: NovaResponse<NovaCity> = decode_typed(env).unwrap();
    assert!(resp.success);
    assert_eq!(resp.data.len(), 2);
    assert_eq!(resp.data[0].description, "Kharkiv");
    assert_eq!(resp.data[1].id, "ref-2");
}

#[test]
fn decode_typed_carrier_failure_keeps_error_list() {
    let env = envelope(false, vec![], vec![s("rejected")]);
    match decode_typed::<NovaCity>(env) {
        Err(NovaError::CarrierRejection { errors }) => assert_eq!(errors, vec![s("rejected")]),
        other => panic!("expected CarrierRejection, got {:?}", other),
    }
}

#[test]
fn decode_typed_refuses_non_object_envelope() {
    match decode_typed::<NovaCity>(JsonValue::Null) {
        Err(NovaError::Transport { .. }) => {}
        other => panic!("expected Transport, got {:?}", other),
    }
}

#[test]
fn decode_typed_refuses_envelope_without_success() {
    let env = obj(vec![
        ("data", JsonValue::Arr(vec![])),
        ("errors", JsonValue::Arr(vec![])),
        ("warnings", JsonValue::Arr(vec![])),
    ]);
    match decode_typed::<NovaCity>(env) {
        Err(NovaError::Transport { .. }) => {}
        other => panic!("expected Transport, got {:?}", other),
    }
}

#[test]
fn decode_typed_one_bad_element_fails_whole_call() {
    let env = envelope(
        true,
        vec![city("Kharkiv", "ref-1"), obj(vec![("description", s("no ref"))])],
        vec![],
    );
    match decode_typed::<NovaCity>(env) {
        Err(NovaError::Transport { .. }) => {}
        other => panic!("expected Transport, got {:?}", other),
    }
}

#[test]
fn decode_typed_refuses_non_string_field() {
    let env = envelope(
        true,
        vec![obj(vec![
            ("description", JsonValue::Int(5)),
            ("ref", s("r")),
        ])],
        vec![],
    );
    assert!(decode_typed::<NovaCity>(env).is_err());
}

#[test]
fn decode_shipment_created_record() {
    let env = envelope(
        true,
        vec![obj(vec![
            ("intDocNumber", s("20450000000000")),
            ("Ref", s("doc-ref")),
            ("estimatedDeliveryDate", s("2024-03-08")),
        ])],
        vec![],
    );
    let created: NovaShipmentCreated = decode_typed(env)
        .unwrap()
        .first_or_error()
        .unwrap();
    assert_eq!(created.int_doc_number, "20450000000000");
    assert_eq!(created.id, "doc-ref");
    assert_eq!(created.estimated_delivery_date, "2024-03-08");
}

#[test]
fn print_url_names_document_and_key() {
    let created = NovaShipmentCreated {
        int_doc_number: "204".to_string(),
        id: "doc-ref".to_string(),
        estimated_delivery_date: "2024-03-08".to_string(),
    };
    assert_eq!(
        created.print("KEY"),
        "https://my.novaposhta.ua/orders/printDocument/orders[]/doc-ref/type/pdf/apiKey/KEY"
    );
}

#[test]
fn decode_document_price_wants_numbers() {
    let env = envelope(
        true,
        vec![obj(vec![
            ("cost", JsonValue::Int(70)),
            ("costRedelivery", JsonValue::Int(2)),
            ("assessedCost", JsonValue::Int(150)),
        ])],
        vec![],
    );
    let price: NovaDocumentPrice = decode_typed(env).unwrap().first_or_error().unwrap();
    assert_eq!(price.cost, 70);
    assert_eq!(price.cost_redelivery, 2);
    assert_eq!(price.assessed_cost, 150);
}

#[test]
fn decode_document_price_rejects_out_of_range() {
    let env = envelope(
        true,
        vec![obj(vec![
            ("cost", JsonValue::Int(1 << 40)),
            ("costRedelivery", JsonValue::Int(2)),
            ("assessedCost", JsonValue::Int(150)),
        ])],
        vec![],
    );
    assert!(decode_typed::<NovaDocumentPrice>(env).is_err());
}

#[test]
fn decode_delivery_date_is_nested() {
    let env = envelope(
        true,
        vec![obj(vec![(
            "deliveryDate",
            obj(vec![
                ("date", s("2024-03-08 00:00:00")),
                ("timezone", s("Europe/Kiev")),
            ]),
        )])],
        vec![],
    );
    let dd: NovaDeliveryDate = decode_typed(env).unwrap().first_or_error().unwrap();
    assert_eq!(dd.delivery_date.date, "2024-03-08 00:00:00");
    assert_eq!(dd.delivery_date.timezone, "Europe/Kiev");
}

#[test]
fn decode_delivery_date_missing_timezone_fails() {
    let env = envelope(
        true,
        vec![obj(vec![(
            "deliveryDate",
            obj(vec![("date", s("2024-03-08"))]),
        )])],
        vec![],
    );
    assert!(decode_typed::<NovaDeliveryDate>(env).is_err());
}

#[test]
fn decode_document_list_tolerates_missing_fields() {
    let env = envelope(
        true,
        vec![obj(vec![("IntDocNumber", s("204")), ("State", s("Done"))])],
        vec![],
    );
    let doc: NovaTTNFromList = decode_typed(env).unwrap().first_or_error().unwrap();
    assert_eq!(doc.int_doc_number, "204");
    assert_eq!(doc.state, "Done");
    assert_eq!(doc.cost, "");
    assert_eq!(doc.city_sender, "");
}

#[test]
fn decode_scan_sheet_delete_is_nested_and_tolerant() {
    let env = envelope(
        true,
        vec![obj(vec![(
            "ScanSheetRefsDelete",
            obj(vec![("Ref", s("sheet-ref")), ("Number", s("105"))]),
        )])],
        vec![],
    );
    let del: ScanSheetRefsDelete = decode_typed(env).unwrap().first_or_error().unwrap();
    assert_eq!(del.scan_sheet_refs_delete.id, "sheet-ref");
    assert_eq!(del.scan_sheet_refs_delete.number, "105");
    assert_eq!(del.scan_sheet_refs_delete.error, "");
}

#[test]
fn duplicate_envelope_fields_first_occurrence_wins() {
    let env = obj(vec![
        ("success", JsonValue::Bool(true)),
        ("success", JsonValue::Bool(false)),
        ("data", JsonValue::Arr(vec![city("Kharkiv", "r")])),
        ("errors", JsonValue::Arr(vec![])),
        ("warnings", JsonValue::Arr(vec![])),
    ]);
    let resp: NovaResponse<NovaCity> = decode_typed(env).unwrap();
    assert!(resp.success);
}
