//! The outbound request builders: property maps, the city-kind branch, the
//! creation workflow's validation, and the warehouse-number resolution.

use novaposhta::decode_typed;
use novaposhta::error::NovaError;
use novaposhta::find_warehouse_ref;
use novaposhta::json::JsonValue;
use novaposhta::models::{
    Address, Cargo, NovaDate, NovaOptionsSeat, NovaServiceType, Recipient, Sender, SenderContact,
};
use novaposhta::properties::{NovaDocument, NovaRequest};
use novaposhta::raw::{NovaCity, Novaposhta};
use novaposhta::{NovaPoshta, NovaWarehouse};

const KHARKIV_REF: &str = "db5c88e0-391c-11dd-90d9-001a92567626";

fn prop<'a>(req: &'a NovaRequest, key: &str) -> &'a JsonValue {
    req.method_properties
        .get(key)
        .unwrap_or_else(|| panic!("property {} missing", key))
}

fn prop_str(req: &NovaRequest, key: &str) -> String {
    prop(req, key)
        .as_str()
        .unwrap_or_else(|| panic!("property {} is not a string", key))
        .clone()
}

fn has_prop(req: &NovaRequest, key: &str) -> bool {
    req.method_properties.get(key).is_some()
}

fn warehouse(number: &str, id: &str) -> NovaWarehouse {
    NovaWarehouse {
        description: format!("Branch {}", number),
        id: id.to_string(),
        short_address: "street".to_string(),
        phone: "0800".to_string(),
        number: number.to_string(),
        city_ref: KHARKIV_REF.to_string(),
        city_description: "Kharkiv".to_string(),
        longitude: "36.2".to_string(),
        latitude: "49.9".to_string(),
        place_max_weight_allowed: "30".to_string(),
        deny_to_select: "0".to_string(),
    }
}

fn one_cargo() -> Vec<Cargo> {
    vec![Cargo::new(
        150,
        NovaOptionsSeat::new(500, 20, 20, 5, 500),
        true,
        "Аксесуары".to_string(),
    )]
}

fn sender_contact() -> SenderContact {
    SenderContact::new(
        KHARKIV_REF,
        "warehouse-14-ref",
        "contact-ref",
        "counterparty-ref",
        "+380991234567",
    )
}

#[test]
fn warehouses_by_reference_sets_city_ref() {
    let nova = Novaposhta::new("KEY".to_string());
    let req = nova.get_warehouses_request(Some(KHARKIV_REF.to_string()), Some("14".to_string()));
    assert_eq!(req.model_name, "AddressGeneral");
    assert_eq!(req.called_method, "getWarehouses");
    assert_eq!(prop_str(&req, "CityRef"), KHARKIV_REF);
    assert!(!has_prop(&req, "CityName"));
    assert_eq!(prop_str(&req, "FindByString"), "14");
}

#[test]
fn warehouses_by_plain_name_sets_city_name() {
    let nova = Novaposhta::new("KEY".to_string());
    let req = nova.get_warehouses_request(Some("Kharkiv".to_string()), None);
    assert_eq!(prop_str(&req, "CityName"), "Kharkiv");
    assert!(!has_prop(&req, "CityRef"));
    assert_eq!(prop(&req, "FindByString"), &JsonValue::Null);
}

#[test]
fn warehouses_without_city_searches_by_string_alone() {
    let nova = Novaposhta::new("KEY".to_string());
    let req = nova.get_warehouses_request(None, Some("14".to_string()));
    assert!(!has_prop(&req, "CityRef"));
    assert!(!has_prop(&req, "CityName"));
    assert_eq!(prop_str(&req, "FindByString"), "14");
}

#[test]
fn create_without_target_fails_before_any_request() {
    let nova = NovaPoshta::new("KEY".to_string());
    let no_target = Address {
        warehouse_number: None,
        address_name: None,
        address_house: None,
        address_flat: None,
        pochtomat_number: None,
        service_type: NovaServiceType::WarehouseWarehouse,
    };
    let recipient = Recipient::new(
        "Киев".to_string(),
        "Тест Тест Тест".to_string(),
        "+380991234567",
        true,
        no_target,
    );
    match nova.new_shipment_request(&sender_contact(), &recipient, &one_cargo(), NovaDate::new(2024, 3, 5)) {
        Err(NovaError::Resolution { details }) => {
            assert_eq!(details, "recipient address must specify exactly one target")
        }
        other => panic!("expected Resolution, got {:?}", other),
    }
}

#[test]
fn create_with_zero_cargos_fails() {
    let nova = NovaPoshta::new("KEY".to_string());
    let recipient = Recipient::new(
        "Киев".to_string(),
        "Тест".to_string(),
        "+380991234567",
        true,
        Address::warehouse(14),
    );
    match nova.new_shipment_request(&sender_contact(), &recipient, &vec![], NovaDate::new(2024, 3, 5)) {
        Err(NovaError::Resolution { details }) => assert_eq!(details, "You cannot send 0 cargos"),
        other => panic!("expected Resolution, got {:?}", other),
    }
}

#[test]
fn end_to_end_create_resolves_city_warehouse_and_cod() {
    // The sender city resolves to a known reference.
    let cities_env = JsonValue::Obj(vec![
        ("success".to_string(), JsonValue::Bool(true)),
        (
            "data".to_string(),
            JsonValue::Arr(vec![JsonValue::Obj(vec![
                (
                    "description".to_string(),
                    JsonValue::Str("Kharkiv".to_string()),
                ),
                ("ref".to_string(), JsonValue::Str(KHARKIV_REF.to_string())),
            ])]),
        ),
        ("errors".to_string(), JsonValue::Arr(vec![])),
        ("warnings".to_string(), JsonValue::Arr(vec![])),
    ]);
    let city: NovaCity = decode_typed(cities_env).unwrap().first_or_error().unwrap();
    assert_eq!(city.id, KHARKIV_REF);

    // Warehouse number 14 resolves to its reference by a linear scan.
    let warehouses = vec![
        warehouse("12", "warehouse-12-ref"),
        warehouse("14", "warehouse-14-ref"),
    ];
    let wh_ref = find_warehouse_ref(&warehouses, "14", "Kharkiv").unwrap();
    assert_eq!(wh_ref, "warehouse-14-ref");

    // The aggregated single cargo makes one seat, half a kilogram, cost 150,
    // collected cash-on-delivery.
    let sender = SenderContact::new(
        &city.id,
        &wh_ref,
        "contact-ref",
        "counterparty-ref",
        "+380991234567",
    );
    let recipient = Recipient::new(
        "Киев".to_string(),
        "Тест Тест Тест".to_string(),
        "+380991234567",
        true,
        Address::warehouse(14),
    );
    let nova = NovaPoshta::new("KEY".to_string());
    let req = nova
        .new_shipment_request(&sender, &recipient, &one_cargo(), NovaDate::new(2024, 3, 5))
        .unwrap();
    assert_eq!(req.model_name, "InternetDocument");
    assert_eq!(req.called_method, "save");
    assert_eq!(prop_str(&req, "SeatsAmount"), "1");
    assert_eq!(prop_str(&req, "Weight"), "0.5");
    assert_eq!(prop_str(&req, "Cost"), "150");
    assert_eq!(prop_str(&req, "CitySender"), KHARKIV_REF);
    assert_eq!(prop_str(&req, "SenderAddress"), "warehouse-14-ref");
    assert_eq!(prop_str(&req, "RecipientAddressName"), "14");
    assert_eq!(prop_str(&req, "ServiceType"), "WarehouseWarehouse");
    assert_eq!(prop_str(&req, "PayerType"), "Recipient");
    assert_eq!(prop_str(&req, "DateTime"), "5.3.2024");
    match prop(&req, "BackwardDeliveryData") {
        JsonValue::Arr(items) => {
            assert_eq!(items.len(), 1);
            match &items[0] {
                JsonValue::Obj(fields) => {
                    let redelivery = fields
                        .iter()
                        .find(|(k, _)| k == "RedeliveryString")
                        .map(|(_, v)| v);
                    assert_eq!(redelivery, Some(&JsonValue::Str("150".to_string())));
                }
                other => panic!("expected object, got {:?}", other),
            }
        }
        other => panic!("expected list, got {:?}", other),
    }
}

#[test]
fn create_without_cod_sends_no_backward_delivery() {
    let cargos = vec![Cargo::new(
        150,
        NovaOptionsSeat::new(500, 20, 20, 5, 500),
        false,
        "Аксесуары".to_string(),
    )];
    let recipient = Recipient::new(
        "Киев".to_string(),
        "Тест".to_string(),
        "+380991234567",
        false,
        Address::warehouse(14),
    );
    let nova = NovaPoshta::new("KEY".to_string());
    let req = nova
        .new_shipment_request(&sender_contact(), &recipient, &cargos, NovaDate::new(2024, 3, 5))
        .unwrap();
    assert_eq!(prop(&req, "BackwardDeliveryData"), &JsonValue::Arr(vec![]));
    assert_eq!(prop_str(&req, "PayerType"), "Sender");
}

#[test]
fn create_street_address_fills_house_and_flat() {
    let recipient = Recipient::new(
        "Киев".to_string(),
        "Тест".to_string(),
        "+380991234567",
        true,
        Address::address("Main st".to_string(), "12".to_string(), "4".to_string()),
    );
    let nova = NovaPoshta::new("KEY".to_string());
    let req = nova
        .new_shipment_request(&sender_contact(), &recipient, &one_cargo(), NovaDate::new(2024, 3, 5))
        .unwrap();
    assert_eq!(prop_str(&req, "RecipientAddressName"), "Main st");
    assert_eq!(prop(&req, "RecipientHouse"), &JsonValue::Str("12".to_string()));
    assert_eq!(prop(&req, "RecipientFlat"), &JsonValue::Str("4".to_string()));
    assert_eq!(prop_str(&req, "ServiceType"), "WarehouseDoors");
}

#[test]
fn create_pochtomat_uses_its_number() {
    let recipient = Recipient::new(
        "Киев".to_string(),
        "Тест".to_string(),
        "+380991234567",
        true,
        Address::pochtomat(952),
    );
    let nova = NovaPoshta::new("KEY".to_string());
    let req = nova
        .new_shipment_request(&sender_contact(), &recipient, &one_cargo(), NovaDate::new(2024, 3, 5))
        .unwrap();
    assert_eq!(prop_str(&req, "RecipientAddressName"), "952");
    assert_eq!(prop(&req, "RecipientHouse"), &JsonValue::Null);
    assert_eq!(prop_str(&req, "ServiceType"), "WarehouseWarehouse");
}

#[test]
fn missing_warehouse_names_number_and_city() {
    let warehouses = vec![warehouse("12", "a"), warehouse("14", "b")];
    match find_warehouse_ref(&warehouses, "999", "Kharkiv") {
        Err(NovaError::Resolution { details }) => {
            assert_eq!(details, "warehouse 999 not found in Kharkiv");
            assert!(details.contains("999"));
            assert!(details.contains("Kharkiv"));
        }
        other => panic!("expected Resolution, got {:?}", other),
    }
}

#[test]
fn warehouse_lookup_takes_first_match() {
    let warehouses = vec![warehouse("14", "first"), warehouse("14", "second")];
    assert_eq!(find_warehouse_ref(&warehouses, "14", "Kharkiv").unwrap(), "first");
}

#[test]
fn wire_envelope_carries_method_model_and_key() {
    let nova = Novaposhta::new("KEY".to_string());
    let req = nova.get_cities_request(Some("Kharkiv".to_string()));
    assert_eq!(req.api_key, "KEY");
    let wire = req.into_wire_json();
    match wire {
        JsonValue::Obj(fields) => {
            assert_eq!(fields.len(), 4);
            assert_eq!(fields[0].0, "calledMethod");
            assert_eq!(fields[0].1, JsonValue::Str("getCities".to_string()));
            assert_eq!(fields[1].0, "modelName");
            assert_eq!(fields[1].1, JsonValue::Str("AddressGeneral".to_string()));
            assert_eq!(fields[2].0, "methodProperties");
            assert_eq!(fields[3].0, "apiKey");
            assert_eq!(fields[3].1, JsonValue::Str("KEY".to_string()));
        }
        other => panic!("expected object, got {:?}", other),
    }
}

#[test]
fn document_list_defaults_to_nulls() {
    let nova = Novaposhta::new("KEY".to_string());
    let req = nova.get_document_list_request(None, None, None);
    assert_eq!(req.called_method, "getDocumentList");
    assert_eq!(prop(&req, "DateTimeTo"), &JsonValue::Null);
    assert_eq!(prop(&req, "DateTimeFrom"), &JsonValue::Null);
    assert_eq!(prop(&req, "DateTime"), &JsonValue::Null);
}

#[test]
fn price_request_includes_redelivery_only_with_cod() {
    let nova = Novaposhta::new("KEY".to_string());
    let req = nova.get_document_price_request(
        KHARKIV_REF.to_string(),
        KHARKIV_REF.to_string(),
        NovaServiceType::WarehouseWarehouse,
        &one_cargo(),
        NovaDate::new(2024, 3, 12),
    );
    assert_eq!(prop_str(&req, "Weight"), "0.5");
    assert_eq!(prop_str(&req, "Cost"), "150");
    assert_eq!(prop_str(&req, "SeatsAmount"), "1");
    assert_eq!(prop_str(&req, "CargoType"), "Parcel");
    assert_eq!(prop_str(&req, "DateTime"), "12.3.2024");
    match prop(&req, "RedeliveryCalculate") {
        JsonValue::Obj(fields) => {
            assert_eq!(fields.len(), 2);
            assert_eq!(fields[1].0, "Amount");
            assert_eq!(fields[1].1, JsonValue::Str("150".to_string()));
        }
        other => panic!("expected object, got {:?}", other),
    }

    let no_cod = vec![Cargo::new(
        150,
        NovaOptionsSeat::new(500, 20, 20, 5, 500),
        false,
        "x".to_string(),
    )];
    let req = nova.get_document_price_request(
        KHARKIV_REF.to_string(),
        KHARKIV_REF.to_string(),
        NovaServiceType::WarehouseWarehouse,
        &no_cod,
        NovaDate::new(2024, 3, 12),
    );
    assert_eq!(prop(&req, "RedeliveryCalculate"), &JsonValue::Obj(vec![]));
}

#[test]
fn delivery_date_request_names_both_cities() {
    let nova = Novaposhta::new("KEY".to_string());
    let req = nova.get_document_delivery_date_request(
        "8.3.2024".to_string(),
        NovaServiceType::WarehouseDoors,
        "city-a".to_string(),
        "city-b".to_string(),
    );
    assert_eq!(req.called_method, "getDocumentDeliveryDate");
    assert_eq!(prop_str(&req, "DateTime"), "8.3.2024");
    assert_eq!(prop_str(&req, "ServiceType"), "WarehouseDoors");
    assert_eq!(prop_str(&req, "CitySender"), "city-a");
    assert_eq!(prop_str(&req, "CityRecipient"), "city-b");
}

#[test]
fn status_request_lists_documents() {
    let nova = Novaposhta::new("KEY".to_string());
    let docs = vec![NovaDocument::new("2045045800000".to_string(), String::new())];
    let req = nova.get_status_documents_request(&docs);
    assert_eq!(req.model_name, "TrackingDocument");
    match prop(&req, "Documents") {
        JsonValue::Arr(items) => {
            assert_eq!(items.len(), 1);
            assert_eq!(
                items[0].get("DocumentNumber"),
                Some(&JsonValue::Str("2045045800000".to_string()))
            );
        }
        other => panic!("expected list, got {:?}", other),
    }
}

#[test]
fn scan_sheet_print_uses_the_variant_shape() {
    let nova = Novaposhta::new("KEY".to_string());
    let req = nova.scan_sheet_print_request("f23f5752-3377-11ec-8513-b88303659df5".to_string());
    assert_eq!(req.model_name, "InternetDocument");
    assert_eq!(req.called_method, "printFull");
    assert_eq!(prop_str(&req, "printForm"), "ScanSheet");
    assert_eq!(prop_str(&req, "Type"), "pdf");
    assert_eq!(prop_str(&req, "PrintOrientation"), "portrait");
    match prop(&req, "ScanSheetRefs") {
        JsonValue::Arr(items) => assert_eq!(
            items,
            &vec![JsonValue::Str(
                "f23f5752-3377-11ec-8513-b88303659df5".to_string()
            )]
        ),
        other => panic!("expected list, got {:?}", other),
    }
}

#[test]
fn scan_sheet_insert_carries_refs_and_target() {
    let nova = Novaposhta::new("KEY".to_string());
    let req = nova.scan_sheet_insert_documents_request(
        &vec!["436c1ba6-3373-11ec-8513-b88303659df5".to_string()],
        None,
    );
    assert_eq!(req.called_method, "insertDocuments");
    assert_eq!(
        prop(&req, "DocumentRefs"),
        &JsonValue::Arr(vec![JsonValue::Str(
            "436c1ba6-3373-11ec-8513-b88303659df5".to_string()
        )])
    );
    assert_eq!(prop(&req, "Ref"), &JsonValue::Null);
}

#[test]
fn document_print_url_joins_numbers() {
    let nova = Novaposhta::new("KEY".to_string());
    let url = nova.internet_document_print(&vec!["204".to_string(), "205".to_string()]);
    assert_eq!(
        url,
        "https://my.novaposhta.ua/orders/printDocument/orders[]/204,205/type/pdf/apiKey/KEY"
    );
}

#[test]
fn counterparty_search_names_kind_and_query() {
    let nova = Novaposhta::new("KEY".to_string());
    let req = nova.counterparty_search_request(None, "Sender");
    assert_eq!(prop_str(&req, "CounterpartyProperty"), "Sender");
    assert_eq!(prop(&req, "FindByString"), &JsonValue::Null);
}

#[test]
fn raw_create_validates_target_too() {
    let nova = Novaposhta::new("KEY".to_string());
    let no_target = Address {
        warehouse_number: None,
        address_name: None,
        address_house: None,
        address_flat: None,
        pochtomat_number: None,
        service_type: NovaServiceType::WarehouseWarehouse,
    };
    let recipient = Recipient::new(
        "Киев".to_string(),
        "Тест".to_string(),
        "+380991234567",
        true,
        no_target,
    );
    let sender = Sender::new(KHARKIV_REF, "warehouse-14-ref", "+380991234567");
    let r = nova.internet_document_create_request(
        &recipient,
        &sender,
        "counterparty-ref".to_string(),
        "contact-ref".to_string(),
        &one_cargo(),
        NovaDate::new(2024, 3, 5),
    );
    assert!(matches!(r, Err(NovaError::Resolution { .. })));
}

#[test]
fn raw_create_builds_the_same_payload_shape() {
    let nova = Novaposhta::new("KEY".to_string());
    let recipient = Recipient::new(
        "Киев".to_string(),
        "Тест Тест Тест".to_string(),
        "+380991234567",
        true,
        Address::warehouse(14),
    );
    let sender = Sender::new(KHARKIV_REF, "warehouse-14-ref", "+380991234567");
    let req = nova
        .internet_document_create_request(
            &recipient,
            &sender,
            "counterparty-ref".to_string(),
            "contact-ref".to_string(),
            &one_cargo(),
            NovaDate::new(2024, 3, 5),
        )
        .unwrap();
    assert_eq!(prop_str(&req, "Sender"), "counterparty-ref");
    assert_eq!(prop_str(&req, "ContactSender"), "contact-ref");
    assert_eq!(prop_str(&req, "SendersPhone"), "+380991234567");
    assert_eq!(prop_str(&req, "NewAddress"), "1");
    assert_eq!(prop_str(&req, "RecipientType"), "PrivatePerson");
    assert_eq!(prop_str(&req, "PaymentMethod"), "Cash");
    assert_eq!(prop_str(&req, "Description"), "Аксесуары");
}
