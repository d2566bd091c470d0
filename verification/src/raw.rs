//! One request builder per remote method of the carrier's API, with the
//! record shape each method returns, on the client that exposes the full
//! method set.

use crate::envelope::{
    spec_str_field, spec_str_field_or_empty, str_field, str_field_or_empty, wf_opt_str_field,
    FromJson,
};
use crate::error::NovaError;
use crate::json::{
    json_str, opt_str_json, opt_str_to_json, push_field, strs_to_json, JsonValue,
};
use crate::models::cargo::{sums_fit, NovaDate, NovaServiceType};
use crate::models::recipient::Recipient;
use crate::models::sender::Sender;
use crate::models::Cargo;
use crate::properties::{nova_document_json, NovaDocument, NovaRequest};
use crate::text::{join_comma, join_with_commas};
use crate::{price_properties, price_properties_json, shipment_properties, shipment_properties_json};
use vstd::prelude::*;
use vstd::string::StringExecFns;

verus! {

/// A city record: its display name and its carrier reference.
#[derive(Clone, Debug, PartialEq, Eq)]
pub struct NovaCity {
    pub description: String,
    pub id: String,
}

impl FromJson for NovaCity {
    open spec fn wf_json(v: JsonValue) -> bool {
        &&& spec_str_field(v, "description"@) is Some
        &&& spec_str_field(v, "ref"@) is Some
    }

    open spec fn json_matches(v: JsonValue, t: Self) -> bool {
        &&& spec_str_field(v, "description"@) == Some(t.description@)
        &&& spec_str_field(v, "ref"@) == Some(t.id@)
    }

    fn from_json(v: &JsonValue) -> (r: Result<Self, NovaError>) {
        let description = match str_field(v, "description") {
            Ok(s) => s,
            Err(e) => {
                return Err(e);
            },
        };
        let id = match str_field(v, "ref") {
            Ok(s) => s,
            Err(e) => {
                return Err(e);
            },
        };
        Ok(NovaCity { description, id })
    }
}

/// One entry of the carrier's reference books (payer kinds, cargo kinds,
/// service kinds): a display name and a reference.
#[derive(Clone, Debug, PartialEq, Eq)]
pub struct NovaReferenceBooks {
    pub description: String,
    pub id: String,
}

impl FromJson for NovaReferenceBooks {
    open spec fn wf_json(v: JsonValue) -> bool {
        &&& spec_str_field(v, "description"@) is Some
        &&& spec_str_field(v, "ref"@) is Some
    }

    open spec fn json_matches(v: JsonValue, t: Self) -> bool {
        &&& spec_str_field(v, "description"@) == Some(t.description@)
        &&& spec_str_field(v, "ref"@) == Some(t.id@)
    }

    fn from_json(v: &JsonValue) -> (r: Result<Self, NovaError>) {
        let description = match str_field(v, "description") {
            Ok(s) => s,
            Err(e) => {
                return Err(e);
            },
        };
        let id = match str_field(v, "ref") {
            Ok(s) => s,
            Err(e) => {
                return Err(e);
            },
        };
        Ok(NovaReferenceBooks { description, id })
    }
}

/// A freshly created scan sheet: its reference, number and date.
#[derive(Clone, Debug, PartialEq, Eq)]
pub struct NovaScanSheetCreate {
    pub id: String,
    pub number: String,
    pub date: String,
}

impl FromJson for NovaScanSheetCreate {
    open spec fn wf_json(v: JsonValue) -> bool {
        &&& spec_str_field(v, "Ref"@) is Some
        &&& spec_str_field(v, "Number"@) is Some
        &&& spec_str_field(v, "Date"@) is Some
    }

    open spec fn json_matches(v: JsonValue, t: Self) -> bool {
        &&& spec_str_field(v, "Ref"@) == Some(t.id@)
        &&& spec_str_field(v, "Number"@) == Some(t.number@)
        &&& spec_str_field(v, "Date"@) == Some(t.date@)
    }

    fn from_json(v: &JsonValue) -> (r: Result<Self, NovaError>) {
        let id = match str_field(v, "Ref") {
            Ok(s) => s,
            Err(e) => {
                return Err(e);
            },
        };
        let number = match str_field(v, "Number") {
            Ok(s) => s,
            Err(e) => {
                return Err(e);
            },
        };
        let date = match str_field(v, "Date") {
            Ok(s) => s,
            Err(e) => {
                return Err(e);
            },
        };
        Ok(NovaScanSheetCreate { id, number, date })
    }
}

/// The acknowledgement of a scan-sheet deletion; the carrier nests it one
/// level deep.
#[derive(Clone, Debug, PartialEq, Eq)]
pub struct ScanSheetRefsDelete {
    pub scan_sheet_refs_delete: ScanSheetRefsDeleteData,
}

/// The deletion payload: the sheet's reference and number, and the error
/// text the carrier reports for sheets it would not delete, empty when
/// absent.
#[derive(Clone, Debug, PartialEq, Eq)]
pub struct ScanSheetRefsDeleteData {
    pub id: String,
    pub error: String,
    pub number: String,
}

impl FromJson for ScanSheetRefsDeleteData {
    open spec fn wf_json(v: JsonValue) -> bool {
        &&& wf_opt_str_field(v, "Ref"@)
        &&& wf_opt_str_field(v, "Error"@)
        &&& wf_opt_str_field(v, "Number"@)
    }

    open spec fn json_matches(v: JsonValue, t: Self) -> bool {
        &&& spec_str_field_or_empty(v, "Ref"@) == t.id@
        &&& spec_str_field_or_empty(v, "Error"@) == t.error@
        &&& spec_str_field_or_empty(v, "Number"@) == t.number@
    }

    fn from_json(v: &JsonValue) -> (r: Result<Self, NovaError>) {
        let id = match str_field_or_empty(v, "Ref") {
            Ok(s) => s,
            Err(e) => {
                return Err(e);
            },
        };
        let error = match str_field_or_empty(v, "Error") {
            Ok(s) => s,
            Err(e) => {
                return Err(e);
            },
        };
        let number = match str_field_or_empty(v, "Number") {
            Ok(s) => s,
            Err(e) => {
                return Err(e);
            },
        };
        Ok(ScanSheetRefsDeleteData { id, error, number })
    }
}

impl FromJson for ScanSheetRefsDelete {
    open spec fn wf_json(v: JsonValue) -> bool {
        v.spec_get("ScanSheetRefsDelete"@) matches Some(inner)
            && ScanSheetRefsDeleteData::wf_json(inner)
    }

    open spec fn json_matches(v: JsonValue, t: Self) -> bool {
        v.spec_get("ScanSheetRefsDelete"@) matches Some(inner)
            && ScanSheetRefsDeleteData::json_matches(inner, t.scan_sheet_refs_delete)
    }

    fn from_json(v: &JsonValue) -> (r: Result<Self, NovaError>) {
        match v.get("ScanSheetRefsDelete") {
            Some(inner) => match ScanSheetRefsDeleteData::from_json(inner) {
                Ok(d) => Ok(ScanSheetRefsDelete { scan_sheet_refs_delete: d }),
                Err(e) => Err(e),
            },
            None => Err(NovaError::transport("missing ScanSheetRefsDelete")),
        }
    }
}

/// One scan sheet of the caller's list.
#[derive(Clone, Debug, PartialEq, Eq)]
pub struct ScanSheetListItem {
    pub id: String,
    pub number: String,
    pub date_time: String,
    pub printed: String,
}

impl FromJson for ScanSheetListItem {
    open spec fn wf_json(v: JsonValue) -> bool {
        &&& spec_str_field(v, "Ref"@) is Some
        &&& spec_str_field(v, "Number"@) is Some
        &&& spec_str_field(v, "DateTime"@) is Some
        &&& spec_str_field(v, "Printed"@) is Some
    }

    open spec fn json_matches(v: JsonValue, t: Self) -> bool {
        &&& spec_str_field(v, "Ref"@) == Some(t.id@)
        &&& spec_str_field(v, "Number"@) == Some(t.number@)
        &&& spec_str_field(v, "DateTime"@) == Some(t.date_time@)
        &&& spec_str_field(v, "Printed"@) == Some(t.printed@)
    }

    fn from_json(v: &JsonValue) -> (r: Result<Self, NovaError>) {
        let id = match str_field(v, "Ref") {
            Ok(s) => s,
            Err(e) => {
                return Err(e);
            },
        };
        let number = match str_field(v, "Number") {
            Ok(s) => s,
            Err(e) => {
                return Err(e);
            },
        };
        let date_time = match str_field(v, "DateTime") {
            Ok(s) => s,
            Err(e) => {
                return Err(e);
            },
        };
        let printed = match str_field(v, "Printed") {
            Ok(s) => s,
            Err(e) => {
                return Err(e);
            },
        };
        Ok(ScanSheetListItem { id, number, date_time, printed })
    }
}

/// One shipment document of the caller's document list.  Every field is
/// carrier-optional and decodes to the empty string when absent.
#[derive(Clone, Debug, PartialEq, Eq)]
pub struct NovaTTNFromList {
    pub city_recipient: String,
    pub city_recipient_description: String,
    pub city_sender: String,
    pub city_sender_description: String,
    pub contact_recipient: String,
    pub contact_sender: String,
    pub cost: String,
    pub cost_on_site: String,
    pub create_time: String,
    pub estimated_delivery_date: String,
    pub int_doc_number: String,
    pub state: String,
    pub state_id: String,
    pub state_name: String,
    pub recipient_contact_phone: String,
}

impl FromJson for NovaTTNFromList {
    open spec fn wf_json(v: JsonValue) -> bool {
        &&& wf_opt_str_field(v, "CityRecipient"@)
        &&& wf_opt_str_field(v, "CityRecipientDescription"@)
        &&& wf_opt_str_field(v, "CitySender"@)
        &&& wf_opt_str_field(v, "CitySenderDescription"@)
        &&& wf_opt_str_field(v, "ContactRecipient"@)
        &&& wf_opt_str_field(v, "ContactSender"@)
        &&& wf_opt_str_field(v, "Cost"@)
        &&& wf_opt_str_field(v, "CostOnSite"@)
        &&& wf_opt_str_field(v, "CreateTime"@)
        &&& wf_opt_str_field(v, "EstimatedDeliveryDate"@)
        &&& wf_opt_str_field(v, "IntDocNumber"@)
        &&& wf_opt_str_field(v, "State"@)
        &&& wf_opt_str_field(v, "StateId"@)
        &&& wf_opt_str_field(v, "StateName"@)
        &&& wf_opt_str_field(v, "RecipientContactPhone"@)
    }

    open spec fn json_matches(v: JsonValue, t: Self) -> bool {
        &&& spec_str_field_or_empty(v, "CityRecipient"@) == t.city_recipient@
        &&& spec_str_field_or_empty(v, "CityRecipientDescription"@)
            == t.city_recipient_description@
        &&& spec_str_field_or_empty(v, "CitySender"@) == t.city_sender@
        &&& spec_str_field_or_empty(v, "CitySenderDescription"@) == t.city_sender_description@
        &&& spec_str_field_or_empty(v, "ContactRecipient"@) == t.contact_recipient@
        &&& spec_str_field_or_empty(v, "ContactSender"@) == t.contact_sender@
        &&& spec_str_field_or_empty(v, "Cost"@) == t.cost@
        &&& spec_str_field_or_empty(v, "CostOnSite"@) == t.cost_on_site@
        &&& spec_str_field_or_empty(v, "CreateTime"@) == t.create_time@
        &&& spec_str_field_or_empty(v, "EstimatedDeliveryDate"@) == t.estimated_delivery_date@
        &&& spec_str_field_or_empty(v, "IntDocNumber"@) == t.int_doc_number@
        &&& spec_str_field_or_empty(v, "State"@) == t.state@
        &&& spec_str_field_or_empty(v, "StateId"@) == t.state_id@
        &&& spec_str_field_or_empty(v, "StateName"@) == t.state_name@
        &&& spec_str_field_or_empty(v, "RecipientContactPhone"@) == t.recipient_contact_phone@
    }

    fn from_json(v: &JsonValue) -> (r: Result<Self, NovaError>) {
        let city_recipient = match str_field_or_empty(v, "CityRecipient") {
            Ok(s) => s,
            Err(e) => {
                return Err(e);
            },
        };
        let city_recipient_description = match str_field_or_empty(v, "CityRecipientDescription") {
            Ok(s) => s,
            Err(e) => {
                return Err(e);
            },
        };
        let city_sender = match str_field_or_empty(v, "CitySender") {
            Ok(s) => s,
            Err(e) => {
                return Err(e);
            },
        };
        let city_sender_description = match str_field_or_empty(v, "CitySenderDescription") {
            Ok(s) => s,
            Err(e) => {
                return Err(e);
            },
        };
        let contact_recipient = match str_field_or_empty(v, "ContactRecipient") {
            Ok(s) => s,
            Err(e) => {
                return Err(e);
            },
        };
        let contact_sender = match str_field_or_empty(v, "ContactSender") {
            Ok(s) => s,
            Err(e) => {
                return Err(e);
            },
        };
        let cost = match str_field_or_empty(v, "Cost") {
            Ok(s) => s,
            Err(e) => {
                return Err(e);
            },
        };
        let cost_on_site = match str_field_or_empty(v, "CostOnSite") {
            Ok(s) => s,
            Err(e) => {
                return Err(e);
            },
        };
        let create_time = match str_field_or_empty(v, "CreateTime") {
            Ok(s) => s,
            Err(e) => {
                return Err(e);
            },
        };
        let estimated_delivery_date = match str_field_or_empty(v, "EstimatedDeliveryDate") {
            Ok(s) => s,
            Err(e) => {
                return Err(e);
            },
        };
        let int_doc_number = match str_field_or_empty(v, "IntDocNumber") {
            Ok(s) => s,
            Err(e) => {
                return Err(e);
            },
        };
        let state = match str_field_or_empty(v, "State") {
            Ok(s) => s,
            Err(e) => {
                return Err(e);
            },
        };
        let state_id = match str_field_or_empty(v, "StateId") {
            Ok(s) => s,
            Err(e) => {
                return Err(e);
            },
        };
        let state_name = match str_field_or_empty(v, "StateName") {
            Ok(s) => s,
            Err(e) => {
                return Err(e);
            },
        };
        let recipient_contact_phone = match str_field_or_empty(v, "RecipientContactPhone") {
            Ok(s) => s,
            Err(e) => {
                return Err(e);
            },
        };
        Ok(
            NovaTTNFromList {
                city_recipient,
                city_recipient_description,
                city_sender,
                city_sender_description,
                contact_recipient,
                contact_sender,
                cost,
                cost_on_site,
                create_time,
                estimated_delivery_date,
                int_doc_number,
                state,
                state_id,
                state_name,
                recipient_contact_phone,
            },
        )
    }
}

/// Whether the carrier's reference parser accepts the string: cities can be
/// named either by such a reference or by a plain name, and the two go to
/// different request properties.
pub uninterp spec fn uuid_ok(s: Seq<char>) -> bool;

/// Relies on uuid's `Uuid::parse_str`: whether it accepts a string is a
/// function of the string's characters alone (a simple, hyphenated, braced
/// or URN form is accepted), and a string whose length fits no such form —
/// the empty string among them — is refused.
#[verifier::external_body]
fn is_reference_id(s: &str) -> (r: bool)
    ensures
        r == uuid_ok(s@),
        s@.len() == 0 ==> !r,
{
    uuid::Uuid::parse_str(s).is_ok()
}

/// The carrier client exposing the full raw method set: the caller's key,
/// one request builder per remote method.  The transport that moves a built
/// request to the wire and brings the response envelope back is the
/// caller's.
pub struct Novaposhta {
    pub api_key: String,
}

impl Novaposhta {
    pub fn new(api_key: String) -> (r: Novaposhta)
        ensures
            r.api_key == api_key,
    {
        Novaposhta { api_key }
    }

    /// The city search; an unset query asks for the default page.
    pub fn get_cities_request(&self, city: Option<String>) -> (r: NovaRequest)
        ensures
            r.model_name@ == "AddressGeneral"@,
            r.called_method@ == "getCities"@,
            r.api_key == self.api_key,
            r.method_properties matches JsonValue::Obj(f) && {
                &&& f@.len() == 1
                &&& f@[0].0@ == "FindByString"@ && f@[0].1 == opt_str_json(city)
            },
    {
        let mut f: Vec<(String, JsonValue)> = Vec::new();
        push_field(&mut f, "FindByString", opt_str_to_json(city));
        self.request("getCities", "AddressGeneral", JsonValue::Obj(f))
    }

    /// The payer-kind reference book.
    pub fn get_types_of_payers_request(&self) -> (r: NovaRequest)
        ensures
            r.model_name@ == "Common"@,
            r.called_method@ == "getTypesOfPayers"@,
            r.api_key == self.api_key,
            r.method_properties matches JsonValue::Obj(f) && f@.len() == 0,
    {
        self.request("getTypesOfPayers", "Common", JsonValue::Obj(Vec::new()))
    }

    /// The cargo-kind reference book.
    pub fn get_cargo_types_request(&self) -> (r: NovaRequest)
        ensures
            r.model_name@ == "Common"@,
            r.called_method@ == "getCargoTypes"@,
            r.api_key == self.api_key,
            r.method_properties matches JsonValue::Obj(f) && f@.len() == 0,
    {
        self.request("getCargoTypes", "Common", JsonValue::Obj(Vec::new()))
    }

    /// The redelivery payer-kind reference book.
    pub fn get_types_of_payers_for_redelivery_request(&self) -> (r: NovaRequest)
        ensures
            r.model_name@ == "Common"@,
            r.called_method@ == "getTypesOfPayersForRedelivery"@,
            r.api_key == self.api_key,
            r.method_properties matches JsonValue::Obj(f) && f@.len() == 0,
    {
        self.request("getTypesOfPayersForRedelivery", "Common", JsonValue::Obj(Vec::new()))
    }

    /// The service-kind reference book.
    pub fn get_service_types_request(&self) -> (r: NovaRequest)
        ensures
            r.model_name@ == "Common"@,
            r.called_method@ == "getServiceTypes"@,
            r.api_key == self.api_key,
            r.method_properties matches JsonValue::Obj(f) && f@.len() == 0,
    {
        self.request("getServiceTypes", "Common", JsonValue::Obj(Vec::new()))
    }

    /// The warehouse search.  A city given as a carrier reference goes to
    /// `CityRef`, a plain city name to `CityName`: the carrier's reference
    /// parser decides which, through `is_reference_id`.
    pub fn get_warehouses_request(&self, city: Option<String>, warehouse: Option<String>) -> (r:
        NovaRequest)
        ensures
            r.model_name@ == "AddressGeneral"@,
            r.called_method@ == "getWarehouses"@,
            r.api_key == self.api_key,
            city matches Some(c) ==> {
                &&& uuid_ok(c@) ==> (r.method_properties matches JsonValue::Obj(f) && {
                    &&& f@.len() == 2
                    &&& f@[0].0@ == "CityRef"@ && f@[0].1 == JsonValue::Str(c)
                    &&& f@[1].0@ == "FindByString"@ && f@[1].1 == opt_str_json(warehouse)
                })
                &&& !uuid_ok(c@) ==> (r.method_properties matches JsonValue::Obj(f) && {
                    &&& f@.len() == 2
                    &&& f@[0].0@ == "CityName"@ && f@[0].1 == JsonValue::Str(c)
                    &&& f@[1].0@ == "FindByString"@ && f@[1].1 == opt_str_json(warehouse)
                })
            },
            city is None ==> (r.method_properties matches JsonValue::Obj(f) && {
                &&& f@.len() == 1
                &&& f@[0].0@ == "FindByString"@ && f@[0].1 == opt_str_json(warehouse)
            }),
    {
        match city {
            Some(c) => {
                let is_ref = is_reference_id(c.as_str());
                self.get_warehouses_request_with(Some(c), is_ref, warehouse)
            },
            None => self.get_warehouses_request_with(None, false, warehouse),
        }
    }

    /// The warehouse-search request with the city-kind decision already
    /// made: `city_is_ref` says whether the city string is a carrier
    /// reference rather than a plain name.
    pub fn get_warehouses_request_with(
        &self,
        city: Option<String>,
        city_is_ref: bool,
        warehouse: Option<String>,
    ) -> (r: NovaRequest)
        ensures
            r.model_name@ == "AddressGeneral"@,
            r.called_method@ == "getWarehouses"@,
            r.api_key == self.api_key,
            city matches Some(c) ==> {
                &&& city_is_ref ==> (r.method_properties matches JsonValue::Obj(f) && {
                    &&& f@.len() == 2
                    &&& f@[0].0@ == "CityRef"@ && f@[0].1 == JsonValue::Str(c)
                    &&& f@[1].0@ == "FindByString"@ && f@[1].1 == opt_str_json(warehouse)
                })
                &&& !city_is_ref ==> (r.method_properties matches JsonValue::Obj(f) && {
                    &&& f@.len() == 2
                    &&& f@[0].0@ == "CityName"@ && f@[0].1 == JsonValue::Str(c)
                    &&& f@[1].0@ == "FindByString"@ && f@[1].1 == opt_str_json(warehouse)
                })
            },
            city is None ==> (r.method_properties matches JsonValue::Obj(f) && {
                &&& f@.len() == 1
                &&& f@[0].0@ == "FindByString"@ && f@[0].1 == opt_str_json(warehouse)
            }),
    {
        let mut f: Vec<(String, JsonValue)> = Vec::new();
        match city {
            Some(c) => {
                if city_is_ref {
                    push_field(&mut f, "CityRef", JsonValue::Str(c));
                } else {
                    push_field(&mut f, "CityName", JsonValue::Str(c));
                }
                push_field(&mut f, "FindByString", opt_str_to_json(warehouse));
            },
            None => {
                push_field(&mut f, "FindByString", opt_str_to_json(warehouse));
            },
        }
        self.request("getWarehouses", "AddressGeneral", JsonValue::Obj(f))
    }

    /// The tracking call for a list of documents.
    pub fn get_status_documents_request(&self, documents: &Vec<NovaDocument>) -> (r: NovaRequest)
        ensures
            r.model_name@ == "TrackingDocument"@,
            r.called_method@ == "getStatusDocuments"@,
            r.api_key == self.api_key,
            r.method_properties matches JsonValue::Obj(f) && {
                &&& f@.len() == 1
                &&& f@[0].0@ == "Documents"@ && (f@[0].1 matches JsonValue::Arr(a) && a@.len()
                    == documents@.len() && (forall|i: int|
                    0 <= i < documents@.len() ==> nova_document_json(a@[i], documents@[i])))
            },
    {
        let mut docs: Vec<JsonValue> = Vec::new();
        let mut i: usize = 0;
        while i < documents.len()
            invariant
                0 <= i <= documents@.len(),
                docs@.len() == i,
                forall|j: int| 0 <= j < i ==> nova_document_json(docs@[j], documents@[j]),
            decreases documents@.len() - i,
        {
            docs.push(documents[i].to_json());
            i = i + 1;
        }
        let mut f: Vec<(String, JsonValue)> = Vec::new();
        push_field(&mut f, "Documents", JsonValue::Arr(docs));
        self.request("getStatusDocuments", "TrackingDocument", JsonValue::Obj(f))
    }

    /// The counterparty search: the kind is required, the query optional.
    pub fn counterparty_search_request(
        &self,
        search_string: Option<String>,
        counterparty_type: &str,
    ) -> (r: NovaRequest)
        ensures
            r.model_name@ == "Counterparty"@,
            r.called_method@ == "getCounterparties"@,
            r.api_key == self.api_key,
            r.method_properties matches JsonValue::Obj(f) && {
                &&& f@.len() == 2
                &&& f@[0].0@ == "CounterpartyProperty"@ && (f@[0].1 matches JsonValue::Str(s) && s@
                    == counterparty_type@)
                &&& f@[1].0@ == "FindByString"@ && f@[1].1 == opt_str_json(search_string)
            },
    {
        let mut f: Vec<(String, JsonValue)> = Vec::new();
        push_field(&mut f, "CounterpartyProperty", json_str(counterparty_type));
        push_field(&mut f, "FindByString", opt_str_to_json(search_string));
        self.request("getCounterparties", "Counterparty", JsonValue::Obj(f))
    }

    /// The contact persons of one counterparty.
    pub fn get_counterparty_contact_persons_request(&self, counterparty_ref: String) -> (r:
        NovaRequest)
        ensures
            r.model_name@ == "Counterparty"@,
            r.called_method@ == "getCounterpartyContactPersons"@,
            r.api_key == self.api_key,
            r.method_properties matches JsonValue::Obj(f) && {
                &&& f@.len() == 1
                &&& f@[0].0@ == "Ref"@ && f@[0].1 == JsonValue::Str(counterparty_ref)
            },
    {
        let mut f: Vec<(String, JsonValue)> = Vec::new();
        push_field(&mut f, "Ref", JsonValue::Str(counterparty_ref));
        self.request("getCounterpartyContactPersons", "Counterparty", JsonValue::Obj(f))
    }

    /// The shipment-creation call, from the recipient, the sender's resolved
    /// city and warehouse references, the counterparty and contact
    /// references the orchestration resolved, the cargo list and the send
    /// date.  An empty cargo list and a recipient target with no kind set
    /// are resolution failures raised before any request exists.
    pub fn internet_document_create_request(
        &self,
        recipient: &Recipient,
        sender: &Sender,
        sender_ref: String,
        sender_contact_ref: String,
        cargos: &Vec<Cargo>,
        date: NovaDate,
    ) -> (r: Result<NovaRequest, NovaError>)
        requires
            sums_fit(cargos@),
        ensures
            cargos@.len() == 0 ==> (r matches Err(e) && (e matches NovaError::Resolution { details }
                && details@ == "You cannot send 0 cargos"@)),
            cargos@.len() > 0 && !recipient.address.has_target() ==> (r matches Err(e) && (e matches
                NovaError::Resolution { details } && details@
                == "recipient address must specify exactly one target"@)),
            cargos@.len() > 0 && recipient.address.has_target() ==> (r matches Ok(req) && {
                &&& req.model_name@ == "InternetDocument"@
                &&& req.called_method@ == "save"@
                &&& req.api_key == self.api_key
                &&& shipment_properties_json(
                    req.method_properties,
                    sender.city_ref,
                    sender.warehouse_ref,
                    sender_ref,
                    sender_contact_ref,
                    sender.phone,
                    *recipient,
                    cargos@,
                    date,
                )
            }),
    {
        if cargos.len() == 0 {
            return Err(
                NovaError::Resolution { details: "You cannot send 0 cargos".to_owned() },
            );
        }
        let props = match shipment_properties(
            &sender.city_ref,
            &sender.warehouse_ref,
            &sender_ref,
            &sender_contact_ref,
            &sender.phone,
            recipient,
            cargos,
            date,
        ) {
            Ok(p) => p,
            Err(e) => {
                return Err(e);
            },
        };
        Ok(self.request("save", "InternetDocument", props))
    }

    /// The shipment-deletion call for the given document references.
    pub fn internet_document_delete_request(&self, document_refs: &Vec<String>) -> (r: NovaRequest)
        ensures
            r.model_name@ == "InternetDocument"@,
            r.called_method@ == "delete"@,
            r.api_key == self.api_key,
            r.method_properties matches JsonValue::Obj(f) && {
                &&& f@.len() == 1
                &&& f@[0].0@ == "DocumentRefs"@ && (f@[0].1 matches JsonValue::Arr(a) && a@.len()
                    == document_refs@.len() && (forall|i: int|
                    0 <= i < document_refs@.len() ==> a@[i] == JsonValue::Str(document_refs@[i])))
            },
    {
        let mut f: Vec<(String, JsonValue)> = Vec::new();
        push_field(&mut f, "DocumentRefs", strs_to_json(document_refs));
        self.request("delete", "InternetDocument", JsonValue::Obj(f))
    }

    /// The price estimate between two resolved cities; the caller hands the
    /// send date in, typically a week ahead.
    pub fn get_document_price_request(
        &self,
        sender_city_ref: String,
        recipient_city_ref: String,
        service_type: NovaServiceType,
        cargos: &Vec<Cargo>,
        date: NovaDate,
    ) -> (r: NovaRequest)
        requires
            sums_fit(cargos@),
        ensures
            r.model_name@ == "InternetDocument"@,
            r.called_method@ == "getDocumentPrice"@,
            r.api_key == self.api_key,
            price_properties_json(
                r.method_properties,
                sender_city_ref,
                recipient_city_ref,
                service_type,
                cargos@,
                date,
            ),
    {
        let props = price_properties(
            sender_city_ref,
            recipient_city_ref,
            service_type,
            cargos,
            date,
        );
        self.request("getDocumentPrice", "InternetDocument", props)
    }

    /// The caller's document list, filtered by the optional dates.
    pub fn get_document_list_request(
        &self,
        date_time_to: Option<String>,
        date_time_from: Option<String>,
        date_time_of_ttn: Option<String>,
    ) -> (r: NovaRequest)
        ensures
            r.model_name@ == "InternetDocument"@,
            r.called_method@ == "getDocumentList"@,
            r.api_key == self.api_key,
            r.method_properties matches JsonValue::Obj(f) && {
                &&& f@.len() == 3
                &&& f@[0].0@ == "DateTimeTo"@ && f@[0].1 == opt_str_json(date_time_to)
                &&& f@[1].0@ == "DateTimeFrom"@ && f@[1].1 == opt_str_json(date_time_from)
                &&& f@[2].0@ == "DateTime"@ && f@[2].1 == opt_str_json(date_time_of_ttn)
            },
    {
        let mut f: Vec<(String, JsonValue)> = Vec::new();
        push_field(&mut f, "DateTimeTo", opt_str_to_json(date_time_to));
        push_field(&mut f, "DateTimeFrom", opt_str_to_json(date_time_from));
        push_field(&mut f, "DateTime", opt_str_to_json(date_time_of_ttn));
        self.request("getDocumentList", "InternetDocument", JsonValue::Obj(f))
    }

    /// The delivery-date estimate between two resolved cities.
    pub fn get_document_delivery_date_request(
        &self,
        send_date: String,
        service_type: NovaServiceType,
        city_sender_ref: String,
        city_recipient_ref: String,
    ) -> (r: NovaRequest)
        ensures
            r.model_name@ == "InternetDocument"@,
            r.called_method@ == "getDocumentDeliveryDate"@,
            r.api_key == self.api_key,
            r.method_properties matches JsonValue::Obj(f) && {
                &&& f@.len() == 4
                &&& f@[0].0@ == "DateTime"@ && f@[0].1 == JsonValue::Str(send_date)
                &&& f@[1].0@ == "ServiceType"@ && (f@[1].1 matches JsonValue::Str(s) && s@
                    == crate::models::cargo::service_type_str(service_type))
                &&& f@[2].0@ == "CitySender"@ && f@[2].1 == JsonValue::Str(city_sender_ref)
                &&& f@[3].0@ == "CityRecipient"@ && f@[3].1 == JsonValue::Str(city_recipient_ref)
            },
    {
        let mut f: Vec<(String, JsonValue)> = Vec::new();
        push_field(&mut f, "DateTime", JsonValue::Str(send_date));
        push_field(&mut f, "ServiceType", json_str(service_type.as_str()));
        push_field(&mut f, "CitySender", JsonValue::Str(city_sender_ref));
        push_field(&mut f, "CityRecipient", JsonValue::Str(city_recipient_ref));
        self.request("getDocumentDeliveryDate", "InternetDocument", JsonValue::Obj(f))
    }

    /// Inserts documents into a scan sheet; an existing sheet's reference
    /// appends to it, none opens a new sheet.
    pub fn scan_sheet_insert_documents_request(
        &self,
        document_refs: &Vec<String>,
        add_to_exists_registy: Option<String>,
    ) -> (r: NovaRequest)
        ensures
            r.model_name@ == "ScanSheet"@,
            r.called_method@ == "insertDocuments"@,
            r.api_key == self.api_key,
            r.method_properties matches JsonValue::Obj(f) && {
                &&& f@.len() == 2
                &&& f@[0].0@ == "DocumentRefs"@ && (f@[0].1 matches JsonValue::Arr(a) && a@.len()
                    == document_refs@.len() && (forall|i: int|
                    0 <= i < document_refs@.len() ==> a@[i] == JsonValue::Str(document_refs@[i])))
                &&& f@[1].0@ == "Ref"@ && f@[1].1 == opt_str_json(add_to_exists_registy)
            },
    {
        let mut f: Vec<(String, JsonValue)> = Vec::new();
        push_field(&mut f, "DocumentRefs", strs_to_json(document_refs));
        push_field(&mut f, "Ref", opt_str_to_json(add_to_exists_registy));
        self.request("insertDocuments", "ScanSheet", JsonValue::Obj(f))
    }

    /// Deletes whole scan sheets.
    pub fn scan_sheet_delete_request(&self, scan_sheet_refs: &Vec<String>) -> (r: NovaRequest)
        ensures
            r.model_name@ == "ScanSheet"@,
            r.called_method@ == "deleteScanSheet"@,
            r.api_key == self.api_key,
            r.method_properties matches JsonValue::Obj(f) && {
                &&& f@.len() == 1
                &&& f@[0].0@ == "ScanSheetRefs"@ && (f@[0].1 matches JsonValue::Arr(a) && a@.len()
                    == scan_sheet_refs@.len() && (forall|i: int|
                    0 <= i < scan_sheet_refs@.len() ==> a@[i] == JsonValue::Str(
                        scan_sheet_refs@[i],
                    )))
            },
    {
        let mut f: Vec<(String, JsonValue)> = Vec::new();
        push_field(&mut f, "ScanSheetRefs", strs_to_json(scan_sheet_refs));
        self.request("deleteScanSheet", "ScanSheet", JsonValue::Obj(f))
    }

    /// Removes documents from their scan sheets.
    pub fn scan_sheet_delete_ttns_request(&self, documents_refs: &Vec<String>) -> (r: NovaRequest)
        ensures
            r.model_name@ == "ScanSheet"@,
            r.called_method@ == "removeDocuments"@,
            r.api_key == self.api_key,
            r.method_properties matches JsonValue::Obj(f) && {
                &&& f@.len() == 1
                &&& f@[0].0@ == "DocumentRefs"@ && (f@[0].1 matches JsonValue::Arr(a) && a@.len()
                    == documents_refs@.len() && (forall|i: int|
                    0 <= i < documents_refs@.len() ==> a@[i] == JsonValue::Str(documents_refs@[i])))
            },
    {
        let mut f: Vec<(String, JsonValue)> = Vec::new();
        push_field(&mut f, "DocumentRefs", strs_to_json(documents_refs));
        self.request("removeDocuments", "ScanSheet", JsonValue::Obj(f))
    }

    /// The caller's scan-sheet list.
    pub fn get_scan_sheet_list_request(&self) -> (r: NovaRequest)
        ensures
            r.model_name@ == "ScanSheet"@,
            r.called_method@ == "getScanSheetList"@,
            r.api_key == self.api_key,
            r.method_properties matches JsonValue::Obj(f) && f@.len() == 0,
    {
        self.request("getScanSheetList", "ScanSheet", JsonValue::Obj(Vec::new()))
    }

    /// The URL where the named documents print, no call made.
    pub fn internet_document_print(&self, ttns: &Vec<String>) -> (r: String)
        ensures
            r@ == print_documents_url(ttns@.map_values(|s: String| s@), self.api_key@),
    {
        let mut out: String =
            "https://my.novaposhta.ua/orders/printDocument/orders[]/".to_owned();
        let joined = join_with_commas(ttns);
        out.append(joined.as_str());
        out.append("/type/pdf/apiKey/");
        out.append(self.api_key.as_str());
        proof {
            assert(out@ =~= print_documents_url(ttns@.map_values(|s: String| s@), self.api_key@));
        }
        out
    }

    /// The printing call for one scan sheet.  This is the protocol's one
    /// variant shape: method `printFull` with its own property names, and
    /// the response is a binary document stream, not the JSON envelope.
    pub fn scan_sheet_print_request(&self, scan_sheet_ref: String) -> (r: NovaRequest)
        ensures
            r.model_name@ == "InternetDocument"@,
            r.called_method@ == "printFull"@,
            r.api_key == self.api_key,
            r.method_properties matches JsonValue::Obj(f) && {
                &&& f@.len() == 4
                &&& f@[0].0@ == "printForm"@ && (f@[0].1 matches JsonValue::Str(s) && s@
                    == "ScanSheet"@)
                &&& f@[1].0@ == "ScanSheetRefs"@ && (f@[1].1 matches JsonValue::Arr(a) && a@.len()
                    == 1 && a@[0] == JsonValue::Str(scan_sheet_ref))
                &&& f@[2].0@ == "Type"@ && (f@[2].1 matches JsonValue::Str(s) && s@ == "pdf"@)
                &&& f@[3].0@ == "PrintOrientation"@ && (f@[3].1 matches JsonValue::Str(s) && s@
                    == "portrait"@)
            },
    {
        let mut refs: Vec<JsonValue> = Vec::new();
        refs.push(JsonValue::Str(scan_sheet_ref));
        let mut f: Vec<(String, JsonValue)> = Vec::new();
        push_field(&mut f, "printForm", json_str("ScanSheet"));
        push_field(&mut f, "ScanSheetRefs", JsonValue::Arr(refs));
        push_field(&mut f, "Type", json_str("pdf"));
        push_field(&mut f, "PrintOrientation", json_str("portrait"));
        self.request("printFull", "InternetDocument", JsonValue::Obj(f))
    }

    /// Wraps one method call in the outbound envelope with this client's
    /// key.
    fn request(&self, method: &str, model: &str, properties: JsonValue) -> (r: NovaRequest)
        ensures
            r.called_method@ == method@,
            r.model_name@ == model@,
            r.method_properties == properties,
            r.api_key == self.api_key,
    {
        NovaRequest::new(method.to_owned(), model.to_owned(), properties, self.api_key.clone())
    }
}

/// The URL of the printable form of a list of documents.
pub open spec fn print_documents_url(ttns: Seq<Seq<char>>, api_key: Seq<char>) -> Seq<char> {
    "https://my.novaposhta.ua/orders/printDocument/orders[]/"@ + join_comma(ttns)
        + "/type/pdf/apiKey/"@ + api_key
}

} // verus!
