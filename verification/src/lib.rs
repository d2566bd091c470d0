//! Typed client library for a parcel-delivery carrier's JSON-RPC style API.
//!
//! The library builds outbound request envelopes, models the carrier's JSON
//! payloads as plain values, decodes the generic response envelope into
//! typed records, and resolves human-facing inputs (a city name, a warehouse
//! number) into carrier references.  Network transport is the caller's:
//! every function here computes a request or reads a response, and the
//! caller moves the bytes.

pub mod db;
pub mod envelope;
pub mod error;
pub mod json;
pub mod models;
pub mod properties;
pub mod raw;
pub mod text;

pub use envelope::decode_typed;
pub use envelope::FromJson;
pub use envelope::NovaResponse;
pub use properties::NovaRequest;

use crate::envelope::{spec_str_field, str_field};
use crate::error::NovaError;
use crate::json::{json_str, opt_str_json, push_field, strs_to_json, JsonValue};
use crate::models::cargo::{
    last_description, service_type_str, sum_cod, sum_cost, sum_weight, sums_fit, CargoSplit,
    NovaDate, NovaServiceType, NovaTime,
};
use crate::models::document::{status_fetch_json, NovaStatusFetch};
use crate::models::recipient::Recipient;
use crate::models::sender::SenderContact;
use crate::models::Cargo;
use crate::text::{dec_digits, i64_to_string, int_str, milli_str, milli_to_string, string_eq_str,
    u64_to_string};
use vstd::prelude::*;
use vstd::string::StringExecFns;

verus! {

/// A carrier branch: its global reference, its city-scoped number, and the
/// descriptive fields the carrier sends along.
#[derive(Clone, Debug, PartialEq, Eq)]
pub struct NovaWarehouse {
    pub description: String,
    pub id: String,
    pub short_address: String,
    pub phone: String,
    pub number: String,
    pub city_ref: String,
    pub city_description: String,
    pub longitude: String,
    pub latitude: String,
    pub place_max_weight_allowed: String,
    pub deny_to_select: String,
}

impl FromJson for NovaWarehouse {
    open spec fn wf_json(v: JsonValue) -> bool {
        &&& spec_str_field(v, "description"@) is Some
        &&& spec_str_field(v, "Ref"@) is Some
        &&& spec_str_field(v, "shortAddress"@) is Some
        &&& spec_str_field(v, "phone"@) is Some
        &&& spec_str_field(v, "number"@) is Some
        &&& spec_str_field(v, "cityRef"@) is Some
        &&& spec_str_field(v, "cityDescription"@) is Some
        &&& spec_str_field(v, "longitude"@) is Some
        &&& spec_str_field(v, "latitude"@) is Some
        &&& spec_str_field(v, "placeMaxWeightAllowed"@) is Some
        &&& spec_str_field(v, "denyToSelect"@) is Some
    }

    open spec fn json_matches(v: JsonValue, t: Self) -> bool {
        &&& spec_str_field(v, "description"@) == Some(t.description@)
        &&& spec_str_field(v, "Ref"@) == Some(t.id@)
        &&& spec_str_field(v, "shortAddress"@) == Some(t.short_address@)
        &&& spec_str_field(v, "phone"@) == Some(t.phone@)
        &&& spec_str_field(v, "number"@) == Some(t.number@)
        &&& spec_str_field(v, "cityRef"@) == Some(t.city_ref@)
        &&& spec_str_field(v, "cityDescription"@) == Some(t.city_description@)
        &&& spec_str_field(v, "longitude"@) == Some(t.longitude@)
        &&& spec_str_field(v, "latitude"@) == Some(t.latitude@)
        &&& spec_str_field(v, "placeMaxWeightAllowed"@) == Some(t.place_max_weight_allowed@)
        &&& spec_str_field(v, "denyToSelect"@) == Some(t.deny_to_select@)
    }

    fn from_json(v: &JsonValue) -> (r: Result<Self, NovaError>) {
        let description = match str_field(v, "description") {
            Ok(s) => s,
            Err(e) => {
                return Err(e);
            },
        };
        let id = match str_field(v, "Ref") {
            Ok(s) => s,
            Err(e) => {
                return Err(e);
            },
        };
        let short_address = match str_field(v, "shortAddress") {
            Ok(s) => s,
            Err(e) => {
                return Err(e);
            },
        };
        let phone = match str_field(v, "phone") {
            Ok(s) => s,
            Err(e) => {
                return Err(e);
            },
        };
        let number = match str_field(v, "number") {
            Ok(s) => s,
            Err(e) => {
                return Err(e);
            },
        };
        let city_ref = match str_field(v, "cityRef") {
            Ok(s) => s,
            Err(e) => {
                return Err(e);
            },
        };
        let city_description = match str_field(v, "cityDescription") {
            Ok(s) => s,
            Err(e) => {
                return Err(e);
            },
        };
        let longitude = match str_field(v, "longitude") {
            Ok(s) => s,
            Err(e) => {
                return Err(e);
            },
        };
        let latitude = match str_field(v, "latitude") {
            Ok(s) => s,
            Err(e) => {
                return Err(e);
            },
        };
        let place_max_weight_allowed = match str_field(v, "placeMaxWeightAllowed") {
            Ok(s) => s,
            Err(e) => {
                return Err(e);
            },
        };
        let deny_to_select = match str_field(v, "denyToSelect") {
            Ok(s) => s,
            Err(e) => {
                return Err(e);
            },
        };
        Ok(
            NovaWarehouse {
                description,
                id,
                short_address,
                phone,
                number,
                city_ref,
                city_description,
                longitude,
                latitude,
                place_max_weight_allowed,
                deny_to_select,
            },
        )
    }
}

/// A carrier-registered party or one of its contact persons.
#[derive(Clone, Debug, PartialEq, Eq)]
pub struct NovaCounterparty {
    pub id: String,
    pub first_name: String,
    pub last_name: String,
    pub middle_name: String,
    pub phones: String,
    pub full_name: String,
}

impl FromJson for NovaCounterparty {
    open spec fn wf_json(v: JsonValue) -> bool {
        &&& spec_str_field(v, "Ref"@) is Some
        &&& spec_str_field(v, "first_name"@) is Some
        &&& spec_str_field(v, "last_name"@) is Some
        &&& spec_str_field(v, "middle_name"@) is Some
        &&& spec_str_field(v, "phones"@) is Some
        &&& spec_str_field(v, "Description"@) is Some
    }

    open spec fn json_matches(v: JsonValue, t: Self) -> bool {
        &&& spec_str_field(v, "Ref"@) == Some(t.id@)
        &&& spec_str_field(v, "first_name"@) == Some(t.first_name@)
        &&& spec_str_field(v, "last_name"@) == Some(t.last_name@)
        &&& spec_str_field(v, "middle_name"@) == Some(t.middle_name@)
        &&& spec_str_field(v, "phones"@) == Some(t.phones@)
        &&& spec_str_field(v, "Description"@) == Some(t.full_name@)
    }

    fn from_json(v: &JsonValue) -> (r: Result<Self, NovaError>) {
        let id = match str_field(v, "Ref") {
            Ok(s) => s,
            Err(e) => {
                return Err(e);
            },
        };
        let first_name = match str_field(v, "first_name") {
            Ok(s) => s,
            Err(e) => {
                return Err(e);
            },
        };
        let last_name = match str_field(v, "last_name") {
            Ok(s) => s,
            Err(e) => {
                return Err(e);
            },
        };
        let middle_name = match str_field(v, "middle_name") {
            Ok(s) => s,
            Err(e) => {
                return Err(e);
            },
        };
        let phones = match str_field(v, "phones") {
            Ok(s) => s,
            Err(e) => {
                return Err(e);
            },
        };
        let full_name = match str_field(v, "Description") {
            Ok(s) => s,
            Err(e) => {
                return Err(e);
            },
        };
        Ok(NovaCounterparty { id, first_name, last_name, middle_name, phones, full_name })
    }
}

/// The first warehouse at or after position `i` whose number is `number`.
pub open spec fn first_warehouse_from(ws: Seq<NovaWarehouse>, number: Seq<char>, i: int) -> Option<
    NovaWarehouse,
>
    decreases ws.len() - i,
{
    if !(0 <= i < ws.len()) {
        None
    } else if ws[i].number@ == number {
        Some(ws[i])
    } else {
        first_warehouse_from(ws, number, i + 1)
    }
}

/// The first warehouse of the list whose number is `number`.
pub open spec fn first_warehouse(ws: Seq<NovaWarehouse>, number: Seq<char>) -> Option<
    NovaWarehouse,
> {
    first_warehouse_from(ws, number, 0)
}

/// The text of the error a failed warehouse-number lookup raises; it names
/// both the number and the city searched.
pub open spec fn warehouse_missing_msg(number: Seq<char>, city: Seq<char>) -> Seq<char> {
    "warehouse "@ + number + " not found in "@ + city
}

/// Resolves a city-scoped warehouse number to the warehouse's global
/// reference by scanning the city's warehouse list front to back.  A number
/// the list does not hold is a resolution failure naming the number and the
/// city.
pub fn find_warehouse_ref(warehouses: &Vec<NovaWarehouse>, number: &str, city_name: &str) -> (r:
    Result<String, NovaError>)
    ensures
        first_warehouse(warehouses@, number@) matches Some(w) ==> (r matches Ok(id) && id@
            == w.id@),
        first_warehouse(warehouses@, number@) is None ==> (r matches Err(e) && (e matches
            NovaError::Resolution { details } && details@ == warehouse_missing_msg(
            number@,
            city_name@,
        ))),
{
    let mut i: usize = 0;
    while i < warehouses.len()
        invariant
            0 <= i <= warehouses@.len(),
            first_warehouse(warehouses@, number@) == first_warehouse_from(
                warehouses@,
                number@,
                i as int,
            ),
        decreases warehouses@.len() - i,
    {
        if string_eq_str(&warehouses[i].number, number) {
            proof {
                assert(first_warehouse_from(warehouses@, number@, i as int) == Some(
                    warehouses@[i as int],
                ));
            }
            return Ok(warehouses[i].id.clone());
        }
        i = i + 1;
    }
    let mut details: String = "warehouse ".to_owned();
    details.append(number);
    details.append(" not found in ");
    details.append(city_name);
    proof {
        assert(details@ =~= warehouse_missing_msg(number@, city_name@));
    }
    Err(NovaError::Resolution { details })
}

/// The carrier client: the caller's key, and one request builder per
/// remote method.  The transport that moves a built request to the wire and
/// brings the response envelope back is the caller's.
pub struct NovaPoshta {
    pub api_key: String,
}

impl NovaPoshta {
    pub fn new(api_key: String) -> (r: NovaPoshta)
        ensures
            r.api_key == api_key,
    {
        NovaPoshta { api_key }
    }

    /// The warehouse search by free-text query, e.g. a city name with a
    /// branch number.
    pub fn get_warehouses_request(&self, query: String) -> (r: NovaRequest)
        ensures
            r.model_name@ == "AddressGeneral"@,
            r.called_method@ == "getWarehouses"@,
            r.api_key == self.api_key,
            r.method_properties matches JsonValue::Obj(f) && {
                &&& f@.len() == 1
                &&& f@[0].0@ == "FindByString"@ && f@[0].1 == JsonValue::Str(query)
            },
    {
        let mut f: Vec<(String, JsonValue)> = Vec::new();
        push_field(&mut f, "FindByString", JsonValue::Str(query));
        self.request("getWarehouses", "AddressGeneral", JsonValue::Obj(f))
    }

    /// The caller's own counterparties of the sender kind.
    pub fn get_counterpartys_request(&self) -> (r: NovaRequest)
        ensures
            r.model_name@ == "Counterparty"@,
            r.called_method@ == "getCounterparties"@,
            r.api_key == self.api_key,
            r.method_properties matches JsonValue::Obj(f) && {
                &&& f@.len() == 1
                &&& f@[0].0@ == "CounterpartyProperty"@ && (f@[0].1 matches JsonValue::Str(s) && s@
                    == "Sender"@)
            },
    {
        let mut f: Vec<(String, JsonValue)> = Vec::new();
        push_field(&mut f, "CounterpartyProperty", json_str("Sender"));
        self.request("getCounterparties", "Counterparty", JsonValue::Obj(f))
    }

    /// The contact persons of one counterparty.
    pub fn get_counterparty_contact_person_request(&self, id: String) -> (r: NovaRequest)
        ensures
            r.model_name@ == "Counterparty"@,
            r.called_method@ == "getCounterpartyContactPersons"@,
            r.api_key == self.api_key,
            r.method_properties matches JsonValue::Obj(f) && {
                &&& f@.len() == 1
                &&& f@[0].0@ == "Ref"@ && f@[0].1 == JsonValue::Str(id)
            },
    {
        let mut f: Vec<(String, JsonValue)> = Vec::new();
        push_field(&mut f, "Ref", JsonValue::Str(id));
        self.request("getCounterpartyContactPersons", "Counterparty", JsonValue::Obj(f))
    }

    /// The shipment-creation call, from a fully resolved sender, the
    /// recipient, the cargo list and the send date.  An empty cargo list and
    /// a recipient target with no kind set are resolution failures raised
    /// before any request exists.
    pub fn new_shipment_request(
        &self,
        sender: &SenderContact,
        recipient: &Recipient,
        cargos: &Vec<Cargo>,
        date: NovaDate,
    ) -> (r: Result<NovaRequest, NovaError>)
        requires
            sums_fit(cargos@),
        ensures
            cargos@.len() == 0 ==> (r matches Err(e) && (e matches NovaError::Resolution { details }
                && details@ == "You cannot send 0 cargos"@)),
            cargos@.len() > 0 && !recipient.address.has_target() ==> (r matches Err(e) && (e matches
                NovaError::Resolution { details } && details@
                == "recipient address must specify exactly one target"@)),
            cargos@.len() > 0 && recipient.address.has_target() ==> (r matches Ok(req) && {
                &&& req.model_name@ == "InternetDocument"@
                &&& req.called_method@ == "save"@
                &&& req.api_key == self.api_key
                &&& shipment_properties_json(
                    req.method_properties,
                    sender.city_id,
                    sender.warehouse_id,
                    sender.counterparty_id,
                    sender.contact_id,
                    sender.contact_phone,
                    *recipient,
                    cargos@,
                    date,
                )
            }),
    {
        if cargos.len() == 0 {
            return Err(
                NovaError::Resolution { details: "You cannot send 0 cargos".to_owned() },
            );
        }
        let props = match shipment_properties(
            &sender.city_id,
            &sender.warehouse_id,
            &sender.counterparty_id,
            &sender.contact_id,
            &sender.contact_phone,
            recipient,
            cargos,
            date,
        ) {
            Ok(p) => p,
            Err(e) => {
                return Err(e);
            },
        };
        Ok(self.request("save", "InternetDocument", props))
    }

    /// The shipment-deletion call for the given document references.
    pub fn delete_shipments_request(&self, document_ids: &Vec<String>) -> (r: NovaRequest)
        ensures
            r.model_name@ == "InternetDocument"@,
            r.called_method@ == "delete"@,
            r.api_key == self.api_key,
            r.method_properties matches JsonValue::Obj(f) && {
                &&& f@.len() == 1
                &&& f@[0].0@ == "DocumentRefs"@ && (f@[0].1 matches JsonValue::Arr(a) && a@.len()
                    == document_ids@.len() && (forall|i: int|
                    0 <= i < document_ids@.len() ==> a@[i] == JsonValue::Str(document_ids@[i])))
            },
    {
        let mut f: Vec<(String, JsonValue)> = Vec::new();
        push_field(&mut f, "DocumentRefs", strs_to_json(document_ids));
        self.request("delete", "InternetDocument", JsonValue::Obj(f))
    }

    /// The price estimate between two resolved cities for an aggregated
    /// cargo list; the caller hands the send date in, typically a week
    /// ahead.
    pub fn estimate_shipment_price_request(
        &self,
        city_ref0: String,
        city_ref1: String,
        service_type: NovaServiceType,
        cargos: &Vec<Cargo>,
        date: NovaDate,
    ) -> (r: NovaRequest)
        requires
            sums_fit(cargos@),
        ensures
            r.model_name@ == "InternetDocument"@,
            r.called_method@ == "getDocumentPrice"@,
            r.api_key == self.api_key,
            price_properties_json(
                r.method_properties,
                city_ref0,
                city_ref1,
                service_type,
                cargos@,
                date,
            ),
    {
        let props = price_properties(city_ref0, city_ref1, service_type, cargos, date);
        self.request("getDocumentPrice", "InternetDocument", props)
    }

    /// The delivery-date estimate between two resolved cities.
    pub fn estimate_shipment_date_request(
        &self,
        send_date: String,
        service_type: NovaServiceType,
        city_sender_ref: String,
        city_recipient_ref: String,
    ) -> (r: NovaRequest)
        ensures
            r.model_name@ == "InternetDocument"@,
            r.called_method@ == "getDocumentDeliveryDate"@,
            r.api_key == self.api_key,
            r.method_properties matches JsonValue::Obj(f) && {
                &&& f@.len() == 4
                &&& f@[0].0@ == "DateTime"@ && f@[0].1 == JsonValue::Str(send_date)
                &&& f@[1].0@ == "ServiceType"@ && (f@[1].1 matches JsonValue::Str(s) && s@
                    == service_type_str(service_type))
                &&& f@[2].0@ == "CitySender"@ && f@[2].1 == JsonValue::Str(city_sender_ref)
                &&& f@[3].0@ == "CityRecipient"@ && f@[3].1 == JsonValue::Str(city_recipient_ref)
            },
    {
        let mut f: Vec<(String, JsonValue)> = Vec::new();
        push_field(&mut f, "DateTime", JsonValue::Str(send_date));
        push_field(&mut f, "ServiceType", json_str(service_type.as_str()));
        push_field(&mut f, "CitySender", JsonValue::Str(city_sender_ref));
        push_field(&mut f, "CityRecipient", JsonValue::Str(city_recipient_ref));
        self.request("getDocumentDeliveryDate", "InternetDocument", JsonValue::Obj(f))
    }

    /// The tracking call for a list of documents.
    pub fn shipments_statuses_request(&self, documents: &Vec<NovaStatusFetch>) -> (r: NovaRequest)
        ensures
            r.model_name@ == "TrackingDocument"@,
            r.called_method@ == "getStatusDocuments"@,
            r.api_key == self.api_key,
            r.method_properties matches JsonValue::Obj(f) && {
                &&& f@.len() == 1
                &&& f@[0].0@ == "Documents"@ && (f@[0].1 matches JsonValue::Arr(a) && a@.len()
                    == documents@.len() && (forall|i: int|
                    0 <= i < documents@.len() ==> status_fetch_json(a@[i], documents@[i])))
            },
    {
        let mut docs: Vec<JsonValue> = Vec::new();
        let mut i: usize = 0;
        while i < documents.len()
            invariant
                0 <= i <= documents@.len(),
                docs@.len() == i,
                forall|j: int| 0 <= j < i ==> status_fetch_json(docs@[j], documents@[j]),
            decreases documents@.len() - i,
        {
            docs.push(documents[i].to_json());
            i = i + 1;
        }
        let mut f: Vec<(String, JsonValue)> = Vec::new();
        push_field(&mut f, "Documents", JsonValue::Arr(docs));
        self.request("getStatusDocuments", "TrackingDocument", JsonValue::Obj(f))
    }

    /// Wraps one method call in the outbound envelope with this client's
    /// key.
    fn request(&self, method: &str, model: &str, properties: JsonValue) -> (r: NovaRequest)
        ensures
            r.called_method@ == method@,
            r.model_name@ == model@,
            r.method_properties == properties,
            r.api_key == self.api_key,
    {
        NovaRequest::new(method.to_owned(), model.to_owned(), properties, self.api_key.clone())
    }
}

/// Whether `v` is the property object of a shipment-creation call with the
/// given resolved inputs.
pub open spec fn shipment_properties_json(
    v: JsonValue,
    city_sender: String,
    sender_address: String,
    sender_ref: String,
    contact_sender: String,
    senders_phone: String,
    recipient: Recipient,
    cargos: Seq<Cargo>,
    date: NovaDate,
) -> bool {
    v matches JsonValue::Obj(f) && {
        &&& f@.len() == 23
        &&& f@[0].0@ == "NewAddress"@ && (f@[0].1 matches JsonValue::Str(s) && s@ == "1"@)
        &&& f@[1].0@ == "PayerType"@ && (f@[1].1 matches JsonValue::Str(s) && s@ == (
        if recipient.is_payer {
            "Recipient"@
        } else {
            "Sender"@
        }))
        &&& f@[2].0@ == "Weight"@ && (f@[2].1 matches JsonValue::Str(s) && s@ == milli_str(
            sum_weight(cargos) as nat,
        ))
        &&& f@[3].0@ == "CargoType"@ && (f@[3].1 matches JsonValue::Str(s) && s@ == "Parcel"@)
        &&& f@[4].0@ == "ServiceType"@ && (f@[4].1 matches JsonValue::Str(s) && s@
            == service_type_str(recipient.address.service_type))
        &&& f@[5].0@ == "SeatsAmount"@ && (f@[5].1 matches JsonValue::Str(s) && s@ == dec_digits(
            cargos.len(),
        ))
        &&& f@[6].0@ == "Description"@ && (f@[6].1 matches JsonValue::Str(s) && s@
            == last_description(cargos))
        &&& f@[7].0@ == "Cost"@ && (f@[7].1 matches JsonValue::Str(s) && s@ == int_str(
            sum_cost(cargos),
        ))
        &&& f@[8].0@ == "CitySender"@ && f@[8].1 == JsonValue::Str(city_sender)
        &&& f@[9].0@ == "SenderAddress"@ && f@[9].1 == JsonValue::Str(sender_address)
        &&& f@[10].0@ == "Sender"@ && f@[10].1 == JsonValue::Str(sender_ref)
        &&& f@[11].0@ == "ContactSender"@ && f@[11].1 == JsonValue::Str(contact_sender)
        &&& f@[12].0@ == "SendersPhone"@ && f@[12].1 == JsonValue::Str(senders_phone)
        &&& f@[13].0@ == "RecipientAddressName"@ && (f@[13].1 matches JsonValue::Str(s) && Some(s@)
            == recipient.address.spec_target_name())
        &&& f@[14].0@ == "RecipientHouse"@ && f@[14].1 == opt_str_json(
            recipient.address.address_house,
        )
        &&& f@[15].0@ == "RecipientFlat"@ && f@[15].1 == opt_str_json(
            recipient.address.address_flat,
        )
        &&& f@[16].0@ == "RecipientCityName"@ && f@[16].1 == JsonValue::Str(recipient.city_name)
        &&& f@[17].0@ == "RecipientName"@ && f@[17].1 == JsonValue::Str(recipient.full_name)
        &&& f@[18].0@ == "RecipientType"@ && (f@[18].1 matches JsonValue::Str(s) && s@
            == "PrivatePerson"@)
        &&& f@[19].0@ == "RecipientsPhone"@ && f@[19].1 == JsonValue::Str(recipient.phone)
        &&& f@[20].0@ == "DateTime"@ && (f@[20].1 matches JsonValue::Str(s) && s@
            == date.ttn_time())
        &&& f@[21].0@ == "PaymentMethod"@ && (f@[21].1 matches JsonValue::Str(s) && s@ == "Cash"@)
        &&& f@[22].0@ == "BackwardDeliveryData"@ && (f@[22].1 matches JsonValue::Arr(a) && (
        if sum_cod(cargos) > 0 {
            a@.len() == 1 && (a@[0] matches JsonValue::Obj(bf) && {
                &&& bf@.len() == 3
                &&& bf@[0].0@ == "PayerType"@ && (bf@[0].1 matches JsonValue::Str(s) && s@
                    == "Recipient"@)
                &&& bf@[1].0@ == "CargoType"@ && (bf@[1].1 matches JsonValue::Str(s) && s@
                    == "Money"@)
                &&& bf@[2].0@ == "RedeliveryString"@ && (bf@[2].1 matches JsonValue::Str(s) && s@
                    == int_str(sum_cod(cargos)))
            })
        } else {
            a@.len() == 0
        }))
    }
}

/// Whether `v` is the property object of a price-estimate call with the
/// given inputs.
pub open spec fn price_properties_json(
    v: JsonValue,
    city_sender: String,
    city_recipient: String,
    service_type: NovaServiceType,
    cargos: Seq<Cargo>,
    date: NovaDate,
) -> bool {
    v matches JsonValue::Obj(f) && {
        &&& f@.len() == 9
        &&& f@[0].0@ == "CitySender"@ && f@[0].1 == JsonValue::Str(city_sender)
        &&& f@[1].0@ == "CityRecipient"@ && f@[1].1 == JsonValue::Str(city_recipient)
        &&& f@[2].0@ == "Weight"@ && (f@[2].1 matches JsonValue::Str(s) && s@ == milli_str(
            sum_weight(cargos) as nat,
        ))
        &&& f@[3].0@ == "ServiceType"@ && (f@[3].1 matches JsonValue::Str(s) && s@
            == service_type_str(service_type))
        &&& f@[4].0@ == "Cost"@ && (f@[4].1 matches JsonValue::Str(s) && s@ == int_str(
            sum_cost(cargos),
        ))
        &&& f@[5].0@ == "CargoType"@ && (f@[5].1 matches JsonValue::Str(s) && s@ == "Parcel"@)
        &&& f@[6].0@ == "SeatsAmount"@ && (f@[6].1 matches JsonValue::Str(s) && s@ == dec_digits(
            cargos.len(),
        ))
        &&& f@[7].0@ == "RedeliveryCalculate"@ && (f@[7].1 matches JsonValue::Obj(rc) && (
        if sum_cod(cargos) > 0 {
            rc@.len() == 2 && rc@[0].0@ == "CargoType"@ && (rc@[0].1 matches JsonValue::Str(s) && s@
                == "Money"@) && rc@[1].0@ == "Amount"@ && (rc@[1].1 matches JsonValue::Str(s) && s@
                == int_str(sum_cod(cargos)))
        } else {
            rc@.len() == 0
        }))
        &&& f@[8].0@ == "DateTime"@ && (f@[8].1 matches JsonValue::Str(s) && s@ == date.ttn_time())
    }
}

/// Builds the property object of a price-estimate call.
pub(crate) fn price_properties(
    city_sender: String,
    city_recipient: String,
    service_type: NovaServiceType,
    cargos: &Vec<Cargo>,
    date: NovaDate,
) -> (r: JsonValue)
    requires
        sums_fit(cargos@),
    ensures
        price_properties_json(r, city_sender, city_recipient, service_type, cargos@, date),
{
    let seats_amount = cargos.len();
    let (weight, price, to_payment, _description) = cargos.into_ttn_values();
    let redelivery_calculate: JsonValue = if to_payment > 0 {
        let rc = crate::properties::NovaRedeliveryCalculate {
            cargo_type: "Money".to_owned(),
            amount: i64_to_string(to_payment as i64),
        };
        rc.to_json()
    } else {
        JsonValue::Obj(Vec::new())
    };
    let mut f: Vec<(String, JsonValue)> = Vec::new();
    push_field(&mut f, "CitySender", JsonValue::Str(city_sender));
    push_field(&mut f, "CityRecipient", JsonValue::Str(city_recipient));
    push_field(&mut f, "Weight", JsonValue::Str(milli_to_string(weight)));
    push_field(&mut f, "ServiceType", json_str(service_type.as_str()));
    push_field(&mut f, "Cost", JsonValue::Str(i64_to_string(price as i64)));
    push_field(&mut f, "CargoType", json_str("Parcel"));
    push_field(&mut f, "SeatsAmount", JsonValue::Str(u64_to_string(seats_amount as u64)));
    push_field(&mut f, "RedeliveryCalculate", redelivery_calculate);
    push_field(&mut f, "DateTime", JsonValue::Str(date.into_ttn_time()));
    JsonValue::Obj(f)
}

/// Builds the 23 properties of a shipment-creation call; fails before any
/// request exists when the recipient's target has no kind set.
pub(crate) fn shipment_properties(
    city_sender: &String,
    sender_address: &String,
    sender_ref: &String,
    contact_sender: &String,
    senders_phone: &String,
    recipient: &Recipient,
    cargos: &Vec<Cargo>,
    date: NovaDate,
) -> (r: Result<JsonValue, NovaError>)
    requires
        sums_fit(cargos@),
        cargos@.len() > 0,
    ensures
        !recipient.address.has_target() ==> (r matches Err(e) && (e matches NovaError::Resolution {
            details } && details@ == "recipient address must specify exactly one target"@)),
        recipient.address.has_target() ==> (r matches Ok(v) && shipment_properties_json(
            v,
            *city_sender,
            *sender_address,
            *sender_ref,
            *contact_sender,
            *senders_phone,
            *recipient,
            cargos@,
            date,
        )),
{
    let target: String = match recipient.address.target_name() {
        Some(n) => n.clone(),
        None => {
            return Err(
                NovaError::Resolution {
                    details: "recipient address must specify exactly one target".to_owned(),
                },
            );
        },
    };
    let seats_amount = cargos.len();
    let (weight, price, to_payment, description) = cargos.into_ttn_values();
    let payer: &str = if recipient.is_payer {
        "Recipient"
    } else {
        "Sender"
    };
    let mut backward: Vec<JsonValue> = Vec::new();
    if to_payment > 0 {
        let bd = crate::properties::BackwardDeliveryData::money(to_payment);
        backward.push(bd[0].to_json());
    }
    let mut f: Vec<(String, JsonValue)> = Vec::new();
    push_field(&mut f, "NewAddress", json_str("1"));
    push_field(&mut f, "PayerType", json_str(payer));
    push_field(&mut f, "Weight", JsonValue::Str(milli_to_string(weight)));
    push_field(&mut f, "CargoType", json_str("Parcel"));
    push_field(&mut f, "ServiceType", json_str(recipient.address.service_type.as_str()));
    push_field(&mut f, "SeatsAmount", JsonValue::Str(u64_to_string(seats_amount as u64)));
    push_field(&mut f, "Description", JsonValue::Str(description));
    push_field(&mut f, "Cost", JsonValue::Str(i64_to_string(price as i64)));
    push_field(&mut f, "CitySender", JsonValue::Str(city_sender.clone()));
    push_field(&mut f, "SenderAddress", JsonValue::Str(sender_address.clone()));
    push_field(&mut f, "Sender", JsonValue::Str(sender_ref.clone()));
    push_field(&mut f, "ContactSender", JsonValue::Str(contact_sender.clone()));
    push_field(&mut f, "SendersPhone", JsonValue::Str(senders_phone.clone()));
    push_field(&mut f, "RecipientAddressName", JsonValue::Str(target));
    push_field(
        &mut f,
        "RecipientHouse",
        crate::json::opt_str_to_json(crate::json::clone_opt_string(&recipient.address.address_house)),
    );
    push_field(
        &mut f,
        "RecipientFlat",
        crate::json::opt_str_to_json(crate::json::clone_opt_string(&recipient.address.address_flat)),
    );
    push_field(&mut f, "RecipientCityName", JsonValue::Str(recipient.city_name.clone()));
    push_field(&mut f, "RecipientName", JsonValue::Str(recipient.full_name.clone()));
    push_field(&mut f, "RecipientType", json_str("PrivatePerson"));
    push_field(&mut f, "RecipientsPhone", JsonValue::Str(recipient.phone.clone()));
    push_field(&mut f, "DateTime", JsonValue::Str(date.into_ttn_time()));
    push_field(&mut f, "PaymentMethod", json_str("Cash"));
    push_field(&mut f, "BackwardDeliveryData", JsonValue::Arr(backward));
    Ok(JsonValue::Obj(f))
}

} // verus!
