//! The outbound request envelope and the property value objects that travel
//! inside it.

use crate::json::{push_field, JsonValue};
use crate::text::{i64_to_string, int_str};
use vstd::prelude::*;

verus! {

/// Who pays for a service.
#[derive(Clone, Copy, Debug, PartialEq, Eq, Structural)]
pub enum NovaPayerType {
    Sender,
    Recipient,
}

/// The wire text of a payer kind.
pub open spec fn payer_type_str(p: NovaPayerType) -> Seq<char> {
    match p {
        NovaPayerType::Sender => "Sender"@,
        NovaPayerType::Recipient => "Recipient"@,
    }
}

impl NovaPayerType {
    /// The text the wire property carries.
    pub fn as_str(&self) -> (r: &'static str)
        ensures
            r@ == payer_type_str(*self),
    {
        match self {
            NovaPayerType::Sender => "Sender",
            NovaPayerType::Recipient => "Recipient",
        }
    }
}

/// What a backward delivery carries back to the sender.
#[derive(Clone, Copy, Debug, PartialEq, Eq, Structural)]
pub enum NovaBackwardCargo {
    Money,
}

/// The wire text of a backward-delivery cargo kind.
pub open spec fn backward_cargo_str(c: NovaBackwardCargo) -> Seq<char> {
    match c {
        NovaBackwardCargo::Money => "Money"@,
    }
}

impl NovaBackwardCargo {
    /// The text the wire property carries.
    pub fn as_str(&self) -> (r: &'static str)
        ensures
            r@ == backward_cargo_str(*self),
    {
        match self {
            NovaBackwardCargo::Money => "Money",
        }
    }
}

/// A redelivery instruction attached to a shipment: who pays, what goes
/// back, and the amount as the carrier's decimal text.
#[derive(Clone, Debug, PartialEq, Eq)]
pub struct BackwardDeliveryData {
    pub payer_type: NovaPayerType,
    pub cargo_type: NovaBackwardCargo,
    pub redelivery_string: String,
}

/// Whether `v` is the wire object of the backward-delivery instruction `b`.
pub open spec fn backward_delivery_json(v: JsonValue, b: BackwardDeliveryData) -> bool {
    v matches JsonValue::Obj(f) && {
        &&& f@.len() == 3
        &&& f@[0].0@ == "PayerType"@ && (f@[0].1 matches JsonValue::Str(s) && s@ == payer_type_str(
            b.payer_type,
        ))
        &&& f@[1].0@ == "CargoType"@ && (f@[1].1 matches JsonValue::Str(s) && s@
            == backward_cargo_str(b.cargo_type))
        &&& f@[2].0@ == "RedeliveryString"@ && f@[2].1 == JsonValue::Str(b.redelivery_string)
    }
}

impl BackwardDeliveryData {
    /// The single cash-collection instruction for the given amount: the
    /// recipient pays, money goes back, the amount rendered as decimal text.
    pub fn money(amount: i32) -> (r: Vec<BackwardDeliveryData>)
        ensures
            r@.len() == 1,
            r@[0].payer_type == NovaPayerType::Recipient,
            r@[0].cargo_type == NovaBackwardCargo::Money,
            r@[0].redelivery_string@ == int_str(amount as int),
    {
        let mut out: Vec<BackwardDeliveryData> = Vec::new();
        out.push(
            BackwardDeliveryData {
                payer_type: NovaPayerType::Recipient,
                cargo_type: NovaBackwardCargo::Money,
                redelivery_string: i64_to_string(amount as i64),
            },
        );
        out
    }

    /// The wire object of one backward-delivery instruction.
    pub fn to_json(&self) -> (r: JsonValue)
        ensures
            backward_delivery_json(r, *self),
    {
        let mut f: Vec<(String, JsonValue)> = Vec::new();
        push_field(&mut f, "PayerType", crate::json::json_str(self.payer_type.as_str()));
        push_field(&mut f, "CargoType", crate::json::json_str(self.cargo_type.as_str()));
        push_field(&mut f, "RedeliveryString", JsonValue::Str(self.redelivery_string.clone()));
        JsonValue::Obj(f)
    }
}

/// One tracked document named in a status request.
#[derive(Clone, Debug, PartialEq, Eq)]
pub struct NovaDocument {
    pub document_number: String,
    pub phone: String,
}

/// Whether `v` is the wire object of the tracked document `d`.
pub open spec fn nova_document_json(v: JsonValue, d: NovaDocument) -> bool {
    v matches JsonValue::Obj(f) && {
        &&& f@.len() == 2
        &&& f@[0].0@ == "DocumentNumber"@ && f@[0].1 == JsonValue::Str(d.document_number)
        &&& f@[1].0@ == "Phone"@ && f@[1].1 == JsonValue::Str(d.phone)
    }
}

impl NovaDocument {
    pub fn new(ttn: String, phone: String) -> (r: NovaDocument)
        ensures
            r.document_number == ttn,
            r.phone == phone,
    {
        NovaDocument { document_number: ttn, phone }
    }

    /// The wire object of one tracked document.
    pub fn to_json(&self) -> (r: JsonValue)
        ensures
            nova_document_json(r, *self),
    {
        let mut f: Vec<(String, JsonValue)> = Vec::new();
        push_field(&mut f, "DocumentNumber", JsonValue::Str(self.document_number.clone()));
        push_field(&mut f, "Phone", JsonValue::Str(self.phone.clone()));
        JsonValue::Obj(f)
    }
}

/// A cash-collection amount to include in a price estimate.
#[derive(Clone, Debug, PartialEq, Eq)]
pub struct NovaRedeliveryCalculate {
    pub cargo_type: String,
    pub amount: String,
}

impl NovaRedeliveryCalculate {
    /// The wire object of the estimate's cash-collection part.
    pub fn to_json(&self) -> (r: JsonValue)
        ensures
            r matches JsonValue::Obj(f) && {
                &&& f@.len() == 2
                &&& f@[0].0@ == "CargoType"@ && f@[0].1 == JsonValue::Str(self.cargo_type)
                &&& f@[1].0@ == "Amount"@ && f@[1].1 == JsonValue::Str(self.amount)
            },
    {
        let mut f: Vec<(String, JsonValue)> = Vec::new();
        push_field(&mut f, "CargoType", JsonValue::Str(self.cargo_type.clone()));
        push_field(&mut f, "Amount", JsonValue::Str(self.amount.clone()));
        JsonValue::Obj(f)
    }
}

/// A delivery-date value as some responses carry it: the date text alone.
#[derive(Clone, Debug, PartialEq, Eq)]
pub struct DeliveryDate {
    pub date: String,
}

/// A branch's size limits, each side optional in the carrier's schema.
#[derive(Clone, Copy, Debug, PartialEq, Eq, Structural)]
pub struct NovaLimitationOnDimensions {
    pub width: Option<i32>,
    pub height: Option<i32>,
    pub lenght: Option<i32>,
}

/// A branch's weekly working hours.
#[derive(Clone, Debug, PartialEq, Eq)]
pub struct NovaSchedule {
    pub monday: String,
    pub tuesday: String,
    pub wednesday: String,
    pub thursday: String,
    pub friday: String,
    pub saturday: String,
    pub sunday: String,
}

/// The outbound request envelope: one method call with its properties and
/// the caller's key.
#[derive(Debug, PartialEq, Eq)]
pub struct NovaRequest {
    pub model_name: String,
    pub called_method: String,
    pub method_properties: JsonValue,
    pub api_key: String,
}

impl NovaRequest {
    pub fn new(
        called_method: String,
        model_name: String,
        method_properties: JsonValue,
        api_key: String,
    ) -> (r: NovaRequest)
        ensures
            r.called_method == called_method,
            r.model_name == model_name,
            r.method_properties == method_properties,
            r.api_key == api_key,
    {
        NovaRequest { called_method, model_name, method_properties, api_key }
    }

    /// The wire body of the request: the envelope's four fields as the
    /// carrier's endpoint takes them.
    pub fn into_wire_json(self) -> (r: JsonValue)
        ensures
            r matches JsonValue::Obj(f) && {
                &&& f@.len() == 4
                &&& f@[0].0@ == "calledMethod"@ && f@[0].1 == JsonValue::Str(self.called_method)
                &&& f@[1].0@ == "modelName"@ && f@[1].1 == JsonValue::Str(self.model_name)
                &&& f@[2].0@ == "methodProperties"@ && f@[2].1 == self.method_properties
                &&& f@[3].0@ == "apiKey"@ && f@[3].1 == JsonValue::Str(self.api_key)
            },
    {
        let mut f: Vec<(String, JsonValue)> = Vec::new();
        push_field(&mut f, "calledMethod", JsonValue::Str(self.called_method));
        push_field(&mut f, "modelName", JsonValue::Str(self.model_name));
        push_field(&mut f, "methodProperties", self.method_properties);
        push_field(&mut f, "apiKey", JsonValue::Str(self.api_key));
        JsonValue::Obj(f)
    }
}

/// A request-level error as the earliest callers saw it: one message string.
#[derive(Clone, Debug)]
pub struct NovaRequestError {
    details: String,
}

impl NovaRequestError {
    pub closed spec fn spec_details(&self) -> Seq<char> {
        self.details@
    }

    pub fn new(msg: String) -> (e: NovaRequestError)
        ensures
            e.spec_details() == msg@,
    {
        NovaRequestError { details: msg }
    }

    /// The message the error was made with.
    pub fn message(&self) -> (r: &str)
        ensures
            r@ == self.spec_details(),
    {
        self.details.as_str()
    }
}

} // verus!
