//! The shipment document records the carrier returns, and their decoders.

use crate::envelope::{spec_int_field, spec_str_field, fits_i32, i32_field, str_field, FromJson};
use crate::error::NovaError;
use crate::json::JsonValue;
use vstd::prelude::*;
use vstd::string::StringExecFns;

verus! {

/// A freshly created shipment: the tracking number, the document reference,
/// and the estimated delivery date the carrier computed.
#[derive(Clone, Debug, PartialEq, Eq)]
pub struct NovaShipmentCreated {
    pub int_doc_number: String,
    pub id: String,
    pub estimated_delivery_date: String,
}

/// The URL of a shipment's printable document.
pub open spec fn print_url(id: Seq<char>, api_key: Seq<char>) -> Seq<char> {
    "https://my.novaposhta.ua/orders/printDocument/orders[]/"@ + id + "/type/pdf/apiKey/"@
        + api_key
}

impl NovaShipmentCreated {
    /// The URL where the created document prints, no call made.
    pub fn print(&self, api_key: &str) -> (r: String)
        ensures
            r@ == print_url(self.id@, api_key@),
    {
        let mut out: String = "https://my.novaposhta.ua/orders/printDocument/orders[]/".to_owned();
        out.append(self.id.as_str());
        out.append("/type/pdf/apiKey/");
        out.append(api_key);
        proof {
            assert(out@ =~= print_url(self.id@, api_key@));
        }
        out
    }
}

impl FromJson for NovaShipmentCreated {
    open spec fn wf_json(v: JsonValue) -> bool {
        &&& spec_str_field(v, "intDocNumber"@) is Some
        &&& spec_str_field(v, "Ref"@) is Some
        &&& spec_str_field(v, "estimatedDeliveryDate"@) is Some
    }

    open spec fn json_matches(v: JsonValue, t: Self) -> bool {
        &&& spec_str_field(v, "intDocNumber"@) == Some(t.int_doc_number@)
        &&& spec_str_field(v, "Ref"@) == Some(t.id@)
        &&& spec_str_field(v, "estimatedDeliveryDate"@) == Some(t.estimated_delivery_date@)
    }

    fn from_json(v: &JsonValue) -> (r: Result<Self, NovaError>) {
        let int_doc_number = match str_field(v, "intDocNumber") {
            Ok(s) => s,
            Err(e) => {
                return Err(e);
            },
        };
        let id = match str_field(v, "Ref") {
            Ok(s) => s,
            Err(e) => {
                return Err(e);
            },
        };
        let estimated_delivery_date = match str_field(v, "estimatedDeliveryDate") {
            Ok(s) => s,
            Err(e) => {
                return Err(e);
            },
        };
        Ok(NovaShipmentCreated { int_doc_number, id, estimated_delivery_date })
    }
}

/// The acknowledgement of a deleted shipment document.
#[derive(Clone, Debug, PartialEq, Eq)]
pub struct NovaShipmentDelete {
    pub id: String,
}

impl FromJson for NovaShipmentDelete {
    open spec fn wf_json(v: JsonValue) -> bool {
        spec_str_field(v, "Ref"@) is Some
    }

    open spec fn json_matches(v: JsonValue, t: Self) -> bool {
        spec_str_field(v, "Ref"@) == Some(t.id@)
    }

    fn from_json(v: &JsonValue) -> (r: Result<Self, NovaError>) {
        let id = match str_field(v, "Ref") {
            Ok(s) => s,
            Err(e) => {
                return Err(e);
            },
        };
        Ok(NovaShipmentDelete { id })
    }
}

/// A computed delivery price: the cost, the cash-collection surcharge, and
/// the assessed-value part.
#[derive(Clone, Copy, Debug, PartialEq, Eq, Structural)]
pub struct NovaDocumentPrice {
    pub cost: i32,
    pub cost_redelivery: i32,
    pub assessed_cost: i32,
}

impl FromJson for NovaDocumentPrice {
    open spec fn wf_json(v: JsonValue) -> bool {
        &&& spec_int_field(v, "cost"@) matches Some(n) && fits_i32(n)
        &&& spec_int_field(v, "costRedelivery"@) matches Some(n) && fits_i32(n)
        &&& spec_int_field(v, "assessedCost"@) matches Some(n) && fits_i32(n)
    }

    open spec fn json_matches(v: JsonValue, t: Self) -> bool {
        &&& spec_int_field(v, "cost"@) == Some(t.cost as int)
        &&& spec_int_field(v, "costRedelivery"@) == Some(t.cost_redelivery as int)
        &&& spec_int_field(v, "assessedCost"@) == Some(t.assessed_cost as int)
    }

    fn from_json(v: &JsonValue) -> (r: Result<Self, NovaError>) {
        let cost = match i32_field(v, "cost") {
            Ok(n) => n,
            Err(e) => {
                return Err(e);
            },
        };
        let cost_redelivery = match i32_field(v, "costRedelivery") {
            Ok(n) => n,
            Err(e) => {
                return Err(e);
            },
        };
        let assessed_cost = match i32_field(v, "assessedCost") {
            Ok(n) => n,
            Err(e) => {
                return Err(e);
            },
        };
        Ok(NovaDocumentPrice { cost, cost_redelivery, assessed_cost })
    }
}

/// The delivery-date estimate: the carrier wraps it one level deep.
#[derive(Clone, Debug, PartialEq, Eq)]
pub struct NovaDeliveryDate {
    pub delivery_date: NovaDeliveryDateData,
}

/// The estimate's payload: a date text and its time zone.
#[derive(Clone, Debug, PartialEq, Eq)]
pub struct NovaDeliveryDateData {
    pub date: String,
    pub timezone: String,
}

impl FromJson for NovaDeliveryDateData {
    open spec fn wf_json(v: JsonValue) -> bool {
        &&& spec_str_field(v, "date"@) is Some
        &&& spec_str_field(v, "timezone"@) is Some
    }

    open spec fn json_matches(v: JsonValue, t: Self) -> bool {
        &&& spec_str_field(v, "date"@) == Some(t.date@)
        &&& spec_str_field(v, "timezone"@) == Some(t.timezone@)
    }

    fn from_json(v: &JsonValue) -> (r: Result<Self, NovaError>) {
        let date = match str_field(v, "date") {
            Ok(s) => s,
            Err(e) => {
                return Err(e);
            },
        };
        let timezone = match str_field(v, "timezone") {
            Ok(s) => s,
            Err(e) => {
                return Err(e);
            },
        };
        Ok(NovaDeliveryDateData { date, timezone })
    }
}

impl FromJson for NovaDeliveryDate {
    open spec fn wf_json(v: JsonValue) -> bool {
        v.spec_get("deliveryDate"@) matches Some(inner)
            && NovaDeliveryDateData::wf_json(inner)
    }

    open spec fn json_matches(v: JsonValue, t: Self) -> bool {
        v.spec_get("deliveryDate"@) matches Some(inner) && NovaDeliveryDateData::json_matches(
            inner,
            t.delivery_date,
        )
    }

    fn from_json(v: &JsonValue) -> (r: Result<Self, NovaError>) {
        match v.get("deliveryDate") {
            Some(inner) => match NovaDeliveryDateData::from_json(inner) {
                Ok(d) => Ok(NovaDeliveryDate { delivery_date: d }),
                Err(e) => Err(e),
            },
            None => Err(NovaError::transport("missing deliveryDate")),
        }
    }
}

/// One tracked document named in a status request: its number and, when the
/// carrier asks for it, the recipient's phone.
#[derive(Clone, Debug, PartialEq, Eq)]
pub struct NovaStatusFetch {
    pub document_number: String,
    pub phone: String,
}

/// Whether `v` is the wire object of the tracked document `d`.
pub open spec fn status_fetch_json(v: JsonValue, d: NovaStatusFetch) -> bool {
    v matches JsonValue::Obj(f) && {
        &&& f@.len() == 2
        &&& f@[0].0@ == "documentNumber"@ && f@[0].1 == JsonValue::Str(d.document_number)
        &&& f@[1].0@ == "phone"@ && f@[1].1 == JsonValue::Str(d.phone)
    }
}

impl NovaStatusFetch {
    /// The wire object of one tracked document.
    pub fn to_json(&self) -> (r: JsonValue)
        ensures
            status_fetch_json(r, *self),
    {
        let mut f: Vec<(String, JsonValue)> = Vec::new();
        crate::json::push_field(&mut f, "documentNumber", JsonValue::Str(
            self.document_number.clone(),
        ));
        crate::json::push_field(&mut f, "phone", JsonValue::Str(self.phone.clone()));
        JsonValue::Obj(f)
    }
}

/// A tracked shipment's status record.  The carrier's schema here is large
/// and unguaranteed; this client reads none of its fields and keeps the
/// record opaque, as its earliest callers did.
#[derive(Clone, Debug, PartialEq, Eq)]
pub struct NovaShipment {}

impl FromJson for NovaShipment {
    open spec fn wf_json(v: JsonValue) -> bool {
        v is Obj
    }

    open spec fn json_matches(v: JsonValue, t: Self) -> bool {
        true
    }

    fn from_json(v: &JsonValue) -> (r: Result<Self, NovaError>) {
        match v {
            JsonValue::Obj(_) => Ok(NovaShipment {  }),
            _ => Err(NovaError::transport("status record is not an object")),
        }
    }
}

} // verus!
