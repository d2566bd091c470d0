//! The sending party's resolved carrier references.

use vstd::prelude::*;

verus! {

/// A fully resolved sender: every field is a carrier reference or a phone
/// number, ready for the shipment-creation payload.
#[derive(Clone, Debug, PartialEq, Eq)]
pub struct SenderContact {
    pub city_id: String,
    pub warehouse_id: String,
    pub contact_id: String,
    pub counterparty_id: String,
    pub contact_phone: String,
}

impl SenderContact {
    pub fn new(
        city_ref: &str,
        warehouse_ref: &str,
        contact_id: &str,
        counterparty_id: &str,
        contact_phone: &str,
    ) -> (r: SenderContact)
        ensures
            r.city_id@ == city_ref@,
            r.warehouse_id@ == warehouse_ref@,
            r.contact_id@ == contact_id@,
            r.counterparty_id@ == counterparty_id@,
            r.contact_phone@ == contact_phone@,
    {
        SenderContact {
            city_id: city_ref.to_owned(),
            warehouse_id: warehouse_ref.to_owned(),
            contact_id: contact_id.to_owned(),
            counterparty_id: counterparty_id.to_owned(),
            contact_phone: contact_phone.to_owned(),
        }
    }
}

/// A sender whose counterparty and contact references are still to be
/// resolved: city and warehouse references plus a phone number.
#[derive(Clone, Debug, PartialEq, Eq)]
pub struct Sender {
    pub city_ref: String,
    pub warehouse_ref: String,
    pub phone: String,
}

impl Sender {
    pub fn new(city_ref: &str, warehouse_ref: &str, phone: &str) -> (r: Sender)
        ensures
            r.city_ref@ == city_ref@,
            r.warehouse_ref@ == warehouse_ref@,
            r.phone@ == phone@,
    {
        Sender {
            city_ref: city_ref.to_owned(),
            warehouse_ref: warehouse_ref.to_owned(),
            phone: phone.to_owned(),
        }
    }
}

} // verus!
