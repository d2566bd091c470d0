//! The recipient and the delivery target.
//!
//! A delivery target names exactly one of: a branch (warehouse) number, a
//! parcel-locker (pochtomat) number, or a street address.  The chosen kind
//! decides the carrier's service type, and a target with no kind at all must
//! fail shipment creation before any request is built.

use crate::models::cargo::NovaServiceType;
use crate::text::{i64_to_string, int_str};
use vstd::prelude::*;

verus! {

/// Where a shipment is delivered.  At most one of the three target kinds is
/// set: a warehouse number, a pochtomat number, or a street address (name
/// with house and flat).
#[derive(Clone, Debug, PartialEq, Eq)]
pub struct Address {
    pub warehouse_number: Option<String>,
    pub address_name: Option<String>,
    pub address_house: Option<String>,
    pub address_flat: Option<String>,
    pub pochtomat_number: Option<String>,
    pub service_type: NovaServiceType,
}

impl Address {
    /// The invariant the three constructors establish: at most one target
    /// kind is set, and the street fields come and go together.
    pub open spec fn spec_wf(self) -> bool {
        &&& self.warehouse_number is Some ==> self.address_name is None
            && self.pochtomat_number is None
        &&& self.address_name is Some ==> self.pochtomat_number is None
        &&& self.address_house is Some <==> self.address_name is Some
        &&& self.address_flat is Some <==> self.address_name is Some
    }

    /// Whether any target kind is set at all.
    pub open spec fn has_target(self) -> bool {
        ||| self.warehouse_number is Some
        ||| self.pochtomat_number is Some
        ||| self.address_name is Some
    }

    /// The target name the creation payload carries: the warehouse number,
    /// the pochtomat number, or the street name, whichever kind is set.
    pub open spec fn spec_target_name(self) -> Option<Seq<char>> {
        match self.warehouse_number {
            Some(n) => Some(n@),
            None => match self.pochtomat_number {
                Some(n) => Some(n@),
                None => match self.address_name {
                    Some(n) => Some(n@),
                    None => None,
                },
            },
        }
    }

    /// A borrow of the target name, when any kind is set.
    pub fn target_name(&self) -> (r: Option<&String>)
        ensures
            match r {
                Some(n) => self.spec_target_name() == Some(n@) && self.has_target(),
                None => self.spec_target_name() is None && !self.has_target(),
            },
    {
        match &self.warehouse_number {
            Some(n) => Some(n),
            None => match &self.pochtomat_number {
                Some(n) => Some(n),
                None => match &self.address_name {
                    Some(n) => Some(n),
                    None => None,
                },
            },
        }
    }

    /// Delivery to a carrier branch, named by its city-scoped number.
    pub fn warehouse(warehouse_number: i32) -> (r: Address)
        ensures
            r.spec_wf(),
            r.warehouse_number matches Some(n) && n@ == int_str(warehouse_number as int),
            r.address_name is None,
            r.address_house is None,
            r.address_flat is None,
            r.pochtomat_number is None,
            r.service_type == NovaServiceType::WarehouseWarehouse,
    {
        Address {
            warehouse_number: Some(i64_to_string(warehouse_number as i64)),
            address_name: None,
            address_house: None,
            address_flat: None,
            pochtomat_number: None,
            service_type: NovaServiceType::WarehouseWarehouse,
        }
    }

    /// Delivery to a street address.
    pub fn address(address_name: String, address_house: String, apartment_number: String) -> (r:
        Address)
        ensures
            r.spec_wf(),
            r.warehouse_number is None,
            r.address_name == Some(address_name),
            r.address_house == Some(address_house),
            r.address_flat == Some(apartment_number),
            r.pochtomat_number is None,
            r.service_type == NovaServiceType::WarehouseDoors,
    {
        Address {
            warehouse_number: None,
            address_name: Some(address_name),
            address_house: Some(address_house),
            address_flat: Some(apartment_number),
            pochtomat_number: None,
            service_type: NovaServiceType::WarehouseDoors,
        }
    }

    /// Delivery to a parcel locker, named by its city-scoped number.
    pub fn pochtomat(pochtomat_number: i32) -> (r: Address)
        ensures
            r.spec_wf(),
            r.warehouse_number is None,
            r.address_name is None,
            r.address_house is None,
            r.address_flat is None,
            r.pochtomat_number matches Some(n) && n@ == int_str(pochtomat_number as int),
            r.service_type == NovaServiceType::WarehouseWarehouse,
    {
        Address {
            warehouse_number: None,
            address_name: None,
            address_house: None,
            address_flat: None,
            pochtomat_number: Some(i64_to_string(pochtomat_number as i64)),
            service_type: NovaServiceType::WarehouseWarehouse,
        }
    }
}

/// The receiving party: city, full name, phone, whether they pay the
/// delivery, and the delivery target.
#[derive(Clone, Debug, PartialEq, Eq)]
pub struct Recipient {
    pub city_name: String,
    pub full_name: String,
    pub phone: String,
    pub is_payer: bool,
    pub address: Address,
}

impl Recipient {
    pub fn new(city: String, full_name: String, phone: &str, is_payer: bool, address: Address) -> (
        r: Recipient)
        ensures
            r.city_name == city,
            r.full_name == full_name,
            r.phone@ == phone@,
            r.is_payer == is_payer,
            r.address == address,
    {
        Recipient { city_name: city, full_name, phone: phone.to_owned(), is_payer, address }
    }
}

} // verus!
