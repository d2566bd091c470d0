//! Cargo value objects and the aggregation that turns a cargo list into one
//! shipment line, plus the carrier's date text.
//!
//! Weights and volumes are counted in integer thousandths of the carrier's
//! unit (a weight of 500 is half a kilogram), so the arithmetic is exact and
//! the wire text is produced by the verified renderer in `text`.

use crate::text::{dec_digits, int_str, u64_to_string, i64_to_string};
use vstd::prelude::*;
use vstd::string::StringExecFns;

verus! {

/// One parcel seat's dimensional and weight descriptor, in thousandths.
#[derive(Clone, Debug, PartialEq, Eq)]
pub struct NovaOptionsSeat {
    /// Volume in thousandths of a cubic metre.
    pub volume_milli: u64,
    /// Width in centimetres.
    pub width: i32,
    /// Length in centimetres.
    pub length: i32,
    /// Height in centimetres.
    pub height: i32,
    /// Weight in thousandths of a kilogram.
    pub weight_milli: u64,
}

impl NovaOptionsSeat {
    pub fn new(volume_milli: u64, width: i32, length: i32, height: i32, weight_milli: u64) -> (r:
        NovaOptionsSeat)
        ensures
            r == (NovaOptionsSeat { volume_milli, width, length, height, weight_milli }),
    {
        NovaOptionsSeat { volume_milli, width, length, height, weight_milli }
    }
}

/// The parcel sizes the carrier prices as standard.
pub enum NovaParcelWightStandarts {
    UpToHalfKilogram,
}

impl From<NovaParcelWightStandarts> for NovaOptionsSeat {
    fn from(s: NovaParcelWightStandarts) -> (r: NovaOptionsSeat) {
        match s {
            NovaParcelWightStandarts::UpToHalfKilogram => NovaOptionsSeat {
                volume_milli: 500,
                width: 20,
                length: 20,
                height: 5,
                weight_milli: 500,
            },
        }
    }
}

impl vstd::std_specs::convert::FromSpecImpl<NovaParcelWightStandarts> for NovaOptionsSeat {
    open spec fn obeys_from_spec() -> bool {
        true
    }

    open spec fn from_spec(s: NovaParcelWightStandarts) -> NovaOptionsSeat {
        NovaOptionsSeat { volume_milli: 500, width: 20, length: 20, height: 5, weight_milli: 500 }
    }
}

/// One cargo: its declared cost in integer currency units, its seat
/// descriptor, whether its cost is collected cash-on-delivery, and a
/// description.
#[derive(Clone, Debug, PartialEq, Eq)]
pub struct Cargo {
    pub cost: i32,
    pub options_seat: NovaOptionsSeat,
    pub payment_on_delivery: bool,
    pub description: String,
}

impl Cargo {
    pub fn new(cost: i32, options: NovaOptionsSeat, payment: bool, description: String) -> (r:
        Cargo)
        ensures
            r == (Cargo {
                cost,
                options_seat: options,
                payment_on_delivery: payment,
                description,
            }),
    {
        Cargo { cost, options_seat: options, payment_on_delivery: payment, description }
    }
}

/// The sum of the cargos' weights, in thousandths of a kilogram.
pub open spec fn sum_weight(s: Seq<Cargo>) -> int
    decreases s.len(),
{
    if s.len() == 0 {
        0
    } else {
        sum_weight(s.drop_last()) + s.last().options_seat.weight_milli
    }
}

/// The sum of the cargos' declared costs.
pub open spec fn sum_cost(s: Seq<Cargo>) -> int
    decreases s.len(),
{
    if s.len() == 0 {
        0
    } else {
        sum_cost(s.drop_last()) + s.last().cost
    }
}

/// The sum of the declared costs of the cargos collected cash-on-delivery.
pub open spec fn sum_cod(s: Seq<Cargo>) -> int
    decreases s.len(),
{
    if s.len() == 0 {
        0
    } else {
        sum_cod(s.drop_last()) + if s.last().payment_on_delivery {
            s.last().cost as int
        } else {
            0
        }
    }
}

/// The description the aggregated shipment line carries: the last cargo's,
/// earlier ones being overwritten, a quirk kept from the carrier's callers.
pub open spec fn last_description(s: Seq<Cargo>) -> Seq<char> {
    if s.len() == 0 {
        Seq::empty()
    } else {
        s.last().description@
    }
}

/// A cargo list aggregates into one shipment line: total weight, total cost,
/// cash-on-delivery amount, and the line's description.
pub trait CargoSplit {
    /// The sum of the weights, in thousandths of a kilogram.
    spec fn total_weight(&self) -> int;

    /// The sum of the declared costs.
    spec fn total_cost(&self) -> int;

    /// The sum of the costs collected cash-on-delivery.
    spec fn total_cod(&self) -> int;

    /// The aggregated line's description.
    spec fn ttn_description(&self) -> Seq<char>;

    /// Whether the three sums stay inside their machine types at every
    /// prefix of the list.
    spec fn ttn_fits(&self) -> bool;

    /// The aggregated shipment line values: weight, cost, cash-on-delivery
    /// amount, description.
    fn into_ttn_values(&self) -> (r: (u64, i32, i32, String))
        requires
            self.ttn_fits(),
        ensures
            r.0 == self.total_weight(),
            r.1 == self.total_cost(),
            r.2 == self.total_cod(),
            r.3@ == self.ttn_description(),
    ;
}

/// Whether every prefix of the list keeps its running sums in range; the
/// sums grow monotonically in weight but costs may be any `i32`, so every
/// prefix is constrained.
pub open spec fn sums_fit(s: Seq<Cargo>) -> bool {
    forall|i: int|
        #![trigger s.subrange(0, i)]
        0 <= i <= s.len() ==> {
            &&& sum_weight(s.subrange(0, i)) <= u64::MAX
            &&& i32::MIN <= sum_cost(s.subrange(0, i)) <= i32::MAX
            &&& i32::MIN <= sum_cod(s.subrange(0, i)) <= i32::MAX
        }
}

/// Whether a cargo list's aggregation stays inside its machine types, as a
/// runtime test, so a caller holding an arbitrary list can establish the
/// aggregation's precondition before asking for it.
pub fn cargo_sums_fit(cargos: &Vec<Cargo>) -> (r: bool)
    ensures
        r == sums_fit(cargos@),
{
    let mut weight: u64 = 0;
    let mut cost: i32 = 0;
    let mut cod: i32 = 0;
    let mut i: usize = 0;
    proof {
        assert(cargos@.subrange(0, 0) =~= Seq::<Cargo>::empty());
    }
    while i < cargos.len()
        invariant
            0 <= i <= cargos@.len(),
            weight == sum_weight(cargos@.subrange(0, i as int)),
            cost == sum_cost(cargos@.subrange(0, i as int)),
            cod == sum_cod(cargos@.subrange(0, i as int)),
            forall|j: int|
                #![trigger cargos@.subrange(0, j)]
                0 <= j <= i ==> {
                    &&& sum_weight(cargos@.subrange(0, j)) <= u64::MAX
                    &&& i32::MIN <= sum_cost(cargos@.subrange(0, j)) <= i32::MAX
                    &&& i32::MIN <= sum_cod(cargos@.subrange(0, j)) <= i32::MAX
                },
        decreases cargos@.len() - i,
    {
        let c = &cargos[i];
        proof {
            assert(cargos@.subrange(0, i as int + 1).drop_last() =~= cargos@.subrange(0, i as int));
            assert(cargos@.subrange(0, i as int + 1).last() == cargos@[i as int]);
        }
        let next_weight = weight.checked_add(c.options_seat.weight_milli);
        let next_cost = cost.checked_add(c.cost);
        let next_cod = if c.payment_on_delivery {
            cod.checked_add(c.cost)
        } else {
            Some(cod)
        };
        match (next_weight, next_cost, next_cod) {
            (Some(w), Some(p), Some(q)) => {
                weight = w;
                cost = p;
                cod = q;
            },
            _ => {
                return false;
            },
        }
        i = i + 1;
    }
    proof {
        assert(cargos@.subrange(0, cargos@.len() as int) =~= cargos@);
    }
    true
}

impl CargoSplit for Vec<Cargo> {
    open spec fn total_weight(&self) -> int {
        sum_weight(self@)
    }

    open spec fn total_cost(&self) -> int {
        sum_cost(self@)
    }

    open spec fn total_cod(&self) -> int {
        sum_cod(self@)
    }

    open spec fn ttn_description(&self) -> Seq<char> {
        last_description(self@)
    }

    open spec fn ttn_fits(&self) -> bool {
        sums_fit(self@)
    }

    fn into_ttn_values(&self) -> (r: (u64, i32, i32, String)) {
        let mut total: u64 = 0;
        let mut price: i32 = 0;
        let mut to_payment_amount: i32 = 0;
        let mut description = String::new();
        let mut i: usize = 0;
        proof {
            assert(self@.subrange(0, 0) =~= Seq::<Cargo>::empty());
        }
        while i < self.len()
            invariant
                sums_fit(self@),
                0 <= i <= self@.len(),
                total == sum_weight(self@.subrange(0, i as int)),
                price == sum_cost(self@.subrange(0, i as int)),
                to_payment_amount == sum_cod(self@.subrange(0, i as int)),
                description@ == last_description(self@.subrange(0, i as int)),
            decreases self@.len() - i,
        {
            let c = &self[i];
            proof {
                assert(self@.subrange(0, i as int + 1).drop_last() =~= self@.subrange(0, i as int));
                assert(self@.subrange(0, i as int + 1).last() == self@[i as int]);
                assert(sum_weight(self@.subrange(0, i as int + 1)) <= u64::MAX);
                assert(i32::MIN <= sum_cost(self@.subrange(0, i as int + 1)) <= i32::MAX);
                assert(i32::MIN <= sum_cod(self@.subrange(0, i as int + 1)) <= i32::MAX);
            }
            total = total + c.options_seat.weight_milli;
            price = price + c.cost;
            description = c.description.clone();
            if c.payment_on_delivery {
                to_payment_amount = to_payment_amount + c.cost;
            }
            i = i + 1;
        }
        proof {
            assert(self@.subrange(0, self@.len() as int) =~= self@);
        }
        (total, price, to_payment_amount, description)
    }
}

/// A calendar date, the only part of a timestamp the carrier's date fields
/// carry.
#[derive(Clone, Copy, Debug, PartialEq, Eq, Structural)]
pub struct NovaDate {
    pub year: i32,
    pub month: u32,
    pub day: u32,
}

impl NovaDate {
    pub fn new(year: i32, month: u32, day: u32) -> (r: NovaDate)
        ensures
            r == (NovaDate { year, month, day }),
    {
        NovaDate { year, month, day }
    }
}

/// The carrier's date text: day, month and year joined with dots, each
/// rendered with no zero-padding.
pub open spec fn date_str(day: int, month: int, year: int) -> Seq<char> {
    int_str(day) + seq!['.'] + int_str(month) + seq!['.'] + int_str(year)
}

/// A value that renders as the carrier's `DateTime` property text.
pub trait NovaTime {
    /// The date text the value renders to.
    spec fn ttn_time(&self) -> Seq<char>;

    /// Renders the carrier's `day.month.year` text.
    fn into_ttn_time(&self) -> (r: String)
        ensures
            r@ == self.ttn_time(),
    ;
}

impl NovaTime for NovaDate {
    open spec fn ttn_time(&self) -> Seq<char> {
        date_str(self.day as int, self.month as int, self.year as int)
    }

    fn into_ttn_time(&self) -> (r: String) {
        let mut out = u64_to_string(self.day as u64);
        proof {
            reveal_strlit(".");
        }
        out.append(".");
        let month = u64_to_string(self.month as u64);
        out.append(month.as_str());
        out.append(".");
        let year = i64_to_string(self.year as i64);
        out.append(year.as_str());
        proof {
            assert(int_str(self.day as int) == dec_digits(self.day as nat));
            assert(int_str(self.month as int) == dec_digits(self.month as nat));
            assert(out@ =~= self.ttn_time());
        }
        out
    }
}

/// The carrier's service kinds: which ends of the route are branches and
/// which are street addresses.
#[derive(Clone, Copy, Debug, PartialEq, Eq, Structural)]
pub enum NovaServiceType {
    WarehouseWarehouse,
    WarehouseDoors,
    DoorsWarehouse,
    DoorsDoors,
}

/// The wire text of a service kind.
pub open spec fn service_type_str(s: NovaServiceType) -> Seq<char> {
    match s {
        NovaServiceType::WarehouseWarehouse => "WarehouseWarehouse"@,
        NovaServiceType::WarehouseDoors => "WarehouseDoors"@,
        NovaServiceType::DoorsWarehouse => "DoorsWarehouse"@,
        NovaServiceType::DoorsDoors => "DoorsDoors"@,
    }
}

impl NovaServiceType {
    /// The text the wire property carries.
    pub fn as_str(&self) -> (r: &'static str)
        ensures
            r@ == service_type_str(*self),
    {
        match self {
            NovaServiceType::WarehouseWarehouse => "WarehouseWarehouse",
            NovaServiceType::WarehouseDoors => "WarehouseDoors",
            NovaServiceType::DoorsWarehouse => "DoorsWarehouse",
            NovaServiceType::DoorsDoors => "DoorsDoors",
        }
    }
}

/// How the shipment is paid for.
#[derive(Clone, Copy, Debug, PartialEq, Eq, Structural)]
pub enum NovaPaymentMethod {
    Cash,
    NoCash,
}

/// The wire text of a payment method.
pub open spec fn payment_method_str(m: NovaPaymentMethod) -> Seq<char> {
    match m {
        NovaPaymentMethod::Cash => "Cash"@,
        NovaPaymentMethod::NoCash => "NoCash"@,
    }
}

impl NovaPaymentMethod {
    /// The text the wire property carries.
    pub fn as_str(&self) -> (r: &'static str)
        ensures
            r@ == payment_method_str(*self),
    {
        match self {
            NovaPaymentMethod::Cash => "Cash",
            NovaPaymentMethod::NoCash => "NoCash",
        }
    }
}

/// Aggregation is the per-field sum: appending one cargo grows the weight
/// total by that cargo's weight, the cost total by its cost, and the
/// cash-on-delivery total by its cost exactly when it is flagged, so
/// recomputing each field's sum over a list gives the aggregate back.
pub proof fn lemma_sums_push(s: Seq<Cargo>, c: Cargo)
    ensures
        sum_weight(s.push(c)) == sum_weight(s) + c.options_seat.weight_milli,
        sum_cost(s.push(c)) == sum_cost(s) + c.cost,
        sum_cod(s.push(c)) == sum_cod(s) + if c.payment_on_delivery {
            c.cost as int
        } else {
            0
        },
{
    assert(s.push(c).drop_last() =~= s);
    assert(s.push(c).last() == c);
}

/// The cash-on-delivery total of a list with no cargo flagged
/// cash-on-delivery is zero.
pub proof fn lemma_cod_zero_when_unflagged(s: Seq<Cargo>)
    requires
        forall|i: int| 0 <= i < s.len() ==> !s[i].payment_on_delivery,
    ensures
        sum_cod(s) == 0,
    decreases s.len(),
{
    if s.len() > 0 {
        lemma_cod_zero_when_unflagged(s.drop_last());
    }
}

} // verus!
