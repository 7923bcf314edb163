//! Factory method: a dealer picks the vehicle that suits each delivery, so
//! the shipping company never assembles trucks or ships itself.

use vstd::prelude::*;
use vstd::string::StringExecFns;
use vstd::string::StrSliceExecFns;

verus! {

/// Whether `p` occurs as a contiguous run inside `s`.
pub open spec fn contains_seq(s: Seq<char>, p: Seq<char>) -> bool {
    exists|i: int| 0 <= i && i + p.len() <= s.len() && #[trigger] s.subrange(i, i + p.len()) == p
}

/// Whether the destination text mentions the island of Java.
pub open spec fn mentions_java(s: Seq<char>) -> bool {
    contains_seq(s, "Java"@)
}

fn contains_java(destination: &str) -> (r: bool)
    ensures
        r == mentions_java(destination@),
{
    proof {
        reveal_strlit("Java");
    }
    let n = destination.unicode_len();
    if n < 4 {
        return false;
    }
    let mut i: usize = 0;
    while i <= n - 4
        invariant
            n == destination@.len(),
            4 <= n,
            i <= n - 3,
            forall|j: int| 0 <= j < i ==> #[trigger] destination@.subrange(j, j + 4) != "Java"@,
        decreases n - i,
    {
        let c0 = destination.get_char(i);
        let c1 = destination.get_char(i + 1);
        let c2 = destination.get_char(i + 2);
        let c3 = destination.get_char(i + 3);
        proof {
            reveal_strlit("Java");
            assert(destination@.subrange(i as int, i + 4)[0] == destination@[i as int]);
            assert(destination@.subrange(i as int, i + 4)[1] == destination@[i + 1]);
            assert(destination@.subrange(i as int, i + 4)[2] == destination@[i + 2]);
            assert(destination@.subrange(i as int, i + 4)[3] == destination@[i + 3]);
        }
        if c0 == 'J' && c1 == 'a' && c2 == 'v' && c3 == 'a' {
            proof {
                assert(destination@.subrange(i as int, i + 4) =~= "Java"@);
            }
            return true;
        }
        i = i + 1;
    }
    proof {
        reveal_strlit("Java");
    }
    false
}

pub struct Cargo {
    pub weight: u32,
    pub destination: String,
}

/// A product a dealer can hand out; delivering reports how the cargo went.
pub trait Vehicle {
    spec fn delivery_note(&self, destination: Seq<char>) -> Seq<char>;

    fn deliver(&self, destination: String) -> (r: String)
        ensures
            r@ == self.delivery_note(destination@),
    ;
}

pub struct Truck {
    pub brand: String,
    pub wheel: u8,
    pub fuel: u16,
}

impl Vehicle for Truck {
    open spec fn delivery_note(&self, destination: Seq<char>) -> Seq<char> {
        "Delivering cargo by truck to "@ + destination
    }

    fn deliver(&self, destination: String) -> (r: String) {
        String::from_str("Delivering cargo by truck to ").concat(destination.as_str())
    }
}

pub struct Ship {
    pub name: String,
    pub fuel: u16,
}

impl Vehicle for Ship {
    open spec fn delivery_note(&self, destination: Seq<char>) -> Seq<char> {
        "Shipping cargo across islands to "@ + destination
    }

    fn deliver(&self, destination: String) -> (r: String) {
        String::from_str("Shipping cargo across islands to ").concat(destination.as_str())
    }
}

/// Whatever vehicle the dealer handed out.
pub enum SuitableVehicle {
    Truck(Truck),
    Ship(Ship),
}

impl Vehicle for SuitableVehicle {
    open spec fn delivery_note(&self, destination: Seq<char>) -> Seq<char> {
        match self {
            SuitableVehicle::Truck(t) => t.delivery_note(destination),
            SuitableVehicle::Ship(s) => s.delivery_note(destination),
        }
    }

    fn deliver(&self, destination: String) -> (r: String) {
        match self {
            SuitableVehicle::Truck(t) => t.deliver(destination),
            SuitableVehicle::Ship(s) => s.deliver(destination),
        }
    }
}

/// The factory: deals a truck for domestic runs on Java, a ship otherwise.
pub struct VehicleDealer;

impl VehicleDealer {
    /// The company is based on Java: a destination there is domestic.
    fn is_on_java(&self, destination: String) -> (r: bool)
        ensures
            r == mentions_java(destination@),
    {
        contains_java(destination.as_str())
    }

    pub fn get_suitable_vehicle(&self, destination: String) -> (v: SuitableVehicle)
        ensures
            mentions_java(destination@) ==> (v matches SuitableVehicle::Truck(t) && t.brand@
                == "Toyoda"@ && t.wheel == 4 && t.fuel == 10000),
            !mentions_java(destination@) ==> (v matches SuitableVehicle::Ship(s) && s.name@
                == "S.S Anne"@ && s.fuel == 20000),
    {
        if self.is_on_java(destination) {
            return SuitableVehicle::Truck(
                Truck { brand: String::from_str("Toyoda"), wheel: 4, fuel: 10000 },
            );
        }
        SuitableVehicle::Ship(Ship { name: String::from_str("S.S Anne"), fuel: 20000 })
    }
}

/// What each delivery of the given cargo list reports: a truck note for a
/// destination on Java, a shipping note for anywhere else.
pub open spec fn expected_delivery_note(destination: Seq<char>) -> Seq<char> {
    if mentions_java(destination) {
        "Delivering cargo by truck to "@ + destination
    } else {
        "Shipping cargo across islands to "@ + destination
    }
}

/// Delivers every cargo with a suitable vehicle, in order, and reports one
/// note per cargo.
pub fn deliver_cargo(cargos: Vec<Cargo>) -> (r: Vec<String>)
    ensures
        r@.len() == cargos@.len(),
        forall|i: int| 0 <= i < cargos@.len() ==> (#[trigger] r@[i])@ == expected_delivery_note(
            cargos@[i].destination@,
        ),
{
    let dealer = VehicleDealer {};
    let mut notes: Vec<String> = Vec::new();
    let n = cargos.len();
    let mut i: usize = 0;
    while i < n
        invariant
            n == cargos@.len(),
            i <= n,
            notes@.len() == i,
            forall|j: int| 0 <= j < i ==> (#[trigger] notes@[j])@ == expected_delivery_note(
                cargos@[j].destination@,
            ),
        decreases n - i,
    {
        let destination = cargos[i].destination.clone();
        let vehicle = dealer.get_suitable_vehicle(cargos[i].destination.clone());
        let note = vehicle.deliver(destination);
        notes.push(note);
        i = i + 1;
    }
    notes
}

} // verus!
