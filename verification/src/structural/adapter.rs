//! Adapter: a converter lets an American laptop charger draw power from a
//! European socket through an interface it was never built for.

use vstd::prelude::*;
use vstd::string::StringExecFns;
use crate::decimal::dec_digits;
use crate::decimal::u64_to_string;

verus! {

pub struct LaptopCharger {
    pub rating: u32,
}

pub trait EuropeanPort {
    /// The power this port can deliver.
    spec fn converted_power(&self) -> u32;

    /// Whether the port is able to deliver power at all.
    spec fn power_available(&self) -> bool;

    fn get_power(&self) -> (r: u32)
        requires
            self.power_available(),
        ensures
            r == self.converted_power(),
    ;
}

pub struct EuropeanSocket {}

impl EuropeanSocket {
    /// Plugging a port in reports the power it delivers.
    pub fn plug_in<P: EuropeanPort>(&self, port: P) -> (r: String)
        requires
            port.power_available(),
        ensures
            r@ == "I am plugged in, in Europe! With power of "@ + dec_digits(
                port.converted_power() as nat,
            ),
    {
        let p = port.get_power();
        String::from_str("I am plugged in, in Europe! With power of ").concat(
            u64_to_string(p as u64).as_str(),
        )
    }
}

/// Adapts the charger to the European port interface; the conversion loses
/// a fixed 405 units, so the charger must be rated above that.
pub struct PowerConverter {
    pub charger: LaptopCharger,
}

impl EuropeanPort for PowerConverter {
    open spec fn converted_power(&self) -> u32 {
        (self.charger.rating - 405) as u32
    }

    open spec fn power_available(&self) -> bool {
        self.charger.rating >= 405
    }

    fn get_power(&self) -> (r: u32) {
        self.charger.rating - 45 * 9
    }
}

} // verus!
