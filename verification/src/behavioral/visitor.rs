//! Visitor: shapes accept an exporter that knows how to render each kind.
//! Only the square and the JSON exporter live here; the circle works in
//! floating point and stays with the host application.

use vstd::prelude::*;
use vstd::string::StringExecFns;
use crate::decimal::dec_digits;
use crate::decimal::u64_to_string;

verus! {

pub struct Square {
    pub side: u32,
}

pub struct JSONExporter;

impl JSONExporter {
    /// The note reported when a square is exported as JSON.
    pub fn export_square(&self, shape: &Square) -> (r: String)
        ensures
            r@ == "Exporting square with side "@ + dec_digits(shape.side as nat)
                + " as JSON..."@,
    {
        String::from_str("Exporting square with side ").concat(
            u64_to_string(shape.side as u64).as_str(),
        ).concat(" as JSON...")
    }
}

} // verus!
