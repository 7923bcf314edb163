//! Strategy: interchangeable export behaviours behind one interface, and a
//! lookup predicate as the everyday closure form of the same idea.

use vstd::prelude::*;
use vstd::string::StringExecFns;

verus! {

pub struct User {
    pub id: String,
    pub name: String,
}

/// Whether some user in the list carries the given id.
pub fn is_user_exist(users: Vec<User>, id: String) -> (r: bool)
    ensures
        r == exists|i: int| 0 <= i < users@.len() && users@[i].id@ == id@,
{
    let n = users.len();
    let mut i: usize = 0;
    while i < n
        invariant
            n == users@.len(),
            i <= n,
            forall|j: int| 0 <= j < i ==> users@[j].id@ != id@,
        decreases n - i,
    {
        if users[i].id == id {
            return true;
        }
        i = i + 1;
    }
    false
}

pub trait Exporter {
    /// The note this exporter reports for any data handed to it.
    spec fn export_note(&self) -> Seq<char>;

    fn export(&self, data: String) -> (r: String)
        ensures
            r@ == self.export_note(),
    ;
}

pub struct KeJSONGan;

impl Exporter for KeJSONGan {
    open spec fn export_note(&self) -> Seq<char> {
        "Exporting data as JSON"@
    }

    fn export(&self, _data: String) -> (r: String) {
        String::from_str("Exporting data as JSON")
    }
}

pub struct KeYAMLGan;

impl Exporter for KeYAMLGan {
    open spec fn export_note(&self) -> Seq<char> {
        "Exporting data as YAML"@
    }

    fn export(&self, _data: String) -> (r: String) {
        String::from_str("Exporting data as YAML")
    }
}

pub struct KeTOMLGan;

impl Exporter for KeTOMLGan {
    open spec fn export_note(&self) -> Seq<char> {
        "Exporting data as TOML"@
    }

    fn export(&self, _data: String) -> (r: String) {
        String::from_str("Exporting data as TOML")
    }
}

/// Exports the data with whatever strategy the caller chose.
pub fn export_data<E: Exporter>(data: String, strategy: E) -> (r: String)
    ensures
        r@ == strategy.export_note(),
{
    strategy.export(data)
}

} // verus!
