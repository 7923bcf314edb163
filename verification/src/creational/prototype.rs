//! Prototype: an object copies itself without its users knowing its
//! construction details; the copy is proved to carry the same data.

use vstd::prelude::*;

verus! {

pub struct User {
    pub name: String,
    pub age: u8,
}

impl Clone for User {
    fn clone(&self) -> (r: Self)
        ensures
            r.name@ == self.name@,
            r.age == self.age,
    {
        User { name: self.name.clone(), age: self.age }
    }
}

} // verus!
