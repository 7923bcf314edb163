//! Chain of responsibility: a shirt passes along a line of manufacturing
//! stations, each doing its step and handing the shirt to the next one.

use vstd::prelude::*;
use vstd::string::StringExecFns;

verus! {

pub struct Shirt {
    pub color: (u8, u8, u8),
    pub size: String,
}

/// The sequence of views of the report lines.
pub open spec fn lines_of(v: Seq<String>) -> Seq<Seq<char>> {
    v.map_values(|s: String| s@)
}

/// A station in the line: handling reports its own step, then every step
/// of the stations after it.
pub trait ManufacturingLine {
    /// The reports this station and everything after it will make.
    spec fn messages(&self) -> Seq<Seq<char>>;

    fn handle(&self, shirt: Shirt) -> (r: Vec<String>)
        ensures
            lines_of(r@) == self.messages(),
    ;
}

/// The stop at the end of a line: nothing left to do.
pub struct LineEnd;

impl ManufacturingLine for LineEnd {
    open spec fn messages(&self) -> Seq<Seq<char>> {
        Seq::empty()
    }

    fn handle(&self, _shirt: Shirt) -> (r: Vec<String>) {
        let r: Vec<String> = Vec::new();
        proof {
            assert(lines_of(r@) =~= Seq::<Seq<char>>::empty());
        }
        r
    }
}

/// Appends the handler's own report, then runs the rest of the line.
fn run_next<N: ManufacturingLine>(own: &str, next: &Option<Box<N>>, shirt: Shirt) -> (r: Vec<
    String,
>)
    ensures
        lines_of(r@) == seq![own@] + (match next {
            Some(b) => b.messages(),
            None => Seq::<Seq<char>>::empty(),
        }),
{
    let mut r: Vec<String> = Vec::new();
    r.push(String::from_str(own));
    match next {
        Some(b) => {
            let rest = b.handle(shirt);
            let m = rest.len();
            let mut i: usize = 0;
            while i < m
                invariant
                    m == rest@.len(),
                    i <= m,
                    r@.len() == 1 + i,
                    r@[0]@ == own@,
                    forall|j: int| 1 <= j <= i ==> (#[trigger] r@[j])@ == rest@[j - 1]@,
                decreases m - i,
            {
                r.push(rest[i].clone());
                i = i + 1;
            }
            proof {
                assert(lines_of(r@) =~= seq![own@] + b.messages());
            }
        },
        None => {
            proof {
                assert(lines_of(r@) =~= seq![own@] + Seq::<Seq<char>>::empty());
            }
        },
    }
    r
}

/// Quality assurance: checks the shirt, then passes it on.
pub struct QAProcess<N: ManufacturingLine = LineEnd> {
    pub next: Option<Box<N>>,
}

impl<N: ManufacturingLine> QAProcess<N> {
    pub fn new() -> (r: Self)
        ensures
            r.next is None,
    {
        QAProcess { next: None }
    }

    pub fn set_next(&mut self, handler: N)
        ensures
            final(self).messages() == seq!["Checking shirt quality"@] + handler.messages(),
    {
        self.next = Some(Box::new(handler));
    }
}

impl<N: ManufacturingLine> ManufacturingLine for QAProcess<N> {
    open spec fn messages(&self) -> Seq<Seq<char>> {
        seq!["Checking shirt quality"@] + (match self.next {
            Some(b) => b.messages(),
            None => Seq::<Seq<char>>::empty(),
        })
    }

    fn handle(&self, shirt: Shirt) -> (r: Vec<String>) {
        run_next("Checking shirt quality", &self.next, shirt)
    }
}

/// Packaging: wraps the shirt, then passes it on.
pub struct PackagingProcess<N: ManufacturingLine = LineEnd> {
    pub next: Option<Box<N>>,
}

impl<N: ManufacturingLine> PackagingProcess<N> {
    pub fn new() -> (r: Self)
        ensures
            r.next is None,
    {
        PackagingProcess { next: None }
    }

    pub fn set_next(&mut self, handler: N)
        ensures
            final(self).messages() == seq!["Packaging shirt nicely..."@] + handler.messages(),
    {
        self.next = Some(Box::new(handler));
    }
}

impl<N: ManufacturingLine> ManufacturingLine for PackagingProcess<N> {
    open spec fn messages(&self) -> Seq<Seq<char>> {
        seq!["Packaging shirt nicely..."@] + (match self.next {
            Some(b) => b.messages(),
            None => Seq::<Seq<char>>::empty(),
        })
    }

    fn handle(&self, shirt: Shirt) -> (r: Vec<String>) {
        run_next("Packaging shirt nicely...", &self.next, shirt)
    }
}

/// Delivery: brings the packaged shirt to the warehouse, then passes on.
pub struct DeliveryProcess<N: ManufacturingLine = LineEnd> {
    pub next: Option<Box<N>>,
}

impl<N: ManufacturingLine> DeliveryProcess<N> {
    pub fn new() -> (r: Self)
        ensures
            r.next is None,
    {
        DeliveryProcess { next: None }
    }

    pub fn set_next(&mut self, handler: N)
        ensures
            final(self).messages() == seq!["Delivering packaged shirt to warehouse..."@]
                + handler.messages(),
    {
        self.next = Some(Box::new(handler));
    }
}

impl<N: ManufacturingLine> ManufacturingLine for DeliveryProcess<N> {
    open spec fn messages(&self) -> Seq<Seq<char>> {
        seq!["Delivering packaged shirt to warehouse..."@] + (match self.next {
            Some(b) => b.messages(),
            None => Seq::<Seq<char>>::empty(),
        })
    }

    fn handle(&self, shirt: Shirt) -> (r: Vec<String>) {
        run_next("Delivering packaged shirt to warehouse...", &self.next, shirt)
    }
}

} // verus!
