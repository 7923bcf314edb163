//! Mediator: anons in a forum never address each other; the forum relays
//! every message to everyone but its sender.

use vstd::prelude::*;
use vstd::string::StringExecFns;

verus! {

pub struct Anon {
    pub id: String,
    pub display: String,
}

/// Relies on `uuid::Uuid::new_v4` and its `Display` form: a version-4 id
/// rendered hyphenated is always 36 characters. Nothing more is assumed of
/// a random id.
#[verifier::external_body]
fn fresh_id() -> (r: String)
    ensures
        r@.len() == 36,
{
    uuid::Uuid::new_v4().to_string()
}

/// The line a recipient is shown for a message and its sender.
pub open spec fn delivered_line(msg: Seq<char>, src: Seq<char>) -> Seq<char> {
    "Received "@ + msg + " from "@ + src + "!"@
}

/// How many anons a broadcast from `source` reaches: all but the sender.
pub open spec fn recipient_count(anons: Seq<Anon>, source: Seq<char>) -> nat
    decreases anons.len(),
{
    if anons.len() == 0 {
        0
    } else {
        recipient_count(anons.drop_last(), source) + if anons.last().id@ != source {
            1nat
        } else {
            0nat
        }
    }
}

impl Anon {
    /// A new anon gets a fresh random id and keeps the chosen display name.
    pub fn new(display: String) -> (r: Anon)
        ensures
            r.display == display,
            r.id@.len() == 36,
    {
        Anon { id: fresh_id(), display }
    }

    /// Sending hands the message to the forum under this anon's id.
    pub fn send_message(&self, msg: String, forum: &Forum) -> (r: Vec<String>)
        ensures
            r@.len() == recipient_count(forum.anons@, self.id@),
            forall|i: int| 0 <= i < r@.len() ==> (#[trigger] r@[i])@ == delivered_line(
                msg@,
                self.id@,
            ),
    {
        forum.broadcast(self.id.as_str(), msg.as_str())
    }

    /// What a recipient is shown.
    pub fn receive_msg(&self, msg: &str, src: &str) -> (r: String)
        ensures
            r@ == delivered_line(msg@, src@),
    {
        String::from_str("Received ").concat(msg).concat(" from ").concat(src).concat("!")
    }
}

pub struct Forum {
    pub anons: Vec<Anon>,
}

impl Forum {
    pub fn new() -> (r: Forum)
        ensures
            r.anons@ == Seq::<Anon>::empty(),
    {
        Forum { anons: Vec::new() }
    }

    /// Relays the message: one delivery line per anon other than the sender.
    pub fn broadcast(&self, source: &str, msg: &str) -> (r: Vec<String>)
        ensures
            r@.len() == recipient_count(self.anons@, source@),
            forall|i: int| 0 <= i < r@.len() ==> (#[trigger] r@[i])@ == delivered_line(
                msg@,
                source@,
            ),
    {
        let source_string = String::from_str(source);
        let mut lines: Vec<String> = Vec::new();
        let n = self.anons.len();
        let mut i: usize = 0;
        while i < n
            invariant
                source_string@ == source@,
                n == self.anons@.len(),
                i <= n,
                lines@.len() == recipient_count(self.anons@.take(i as int), source@),
                forall|k: int| 0 <= k < lines@.len() ==> (#[trigger] lines@[k])@ == delivered_line(
                    msg@,
                    source@,
                ),
            decreases n - i,
        {
            proof {
                assert(self.anons@.take(i + 1).drop_last() =~= self.anons@.take(i as int));
                assert(self.anons@.take(i + 1).last() == self.anons@[i as int]);
            }
            if !(self.anons[i].id == source_string) {
                let line = self.anons[i].receive_msg(msg, source);
                lines.push(line);
            }
            i = i + 1;
        }
        proof {
            assert(self.anons@.take(n as int) =~= self.anons@);
        }
        lines
    }
}

} // verus!
