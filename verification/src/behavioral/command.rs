//! Command: a call center turns each request into a command object and
//! forwards it to whichever handler registered for its menu digit.

use vstd::prelude::*;
use vstd::string::StringExecFns;
use vstd::string::StrSliceExecFns;
use crate::lookup::assoc_lookup;
use crate::lookup::find_last;

verus! {

pub struct Input {
    pub command: String,
    pub client: String,
    pub user: String,
}

/// A handler answers a command with a response of its own.
pub trait Handler {
    /// The response this handler gives to a command.
    spec fn response(&self, command: Seq<char>) -> Seq<char>;

    fn handle(&self, input: Input) -> (r: String)
        ensures
            r@ == self.response(input.command@),
    ;
}

/// Dispatches requests: the first character picks the handler registered
/// under it, newest registration first; the rest is the command.
pub struct CallCenter<H> {
    pub handler_map: Vec<(String, H)>,
}

impl<H: Handler> CallCenter<H> {
    pub fn new() -> (r: CallCenter<H>)
        ensures
            r.handler_map@ == Seq::<(String, H)>::empty(),
    {
        CallCenter { handler_map: Vec::new() }
    }

    /// Registers a handler under an id; a later registration for the same
    /// id takes precedence, as an overwrite would.
    pub fn register_handler(&mut self, id: String, handler: H)
        ensures
            final(self).handler_map@ == old(self).handler_map@.push((id, handler)),
    {
        self.handler_map.push((id, handler));
    }

    /// Routes the request: the handler registered under the first character
    /// answers the remaining text, fixed caller data attached; an unknown
    /// menu digit gets the apology.
    pub fn handle(&self, ussd: String) -> (r: String)
        requires
            ussd@.len() >= 1,
        ensures
            match assoc_lookup(self.handler_map@, ussd@.subrange(0, 1)) {
                Some(h) => r@ == h.response(ussd@.skip(1)),
                None => r@ == "I'm sorry, but I don't know what that is"@,
            },
    {
        let n = ussd.as_str().unicode_len();
        let cmd = String::from_str(ussd.as_str().substring_char(0, 1));
        let rest = ussd.as_str().substring_char(1, n);
        proof {
            assert(ussd@.subrange(1, ussd@.len() as int) =~= ussd@.skip(1));
        }
        match find_last(&self.handler_map, &cmd) {
            Some(i) => {
                let user = String::from_str("John Doe");
                let client = String::from_str("Discord");
                self.handler_map[i].1.handle(
                    Input { command: String::from_str(rest), client, user },
                )
            },
            None => String::from_str("I'm sorry, but I don't know what that is"),
        }
    }
}

pub struct AccountHandler {}

impl Handler for AccountHandler {
    open spec fn response(&self, command: Seq<char>) -> Seq<char> {
        "Hiya, I'm account handler! Happy to assist you with any problems in your account!"@
    }

    fn handle(&self, _input: Input) -> (r: String) {
        String::from_str(
            "Hiya, I'm account handler! Happy to assist you with any problems in your account!",
        )
    }
}

pub struct TransactionHandler {}

impl Handler for TransactionHandler {
    open spec fn response(&self, command: Seq<char>) -> Seq<char> {
        "Hola! I'm transaction handler. Ready to assist you with any problems regarding transactions."@
    }

    fn handle(&self, _input: Input) -> (r: String) {
        String::from_str(
            "Hola! I'm transaction handler. Ready to assist you with any problems regarding transactions.",
        )
    }
}

} // verus!
