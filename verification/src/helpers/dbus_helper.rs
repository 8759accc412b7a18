//! Calls to the services of the message bus, as values: what is called, and
//! the reading of what the service answers.
use vstd::prelude::*;
use super::text::same_text;

verus! {

/// The bus on which a service listens.
#[derive(Debug, Clone, Copy, PartialEq, Eq, Structural)]
pub enum Bus {
    System,
    Session,
}

/// One argument of a call.
#[derive(Debug, PartialEq, Eq)]
pub enum Arg {
    Bool(bool),
    U32(u32),
    Text(String),
}

/// A call of a method of a service.
#[derive(Debug, PartialEq, Eq)]
pub struct MethodCall {
    pub bus: Bus,
    pub service: String,
    pub path: String,
    pub interface: String,
    pub method: String,
    pub args: Vec<Arg>,
    /// How long to wait for the answer, in milliseconds.
    pub timeout_ms: u64,
}

impl MethodCall {
    /// The call goes to this method of this object, without arguments.
    pub open spec fn calls(
        &self,
        bus: Bus,
        service: Seq<char>,
        path: Seq<char>,
        interface: Seq<char>,
        method: Seq<char>,
    ) -> bool {
        &&& self.bus == bus
        &&& self.service@ == service
        &&& self.path@ == path
        &&& self.interface@ == interface
        &&& self.method@ == method
    }

    /// A call without arguments.
    pub fn new(
        bus: Bus,
        service: &str,
        path: &str,
        interface: &str,
        method: &str,
        timeout_ms: u64,
    ) -> (call: MethodCall)
        ensures
            call.calls(bus, service@, path@, interface@, method@),
            call.args@.len() == 0,
            call.timeout_ms == timeout_ms,
    {
        MethodCall {
            bus,
            service: service.to_owned(),
            path: path.to_owned(),
            interface: interface.to_owned(),
            method: method.to_owned(),
            args: Vec::new(),
            timeout_ms,
        }
    }

    /// The call with one more argument behind those it has.
    pub fn with_arg(self, arg: Arg) -> (call: MethodCall)
        ensures
            call.calls(self.bus, self.service@, self.path@, self.interface@, self.method@),
            call.args@ == self.args@.push(arg),
            call.timeout_ms == self.timeout_ms,
    {
        let mut call = self;
        call.args.push(arg);
        call
    }
}

/// The answer of the init system allows the action: it is `yes`, or
/// `challenge`, which asks the user to authenticate first.
pub open spec fn allows(answer: Seq<char>) -> bool {
    answer == "yes"@ || answer == "challenge"@
}

/// Whether the answer of the init system allows the action.
pub fn dbus_call_init_system(answer: &str) -> (allowed: bool)
    ensures
        allowed == allows(answer@),
{
    same_text(answer, "yes") || same_text(answer, "challenge")
}

} // verus!
