//! The suspend gate: while it is closed, nothing that changes the registry
//! is let through.

use vstd::prelude::*;
use crate::settings::{text_of, Settings};
use crate::signal::Signal;

verus! {

/// What a caller may ask of the service.
#[derive(Debug, Clone, Copy, PartialEq, Eq)]
pub enum Operation {
    /// Allocate an identifier and insert its record.
    Allocate,
    /// Confirm an identifier.
    Confirm,
    /// Change a record.
    Update,
    /// Mark a record deleted.
    Delete,
    /// Read a record.
    Lookup,
    /// Draw an identifier without recording it.
    Preview,
    /// Report the state of the service.
    Status,
}

impl Operation {
    /// The operation changes the registry.
    pub open spec fn mutates(self) -> bool {
        self is Allocate || self is Confirm || self is Update || self is Delete
    }

    /// Whether the operation changes the registry.
    pub fn is_mutating(&self) -> (b: bool)
        ensures
            b == self.mutates(),
    {
        match self {
            Operation::Allocate | Operation::Confirm | Operation::Update | Operation::Delete => true,
            Operation::Lookup | Operation::Preview | Operation::Status => false,
        }
    }
}

/// What the suspend gate answers to an operation.
pub open spec fn admission(suspended: bool, op: Operation) -> Result<(), Signal> {
    if suspended && op.mutates() {
        Err(Signal::Suspended)
    } else {
        Ok(())
    }
}

/// `secret` is the administrative secret.
pub open spec fn authorized(secret: Option<Seq<char>>, admin_secret: Seq<char>) -> bool {
    secret == Some(admin_secret)
}

/// The suspend gate. It is open when the process starts and is not persisted.
#[derive(Debug)]
pub struct SuspendGate {
    suspended: bool,
}

impl View for SuspendGate {
    type V = bool;

    /// Whether the service is suspended.
    closed spec fn view(&self) -> bool {
        self.suspended
    }
}

fn secret_matches(secret: &Option<String>, settings: &Settings) -> (ok: bool)
    ensures
        ok == authorized(text_of(*secret), settings@.admin_secret),
{
    match secret {
        Some(given) => *given == settings.admin_secret,
        None => false,
    }
}

impl SuspendGate {
    /// An open gate.
    pub fn new() -> (gate: SuspendGate)
        ensures
            !gate@,
    {
        SuspendGate { suspended: false }
    }

    /// Whether the service is suspended.
    pub fn is_suspended(&self) -> (suspended: bool)
        ensures
            suspended == self@,
    {
        self.suspended
    }

    /// Closes the suspend gate if `secret` is the administrative secret, and leaves
    /// it as it is otherwise.
    pub fn suspend(&mut self, secret: &Option<String>, settings: &Settings) -> (r: Result<
        String,
        Signal,
    >)
        ensures
            authorized(text_of(*secret), settings@.admin_secret) ==> final(self)@ && (r matches Ok(
                msg,
            ) && msg@ == "Server suspended (new requests rejected)"@),
            !authorized(text_of(*secret), settings@.admin_secret) ==> final(self)@ == old(self)@ && r
                == Err::<String, Signal>(Signal::Unauthorized),
    {
        if secret_matches(secret, settings) {
            self.suspended = true;
            Ok("Server suspended (new requests rejected)".to_owned())
        } else {
            Err(Signal::Unauthorized)
        }
    }

    /// Opens the suspend gate if `secret` is the administrative secret, and leaves
    /// it as it is otherwise.
    pub fn resume(&mut self, secret: &Option<String>, settings: &Settings) -> (r: Result<
        String,
        Signal,
    >)
        ensures
            authorized(text_of(*secret), settings@.admin_secret) ==> !final(self)@ && (r matches Ok(
                msg,
            ) && msg@ == "Server resumed"@),
            !authorized(text_of(*secret), settings@.admin_secret) ==> final(self)@ == old(self)@ && r
                == Err::<String, Signal>(Signal::Unauthorized),
    {
        if secret_matches(secret, settings) {
            self.suspended = false;
            Ok("Server resumed".to_owned())
        } else {
            Err(Signal::Unauthorized)
        }
    }

    /// Lets `op` through unless the service is suspended and `op` changes
    /// the registry.
    pub fn permit(&self, op: Operation) -> (r: Result<(), Signal>)
        ensures
            r == admission(self@, op),
    {
        if self.suspended && op.is_mutating() {
            Err(Signal::Suspended)
        } else {
            Ok(())
        }
    }
}

/// While the service is suspended, allocation, confirmation, update and
/// delete are refused with `Signal::Suspended`; lookup, preview and status
/// are let through. While it is not, everything is let through.
pub proof fn lemma_gate_stops_mutations_only(suspended: bool, op: Operation)
    ensures
        suspended ==> admission(suspended, Operation::Allocate) == Err::<(), Signal>(
            Signal::Suspended,
        ),
        suspended ==> admission(suspended, Operation::Confirm) == Err::<(), Signal>(
            Signal::Suspended,
        ),
        suspended ==> admission(suspended, Operation::Update) == Err::<(), Signal>(
            Signal::Suspended,
        ),
        suspended ==> admission(suspended, Operation::Delete) == Err::<(), Signal>(
            Signal::Suspended,
        ),
        admission(suspended, Operation::Lookup) is Ok,
        admission(suspended, Operation::Preview) is Ok,
        admission(suspended, Operation::Status) is Ok,
        !suspended ==> admission(suspended, op) is Ok,
{
}

} // verus!
