use vstd::prelude::*;
use crate::frame::ErrorKind;

verus! {

/// An IPv4 socket address: the four octets as one integer, the first octet
/// highest, and a port.
#[derive(Clone, Copy, Debug, PartialEq, Eq, Hash, Structural)]
pub struct Endpoint {
    pub addr: u32,
    pub port: u16,
}

impl Endpoint {
    pub fn new(addr: u32, port: u16) -> (r: Endpoint)
        ensures
            r.addr == addr,
            r.port == port,
    {
        Endpoint { addr, port }
    }

    pub fn addr(&self) -> (r: u32)
        ensures
            r == self.addr,
    {
        self.addr
    }

    pub fn port(&self) -> (r: u16)
        ensures
            r == self.port,
    {
        self.port
    }
}

} // verus!

verus! {

/// The result of probing one endpoint.
#[derive(Clone, Copy, Debug, PartialEq, Eq, Hash, Structural)]
pub enum ScanOutcome {
    Alive(Endpoint),
    NotAlive(ErrorKind, Endpoint),
}

/// What the reporter receives for an outcome: the endpoint when it is alive.
pub open spec fn report_item_spec(o: ScanOutcome) -> Option<Endpoint> {
    match o {
        ScanOutcome::Alive(e) => Some(e),
        ScanOutcome::NotAlive(_, _) => None,
    }
}

impl ScanOutcome {
    /// The endpoint the outcome is about.
    pub open spec fn endpoint_spec(&self) -> Endpoint {
        match *self {
            ScanOutcome::Alive(e) => e,
            ScanOutcome::NotAlive(_, e) => e,
        }
    }

    pub fn endpoint(&self) -> (r: Endpoint)
        ensures
            r == self.endpoint_spec(),
    {
        match *self {
            ScanOutcome::Alive(e) => e,
            ScanOutcome::NotAlive(_, e) => e,
        }
    }

    pub fn is_alive(&self) -> (r: bool)
        ensures
            r == (*self is Alive),
    {
        match *self {
            ScanOutcome::Alive(_) => true,
            ScanOutcome::NotAlive(_, _) => false,
        }
    }

    /// The error of an outcome that is not alive.
    pub fn error(&self) -> (r: Option<ErrorKind>)
        ensures
            r == match *self {
                ScanOutcome::Alive(_) => None,
                ScanOutcome::NotAlive(k, _) => Some(k),
            },
    {
        match *self {
            ScanOutcome::Alive(_) => None,
            ScanOutcome::NotAlive(k, _) => Some(k),
        }
    }

    /// The item handed to the reporter: the endpoint when alive, else nothing.
    pub fn report_item(&self) -> (r: Option<Endpoint>)
        ensures
            r == report_item_spec(*self),
    {
        match *self {
            ScanOutcome::Alive(e) => Some(e),
            ScanOutcome::NotAlive(_, _) => None,
        }
    }
}

} // verus!
