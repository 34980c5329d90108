//! Failures of the message bus, as plain values.

use crate::text;
use std::io::ErrorKind;
use vstd::prelude::*;
use zbus::{DBusError, Error as ZbusError};

verus! {

/// An error that the bus library reports.
#[verifier::external_type_specification]
#[verifier::external_body]
pub struct ExBusLibraryError(ZbusError);

/// The kinds of input/output failure that matter here.
#[derive(Clone, Copy, Debug, PartialEq, Eq, Structural)]
pub enum IoFailure {
    NotFound,
    ConnectionRefused,
    Other,
}

/// What went wrong on the bus.
#[derive(Debug)]
pub enum BusError {
    /// The object does not have the interface.
    InterfaceNotFound,
    /// The address of the bus makes no sense.
    Address,
    /// The bus refused the connection's opening handshake.
    Handshake,
    /// The bus library cannot do this here.
    Unsupported,
    /// The transport failed.
    InputOutput(IoFailure),
    /// The service answered with an error of this name.
    Method(String),
    /// The bus itself reported the standard error of this name.
    Standard(String),
    /// Anything else.
    Other,
}

/// A failure on the bus, with the error names as sequences of characters.
pub enum BusFailure {
    InterfaceNotFound,
    Address,
    Handshake,
    Unsupported,
    InputOutput(IoFailure),
    Method(Seq<char>),
    Standard(Seq<char>),
    Other,
}

impl View for BusError {
    type V = BusFailure;

    open spec fn view(&self) -> BusFailure {
        match *self {
            BusError::InterfaceNotFound => BusFailure::InterfaceNotFound,
            BusError::Address => BusFailure::Address,
            BusError::Handshake => BusFailure::Handshake,
            BusError::Unsupported => BusFailure::Unsupported,
            BusError::InputOutput(failure) => BusFailure::InputOutput(failure),
            BusError::Method(name) => BusFailure::Method(name@),
            BusError::Standard(name) => BusFailure::Standard(name@),
            BusError::Other => BusFailure::Other,
        }
    }
}

/// What an error of the bus library says, in plain values.
pub uninterp spec fn described(error: ZbusError) -> BusFailure;

/// Tells the variants of [`zbus::Error`] apart.
///
/// An error that a service answered with keeps its D-Bus name, and so does a standard error, which
/// [`DBusError::name`] names. The result depends on the error alone.
#[verifier::external_body]
pub(crate) fn describe(error: ZbusError) -> (r: BusError)
    ensures
        r@ == described(error),
{
    match error {
        ZbusError::InterfaceNotFound => BusError::InterfaceNotFound,
        ZbusError::Address(_) => BusError::Address,
        ZbusError::Handshake(_) => BusError::Handshake,
        ZbusError::Unsupported => BusError::Unsupported,
        ZbusError::InputOutput(e) => BusError::InputOutput(match e.kind() {
            ErrorKind::NotFound => IoFailure::NotFound,
            ErrorKind::ConnectionRefused => IoFailure::ConnectionRefused,
            _ => IoFailure::Other,
        }),
        ZbusError::MethodError(name, _, _) => BusError::Method(name.to_string()),
        ZbusError::FDO(e) => BusError::Standard(e.name().to_string()),
        _ => BusError::Other,
    }
}

/// What a call on the bus came to, with its failure described.
pub fn outcome<T>(result: Result<T, ZbusError>) -> (r: Result<T, BusError>)
    ensures
        result matches Ok(value) ==> r == Ok::<T, BusError>(value),
        result matches Err(error) ==> r is Err && r->Err_0@ == described(error),
{
    match result {
        Ok(value) => Ok(value),
        Err(error) => Err(describe(error)),
    }
}

/// Whether the name is in the list.
pub open spec fn listed(name: Seq<char>, names: Seq<&'static str>) -> bool {
    exists|i: int| 0 <= i < names.len() && (#[trigger] names[i])@ == name
}

pub fn is_listed(name: &str, names: &[&'static str]) -> (r: bool)
    ensures
        r == listed(name@, names@),
{
    for i in 0..names.len()
        invariant
            forall|j: int| 0 <= j < i ==> (#[trigger] names@[j])@ != name@,
    {
        if text::same(names[i], name) {
            assert(names@[i as int]@ == name@);
            return true;
        }
    }
    false
}

} // verus!
