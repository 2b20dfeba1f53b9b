//! Operations that answer with a bare status when they refuse.

use vstd::prelude::*;

use crate::error::StatusCode;
use crate::flow::{Ask, Question};

verus! {

/// The next step of an operation that is refused with a status.
#[derive(Debug)]
pub enum HttpNext<T> {
    /// A question whose answer the operation needs.
    Ask(Ask),
    /// The operation is refused.
    Refuse(StatusCode),
    /// The operation is done.
    Reply(T),
}

/// The next step by its contents, leaving the reply itself aside.
#[verifier::ext_equal]
pub enum HttpGate {
    Ask(Question),
    Refuse(StatusCode),
    Pass,
}

/// The first check, and the second once the first is passed.
pub open spec fn chain(first: HttpGate, second: HttpGate) -> HttpGate {
    if first is Pass {
        second
    } else {
        first
    }
}

/// Whether `n` is the step that `g` prescribes; of a reply this says only that it is
/// due.
pub open spec fn follows<T>(n: HttpNext<T>, g: HttpGate) -> bool {
    match n {
        HttpNext::Ask(q) => g == HttpGate::Ask(q@),
        HttpNext::Refuse(s) => g == HttpGate::Refuse(s),
        HttpNext::Reply(_) => g is Pass,
    }
}

/// A step that is not a reply.
#[derive(Debug)]
pub enum HttpStop {
    Ask(Ask),
    Refuse(StatusCode),
}

impl View for HttpStop {
    type V = HttpGate;

    open spec fn view(&self) -> HttpGate {
        match self {
            HttpStop::Ask(q) => HttpGate::Ask(q@),
            HttpStop::Refuse(s) => HttpGate::Refuse(*s),
        }
    }
}

impl HttpStop {
    /// The stop as the next step of an operation.
    pub fn next<T>(self) -> (r: HttpNext<T>)
        ensures
            follows(r, self@),
            !(r is Reply),
    {
        match self {
            HttpStop::Ask(q) => HttpNext::Ask(q),
            HttpStop::Refuse(s) => HttpNext::Refuse(s),
        }
    }
}

/// At a door the first thing that stops a request is the one that counts.
pub proof fn the_first_thing_that_stops_counts(first: HttpGate, second: HttpGate)
    ensures
        first is Pass ==> chain(first, second) == second,
        !(first is Pass) ==> chain(first, second) == first,
{
}

}
