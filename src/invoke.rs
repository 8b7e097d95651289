//! Outcomes of calling an export: a value, a synchronous throw, or a rejection.
use crate::error::{Error, ErrorView};
use vstd::prelude::*;

verus! {

/// Message used when a pending exception offers neither a stack trace nor a display form.
pub const EXCEPTION_FALLBACK: &'static str = "unknown javascript exception";

/// What the engine reports about a pending exception, as host text.
#[derive(Debug, Clone)]
pub struct PendingException {
    pub stack: Option<String>,
    pub display: Option<String>,
}

pub open spec fn opt_text_view(t: Option<String>) -> Option<Seq<char>> {
    match t {
        Some(s) => Some(s@),
        None => None,
    }
}

/// The mathematical form of a [`PendingException`]: (stack trace, display form).
pub open spec fn pending_view(p: Option<PendingException>) -> Option<(Option<Seq<char>>, Option<Seq<char>>)> {
    match p {
        Some(e) => Some((opt_text_view(e.stack), opt_text_view(e.display))),
        None => None,
    }
}

/// The message of an exception: its stack trace, else its display form, else the fallback.
pub open spec fn exception_message(stack: Option<Seq<char>>, display: Option<Seq<char>>) -> Seq<char> {
    match stack {
        Some(s) => s,
        None => match display {
            Some(d) => d,
            None => EXCEPTION_FALLBACK@,
        },
    }
}

/// The failure recorded for the engine's exception state; with no pending
/// exception the translator was misused, which is reported as such.
pub open spec fn exception_error(pending: Option<(Option<Seq<char>>, Option<Seq<char>>)>) -> ErrorView {
    match pending {
        Some((stack, display)) => ErrorView::Exception(exception_message(stack, display)),
        None => ErrorView::UnexpectedState,
    }
}

pub open spec fn outcome_view<V>(r: Result<V, Error>) -> Result<V, ErrorView> {
    match r {
        Ok(v) => Ok(v),
        Err(e) => Err(e@),
    }
}

/// The outcome of a synchronous call: the value it produced, else the pending exception.
pub open spec fn sync_outcome<V>(
    produced: Option<V>,
    pending: Option<(Option<Seq<char>>, Option<Seq<char>>)>,
) -> Result<V, ErrorView> {
    match produced {
        Some(v) => Ok(v),
        None => Err(exception_error(pending)),
    }
}

/// The outcome of awaiting a returned promise: its value, or its rejection reason.
pub open spec fn async_outcome<V>(settled: Result<V, Seq<char>>) -> Result<V, ErrorView> {
    match settled {
        Ok(v) => Ok(v),
        Err(reason) => Err(ErrorView::Engine(reason)),
    }
}

/// Turns the engine's exception state into a failure record.
pub fn catch_exception(pending: Option<PendingException>) -> (r: Error)
    ensures
        r@ == exception_error(pending_view(pending)),
{
    match pending {
        Some(e) => {
            let message = match e.stack {
                Some(s) => s,
                None => match e.display {
                    Some(d) => d,
                    None => String::from_str(EXCEPTION_FALLBACK),
                },
            };
            Error::JsException(message)
        },
        None => Error::UnexpectedState,
    }
}

/// Completes a synchronous call from what the engine produced: the value, or,
/// when no value came back, the translated exception.
pub fn finish_call<V>(produced: Option<V>, pending: Option<PendingException>) -> (r: Result<V, Error>)
    ensures
        outcome_view(r) == sync_outcome(produced, pending_view(pending)),
{
    match produced {
        Some(v) => Ok(v),
        None => Err(catch_exception(pending)),
    }
}

/// Completes an asynchronous call once its promise has settled. A throw before
/// the promise existed is a synchronous failure and never reaches this point.
pub fn finish_async_call<V>(settled: Result<V, String>) -> (r: Result<V, Error>)
    ensures
        outcome_view(r) == async_outcome(
            match settled {
                Ok(v) => Ok(v),
                Err(m) => Err(m@),
            },
        ),
{
    match settled {
        Ok(v) => Ok(v),
        Err(reason) => Err(Error::DenoError(reason)),
    }
}


/// A call that produced a value yields that value; a call that produced none
/// while an exception is pending yields a synchronous exception, never a value.
pub proof fn lemma_sync_call_outcome<V>(
    produced: Option<V>,
    pending: Option<(Option<Seq<char>>, Option<Seq<char>>)>,
)
    ensures
        produced matches Some(v) ==> sync_outcome(produced, pending) == Ok::<V, ErrorView>(v),
        (produced is None && pending is Some) ==> sync_outcome(produced, pending) matches Err(
            ErrorView::Exception(_),
        ),
{
}

/// A settled promise yields its value; a rejected one yields the asynchronous
/// failure carrying the rejection reason, never a synchronous exception.
pub proof fn lemma_async_call_outcome<V>(settled: Result<V, Seq<char>>)
    ensures
        settled matches Ok(v) ==> async_outcome(settled) == Ok::<V, ErrorView>(v),
        settled matches Err(reason) ==> async_outcome(settled) == Err::<V, ErrorView>(
            ErrorView::Engine(reason),
        ),
        !(async_outcome(settled) matches Err(ErrorView::Exception(_))),
{
}

} // verus!
