//! The shapes that a handler may have.
//!
//! A handler takes nothing, the shared state it asked for, the request's
//! parameters, or both. Whatever its shape, it is started in the same way:
//! first the parameters must have been read as what the handler takes,
//! then the state must have been found, and only then is the handler
//! called. Reading parameters and finding state are the caller's part;
//! what follows from their results is decided here.

use crate::data::Data;
use vstd::prelude::*;

verus! {

/// What became of starting a handler.
pub enum Start<W> {
    /// The parameters were not what the handler takes. The handler was
    /// not called.
    InvalidParams,
    /// The state that the handler asked for was never registered. The
    /// handler was not called. This is a defect of the program that built
    /// the method table, and none of the request.
    NoState,
    /// The handler was called and returned this.
    Run(W),
}

/// Starts a handler that takes nothing.
pub fn start<W, H: Fn() -> W>(handle: &H) -> (r: Start<W>)
    requires
        call_requires(*handle, ()),
    ensures
        r matches Start::Run(w) && call_ensures(*handle, (), w),
{
    Start::Run(handle())
}

/// Starts a handler that takes shared state only. `state` is what
/// looking for the state came to.
pub fn start_with_state<T, W, H: Fn(Data<T>) -> W>(state: Option<&Data<T>>, handle: &H) -> (r:
    Start<W>)
    requires
        forall|data: Data<T>| call_requires(*handle, (data,)),
    ensures
        match state {
            None => r is NoState,
            Some(found) => r matches Start::Run(w) && call_ensures(*handle, (*found,), w),
        },
{
    match state {
        None => Start::NoState,
        Some(found) => Start::Run(handle(found.clone())),
    }
}

/// Starts a handler that takes the request's parameters only. `params`
/// is what reading the parameters came to.
pub fn start_with_params<P, W, H: Fn(P) -> W>(params: Option<P>, handle: &H) -> (r: Start<W>)
    requires
        forall|p: P| call_requires(*handle, (p,)),
    ensures
        match params {
            None => r is InvalidParams,
            Some(p) => r matches Start::Run(w) && call_ensures(*handle, (p,), w),
        },
{
    match params {
        None => Start::InvalidParams,
        Some(p) => Start::Run(handle(p)),
    }
}

/// Starts a handler that takes shared state and the request's
/// parameters. Parameters that could not be read count before state that
/// could not be found.
pub fn start_with_both<T, P, W, H: Fn(Data<T>, P) -> W>(
    state: Option<&Data<T>>,
    params: Option<P>,
    handle: &H,
) -> (r: Start<W>)
    requires
        forall|data: Data<T>, p: P| call_requires(*handle, (data, p)),
    ensures
        match (params, state) {
            (None, _) => r is InvalidParams,
            (Some(_), None) => r is NoState,
            (Some(p), Some(found)) => r matches Start::Run(w) && call_ensures(
                *handle,
                (*found, p),
                w,
            ),
        },
{
    let p = match params {
        Some(p) => p,
        None => {
            return Start::InvalidParams;
        },
    };
    match state {
        None => Start::NoState,
        Some(found) => Start::Run(handle(found.clone(), p)),
    }
}

} // verus!
