//! The method table under the name that the serving side knows it by.

pub use crate::message::Request;

use crate::route::Route;
use vstd::prelude::*;

verus! {

/// A server is its method table: methods are registered on it with `to`,
/// shared state with `data`, and requests are routed by `route_once`.
pub type Server<H> = Route<H>;

} // verus!
