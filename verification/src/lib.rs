//! Verified bookkeeping for the relaxation of a one-dimensional chain of
//! magnetic moments.
//!
//! The crate owns what can be stated exactly about such a simulation without
//! fixing a number type: the chain itself with its fixed length, the
//! three-point stencil that couples a site to its neighbours, and the loop
//! that drives relaxation steps until one of them changes nothing by as much
//! as the tolerance or the iteration budget is used up. The arithmetic of a
//! step belongs to the caller, who picks the type of a site's magnetization.

pub mod convergence;
pub mod system;
