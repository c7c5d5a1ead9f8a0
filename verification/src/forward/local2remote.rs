use vstd::prelude::*;

verus! {

/// Errors of the local-to-remote forwarder.
#[derive(Debug, PartialEq, Eq)]
pub enum ForwardError {
    BindFailed(String),
    TunnelError(String),
}

} // verus!
