use vstd::prelude::*;

use crate::config::Remote2LocalRule;

verus! {

/// Errors of the remote-to-local forwarder.
#[derive(Debug, PartialEq, Eq)]
pub enum ForwardError {
    BindFailed(String),
    TunnelError(String),
}

/// Remote to local port forwarder
pub struct Remote2LocalForwarder {
    rule: Remote2LocalRule,
}

impl Remote2LocalForwarder {
    pub fn new(rule: Remote2LocalRule) -> (f: Self)
        ensures
            f.rule() == rule,
    {
        Remote2LocalForwarder { rule }
    }

    pub closed spec fn rule(&self) -> Remote2LocalRule {
        self.rule
    }

    /// The rule this forwarder serves
    pub fn get_rule(&self) -> (r: &Remote2LocalRule)
        ensures
            *r == self.rule(),
    {
        &self.rule
    }
}

} // verus!
