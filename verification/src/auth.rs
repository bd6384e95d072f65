//! The shared-secret check in front of every endpoint.

use vstd::prelude::*;

verus! {

/// What to do with a request, given the key it presents.
#[derive(Clone, Copy, Debug, PartialEq, Eq, Structural)]
pub enum AccessDecision {
    /// Let it through.
    Allow,
    /// The server has no key configured: nothing is served.
    NotConfigured,
    /// The key is missing or wrong.
    Denied,
}

impl AccessDecision {
    /// The HTTP status of a refusal; `None` for a request that is let through.
    pub open spec fn refusal(self) -> Option<u16> {
        match self {
            AccessDecision::Allow => None,
            AccessDecision::NotConfigured => Some(500),
            AccessDecision::Denied => Some(401),
        }
    }

    /// The HTTP status of a refusal; `None` for a request that is let through.
    pub fn status_code(&self) -> (r: Option<u16>)
        ensures
            r == self.refusal(),
    {
        match self {
            AccessDecision::Allow => None,
            AccessDecision::NotConfigured => Some(500),
            AccessDecision::Denied => Some(401),
        }
    }
}

/// The decision for a server configured with `configured` and a request that
/// presents `presented`: an empty configured key serves nothing; otherwise only
/// a presented key equal to it is let through.
pub open spec fn decide(configured: Seq<char>, presented: Option<Seq<char>>) -> AccessDecision {
    if configured.len() == 0 {
        AccessDecision::NotConfigured
    } else if presented == Some(configured) {
        AccessDecision::Allow
    } else {
        AccessDecision::Denied
    }
}

/// The guard that compares the `X-API-Key` header with the configured key.
#[derive(Clone, Copy, Debug)]
pub struct ApiKeyMiddleware;

impl ApiKeyMiddleware {
    /// Decides on one request. `configured` is the value of `API_KEY`, empty where
    /// unset; `presented` is the value of the request's `X-API-Key` header.
    pub fn check(&self, configured: &String, presented: &Option<String>) -> (r: AccessDecision)
        ensures
            r == decide(configured@, presented.deep_view()),
    {
        if configured.as_str().is_empty() {
            return AccessDecision::NotConfigured;
        }
        match presented {
            Some(key) => {
                if *key == *configured {
                    AccessDecision::Allow
                } else {
                    AccessDecision::Denied
                }
            },
            None => AccessDecision::Denied,
        }
    }
}

} // verus!
