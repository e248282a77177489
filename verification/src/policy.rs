//! Host access control: a request is admitted either unconditionally or
//! because its host header matches an explicit allow-list.

use vstd::prelude::*;

verus! {

/// Which hosts may reach the server. Chosen when the server is built and
/// immutable for its lifetime.
pub enum AccessPolicy {
    /// Every host is admitted, host header or not.
    Any,
    /// Only requests whose host header matches one of the listed host
    /// identifiers are admitted.
    AllowList(Vec<String>),
}

impl AccessPolicy {
    /// Whether a request carrying `host` (if any) passes this policy.
    /// An allow-list rejects a request with no host header.
    pub open spec fn spec_allows(self, host: Option<String>) -> bool {
        match self {
            AccessPolicy::Any => true,
            AccessPolicy::AllowList(hosts) => match host {
                Option::Some(h) => exists|i: int| 0 <= i < hosts@.len() && hosts@[i]@ == h@,
                Option::None => false,
            },
        }
    }

    #[verifier::loop_isolation(false)]
    pub fn allows(&self, host: &Option<String>) -> (r: bool)
        ensures
            r == self.spec_allows(*host),
    {
        match self {
            AccessPolicy::Any => true,
            AccessPolicy::AllowList(hosts) => match host {
                Option::Some(h) => {
                    let n = hosts.len();
                    let mut i: usize = 0;
                    while i < n
                        invariant
                            i <= n,
                            n == hosts@.len(),
                            forall|j: int| 0 <= j < i ==> hosts@[j]@ != h@,
                        decreases n - i,
                    {
                        if hosts[i] == *h {
                            proof {
                                let w: int = i as int;
                                assert(0 <= w < hosts@.len() && hosts@[w]@ == h@);
                            }
                            return true;
                        }
                        i = i + 1;
                    }
                    false
                },
                Option::None => false,
            },
        }
    }
}

/// With the allow-all policy, every host — and the absence of a host
/// header — passes the access check.
pub proof fn lemma_allow_all_admits_every_host(host: Option<String>)
    ensures
        AccessPolicy::Any.spec_allows(host),
{
}

} // verus!
