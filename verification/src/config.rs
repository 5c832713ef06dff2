//! The configuration surface of the interceptor: an endpoint for the lookup
//! service, the choice of addressing policy, and the storage sink, set
//! builder-style before the middleware is attached to a pipeline and treated
//! as immutable afterwards.

use crate::store::IPQueryStore;
use vstd::prelude::*;

verus! {

/// Spec-level model of a configuration: the lookup endpoint and the active
/// addressing policy. The storage sink is opaque and carries no model.
pub struct ConfigModel {
    pub endpoint: Seq<char>,
    pub forwarded_for: bool,
}

/// The lookup service base URL a fresh configuration starts from.
pub open spec fn default_endpoint() -> Seq<char> {
    "https://api.ipquery.io/"@
}

/// The interceptor's configuration, wrapped around the storage sink it will
/// hand resolved records to. Built once, then frozen by `finish` and shared
/// read-only across in-flight requests.
pub struct IPQuery<T: IPQueryStore> {
    endpoint: String,
    store: T,
    forwarded_for: bool,
}

impl<T: IPQueryStore> IPQuery<T> {
    /// The configured lookup service base URL.
    pub closed spec fn spec_endpoint(&self) -> Seq<char> {
        self.endpoint@
    }

    /// Whether the forwarded-address policy is active.
    pub closed spec fn spec_forwarded_for(&self) -> bool {
        self.forwarded_for
    }

    /// The storage sink this configuration was built around.
    pub closed spec fn spec_store(&self) -> T {
        self.store
    }
}

impl<T: IPQueryStore> View for IPQuery<T> {
    type V = ConfigModel;

    open spec fn view(&self) -> ConfigModel {
        ConfigModel { endpoint: self.spec_endpoint(), forwarded_for: self.spec_forwarded_for() }
    }
}

impl<T: IPQueryStore> Clone for IPQuery<T> {
    /// A clone keeps the endpoint and the policy; the sink is cloned through
    /// its own `Clone`, of which nothing further is claimed.
    fn clone(&self) -> (r: Self)
        ensures
            r@ == self@,
    {
        IPQuery {
            endpoint: self.endpoint.clone(),
            store: self.store.clone(),
            forwarded_for: self.forwarded_for,
        }
    }
}

impl<T: IPQueryStore> IPQuery<T> {
    /// Create a fresh configuration around `store`: the well-known public
    /// lookup service as the endpoint, and the peer-address policy.
    pub fn new(store: T) -> (r: IPQuery<T>)
        ensures
            r@.endpoint == default_endpoint(),
            r@.forwarded_for == false,
            r.spec_store() == store,
    {
        IPQuery {
            endpoint: String::from_str("https://api.ipquery.io/"),
            store,
            forwarded_for: false,
        }
    }

    /// Override the lookup service base URL; the policy and the sink are
    /// untouched. Chains builder-style.
    pub fn endpoint(&mut self, endpoint: &str) -> (r: &mut Self)
        ensures
            r@ == (ConfigModel { endpoint: endpoint@, forwarded_for: old(self)@.forwarded_for }),
            r.spec_store() == old(self).spec_store(),
            *final(self) == *final(r),
    {
        self.endpoint = String::from_str(endpoint);
        self
    }

    /// Select the addressing policy: `true` trusts the forwarded address,
    /// `false` (the default) takes the peer address's IP component. The
    /// endpoint and the sink are untouched. Chains builder-style.
    pub fn forwarded_for(&mut self, y: bool) -> (r: &mut Self)
        ensures
            r@ == (ConfigModel { endpoint: old(self)@.endpoint, forwarded_for: y }),
            r.spec_store() == old(self).spec_store(),
            *final(self) == *final(r),
    {
        self.forwarded_for = y;
        self
    }

    /// Freeze the configuration: produce the instance the middleware is
    /// attached with, an exact copy of the configured state.
    pub fn finish(&self) -> (r: IPQuery<T>)
        ensures
            r@ == self@,
    {
        self.clone()
    }

    /// The configured lookup service base URL, for the lookup call.
    pub fn endpoint_url(&self) -> (e: &String)
        ensures
            e@ == self@.endpoint,
    {
        &self.endpoint
    }

    /// Whether the forwarded-address policy is active.
    pub fn uses_forwarded_header(&self) -> (b: bool)
        ensures
            b == self@.forwarded_for,
    {
        self.forwarded_for
    }

    /// A borrow of the storage sink, for the storage call.
    pub fn store(&self) -> (s: &T)
        ensures
            *s == self.spec_store(),
    {
        &self.store
    }
}

} // verus!
