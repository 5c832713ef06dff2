//! The interception-and-dispatch state machine: per request, derive the
//! client address, let the wrapped handler run, then — strictly after the
//! handler's response is obtained — resolve the address and hand the record
//! to the storage sink, reconciling the failure points into one channel.
//!
//! The decisions live here, verified; the host glue performs the outside
//! work (awaiting the handler, the lookup call) and feeds each outcome back
//! as the next event. The handler's response and error are never held or
//! inspected here: the glue returns the response unchanged on the success
//! path and passes a handler failure through verbatim, which this machine's
//! terminal states direct it to do.
//!
//! Per request the states run `Dispatching → Resolving → Stored`, leaving
//! the path only into a terminal failure state; the transient `Resolved` and
//! `Storing` stages of the design are folded into the storage step, which is
//! synchronous.

use crate::config::ConfigModel;
use crate::config::IPQuery;
use crate::error::DispatchError;
use crate::error::ErrorModel;
use crate::extract::spec_extract;
use crate::extract::extract_address;
use crate::extract::view_opt;
use crate::store::io_error_message;
use crate::store::IPQueryStore;
use vstd::prelude::*;

verus! {

/// Spec-level model of a dispatch in progress: which stage it stands in,
/// with the client address and endpoint it carries forward, or the terminal
/// failure it ended in.
pub enum StateModel {
    /// Terminal: no client address could be derived; the handler never ran.
    ExtractFailed(ErrorModel),
    /// The address is derived; the wrapped handler is running.
    Dispatching { ip: Seq<char>, endpoint: Seq<char> },
    /// Terminal: the wrapped handler failed; its error passes through
    /// verbatim, and neither lookup nor storage is reached.
    InnerFailed,
    /// The handler succeeded; the external lookup is running.
    Resolving { ip: Seq<char>, endpoint: Seq<char> },
    /// Terminal: the external lookup failed; the handler's successful
    /// response is discarded.
    ResolveFailed(ErrorModel),
    /// Terminal: the storage sink failed; the handler's successful response
    /// is discarded.
    StoreFailed(ErrorModel),
    /// Terminal: every stage succeeded; the handler's response is returned
    /// unchanged.
    Stored,
}

/// A dispatch in progress, one per inbound request.
pub enum Dispatch {
    ExtractFailed { error: DispatchError },
    Dispatching { ip: String, endpoint: String },
    InnerFailed,
    Resolving { ip: String, endpoint: String },
    ResolveFailed { error: DispatchError },
    StoreFailed { error: DispatchError },
    Stored,
}

impl View for Dispatch {
    type V = StateModel;

    open spec fn view(&self) -> StateModel {
        match self {
            Dispatch::ExtractFailed { error } => StateModel::ExtractFailed(error@),
            Dispatch::Dispatching { ip, endpoint } => StateModel::Dispatching {
                ip: ip@,
                endpoint: endpoint@,
            },
            Dispatch::InnerFailed => StateModel::InnerFailed,
            Dispatch::Resolving { ip, endpoint } => StateModel::Resolving {
                ip: ip@,
                endpoint: endpoint@,
            },
            Dispatch::ResolveFailed { error } => StateModel::ResolveFailed(error@),
            Dispatch::StoreFailed { error } => StateModel::StoreFailed(error@),
            Dispatch::Stored => StateModel::Stored,
        }
    }
}

/// Whether a dispatch stands in a state no step leads out of.
pub open spec fn is_terminal(s: StateModel) -> bool {
    !(s is Dispatching) && !(s is Resolving)
}

/// Whether a dispatch ended with every stage successful.
pub open spec fn is_success(s: StateModel) -> bool {
    s is Stored
}

/// The failure a terminal state carries, if any.
pub open spec fn spec_error(s: StateModel) -> Option<ErrorModel> {
    match s {
        StateModel::ExtractFailed(e) => Some(e),
        StateModel::ResolveFailed(e) => Some(e),
        StateModel::StoreFailed(e) => Some(e),
        _ => None,
    }
}

/// The first step: extraction. A derived address starts the handler stage,
/// carrying the configured endpoint; a missing source is terminal before the
/// handler ever runs.
pub open spec fn spec_begin(
    cfg: ConfigModel,
    forwarded: Option<Seq<char>>,
    peer: Option<Seq<char>>,
) -> StateModel {
    match spec_extract(cfg.forwarded_for, forwarded, peer) {
        Ok(ip) => StateModel::Dispatching { ip, endpoint: cfg.endpoint },
        Err(e) => StateModel::ExtractFailed(e),
    }
}

/// The second step: the wrapped handler completed. Success moves on to the
/// lookup stage with the same address and endpoint; failure is terminal and
/// passes the handler's error through.
pub open spec fn spec_inner_completed(s: StateModel, inner_ok: bool) -> StateModel
    recommends
        s is Dispatching,
{
    if inner_ok {
        StateModel::Resolving { ip: s->Dispatching_ip, endpoint: s->Dispatching_endpoint }
    } else {
        StateModel::InnerFailed
    }
}

/// The third step, failing: the external lookup failed with `message`; the
/// handler's successful response is discarded.
pub open spec fn spec_lookup_failed(s: StateModel, message: Seq<char>) -> StateModel
    recommends
        s is Resolving,
{
    StateModel::ResolveFailed(ErrorModel::Lookup(message))
}

/// The last step: the storage sink reported `result` for the resolved
/// record. Success completes the dispatch; failure is terminal and discards
/// the handler's successful response.
pub open spec fn spec_store_completed(
    s: StateModel,
    result: Result<(), Seq<char>>,
) -> StateModel
    recommends
        s is Resolving,
{
    match result {
        Ok(_) => StateModel::Stored,
        Err(m) => StateModel::StoreFailed(ErrorModel::Storage(m)),
    }
}

/// The view of a storage outcome.
pub open spec fn view_store_result(r: Result<(), String>) -> Result<(), Seq<char>> {
    match r {
        Ok(_) => Ok(()),
        Err(m) => Err(m@),
    }
}

impl Dispatch {
    /// Start a dispatch: derive the client address from the request context
    /// per the configured policy.
    pub fn begin<T: IPQueryStore>(
        query: &IPQuery<T>,
        forwarded: Option<String>,
        peer: Option<String>,
    ) -> (d: Dispatch)
        ensures
            d@ == spec_begin(query@, view_opt(forwarded), view_opt(peer)),
    {
        match extract_address(query.uses_forwarded_header(), forwarded, peer) {
            Ok(ip) => Dispatch::Dispatching { ip, endpoint: query.endpoint_url().clone() },
            Err(error) => Dispatch::ExtractFailed { error },
        }
    }

    /// Record the wrapped handler's completion: `true` for a response,
    /// `false` for a failure the glue passes through verbatim.
    pub fn inner_completed(self, inner_ok: bool) -> (d: Dispatch)
        requires
            self@ is Dispatching,
        ensures
            d@ == spec_inner_completed(self@, inner_ok),
    {
        match self {
            Dispatch::Dispatching { ip, endpoint } => {
                if inner_ok {
                    Dispatch::Resolving { ip, endpoint }
                } else {
                    Dispatch::InnerFailed
                }
            },
            _ => unreached(),
        }
    }

    /// Record a failed external lookup, with its cause message.
    pub fn lookup_failed(self, message: String) -> (d: Dispatch)
        requires
            self@ is Resolving,
        ensures
            d@ == spec_lookup_failed(self@, message@),
    {
        Dispatch::ResolveFailed { error: DispatchError::Lookup(message) }
    }

    /// Record the storage sink's outcome for the resolved record.
    pub fn store_completed(self, result: Result<(), String>) -> (d: Dispatch)
        requires
            self@ is Resolving,
        ensures
            d@ == spec_store_completed(self@, view_store_result(result)),
    {
        match result {
            Ok(_) => Dispatch::Stored,
            Err(m) => Dispatch::StoreFailed { error: DispatchError::Storage(m) },
        }
    }

    /// Record a successful lookup and hand the resolved record to the
    /// storage sink. The sink alone decides success, so this states what
    /// holds of either outcome; `store_completed` pins each one exactly.
    pub fn resolved<T: IPQueryStore>(self, store: &T, record: ipapi::IPInfo) -> (d: Dispatch)
        requires
            self@ is Resolving,
        ensures
            d@ == spec_store_completed(self@, Ok(())) || (exists|m: Seq<char>|
                d@ == spec_store_completed(self@, Err(m))),
    {
        match store.store(record) {
            Ok(_) => self.store_completed(Ok(())),
            Err(e) => {
                let m = io_error_message(&e);
                self.store_completed(Err(m))
            },
        }
    }

    /// The derived client address a running dispatch carries.
    pub fn ip(&self) -> (ip: &String)
        requires
            !is_terminal(self@),
        ensures
            self@ matches StateModel::Dispatching { ip: i, .. } ==> ip@ == i,
            self@ matches StateModel::Resolving { ip: i, .. } ==> ip@ == i,
    {
        match self {
            Dispatch::Dispatching { ip, .. } => ip,
            Dispatch::Resolving { ip, .. } => ip,
            _ => unreached(),
        }
    }

    /// The configured lookup endpoint a running dispatch carries.
    pub fn endpoint(&self) -> (e: &String)
        requires
            !is_terminal(self@),
        ensures
            self@ matches StateModel::Dispatching { endpoint: ep, .. } ==> e@ == ep,
            self@ matches StateModel::Resolving { endpoint: ep, .. } ==> e@ == ep,
    {
        match self {
            Dispatch::Dispatching { endpoint, .. } => endpoint,
            Dispatch::Resolving { endpoint, .. } => endpoint,
            _ => unreached(),
        }
    }

    /// Whether no step leads out of this state.
    pub fn is_terminal_state(&self) -> (b: bool)
        ensures
            b == is_terminal(self@),
    {
        match self {
            Dispatch::Dispatching { .. } => false,
            Dispatch::Resolving { .. } => false,
            _ => true,
        }
    }

    /// Whether the dispatch ended with every stage successful.
    pub fn is_stored(&self) -> (b: bool)
        ensures
            b == is_success(self@),
    {
        match self {
            Dispatch::Stored => true,
            _ => false,
        }
    }

    /// Whether the wrapped handler is running.
    pub fn is_dispatching(&self) -> (b: bool)
        ensures
            b == (self@ is Dispatching),
    {
        match self {
            Dispatch::Dispatching { .. } => true,
            _ => false,
        }
    }

    /// Whether the external lookup is running.
    pub fn is_resolving(&self) -> (b: bool)
        ensures
            b == (self@ is Resolving),
    {
        match self {
            Dispatch::Resolving { .. } => true,
            _ => false,
        }
    }

    /// Whether the wrapped handler failed, its error passing through.
    pub fn is_inner_failed(&self) -> (b: bool)
        ensures
            b == (self@ is InnerFailed),
    {
        match self {
            Dispatch::InnerFailed => true,
            _ => false,
        }
    }

    /// The failure a terminal state carries, if any.
    pub fn error(&self) -> (e: Option<&DispatchError>)
        ensures
            match e {
                Some(err) => spec_error(self@) == Some(err@),
                None => spec_error(self@) is None,
            },
    {
        match self {
            Dispatch::ExtractFailed { error } => Some(error),
            Dispatch::ResolveFailed { error } => Some(error),
            Dispatch::StoreFailed { error } => Some(error),
            _ => None,
        }
    }
}

/// One whole dispatch, summarised: where it ended, and which collaborators
/// it reached on the way there.
pub struct RunSummary {
    pub outcome: StateModel,
    pub inner_invoked: bool,
    pub lookup_invoked: bool,
    pub store_invoked: bool,
}

/// One whole dispatch as a function of the request context and of what each
/// collaborator answered: extraction, then the wrapped handler, then — only
/// after the handler's success — the lookup, then the storage sink. Each
/// stage is reached exactly when every stage before it succeeded. The
/// resolved record itself is opaque and passes to the sink unchanged, so the
/// lookup's outcome is modelled by its success or its cause message alone.
pub open spec fn spec_run(
    cfg: ConfigModel,
    forwarded: Option<Seq<char>>,
    peer: Option<Seq<char>>,
    inner_ok: bool,
    lookup: Result<(), Seq<char>>,
    store: Result<(), Seq<char>>,
) -> RunSummary {
    let started = spec_begin(cfg, forwarded, peer);
    if !(started is Dispatching) {
        RunSummary {
            outcome: started,
            inner_invoked: false,
            lookup_invoked: false,
            store_invoked: false,
        }
    } else {
        let handled = spec_inner_completed(started, inner_ok);
        if !(handled is Resolving) {
            RunSummary {
                outcome: handled,
                inner_invoked: true,
                lookup_invoked: false,
                store_invoked: false,
            }
        } else {
            match lookup {
                Err(m) => RunSummary {
                    outcome: spec_lookup_failed(handled, m),
                    inner_invoked: true,
                    lookup_invoked: true,
                    store_invoked: false,
                },
                Ok(_) => RunSummary {
                    outcome: spec_store_completed(handled, store),
                    inner_invoked: true,
                    lookup_invoked: true,
                    store_invoked: true,
                },
            }
        }
    }
}

/// Under the peer-address policy with a peer address present, the extracted
/// address is exactly the peer address's IP component.
pub proof fn lemma_peer_extraction_exact(forwarded: Option<Seq<char>>, peer: Seq<char>)
    ensures
        spec_extract(false, forwarded, Some(peer)) == Ok::<Seq<char>, ErrorModel>(
            crate::extract::ip_component(peer),
        ),
{
}

/// Under the peer-address policy with no peer address present, the dispatch
/// ends at once in an extraction failure carrying the documented message,
/// and no collaborator — the wrapped handler included — is ever invoked.
pub proof fn lemma_missing_peer_short_circuits(
    cfg: ConfigModel,
    forwarded: Option<Seq<char>>,
    inner_ok: bool,
    lookup: Result<(), Seq<char>>,
    store: Result<(), Seq<char>>,
)
    requires
        !cfg.forwarded_for,
    ensures
        ({
            let r = spec_run(cfg, forwarded, None, inner_ok, lookup, store);
            &&& r.outcome == StateModel::ExtractFailed(
                ErrorModel::Extraction(crate::extract::no_peer_message()),
            )
            &&& is_terminal(r.outcome)
            &&& !r.inner_invoked
            &&& !r.lookup_invoked
            &&& !r.store_invoked
        }),
{
}

/// When the wrapped handler fails, the dispatch ends in the pass-through
/// state — the handler's own error surfaces unchanged — and neither the
/// lookup nor the storage sink is invoked.
pub proof fn lemma_inner_failure_passes_through(
    cfg: ConfigModel,
    forwarded: Option<Seq<char>>,
    peer: Option<Seq<char>>,
    lookup: Result<(), Seq<char>>,
    store: Result<(), Seq<char>>,
)
    ensures
        ({
            let r = spec_run(cfg, forwarded, peer, false, lookup, store);
            r.inner_invoked ==> {
                &&& r.outcome == StateModel::InnerFailed
                &&& is_terminal(r.outcome)
                &&& !r.lookup_invoked
                &&& !r.store_invoked
            }
        }),
{
}

/// When the handler and the lookup succeed but the storage sink fails, the
/// dispatch ends in a storage-tagged failure: the handler's successful
/// response is discarded, not returned.
pub proof fn lemma_store_failure_overrides(
    cfg: ConfigModel,
    forwarded: Option<Seq<char>>,
    peer: Option<Seq<char>>,
    message: Seq<char>,
)
    ensures
        ({
            let r = spec_run(cfg, forwarded, peer, true, Ok(()), Err(message));
            r.store_invoked ==> {
                &&& r.outcome == StateModel::StoreFailed(ErrorModel::Storage(message))
                &&& !is_success(r.outcome)
            }
        }),
{
}

/// A dispatch succeeds exactly when extraction, the wrapped handler, the
/// lookup and the storage sink all succeed; and the sink is invoked exactly
/// when everything before it succeeded.
pub proof fn lemma_success_characterisation(
    cfg: ConfigModel,
    forwarded: Option<Seq<char>>,
    peer: Option<Seq<char>>,
    inner_ok: bool,
    lookup: Result<(), Seq<char>>,
    store: Result<(), Seq<char>>,
)
    ensures
        ({
            let r = spec_run(cfg, forwarded, peer, inner_ok, lookup, store);
            &&& is_success(r.outcome) <==> {
                &&& spec_extract(cfg.forwarded_for, forwarded, peer) is Ok
                &&& inner_ok
                &&& lookup is Ok
                &&& store is Ok
            }
            &&& r.store_invoked <==> {
                &&& spec_extract(cfg.forwarded_for, forwarded, peer) is Ok
                &&& inner_ok
                &&& lookup is Ok
            }
        }),
{
}

/// Dispatches carry no state across requests: a run's whole summary is a
/// function of its inputs alone, so two runs from the same context with
/// always-succeeding collaborators are two independent successes, each
/// invoking the storage sink exactly once — no caching across calls.
pub proof fn lemma_dispatch_idempotent(
    cfg: ConfigModel,
    forwarded: Option<Seq<char>>,
    peer: Option<Seq<char>>,
)
    requires
        spec_extract(cfg.forwarded_for, forwarded, peer) is Ok,
    ensures
        ({
            let first = spec_run(cfg, forwarded, peer, true, Ok(()), Ok(()));
            let second = spec_run(cfg, forwarded, peer, true, Ok(()), Ok(()));
            &&& first == second
            &&& is_success(first.outcome)
            &&& first.store_invoked
            &&& second.store_invoked
        }),
{
}

} // verus!
