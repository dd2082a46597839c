use vstd::prelude::*;
use crate::address::{escrow_address, escrow_address_of, Address};

verus! {

/// Errors of the remote gateway.
#[derive(Clone, Copy, Debug, PartialEq, Eq, Structural)]
pub enum GatewayError {
    /// No account exists at the address asked for.
    AccountNotFound,
    /// The request failed on the way or was refused.
    RequestFailed,
}

/// The state of a value that is fetched remotely.
#[derive(Clone, Debug)]
pub enum ResourceState<T> {
    Pending,
    Ready(T),
    Failed(GatewayError),
}

/// The escrow record of a wallet, as the wallet adapter reports it.
#[derive(Clone, Copy, Debug, PartialEq, Eq)]
pub struct Escrow {
    pub authority: Address,
}

/// What a proof hook needs done: fail at once, or fetch the proof of `authority`.
#[derive(Clone, Copy, Debug, PartialEq, Eq)]
pub enum ProofLookup {
    /// Settled without a remote call.
    Resolved(GatewayError),
    /// One `get_proof` call for this authority.
    Fetch(Address),
}

/// The proof lookup for the escrow of the connected wallet. A zero authority
/// means there is no escrow: the lookup fails with `AccountNotFound` and no
/// remote call is made. Otherwise the proof to fetch is the one of the
/// escrow account's address, derived from the escrow seed, the authority's
/// bytes and the relayer program.
pub fn use_proof(escrow: &Escrow) -> (r: ProofLookup)
    ensures
        escrow.authority.is_zero_spec() ==> r == ProofLookup::Resolved(GatewayError::AccountNotFound),
        !escrow.authority.is_zero_spec() ==> match escrow_address_of(escrow.authority.bytes@) {
            Some(a) => r matches ProofLookup::Fetch(f) && f.bytes@ == a,
            None => r == ProofLookup::Resolved(GatewayError::AccountNotFound),
        },
{
    if escrow.authority.is_zero() {
        ProofLookup::Resolved(GatewayError::AccountNotFound)
    } else {
        match escrow_address(&escrow.authority) {
            Some(a) => ProofLookup::Fetch(a),
            None => ProofLookup::Resolved(GatewayError::AccountNotFound),
        }
    }
}

/// The proof lookup for an authority given directly: always one fetch of it.
pub fn use_user_proof(authority: Address) -> (r: ProofLookup)
    ensures
        r == ProofLookup::Fetch(authority),
{
    ProofLookup::Fetch(authority)
}

impl ProofLookup {
    /// The resource state once the gateway's answer, if any, is in: `fetched`
    /// is `None` while the fetch is outstanding and is ignored for a lookup
    /// that was resolved without one.
    pub fn settle<T>(&self, fetched: Option<Result<T, GatewayError>>) -> (r: ResourceState<T>)
        ensures
            match *self {
                ProofLookup::Resolved(e) => r == ResourceState::<T>::Failed(e),
                ProofLookup::Fetch(_) => match fetched {
                    None => r == ResourceState::<T>::Pending,
                    Some(Ok(p)) => r == ResourceState::Ready(p),
                    Some(Err(e)) => r == ResourceState::<T>::Failed(e),
                },
            },
    {
        match self {
            ProofLookup::Resolved(e) => ResourceState::Failed(*e),
            ProofLookup::Fetch(_) => match fetched {
                None => ResourceState::Pending,
                Some(Ok(p)) => ResourceState::Ready(p),
                Some(Err(e)) => ResourceState::Failed(e),
            },
        }
    }

    /// Whether two lookups are the same.
    pub fn same(&self, other: &ProofLookup) -> (r: bool)
        ensures
            r == (*self == *other),
    {
        match (self, other) {
            (ProofLookup::Resolved(a), ProofLookup::Resolved(b)) => *a == *b,
            (ProofLookup::Fetch(a), ProofLookup::Fetch(b)) => a.same(b),
            _ => false,
        }
    }

    /// Whether the lookup needs a remote call.
    pub fn needs_fetch(&self) -> (r: bool)
        ensures
            r == (*self is Fetch),
    {
        matches!(self, ProofLookup::Fetch(_))
    }
}

/// The state that a lookup starts in, before any answer.
pub open spec fn initial_state<T>(lookup: ProofLookup) -> ResourceState<T> {
    match lookup {
        ProofLookup::Resolved(e) => ResourceState::Failed(e),
        ProofLookup::Fetch(_) => ResourceState::Pending,
    }
}

/// A proof resource: the lookup in force, computed from the hook's inputs,
/// and the latest state of its value.
#[derive(Clone, Debug)]
pub struct ProofResource<T> {
    pub lookup: Option<ProofLookup>,
    pub state: ResourceState<T>,
}

impl<T> ProofResource<T> {
    /// A resource that has seen no inputs yet.
    pub fn new() -> (r: ProofResource<T>)
        ensures
            r.lookup is None,
            r.state is Pending,
    {
        ProofResource { lookup: None, state: ResourceState::Pending }
    }

    /// Takes the lookup computed from the current inputs. When it is the one
    /// in force nothing changes; otherwise the value starts over from the new
    /// lookup. Returns whether a `get_proof` call must now be issued.
    pub fn update(&mut self, lookup: ProofLookup) -> (fetch: bool)
        ensures
            old(self).lookup == Some(lookup) ==> *final(self) == *old(self) && !fetch,
            old(self).lookup != Some(lookup) ==> {
                &&& final(self).lookup == Some(lookup)
                &&& final(self).state == initial_state::<T>(lookup)
                &&& fetch == (lookup is Fetch)
            },
    {
        let same = match self.lookup {
            Some(current) => current.same(&lookup),
            None => false,
        };
        if same {
            false
        } else {
            self.lookup = Some(lookup);
            self.state = lookup.settle(None);
            lookup.needs_fetch()
        }
    }

    /// Re-evaluates the lookup in force: its value starts over, and a lookup
    /// that fetches must issue a new `get_proof` call, whose answer replaces
    /// the old value. Returns whether that call must now be issued.
    pub fn restart(&mut self) -> (fetch: bool)
        ensures
            final(self).lookup == old(self).lookup,
            match old(self).lookup {
                Some(l) => final(self).state == initial_state::<T>(l) && fetch == (l is Fetch),
                None => *final(self) == *old(self) && !fetch,
            },
    {
        match self.lookup {
            Some(l) => {
                self.state = l.settle(None);
                l.needs_fetch()
            },
            None => false,
        }
    }

    /// Records the gateway's answer to the fetch of `lookup`. An answer to a
    /// lookup that is no longer in force is dropped.
    pub fn complete(&mut self, lookup: ProofLookup, answer: Result<T, GatewayError>)
        ensures
            (old(self).lookup == Some(lookup) && lookup is Fetch) ==> {
                &&& final(self).lookup == old(self).lookup
                &&& final(self).state == match answer {
                    Ok(p) => ResourceState::Ready(p),
                    Err(e) => ResourceState::<T>::Failed(e),
                }
            },
            !(old(self).lookup == Some(lookup) && lookup is Fetch) ==> *final(self) == *old(self),
    {
        let current = match self.lookup {
            Some(l) => l.same(&lookup),
            None => false,
        };
        if current && lookup.needs_fetch() {
            self.state = lookup.settle(Some(answer));
        }
    }
}

} // verus!
