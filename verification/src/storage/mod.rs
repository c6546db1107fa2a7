//! The storage contract and the engines that honour it.

use crate::error::RdapServerError;
use crate::ip::{IpAddress, IpCidr};
use crate::rdap::response::RdapServerResponse;
use crate::response::{Autnum, Domain, Entity, Nameserver, Network, RdapResponseView};
use crate::storage::model::{StoreView, Written};
use vstd::prelude::*;

pub mod laws;
pub mod mem;
pub mod model;
pub mod pg;

verus! {

/// What a store that never fails answers to a lookup whose right answer is
/// `expected`: the record in its shared form, or `NotFound`.
pub open spec fn answers(
    r: Result<RdapServerResponse, RdapServerError>,
    expected: Option<RdapResponseView>,
) -> bool {
    match r {
        Ok(resp) => resp is Arc && expected == Some(resp@),
        Err(e) => e is NotFound && expected is None,
    }
}

/// A lookup answered `r` where the right answer is `expected`: a record
/// that comes back is the right one, and `NotFound` comes back only where
/// there is none.
pub open spec fn answers_soundly(
    r: Result<RdapServerResponse, RdapServerError>,
    expected: Option<RdapResponseView>,
) -> bool {
    match r {
        Ok(resp) => expected == Some(resp@),
        Err(e) => e is NotFound ==> expected is None,
    }
}

/// A write to a transaction reported `r`, where writing the record to the
/// staged records `before` has the outcome `w`: on success the staged
/// records are those of `w`, on failure they are unchanged.
pub open spec fn staged_soundly(
    r: Result<(), RdapServerError>,
    before: StoreView,
    after: StoreView,
    w: Written,
) -> bool {
    match r {
        Ok(_) => w == Written::Stored(after),
        Err(_) => after == before,
    }
}

/// A handle to a transaction: a batch of writes that become visible
/// together, at commit, or not at all.
pub trait TxHandle: Sized {
    /// The records that the transaction has staged.
    spec fn staged(&self) -> StoreView;

    /// A write of this transaction has failed, so it can no longer commit.
    spec fn failed(&self) -> bool;

    /// Add a domain name to storage.
    fn add_domain(&mut self, domain: &Domain) -> (r: Result<(), RdapServerError>)
        ensures
            staged_soundly(
                r,
                old(self).staged(),
                final(self).staged(),
                old(self).staged().with_domain(domain@),
            ),
            final(self).failed() == (old(self).failed() || r is Err),
    ;

    /// Add an entity to storage.
    fn add_entity(&mut self, entity: &Entity) -> (r: Result<(), RdapServerError>)
        ensures
            staged_soundly(
                r,
                old(self).staged(),
                final(self).staged(),
                old(self).staged().with_entity(entity@),
            ),
            final(self).failed() == (old(self).failed() || r is Err),
    ;

    /// Add a nameserver to storage.
    fn add_nameserver(&mut self, nameserver: &Nameserver) -> (r: Result<(), RdapServerError>)
        ensures
            staged_soundly(
                r,
                old(self).staged(),
                final(self).staged(),
                old(self).staged().with_nameserver(nameserver@),
            ),
            final(self).failed() == (old(self).failed() || r is Err),
    ;

    /// Add an autnum to storage.
    fn add_autnum(&mut self, autnum: &Autnum) -> (r: Result<(), RdapServerError>)
        ensures
            staged_soundly(
                r,
                old(self).staged(),
                final(self).staged(),
                old(self).staged().with_autnum(autnum@),
            ),
            final(self).failed() == (old(self).failed() || r is Err),
    ;

    /// Add a network to storage.
    fn add_network(&mut self, network: &Network) -> (r: Result<(), RdapServerError>)
        ensures
            staged_soundly(
                r,
                old(self).staged(),
                final(self).staged(),
                old(self).staged().with_network(network@),
            ),
            final(self).failed() == (old(self).failed() || r is Err),
    ;

    /// Rollback the transaction: give up the handle and what it staged.
    fn rollback(self) -> (r: Result<(), RdapServerError>)
        ensures
            r matches Err(e) ==> e is Backend,
    ;
}

/// The operations of a storage engine.
pub trait StoreOps {
    /// The transactions of this engine.
    type Tx: TxHandle;

    /// What `init` prepares the engine from.
    type Source;

    /// The records that are visible to readers.
    spec fn contents(&self) -> StoreView;

    /// Initializes the backend storage. A failure leaves no record behind.
    fn init(&mut self, source: &Self::Source) -> (r: Result<(), RdapServerError>)
        ensures
            final(self).contents().valid(),
            r matches Err(e) ==> (e is Config || e is Backend) && final(self).contents() == old(
                self,
            ).contents(),
    ;

    /// Gets a new transaction, which has staged nothing.
    fn new_tx(&self) -> (r: Result<Self::Tx, RdapServerError>)
        ensures
            match r {
                Ok(tx) => tx.staged() == StoreView::empty() && !tx.failed(),
                Err(e) => e is Backend,
            },
    ;

    /// Commits a transaction: every record it staged becomes visible, or,
    /// on failure, none does.
    fn commit(&mut self, tx: Self::Tx) -> (r: Result<(), RdapServerError>)
        ensures
            final(self).contents().valid(),
            match r {
                Ok(_) => {
                    &&& !tx.failed()
                    &&& old(self).contents().admits(tx.staged())
                    &&& final(self).contents() == old(self).contents().merge(tx.staged())
                },
                Err(e) => e is Backend && final(self).contents() == old(self).contents(),
            },
    ;

    /// Get a domain from storage using the 'ldhName' as the key.
    fn get_domain_by_ldh(&self, ldh: &str) -> (r: Result<RdapServerResponse, RdapServerError>)
        ensures
            self.contents().valid(),
            answers_soundly(r, self.contents().domain(ldh@)),
    ;

    /// Get an entity from storage using the 'handle' of the entity as the key.
    fn get_entity_by_handle(&self, handle: &str) -> (r: Result<
        RdapServerResponse,
        RdapServerError,
    >)
        ensures
            self.contents().valid(),
            answers_soundly(r, self.contents().entity(handle@)),
    ;

    /// Get a nameserver from storage using the 'ldhName' as the key.
    fn get_nameserver_by_ldh(&self, ldh: &str) -> (r: Result<RdapServerResponse, RdapServerError>)
        ensures
            self.contents().valid(),
            answers_soundly(r, self.contents().nameserver(ldh@)),
    ;

    /// Get the autnum whose range contains a number.
    fn get_autnum_by_num(&self, num: u32) -> (r: Result<RdapServerResponse, RdapServerError>)
        ensures
            self.contents().valid(),
            answers_soundly(r, self.contents().autnum(num)),
    ;

    /// Get the network whose range contains an address.
    fn get_network_by_ipaddr(&self, addr: IpAddress) -> (r: Result<
        RdapServerResponse,
        RdapServerError,
    >)
        ensures
            self.contents().valid(),
            answers_soundly(r, self.contents().network_by_ip(addr)),
    ;

    /// Get the network whose range is exactly a CIDR block.
    fn get_network_by_cidr(&self, cidr: IpCidr) -> (r: Result<RdapServerResponse, RdapServerError>)
        ensures
            self.contents().valid(),
            answers_soundly(r, self.contents().network_by_cidr(cidr)),
    ;
}

} // verus!
