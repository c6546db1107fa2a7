//! The in-memory engine: the committed records and the operations on them.

use crate::error::RdapServerError;
use crate::ip::{IpAddress, IpCidr};
use crate::rdap::response::{ArcRdapResponse, RdapServerResponse};
use crate::storage::mem::config::MemConfig;
use crate::storage::mem::indices::{found, Indices};
use crate::storage::mem::state::{load_failure, staging, Loaded, StateFile};
use crate::storage::mem::tx::MemTx;
use crate::storage::model::StoreView;
use crate::storage::{answers, StoreOps, TxHandle};
use vstd::prelude::*;

verus! {

/// The in-memory storage engine.
pub struct Mem {
    config: MemConfig,
    committed: Indices,
}

impl View for Mem {
    type V = StoreView;

    closed spec fn view(&self) -> StoreView {
        self.committed@
    }
}

/// The answer of a store to a lookup that found `hit`.
fn answer(hit: Option<ArcRdapResponse>) -> (r: Result<RdapServerResponse, RdapServerError>)
    ensures
        answers(r, found(hit)),
{
    match hit {
        Some(a) => Ok(RdapServerResponse::Arc(a)),
        None => Err(RdapServerError::NotFound),
    }
}

impl Mem {
    /// An engine that holds no record yet.
    pub fn new(config: MemConfig) -> (r: Mem)
        ensures
            r@ == StoreView::empty(),
            r.config_spec() == config,
    {
        Mem { config, committed: Indices::new() }
    }

    /// The settings that the engine was made with.
    pub closed spec fn config_spec(&self) -> MemConfig {
        self.config
    }

    /// The settings that the engine was made with.
    pub fn config(&self) -> (c: &MemConfig)
        ensures
            *c == self.config_spec(),
    {
        &self.config
    }

    /// Makes every record that `tx` staged visible, each in place of what
    /// was held under the same key.
    ///
    /// Fails, and leaves the store as it was, if a write of `tx` has failed
    /// or if a staged range overlaps a different range of the store.
    pub fn apply(&mut self, tx: MemTx) -> (r: Result<(), RdapServerError>)
        ensures
            final(self)@.valid(),
            r is Ok <==> !tx.failed() && old(self)@.admits(tx.staged()),
            match r {
                Ok(_) => final(self)@ == old(self)@.merge(tx.staged()),
                Err(e) => e is Backend && final(self)@ == old(self)@,
            },
    {
        let (staged, failed) = tx.into_staged();
        if failed {
            self.committed.known_valid();
            return Err(RdapServerError::Backend("a write of the transaction failed".to_owned()));
        }
        if self.committed.merge(staged) {
            Ok(())
        } else {
            Err(RdapServerError::Backend("a staged range overlaps a stored range".to_owned()))
        }
    }
}

impl StoreOps for Mem {
    type Tx = MemTx;

    type Source = Vec<StateFile>;

    open spec fn contents(&self) -> StoreView {
        self@
    }

    /// Loads the files of the state directory, all in one transaction, in
    /// the order in which they are given. Where two files hold a record
    /// under the same key, the later one stays; so the caller decides by
    /// the order which of them that is.
    ///
    /// Fails with a `Config` error that names the first file that is
    /// malformed or holds a record that is refused, and with a `Backend`
    /// error if a range of the files overlaps a different range that the
    /// store already holds. On failure the store is left as it was.
    fn init(&mut self, source: &Vec<StateFile>) -> (r: Result<(), RdapServerError>)
        ensures
            match staging(StoreView::empty(), source@, 0) {
                Loaded::Staged(v) => if old(self)@.admits(v) {
                    r is Ok && final(self)@ == old(self)@.merge(v)
                } else {
                    r is Err && r->Err_0 is Backend && final(self)@ == old(self)@
                },
                Loaded::Failed(i) => {
                    &&& 0 <= i < source.len()
                    &&& r matches Err(RdapServerError::Config(m))
                    &&& m@ == load_failure(source[i].name@)
                    &&& final(self)@ == old(self)@
                },
            },
    {
        let mut tx = MemTx::new();
        match tx.add_files(source) {
            Ok(_) => self.apply(tx),
            Err(e) => {
                self.committed.known_valid();
                Err(e)
            },
        }
    }

    /// A new transaction. This cannot fail.
    fn new_tx(&self) -> (r: Result<MemTx, RdapServerError>)
        ensures
            r is Ok,
    {
        Ok(MemTx::new())
    }

    /// Commits `tx`, as [`Mem::apply`] does.
    fn commit(&mut self, tx: MemTx) -> (r: Result<(), RdapServerError>)
        ensures
            r is Ok <==> !tx.failed() && old(self)@.admits(tx.staged()),
    {
        self.apply(tx)
    }

    /// The domain held under `ldh`, or `NotFound`.
    fn get_domain_by_ldh(&self, ldh: &str) -> (r: Result<RdapServerResponse, RdapServerError>)
        ensures
            answers(r, self@.domain(ldh@)),
    {
        answer(self.committed.domain(ldh))
    }

    /// The entity held under `handle`, or `NotFound`.
    fn get_entity_by_handle(&self, handle: &str) -> (r: Result<
        RdapServerResponse,
        RdapServerError,
    >)
        ensures
            answers(r, self@.entity(handle@)),
    {
        answer(self.committed.entity(handle))
    }

    /// The nameserver held under `ldh`, or `NotFound`.
    fn get_nameserver_by_ldh(&self, ldh: &str) -> (r: Result<RdapServerResponse, RdapServerError>)
        ensures
            answers(r, self@.nameserver(ldh@)),
    {
        answer(self.committed.nameserver(ldh))
    }

    /// The autnum whose range contains `num`, or `NotFound`.
    fn get_autnum_by_num(&self, num: u32) -> (r: Result<RdapServerResponse, RdapServerError>)
        ensures
            answers(r, self@.autnum(num)),
    {
        answer(self.committed.autnum(num))
    }

    /// The network whose range contains `addr`, or `NotFound`.
    fn get_network_by_ipaddr(&self, addr: IpAddress) -> (r: Result<
        RdapServerResponse,
        RdapServerError,
    >)
        ensures
            answers(r, self@.network_by_ip(addr)),
    {
        answer(self.committed.network_by_ip(addr))
    }

    /// The network whose range is exactly the block `cidr`, or `NotFound`.
    /// A network that merely contains the block is not an answer.
    fn get_network_by_cidr(&self, cidr: IpCidr) -> (r: Result<RdapServerResponse, RdapServerError>)
        ensures
            answers(r, self@.network_by_cidr(cidr)),
    {
        answer(self.committed.network_by_cidr(cidr))
    }
}

impl Default for Mem {
    fn default() -> (r: Self)
        ensures
            r@ == StoreView::empty(),
    {
        Mem::new(MemConfig::default())
    }
}

} // verus!
