//! Transactions of the in-memory engine: writes are staged in indices of
//! the transaction's own and reach the store at commit, all at once.

use crate::error::RdapServerError;
use crate::response::{Autnum, Domain, Entity, Nameserver, Network, RdapResponse};
use crate::storage::mem::indices::Indices;
use crate::storage::mem::ops::Mem;
use crate::storage::mem::state::{
    load_failure, staging, views, Loaded, StateFile, StateFileContent, Template,
};
use crate::storage::model::{lemma_with_all_step, lemma_with_one, written, StoreView, Written};
use crate::storage::TxHandle;
use vstd::prelude::*;

verus! {

/// A transaction on a [`Mem`].
pub struct MemTx {
    staged: Indices,
    failed: bool,
}

impl MemTx {
    /// A transaction that has staged nothing.
    pub fn new() -> (r: MemTx)
        ensures
            r.staged() == StoreView::empty(),
            !r.failed(),
    {
        MemTx { staged: Indices::new(), failed: false }
    }

    /// The staged records.
    pub(crate) fn into_staged(self) -> (r: (Indices, bool))
        ensures
            r.0@ == self.staged(),
            r.1 == self.failed(),
    {
        (self.staged, self.failed)
    }

    /// Whether a write of this transaction has failed.
    pub fn has_failed(&self) -> (b: bool)
        ensures
            b == self.failed(),
    {
        self.failed
    }

    /// Stages a record of any kind. Fails with `Config` if it is of a kind
    /// that cannot be stored or does not name its key, and with `Backend` if
    /// its range overlaps a different range that this transaction has
    /// staged.
    pub fn add(&mut self, response: &RdapResponse) -> (r: Result<(), RdapServerError>)
        ensures
            written(
                r,
                old(self).staged(),
                final(self).staged(),
                old(self).staged().with_response(response@),
            ),
            final(self).failed() == (old(self).failed() || r is Err),
            final(self).staged().valid(),
    {
        match response {
            RdapResponse::Entity(e) => self.add_entity(e),
            RdapResponse::Domain(d) => self.add_domain(d),
            RdapResponse::Nameserver(n) => self.add_nameserver(n),
            RdapResponse::Autnum(a) => self.add_autnum(a),
            RdapResponse::Network(n) => self.add_network(n),
            _ => {
                self.staged.known_valid();
                self.failed = true;
                Err(RdapServerError::Config("not a kind of record that is stored".to_owned()))
            },
        }
    }

    /// Stages the records one after the other and stops at the first that
    /// is refused, with its error.
    pub fn add_all(&mut self, responses: &Vec<RdapResponse>) -> (r: Result<(), RdapServerError>)
        ensures
            final(self).staged().valid(),
            match old(self).staged().with_all(views(responses@)) {
                Written::Stored(v) => r is Ok && final(self).staged() == v && final(self).failed()
                    == old(self).failed(),
                Written::Malformed => r is Err && r->Err_0 is Config && final(self).failed(),
                Written::Conflict => r is Err && r->Err_0 is Backend && final(self).failed(),
            },
    {
        let ghost all = views(responses@);
        let ghost start = self.staged();
        self.staged.known_valid();
        assert(all.skip(0) =~= all);
        let mut i: usize = 0;
        while i < responses.len()
            invariant
                i <= responses.len(),
                all == views(responses@),
                start == old(self).staged(),
                self.staged().valid(),
                self.failed() == old(self).failed(),
                start.with_all(all) == self.staged().with_all(all.skip(i as int)),
            decreases responses.len() - i,
        {
            proof {
                lemma_with_all_step(self.staged(), all, i as int);
            }
            let r = self.add(&responses[i]);
            if r.is_err() {
                return r;
            }
            i += 1;
        }
        Ok(())
    }

    /// Stages every record that the template stands for.
    pub fn add_template(&mut self, template: &Template) -> (r: Result<(), RdapServerError>)
        ensures
            final(self).staged().valid(),
            match old(self).staged().with_all(template.expansion()) {
                Written::Stored(v) => r is Ok && final(self).staged() == v && final(self).failed()
                    == old(self).failed(),
                Written::Malformed => r is Err && r->Err_0 is Config && final(self).failed(),
                Written::Conflict => r is Err && r->Err_0 is Backend && final(self).failed(),
            },
    {
        let records = template.expand();
        self.add_all(&records)
    }

    /// Stages the files of a state directory in their order: the record of
    /// a record file, and every record that a template file stands for.
    ///
    /// Stops at the first file that is malformed or holds a record that is
    /// refused, and fails with a `Config` error that names that file.
    pub fn add_files(&mut self, files: &Vec<StateFile>) -> (r: Result<(), RdapServerError>)
        ensures
            final(self).staged().valid(),
            match staging(old(self).staged(), files@, 0) {
                Loaded::Staged(v) => r is Ok && final(self).staged() == v && final(self).failed()
                    == old(self).failed(),
                Loaded::Failed(i) => {
                    &&& 0 <= i < files.len()
                    &&& r matches Err(RdapServerError::Config(m))
                    &&& m@ == load_failure(files[i].name@)
                    &&& final(self).failed()
                },
            },
    {
        let ghost start = self.staged();
        self.staged.known_valid();
        let mut i: usize = 0;
        while i < files.len()
            invariant
                i <= files.len(),
                start == old(self).staged(),
                self.staged().valid(),
                self.failed() == old(self).failed(),
                staging(start, files@, 0) == staging(self.staged(), files@, i as int),
            decreases files.len() - i,
        {
            let file = &files[i];
            let staged = match &file.content {
                StateFileContent::Record(record) => {
                    proof {
                        lemma_with_one(self.staged(), record@);
                    }
                    self.add(record).is_ok()
                },
                StateFileContent::Template(template) => self.add_template(template).is_ok(),
                StateFileContent::Malformed => {
                    self.failed = true;
                    false
                },
                StateFileContent::Unrecognized => true,
            };
            if !staged {
                let mut message = "cannot load state from ".to_owned();
                message.append(file.name.as_str());
                return Err(RdapServerError::Config(message));
            }
            i += 1;
        }
        Ok(())
    }

    /// Commits the transaction to `mem`: every staged record becomes
    /// visible there, each in place of what was held under the same key.
    ///
    /// Fails, and leaves `mem` as it was, if a write of this transaction
    /// has failed or if a staged range overlaps a different range of `mem`.
    pub fn commit(self, mem: &mut Mem) -> (r: Result<(), RdapServerError>)
        ensures
            final(mem)@.valid(),
            r is Ok <==> !self.failed() && old(mem)@.admits(self.staged()),
            match r {
                Ok(_) => final(mem)@ == old(mem)@.merge(self.staged()),
                Err(e) => e is Backend && final(mem)@ == old(mem)@,
            },
    {
        mem.apply(self)
    }
}

impl TxHandle for MemTx {
    closed spec fn staged(&self) -> StoreView {
        self.staged@
    }

    closed spec fn failed(&self) -> bool {
        self.failed
    }

    /// Stages a domain under its LDH name. Fails with `Config` if it has
    /// none.
    fn add_domain(&mut self, domain: &Domain) -> (r: Result<(), RdapServerError>)
        ensures
            written(
                r,
                old(self).staged(),
                final(self).staged(),
                old(self).staged().with_domain(domain@),
            ),
            final(self).staged().valid(),
    {
        let r = self.staged.put_domain(domain);
        if r.is_err() {
            self.failed = true;
        }
        r
    }

    /// Stages an entity under its handle. Fails with `Config` if it has
    /// none.
    fn add_entity(&mut self, entity: &Entity) -> (r: Result<(), RdapServerError>)
        ensures
            written(
                r,
                old(self).staged(),
                final(self).staged(),
                old(self).staged().with_entity(entity@),
            ),
            final(self).staged().valid(),
    {
        let r = self.staged.put_entity(entity);
        if r.is_err() {
            self.failed = true;
        }
        r
    }

    /// Stages a nameserver under its LDH name. Fails with `Config` if it
    /// has none.
    fn add_nameserver(&mut self, nameserver: &Nameserver) -> (r: Result<(), RdapServerError>)
        ensures
            written(
                r,
                old(self).staged(),
                final(self).staged(),
                old(self).staged().with_nameserver(nameserver@),
            ),
            final(self).staged().valid(),
    {
        let r = self.staged.put_nameserver(nameserver);
        if r.is_err() {
            self.failed = true;
        }
        r
    }

    /// Stages an autnum under its range. Fails with `Config` if it names
    /// no range, and with `Backend` if its range overlaps a different
    /// range that this transaction has staged.
    fn add_autnum(&mut self, autnum: &Autnum) -> (r: Result<(), RdapServerError>)
        ensures
            written(
                r,
                old(self).staged(),
                final(self).staged(),
                old(self).staged().with_autnum(autnum@),
            ),
            final(self).staged().valid(),
    {
        let r = self.staged.put_autnum(autnum);
        if r.is_err() {
            self.failed = true;
        }
        r
    }

    /// Stages a network under its range. Fails with `Config` if it names
    /// no range of one address family, and with `Backend` if its range
    /// overlaps a different range that this transaction has staged.
    fn add_network(&mut self, network: &Network) -> (r: Result<(), RdapServerError>)
        ensures
            written(
                r,
                old(self).staged(),
                final(self).staged(),
                old(self).staged().with_network(network@),
            ),
            final(self).staged().valid(),
    {
        let r = self.staged.put_network(network);
        if r.is_err() {
            self.failed = true;
        }
        r
    }

    /// Gives up the transaction. Nothing that it staged was ever visible,
    /// and this cannot fail.
    fn rollback(self) -> (r: Result<(), RdapServerError>)
        ensures
            r is Ok,
    {
        Ok(())
    }
}

} // verus!
