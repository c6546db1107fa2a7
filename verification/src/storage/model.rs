//! The mathematical model of a store: what is stored under which key, and
//! what reads and writes mean.

use crate::error::RdapServerError;
use crate::ip::{IpAddress, IpCidr};
use crate::response::{
    AutnumView, DomainView, EntityView, NameserverView, NetworkView, RdapResponseView,
};
use crate::storage::mem::interval::{
    admits, admits_all, covering, disjoint_keys, lemma_insert_keeps_disjoint, Span,
};
use vstd::prelude::*;

verus! {

/// The key of a network: its address family and its range of addresses.
pub struct NetworkKey {
    pub v4: bool,
    pub span: Span,
}

/// The range of numbers that an autnum record stands for, if it names a
/// first and a last number in that order.
pub open spec fn autnum_span(a: AutnumView) -> Option<Span> {
    if a.start_autnum is Some && a.end_autnum is Some && a.start_autnum->0 <= a.end_autnum->0 {
        Some(Span { lo: a.start_autnum->0 as u128, hi: a.end_autnum->0 as u128 })
    } else {
        None
    }
}

/// The key of a network record, if it names a first and a last address of
/// one family in that order.
pub open spec fn network_key(n: NetworkView) -> Option<NetworkKey> {
    if n.start_address is Some && n.end_address is Some && n.start_address->0.is_v4()
        == n.end_address->0.is_v4() && n.start_address->0.number() <= n.end_address->0.number() {
        Some(
            NetworkKey {
                v4: n.start_address->0.is_v4(),
                span: Span { lo: n.start_address->0.number(), hi: n.end_address->0.number() },
            },
        )
    } else {
        None
    }
}

/// The key under which a record is held.
pub enum Key {
    Domain(Seq<char>),
    Entity(Seq<char>),
    Nameserver(Seq<char>),
    Autnum(Span),
    Network(NetworkKey),
}

/// The key that a record names, if it is of a kind that is stored and
/// names one.
pub open spec fn key_of(r: RdapResponseView) -> Option<Key> {
    match r {
        RdapResponseView::Domain(d) => match d.ldh_name {
            Some(k) => Some(Key::Domain(k)),
            None => None,
        },
        RdapResponseView::Entity(e) => match e.object_common.handle {
            Some(k) => Some(Key::Entity(k)),
            None => None,
        },
        RdapResponseView::Nameserver(n) => match n.ldh_name {
            Some(k) => Some(Key::Nameserver(k)),
            None => None,
        },
        RdapResponseView::Autnum(a) => match autnum_span(a) {
            Some(sp) => Some(Key::Autnum(sp)),
            None => None,
        },
        RdapResponseView::Network(n) => match network_key(n) {
            Some(k) => Some(Key::Network(k)),
            None => None,
        },
        RdapResponseView::ErrorResponse(_) => None,
        RdapResponseView::Help(_) => None,
    }
}

/// The contents of a store.
///
/// Domains, entities and nameservers are held under their names; autnums
/// and networks under the ranges they stand for, IPv4 and IPv6 networks
/// apart.
#[verifier::ext_equal]
pub struct StoreView {
    pub domains: Map<Seq<char>, DomainView>,
    pub entities: Map<Seq<char>, EntityView>,
    pub nameservers: Map<Seq<char>, NameserverView>,
    pub autnums: Map<Span, AutnumView>,
    pub networks4: Map<Span, NetworkView>,
    pub networks6: Map<Span, NetworkView>,
}

/// What becomes of a store when one record is written to it.
pub enum Written {
    /// The record was stored; this is the store that holds it.
    Stored(StoreView),
    /// The record does not name its key.
    Malformed,
    /// The record's range overlaps a different range of the store.
    Conflict,
}

impl StoreView {
    /// The store that holds nothing.
    pub open spec fn empty() -> StoreView {
        StoreView {
            domains: Map::empty(),
            entities: Map::empty(),
            nameservers: Map::empty(),
            autnums: Map::empty(),
            networks4: Map::empty(),
            networks6: Map::empty(),
        }
    }

    /// Every record is held under its own key, there are finitely many
    /// records, and no two ranges of one kind overlap.
    pub open spec fn valid(self) -> bool {
        &&& self.domains.dom().finite()
        &&& self.entities.dom().finite()
        &&& self.nameservers.dom().finite()
        &&& forall|k: Seq<char>| #[trigger]
            self.domains.contains_key(k) ==> self.domains[k].ldh_name == Some(k)
        &&& forall|k: Seq<char>| #[trigger]
            self.entities.contains_key(k) ==> self.entities[k].object_common.handle == Some(k)
        &&& forall|k: Seq<char>| #[trigger]
            self.nameservers.contains_key(k) ==> self.nameservers[k].ldh_name == Some(k)
        &&& disjoint_keys(self.autnums)
        &&& forall|sp: Span| #[trigger]
            self.autnums.contains_key(sp) ==> autnum_span(self.autnums[sp]) == Some(sp)
        &&& disjoint_keys(self.networks4)
        &&& forall|sp: Span| #[trigger]
            self.networks4.contains_key(sp) ==> network_key(self.networks4[sp]) == Some(
                NetworkKey { v4: true, span: sp },
            )
        &&& disjoint_keys(self.networks6)
        &&& forall|sp: Span| #[trigger]
            self.networks6.contains_key(sp) ==> network_key(self.networks6[sp]) == Some(
                NetworkKey { v4: false, span: sp },
            )
    }

    /// The number of records in the store.
    pub open spec fn len(self) -> nat {
        self.domains.len() + self.entities.len() + self.nameservers.len() + self.autnums.len()
            + self.networks4.len() + self.networks6.len()
    }

    /// The networks of one address family.
    pub open spec fn networks(self, v4: bool) -> Map<Span, NetworkView> {
        if v4 {
            self.networks4
        } else {
            self.networks6
        }
    }

    /// The domain held under `ldh`.
    pub open spec fn domain(self, ldh: Seq<char>) -> Option<RdapResponseView> {
        if self.domains.contains_key(ldh) {
            Some(RdapResponseView::Domain(self.domains[ldh]))
        } else {
            None
        }
    }

    /// The entity held under `handle`.
    pub open spec fn entity(self, handle: Seq<char>) -> Option<RdapResponseView> {
        if self.entities.contains_key(handle) {
            Some(RdapResponseView::Entity(self.entities[handle]))
        } else {
            None
        }
    }

    /// The nameserver held under `ldh`.
    pub open spec fn nameserver(self, ldh: Seq<char>) -> Option<RdapResponseView> {
        if self.nameservers.contains_key(ldh) {
            Some(RdapResponseView::Nameserver(self.nameservers[ldh]))
        } else {
            None
        }
    }

    /// The autnum whose range contains `number`.
    pub open spec fn autnum(self, number: u32) -> Option<RdapResponseView> {
        match covering(self.autnums, number as u128) {
            Some(sp) => Some(RdapResponseView::Autnum(self.autnums[sp])),
            None => None,
        }
    }

    /// The network whose range contains `addr`.
    pub open spec fn network_by_ip(self, addr: IpAddress) -> Option<RdapResponseView> {
        match covering(self.networks(addr.is_v4()), addr.number()) {
            Some(sp) => Some(RdapResponseView::Network(self.networks(addr.is_v4())[sp])),
            None => None,
        }
    }

    /// The network whose range is exactly the block `cidr`.
    pub open spec fn network_by_cidr(self, cidr: IpCidr) -> Option<RdapResponseView> {
        let nets = self.networks(cidr.network().is_v4());
        if nets.contains_key(cidr.span()) {
            Some(RdapResponseView::Network(nets[cidr.span()]))
        } else {
            None
        }
    }

    /// The record held under exactly `key`.
    pub open spec fn at(self, key: Key) -> Option<RdapResponseView> {
        match key {
            Key::Domain(k) => self.domain(k),
            Key::Entity(k) => self.entity(k),
            Key::Nameserver(k) => self.nameserver(k),
            Key::Autnum(sp) => if self.autnums.contains_key(sp) {
                Some(RdapResponseView::Autnum(self.autnums[sp]))
            } else {
                None
            },
            Key::Network(k) => if self.networks(k.v4).contains_key(k.span) {
                Some(RdapResponseView::Network(self.networks(k.v4)[k.span]))
            } else {
                None
            },
        }
    }

    /// Writing a domain: under its LDH name, in place of what was there.
    pub open spec fn with_domain(self, d: DomainView) -> Written {
        match d.ldh_name {
            Some(k) => Written::Stored(StoreView { domains: self.domains.insert(k, d), ..self }),
            None => Written::Malformed,
        }
    }

    /// Writing an entity: under its handle, in place of what was there.
    pub open spec fn with_entity(self, e: EntityView) -> Written {
        match e.object_common.handle {
            Some(k) => Written::Stored(StoreView { entities: self.entities.insert(k, e), ..self }),
            None => Written::Malformed,
        }
    }

    /// Writing a nameserver: under its LDH name, in place of what was there.
    pub open spec fn with_nameserver(self, n: NameserverView) -> Written {
        match n.ldh_name {
            Some(k) => Written::Stored(
                StoreView { nameservers: self.nameservers.insert(k, n), ..self },
            ),
            None => Written::Malformed,
        }
    }

    /// Writing an autnum: under its range, in place of what was stored
    /// under the same range, unless it overlaps a different range.
    pub open spec fn with_autnum(self, a: AutnumView) -> Written {
        match autnum_span(a) {
            Some(sp) => if admits(self.autnums, sp) {
                Written::Stored(StoreView { autnums: self.autnums.insert(sp, a), ..self })
            } else {
                Written::Conflict
            },
            None => Written::Malformed,
        }
    }

    /// Writing a network: under its range, in place of what was stored
    /// under the same range, unless it overlaps a different range of its
    /// address family.
    pub open spec fn with_network(self, n: NetworkView) -> Written {
        match network_key(n) {
            Some(key) => if !admits(self.networks(key.v4), key.span) {
                Written::Conflict
            } else if key.v4 {
                Written::Stored(StoreView { networks4: self.networks4.insert(key.span, n), ..self })
            } else {
                Written::Stored(StoreView { networks6: self.networks6.insert(key.span, n), ..self })
            },
            None => Written::Malformed,
        }
    }

    /// Writing a record of any kind. Only the five kinds of registration
    /// object can be stored.
    pub open spec fn with_response(self, r: RdapResponseView) -> Written {
        match r {
            RdapResponseView::Entity(e) => self.with_entity(e),
            RdapResponseView::Domain(d) => self.with_domain(d),
            RdapResponseView::Nameserver(n) => self.with_nameserver(n),
            RdapResponseView::Autnum(a) => self.with_autnum(a),
            RdapResponseView::Network(n) => self.with_network(n),
            RdapResponseView::ErrorResponse(_) => Written::Malformed,
            RdapResponseView::Help(_) => Written::Malformed,
        }
    }

    /// Writing the records `rs` one after the other. The first that is
    /// refused decides the outcome.
    pub open spec fn with_all(self, rs: Seq<RdapResponseView>) -> Written
        decreases rs.len(),
    {
        if rs.len() == 0 {
            Written::Stored(self)
        } else {
            match self.with_response(rs[0]) {
                Written::Stored(v) => v.with_all(rs.skip(1)),
                refused => refused,
            }
        }
    }

    /// Every range of `staged` may be stored in this store.
    pub open spec fn admits(self, staged: StoreView) -> bool {
        &&& admits_all(self.autnums, staged.autnums)
        &&& admits_all(self.networks4, staged.networks4)
        &&& admits_all(self.networks6, staged.networks6)
    }

    /// This store with every record of `staged` written to it, each in
    /// place of what was held under the same key.
    pub open spec fn merge(self, staged: StoreView) -> StoreView {
        StoreView {
            domains: self.domains.union_prefer_right(staged.domains),
            entities: self.entities.union_prefer_right(staged.entities),
            nameservers: self.nameservers.union_prefer_right(staged.nameservers),
            autnums: self.autnums.union_prefer_right(staged.autnums),
            networks4: self.networks4.union_prefer_right(staged.networks4),
            networks6: self.networks6.union_prefer_right(staged.networks6),
        }
    }
}

/// A write reported `r` and turned the store `before` into `after`, as the
/// outcome `w` asks: stored, or refused as malformed or as a conflict with
/// the store left as it was.
pub open spec fn written(
    r: Result<(), RdapServerError>,
    before: StoreView,
    after: StoreView,
    w: Written,
) -> bool {
    match w {
        Written::Stored(v) => r is Ok && after == v,
        Written::Malformed => r is Err && r->Err_0 is Config && after == before,
        Written::Conflict => r is Err && r->Err_0 is Backend && after == before,
    }
}

/// Writing a domain to a valid store leaves a valid store.
pub proof fn lemma_with_domain_valid(s: StoreView, d: DomainView)
    requires
        s.valid(),
    ensures
        s.with_domain(d) matches Written::Stored(v) ==> v.valid(),
{
}

/// Writing an entity to a valid store leaves a valid store.
pub proof fn lemma_with_entity_valid(s: StoreView, e: EntityView)
    requires
        s.valid(),
    ensures
        s.with_entity(e) matches Written::Stored(v) ==> v.valid(),
{
}

/// Writing a nameserver to a valid store leaves a valid store.
pub proof fn lemma_with_nameserver_valid(s: StoreView, n: NameserverView)
    requires
        s.valid(),
    ensures
        s.with_nameserver(n) matches Written::Stored(v) ==> v.valid(),
{
}

/// Writing an autnum to a valid store leaves a valid store.
pub proof fn lemma_with_autnum_valid(s: StoreView, a: AutnumView)
    requires
        s.valid(),
    ensures
        s.with_autnum(a) matches Written::Stored(v) ==> v.valid(),
{
    if let Written::Stored(v) = s.with_autnum(a) {
        lemma_insert_keeps_disjoint(s.autnums, autnum_span(a)->0, a);
    }
}

/// Writing a network to a valid store leaves a valid store.
pub proof fn lemma_with_network_valid(s: StoreView, n: NetworkView)
    requires
        s.valid(),
    ensures
        s.with_network(n) matches Written::Stored(v) ==> v.valid(),
{
    if let Written::Stored(v) = s.with_network(n) {
        let key = network_key(n)->0;
        lemma_insert_keeps_disjoint(s.networks(key.v4), key.span, n);
    }
}

/// Writing a record of any kind to a valid store leaves a valid store.
pub proof fn lemma_with_response_valid(s: StoreView, r: RdapResponseView)
    requires
        s.valid(),
    ensures
        s.with_response(r) matches Written::Stored(v) ==> v.valid(),
{
    match r {
        RdapResponseView::Entity(e) => lemma_with_entity_valid(s, e),
        RdapResponseView::Domain(d) => lemma_with_domain_valid(s, d),
        RdapResponseView::Nameserver(n) => lemma_with_nameserver_valid(s, n),
        RdapResponseView::Autnum(a) => lemma_with_autnum_valid(s, a),
        RdapResponseView::Network(n) => lemma_with_network_valid(s, n),
        RdapResponseView::ErrorResponse(_) => {},
        RdapResponseView::Help(_) => {},
    }
}

/// Writing a list of one record is writing that record.
pub proof fn lemma_with_one(s: StoreView, r: RdapResponseView)
    ensures
        s.with_all(seq![r]) == s.with_response(r),
{
    reveal_with_fuel(StoreView::with_all, 2);
    assert(seq![r].skip(1) =~= Seq::<RdapResponseView>::empty());
}

/// Writing a list of records is writing the first and then the rest.
pub proof fn lemma_with_all_step(s: StoreView, rs: Seq<RdapResponseView>, i: int)
    requires
        0 <= i < rs.len(),
    ensures
        s.with_all(rs.skip(i)) == (match s.with_response(rs[i]) {
            Written::Stored(v) => v.with_all(rs.skip(i + 1)),
            refused => refused,
        }),
{
    assert(rs.skip(i)[0] == rs[i]);
    assert(rs.skip(i).skip(1) =~= rs.skip(i + 1));
}

/// The union of two maps with disjoint keys, the first of which admits
/// every key of the second, has disjoint keys.
pub proof fn lemma_union_keeps_disjoint<V>(m: Map<Span, V>, other: Map<Span, V>)
    requires
        disjoint_keys(m),
        disjoint_keys(other),
        admits_all(m, other),
    ensures
        disjoint_keys(m.union_prefer_right(other)),
{
    let u = m.union_prefer_right(other);
    assert(u.dom() =~= m.dom().union(other.dom()));
    assert forall|a: Span, b: Span|
        #![trigger u.contains_key(a), u.contains_key(b)]
        u.contains_key(a) && u.contains_key(b) && a != b implies !a.overlaps(b) by {
        if other.contains_key(a) && m.contains_key(b) {
            assert(admits(m, a));
        } else if other.contains_key(b) && m.contains_key(a) {
            assert(admits(m, b));
        }
    }
}

/// Merging a valid batch into a valid store that admits it leaves a valid
/// store.
pub proof fn lemma_merge_valid(s: StoreView, staged: StoreView)
    requires
        s.valid(),
        staged.valid(),
        s.admits(staged),
    ensures
        s.merge(staged).valid(),
{
    let m = s.merge(staged);
    assert(m.domains.dom() =~= s.domains.dom().union(staged.domains.dom()));
    assert(m.entities.dom() =~= s.entities.dom().union(staged.entities.dom()));
    assert(m.nameservers.dom() =~= s.nameservers.dom().union(staged.nameservers.dom()));
    lemma_union_keeps_disjoint(s.autnums, staged.autnums);
    lemma_union_keeps_disjoint(s.networks4, staged.networks4);
    lemma_union_keeps_disjoint(s.networks6, staged.networks6);
}

} // verus!
