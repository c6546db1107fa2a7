//! The six indices of the in-memory engine: one map from names for each of
//! domains, entities and nameservers, and one interval index for each of
//! autnums, IPv4 networks and IPv6 networks.

use crate::error::RdapServerError;
use crate::ip::{IpAddress, IpCidr};
use crate::rdap::response::ArcRdapResponse;
use crate::response::{Autnum, Domain, Entity, Nameserver, Network, RdapResponseView};
use crate::storage::mem::interval::{
    admits, admits_all, disjoint_keys, lemma_covering_unique, IntervalMap, Span,
};
use crate::storage::model::{
    lemma_merge_valid, lemma_with_autnum_valid, lemma_with_network_valid, written, StoreView,
};
use std::sync::Arc;
use vstd::hash_map::StringHashMap;
use vstd::prelude::*;

verus! {

/// `Arc::clone`: another handle to the value that `a` holds.
#[verifier::external_body]
fn share<T>(a: &Arc<T>) -> (r: Arc<T>)
    ensures
        r == *a,
{
    Arc::clone(a)
}

/// The views of the shared values of a map.
pub open spec fn arc_views<K, T: View>(m: Map<K, Arc<T>>) -> Map<K, T::V> {
    m.map_values(|a: Arc<T>| a@)
}

/// Inserting a shared value inserts its view.
pub proof fn lemma_arc_views_insert<K, T: View>(m: Map<K, Arc<T>>, k: K, v: Arc<T>)
    ensures
        arc_views(m.insert(k, v)) == arc_views(m).insert(k, v@),
{
    assert(arc_views(m.insert(k, v)) =~= arc_views(m).insert(k, v@));
}

/// The views of a union are the union of the views.
pub proof fn lemma_arc_views_union<K, T: View>(m: Map<K, Arc<T>>, other: Map<K, Arc<T>>)
    ensures
        arc_views(m.union_prefer_right(other)) == arc_views(m).union_prefer_right(arc_views(other)),
{
    assert(arc_views(m.union_prefer_right(other)) =~= arc_views(m).union_prefer_right(
        arc_views(other),
    ));
}

/// Which intervals a map admits depends on its keys alone.
pub proof fn lemma_arc_views_spans<T: View>(m: Map<Span, Arc<T>>, other: Map<Span, Arc<T>>)
    ensures
        disjoint_keys(arc_views(m)) == disjoint_keys(m),
        admits_all(arc_views(m), arc_views(other)) == admits_all(m, other),
        forall|sp: Span| admits(arc_views(m), sp) == admits(m, sp),
{
    let vm = arc_views(m);
    let vo = arc_views(other);
    assert(vm.dom() =~= m.dom());
    assert(vo.dom() =~= other.dom());
    assert forall|sp: Span| admits(vm, sp) == admits(m, sp) by {
        if admits(m, sp) {
            assert forall|a: Span| #[trigger] vm.contains_key(a) && a != sp implies !a.overlaps(sp) by {
                assert(m.contains_key(a));
            }
        }
        if admits(vm, sp) {
            assert forall|a: Span| #[trigger] m.contains_key(a) && a != sp implies !a.overlaps(sp) by {
                assert(vm.contains_key(a));
            }
        }
    }
    if disjoint_keys(m) {
        assert forall|a: Span| #[trigger] vm.contains_key(a) implies a.valid() by {
            assert(m.contains_key(a));
        }
        assert forall|a: Span, b: Span|
            #![trigger vm.contains_key(a), vm.contains_key(b)]
            vm.contains_key(a) && vm.contains_key(b) && a != b implies !a.overlaps(b) by {
            assert(m.contains_key(a) && m.contains_key(b));
        }
    }
    if disjoint_keys(vm) {
        assert forall|a: Span| #[trigger] m.contains_key(a) implies a.valid() by {
            assert(vm.contains_key(a));
        }
        assert forall|a: Span, b: Span|
            #![trigger m.contains_key(a), m.contains_key(b)]
            m.contains_key(a) && m.contains_key(b) && a != b implies !a.overlaps(b) by {
            assert(vm.contains_key(a) && vm.contains_key(b));
        }
    }
    if admits_all(m, other) {
        assert forall|sp: Span| #[trigger] vo.contains_key(sp) implies admits(vm, sp) by {
            assert(other.contains_key(sp));
        }
    }
    if admits_all(vm, vo) {
        assert forall|sp: Span| #[trigger] other.contains_key(sp) implies admits(m, sp) by {
            assert(vo.contains_key(sp));
        }
    }
}

/// What a lookup found, as a view.
pub open spec fn found(r: Option<ArcRdapResponse>) -> Option<RdapResponseView> {
    match r {
        Some(a) => Some(a@),
        None => None,
    }
}

/// The records of one store or of one transaction, each kind in its index.
pub struct Indices {
    domains: StringHashMap<Arc<Domain>>,
    entities: StringHashMap<Arc<Entity>>,
    nameservers: StringHashMap<Arc<Nameserver>>,
    autnums: IntervalMap<Arc<Autnum>>,
    ip4: IntervalMap<Arc<Network>>,
    ip6: IntervalMap<Arc<Network>>,
}

impl View for Indices {
    type V = StoreView;

    closed spec fn view(&self) -> StoreView {
        StoreView {
            domains: arc_views(self.domains@),
            entities: arc_views(self.entities@),
            nameservers: arc_views(self.nameservers@),
            autnums: arc_views(self.autnums@),
            networks4: arc_views(self.ip4@),
            networks6: arc_views(self.ip6@),
        }
    }
}

impl Indices {
    #[verifier::type_invariant]
    spec fn inv(self) -> bool {
        self@.valid()
    }

    /// Indices that hold nothing.
    pub fn new() -> (r: Self)
        ensures
            r@ == StoreView::empty(),
    {
        let domains: StringHashMap<Arc<Domain>> = StringHashMap::new();
        let entities: StringHashMap<Arc<Entity>> = StringHashMap::new();
        let nameservers: StringHashMap<Arc<Nameserver>> = StringHashMap::new();
        let autnums: IntervalMap<Arc<Autnum>> = IntervalMap::new();
        let ip4: IntervalMap<Arc<Network>> = IntervalMap::new();
        let ip6: IntervalMap<Arc<Network>> = IntervalMap::new();
        proof {
            assert(arc_views(domains@) =~= Map::empty());
            assert(arc_views(entities@) =~= Map::empty());
            assert(arc_views(nameservers@) =~= Map::empty());
            assert(arc_views(autnums@) =~= Map::empty());
            assert(arc_views(ip4@) =~= Map::empty());
            assert(arc_views(ip6@) =~= Map::empty());
        }
        Indices { domains, entities, nameservers, autnums, ip4, ip6 }
    }

    /// Tells the caller that every record is held under its own key and
    /// that no two ranges of one kind overlap. Costs nothing at run time.
    pub fn known_valid(&self)
        ensures
            self@.valid(),
    {
        proof {
            use_type_invariant(self);
        }
    }

    /// The domain held under `ldh`.
    pub fn domain(&self, ldh: &str) -> (r: Option<ArcRdapResponse>)
        ensures
            self@.valid(),
            found(r) == self@.domain(ldh@),
    {
        proof {
            use_type_invariant(self);
        }
        match self.domains.get(ldh) {
            Some(d) => Some(ArcRdapResponse::Domain(share(d))),
            None => None,
        }
    }

    /// The entity held under `handle`.
    pub fn entity(&self, handle: &str) -> (r: Option<ArcRdapResponse>)
        ensures
            self@.valid(),
            found(r) == self@.entity(handle@),
    {
        proof {
            use_type_invariant(self);
        }
        match self.entities.get(handle) {
            Some(e) => Some(ArcRdapResponse::Entity(share(e))),
            None => None,
        }
    }

    /// The nameserver held under `ldh`.
    pub fn nameserver(&self, ldh: &str) -> (r: Option<ArcRdapResponse>)
        ensures
            self@.valid(),
            found(r) == self@.nameserver(ldh@),
    {
        proof {
            use_type_invariant(self);
        }
        match self.nameservers.get(ldh) {
            Some(n) => Some(ArcRdapResponse::Nameserver(share(n))),
            None => None,
        }
    }

    /// The autnum whose range contains `number`.
    pub fn autnum(&self, number: u32) -> (r: Option<ArcRdapResponse>)
        ensures
            self@.valid(),
            found(r) == self@.autnum(number),
    {
        proof {
            use_type_invariant(self);
        }
        match self.autnums.find(number as u128) {
            Some((sp, a)) => {
                proof {
                    lemma_covering_unique(self@.autnums, sp, number as u128);
                }
                Some(ArcRdapResponse::Autnum(share(a)))
            },
            None => {
                assert forall|a: Span| #[trigger] self@.autnums.contains_key(a) implies !a.contains(
                    number as u128,
                ) by {
                    assert(self.autnums@.contains_key(a));
                }
                None
            },
        }
    }

    /// The network whose range contains `addr`.
    pub fn network_by_ip(&self, addr: IpAddress) -> (r: Option<ArcRdapResponse>)
        ensures
            self@.valid(),
            found(r) == self@.network_by_ip(addr),
    {
        proof {
            use_type_invariant(self);
        }
        let index = if addr.is_ipv4() {
            &self.ip4
        } else {
            &self.ip6
        };
        let ghost nets = self@.networks(addr.is_v4());
        assert(nets == arc_views(index@));
        match index.find(addr.to_number()) {
            Some((sp, n)) => {
                proof {
                    lemma_covering_unique(nets, sp, addr.number());
                }
                Some(ArcRdapResponse::Network(share(n)))
            },
            None => {
                assert forall|a: Span| #[trigger] nets.contains_key(a) implies !a.contains(
                    addr.number(),
                ) by {
                    assert(index@.contains_key(a));
                }
                None
            },
        }
    }

    /// The network whose range is exactly the block `cidr`.
    pub fn network_by_cidr(&self, cidr: IpCidr) -> (r: Option<ArcRdapResponse>)
        ensures
            self@.valid(),
            found(r) == self@.network_by_cidr(cidr),
    {
        proof {
            use_type_invariant(self);
        }
        let index = if cidr.first_address().is_ipv4() {
            &self.ip4
        } else {
            &self.ip6
        };
        assert(self@.networks(cidr.network().is_v4()) == arc_views(index@));
        match index.get(cidr.to_span()) {
            Some(n) => Some(ArcRdapResponse::Network(share(n))),
            None => None,
        }
    }

    /// Writes a domain under its LDH name.
    pub fn put_domain(&mut self, domain: &Domain) -> (r: Result<(), RdapServerError>)
        ensures
            written(r, old(self)@, final(self)@, old(self)@.with_domain(domain@)),
            final(self)@.valid(),
    {
        proof {
            use_type_invariant(&*self);
        }
        match &domain.ldh_name {
            None => Err(RdapServerError::Config("domain without ldhName".to_owned())),
            Some(name) => {
                let record = Arc::new(domain.clone());
                let mut taken = Indices::new();
                std::mem::swap(self, &mut taken);
                let Indices { mut domains, entities, nameservers, autnums, ip4, ip6 } = taken;
                proof {
                    lemma_arc_views_insert(domains@, name@, record);
                }
                domains.insert(name.clone(), record);
                *self = Indices { domains, entities, nameservers, autnums, ip4, ip6 };
                Ok(())
            },
        }
    }

    /// Writes an entity under its handle.
    pub fn put_entity(&mut self, entity: &Entity) -> (r: Result<(), RdapServerError>)
        ensures
            written(r, old(self)@, final(self)@, old(self)@.with_entity(entity@)),
            final(self)@.valid(),
    {
        proof {
            use_type_invariant(&*self);
        }
        match &entity.object_common.handle {
            None => Err(RdapServerError::Config("entity without handle".to_owned())),
            Some(handle) => {
                let record = Arc::new(entity.clone());
                let mut taken = Indices::new();
                std::mem::swap(self, &mut taken);
                let Indices { domains, mut entities, nameservers, autnums, ip4, ip6 } = taken;
                proof {
                    lemma_arc_views_insert(entities@, handle@, record);
                }
                entities.insert(handle.clone(), record);
                *self = Indices { domains, entities, nameservers, autnums, ip4, ip6 };
                Ok(())
            },
        }
    }

    /// Writes a nameserver under its LDH name.
    pub fn put_nameserver(&mut self, nameserver: &Nameserver) -> (r: Result<(), RdapServerError>)
        ensures
            written(r, old(self)@, final(self)@, old(self)@.with_nameserver(nameserver@)),
            final(self)@.valid(),
    {
        proof {
            use_type_invariant(&*self);
        }
        match &nameserver.ldh_name {
            None => Err(RdapServerError::Config("nameserver without ldhName".to_owned())),
            Some(name) => {
                let record = Arc::new(nameserver.clone());
                let mut taken = Indices::new();
                std::mem::swap(self, &mut taken);
                let Indices { domains, entities, mut nameservers, autnums, ip4, ip6 } = taken;
                proof {
                    lemma_arc_views_insert(nameservers@, name@, record);
                }
                nameservers.insert(name.clone(), record);
                *self = Indices { domains, entities, nameservers, autnums, ip4, ip6 };
                Ok(())
            },
        }
    }

    /// Writes an autnum under its range, unless the range overlaps a
    /// different range of the index.
    pub fn put_autnum(&mut self, autnum: &Autnum) -> (r: Result<(), RdapServerError>)
        ensures
            written(r, old(self)@, final(self)@, old(self)@.with_autnum(autnum@)),
            final(self)@.valid(),
    {
        proof {
            use_type_invariant(&*self);
        }
        let (start, end) = match (autnum.start_autnum, autnum.end_autnum) {
            (Some(start), Some(end)) => (start, end),
            _ => { return Err(RdapServerError::Config("autnum without a range".to_owned())); },
        };
        if start > end {
            return Err(RdapServerError::Config("autnum range ends before it starts".to_owned()));
        }
        let span = Span { lo: start as u128, hi: end as u128 };
        let record = Arc::new(autnum.clone());
        let mut taken = Indices::new();
        std::mem::swap(self, &mut taken);
        let Indices { domains, entities, nameservers, mut autnums, ip4, ip6 } = taken;
        proof {
            lemma_arc_views_insert(autnums@, span, record);
            lemma_arc_views_spans(autnums@, autnums@);
            lemma_with_autnum_valid(old(self)@, autnum@);
        }
        let ok = autnums.insert(span, record);
        *self = Indices { domains, entities, nameservers, autnums, ip4, ip6 };
        if ok {
            Ok(())
        } else {
            Err(RdapServerError::Backend("autnum range overlaps another".to_owned()))
        }
    }

    /// Writes a network under its range, unless the range overlaps a
    /// different range of its address family.
    pub fn put_network(&mut self, network: &Network) -> (r: Result<(), RdapServerError>)
        ensures
            written(r, old(self)@, final(self)@, old(self)@.with_network(network@)),
            final(self)@.valid(),
    {
        proof {
            use_type_invariant(&*self);
        }
        let (start, end) = match (network.start_address, network.end_address) {
            (Some(start), Some(end)) => (start, end),
            _ => { return Err(RdapServerError::Config("network without a range".to_owned())); },
        };
        if start.is_ipv4() != end.is_ipv4() {
            return Err(RdapServerError::Config("network range mixes address families".to_owned()));
        }
        if start.to_number() > end.to_number() {
            return Err(RdapServerError::Config("network range ends before it starts".to_owned()));
        }
        let span = Span { lo: start.to_number(), hi: end.to_number() };
        let record = Arc::new(network.clone());
        let mut taken = Indices::new();
        std::mem::swap(self, &mut taken);
        let Indices { domains, entities, nameservers, autnums, mut ip4, mut ip6 } = taken;
        proof {
            lemma_arc_views_insert(ip4@, span, record);
            lemma_arc_views_insert(ip6@, span, record);
            lemma_arc_views_spans(ip4@, ip4@);
            lemma_arc_views_spans(ip6@, ip6@);
            lemma_with_network_valid(old(self)@, network@);
        }
        let ok = if start.is_ipv4() {
            ip4.insert(span, record)
        } else {
            ip6.insert(span, record)
        };
        *self = Indices { domains, entities, nameservers, autnums, ip4, ip6 };
        if ok {
            Ok(())
        } else {
            Err(RdapServerError::Backend("network range overlaps another".to_owned()))
        }
    }

    /// Whether every range of `other` may be stored in these indices.
    pub fn accepts(&self, other: &Indices) -> (r: bool)
        ensures
            r == self@.admits(other@),
    {
        proof {
            lemma_arc_views_spans(self.autnums@, other.autnums@);
            lemma_arc_views_spans(self.ip4@, other.ip4@);
            lemma_arc_views_spans(self.ip6@, other.ip6@);
        }
        self.autnums.accepts(&other.autnums) && self.ip4.accepts(&other.ip4) && self.ip6.accepts(
            &other.ip6,
        )
    }

    /// Takes over every record of `other`, each in place of what was held
    /// under the same key, if these indices admit every range of `other`;
    /// otherwise leaves them as they were.
    pub fn merge(&mut self, other: Indices) -> (ok: bool)
        ensures
            ok == old(self)@.admits(other@),
            final(self)@ == (if ok {
                old(self)@.merge(other@)
            } else {
                old(self)@
            }),
            final(self)@.valid(),
    {
        proof {
            use_type_invariant(&*self);
            use_type_invariant(&other);
        }
        if !self.accepts(&other) {
            return false;
        }
        let mut taken = Indices::new();
        std::mem::swap(self, &mut taken);
        let Indices { mut domains, mut entities, mut nameservers, mut autnums, mut ip4, mut ip6 } =
            taken;
        let Indices {
            domains: more_domains,
            entities: more_entities,
            nameservers: more_nameservers,
            autnums: more_autnums,
            ip4: more_ip4,
            ip6: more_ip6,
        } = other;
        proof {
            lemma_merge_valid(old(self)@, other@);
            lemma_arc_views_spans(autnums@, more_autnums@);
            lemma_arc_views_spans(ip4@, more_ip4@);
            lemma_arc_views_spans(ip6@, more_ip6@);
            lemma_arc_views_union(domains@, more_domains@);
            lemma_arc_views_union(entities@, more_entities@);
            lemma_arc_views_union(nameservers@, more_nameservers@);
            lemma_arc_views_union(autnums@, more_autnums@);
            lemma_arc_views_union(ip4@, more_ip4@);
            lemma_arc_views_union(ip6@, more_ip6@);
        }
        domains.union_prefer_right(more_domains);
        entities.union_prefer_right(more_entities);
        nameservers.union_prefer_right(more_nameservers);
        autnums.absorb(more_autnums);
        ip4.absorb(more_ip4);
        ip6.absorb(more_ip6);
        *self = Indices { domains, entities, nameservers, autnums, ip4, ip6 };
        true
    }
}

} // verus!
