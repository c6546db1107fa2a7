//! Identifiers, templates, and the files that an engine is started from.
//!
//! A template holds one record as a prototype and a list of identifiers;
//! it stands for one record per identifier, the prototype with its key
//! fields replaced by those of the identifier.

use crate::ip::{IpAddress, IpCidr};
use crate::response::{
    Autnum, AutnumView, Domain, DomainView, Entity, EntityView, Nameserver, NameserverView,
    Network, NetworkView, ObjectCommonView, RdapResponse, RdapResponseView,
};
use crate::storage::model::{StoreView, Written};
use vstd::prelude::*;

verus! {

/// The key of a domain.
pub struct DomainId {
    pub ldh_name: String,
}

/// The key of an entity.
pub struct EntityId {
    pub handle: String,
}

/// The key of a nameserver.
pub struct NameserverId {
    pub ldh_name: String,
}

/// The key of an autnum: a range of numbers, both ends included.
#[derive(Clone, Copy, Debug, PartialEq, Eq)]
pub struct AutnumId {
    pub start_autnum: u32,
    pub end_autnum: u32,
}

/// The two ways to name the addresses of a network.
#[derive(Clone, Copy, Debug, PartialEq, Eq)]
pub enum NetworkIdType {
    Cidr(IpCidr),
    Range { start_address: IpAddress, end_address: IpAddress },
}

/// The key of a network.
#[derive(Clone, Copy, Debug, PartialEq, Eq)]
pub struct NetworkId {
    pub network_id: NetworkIdType,
}

/// The start of the key of a domain.
pub struct DomainIdBuilder {}

/// The start of the key of an entity.
pub struct EntityIdBuilder {}

/// The start of the key of a nameserver.
pub struct NameserverIdBuilder {}

/// The start of the key of an autnum.
pub struct AutnumIdBuilder {}

/// The key of an autnum that still lacks its last number.
pub struct AutnumIdStart {
    pub start_autnum: u32,
}

/// The start of the key of a network.
pub struct NetworkIdBuilder {}

/// A key that is ready to be built.
pub struct Ready<T> {
    pub id: T,
}

impl<T> Ready<T> {
    /// The key.
    pub fn build(self) -> (r: T)
        ensures
            r == self.id,
    {
        self.id
    }
}

impl DomainIdBuilder {
    /// Names the domain.
    pub fn ldh_name(self, ldh_name: &str) -> (r: Ready<DomainId>)
        ensures
            r.id.ldh_name@ == ldh_name@,
    {
        Ready { id: DomainId { ldh_name: ldh_name.to_owned() } }
    }
}

impl EntityIdBuilder {
    /// Names the entity.
    pub fn handle(self, handle: &str) -> (r: Ready<EntityId>)
        ensures
            r.id.handle@ == handle@,
    {
        Ready { id: EntityId { handle: handle.to_owned() } }
    }
}

impl NameserverIdBuilder {
    /// Names the nameserver.
    pub fn ldh_name(self, ldh_name: &str) -> (r: Ready<NameserverId>)
        ensures
            r.id.ldh_name@ == ldh_name@,
    {
        Ready { id: NameserverId { ldh_name: ldh_name.to_owned() } }
    }
}

impl AutnumIdBuilder {
    /// Names the first number of the range.
    pub fn start_autnum(self, start_autnum: u32) -> (r: AutnumIdStart)
        ensures
            r.start_autnum == start_autnum,
    {
        AutnumIdStart { start_autnum }
    }
}

impl AutnumIdStart {
    /// Names the last number of the range.
    pub fn end_autnum(self, end_autnum: u32) -> (r: Ready<AutnumId>)
        ensures
            r.id == (AutnumId { start_autnum: self.start_autnum, end_autnum }),
    {
        Ready { id: AutnumId { start_autnum: self.start_autnum, end_autnum } }
    }
}

impl NetworkIdBuilder {
    /// Names the addresses.
    pub fn network_id(self, network_id: NetworkIdType) -> (r: Ready<NetworkId>)
        ensures
            r.id == (NetworkId { network_id }),
    {
        Ready { id: NetworkId { network_id } }
    }
}

impl DomainId {
    /// Starts the key of a domain.
    pub fn builder() -> DomainIdBuilder {
        DomainIdBuilder {  }
    }

    /// The prototype with the LDH name of this identifier.
    pub open spec fn stamp(self, proto: DomainView) -> DomainView {
        DomainView { ldh_name: Some(self.ldh_name@), ..proto }
    }

    /// A copy of the prototype with the LDH name of this identifier.
    pub fn stamped(&self, proto: &Domain) -> (r: Domain)
        ensures
            r@ == self.stamp(proto@),
    {
        let mut r = proto.clone();
        r.ldh_name = Some(self.ldh_name.clone());
        r
    }
}

impl EntityId {
    /// Starts the key of an entity.
    pub fn builder() -> EntityIdBuilder {
        EntityIdBuilder {  }
    }

    /// The prototype with the handle of this identifier.
    pub open spec fn stamp(self, proto: EntityView) -> EntityView {
        EntityView {
            object_common: ObjectCommonView { handle: Some(self.handle@), ..proto.object_common },
            ..proto
        }
    }

    /// A copy of the prototype with the handle of this identifier.
    pub fn stamped(&self, proto: &Entity) -> (r: Entity)
        ensures
            r@ == self.stamp(proto@),
    {
        let mut r = proto.clone();
        r.object_common.handle = Some(self.handle.clone());
        r
    }
}

impl NameserverId {
    /// Starts the key of a nameserver.
    pub fn builder() -> NameserverIdBuilder {
        NameserverIdBuilder {  }
    }

    /// The prototype with the LDH name of this identifier.
    pub open spec fn stamp(self, proto: NameserverView) -> NameserverView {
        NameserverView { ldh_name: Some(self.ldh_name@), ..proto }
    }

    /// A copy of the prototype with the LDH name of this identifier.
    pub fn stamped(&self, proto: &Nameserver) -> (r: Nameserver)
        ensures
            r@ == self.stamp(proto@),
    {
        let mut r = proto.clone();
        r.ldh_name = Some(self.ldh_name.clone());
        r
    }
}

impl AutnumId {
    /// Starts the key of an autnum.
    pub fn builder() -> AutnumIdBuilder {
        AutnumIdBuilder {  }
    }

    /// The prototype with the range of this identifier.
    pub open spec fn stamp(self, proto: AutnumView) -> AutnumView {
        AutnumView {
            start_autnum: Some(self.start_autnum),
            end_autnum: Some(self.end_autnum),
            ..proto
        }
    }

    /// A copy of the prototype with the range of this identifier.
    pub fn stamped(&self, proto: &Autnum) -> (r: Autnum)
        ensures
            r@ == self.stamp(proto@),
    {
        let mut r = proto.clone();
        r.start_autnum = Some(self.start_autnum);
        r.end_autnum = Some(self.end_autnum);
        r
    }
}

impl NetworkId {
    /// Starts the key of a network.
    pub fn builder() -> NetworkIdBuilder {
        NetworkIdBuilder {  }
    }

    /// The first address that this identifier names.
    pub open spec fn first(self) -> IpAddress {
        match self.network_id {
            NetworkIdType::Cidr(c) => c.network(),
            NetworkIdType::Range { start_address, end_address } => start_address,
        }
    }

    /// The last address that this identifier names.
    pub open spec fn last(self) -> IpAddress {
        match self.network_id {
            NetworkIdType::Cidr(c) => c.last(),
            NetworkIdType::Range { start_address, end_address } => end_address,
        }
    }

    /// The prototype with the first and last address of this identifier.
    pub open spec fn stamp(self, proto: NetworkView) -> NetworkView {
        NetworkView { start_address: Some(self.first()), end_address: Some(self.last()), ..proto }
    }

    /// A copy of the prototype with the first and last address of this
    /// identifier.
    pub fn stamped(&self, proto: &Network) -> (r: Network)
        ensures
            r@ == self.stamp(proto@),
    {
        let mut r = proto.clone();
        match self.network_id {
            NetworkIdType::Cidr(c) => {
                r.start_address = Some(c.first_address());
                r.end_address = Some(c.last_address());
            },
            NetworkIdType::Range { start_address, end_address } => {
                r.start_address = Some(start_address);
                r.end_address = Some(end_address);
            },
        }
        r
    }
}

/// One prototype record and the identifiers of the records it stands for.
#[allow(inconsistent_fields)]
pub enum Template {
    Domain { domain: Domain, ids: Vec<DomainId> },
    Entity { entity: Entity, ids: Vec<EntityId> },
    Nameserver { nameserver: Nameserver, ids: Vec<NameserverId> },
    Autnum { autnum: Autnum, ids: Vec<AutnumId> },
    Network { network: Network, ids: Vec<NetworkId> },
}

/// The views of a list of records.
pub open spec fn views(rs: Seq<RdapResponse>) -> Seq<RdapResponseView> {
    rs.map_values(|r: RdapResponse| r@)
}

impl Template {
    /// The number of identifiers.
    pub open spec fn count(self) -> nat {
        match self {
            Template::Domain { domain, ids } => ids@.len(),
            Template::Entity { entity, ids } => ids@.len(),
            Template::Nameserver { nameserver, ids } => ids@.len(),
            Template::Autnum { autnum, ids } => ids@.len(),
            Template::Network { network, ids } => ids@.len(),
        }
    }

    /// The record that the template stands for at identifier `i`.
    pub open spec fn record(self, i: int) -> RdapResponseView {
        match self {
            Template::Domain { domain, ids } => RdapResponseView::Domain(ids@[i].stamp(domain@)),
            Template::Entity { entity, ids } => RdapResponseView::Entity(ids@[i].stamp(entity@)),
            Template::Nameserver { nameserver, ids } => RdapResponseView::Nameserver(
                ids@[i].stamp(nameserver@),
            ),
            Template::Autnum { autnum, ids } => RdapResponseView::Autnum(ids@[i].stamp(autnum@)),
            Template::Network { network, ids } => RdapResponseView::Network(
                ids@[i].stamp(network@),
            ),
        }
    }

    /// The records that the template stands for, in the order of its
    /// identifiers.
    pub open spec fn expansion(self) -> Seq<RdapResponseView> {
        Seq::new(self.count(), |i: int| self.record(i))
    }

    /// The records that the template stands for: one per identifier, in
    /// their order, each the prototype with the identifier's key fields.
    pub fn expand(&self) -> (r: Vec<RdapResponse>)
        ensures
            views(r@) == self.expansion(),
    {
        let mut out: Vec<RdapResponse> = Vec::new();
        match self {
            Template::Domain { domain, ids } => {
                let mut i: usize = 0;
                while i < ids.len()
                    invariant
                        i <= ids.len(),
                        out.len() == i,
                        *self matches Template::Domain { domain: d, ids: s } && d == domain && s
                            == ids,
                        forall|j: int| 0 <= j < i ==> (#[trigger] out[j])@ == self.record(j),
                    decreases ids.len() - i,
                {
                    out.push(RdapResponse::Domain(ids[i].stamped(domain)));
                    i += 1;
                }
            },
            Template::Entity { entity, ids } => {
                let mut i: usize = 0;
                while i < ids.len()
                    invariant
                        i <= ids.len(),
                        out.len() == i,
                        *self matches Template::Entity { entity: d, ids: s } && d == entity && s
                            == ids,
                        forall|j: int| 0 <= j < i ==> (#[trigger] out[j])@ == self.record(j),
                    decreases ids.len() - i,
                {
                    out.push(RdapResponse::Entity(ids[i].stamped(entity)));
                    i += 1;
                }
            },
            Template::Nameserver { nameserver, ids } => {
                let mut i: usize = 0;
                while i < ids.len()
                    invariant
                        i <= ids.len(),
                        out.len() == i,
                        *self matches Template::Nameserver { nameserver: d, ids: s } && d
                            == nameserver && s == ids,
                        forall|j: int| 0 <= j < i ==> (#[trigger] out[j])@ == self.record(j),
                    decreases ids.len() - i,
                {
                    out.push(RdapResponse::Nameserver(ids[i].stamped(nameserver)));
                    i += 1;
                }
            },
            Template::Autnum { autnum, ids } => {
                let mut i: usize = 0;
                while i < ids.len()
                    invariant
                        i <= ids.len(),
                        out.len() == i,
                        *self matches Template::Autnum { autnum: d, ids: s } && d == autnum && s
                            == ids,
                        forall|j: int| 0 <= j < i ==> (#[trigger] out[j])@ == self.record(j),
                    decreases ids.len() - i,
                {
                    out.push(RdapResponse::Autnum(ids[i].stamped(autnum)));
                    i += 1;
                }
            },
            Template::Network { network, ids } => {
                let mut i: usize = 0;
                while i < ids.len()
                    invariant
                        i <= ids.len(),
                        out.len() == i,
                        *self matches Template::Network { network: d, ids: s } && d == network && s
                            == ids,
                        forall|j: int| 0 <= j < i ==> (#[trigger] out[j])@ == self.record(j),
                    decreases ids.len() - i,
                {
                    out.push(RdapResponse::Network(ids[i].stamped(network)));
                    i += 1;
                }
            },
        }
        assert(views(out@) =~= self.expansion());
        out
    }
}

/// What the name of a file says of what it holds.
#[derive(Clone, Copy, Debug, PartialEq, Eq, Structural)]
pub enum FileKind {
    /// One record: the name ends in `.json`.
    Record,
    /// One template: the name ends in `.template`.
    Template,
    /// The name says nothing.
    Other,
}

/// The text ends with the suffix.
pub open spec fn has_suffix(text: Seq<char>, suffix: Seq<char>) -> bool {
    text.len() >= suffix.len() && text.subrange(text.len() - suffix.len(), text.len() as int)
        == suffix
}

/// The name of the file ends with the suffix, and the file has a name of
/// at least one character before it.
pub open spec fn has_extension(name: Seq<char>, suffix: Seq<char>) -> bool {
    has_suffix(name, suffix) && name.len() > suffix.len() && name[name.len() - suffix.len() - 1]
        != '/'
}

/// What the name of a file says of what it holds.
pub open spec fn kind_of(name: Seq<char>) -> FileKind {
    if has_extension(name, ".template"@) {
        FileKind::Template
    } else if has_extension(name, ".json"@) {
        FileKind::Record
    } else {
        FileKind::Other
    }
}

/// Whether the name of the file ends with the suffix, behind a name of at
/// least one character.
fn ends_in(name: &str, suffix: &str) -> (r: bool)
    ensures
        r == has_extension(name@, suffix@),
{
    let n = name.unicode_len();
    let m = suffix.unicode_len();
    if n <= m {
        return false;
    }
    if name.get_char(n - m - 1) == '/' {
        return false;
    }
    let ghost tail = name@.subrange(n - m, n as int);
    let mut i: usize = 0;
    while i < m
        invariant
            i <= m < n,
            n == name@.len(),
            m == suffix@.len(),
            tail == name@.subrange(n - m, n as int),
            forall|j: int| 0 <= j < i ==> tail[j] == suffix@[j],
        decreases m - i,
    {
        if name.get_char(n - m + i) != suffix.get_char(i) {
            assert(tail[i as int] != suffix@[i as int]);
            return false;
        }
        i += 1;
    }
    assert(tail =~= suffix@);
    true
}

/// What the name of a file says of what it holds: a template where it ends
/// in `.template`, a record where it ends in `.json`.
pub fn file_kind(name: &str) -> (k: FileKind)
    ensures
        k == kind_of(name@),
{
    if ends_in(name, ".template") {
        FileKind::Template
    } else if ends_in(name, ".json") {
        FileKind::Record
    } else {
        FileKind::Other
    }
}

/// What was read from one file of a state directory.
pub enum StateFileContent {
    /// The file holds one record.
    Record(RdapResponse),
    /// The file holds one template.
    Template(Template),
    /// The file should hold a record or a template and holds neither.
    Malformed,
    /// The file is no file of records.
    Unrecognized,
}

/// One file of a state directory.
pub struct StateFile {
    pub name: String,
    pub content: StateFileContent,
}

impl StateFile {
    /// The records that the file asks to store, unless it is malformed.
    pub open spec fn records(self) -> Option<Seq<RdapResponseView>> {
        match self.content {
            StateFileContent::Record(r) => Some(seq![r@]),
            StateFileContent::Template(t) => Some(t.expansion()),
            StateFileContent::Malformed => None,
            StateFileContent::Unrecognized => Some(Seq::empty()),
        }
    }
}

/// What becomes of a batch of staged records when files are staged on top.
pub enum Loaded {
    /// Every file was staged; these are the staged records.
    Staged(StoreView),
    /// The file at this place could not be staged.
    Failed(int),
}

/// Staging the files from place `from` on, in their order, on top of the
/// staged records `start`. The first file that is malformed, or holds a
/// record that is refused, ends it.
pub open spec fn staging(start: StoreView, files: Seq<StateFile>, from: int) -> Loaded
    decreases files.len() - from,
{
    if from < 0 || from >= files.len() {
        Loaded::Staged(start)
    } else {
        match files[from].records() {
            None => Loaded::Failed(from),
            Some(rs) => match start.with_all(rs) {
                Written::Stored(v) => staging(v, files, from + 1),
                _ => Loaded::Failed(from),
            },
        }
    }
}

/// The message that reports the file that could not be staged.
pub open spec fn load_failure(name: Seq<char>) -> Seq<char> {
    "cannot load state from "@ + name
}

} // verus!
