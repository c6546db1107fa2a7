//! The records that the service answers with, one type for each kind of
//! registration object, and the mathematical view of each.

use crate::ip::IpAddress;
use vstd::prelude::*;

pub mod builders;

verus! {

/// The text of an optional string.
pub open spec fn text(o: Option<String>) -> Option<Seq<char>> {
    match o {
        Some(s) => Some(s@),
        None => None,
    }
}

/// The texts of a list of strings.
pub open spec fn texts(v: Seq<String>) -> Seq<Seq<char>> {
    v.map_values(|s: String| s@)
}

/// The texts of an optional list of strings.
pub open spec fn opt_texts(o: Option<Vec<String>>) -> Option<Seq<Seq<char>>> {
    match o {
        Some(v) => Some(texts(v@)),
        None => None,
    }
}

/// A copy of an optional string.
pub fn clone_text(o: &Option<String>) -> (r: Option<String>)
    ensures
        text(r) == text(*o),
{
    match o {
        Some(s) => Some(s.clone()),
        None => None,
    }
}

/// A copy of a list of strings.
pub fn clone_texts(v: &Vec<String>) -> (r: Vec<String>)
    ensures
        texts(r@) == texts(v@),
{
    let mut r: Vec<String> = Vec::new();
    let mut i: usize = 0;
    while i < v.len()
        invariant
            i <= v.len(),
            r.len() == i,
            forall|j: int| 0 <= j < i ==> (#[trigger] r[j])@ == v[j]@,
        decreases v.len() - i,
    {
        r.push(v[i].clone());
        i += 1;
    }
    assert(texts(r@) =~= texts(v@));
    r
}

/// A copy of an optional list of strings.
pub fn clone_opt_texts(o: &Option<Vec<String>>) -> (r: Option<Vec<String>>)
    ensures
        opt_texts(r) == opt_texts(*o),
{
    match o {
        Some(v) => Some(clone_texts(v)),
        None => None,
    }
}

/// What every response carries.
pub struct Common {
    pub rdap_conformance: Option<Vec<String>>,
}

/// The view of a [`Common`].
pub struct CommonView {
    pub rdap_conformance: Option<Seq<Seq<char>>>,
}

impl View for Common {
    type V = CommonView;

    open spec fn view(&self) -> CommonView {
        CommonView { rdap_conformance: opt_texts(self.rdap_conformance) }
    }
}

impl Clone for Common {
    fn clone(&self) -> (r: Self)
        ensures
            r@ == self@,
    {
        Common { rdap_conformance: clone_opt_texts(&self.rdap_conformance) }
    }
}

/// What every object class carries.
pub struct ObjectCommon {
    pub object_class_name: String,
    pub handle: Option<String>,
    pub status: Option<Vec<String>>,
    pub port_43: Option<String>,
}

/// The view of an [`ObjectCommon`].
pub struct ObjectCommonView {
    pub object_class_name: Seq<char>,
    pub handle: Option<Seq<char>>,
    pub status: Option<Seq<Seq<char>>>,
    pub port_43: Option<Seq<char>>,
}

impl View for ObjectCommon {
    type V = ObjectCommonView;

    open spec fn view(&self) -> ObjectCommonView {
        ObjectCommonView {
            object_class_name: self.object_class_name@,
            handle: text(self.handle),
            status: opt_texts(self.status),
            port_43: text(self.port_43),
        }
    }
}

impl Clone for ObjectCommon {
    fn clone(&self) -> (r: Self)
        ensures
            r@ == self@,
    {
        ObjectCommon {
            object_class_name: self.object_class_name.clone(),
            handle: clone_text(&self.handle),
            status: clone_opt_texts(&self.status),
            port_43: clone_text(&self.port_43),
        }
    }
}

/// A domain registration, known by its LDH name.
pub struct Domain {
    pub common: Common,
    pub object_common: ObjectCommon,
    pub ldh_name: Option<String>,
    pub unicode_name: Option<String>,
}

/// The view of a [`Domain`].
pub struct DomainView {
    pub common: CommonView,
    pub object_common: ObjectCommonView,
    pub ldh_name: Option<Seq<char>>,
    pub unicode_name: Option<Seq<char>>,
}

impl View for Domain {
    type V = DomainView;

    open spec fn view(&self) -> DomainView {
        DomainView {
            common: self.common@,
            object_common: self.object_common@,
            ldh_name: text(self.ldh_name),
            unicode_name: text(self.unicode_name),
        }
    }
}

impl Clone for Domain {
    fn clone(&self) -> (r: Self)
        ensures
            r@ == self@,
    {
        Domain {
            common: self.common.clone(),
            object_common: self.object_common.clone(),
            ldh_name: clone_text(&self.ldh_name),
            unicode_name: clone_text(&self.unicode_name),
        }
    }
}

/// A registrant or contact, known by its handle.
pub struct Entity {
    pub common: Common,
    pub object_common: ObjectCommon,
    pub roles: Option<Vec<String>>,
}

/// The view of an [`Entity`].
pub struct EntityView {
    pub common: CommonView,
    pub object_common: ObjectCommonView,
    pub roles: Option<Seq<Seq<char>>>,
}

impl View for Entity {
    type V = EntityView;

    open spec fn view(&self) -> EntityView {
        EntityView {
            common: self.common@,
            object_common: self.object_common@,
            roles: opt_texts(self.roles),
        }
    }
}

impl Clone for Entity {
    fn clone(&self) -> (r: Self)
        ensures
            r@ == self@,
    {
        Entity {
            common: self.common.clone(),
            object_common: self.object_common.clone(),
            roles: clone_opt_texts(&self.roles),
        }
    }
}

/// A nameserver, known by its LDH name.
pub struct Nameserver {
    pub common: Common,
    pub object_common: ObjectCommon,
    pub ldh_name: Option<String>,
    pub unicode_name: Option<String>,
}

/// The view of a [`Nameserver`].
pub struct NameserverView {
    pub common: CommonView,
    pub object_common: ObjectCommonView,
    pub ldh_name: Option<Seq<char>>,
    pub unicode_name: Option<Seq<char>>,
}

impl View for Nameserver {
    type V = NameserverView;

    open spec fn view(&self) -> NameserverView {
        NameserverView {
            common: self.common@,
            object_common: self.object_common@,
            ldh_name: text(self.ldh_name),
            unicode_name: text(self.unicode_name),
        }
    }
}

impl Clone for Nameserver {
    fn clone(&self) -> (r: Self)
        ensures
            r@ == self@,
    {
        Nameserver {
            common: self.common.clone(),
            object_common: self.object_common.clone(),
            ldh_name: clone_text(&self.ldh_name),
            unicode_name: clone_text(&self.unicode_name),
        }
    }
}

/// A range of autonomous system numbers, from `start_autnum` to
/// `end_autnum`, both included.
pub struct Autnum {
    pub common: Common,
    pub object_common: ObjectCommon,
    pub start_autnum: Option<u32>,
    pub end_autnum: Option<u32>,
    pub name: Option<String>,
    pub autnum_type: Option<String>,
    pub country: Option<String>,
}

/// The view of an [`Autnum`].
pub struct AutnumView {
    pub common: CommonView,
    pub object_common: ObjectCommonView,
    pub start_autnum: Option<u32>,
    pub end_autnum: Option<u32>,
    pub name: Option<Seq<char>>,
    pub autnum_type: Option<Seq<char>>,
    pub country: Option<Seq<char>>,
}

impl View for Autnum {
    type V = AutnumView;

    open spec fn view(&self) -> AutnumView {
        AutnumView {
            common: self.common@,
            object_common: self.object_common@,
            start_autnum: self.start_autnum,
            end_autnum: self.end_autnum,
            name: text(self.name),
            autnum_type: text(self.autnum_type),
            country: text(self.country),
        }
    }
}

impl Clone for Autnum {
    fn clone(&self) -> (r: Self)
        ensures
            r@ == self@,
    {
        Autnum {
            common: self.common.clone(),
            object_common: self.object_common.clone(),
            start_autnum: self.start_autnum,
            end_autnum: self.end_autnum,
            name: clone_text(&self.name),
            autnum_type: clone_text(&self.autnum_type),
            country: clone_text(&self.country),
        }
    }
}

/// A range of IP addresses, from `start_address` to `end_address`, both
/// included.
pub struct Network {
    pub common: Common,
    pub object_common: ObjectCommon,
    pub start_address: Option<IpAddress>,
    pub end_address: Option<IpAddress>,
    pub name: Option<String>,
    pub network_type: Option<String>,
    pub parent_handle: Option<String>,
    pub country: Option<String>,
}

/// The view of a [`Network`].
pub struct NetworkView {
    pub common: CommonView,
    pub object_common: ObjectCommonView,
    pub start_address: Option<IpAddress>,
    pub end_address: Option<IpAddress>,
    pub name: Option<Seq<char>>,
    pub network_type: Option<Seq<char>>,
    pub parent_handle: Option<Seq<char>>,
    pub country: Option<Seq<char>>,
}

impl View for Network {
    type V = NetworkView;

    open spec fn view(&self) -> NetworkView {
        NetworkView {
            common: self.common@,
            object_common: self.object_common@,
            start_address: self.start_address,
            end_address: self.end_address,
            name: text(self.name),
            network_type: text(self.network_type),
            parent_handle: text(self.parent_handle),
            country: text(self.country),
        }
    }
}

impl Clone for Network {
    fn clone(&self) -> (r: Self)
        ensures
            r@ == self@,
    {
        Network {
            common: self.common.clone(),
            object_common: self.object_common.clone(),
            start_address: self.start_address,
            end_address: self.end_address,
            name: clone_text(&self.name),
            network_type: clone_text(&self.network_type),
            parent_handle: clone_text(&self.parent_handle),
            country: clone_text(&self.country),
        }
    }
}

/// The answer to a query that failed.
pub struct RdapError {
    pub common: Common,
    pub error_code: u16,
    pub title: Option<String>,
    pub description: Option<Vec<String>>,
}

/// The view of an [`RdapError`].
pub struct RdapErrorView {
    pub common: CommonView,
    pub error_code: u16,
    pub title: Option<Seq<char>>,
    pub description: Option<Seq<Seq<char>>>,
}

impl View for RdapError {
    type V = RdapErrorView;

    open spec fn view(&self) -> RdapErrorView {
        RdapErrorView {
            common: self.common@,
            error_code: self.error_code,
            title: text(self.title),
            description: opt_texts(self.description),
        }
    }
}

impl Clone for RdapError {
    fn clone(&self) -> (r: Self)
        ensures
            r@ == self@,
    {
        RdapError {
            common: self.common.clone(),
            error_code: self.error_code,
            title: clone_text(&self.title),
            description: clone_opt_texts(&self.description),
        }
    }
}

/// The answer to a request for help.
pub struct Help {
    pub common: Common,
}

/// The view of a [`Help`].
pub struct HelpView {
    pub common: CommonView,
}

impl View for Help {
    type V = HelpView;

    open spec fn view(&self) -> HelpView {
        HelpView { common: self.common@ }
    }
}

impl Clone for Help {
    fn clone(&self) -> (r: Self)
        ensures
            r@ == self@,
    {
        Help { common: self.common.clone() }
    }
}

/// Any response of the service.
pub enum RdapResponse {
    Entity(Entity),
    Domain(Domain),
    Nameserver(Nameserver),
    Autnum(Autnum),
    Network(Network),
    ErrorResponse(RdapError),
    Help(Help),
}

/// The view of an [`RdapResponse`].
pub enum RdapResponseView {
    Entity(EntityView),
    Domain(DomainView),
    Nameserver(NameserverView),
    Autnum(AutnumView),
    Network(NetworkView),
    ErrorResponse(RdapErrorView),
    Help(HelpView),
}

impl View for RdapResponse {
    type V = RdapResponseView;

    open spec fn view(&self) -> RdapResponseView {
        match self {
            RdapResponse::Entity(e) => RdapResponseView::Entity(e@),
            RdapResponse::Domain(d) => RdapResponseView::Domain(d@),
            RdapResponse::Nameserver(n) => RdapResponseView::Nameserver(n@),
            RdapResponse::Autnum(a) => RdapResponseView::Autnum(a@),
            RdapResponse::Network(n) => RdapResponseView::Network(n@),
            RdapResponse::ErrorResponse(e) => RdapResponseView::ErrorResponse(e@),
            RdapResponse::Help(h) => RdapResponseView::Help(h@),
        }
    }
}

impl Clone for RdapResponse {
    fn clone(&self) -> (r: Self)
        ensures
            r@ == self@,
    {
        match self {
            RdapResponse::Entity(e) => RdapResponse::Entity(e.clone()),
            RdapResponse::Domain(d) => RdapResponse::Domain(d.clone()),
            RdapResponse::Nameserver(n) => RdapResponse::Nameserver(n.clone()),
            RdapResponse::Autnum(a) => RdapResponse::Autnum(a.clone()),
            RdapResponse::Network(n) => RdapResponse::Network(n.clone()),
            RdapResponse::ErrorResponse(e) => RdapResponse::ErrorResponse(e.clone()),
            RdapResponse::Help(h) => RdapResponse::Help(h.clone()),
        }
    }
}

} // verus!
