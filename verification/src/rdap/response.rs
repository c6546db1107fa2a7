//! The envelope in which a store returns a record: owned, or shared with
//! the store that holds it.

use crate::response::{
    Autnum, Domain, Entity, Help, Nameserver, Network, RdapError, RdapResponse, RdapResponseView,
};
use std::sync::Arc;
use vstd::prelude::*;

verus! {

/// A response whose record is shared and never changes.
pub enum ArcRdapResponse {
    Entity(Arc<Entity>),
    Domain(Arc<Domain>),
    Nameserver(Arc<Nameserver>),
    Autnum(Arc<Autnum>),
    Network(Arc<Network>),
    ErrorResponse(Arc<RdapError>),
    Help(Arc<Help>),
}

impl View for ArcRdapResponse {
    type V = RdapResponseView;

    open spec fn view(&self) -> RdapResponseView {
        match self {
            ArcRdapResponse::Entity(e) => RdapResponseView::Entity(e@),
            ArcRdapResponse::Domain(d) => RdapResponseView::Domain(d@),
            ArcRdapResponse::Nameserver(n) => RdapResponseView::Nameserver(n@),
            ArcRdapResponse::Autnum(a) => RdapResponseView::Autnum(a@),
            ArcRdapResponse::Network(n) => RdapResponseView::Network(n@),
            ArcRdapResponse::ErrorResponse(e) => RdapResponseView::ErrorResponse(e@),
            ArcRdapResponse::Help(h) => RdapResponseView::Help(h@),
        }
    }
}

/// A response of the server: freshly made, or shared.
pub enum RdapServerResponse {
    NoRef(RdapResponse),
    Arc(ArcRdapResponse),
}

impl View for RdapServerResponse {
    type V = RdapResponseView;

    open spec fn view(&self) -> RdapResponseView {
        match self {
            RdapServerResponse::NoRef(r) => r@,
            RdapServerResponse::Arc(r) => r@,
        }
    }
}

impl RdapServerResponse {
    /// Whether the record is shared rather than owned.
    pub fn is_shared(&self) -> (b: bool)
        ensures
            b == (*self is Arc),
    {
        match self {
            RdapServerResponse::NoRef(_) => false,
            RdapServerResponse::Arc(_) => true,
        }
    }
}

} // verus!
