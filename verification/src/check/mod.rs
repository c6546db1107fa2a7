//! Checks of a response against what the protocol asks of it.

use crate::md::MdParams;
use crate::response::RdapResponse;
use std::any::TypeId;
use vstd::prelude::*;

pub mod autnum;
pub mod domain;
pub mod entity;
pub mod error;
pub mod help;
pub mod items;
pub mod nameserver;
pub mod network;
pub mod types;

verus! {

/// `std::any::TypeId`: the identifier that the runtime gives to a type. It
/// is carried through; nothing is known of what it holds.
#[verifier::external_type_specification]
#[verifier::external_body]
pub struct ExTypeId(TypeId);

/// Describes the classes of checks.
#[derive(Clone, Copy, Debug, PartialEq, Eq, Structural)]
pub enum CheckClass {
    Informational,
    SpecificationWarning,
    SpecificationError,
}

impl CheckClass {
    /// The short name of the class.
    pub open spec fn label(self) -> Seq<char> {
        match self {
            CheckClass::Informational => "Info"@,
            CheckClass::SpecificationWarning => "SWrn"@,
            CheckClass::SpecificationError => "SErr"@,
        }
    }

    /// The short name of the class: `Info`, `SWrn` or `SErr`.
    pub fn to_string(&self) -> (s: String)
        ensures
            s@ == self.label(),
    {
        match self {
            CheckClass::Informational => "Info".to_owned(),
            CheckClass::SpecificationWarning => "SWrn".to_owned(),
            CheckClass::SpecificationError => "SErr".to_owned(),
        }
    }
}

/// What a check can find.
#[derive(Clone, Copy, Debug, PartialEq, Eq, Structural)]
pub enum Check {
    // RDAP Conformance
    InvalidRdapConformanceParent,
    // Links
    LinkMissingValueProperty,
    LinkMissingRelProperty,
    RelatedLinkIsNotRdap,
    RelatedLinkHasNoType,
    SelfLinkIsNotRdap,
    SelfLinkHasNoType,
    ObjectClassHasNoSelfLink,
    // Variants
    EmptyDomainVariant,
    // Events
    EventDateIsNotRfc3339,
    // Handle
    HandleIsEmpty,
    // Status
    StatusIsEmpty,
    // Roles
    RolesAreEmpty,
    // LDH Name
    InvalidLdhName,
    // Network or Autnum Name
    NameIsEmpty,
    // Network or Autnum Type
    TypeIsEmpty,
    // IP Address
    MissingIpAddress,
    MalformedIpAddress,
    EndIpBeforeStartIp,
    IpVersionMismatch,
    MalformedIPVersion,
    IpAddressListIsEmpty,
}

impl Check {
    /// The sentence that explains the finding, for the findings that have
    /// one.
    pub open spec fn message(self) -> Option<Seq<char>> {
        match self {
            Check::InvalidRdapConformanceParent => Some(
                "'rdapConformance' can only appear at the top of response."@,
            ),
            Check::LinkMissingValueProperty => Some(
                "'value' property not found in Link structure as required by RFC 7083"@,
            ),
            Check::LinkMissingRelProperty => Some(
                "'rel' property not found in Link structure as required by RFC 7083"@,
            ),
            _ => None,
        }
    }

    /// The sentence that explains the finding, for the findings that have
    /// one.
    pub fn get_message(&self) -> (m: Option<&'static str>)
        ensures
            match m {
                Some(s) => self.message() == Some(s@),
                None => self.message() is None,
            },
    {
        match self {
            Check::InvalidRdapConformanceParent => Some(
                "'rdapConformance' can only appear at the top of response.",
            ),
            Check::LinkMissingValueProperty => Some(
                "'value' property not found in Link structure as required by RFC 7083",
            ),
            Check::LinkMissingRelProperty => Some(
                "'rel' property not found in Link structure as required by RFC 7083",
            ),
            _ => None,
        }
    }
}

/// One finding and its class.
#[derive(Clone, Copy, Debug, PartialEq, Eq, Structural)]
pub struct CheckItem {
    pub check_class: CheckClass,
    pub check: Check,
}

/// The findings on one structure, and those on the structures inside it.
#[derive(Debug)]
pub struct Checks<'a> {
    pub struct_name: &'a str,
    pub items: Vec<CheckItem>,
    pub sub_checks: Vec<Checks<'a>>,
}

/// The findings on one structure that holds no structures.
pub struct LeafChecks {
    pub struct_name: Seq<char>,
    pub items: Seq<CheckItem>,
}

/// The findings on one structure and on the structures directly inside it.
pub struct ChecksView {
    pub struct_name: Seq<char>,
    pub items: Seq<CheckItem>,
    pub sub_checks: Seq<LeafChecks>,
}

impl<'a> Checks<'a> {
    /// The findings on this structure alone.
    pub open spec fn leaf(self) -> LeafChecks {
        LeafChecks { struct_name: self.struct_name@, items: self.items@ }
    }

    /// The structures inside this one hold no structures themselves.
    pub open spec fn shallow(self) -> bool {
        forall|i: int| 0 <= i < self.sub_checks@.len() ==> (#[trigger] self.sub_checks@[i]).sub_checks@.len() == 0
    }
}

impl<'a> View for Checks<'a> {
    type V = ChecksView;

    open spec fn view(&self) -> ChecksView {
        ChecksView {
            struct_name: self.struct_name@,
            items: self.items@,
            sub_checks: self.sub_checks@.map_values(|c: Checks<'a>| c.leaf()),
        }
    }
}

/// What a check is told about where the structure stands.
#[derive(Clone, Copy)]
pub struct CheckParams<'a> {
    pub do_subchecks: bool,
    pub root: &'a RdapResponse,
    pub parent_type: Option<TypeId>,
}

impl<'a> CheckParams<'a> {
    /// The parameters for a structure inside one of type `parent_type`.
    pub fn from_parent(&self, parent_type: TypeId) -> (r: Self)
        ensures
            r.do_subchecks == self.do_subchecks,
            r.root == self.root,
            r.parent_type == Some(parent_type),
    {
        CheckParams {
            do_subchecks: self.do_subchecks,
            root: self.root,
            parent_type: Some(parent_type),
        }
    }

    /// The parameters for a check made while rendering a structure inside
    /// one of type `parent_type`: of that structure alone.
    pub fn from_md(md_params: MdParams<'a>, parent_type: TypeId) -> (r: Self)
        ensures
            !r.do_subchecks,
            r.root == md_params.root,
            r.parent_type == Some(parent_type),
    {
        CheckParams { do_subchecks: false, root: md_params.root, parent_type: Some(parent_type) }
    }

    /// The parameters for a check made while rendering a structure, with
    /// the parent that the rendering has.
    pub fn from_md_no_parent(md_params: MdParams<'a>) -> (r: Self)
        ensures
            !r.do_subchecks,
            r.root == md_params.root,
            r.parent_type == md_params.parent_type,
    {
        CheckParams {
            do_subchecks: false,
            root: md_params.root,
            parent_type: md_params.parent_type,
        }
    }
}

/// A structure that can be checked.
pub trait GetChecks {
    /// The findings on this structure and, if `do_subchecks`, on the
    /// structures directly inside it.
    spec fn checks(&self, do_subchecks: bool) -> ChecksView;

    /// Checks the structure.
    fn get_checks(&self, params: CheckParams) -> (r: Checks)
        ensures
            r@ == self.checks(params.do_subchecks),
            r.shallow(),
    ;
}

impl GetChecks for RdapResponse {
    /// The checks of the record that the response holds.
    open spec fn checks(&self, do_subchecks: bool) -> ChecksView {
        match self {
            RdapResponse::Entity(e) => e.checks(do_subchecks),
            RdapResponse::Domain(d) => d.checks(do_subchecks),
            RdapResponse::Nameserver(n) => n.checks(do_subchecks),
            RdapResponse::Autnum(a) => a.checks(do_subchecks),
            RdapResponse::Network(n) => n.checks(do_subchecks),
            RdapResponse::ErrorResponse(e) => e.checks(do_subchecks),
            RdapResponse::Help(h) => h.checks(do_subchecks),
        }
    }

    fn get_checks(&self, params: CheckParams) -> (r: Checks) {
        match &self {
            RdapResponse::Entity(e) => e.get_checks(params),
            RdapResponse::Domain(d) => d.get_checks(params),
            RdapResponse::Nameserver(n) => n.get_checks(params),
            RdapResponse::Autnum(a) => a.get_checks(params),
            RdapResponse::Network(n) => n.get_checks(params),
            RdapResponse::ErrorResponse(e) => e.get_checks(params),
            RdapResponse::Help(h) => h.get_checks(params),
        }
    }
}

} // verus!
