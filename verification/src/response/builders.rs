//! Short ways to make a record that holds little more than its key.

use super::{
    Autnum, AutnumView, Common, CommonView, Domain, DomainView, Entity, EntityView, Nameserver,
    NameserverView, Network, NetworkView, ObjectCommon, ObjectCommonView,
};
use crate::ip::IpCidr;
use vstd::prelude::*;

verus! {

/// What every response carries, with nothing in it.
pub open spec fn bare_common() -> CommonView {
    CommonView { rdap_conformance: None }
}

/// What every object class carries, with nothing but the name of the class.
pub open spec fn bare_object(class_name: Seq<char>) -> ObjectCommonView {
    ObjectCommonView { object_class_name: class_name, handle: None, status: None, port_43: None }
}

/// What every object class carries, with nothing but the name of the class.
fn object_common(class_name: &str) -> (r: ObjectCommon)
    ensures
        r@ == bare_object(class_name@),
{
    ObjectCommon { object_class_name: class_name.to_owned(), handle: None, status: None, port_43: None }
}

/// The start of a domain that holds only its name.
pub struct DomainBasic {}

/// A domain that holds only its name, ready to be built.
pub struct DomainBasicReady {
    pub ldh_name: String,
}

impl Domain {
    /// Starts a domain that holds only its LDH name.
    pub fn basic() -> DomainBasic {
        DomainBasic {  }
    }
}

impl DomainBasic {
    /// Names the domain.
    pub fn ldh_name(self, ldh_name: &str) -> (r: DomainBasicReady)
        ensures
            r.ldh_name@ == ldh_name@,
    {
        DomainBasicReady { ldh_name: ldh_name.to_owned() }
    }
}

impl DomainBasicReady {
    /// The domain.
    pub fn build(self) -> (r: Domain)
        ensures
            r@ == (DomainView {
                common: bare_common(),
                object_common: bare_object("domain"@),
                ldh_name: Some(self.ldh_name@),
                unicode_name: None,
            }),
    {
        Domain {
            common: Common { rdap_conformance: None },
            object_common: object_common("domain"),
            ldh_name: Some(self.ldh_name),
            unicode_name: None,
        }
    }
}

/// The start of an entity that holds only its handle.
pub struct EntityBasic {}

/// An entity that holds only its handle, ready to be built.
pub struct EntityBasicReady {
    pub handle: String,
}

impl Entity {
    /// Starts an entity that holds only its handle.
    pub fn basic() -> EntityBasic {
        EntityBasic {  }
    }
}

impl EntityBasic {
    /// Names the entity.
    pub fn handle(self, handle: &str) -> (r: EntityBasicReady)
        ensures
            r.handle@ == handle@,
    {
        EntityBasicReady { handle: handle.to_owned() }
    }
}

impl EntityBasicReady {
    /// The entity.
    pub fn build(self) -> (r: Entity)
        ensures
            r@ == (EntityView {
                common: bare_common(),
                object_common: ObjectCommonView {
                    handle: Some(self.handle@),
                    ..bare_object("entity"@)
                },
                roles: None,
            }),
    {
        let mut object = object_common("entity");
        object.handle = Some(self.handle);
        Entity { common: Common { rdap_conformance: None }, object_common: object, roles: None }
    }
}

/// The start of a nameserver that holds only its name.
pub struct NameserverBasic {}

/// A nameserver that holds only its name, ready to be built.
pub struct NameserverBasicReady {
    pub ldh_name: String,
}

impl Nameserver {
    /// Starts a nameserver that holds only its LDH name.
    pub fn basic() -> NameserverBasic {
        NameserverBasic {  }
    }
}

impl NameserverBasic {
    /// Names the nameserver.
    pub fn ldh_name(self, ldh_name: &str) -> (r: NameserverBasicReady)
        ensures
            r.ldh_name@ == ldh_name@,
    {
        NameserverBasicReady { ldh_name: ldh_name.to_owned() }
    }
}

impl NameserverBasicReady {
    /// The nameserver.
    pub fn build(self) -> (r: Nameserver)
        ensures
            r@ == (NameserverView {
                common: bare_common(),
                object_common: bare_object("nameserver"@),
                ldh_name: Some(self.ldh_name@),
                unicode_name: None,
            }),
    {
        Nameserver {
            common: Common { rdap_conformance: None },
            object_common: object_common("nameserver"),
            ldh_name: Some(self.ldh_name),
            unicode_name: None,
        }
    }
}

/// The start of an autnum that holds only its number.
pub struct AutnumBasic {}

/// An autnum that holds only its number, ready to be built.
pub struct AutnumBasicReady {
    pub autnum: u32,
}

impl Autnum {
    /// Starts an autnum that holds only one number.
    pub fn basic() -> AutnumBasic {
        AutnumBasic {  }
    }
}

impl AutnumBasic {
    /// Names the number, which is the first and the last of the range.
    pub fn autnum(self, autnum: u32) -> (r: AutnumBasicReady)
        ensures
            r.autnum == autnum,
    {
        AutnumBasicReady { autnum }
    }
}

impl AutnumBasicReady {
    /// The autnum.
    pub fn build(self) -> (r: Autnum)
        ensures
            r@ == (AutnumView {
                common: bare_common(),
                object_common: bare_object("autnum"@),
                start_autnum: Some(self.autnum),
                end_autnum: Some(self.autnum),
                name: None,
                autnum_type: None,
                country: None,
            }),
    {
        Autnum {
            common: Common { rdap_conformance: None },
            object_common: object_common("autnum"),
            start_autnum: Some(self.autnum),
            end_autnum: Some(self.autnum),
            name: None,
            autnum_type: None,
            country: None,
        }
    }
}

/// The start of a network that holds only its addresses.
pub struct NetworkBasic {}

/// A network that holds only its addresses, ready to be built.
pub struct NetworkBasicReady {
    pub cidr: IpCidr,
}

impl Network {
    /// Starts a network that holds only the addresses of one CIDR block.
    pub fn basic() -> NetworkBasic {
        NetworkBasic {  }
    }
}

impl NetworkBasic {
    /// Names the block.
    pub fn cidr(self, cidr: IpCidr) -> (r: NetworkBasicReady)
        ensures
            r.cidr == cidr,
    {
        NetworkBasicReady { cidr }
    }
}

impl NetworkBasicReady {
    /// The network, from the first address of the block to its last.
    pub fn build(self) -> (r: Network)
        ensures
            r@ == (NetworkView {
                common: bare_common(),
                object_common: bare_object("ip network"@),
                start_address: Some(self.cidr.network()),
                end_address: Some(self.cidr.last()),
                name: None,
                network_type: None,
                parent_handle: None,
                country: None,
            }),
    {
        Network {
            common: Common { rdap_conformance: None },
            object_common: object_common("ip network"),
            start_address: Some(self.cidr.first_address()),
            end_address: Some(self.cidr.last_address()),
            name: None,
            network_type: None,
            parent_handle: None,
            country: None,
        }
    }
}

} // verus!
