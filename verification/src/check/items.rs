//! The findings, each with the class it belongs to.

use super::{Check, CheckClass, CheckItem};
use vstd::prelude::*;

verus! {

impl CheckItem {
    // RDAP Conformance
    pub fn invalid_rdap_conformance_parent() -> (r: CheckItem)
        ensures
            r == (CheckItem {
                check_class: CheckClass::SpecificationError,
                check: Check::InvalidRdapConformanceParent,
            }),
    {
        CheckItem {
            check_class: CheckClass::SpecificationError,
            check: Check::InvalidRdapConformanceParent,
        }
    }

    // Links
    pub fn link_missing_value_property() -> (r: CheckItem)
        ensures
            r == (CheckItem {
                check_class: CheckClass::SpecificationWarning,
                check: Check::LinkMissingValueProperty,
            }),
    {
        CheckItem {
            check_class: CheckClass::SpecificationWarning,
            check: Check::LinkMissingValueProperty,
        }
    }

    pub fn related_link_is_not_rdap() -> (r: CheckItem)
        ensures
            r == (CheckItem {
                check_class: CheckClass::SpecificationWarning,
                check: Check::RelatedLinkIsNotRdap,
            }),
    {
        CheckItem {
            check_class: CheckClass::SpecificationWarning,
            check: Check::RelatedLinkIsNotRdap,
        }
    }

    pub fn related_link_has_no_type() -> (r: CheckItem)
        ensures
            r == (CheckItem {
                check_class: CheckClass::SpecificationWarning,
                check: Check::RelatedLinkHasNoType,
            }),
    {
        CheckItem {
            check_class: CheckClass::SpecificationWarning,
            check: Check::RelatedLinkHasNoType,
        }
    }

    pub fn self_link_is_not_rdap() -> (r: CheckItem)
        ensures
            r == (CheckItem {
                check_class: CheckClass::SpecificationWarning,
                check: Check::SelfLinkIsNotRdap,
            }),
    {
        CheckItem { check_class: CheckClass::SpecificationWarning, check: Check::SelfLinkIsNotRdap }
    }

    pub fn self_link_has_no_type() -> (r: CheckItem)
        ensures
            r == (CheckItem {
                check_class: CheckClass::SpecificationWarning,
                check: Check::SelfLinkHasNoType,
            }),
    {
        CheckItem { check_class: CheckClass::SpecificationWarning, check: Check::SelfLinkHasNoType }
    }

    pub fn object_class_has_no_self_link() -> (r: CheckItem)
        ensures
            r == (CheckItem {
                check_class: CheckClass::SpecificationWarning,
                check: Check::ObjectClassHasNoSelfLink,
            }),
    {
        CheckItem {
            check_class: CheckClass::SpecificationWarning,
            check: Check::ObjectClassHasNoSelfLink,
        }
    }

    pub fn link_missing_rel_property() -> (r: CheckItem)
        ensures
            r == (CheckItem {
                check_class: CheckClass::SpecificationError,
                check: Check::LinkMissingRelProperty,
            }),
    {
        CheckItem {
            check_class: CheckClass::SpecificationError,
            check: Check::LinkMissingRelProperty,
        }
    }

    // Variants
    pub fn empty_domain_variant() -> (r: CheckItem)
        ensures
            r == (CheckItem {
                check_class: CheckClass::SpecificationWarning,
                check: Check::EmptyDomainVariant,
            }),
    {
        CheckItem {
            check_class: CheckClass::SpecificationWarning,
            check: Check::EmptyDomainVariant,
        }
    }

    // Events
    pub fn event_date_is_not_rfc3339() -> (r: CheckItem)
        ensures
            r == (CheckItem {
                check_class: CheckClass::SpecificationError,
                check: Check::EventDateIsNotRfc3339,
            }),
    {
        CheckItem {
            check_class: CheckClass::SpecificationError,
            check: Check::EventDateIsNotRfc3339,
        }
    }

    // Handle
    pub fn handle_is_empty() -> (r: CheckItem)
        ensures
            r == (CheckItem {
                check_class: CheckClass::SpecificationWarning,
                check: Check::HandleIsEmpty,
            }),
    {
        CheckItem { check_class: CheckClass::SpecificationWarning, check: Check::HandleIsEmpty }
    }

    // Status
    pub fn status_is_empty() -> (r: CheckItem)
        ensures
            r == (CheckItem {
                check_class: CheckClass::SpecificationError,
                check: Check::StatusIsEmpty,
            }),
    {
        CheckItem { check_class: CheckClass::SpecificationError, check: Check::StatusIsEmpty }
    }

    // Roles
    pub fn roles_are_empty() -> (r: CheckItem)
        ensures
            r == (CheckItem {
                check_class: CheckClass::SpecificationError,
                check: Check::RolesAreEmpty,
            }),
    {
        CheckItem { check_class: CheckClass::SpecificationError, check: Check::RolesAreEmpty }
    }

    // LDH Name
    pub fn invalid_ldh_name() -> (r: CheckItem)
        ensures
            r == (CheckItem {
                check_class: CheckClass::SpecificationError,
                check: Check::InvalidLdhName,
            }),
    {
        CheckItem { check_class: CheckClass::SpecificationError, check: Check::InvalidLdhName }
    }

    // Network or Autnum Name
    pub fn name_is_empty() -> (r: CheckItem)
        ensures
            r == (CheckItem {
                check_class: CheckClass::SpecificationWarning,
                check: Check::NameIsEmpty,
            }),
    {
        CheckItem { check_class: CheckClass::SpecificationWarning, check: Check::NameIsEmpty }
    }

    // Network or Autnum Type
    pub fn type_is_empty() -> (r: CheckItem)
        ensures
            r == (CheckItem {
                check_class: CheckClass::SpecificationWarning,
                check: Check::TypeIsEmpty,
            }),
    {
        CheckItem { check_class: CheckClass::SpecificationWarning, check: Check::TypeIsEmpty }
    }

    // IP Address
    pub fn missing_ip_address() -> (r: CheckItem)
        ensures
            r == (CheckItem {
                check_class: CheckClass::SpecificationWarning,
                check: Check::MissingIpAddress,
            }),
    {
        CheckItem { check_class: CheckClass::SpecificationWarning, check: Check::MissingIpAddress }
    }

    pub fn malformed_ip_address() -> (r: CheckItem)
        ensures
            r == (CheckItem {
                check_class: CheckClass::SpecificationError,
                check: Check::MalformedIpAddress,
            }),
    {
        CheckItem { check_class: CheckClass::SpecificationError, check: Check::MalformedIpAddress }
    }

    pub fn end_ip_before_start_ip() -> (r: CheckItem)
        ensures
            r == (CheckItem {
                check_class: CheckClass::SpecificationWarning,
                check: Check::EndIpBeforeStartIp,
            }),
    {
        CheckItem {
            check_class: CheckClass::SpecificationWarning,
            check: Check::EndIpBeforeStartIp,
        }
    }

    pub fn ip_version_mismatch() -> (r: CheckItem)
        ensures
            r == (CheckItem {
                check_class: CheckClass::SpecificationWarning,
                check: Check::IpVersionMismatch,
            }),
    {
        CheckItem { check_class: CheckClass::SpecificationWarning, check: Check::IpVersionMismatch }
    }

    pub fn malfomred_ip_version() -> (r: CheckItem)
        ensures
            r == (CheckItem {
                check_class: CheckClass::SpecificationError,
                check: Check::MalformedIPVersion,
            }),
    {
        CheckItem { check_class: CheckClass::SpecificationError, check: Check::MalformedIPVersion }
    }

    pub fn ip_address_list_is_empty() -> (r: CheckItem)
        ensures
            r == (CheckItem {
                check_class: CheckClass::SpecificationError,
                check: Check::IpAddressListIsEmpty,
            }),
    {
        CheckItem {
            check_class: CheckClass::SpecificationError,
            check: Check::IpAddressListIsEmpty,
        }
    }
}

} // verus!
