use icann_rdap::check::types::is_ldh_name;
use icann_rdap::check::{Check, CheckClass, CheckItem, CheckParams, GetChecks};
use icann_rdap::ip::IpAddress;
use icann_rdap::md::{MdOptions, MdParams, RequestData};
use icann_rdap::response::{Autnum, Domain, Entity, Nameserver, Network, RdapResponse};
use icann_rdap::ip::IpCidr;
use std::any::TypeId;

fn item(check_class: CheckClass, check: Check) -> CheckItem {
    CheckItem { check_class, check }
}

#[test]
fn items_have_their_class() {
    assert_eq!(CheckItem::invalid_rdap_conformance_parent(), item(CheckClass::SpecificationError, Check::InvalidRdapConformanceParent));
    assert_eq!(CheckItem::link_missing_value_property(), item(CheckClass::SpecificationWarning, Check::LinkMissingValueProperty));
    assert_eq!(CheckItem::related_link_is_not_rdap(), item(CheckClass::SpecificationWarning, Check::RelatedLinkIsNotRdap));
    assert_eq!(CheckItem::related_link_has_no_type(), item(CheckClass::SpecificationWarning, Check::RelatedLinkHasNoType));
    assert_eq!(CheckItem::self_link_is_not_rdap(), item(CheckClass::SpecificationWarning, Check::SelfLinkIsNotRdap));
    assert_eq!(CheckItem::self_link_has_no_type(), item(CheckClass::SpecificationWarning, Check::SelfLinkHasNoType));
    assert_eq!(CheckItem::object_class_has_no_self_link(), item(CheckClass::SpecificationWarning, Check::ObjectClassHasNoSelfLink));
    assert_eq!(CheckItem::link_missing_rel_property(), item(CheckClass::SpecificationError, Check::LinkMissingRelProperty));
    assert_eq!(CheckItem::empty_domain_variant(), item(CheckClass::SpecificationWarning, Check::EmptyDomainVariant));
    assert_eq!(CheckItem::event_date_is_not_rfc3339(), item(CheckClass::SpecificationError, Check::EventDateIsNotRfc3339));
    assert_eq!(CheckItem::handle_is_empty(), item(CheckClass::SpecificationWarning, Check::HandleIsEmpty));
    assert_eq!(CheckItem::status_is_empty(), item(CheckClass::SpecificationError, Check::StatusIsEmpty));
    assert_eq!(CheckItem::roles_are_empty(), item(CheckClass::SpecificationError, Check::RolesAreEmpty));
    assert_eq!(CheckItem::invalid_ldh_name(), item(CheckClass::SpecificationError, Check::InvalidLdhName));
    assert_eq!(CheckItem::name_is_empty(), item(CheckClass::SpecificationWarning, Check::NameIsEmpty));
    assert_eq!(CheckItem::type_is_empty(), item(CheckClass::SpecificationWarning, Check::TypeIsEmpty));
    assert_eq!(CheckItem::missing_ip_address(), item(CheckClass::SpecificationWarning, Check::MissingIpAddress));
    assert_eq!(CheckItem::malformed_ip_address(), item(CheckClass::SpecificationError, Check::MalformedIpAddress));
    assert_eq!(CheckItem::end_ip_before_start_ip(), item(CheckClass::SpecificationWarning, Check::EndIpBeforeStartIp));
    assert_eq!(CheckItem::ip_version_mismatch(), item(CheckClass::SpecificationWarning, Check::IpVersionMismatch));
    assert_eq!(CheckItem::malfomred_ip_version(), item(CheckClass::SpecificationError, Check::MalformedIPVersion));
    assert_eq!(CheckItem::ip_address_list_is_empty(), item(CheckClass::SpecificationError, Check::IpAddressListIsEmpty));
}

#[test]
fn classes_have_short_names() {
    assert_eq!(CheckClass::Informational.to_string(), "Info");
    assert_eq!(CheckClass::SpecificationWarning.to_string(), "SWrn");
    assert_eq!(CheckClass::SpecificationError.to_string(), "SErr");
}

#[test]
fn findings_have_messages() {
    assert_eq!(
        Check::InvalidRdapConformanceParent.get_message(),
        Some("'rdapConformance' can only appear at the top of response.")
    );
    assert_eq!(
        Check::LinkMissingValueProperty.get_message(),
        Some("'value' property not found in Link structure as required by RFC 7083")
    );
    assert_eq!(
        Check::LinkMissingRelProperty.get_message(),
        Some("'rel' property not found in Link structure as required by RFC 7083")
    );
    assert_eq!(Check::HandleIsEmpty.get_message(), None);
}

fn params(root: &RdapResponse, do_subchecks: bool) -> CheckParams<'_> {
    CheckParams { do_subchecks, root, parent_type: None }
}

#[test]
fn check_params_are_passed_down() {
    let root = RdapResponse::Entity(Entity::basic().handle("h").build());
    let p = params(&root, true);
    let child = p.from_parent(TypeId::of::<Entity>());
    assert!(child.do_subchecks);
    assert!(std::ptr::eq(child.root, &root));
    assert_eq!(child.parent_type, Some(TypeId::of::<Entity>()));
    let p = params(&root, false).from_parent(TypeId::of::<Domain>());
    assert!(!p.do_subchecks);
    assert_eq!(p.parent_type, Some(TypeId::of::<Domain>()));

    let options = MdOptions::default();
    let req_data = RequestData { req_number: 1, source_host: "example.com" };
    let md_params = MdParams {
        heading_level: 1,
        root: &root,
        parent_type: Some(TypeId::of::<Network>()),
        check_types: &[],
        options: &options,
        req_data: &req_data,
    };
    let from_md = CheckParams::from_md(md_params, TypeId::of::<Entity>());
    assert!(!from_md.do_subchecks);
    assert!(std::ptr::eq(from_md.root, &root));
    assert_eq!(from_md.parent_type, Some(TypeId::of::<Entity>()));
    let no_parent = CheckParams::from_md_no_parent(md_params);
    assert!(!no_parent.do_subchecks);
    assert!(std::ptr::eq(no_parent.root, &root));
    assert_eq!(no_parent.parent_type, Some(TypeId::of::<Network>()));
}

#[test]
fn ldh_names() {
    for good in ["foo.example", "a", "xn--bcher-kva.example", "A-1.B-2", "0"] {
        assert!(is_ldh_name(good), "{}", good);
    }
    for bad in ["", "foo_bar.example", "foo example", "bücher.example", "foo/bar", "a:b"] {
        assert!(!is_ldh_name(bad), "{}", bad);
    }
}

#[test]
fn clean_entity_has_no_findings() {
    let entity = Entity::basic().handle("H-1").build();
    let root = RdapResponse::Entity(Entity::basic().handle("H-1").build());
    let checks = entity.get_checks(params(&root, true));
    assert_eq!(checks.struct_name, "Entity");
    assert!(checks.items.is_empty());
    assert_eq!(checks.sub_checks.len(), 2);
    assert_eq!(checks.sub_checks[0].struct_name, "Common");
    assert_eq!(checks.sub_checks[1].struct_name, "ObjectCommon");
    assert!(checks.sub_checks[0].items.is_empty());
    assert!(checks.sub_checks[1].items.is_empty());
    assert!(checks.sub_checks[1].sub_checks.is_empty());
    let alone = entity.get_checks(params(&root, false));
    assert!(alone.sub_checks.is_empty());
}

#[test]
fn entity_findings() {
    let mut entity = Entity::basic().handle("").build();
    entity.roles = Some(vec![]);
    entity.object_common.status = Some(vec![]);
    let root = RdapResponse::Entity(Entity::basic().handle("").build());
    let checks = entity.get_checks(params(&root, true));
    assert_eq!(checks.items, vec![CheckItem::roles_are_empty()]);
    assert_eq!(
        checks.sub_checks[1].items,
        vec![CheckItem::handle_is_empty(), CheckItem::status_is_empty()]
    );
    let response = RdapResponse::Entity(entity);
    let through = response.get_checks(params(&root, false));
    assert_eq!(through.struct_name, "Entity");
    assert_eq!(through.items, vec![CheckItem::roles_are_empty()]);
}

#[test]
fn name_findings() {
    let root = RdapResponse::Domain(Domain::basic().ldh_name("x").build());
    let domain = Domain::basic().ldh_name("not valid").build();
    assert_eq!(domain.get_checks(params(&root, false)).items, vec![CheckItem::invalid_ldh_name()]);
    let domain = Domain::basic().ldh_name("valid.example").build();
    assert!(domain.get_checks(params(&root, false)).items.is_empty());
    let ns = Nameserver::basic().ldh_name("ns_1.example").build();
    let checks = ns.get_checks(params(&root, false));
    assert_eq!(checks.struct_name, "Nameserver");
    assert_eq!(checks.items, vec![CheckItem::invalid_ldh_name()]);
}

#[test]
fn autnum_and_network_findings() {
    let root = RdapResponse::Autnum(Autnum::basic().autnum(1).build());
    let mut autnum = Autnum::basic().autnum(1).build();
    assert!(autnum.get_checks(params(&root, false)).items.is_empty());
    autnum.name = Some(String::new());
    autnum.autnum_type = Some(String::new());
    assert_eq!(
        autnum.get_checks(params(&root, false)).items,
        vec![CheckItem::name_is_empty(), CheckItem::type_is_empty()]
    );

    let block = IpCidr::new(IpAddress::V4(0x0a00_0000), 24).expect("block");
    let mut network = Network::basic().cidr(block).build();
    assert!(network.get_checks(params(&root, false)).items.is_empty());
    network.end_address = Some(IpAddress::V4(1));
    assert_eq!(
        network.get_checks(params(&root, false)).items,
        vec![CheckItem::end_ip_before_start_ip()]
    );
    network.end_address = Some(IpAddress::V6(u128::MAX));
    assert_eq!(
        network.get_checks(params(&root, false)).items,
        vec![CheckItem::ip_version_mismatch()]
    );
    network.end_address = None;
    network.name = Some(String::new());
    assert_eq!(
        network.get_checks(params(&root, false)).items,
        vec![CheckItem::name_is_empty(), CheckItem::missing_ip_address()]
    );
}
