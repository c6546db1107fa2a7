use icann_rdap::error::RdapServerError;
use icann_rdap::ip::text::{format_v4, parse_v4, parse_v4_cidr};
use icann_rdap::ip::{IpAddress, IpCidr};
use icann_rdap::rdap::response::{ArcRdapResponse, RdapServerResponse};
use icann_rdap::response::{
    Autnum, Common, Domain, Entity, Help, Nameserver, Network, RdapResponse,
};
use icann_rdap::storage::mem::config::MemConfig;
use icann_rdap::storage::mem::ops::Mem;
use icann_rdap::storage::mem::state::{
    file_kind, AutnumId, DomainId, EntityId, FileKind, NameserverId, NetworkId, NetworkIdType,
    StateFile, StateFileContent, Template,
};
use icann_rdap::storage::mem::tx::MemTx;
use icann_rdap::storage::{StoreOps, TxHandle};

fn v4(text: &str) -> IpAddress {
    IpAddress::V4(parse_v4(text).expect("parsing address"))
}

fn cidr(text: &str) -> IpCidr {
    parse_v4_cidr(text).expect("cidr parsing")
}

fn record_file(name: &str, record: RdapResponse) -> StateFile {
    StateFile { name: name.to_string(), content: StateFileContent::Record(record) }
}

fn template_file(name: &str, template: Template) -> StateFile {
    StateFile { name: name.to_string(), content: StateFileContent::Template(template) }
}

fn new_mem() -> Mem {
    let mem_config = MemConfig::builder().state_dir("/tmp/rdap-srv/state").build();
    Mem::new(mem_config)
}

fn start_of(response: RdapServerResponse) -> String {
    let RdapServerResponse::Arc(response) = response else { panic!() };
    assert!(matches!(response, ArcRdapResponse::Network(_)));
    let ArcRdapResponse::Network(network) = response else { panic!() };
    match network.start_address.expect("startAddress is none") {
        IpAddress::V4(a) => format_v4(a),
        IpAddress::V6(_) => panic!(),
    }
}

#[test]
#[allow(non_snake_case)]
fn GIVEN_state_dir_with_domain_WHEN_mem_init_THEN_domain_is_loaded() {
    // GIVEN
    let ldh_name = "foo.example";
    let domain = Domain::basic().ldh_name(ldh_name).build();
    let files = vec![record_file("foo_example.json", RdapResponse::Domain(domain))];

    // WHEN
    let mut mem = new_mem();
    mem.init(&files).expect("initialzing memeory");

    // THEN
    let actual = mem.get_domain_by_ldh(ldh_name).expect("getting domain by ldh");
    let RdapServerResponse::Arc(response) = actual else { panic!() };
    assert!(matches!(response, ArcRdapResponse::Domain(_)));
    let ArcRdapResponse::Domain(domain) = response else { panic!() };
    assert_eq!(domain.ldh_name.as_ref().expect("ldhName is none"), ldh_name)
}

#[test]
#[allow(non_snake_case)]
fn GIVEN_state_dir_with_domain_template_WHEN_mem_init_THEN_domains_are_loaded() {
    // GIVEN
    let ldh1 = "foo.example";
    let ldh2 = "bar.example";
    let template = Template::Domain {
        domain: Domain::basic().ldh_name("example").build(),
        ids: vec![
            DomainId::builder().ldh_name(ldh1).build(),
            DomainId::builder().ldh_name(ldh2).build(),
        ],
    };
    let files = vec![template_file("example.template", template)];

    // WHEN
    let mut mem = new_mem();
    mem.init(&files).expect("initialzing memeory");

    // THEN
    for ldh in [ldh1, ldh2] {
        let actual = mem.get_domain_by_ldh(ldh).expect("getting domain by ldh");
        let RdapServerResponse::Arc(response) = actual else { panic!() };
        assert!(matches!(response, ArcRdapResponse::Domain(_)));
        let ArcRdapResponse::Domain(domain) = response else { panic!() };
        assert_eq!(domain.ldh_name.as_ref().expect("ldhName is none"), ldh)
    }
}

#[test]
#[allow(non_snake_case)]
fn GIVEN_state_dir_with_entity_WHEN_mem_init_THEN_entity_is_loaded() {
    // GIVEN
    let handle = "foo.example";
    let entity = Entity::basic().handle(handle).build();
    let files = vec![record_file("foo_example.json", RdapResponse::Entity(entity))];

    // WHEN
    let mut mem = new_mem();
    mem.init(&files).expect("initialzing memeory");

    // THEN
    let actual = mem.get_entity_by_handle(handle).expect("getting entity by ldh");
    let RdapServerResponse::Arc(response) = actual else { panic!() };
    assert!(matches!(response, ArcRdapResponse::Entity(_)));
    let ArcRdapResponse::Entity(entity) = response else { panic!() };
    assert_eq!(entity.object_common.handle.as_ref().expect("handle is none"), handle)
}

#[test]
#[allow(non_snake_case)]
fn GIVEN_state_dir_with_entity_template_WHEN_mem_init_THEN_entities_are_loaded() {
    // GIVEN
    let handle1 = "foo";
    let handle2 = "bar";
    let template = Template::Entity {
        entity: Entity::basic().handle("example").build(),
        ids: vec![
            EntityId::builder().handle(handle1).build(),
            EntityId::builder().handle(handle2).build(),
        ],
    };
    let files = vec![template_file("example.template", template)];

    // WHEN
    let mut mem = new_mem();
    mem.init(&files).expect("initialzing memeory");

    // THEN
    for handle in [handle1, handle2] {
        let actual = mem.get_entity_by_handle(handle).expect("getting entity by handle");
        let RdapServerResponse::Arc(response) = actual else { panic!() };
        assert!(matches!(response, ArcRdapResponse::Entity(_)));
        let ArcRdapResponse::Entity(entity) = response else { panic!() };
        assert_eq!(entity.object_common.handle.as_ref().expect("handle is none"), handle)
    }
}

#[test]
#[allow(non_snake_case)]
fn GIVEN_state_dir_with_nameserver_WHEN_mem_init_THEN_nameserver_is_loaded() {
    // GIVEN
    let ldh_name = "ns.foo.example";
    let nameserver = Nameserver::basic().ldh_name(ldh_name).build();
    let files = vec![record_file("ns_foo_example.json", RdapResponse::Nameserver(nameserver))];

    // WHEN
    let mut mem = new_mem();
    mem.init(&files).expect("initialzing memeory");

    // THEN
    let actual = mem.get_nameserver_by_ldh(ldh_name).expect("getting nameserver by ldh");
    let RdapServerResponse::Arc(response) = actual else { panic!() };
    assert!(matches!(response, ArcRdapResponse::Nameserver(_)));
    let ArcRdapResponse::Nameserver(nameserver) = response else { panic!() };
    assert_eq!(nameserver.ldh_name.as_ref().expect("ldhName is none"), ldh_name)
}

#[test]
#[allow(non_snake_case)]
fn GIVEN_state_dir_with_nameserver_template_WHEN_mem_init_THEN_nameservers_are_loaded() {
    // GIVEN
    let ldh1 = "ns.foo.example";
    let ldh2 = "ns.bar.example";
    let template = Template::Nameserver {
        nameserver: Nameserver::basic().ldh_name("example").build(),
        ids: vec![
            NameserverId::builder().ldh_name(ldh1).build(),
            NameserverId::builder().ldh_name(ldh2).build(),
        ],
    };
    let files = vec![template_file("example.template", template)];

    // WHEN
    let mut mem = new_mem();
    mem.init(&files).expect("initialzing memeory");

    // THEN
    for ldh in [ldh1, ldh2] {
        let actual = mem.get_nameserver_by_ldh(ldh).expect("getting nameserver by ldh");
        let RdapServerResponse::Arc(response) = actual else { panic!() };
        assert!(matches!(response, ArcRdapResponse::Nameserver(_)));
        let ArcRdapResponse::Nameserver(nameserver) = response else { panic!() };
        assert_eq!(nameserver.ldh_name.as_ref().expect("ldhName is none"), ldh)
    }
}

#[test]
#[allow(non_snake_case)]
fn GIVEN_state_dir_with_autnum_WHEN_mem_init_THEN_autnum_is_loaded() {
    // GIVEN
    let num = 700u32;
    let autnum = Autnum::basic().autnum(num).build();
    let files = vec![record_file("700.json", RdapResponse::Autnum(autnum))];

    // WHEN
    let mut mem = new_mem();
    mem.init(&files).expect("initialzing memeory");

    // THEN
    let actual = mem.get_autnum_by_num(num).expect("getting autnum by num");
    let RdapServerResponse::Arc(response) = actual else { panic!() };
    assert!(matches!(response, ArcRdapResponse::Autnum(_)));
    let ArcRdapResponse::Autnum(autnum) = response else { panic!() };
    assert_eq!(*autnum.start_autnum.as_ref().expect("startAutnum is none"), num)
}

#[test]
#[allow(non_snake_case)]
fn GIVEN_state_dir_with_autnum_template_WHEN_mem_init_THEN_autnums_are_loaded() {
    // GIVEN
    let num1 = 700u32;
    let num2 = 800u32;
    let template = Template::Autnum {
        autnum: Autnum::basic().autnum(0).build(),
        ids: vec![
            AutnumId::builder().start_autnum(num1).end_autnum(num1).build(),
            AutnumId::builder().start_autnum(num2).end_autnum(num2).build(),
        ],
    };
    let files = vec![template_file("example.template", template)];

    // WHEN
    let mut mem = new_mem();
    mem.init(&files).expect("initialzing memeory");

    // THEN
    for num in [num1, num2] {
        let actual = mem.get_autnum_by_num(num).expect("getting autnum by num");
        let RdapServerResponse::Arc(response) = actual else { panic!() };
        assert!(matches!(response, ArcRdapResponse::Autnum(_)));
        let ArcRdapResponse::Autnum(autnum) = response else { panic!() };
        assert_eq!(*autnum.start_autnum.as_ref().expect("startAutnum is none"), num)
    }
}

#[test]
#[allow(non_snake_case)]
fn GIVEN_state_dir_with_network_WHEN_mem_init_THEN_network_is_loaded() {
    // GIVEN
    let network = Network::basic().cidr(cidr("10.0.0.0/24")).build();
    let files = vec![record_file("ten_net.json", RdapResponse::Network(network))];

    // WHEN
    let mut mem = new_mem();
    mem.init(&files).expect("initialzing memeory");

    // THEN
    let actual = mem.get_network_by_ipaddr(v4("10.0.0.0")).expect("getting autnum by num");
    assert_eq!(start_of(actual), "10.0.0.0")
}

#[test]
#[allow(non_snake_case)]
fn GIVEN_state_dir_with_network_template_with_cidr_WHEN_mem_init_THEN_networks_are_loaded() {
    // GIVEN
    let cidr1 = "10.0.0.0/24";
    let cidr2 = "10.0.1.0/24";
    let start1 = "10.0.0.0";
    let start2 = "10.0.1.0";
    let template = Template::Network {
        network: Network::basic().cidr(cidr("1.1.1.1/32")).build(),
        ids: vec![
            NetworkId::builder().network_id(NetworkIdType::Cidr(cidr(cidr1))).build(),
            NetworkId::builder().network_id(NetworkIdType::Cidr(cidr(cidr2))).build(),
        ],
    };
    let files = vec![template_file("example.template", template)];

    // WHEN
    let mut mem = new_mem();
    mem.init(&files).expect("initialzing memeory");

    // THEN
    for (block, start) in [(cidr1, start1), (cidr2, start2)] {
        let actual = mem.get_network_by_cidr(cidr(block)).expect("getting cidr by num");
        assert_eq!(start_of(actual), start)
    }
}

#[test]
#[allow(non_snake_case)]
fn GIVEN_state_dir_with_network_template_with_range_WHEN_mem_init_THEN_networks_are_loaded() {
    // GIVEN
    let start1 = "10.0.0.0";
    let start2 = "10.0.1.0";
    let end1 = "10.0.0.255";
    let end2 = "10.0.1.255";
    let template = Template::Network {
        network: Network::basic().cidr(cidr("1.1.1.1/32")).build(),
        ids: vec![
            NetworkId::builder()
                .network_id(NetworkIdType::Range {
                    start_address: v4(start1),
                    end_address: v4(end1),
                })
                .build(),
            NetworkId::builder()
                .network_id(NetworkIdType::Range {
                    start_address: v4(start2),
                    end_address: v4(end2),
                })
                .build(),
        ],
    };
    let files = vec![template_file("example.template", template)];

    // WHEN
    let mut mem = new_mem();
    mem.init(&files).expect("initialzing memeory");

    // THEN
    for (start, end) in [(start1, end1), (start2, end2)] {
        let actual = mem.get_network_by_ipaddr(v4(end)).expect("getting cidr by addr");
        assert_eq!(start_of(actual), start)
    }
}

#[test]
fn lookup_between_two_autnum_ranges_is_not_found() {
    let mut mem = new_mem();
    let files = vec![
        record_file("700.json", RdapResponse::Autnum(Autnum::basic().autnum(700).build())),
        record_file("800.json", RdapResponse::Autnum(Autnum::basic().autnum(800).build())),
    ];
    mem.init(&files).expect("loading");
    assert!(mem.get_autnum_by_num(700).is_ok());
    assert!(mem.get_autnum_by_num(800).is_ok());
    assert!(matches!(mem.get_autnum_by_num(750), Err(RdapServerError::NotFound)));
    assert!(matches!(mem.get_autnum_by_num(699), Err(RdapServerError::NotFound)));
    assert!(matches!(mem.get_autnum_by_num(801), Err(RdapServerError::NotFound)));
}

#[test]
fn autnum_range_is_found_by_every_number_in_it() {
    let mut autnum = Autnum::basic().autnum(0).build();
    autnum.start_autnum = Some(64496);
    autnum.end_autnum = Some(64511);
    let mut mem = new_mem();
    let mut tx = mem.new_tx().expect("new transaction");
    tx.add_autnum(&autnum).expect("staging");
    tx.commit(&mut mem).expect("commit");
    for n in [64496u32, 64500, 64511] {
        let RdapServerResponse::Arc(ArcRdapResponse::Autnum(found)) =
            mem.get_autnum_by_num(n).expect("lookup")
        else {
            panic!()
        };
        assert_eq!(found.start_autnum, Some(64496));
        assert_eq!(found.end_autnum, Some(64511));
    }
    assert!(matches!(mem.get_autnum_by_num(64495), Err(RdapServerError::NotFound)));
    assert!(matches!(mem.get_autnum_by_num(64512), Err(RdapServerError::NotFound)));
}

#[test]
fn lookup_by_cidr_wants_the_exact_block() {
    let mut mem = new_mem();
    let files = vec![record_file(
        "ten_net.json",
        RdapResponse::Network(Network::basic().cidr(cidr("10.0.0.0/24")).build()),
    )];
    mem.init(&files).expect("loading");
    assert!(mem.get_network_by_cidr(cidr("10.0.0.0/24")).is_ok());
    assert!(matches!(
        mem.get_network_by_cidr(cidr("10.0.0.0/25")),
        Err(RdapServerError::NotFound)
    ));
    assert!(matches!(
        mem.get_network_by_cidr(cidr("10.0.0.0/16")),
        Err(RdapServerError::NotFound)
    ));
    assert_eq!(start_of(mem.get_network_by_ipaddr(v4("10.0.0.77")).expect("lookup")), "10.0.0.0");
    assert!(matches!(
        mem.get_network_by_ipaddr(v4("10.0.1.0")),
        Err(RdapServerError::NotFound)
    ));
}

#[test]
fn network_loaded_as_range_is_found_as_block() {
    let mut network = Network::basic().cidr(cidr("1.1.1.1/32")).build();
    network.start_address = Some(v4("192.0.2.0"));
    network.end_address = Some(v4("192.0.2.255"));
    let mut mem = new_mem();
    mem.init(&vec![record_file("net.json", RdapResponse::Network(network))]).expect("loading");
    assert_eq!(
        start_of(mem.get_network_by_cidr(cidr("192.0.2.0/24")).expect("lookup")),
        "192.0.2.0"
    );
}

#[test]
fn ipv6_networks_are_kept_apart_from_ipv4() {
    let block = IpCidr::new(IpAddress::V6(0x2001_0db8 << 96), 32).expect("block");
    let mut mem = new_mem();
    let files = vec![
        record_file("six.json", RdapResponse::Network(Network::basic().cidr(block).build())),
        record_file(
            "four.json",
            RdapResponse::Network(Network::basic().cidr(cidr("0.0.0.0/8")).build()),
        ),
    ];
    mem.init(&files).expect("loading");
    let inside = IpAddress::V6((0x2001_0db8 << 96) + 5);
    let RdapServerResponse::Arc(ArcRdapResponse::Network(found)) =
        mem.get_network_by_ipaddr(inside).expect("lookup")
    else {
        panic!()
    };
    assert_eq!(found.start_address, Some(IpAddress::V6(0x2001_0db8 << 96)));
    assert_eq!(
        found.end_address,
        Some(IpAddress::V6((0x2001_0db8 << 96) + ((1u128 << 96) - 1)))
    );
    assert!(matches!(
        mem.get_network_by_ipaddr(IpAddress::V6(5)),
        Err(RdapServerError::NotFound)
    ));
    assert!(mem.get_network_by_ipaddr(IpAddress::V4(5)).is_ok());
    assert!(mem.get_network_by_cidr(block).is_ok());
}

fn five_domains() -> Vec<Domain> {
    ["a.example", "b.example", "c.example", "d.example", "e.example"]
        .iter()
        .map(|n| Domain::basic().ldh_name(n).build())
        .collect()
}

#[test]
fn rolled_back_transaction_leaves_nothing() {
    let mem = new_mem();
    let mut tx = mem.new_tx().expect("new transaction");
    for d in five_domains() {
        tx.add_domain(&d).expect("staging");
    }
    for d in five_domains() {
        let name = d.ldh_name.expect("name");
        assert!(matches!(mem.get_domain_by_ldh(&name), Err(RdapServerError::NotFound)));
    }
    tx.rollback().expect("rollback");
    for d in five_domains() {
        let name = d.ldh_name.expect("name");
        assert!(matches!(mem.get_domain_by_ldh(&name), Err(RdapServerError::NotFound)));
    }
}

#[test]
fn committed_transaction_shows_everything() {
    let mut mem = new_mem();
    let mut tx = mem.new_tx().expect("new transaction");
    for d in five_domains() {
        tx.add_domain(&d).expect("staging");
    }
    tx.commit(&mut mem).expect("commit");
    for d in five_domains() {
        let name = d.ldh_name.expect("name");
        let RdapServerResponse::Arc(ArcRdapResponse::Domain(found)) =
            mem.get_domain_by_ldh(&name).expect("lookup")
        else {
            panic!()
        };
        assert_eq!(found.ldh_name.as_ref(), Some(&name));
    }
}

#[test]
fn dropped_transaction_leaves_nothing() {
    let mem = new_mem();
    {
        let mut tx = MemTx::new();
        tx.add_entity(&Entity::basic().handle("dropped").build()).expect("staging");
    }
    assert!(matches!(mem.get_entity_by_handle("dropped"), Err(RdapServerError::NotFound)));
}

#[test]
fn later_write_replaces_record_under_same_key() {
    let mut mem = new_mem();
    let mut first = Domain::basic().ldh_name("foo.example").build();
    first.unicode_name = Some("first".to_string());
    let mut second = Domain::basic().ldh_name("foo.example").build();
    second.unicode_name = Some("second".to_string());
    let mut tx = mem.new_tx().expect("new transaction");
    tx.add_domain(&first).expect("staging");
    tx.commit(&mut mem).expect("commit");
    let mut tx = mem.new_tx().expect("new transaction");
    tx.add_domain(&second).expect("staging");
    tx.commit(&mut mem).expect("commit");
    let RdapServerResponse::Arc(ArcRdapResponse::Domain(found)) =
        mem.get_domain_by_ldh("foo.example").expect("lookup")
    else {
        panic!()
    };
    assert_eq!(found.unicode_name.as_deref(), Some("second"));
}

#[test]
fn record_without_key_is_a_config_error() {
    let mut domain = Domain::basic().ldh_name("x").build();
    domain.ldh_name = None;
    let mut tx = MemTx::new();
    assert!(matches!(tx.add_domain(&domain), Err(RdapServerError::Config(_))));
    assert!(tx.has_failed());
    let mut entity = Entity::basic().handle("x").build();
    entity.object_common.handle = None;
    assert!(matches!(MemTx::new().add_entity(&entity), Err(RdapServerError::Config(_))));
    let mut nameserver = Nameserver::basic().ldh_name("x").build();
    nameserver.ldh_name = None;
    assert!(matches!(MemTx::new().add_nameserver(&nameserver), Err(RdapServerError::Config(_))));
    let mut autnum = Autnum::basic().autnum(5).build();
    autnum.end_autnum = Some(4);
    assert!(matches!(MemTx::new().add_autnum(&autnum), Err(RdapServerError::Config(_))));
    autnum.end_autnum = None;
    assert!(matches!(MemTx::new().add_autnum(&autnum), Err(RdapServerError::Config(_))));
    let mut network = Network::basic().cidr(cidr("10.0.0.0/24")).build();
    network.end_address = Some(IpAddress::V6(7));
    assert!(matches!(MemTx::new().add_network(&network), Err(RdapServerError::Config(_))));
    network.end_address = Some(v4("9.0.0.0"));
    assert!(matches!(MemTx::new().add_network(&network), Err(RdapServerError::Config(_))));
    network.end_address = None;
    assert!(matches!(MemTx::new().add_network(&network), Err(RdapServerError::Config(_))));
    let help = RdapResponse::Help(Help { common: Common { rdap_conformance: None } });
    assert!(matches!(MemTx::new().add(&help), Err(RdapServerError::Config(_))));
}

#[test]
fn failed_write_makes_the_commit_fail() {
    let mut mem = new_mem();
    let mut tx = mem.new_tx().expect("new transaction");
    tx.add_domain(&Domain::basic().ldh_name("kept.example").build()).expect("staging");
    let mut bad = Domain::basic().ldh_name("x").build();
    bad.ldh_name = None;
    assert!(tx.add_domain(&bad).is_err());
    assert!(matches!(tx.commit(&mut mem), Err(RdapServerError::Backend(_))));
    assert!(matches!(mem.get_domain_by_ldh("kept.example"), Err(RdapServerError::NotFound)));
}

#[test]
fn overlapping_ranges_are_refused() {
    let mut wide = Autnum::basic().autnum(0).build();
    wide.start_autnum = Some(100);
    wide.end_autnum = Some(200);
    let mut inner = Autnum::basic().autnum(0).build();
    inner.start_autnum = Some(150);
    inner.end_autnum = Some(160);

    let mut tx = MemTx::new();
    tx.add_autnum(&wide).expect("staging");
    assert!(matches!(tx.add_autnum(&inner), Err(RdapServerError::Backend(_))));

    let mut mem = new_mem();
    let mut tx = mem.new_tx().expect("new transaction");
    tx.add_autnum(&wide).expect("staging");
    tx.commit(&mut mem).expect("commit");
    let mut tx = mem.new_tx().expect("new transaction");
    tx.add_autnum(&inner).expect("staging");
    tx.add_domain(&Domain::basic().ldh_name("with.example").build()).expect("staging");
    assert!(matches!(tx.commit(&mut mem), Err(RdapServerError::Backend(_))));
    assert!(matches!(mem.get_domain_by_ldh("with.example"), Err(RdapServerError::NotFound)));
    let RdapServerResponse::Arc(ArcRdapResponse::Autnum(found)) =
        mem.get_autnum_by_num(155).expect("lookup")
    else {
        panic!()
    };
    assert_eq!(found.start_autnum, Some(100));

    let mut same = Autnum::basic().autnum(0).build();
    same.start_autnum = Some(100);
    same.end_autnum = Some(200);
    same.name = Some("again".to_string());
    let mut tx = mem.new_tx().expect("new transaction");
    tx.add_autnum(&same).expect("staging");
    tx.commit(&mut mem).expect("commit");
    let RdapServerResponse::Arc(ArcRdapResponse::Autnum(found)) =
        mem.get_autnum_by_num(155).expect("lookup")
    else {
        panic!()
    };
    assert_eq!(found.name.as_deref(), Some("again"));
}

#[test]
fn malformed_file_fails_the_load_and_names_the_file() {
    let mut mem = new_mem();
    let files = vec![
        record_file("good.json", RdapResponse::Domain(Domain::basic().ldh_name("good.example").build())),
        StateFile { name: "bad.json".to_string(), content: StateFileContent::Malformed },
    ];
    match mem.init(&files) {
        Err(RdapServerError::Config(message)) => {
            assert_eq!(message, "cannot load state from bad.json")
        },
        _ => panic!(),
    }
    assert!(matches!(mem.get_domain_by_ldh("good.example"), Err(RdapServerError::NotFound)));
}

#[test]
fn unrecognized_file_is_passed_over() {
    let mut mem = new_mem();
    let files = vec![
        StateFile { name: "README".to_string(), content: StateFileContent::Unrecognized },
        record_file("good.json", RdapResponse::Domain(Domain::basic().ldh_name("good.example").build())),
    ];
    mem.init(&files).expect("loading");
    assert!(mem.get_domain_by_ldh("good.example").is_ok());
}

#[test]
fn file_with_record_that_is_not_stored_fails_the_load() {
    let mut mem = new_mem();
    let help = RdapResponse::Help(Help { common: Common { rdap_conformance: None } });
    match mem.init(&vec![record_file("help.json", help)]) {
        Err(RdapServerError::Config(message)) => {
            assert_eq!(message, "cannot load state from help.json")
        },
        _ => panic!(),
    }
}

fn sample_files() -> Vec<StateFile> {
    vec![
        record_file("foo.json", RdapResponse::Domain(Domain::basic().ldh_name("foo.example").build())),
        record_file("700.json", RdapResponse::Autnum(Autnum::basic().autnum(700).build())),
        template_file(
            "nets.template",
            Template::Network {
                network: Network::basic().cidr(cidr("1.1.1.1/32")).build(),
                ids: vec![
                    NetworkId::builder().network_id(NetworkIdType::Cidr(cidr("10.0.0.0/24"))).build(),
                    NetworkId::builder().network_id(NetworkIdType::Cidr(cidr("10.0.1.0/24"))).build(),
                ],
            },
        ),
    ]
}

fn resolves_samples(mem: &Mem) {
    assert!(mem.get_domain_by_ldh("foo.example").is_ok());
    assert!(mem.get_autnum_by_num(700).is_ok());
    assert_eq!(start_of(mem.get_network_by_ipaddr(v4("10.0.0.9")).expect("lookup")), "10.0.0.0");
    assert_eq!(start_of(mem.get_network_by_ipaddr(v4("10.0.1.9")).expect("lookup")), "10.0.1.0");
    assert!(matches!(mem.get_network_by_ipaddr(v4("10.0.2.0")), Err(RdapServerError::NotFound)));
    assert!(matches!(mem.get_domain_by_ldh("bar.example"), Err(RdapServerError::NotFound)));
}

#[test]
fn loading_the_same_files_again_gives_the_same_records() {
    let mut first = new_mem();
    first.init(&sample_files()).expect("loading");
    resolves_samples(&first);
    let mut second = new_mem();
    second.init(&sample_files()).expect("loading");
    resolves_samples(&second);
    first.init(&sample_files()).expect("loading again");
    resolves_samples(&first);
}

#[test]
fn template_expands_to_one_record_per_identifier() {
    let mut proto = Domain::basic().ldh_name("example").build();
    proto.unicode_name = Some("kept".to_string());
    proto.object_common.port_43 = Some("whois.example".to_string());
    let template = Template::Domain {
        domain: proto,
        ids: vec![
            DomainId::builder().ldh_name("a.example").build(),
            DomainId::builder().ldh_name("b.example").build(),
            DomainId::builder().ldh_name("c.example").build(),
        ],
    };
    let records = template.expand();
    assert_eq!(records.len(), 3);
    for (record, name) in records.iter().zip(["a.example", "b.example", "c.example"]) {
        let RdapResponse::Domain(d) = record else { panic!() };
        assert_eq!(d.ldh_name.as_deref(), Some(name));
        assert_eq!(d.unicode_name.as_deref(), Some("kept"));
        assert_eq!(d.object_common.port_43.as_deref(), Some("whois.example"));
        assert_eq!(d.object_common.object_class_name, "domain");
    }
    let empty = Template::Entity { entity: Entity::basic().handle("x").build(), ids: vec![] };
    assert_eq!(empty.expand().len(), 0);
}

#[test]
fn identifiers_set_the_key_fields_only() {
    let mut proto = Autnum::basic().autnum(1).build();
    proto.name = Some("AS-NAME".to_string());
    let stamped = AutnumId::builder().start_autnum(10).end_autnum(20).build().stamped(&proto);
    assert_eq!(stamped.start_autnum, Some(10));
    assert_eq!(stamped.end_autnum, Some(20));
    assert_eq!(stamped.name.as_deref(), Some("AS-NAME"));

    let mut net = Network::basic().cidr(cidr("1.1.1.1/32")).build();
    net.name = Some("NET".to_string());
    let id = NetworkId::builder().network_id(NetworkIdType::Cidr(cidr("10.1.2.3/16"))).build();
    let stamped = id.stamped(&net);
    assert_eq!(stamped.start_address, Some(v4("10.1.0.0")));
    assert_eq!(stamped.end_address, Some(v4("10.1.255.255")));
    assert_eq!(stamped.name.as_deref(), Some("NET"));

    let entity = EntityId::builder().handle("H1").build().stamped(&Entity::basic().handle("proto").build());
    assert_eq!(entity.object_common.handle.as_deref(), Some("H1"));
    assert_eq!(entity.object_common.object_class_name, "entity");
    let ns = NameserverId::builder().ldh_name("ns1.example").build().stamped(&Nameserver::basic().ldh_name("p").build());
    assert_eq!(ns.ldh_name.as_deref(), Some("ns1.example"));
}

#[test]
fn file_names_tell_records_from_templates() {
    assert_eq!(file_kind("foo_example.json"), FileKind::Record);
    assert_eq!(file_kind("example.template"), FileKind::Template);
    assert_eq!(file_kind("/var/state/example.template"), FileKind::Template);
    assert_eq!(file_kind("notes.txt"), FileKind::Other);
    assert_eq!(file_kind("json"), FileKind::Other);
    assert_eq!(file_kind(".json"), FileKind::Other);
    assert_eq!(file_kind("/var/state/.json"), FileKind::Other);
    assert_eq!(file_kind("a.JSON"), FileKind::Other);
    assert_eq!(file_kind(""), FileKind::Other);
}

#[test]
fn default_engine_is_empty() {
    let mem = Mem::default();
    assert_eq!(mem.config().state_dir, "/tmp/rdap-srv/state");
    assert!(matches!(mem.get_domain_by_ldh("foo.example"), Err(RdapServerError::NotFound)));
    assert!(matches!(mem.get_autnum_by_num(0), Err(RdapServerError::NotFound)));
    assert!(matches!(mem.get_network_by_ipaddr(IpAddress::V4(0)), Err(RdapServerError::NotFound)));
}

#[test]
fn errors_read_as_sentences() {
    assert_eq!(RdapServerError::NotFound.to_string(), "not found");
    assert!(RdapServerError::NotFound.is_not_found());
    let config = RdapServerError::Config("x".to_string());
    assert_eq!(config.to_string(), "invalid configuration: x");
    assert!(!config.is_not_found());
    assert_eq!(RdapServerError::Backend("y".to_string()).to_string(), "storage failure: y");
}

#[test]
fn stored_records_come_back_shared() {
    let mut mem = new_mem();
    let mut tx = mem.new_tx().expect("new transaction");
    tx.add_nameserver(&Nameserver::basic().ldh_name("ns.example").build()).expect("staging");
    assert!(!tx.has_failed());
    tx.commit(&mut mem).expect("commit");
    let first = mem.get_nameserver_by_ldh("ns.example").expect("lookup");
    let second = mem.get_nameserver_by_ldh("ns.example").expect("lookup");
    assert!(first.is_shared());
    assert!(second.is_shared());
    let RdapServerResponse::Arc(ArcRdapResponse::Nameserver(a)) = first else { panic!() };
    let RdapServerResponse::Arc(ArcRdapResponse::Nameserver(b)) = second else { panic!() };
    assert!(std::sync::Arc::ptr_eq(&a, &b));
    let owned = RdapServerResponse::NoRef(RdapResponse::Nameserver(
        Nameserver::basic().ldh_name("ns.example").build(),
    ));
    assert!(!owned.is_shared());
}
