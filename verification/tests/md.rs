use icann_rdap::check::CheckClass;
use icann_rdap::md::{
    to_bold, to_center, to_center_bold, to_center_em, to_em, to_header, to_left, to_left_bold,
    to_left_em, to_right, to_right_bold, to_right_em, MdOptions, MdParams, RequestData, ToMd,
};
use icann_rdap::response::{Domain, Entity, RdapResponse};
use std::any::TypeId;

fn unicode() -> MdOptions {
    MdOptions::default()
}

fn plain() -> MdOptions {
    MdOptions::plain_text()
}

#[test]
fn default_options() {
    let o = MdOptions::default();
    assert!(!o.no_unicode_chars);
    assert_eq!(o.text_style_char, '*');
    assert!(o.hash_headers);
    assert!(!o.style_in_justify);
}

#[test]
fn plain_text_options() {
    let o = MdOptions::plain_text();
    assert!(o.no_unicode_chars);
    assert_eq!(o.text_style_char, '_');
    assert!(!o.hash_headers);
    assert!(o.style_in_justify);
}

#[test]
fn emphasis() {
    assert_eq!(to_em("word", &unicode()), "*word*");
    assert_eq!(to_em("word", &plain()), "_word_");
    assert_eq!(to_em("", &unicode()), "**");
    assert_eq!(to_bold("word", &unicode()), "**word**");
    assert_eq!(to_bold("word", &plain()), "__word__");
}

#[test]
fn headers() {
    assert_eq!(to_header("Entity", 1, &unicode()), "# Entity\n\n");
    assert_eq!(to_header("Entity", 3, &unicode()), "### Entity\n\n");
    assert_eq!(to_header("Entity", 0, &unicode()), " Entity\n\n");
    assert_eq!(to_header("Entity", 1, &plain()), "Entity\n======\n\n");
    assert_eq!(to_header("Entity", 2, &plain()), "Entity\n------\n\n");
    assert_eq!(to_header("é", 2, &plain()), "é\n--\n\n");
    assert_eq!(to_header("", 1, &plain()), "\n\n\n");
}

#[test]
fn justification() {
    assert_eq!(to_right("ab", 5, &plain()), "   ab");
    assert_eq!(to_left("ab", 5, &plain()), "ab   ");
    assert_eq!(to_center("ab", 5, &plain()), " ab  ");
    assert_eq!(to_center("ab", 6, &plain()), "  ab  ");
    assert_eq!(to_right("ab", 2, &plain()), "ab");
    assert_eq!(to_right("abc", 2, &plain()), "abc");
    assert_eq!(to_left("abc", 0, &plain()), "abc");
    assert_eq!(to_center("abc", 3, &plain()), "abc");
    assert_eq!(to_right("ab", 4, &unicode()), "\u{2003}\u{2003}ab");
    assert_eq!(to_left("ab", 4, &unicode()), "ab\u{2003}\u{2003}");
    assert_eq!(to_center("ab", 5, &unicode()), "\u{2003}ab\u{2003}\u{2003}");
    assert_eq!(to_right("é", 3, &plain()), "  é");
}

#[test]
fn justification_agrees_with_format() {
    for width in 0..8usize {
        for text in ["", "a", "abc", "héllo"] {
            assert_eq!(to_right(text, width, &plain()), format!("{text:>width$}"));
            assert_eq!(to_left(text, width, &plain()), format!("{text:<width$}"));
            assert_eq!(to_center(text, width, &plain()), format!("{text:^width$}"));
            assert_eq!(to_right(text, width, &unicode()), format!("{text:\u{2003}>width$}"));
            assert_eq!(to_left(text, width, &unicode()), format!("{text:\u{2003}<width$}"));
            assert_eq!(to_center(text, width, &unicode()), format!("{text:\u{2003}^width$}"));
        }
    }
}

#[test]
fn styled_justification() {
    assert_eq!(to_right_em("ab", 6, &plain()), "  _ab_");
    assert_eq!(to_right_em("ab", 6, &unicode()), "*\u{2003}\u{2003}\u{2003}\u{2003}ab*");
    assert_eq!(to_right_bold("ab", 7, &plain()), " __ab__");
    assert_eq!(to_right_bold("ab", 3, &unicode()), "**\u{2003}ab**");
    assert_eq!(to_left_em("ab", 6, &plain()), "_ab_  ");
    assert_eq!(to_left_em("ab", 3, &unicode()), "*ab\u{2003}*");
    assert_eq!(to_left_bold("ab", 7, &plain()), "__ab__ ");
    assert_eq!(to_left_bold("ab", 3, &unicode()), "**ab\u{2003}**");
    assert_eq!(to_center_em("ab", 7, &plain()), " _ab_  ");
    assert_eq!(to_center_em("ab", 4, &unicode()), "*\u{2003}ab\u{2003}*");
    assert_eq!(to_center_bold("ab", 8, &plain()), " __ab__ ");
    assert_eq!(to_center_bold("ab", 3, &unicode()), "**ab\u{2003}**");
}

#[test]
fn params_from_parent_keep_all_but_the_parent() {
    let root = RdapResponse::Entity(Entity::basic().handle("h").build());
    let options = MdOptions::default();
    let req_data = RequestData { req_number: 1, source_host: "example.com" };
    let classes = [CheckClass::Informational];
    let params = MdParams {
        heading_level: 2,
        root: &root,
        parent_type: None,
        check_types: &classes,
        options: &options,
        req_data: &req_data,
    };
    let child = params.from_parent(TypeId::of::<Entity>());
    assert_eq!(child.parent_type, Some(TypeId::of::<Entity>()));
    assert_eq!(child.heading_level, 2);
    assert_eq!(child.check_types, &classes);
    assert_eq!(child.req_data.req_number, 1);
    assert_eq!(child.req_data.source_host, "example.com");
    assert!(std::ptr::eq(child.root, &root));
    assert!(std::ptr::eq(child.options, &options));
}

#[test]
fn entity_markdown() {
    let mut entity = Entity::basic().handle("H-1").build();
    entity.common.rdap_conformance = Some(vec!["rdap_level_0".to_string()]);
    entity.object_common.status = Some(vec!["active".to_string(), "locked".to_string()]);
    entity.object_common.port_43 = Some("whois.example".to_string());
    let root = RdapResponse::Entity(Entity::basic().handle("root").build());
    let options = MdOptions::default();
    let req_data = RequestData { req_number: 1, source_host: "example.com" };
    let params = MdParams {
        heading_level: 1,
        root: &root,
        parent_type: None,
        check_types: &[],
        options: &options,
        req_data: &req_data,
    };
    let expected = "* rdap_level_0\n# Entity\n\n**Handle**: H-1\n* active\n* locked\n**Port 43 Whois**: whois.example\n\n";
    assert_eq!(entity.to_md(params), expected);
    let response = RdapResponse::Entity(entity);
    assert_eq!(
        response.to_md(params),
        format!("{}----------------------------------------\n", expected)
    );
}

#[test]
fn domain_markdown_in_plain_text() {
    let domain = Domain::basic().ldh_name("foo.example").build();
    let root = RdapResponse::Domain(Domain::basic().ldh_name("foo.example").build());
    let options = MdOptions::plain_text();
    let req_data = RequestData { req_number: 1, source_host: "example.com" };
    let params = MdParams {
        heading_level: 2,
        root: &root,
        parent_type: None,
        check_types: &[],
        options: &options,
        req_data: &req_data,
    };
    assert_eq!(domain.to_md(params), "Domain\n------\n\n\n");
    assert_eq!(
        root.to_md(params),
        "Domain\n------\n\n\n----------------------------------------\n"
    );
}
