//! The checks of what responses and object classes have in common, and the
//! helpers that the checks of the object classes share.

use super::{Check, CheckClass, CheckItem, CheckParams, Checks, ChecksView, GetChecks, LeafChecks};
use crate::response::{opt_texts, text, Common, ObjectCommon};
use vstd::prelude::*;
use vstd::string::is_ascii_spec_bytes;
use vstd::utf8::is_ascii_chars;

verus! {

/// A finding of the class of warnings.
pub open spec fn warning(check: Check) -> CheckItem {
    CheckItem { check_class: CheckClass::SpecificationWarning, check }
}

/// A finding of the class of errors.
pub open spec fn error(check: Check) -> CheckItem {
    CheckItem { check_class: CheckClass::SpecificationError, check }
}

/// The finding, if the condition holds.
pub open spec fn item_if(condition: bool, item: CheckItem) -> Seq<CheckItem> {
    if condition {
        seq![item]
    } else {
        Seq::empty()
    }
}

/// The findings on a structure alone, out of all that was found on it.
pub open spec fn leaf_of(checks: ChecksView) -> LeafChecks {
    LeafChecks { struct_name: checks.struct_name, items: checks.items }
}

/// An optional text is there and has no character.
pub open spec fn blank(value: Option<Seq<char>>) -> bool {
    value matches Some(v) && v.len() == 0
}

/// An optional list is there and has no member.
pub open spec fn void(list: Option<Seq<Seq<char>>>) -> bool {
    list matches Some(l) && l.len() == 0
}

/// Whether an optional text is there and has no character.
pub fn is_blank(value: &Option<String>) -> (b: bool)
    ensures
        b == blank(text(*value)),
{
    match value {
        Some(v) => v.as_str().is_empty(),
        None => false,
    }
}

/// Whether an optional list is there and has no member.
pub fn is_void(list: &Option<Vec<String>>) -> (b: bool)
    ensures
        b == void(opt_texts(*list)),
{
    match list {
        Some(l) => l.len() == 0,
        None => false,
    }
}

/// A letter, a digit, a hyphen or a dot.
pub open spec fn ldh_char(c: char) -> bool {
    ('a' <= c <= 'z') || ('A' <= c <= 'Z') || ('0' <= c <= '9') || c == '-' || c == '.'
}

/// A name of letters, digits, hyphens and dots, and of at least one of
/// them.
pub open spec fn ldh_name(name: Seq<char>) -> bool {
    name.len() > 0 && forall|i: int| 0 <= i < name.len() ==> ldh_char(#[trigger] name[i])
}

/// Whether a name is made of letters, digits, hyphens and dots alone.
pub fn is_ldh_name(name: &str) -> (b: bool)
    ensures
        b == ldh_name(name@),
{
    if !name.is_ascii() {
        assert(ldh_name(name@) ==> is_ascii_chars(name@));
        return false;
    }
    let bytes = name.as_bytes();
    proof {
        is_ascii_spec_bytes(name);
    }
    if bytes.len() == 0 {
        return false;
    }
    let mut i: usize = 0;
    while i < bytes.len()
        invariant
            i <= bytes.len(),
            bytes@.len() == name@.len(),
            is_ascii_chars(name@),
            forall|j: int| 0 <= j < bytes@.len() ==> bytes@[j] == (#[trigger] name@[j]) as u8,
            forall|j: int| 0 <= j < i ==> ldh_char(#[trigger] name@[j]),
        decreases bytes.len() - i,
    {
        let b: u8 = bytes[i];
        let ok = (97 <= b && b <= 122) || (65 <= b && b <= 90) || (48 <= b && b <= 57) || b == 45
            || b == 46;
        assert(ok == ldh_char(name@[i as int])) by {
            let c = name@[i as int];
            assert('\0' <= c <= '\u{7f}');
            assert(b == c as u8);
        }
        if !ok {
            return false;
        }
        i += 1;
    }
    true
}

impl GetChecks for Common {
    /// Nothing is checked of what every response carries.
    open spec fn checks(&self, do_subchecks: bool) -> ChecksView {
        ChecksView { struct_name: "Common"@, items: Seq::empty(), sub_checks: Seq::empty() }
    }

    fn get_checks(&self, params: CheckParams) -> (r: Checks) {
        let r = Checks { struct_name: "Common", items: Vec::new(), sub_checks: Vec::new() };
        assert(r@.sub_checks =~= Seq::empty());
        r
    }
}

impl GetChecks for ObjectCommon {
    /// A handle without a character is a warning, a list of status values
    /// without a member an error.
    open spec fn checks(&self, do_subchecks: bool) -> ChecksView {
        ChecksView {
            struct_name: "ObjectCommon"@,
            items: item_if(blank(text(self.handle)), warning(Check::HandleIsEmpty)) + item_if(
                void(opt_texts(self.status)),
                error(Check::StatusIsEmpty),
            ),
            sub_checks: Seq::empty(),
        }
    }

    fn get_checks(&self, params: CheckParams) -> (r: Checks) {
        let mut items: Vec<CheckItem> = Vec::new();
        if is_blank(&self.handle) {
            items.push(CheckItem::handle_is_empty());
        }
        if is_void(&self.status) {
            items.push(CheckItem::status_is_empty());
        }
        let r = Checks { struct_name: "ObjectCommon", items, sub_checks: Vec::new() };
        assert(r@.sub_checks =~= Seq::empty());
        assert(r@.items =~= self.checks(params.do_subchecks).items);
        r
    }
}

/// The checks of the two structures that every object class holds, if they
/// are asked for.
pub open spec fn common_checks(
    common: Common,
    object_common: ObjectCommon,
    do_subchecks: bool,
) -> Seq<LeafChecks> {
    if do_subchecks {
        seq![
            leaf_of(common.checks(do_subchecks)),
            leaf_of(object_common.checks(do_subchecks)),
        ]
    } else {
        Seq::empty()
    }
}

/// Checks the two structures that every object class holds, if `params`
/// asks for it.
pub fn get_common_checks<'a>(
    common: &'a Common,
    object_common: &'a ObjectCommon,
    params: CheckParams,
) -> (r: Vec<Checks<'a>>)
    ensures
        r@.map_values(|c: Checks<'a>| c.leaf()) == common_checks(
            *common,
            *object_common,
            params.do_subchecks,
        ),
        forall|i: int| 0 <= i < r@.len() ==> (#[trigger] r@[i]).sub_checks@.len() == 0,
{
    let mut subs: Vec<Checks<'a>> = Vec::new();
    if params.do_subchecks {
        let first = common.get_checks(params);
        let second = object_common.get_checks(params);
        assert(first@.sub_checks.len() == first.sub_checks@.len());
        assert(second@.sub_checks.len() == second.sub_checks@.len());
        subs.push(first);
        subs.push(second);
    }
    assert(subs@.map_values(|c: Checks<'a>| c.leaf()) =~= common_checks(
        *common,
        *object_common,
        params.do_subchecks,
    ));
    subs
}

/// The check of the one structure that every other response holds, if it
/// is asked for.
pub open spec fn lone_common_checks(common: Common, do_subchecks: bool) -> Seq<LeafChecks> {
    if do_subchecks {
        seq![leaf_of(common.checks(do_subchecks))]
    } else {
        Seq::empty()
    }
}

/// Checks the one structure that every other response holds, if `params`
/// asks for it.
pub fn get_lone_common_checks<'a>(common: &'a Common, params: CheckParams) -> (r: Vec<Checks<'a>>)
    ensures
        r@.map_values(|c: Checks<'a>| c.leaf()) == lone_common_checks(*common, params.do_subchecks),
        forall|i: int| 0 <= i < r@.len() ==> (#[trigger] r@[i]).sub_checks@.len() == 0,
{
    let mut subs: Vec<Checks<'a>> = Vec::new();
    if params.do_subchecks {
        let first = common.get_checks(params);
        assert(first@.sub_checks.len() == first.sub_checks@.len());
        subs.push(first);
    }
    assert(subs@.map_values(|c: Checks<'a>| c.leaf()) =~= lone_common_checks(
        *common,
        params.do_subchecks,
    ));
    subs
}

} // verus!
