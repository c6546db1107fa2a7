//! The checks of an autnum.

use super::types::{blank, common_checks, get_common_checks, is_blank, warning, item_if};
use super::{Check, CheckItem, CheckParams, Checks, ChecksView, GetChecks};
use crate::md::type_id_of;
use crate::response::{text, Autnum};
use vstd::prelude::*;

verus! {

impl GetChecks for Autnum {
    /// A name without a character is a warning, and so is a type without a
    /// character.
    open spec fn checks(&self, do_subchecks: bool) -> ChecksView {
        ChecksView {
            struct_name: "Autnum"@,
            items: item_if(blank(text(self.name)), warning(Check::NameIsEmpty)) + item_if(
                blank(text(self.autnum_type)),
                warning(Check::TypeIsEmpty),
            ),
            sub_checks: common_checks(self.common, self.object_common, do_subchecks),
        }
    }

    fn get_checks(&self, params: CheckParams) -> (r: Checks) {
        let typeid = type_id_of::<Autnum>();
        let sub_checks = get_common_checks(&self.common, &self.object_common, params.from_parent(typeid));
        let mut items: Vec<CheckItem> = Vec::new();
        if is_blank(&self.name) {
            items.push(CheckItem::name_is_empty());
        }
        if is_blank(&self.autnum_type) {
            items.push(CheckItem::type_is_empty());
        }
        let r = Checks { struct_name: "Autnum", items, sub_checks };
        assert(r@.items =~= self.checks(params.do_subchecks).items);
        r
    }
}

} // verus!
