//! The checks of an entity.

use super::types::{common_checks, error, get_common_checks, is_void, void, item_if};
use super::{Check, CheckItem, CheckParams, Checks, ChecksView, GetChecks};
use crate::md::type_id_of;
use crate::response::{opt_texts, Entity};
use vstd::prelude::*;

verus! {

impl GetChecks for Entity {
    /// A list of roles without a member is an error.
    open spec fn checks(&self, do_subchecks: bool) -> ChecksView {
        ChecksView {
            struct_name: "Entity"@,
            items: item_if(void(opt_texts(self.roles)), error(Check::RolesAreEmpty)),
            sub_checks: common_checks(self.common, self.object_common, do_subchecks),
        }
    }

    fn get_checks(&self, params: CheckParams) -> (r: Checks) {
        let typeid = type_id_of::<Entity>();
        let sub_checks = get_common_checks(&self.common, &self.object_common, params.from_parent(typeid));
        let mut items: Vec<CheckItem> = Vec::new();
        if is_void(&self.roles) {
            items.push(CheckItem::roles_are_empty());
        }
        let r = Checks { struct_name: "Entity", items, sub_checks };
        assert(r@.items =~= self.checks(params.do_subchecks).items);
        r
    }
}

} // verus!
