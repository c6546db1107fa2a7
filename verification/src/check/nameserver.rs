//! The checks of a nameserver.

use super::types::{common_checks, error, get_common_checks, is_ldh_name, ldh_name, item_if};
use super::{Check, CheckItem, CheckParams, Checks, ChecksView, GetChecks};
use crate::md::type_id_of;
use crate::response::{Nameserver};
use vstd::prelude::*;

verus! {

impl GetChecks for Nameserver {
    /// An LDH name that is not made of letters, digits, hyphens and dots is
    /// an error.
    open spec fn checks(&self, do_subchecks: bool) -> ChecksView {
        ChecksView {
            struct_name: "Nameserver"@,
            items: item_if(
                self.ldh_name matches Some(n) && !ldh_name(n@),
                error(Check::InvalidLdhName),
            ),
            sub_checks: common_checks(self.common, self.object_common, do_subchecks),
        }
    }

    fn get_checks(&self, params: CheckParams) -> (r: Checks) {
        let typeid = type_id_of::<Nameserver>();
        let sub_checks = get_common_checks(&self.common, &self.object_common, params.from_parent(typeid));
        let mut items: Vec<CheckItem> = Vec::new();
        let bad_name = match &self.ldh_name {
            Some(n) => !is_ldh_name(n.as_str()),
            None => false,
        };
        if bad_name {
            items.push(CheckItem::invalid_ldh_name());
        }
        let r = Checks { struct_name: "Nameserver", items, sub_checks };
        assert(r@.items =~= self.checks(params.do_subchecks).items);
        r
    }
}

} // verus!
