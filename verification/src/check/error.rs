//! The checks of an error response.

use super::types::{get_lone_common_checks, lone_common_checks};
use super::{CheckItem, CheckParams, Checks, ChecksView, GetChecks};
use crate::md::type_id_of;
use crate::response::{RdapError};
use vstd::prelude::*;

verus! {

impl GetChecks for RdapError {
    /// Nothing is checked of an error response itself.
    open spec fn checks(&self, do_subchecks: bool) -> ChecksView {
        ChecksView {
            struct_name: "Error"@,
            items: Seq::empty(),
            sub_checks: lone_common_checks(self.common, do_subchecks),
        }
    }

    fn get_checks(&self, params: CheckParams) -> (r: Checks) {
        let typeid = type_id_of::<RdapError>();
        let sub_checks = get_lone_common_checks(&self.common, params.from_parent(typeid));
        let mut items: Vec<CheckItem> = Vec::new();
        let r = Checks { struct_name: "Error", items, sub_checks };
        assert(r@.items =~= self.checks(params.do_subchecks).items);
        r
    }
}

} // verus!
