//! The checks of a network.

use super::types::{blank, common_checks, get_common_checks, is_blank, warning, item_if};
use super::{Check, CheckItem, CheckParams, Checks, ChecksView, GetChecks};
use crate::md::type_id_of;
use crate::response::{text, Network};
use vstd::prelude::*;

verus! {

/// The network names a first and a last address of different families.
pub open spec fn families_differ(n: Network) -> bool {
    n.start_address matches Some(s) && n.end_address matches Some(e) && s.is_v4() != e.is_v4()
}

/// The network names a first and a last address of one family, the last
/// before the first.
pub open spec fn ends_before_start(n: Network) -> bool {
    n.start_address matches Some(s) && n.end_address matches Some(e) && s.is_v4() == e.is_v4()
        && e.number() < s.number()
}

impl GetChecks for Network {
    /// A name or a type without a character, a missing first or last
    /// address, addresses of different families, and a last address before
    /// the first are warnings.
    open spec fn checks(&self, do_subchecks: bool) -> ChecksView {
        ChecksView {
            struct_name: "Network"@,
            items: item_if(blank(text(self.name)), warning(Check::NameIsEmpty)) + item_if(
                blank(text(self.network_type)),
                warning(Check::TypeIsEmpty),
            ) + item_if(
                self.start_address is None || self.end_address is None,
                warning(Check::MissingIpAddress),
            ) + item_if(families_differ(*self), warning(Check::IpVersionMismatch)) + item_if(
                ends_before_start(*self),
                warning(Check::EndIpBeforeStartIp),
            ),
            sub_checks: common_checks(self.common, self.object_common, do_subchecks),
        }
    }

    fn get_checks(&self, params: CheckParams) -> (r: Checks) {
        let typeid = type_id_of::<Network>();
        let sub_checks = get_common_checks(&self.common, &self.object_common, params.from_parent(typeid));
        let mut items: Vec<CheckItem> = Vec::new();
        if is_blank(&self.name) {
            items.push(CheckItem::name_is_empty());
        }
        if is_blank(&self.network_type) {
            items.push(CheckItem::type_is_empty());
        }
        match (self.start_address, self.end_address) {
            (Some(start), Some(end)) => {
                if start.is_ipv4() != end.is_ipv4() {
                    items.push(CheckItem::ip_version_mismatch());
                } else if end.to_number() < start.to_number() {
                    items.push(CheckItem::end_ip_before_start_ip());
                }
            },
            _ => {
                items.push(CheckItem::missing_ip_address());
            },
        }
        let r = Checks { struct_name: "Network", items, sub_checks };
        assert(r@.items =~= self.checks(params.do_subchecks).items);
        r
    }
}

} // verus!
