//! The markdown of an error response.

use super::{header, to_header, type_id_of, MdOptions, MdParams, ToMd};
use crate::response::RdapError;
use crate::strings::push_char;
use vstd::prelude::*;

verus! {

impl ToMd for RdapError {
    /// What every response carries, the heading `Error`, and an empty
    /// line.
    open spec fn md(&self, heading_level: usize, options: MdOptions) -> Seq<char> {
        self.common.md(heading_level, options) + header("Error"@, heading_level, options)
            + seq!['\n']
    }

    fn to_md(&self, params: MdParams) -> (r: String) {
        let typeid = type_id_of::<RdapError>();
        let mut md = String::new();
        md.append(self.common.to_md(params.from_parent(typeid)).as_str());
        md.append(to_header("Error", params.heading_level, params.options).as_str());
        push_char(&mut md, '\n');
        assert(md@ =~= self.md(params.heading_level, *params.options));
        md
    }
}

} // verus!
