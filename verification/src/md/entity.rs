//! The markdown of an entity.

use super::{header, to_header, type_id_of, MdOptions, MdParams, ToMd};
use crate::response::Entity;
use crate::strings::push_char;
use vstd::prelude::*;

verus! {

impl ToMd for Entity {
    /// What every response carries, the heading `Entity`, what every
    /// object class carries, and an empty line.
    open spec fn md(&self, heading_level: usize, options: MdOptions) -> Seq<char> {
        self.common.md(heading_level, options) + header("Entity"@, heading_level, options)
            + self.object_common.md(heading_level, options) + seq!['\n']
    }

    fn to_md(&self, params: MdParams) -> (r: String) {
        let typeid = type_id_of::<Entity>();
        let mut md = String::new();
        md.append(self.common.to_md(params.from_parent(typeid)).as_str());
        md.append(to_header("Entity", params.heading_level, params.options).as_str());
        md.append(self.object_common.to_md(params.from_parent(typeid)).as_str());
        push_char(&mut md, '\n');
        assert(md@ =~= self.md(params.heading_level, *params.options));
        md
    }
}

} // verus!
