//! The markdown of what responses and object classes have in common.

use super::{bold, to_bold, MdOptions, MdParams, ToMd};
use crate::response::{opt_texts, text, texts, Common, ObjectCommon};
use crate::strings::push_char;
use vstd::prelude::*;

verus! {

/// A bullet for each text of the list, one to a line.
pub open spec fn bullets(list: Seq<Seq<char>>) -> Seq<char>
    decreases list.len(),
{
    if list.len() == 0 {
        Seq::empty()
    } else {
        bullets(list.drop_last()) + "* "@ + list.last() + seq!['\n']
    }
}

/// The bullets of an optional list; nothing for no list.
pub open spec fn opt_bullets(list: Option<Seq<Seq<char>>>) -> Seq<char> {
    match list {
        Some(l) => bullets(l),
        None => Seq::empty(),
    }
}

/// A line that names a value: the label in strong emphasis, a colon and
/// the value. Nothing for no value.
pub open spec fn labelled(label: Seq<char>, value: Option<Seq<char>>, options: MdOptions) -> Seq<
    char,
> {
    match value {
        Some(v) => bold(label, options) + ": "@ + v + seq!['\n'],
        None => Seq::empty(),
    }
}

/// Appends a bullet for each text of the list.
pub fn push_bullets(md: &mut String, list: &Option<Vec<String>>)
    ensures
        final(md)@ == old(md)@ + opt_bullets(opt_texts(*list)),
{
    match list {
        None => {
            assert(md@ =~= old(md)@ + opt_bullets(opt_texts(*list)));
        },
        Some(l) => {
            let ghost all = texts(l@);
            let mut i: usize = 0;
            assert(all.take(0) =~= Seq::<Seq<char>>::empty());
            assert(md@ =~= old(md)@ + bullets(all.take(0)));
            while i < l.len()
                invariant
                    i <= l.len(),
                    all == texts(l@),
                    md@ == old(md)@ + bullets(all.take(i as int)),
                decreases l.len() - i,
            {
                let ghost before = md@;
                md.append("* ");
                md.append(l[i].as_str());
                push_char(md, '\n');
                proof {
                    let next = all.take(i + 1);
                    assert(next.drop_last() =~= all.take(i as int));
                    assert(next.last() == l[i as int]@);
                    assert(md@ =~= old(md)@ + bullets(next));
                }
                i += 1;
            }
            assert(all.take(l.len() as int) =~= all);
        },
    }
}

/// Appends a line that names a value, if there is one.
pub fn push_labelled(md: &mut String, label: &str, value: &Option<String>, options: &MdOptions)
    ensures
        final(md)@ == old(md)@ + labelled(label@, text(*value), *options),
{
    match value {
        Some(v) => {
            md.append(to_bold(label, options).as_str());
            md.append(": ");
            md.append(v.as_str());
            push_char(md, '\n');
            assert(md@ =~= old(md)@ + labelled(label@, text(*value), *options));
        },
        None => {
            assert(md@ =~= old(md)@ + labelled(label@, text(*value), *options));
        },
    }
}

impl ToMd for Common {
    /// A bullet for each conformance that the response claims.
    open spec fn md(&self, heading_level: usize, options: MdOptions) -> Seq<char> {
        opt_bullets(opt_texts(self.rdap_conformance))
    }

    fn to_md(&self, params: MdParams) -> (r: String) {
        let mut md = String::new();
        push_bullets(&mut md, &self.rdap_conformance);
        assert(md@ =~= self.md(params.heading_level, *params.options));
        md
    }
}

impl ToMd for ObjectCommon {
    /// The handle, a bullet for each status, and the port 43 server.
    open spec fn md(&self, heading_level: usize, options: MdOptions) -> Seq<char> {
        labelled("Handle"@, text(self.handle), options) + opt_bullets(opt_texts(self.status))
            + labelled("Port 43 Whois"@, text(self.port_43), options)
    }

    fn to_md(&self, params: MdParams) -> (r: String) {
        let mut md = String::new();
        push_labelled(&mut md, "Handle", &self.handle, params.options);
        push_bullets(&mut md, &self.status);
        push_labelled(&mut md, "Port 43 Whois", &self.port_43, params.options);
        assert(md@ =~= self.md(params.heading_level, *params.options));
        md
    }
}

} // verus!
