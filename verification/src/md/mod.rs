//! Rendering of responses as markdown.

use crate::check::CheckClass;
use crate::response::RdapResponse;
use crate::strings::push_char;
use std::any::TypeId;
use vstd::prelude::*;
use vstd::utf8::encode_utf8;

pub mod autnum;
pub mod domain;
pub mod entity;
pub mod error;
pub mod help;
pub mod nameserver;
pub mod network;
pub mod types;

verus! {

/// `TypeId::of`: the identifier that the runtime gives to the type `T`.
#[verifier::external_body]
pub(crate) fn type_id_of<T: 'static>() -> TypeId {
    TypeId::of::<T>()
}

/// A horizontal rule.
pub const HR: &'static str = "----------------------------------------\n";

/// Specifies options for generating markdown.
pub struct MdOptions {
    /// If true, do not use Unicode characters.
    pub no_unicode_chars: bool,
    /// The character used for text styling of bold and italics.
    pub text_style_char: char,
    /// If true, headers use the hash marks or under lines.
    pub hash_headers: bool,
    /// If true, the text_style_char will appear in a justified text.
    pub style_in_justify: bool,
}

impl Default for MdOptions {
    fn default() -> (r: Self)
        ensures
            r == (MdOptions {
                no_unicode_chars: false,
                text_style_char: '*',
                hash_headers: true,
                style_in_justify: false,
            }),
    {
        MdOptions {
            no_unicode_chars: false,
            text_style_char: '*',
            hash_headers: true,
            style_in_justify: false,
        }
    }
}

impl MdOptions {
    /// Defaults for markdown that looks more like plain text.
    pub fn plain_text() -> (r: Self)
        ensures
            r == (MdOptions {
                no_unicode_chars: true,
                text_style_char: '_',
                hash_headers: false,
                style_in_justify: true,
            }),
    {
        MdOptions {
            no_unicode_chars: true,
            text_style_char: '_',
            hash_headers: false,
            style_in_justify: true,
        }
    }
}

/// The request that a response answers.
pub struct RequestData<'a> {
    /// The place of the request in a series, from one.
    pub req_number: usize,
    /// The host that was asked.
    pub source_host: &'a str,
}

/// What a rendering is told about where the structure stands.
#[derive(Clone, Copy)]
pub struct MdParams<'a> {
    pub heading_level: usize,
    pub root: &'a RdapResponse,
    pub parent_type: Option<TypeId>,
    pub check_types: &'a [CheckClass],
    pub options: &'a MdOptions,
    pub req_data: &'a RequestData<'a>,
}

impl<'a> MdParams<'a> {
    /// The parameters for a structure inside one of type `parent_type`.
    pub fn from_parent(&self, parent_type: TypeId) -> (r: Self)
        ensures
            r.parent_type == Some(parent_type),
            r.heading_level == self.heading_level,
            r.root == self.root,
            r.check_types == self.check_types,
            r.options == self.options,
            r.req_data == self.req_data,
    {
        MdParams {
            parent_type: Some(parent_type),
            heading_level: self.heading_level,
            root: self.root,
            check_types: self.check_types,
            options: self.options,
            req_data: self.req_data,
        }
    }
}

/// A structure that can be rendered as markdown.
pub trait ToMd {
    /// The markdown of the structure under a heading of the given level.
    spec fn md(&self, heading_level: usize, options: MdOptions) -> Seq<char>;

    /// Renders the structure.
    fn to_md(&self, params: MdParams) -> (r: String)
        ensures
            r@ == self.md(params.heading_level, *params.options),
    ;
}

impl ToMd for RdapResponse {
    /// The markdown of the record that the response holds, and a rule
    /// below it.
    open spec fn md(&self, heading_level: usize, options: MdOptions) -> Seq<char> {
        (match self {
            RdapResponse::Entity(entity) => entity.md(heading_level, options),
            RdapResponse::Domain(domain) => domain.md(heading_level, options),
            RdapResponse::Nameserver(nameserver) => nameserver.md(heading_level, options),
            RdapResponse::Autnum(autnum) => autnum.md(heading_level, options),
            RdapResponse::Network(network) => network.md(heading_level, options),
            RdapResponse::ErrorResponse(error) => error.md(heading_level, options),
            RdapResponse::Help(help) => help.md(heading_level, options),
        }) + HR@
    }

    fn to_md(&self, params: MdParams) -> (r: String) {
        let mut md = String::new();
        let variant_md = match &self {
            RdapResponse::Entity(entity) => entity.to_md(params),
            RdapResponse::Domain(domain) => domain.to_md(params),
            RdapResponse::Nameserver(nameserver) => nameserver.to_md(params),
            RdapResponse::Autnum(autnum) => autnum.to_md(params),
            RdapResponse::Network(network) => network.to_md(params),
            RdapResponse::ErrorResponse(error) => error.to_md(params),
            RdapResponse::Help(help) => help.to_md(params),
        };
        md.append(variant_md.as_str());
        md.append(HR);
        assert(md@ =~= self.md(params.heading_level, *params.options));
        md
    }
}

/// `n` times the character `c`.
pub open spec fn repeated(c: char, n: nat) -> Seq<char> {
    Seq::new(n, |i: int| c)
}

/// Appends `n` times the character `c`.
pub fn push_repeated(s: &mut String, c: char, n: usize)
    ensures
        final(s)@ == old(s)@ + repeated(c, n as nat),
{
    let mut i: usize = 0;
    assert(s@ =~= old(s)@ + repeated(c, 0));
    while i < n
        invariant
            i <= n,
            s@ == old(s)@ + repeated(c, i as nat),
        decreases n - i,
    {
        push_char(s, c);
        i += 1;
        assert(s@ =~= old(s)@ + repeated(c, i as nat));
    }
}

/// The text between two style characters: emphasis.
pub open spec fn em(text: Seq<char>, options: MdOptions) -> Seq<char> {
    seq![options.text_style_char] + text + seq![options.text_style_char]
}

/// The text between two pairs of style characters: strong emphasis.
pub open spec fn bold(text: Seq<char>, options: MdOptions) -> Seq<char> {
    seq![options.text_style_char, options.text_style_char] + text
        + seq![options.text_style_char, options.text_style_char]
}

/// The text as a heading: behind as many hash marks as the level, or
/// above a line as long as the text has bytes, of `=` at level 1 and of
/// `-` at the others.
pub open spec fn header(text: Seq<char>, level: usize, options: MdOptions) -> Seq<char> {
    if options.hash_headers {
        repeated('#', level as nat) + seq![' '] + text + seq!['\n', '\n']
    } else {
        text + seq!['\n'] + repeated(
            if level == 1 {
                '='
            } else {
                '-'
            },
            encode_utf8(text).len(),
        ) + seq!['\n', '\n']
    }
}

/// The character that fills a text up to a width: a space, or an em space
/// where Unicode is allowed.
pub open spec fn filler(options: MdOptions) -> char {
    if options.no_unicode_chars {
        ' '
    } else {
        '\u{2003}'
    }
}

/// How many characters a text lacks to the width.
pub open spec fn lack(text: Seq<char>, width: usize) -> nat {
    if width > text.len() {
        (width - text.len()) as nat
    } else {
        0
    }
}

/// The text at the right end of the width.
pub open spec fn right(text: Seq<char>, width: usize, options: MdOptions) -> Seq<char> {
    repeated(filler(options), lack(text, width)) + text
}

/// The text at the left end of the width.
pub open spec fn left(text: Seq<char>, width: usize, options: MdOptions) -> Seq<char> {
    text + repeated(filler(options), lack(text, width))
}

/// The text in the middle of the width; of an odd number of filling
/// characters the right side has one more.
pub open spec fn center(text: Seq<char>, width: usize, options: MdOptions) -> Seq<char> {
    repeated(filler(options), lack(text, width) / 2) + text + repeated(
        filler(options),
        (lack(text, width) - lack(text, width) / 2) as nat,
    )
}

/// The character that fills a text up to a width.
fn fill_char(options: &MdOptions) -> (c: char)
    ensures
        c == filler(*options),
{
    if options.no_unicode_chars {
        ' '
    } else {
        '\u{2003}'
    }
}

/// How many characters `text` lacks to `width`.
fn lacking(text: &str, width: usize) -> (n: usize)
    ensures
        n == lack(text@, width),
{
    let len = text.unicode_len();
    if width > len {
        width - len
    } else {
        0
    }
}

pub fn to_em(text: &str, options: &MdOptions) -> (r: String)
    ensures
        r@ == em(text@, *options),
{
    let mut r = String::new();
    push_char(&mut r, options.text_style_char);
    r.append(text);
    push_char(&mut r, options.text_style_char);
    assert(r@ =~= em(text@, *options));
    r
}

pub fn to_bold(text: &str, options: &MdOptions) -> (r: String)
    ensures
        r@ == bold(text@, *options),
{
    let mut r = String::new();
    push_char(&mut r, options.text_style_char);
    push_char(&mut r, options.text_style_char);
    r.append(text);
    push_char(&mut r, options.text_style_char);
    push_char(&mut r, options.text_style_char);
    assert(r@ =~= bold(text@, *options));
    r
}

pub fn to_header(text: &str, level: usize, options: &MdOptions) -> (r: String)
    ensures
        r@ == header(text@, level, *options),
{
    let mut r = String::new();
    if options.hash_headers {
        push_repeated(&mut r, '#', level);
        push_char(&mut r, ' ');
        r.append(text);
    } else {
        r.append(text);
        push_char(&mut r, '\n');
        let line = if level == 1 {
            '='
        } else {
            '-'
        };
        push_repeated(&mut r, line, text.as_bytes().len());
    }
    push_char(&mut r, '\n');
    push_char(&mut r, '\n');
    assert(r@ =~= header(text@, level, *options));
    r
}

pub fn to_right(text: &str, width: usize, options: &MdOptions) -> (r: String)
    ensures
        r@ == right(text@, width, *options),
{
    let mut r = String::new();
    push_repeated(&mut r, fill_char(options), lacking(text, width));
    r.append(text);
    assert(r@ =~= right(text@, width, *options));
    r
}

pub fn to_right_em(text: &str, width: usize, options: &MdOptions) -> (r: String)
    ensures
        r@ == (if options.style_in_justify {
            right(em(text@, *options), width, *options)
        } else {
            em(right(text@, width, *options), *options)
        }),
{
    if options.style_in_justify {
        to_right(to_em(text, options).as_str(), width, options)
    } else {
        to_em(to_right(text, width, options).as_str(), options)
    }
}

pub fn to_right_bold(text: &str, width: usize, options: &MdOptions) -> (r: String)
    ensures
        r@ == (if options.style_in_justify {
            right(bold(text@, *options), width, *options)
        } else {
            bold(right(text@, width, *options), *options)
        }),
{
    if options.style_in_justify {
        to_right(to_bold(text, options).as_str(), width, options)
    } else {
        to_bold(to_right(text, width, options).as_str(), options)
    }
}

pub fn to_left(text: &str, width: usize, options: &MdOptions) -> (r: String)
    ensures
        r@ == left(text@, width, *options),
{
    let mut r = String::new();
    r.append(text);
    push_repeated(&mut r, fill_char(options), lacking(text, width));
    assert(r@ =~= left(text@, width, *options));
    r
}

pub fn to_left_em(text: &str, width: usize, options: &MdOptions) -> (r: String)
    ensures
        r@ == (if options.style_in_justify {
            left(em(text@, *options), width, *options)
        } else {
            em(left(text@, width, *options), *options)
        }),
{
    if options.style_in_justify {
        to_left(to_em(text, options).as_str(), width, options)
    } else {
        to_em(to_left(text, width, options).as_str(), options)
    }
}

pub fn to_left_bold(text: &str, width: usize, options: &MdOptions) -> (r: String)
    ensures
        r@ == (if options.style_in_justify {
            left(bold(text@, *options), width, *options)
        } else {
            bold(left(text@, width, *options), *options)
        }),
{
    if options.style_in_justify {
        to_left(to_bold(text, options).as_str(), width, options)
    } else {
        to_bold(to_left(text, width, options).as_str(), options)
    }
}

pub fn to_center(text: &str, width: usize, options: &MdOptions) -> (r: String)
    ensures
        r@ == center(text@, width, *options),
{
    let pad = lacking(text, width);
    let before = pad / 2;
    let mut r = String::new();
    push_repeated(&mut r, fill_char(options), before);
    r.append(text);
    push_repeated(&mut r, fill_char(options), pad - before);
    assert(r@ =~= center(text@, width, *options));
    r
}

pub fn to_center_em(text: &str, width: usize, options: &MdOptions) -> (r: String)
    ensures
        r@ == (if options.style_in_justify {
            center(em(text@, *options), width, *options)
        } else {
            em(center(text@, width, *options), *options)
        }),
{
    if options.style_in_justify {
        to_center(to_em(text, options).as_str(), width, options)
    } else {
        to_em(to_center(text, width, options).as_str(), options)
    }
}

pub fn to_center_bold(text: &str, width: usize, options: &MdOptions) -> (r: String)
    ensures
        r@ == (if options.style_in_justify {
            center(bold(text@, *options), width, *options)
        } else {
            bold(center(text@, width, *options), *options)
        }),
{
    if options.style_in_justify {
        to_center(to_bold(text, options).as_str(), width, options)
    } else {
        to_bold(to_center(text, width, options).as_str(), options)
    }
}

} // verus!
