//! Predefined LaTeX elements.
//!
//! Each function builds the subtree of one common construct: it fixes the identifier, which
//! argument lists are used and whether a newline follows, and lifts the caller's values into
//! elements.
use vstd::prelude::*;
use vstd::string::*;

use super::{
    views, Args, BeginEndBlock, Group, IntoTexElement, MacroCall, Node, OptArgs, RawTex,
    TableRow, TexElement,
};

verus! {

/// The model of a macro call whose identifier is the text `name`.
pub open spec fn named_call(name: Seq<char>, opts: Seq<Node>, args: Seq<Node>, newline: bool) -> Node {
    Node::MacroCall { ident: Box::new(Node::Text(name)), opt_args: opts, args, newline }
}

/// The model of a begin/end block whose identifier is the text `name`.
pub open spec fn named_block(
    name: Seq<char>,
    opts: Seq<Node>,
    args: Seq<Node>,
    children: Seq<Node>,
) -> Node {
    Node::BeginEndBlock { ident: Box::new(Node::Text(name)), opt_args: opts, args, children }
}

/// A source of no items at all.
///
/// Stands for "no arguments" where a caller wants to say so by name.
#[derive(Copy, Clone, Debug)]
pub struct Nothing;

impl Nothing {
    /// The next item, of which there is none.
    pub fn next(&mut self) -> (r: Option<String>)
        ensures
            r is None,
    {
        None
    }
}

/// Ready to use instance of `Nothing`.
pub const N: Nothing = Nothing;

/// Creates a new inline cell-coloring instruction (from the `colortbl` package).
pub fn cellcolor(color: &str) -> (r: MacroCall)
    ensures
        r@ == named_call("cellcolor"@, seq![], seq![Node::Raw(color.spec_bytes())], false),
{
    MacroCall::new_inline("cellcolor", OptArgs::default(), Args::single(raw(color)))
}

/// Creates a new top-level document.
pub fn doc(children: Vec<TexElement>) -> (r: Group)
    ensures
        r@ == Node::Group(views(children@)),
{
    Group::new(children)
}

/// Creates a `documentclass` declaration.
pub fn documentclass<T: IntoTexElement>(opt_args: Vec<TexElement>, doc_class: T) -> (r: MacroCall)
    ensures
        r@ == named_call("documentclass"@, views(opt_args@), seq![doc_class.lifted()], true),
{
    MacroCall::new("documentclass", OptArgs::new(opt_args), Args::single(doc_class))
}

/// Creates a new `document` environment.
pub fn document(children: Vec<TexElement>) -> (r: BeginEndBlock)
    ensures
        r@ == named_block("document"@, seq![], seq![], views(children@)),
{
    BeginEndBlock::new("document", OptArgs::default(), Args::default(), children)
}

/// Creates a new inline footnote.
pub fn footnote<E: IntoTexElement>(footnote_content: E) -> (r: MacroCall)
    ensures
        r@ == named_call("footnote"@, seq![], seq![footnote_content.lifted()], false),
{
    MacroCall::new_inline("footnote", OptArgs::default(), Args::single(footnote_content))
}

/// Creates a new `figure` environment.
pub fn figure<T: IntoTexElement>(alignment: T, children: Vec<TexElement>) -> (r: BeginEndBlock)
    ensures
        r@ == named_block("figure"@, seq![alignment.lifted()], seq![], views(children@)),
{
    BeginEndBlock::new("figure", OptArgs::single(alignment), Args::default(), children)
}

/// Creates a group of elements, written one after the other.
pub fn group(children: Vec<TexElement>) -> (r: Group)
    ensures
        r@ == Node::Group(views(children@)),
{
    Group::new(children)
}

/// Creates an `hspace` element.
pub fn hspace<T: IntoTexElement>(space: T) -> (r: MacroCall)
    ensures
        r@ == named_call("hspace"@, seq![], seq![space.lifted()], false),
{
    MacroCall::new_inline("hspace", OptArgs::default(), Args::single(space))
}

/// Creates an `includegraphics` element.
pub fn includegraphics<T: IntoTexElement>(options: Vec<TexElement>, path: T) -> (r: MacroCall)
    ensures
        r@ == named_call("includegraphics"@, views(options@), seq![path.lifted()], false),
{
    MacroCall::new_inline("includegraphics", OptArgs::new(options), Args::single(path))
}

/// Creates a new `minipage` environment.
pub fn minipage<T: IntoTexElement, U: IntoTexElement>(
    alignment: T,
    width: U,
    children: Vec<TexElement>,
) -> (r: BeginEndBlock)
    ensures
        r@ == named_block(
            "minipage"@,
            seq![alignment.lifted()],
            seq![width.lifted()],
            views(children@),
        ),
{
    BeginEndBlock::new("minipage", OptArgs::single(alignment), Args::single(width), children)
}

/// Creates an "empty" value, representing nothing.
pub fn nothing() -> (r: &'static str)
    ensures
        r@ == Seq::<char>::empty(),
{
    proof {
        reveal_strlit("");
    }
    ""
}

/// Creates new, unescaped LaTeX code.
pub fn raw(code: &str) -> (r: RawTex)
    ensures
        r@ == Node::Raw(code.spec_bytes()),
{
    RawTex::new(vstd::slice::slice_to_vec(code.as_bytes()))
}

/// Creates a new `section` header.
pub fn section<T: IntoTexElement>(title: T) -> (r: MacroCall)
    ensures
        r@ == named_call("section"@, seq![], seq![title.lifted()], true),
{
    MacroCall::new("section", OptArgs::default(), Args::single(title))
}

/// Creates a new `subsection` header.
pub fn subsection<T: IntoTexElement>(title: T) -> (r: MacroCall)
    ensures
        r@ == named_call("subsection"@, seq![], seq![title.lifted()], true),
{
    MacroCall::new("subsection", OptArgs::default(), Args::single(title))
}

/// Creates a row in a table.
pub fn table_row(cols: Vec<TexElement>) -> (r: TableRow)
    ensures
        r@ == Node::TableRow(views(cols@)),
{
    TableRow::new(cols)
}

/// Creates a new `tabular` environment.
///
/// Column definitions should likely be passed as `raw` values, otherwise a `|` in them is
/// escaped.
pub fn tabular<T: IntoTexElement, U: IntoTexElement>(
    width: T,
    column_definitions: U,
    children: Vec<TexElement>,
) -> (r: BeginEndBlock)
    ensures
        r@ == named_block(
            "tabular"@,
            seq![],
            seq![width.lifted(), column_definitions.lifted()],
            views(children@),
        ),
{
    let args = vec![width.into_tex_element(), column_definitions.into_tex_element()];
    proof {
        assert(views(args@) =~= seq![width.lifted(), column_definitions.lifted()]);
    }
    BeginEndBlock::new("tabular", OptArgs::default(), Args::new(args), children)
}

/// Creates a new `tabularx` environment.
///
/// Column definitions should likely be passed as `raw` values, otherwise a `|` in them is
/// escaped.
pub fn tabularx<T: IntoTexElement, U: IntoTexElement>(
    width: T,
    column_definitions: U,
    children: Vec<TexElement>,
) -> (r: BeginEndBlock)
    ensures
        r@ == named_block(
            "tabularx"@,
            seq![],
            seq![width.lifted(), column_definitions.lifted()],
            views(children@),
        ),
{
    let args = vec![width.into_tex_element(), column_definitions.into_tex_element()];
    proof {
        assert(views(args@) =~= seq![width.lifted(), column_definitions.lifted()]);
    }
    BeginEndBlock::new("tabularx", OptArgs::default(), Args::new(args), children)
}

/// Creates a new `textbf` element.
pub fn textbf<T: IntoTexElement>(inner: T) -> (r: MacroCall)
    ensures
        r@ == named_call("textbf"@, seq![], seq![inner.lifted()], false),
{
    MacroCall::new_inline("textbf", OptArgs::default(), Args::single(inner))
}

/// Creates a `usepackage` declaration.
pub fn usepackage<T: IntoTexElement>(opt_args: Vec<TexElement>, package_name: T) -> (r: MacroCall)
    ensures
        r@ == named_call("usepackage"@, views(opt_args@), seq![package_name.lifted()], true),
{
    MacroCall::new("usepackage", OptArgs::new(opt_args), Args::single(package_name))
}

/// Creates a `vspace` element.
pub fn vspace<T: IntoTexElement>(space: T) -> (r: MacroCall)
    ensures
        r@ == named_call("vspace"@, seq![], seq![space.lifted()], false),
{
    MacroCall::new_inline("vspace", OptArgs::default(), Args::single(space))
}

} // verus!
