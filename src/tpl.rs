//! TeX templating.
//!
//! A document is a tree of `TexElement`s, built bottom-up and rendered in one pass. The tree
//! ensures that documents are well-formed syntactically (brackets, braces and `\begin`/`\end`
//! pairs always match), but not semantically.
//!
//! Every element has a view of type `Node`, and `rendering` states in full which bytes a node
//! renders to.
use vstd::prelude::*;
use vstd::string::*;
use vstd::utf8::*;

use crate::tex_escape::{escaped_bytes, lemma_encode_utf8_concat, write_escaped};

pub mod elements;

verus! {

broadcast use vstd::std_specs::vec::group_vec_axioms;

/// The mathematical model of an element: what it holds, with every child already modelled.
pub enum Node {
    /// Bytes inserted as they are.
    Raw(Seq<u8>),
    /// Text that is escaped when rendered.
    Text(Seq<char>),
    /// Optional arguments: `[a,b,...]`, or nothing when there are none.
    OptArgs(Seq<Node>),
    /// Mandatory arguments: `{a}{b}...`, or nothing when there are none.
    Args(Seq<Node>),
    /// `\ident[opts]{args}`, followed by a newline when `newline` is set.
    MacroCall { ident: Box<Node>, opt_args: Seq<Node>, args: Seq<Node>, newline: bool },
    /// `\begin{ident}[opts]{args}`, the children, and `\end{ident}`.
    BeginEndBlock { ident: Box<Node>, opt_args: Seq<Node>, args: Seq<Node>, children: Seq<Node> },
    /// The children enclosed in a pair of braces.
    AnonymousBlock(Seq<Node>),
    /// The children one after the other.
    Group(Seq<Node>),
    /// The cells separated by ` & `, ending the row with `\\` and a newline.
    TableRow(Seq<Node>),
}

/// The bytes that a node renders to.
pub open spec fn rendering(n: Node) -> Seq<u8>
    decreases n, 2int,
{
    match n {
        Node::Raw(bytes) => bytes,
        Node::Text(text) => escaped_bytes(text),
        Node::OptArgs(opts) => opt_args_rendering(opts),
        Node::Args(args) => args_rendering(args),
        Node::MacroCall { ident, opt_args, args, newline } => {
            "\\".spec_bytes() + rendering(*ident) + opt_args_rendering(opt_args)
                + args_rendering(args) + if newline {
                "\n".spec_bytes()
            } else {
                Seq::empty()
            }
        },
        Node::BeginEndBlock { ident, opt_args, args, children } => {
            "\\begin{".spec_bytes() + rendering(*ident) + "}".spec_bytes() + opt_args_rendering(
                opt_args,
            ) + args_rendering(args) + "\n".spec_bytes() + join(children, Seq::empty())
                + "\n\\end{".spec_bytes() + rendering(*ident) + "}\n".spec_bytes()
        },
        Node::AnonymousBlock(children) => {
            "{".spec_bytes() + join(children, Seq::empty()) + "}".spec_bytes()
        },
        Node::Group(children) => join(children, Seq::empty()),
        Node::TableRow(cells) => join(cells, " & ".spec_bytes()) + "\\\\\n".spec_bytes(),
    }
}

/// Optional arguments: nothing when there are none, else `[`, the arguments joined by `,`, `]`.
pub open spec fn opt_args_rendering(opts: Seq<Node>) -> Seq<u8>
    decreases opts, 1int,
{
    if opts.len() == 0 {
        Seq::empty()
    } else {
        "[".spec_bytes() + join(opts, ",".spec_bytes()) + "]".spec_bytes()
    }
}

/// Mandatory arguments: nothing when there are none, else each argument in its own braces.
pub open spec fn args_rendering(args: Seq<Node>) -> Seq<u8>
    decreases args, 1int,
{
    if args.len() == 0 {
        Seq::empty()
    } else {
        "{".spec_bytes() + join(args, "}{".spec_bytes()) + "}".spec_bytes()
    }
}

/// The renderings of `nodes` in order, with `sep` between each two neighbours.
pub open spec fn join(nodes: Seq<Node>, sep: Seq<u8>) -> Seq<u8>
    decreases nodes, 0int,
{
    if nodes.len() == 0 {
        Seq::empty()
    } else if nodes.len() == 1 {
        rendering(nodes[0])
    } else {
        join(nodes.drop_last(), sep) + sep + rendering(nodes.last())
    }
}

/// A TeX element: one of the node kinds, owning its children.
pub enum TexElement {
    Raw(RawTex),
    Text(Text),
    OptArgs(OptArgs),
    Args(Args),
    MacroCall(MacroCall),
    BeginEndBlock(BeginEndBlock),
    AnonymousBlock(AnonymousBlock),
    Group(Group),
    TableRow(TableRow),
}

/// A raw, unescaped piece of TeX code.
///
/// TeX is not guaranteed to be UTF-8 encoded, so `RawTex` keeps bytes. They are inserted into the
/// document without any escaping or check.
pub struct RawTex(Vec<u8>);

/// A text string, escaped when rendered.
pub struct Text(String);

/// A set of optional arguments, rendered in square brackets and separated by commas.
pub struct OptArgs(Vec<TexElement>);

/// A set of arguments, each enclosed in curly braces when rendered.
pub struct Args(Vec<TexElement>);

/// A TeX macro invocation: the typical `\macroname[opt1]{arg1}{arg2}`.
pub struct MacroCall {
    /// Name of the instruction.
    ident: Box<TexElement>,
    /// Optional arguments.
    opt_args: OptArgs,
    /// Mandatory arguments.
    args: Args,
    /// Whether or not to append a newline afterwards.
    newline: bool,
}

/// A block with a begin and end instruction: `\begin{name}` ... `\end{name}`.
pub struct BeginEndBlock {
    /// The identifier of the block, written once and rendered in both places.
    ident: Box<TexElement>,
    /// Optional arguments.
    opt_args: OptArgs,
    /// Mandatory arguments.
    args: Args,
    /// Child elements of the block.
    children: Vec<TexElement>,
}

/// Other elements enclosed in curly braces when rendered.
pub struct AnonymousBlock(Vec<TexElement>);

/// Elements written in order, without any characters added.
pub struct Group(Vec<TexElement>);

/// A table row: the cells joined by ` & `.
pub struct TableRow(Vec<TexElement>);

/// The model of an element.
pub closed spec fn node_of(e: TexElement) -> Node
    decreases e,
{
    match e {
        TexElement::Raw(r) => Node::Raw(r.0@),
        TexElement::Text(t) => Node::Text(t.0@),
        TexElement::OptArgs(o) => Node::OptArgs(nodes_of(o.0@)),
        TexElement::Args(a) => Node::Args(nodes_of(a.0@)),
        TexElement::MacroCall(m) => Node::MacroCall {
            ident: Box::new(node_of(*m.ident)),
            opt_args: nodes_of(m.opt_args.0@),
            args: nodes_of(m.args.0@),
            newline: m.newline,
        },
        TexElement::BeginEndBlock(b) => Node::BeginEndBlock {
            ident: Box::new(node_of(*b.ident)),
            opt_args: nodes_of(b.opt_args.0@),
            args: nodes_of(b.args.0@),
            children: nodes_of(b.children@),
        },
        TexElement::AnonymousBlock(a) => Node::AnonymousBlock(nodes_of(a.0@)),
        TexElement::Group(g) => Node::Group(nodes_of(g.0@)),
        TexElement::TableRow(r) => Node::TableRow(nodes_of(r.0@)),
    }
}

/// The models of a sequence of elements.
closed spec fn nodes_of(s: Seq<TexElement>) -> Seq<Node>
    decreases s,
{
    if s.len() == 0 {
        Seq::empty()
    } else {
        nodes_of(s.drop_last()).push(node_of(s.last()))
    }
}

/// The models of a sequence of elements, in order.
pub open spec fn views(s: Seq<TexElement>) -> Seq<Node> {
    s.map_values(|e: TexElement| e@)
}

impl View for TexElement {
    type V = Node;

    closed spec fn view(&self) -> Node {
        node_of(*self)
    }
}

impl View for RawTex {
    type V = Node;

    closed spec fn view(&self) -> Node {
        node_of(TexElement::Raw(*self))
    }
}

impl View for Text {
    type V = Node;

    closed spec fn view(&self) -> Node {
        node_of(TexElement::Text(*self))
    }
}

impl View for OptArgs {
    type V = Node;

    closed spec fn view(&self) -> Node {
        node_of(TexElement::OptArgs(*self))
    }
}

impl View for Args {
    type V = Node;

    closed spec fn view(&self) -> Node {
        node_of(TexElement::Args(*self))
    }
}

impl View for MacroCall {
    type V = Node;

    closed spec fn view(&self) -> Node {
        node_of(TexElement::MacroCall(*self))
    }
}

impl View for BeginEndBlock {
    type V = Node;

    closed spec fn view(&self) -> Node {
        node_of(TexElement::BeginEndBlock(*self))
    }
}

impl View for AnonymousBlock {
    type V = Node;

    closed spec fn view(&self) -> Node {
        node_of(TexElement::AnonymousBlock(*self))
    }
}

impl View for Group {
    type V = Node;

    closed spec fn view(&self) -> Node {
        node_of(TexElement::Group(*self))
    }
}

impl View for TableRow {
    type V = Node;

    closed spec fn view(&self) -> Node {
        node_of(TexElement::TableRow(*self))
    }
}

/// An element's model is the model of the value it holds.
pub proof fn lemma_element_view(e: TexElement)
    ensures
        match e {
            TexElement::Raw(x) => e@ == x@,
            TexElement::Text(x) => e@ == x@,
            TexElement::OptArgs(x) => e@ == x@,
            TexElement::Args(x) => e@ == x@,
            TexElement::MacroCall(x) => e@ == x@,
            TexElement::BeginEndBlock(x) => e@ == x@,
            TexElement::AnonymousBlock(x) => e@ == x@,
            TexElement::Group(x) => e@ == x@,
            TexElement::TableRow(x) => e@ == x@,
        },
{
}

/// Each kind of element has a model of its own kind; in particular a set of optional arguments
/// renders as its list of nodes in brackets, and a set of arguments as its list in braces.
pub proof fn lemma_view_kinds(
    raw: RawTex,
    text: Text,
    opt_args: OptArgs,
    args: Args,
    call: MacroCall,
    block: BeginEndBlock,
    anonymous: AnonymousBlock,
    group: Group,
    row: TableRow,
)
    ensures
        raw@ is Raw,
        text@ is Text,
        opt_args@ is OptArgs,
        args@ is Args,
        call@ is MacroCall,
        block@ is BeginEndBlock,
        anonymous@ is AnonymousBlock,
        group@ is Group,
        row@ is TableRow,
        rendering(opt_args@) == opt_args_rendering(opt_args@->OptArgs_0),
        rendering(args@) == args_rendering(args@->Args_0),
{
}

proof fn lemma_nodes_of(s: Seq<TexElement>)
    ensures
        nodes_of(s) == views(s),
    decreases s.len(),
{
    if s.len() > 0 {
        lemma_nodes_of(s.drop_last());
    }
    assert(nodes_of(s) =~= views(s));
}

proof fn lemma_no_separator()
    ensures
        "".spec_bytes() == Seq::<u8>::empty(),
{
    reveal_strlit("");
    assert(""@ =~= Seq::<char>::empty());
    assert("".spec_bytes() =~= Seq::<u8>::empty());
}

/// Appends the bytes of `s`.
fn push_str(out: &mut Vec<u8>, s: &str)
    ensures
        final(out)@ == old(out)@ + s.spec_bytes(),
{
    out.extend_from_slice(s.as_bytes());
    assert(final(out)@ =~= old(out)@ + s.spec_bytes());
}

/// Writes a list of elements, with `separator` between each two neighbours.
pub fn write_list(out: &mut Vec<u8>, separator: &str, elems: &Vec<TexElement>)
    ensures
        final(out)@ == old(out)@ + join(views(elems@), separator.spec_bytes()),
    decreases elems,
{
    let ghost start = out@;
    let ghost sep = separator.spec_bytes();
    let mut i: usize = 0;
    while i < elems.len()
        invariant
            i <= elems.len(),
            sep == separator.spec_bytes(),
            out@ == start + join(views(elems@.take(i as int)), sep),
        decreases elems.len() - i,
    {
        let ghost before = views(elems@.take(i as int));
        let ghost after = views(elems@.take(i + 1));
        proof {
            assert(after.drop_last() =~= before);
            assert(after.last() == elems@[i as int]@);
        }
        if i != 0 {
            push_str(out, separator);
        }
        elems[i].write_tex(out);
        proof {
            if i == 0 {
                assert(before.len() == 0);
                assert(after.len() == 1);
                assert(after[0] == after.last());
                assert(join(before, sep) =~= Seq::empty());
                assert(out@ =~= start + join(after, sep));
            } else {
                assert(after.len() >= 2);
                assert(join(after, sep) == join(before, sep) + sep + rendering(elems@[i as int]@));
                assert(out@ =~= start + join(after, sep));
            }
        }
        i += 1;
    }
    proof {
        assert(elems@.take(i as int) =~= elems@);
    }
}

/// The error of a rendering that is not valid UTF-8.
#[verifier::external_type_specification]
#[verifier::external_body]
pub struct ExFromUtf8Error(std::string::FromUtf8Error);

/// Relies on `String::from_utf8`: it succeeds exactly on valid UTF-8, and the string then holds
/// the characters that the bytes encode.
#[verifier::external_body]
fn string_from_utf8(bytes: Vec<u8>) -> (r: Result<String, std::string::FromUtf8Error>)
    ensures
        r is Ok <==> valid_utf8(bytes@),
        r matches Ok(s) ==> s@ == decode_utf8(bytes@),
{
    String::from_utf8(bytes)
}

impl TexElement {
    /// Renders the element into a string.
    ///
    /// Fails when raw bytes in the tree make the rendering invalid UTF-8.
    pub fn render(&self) -> (r: Result<String, std::string::FromUtf8Error>)
        ensures
            r is Ok <==> valid_utf8(rendering(self@)),
            r matches Ok(s) ==> s@ == decode_utf8(rendering(self@)),
    {
        let mut buffer: Vec<u8> = Vec::new();
        self.write_tex(&mut buffer);
        assert(buffer@ =~= rendering(self@));
        string_from_utf8(buffer)
    }

    /// Writes the rendering of the element to `out`.
    pub fn write_tex(&self, out: &mut Vec<u8>)
        ensures
            final(out)@ == old(out)@ + rendering(self@),
        decreases self,
    {
        match self {
            TexElement::Raw(r) => r.write_tex(out),
            TexElement::Text(t) => t.write_tex(out),
            TexElement::OptArgs(o) => o.write_tex(out),
            TexElement::Args(a) => a.write_tex(out),
            TexElement::MacroCall(m) => m.write_tex(out),
            TexElement::BeginEndBlock(b) => b.write_tex(out),
            TexElement::AnonymousBlock(a) => a.write_tex(out),
            TexElement::Group(g) => g.write_tex(out),
            TexElement::TableRow(r) => r.write_tex(out),
        }
    }
}

impl RawTex {
    /// Writes the bytes as they are.
    pub fn write_tex(&self, out: &mut Vec<u8>)
        ensures
            final(out)@ == old(out)@ + rendering(self@),
    {
        out.extend_from_slice(self.0.as_slice());
        assert(final(out)@ =~= old(out)@ + rendering(self@));
    }
}

impl Text {
    /// Writes the text, escaped.
    pub fn write_tex(&self, out: &mut Vec<u8>)
        ensures
            final(out)@ == old(out)@ + rendering(self@),
    {
        write_escaped(out, self.0.as_str());
    }
}

impl OptArgs {
    /// Writes `[`, the arguments separated by `,`, and `]`; nothing when there are none.
    pub fn write_tex(&self, out: &mut Vec<u8>)
        ensures
            final(out)@ == old(out)@ + rendering(self@),
        decreases self,
    {
        proof {
            lemma_nodes_of(self.0@);
            assert(self@ == Node::OptArgs(views(self.0@)));
            assert(rendering(self@) == opt_args_rendering(views(self.0@)));
            assert(views(self.0@).len() == self.0@.len());
        }
        if self.0.len() != 0 {
            push_str(out, "[");
            write_list(out, ",", &self.0);
            push_str(out, "]");
        }
        assert(final(out)@ =~= old(out)@ + rendering(self@));
    }
}

impl Args {
    /// Writes each argument in its own pair of braces; nothing when there are none.
    pub fn write_tex(&self, out: &mut Vec<u8>)
        ensures
            final(out)@ == old(out)@ + rendering(self@),
        decreases self,
    {
        proof {
            lemma_nodes_of(self.0@);
            assert(self@ == Node::Args(views(self.0@)));
            assert(rendering(self@) == args_rendering(views(self.0@)));
            assert(views(self.0@).len() == self.0@.len());
        }
        if self.0.len() != 0 {
            push_str(out, "{");
            write_list(out, "}{", &self.0);
            push_str(out, "}");
        }
        assert(final(out)@ =~= old(out)@ + rendering(self@));
    }
}

impl MacroCall {
    /// Writes `\`, the identifier, the optional and mandatory arguments, and the newline if set.
    pub fn write_tex(&self, out: &mut Vec<u8>)
        ensures
            final(out)@ == old(out)@ + rendering(self@),
        decreases self,
    {
        push_str(out, "\\");
        self.ident.write_tex(out);
        self.opt_args.write_tex(out);
        self.args.write_tex(out);
        if self.newline {
            push_str(out, "\n");
        }
        assert(final(out)@ =~= old(out)@ + rendering(self@));
    }
}

impl BeginEndBlock {
    /// Writes `\begin{ident}`, the arguments, the children and `\end{ident}`.
    pub fn write_tex(&self, out: &mut Vec<u8>)
        ensures
            final(out)@ == old(out)@ + rendering(self@),
        decreases self,
    {
        proof {
            lemma_nodes_of(self.children@);
            lemma_no_separator();
        }
        push_str(out, "\\begin{");
        self.ident.write_tex(out);
        push_str(out, "}");
        self.opt_args.write_tex(out);
        self.args.write_tex(out);
        push_str(out, "\n");
        write_list(out, "", &self.children);
        push_str(out, "\n\\end{");
        self.ident.write_tex(out);
        push_str(out, "}\n");
        assert(final(out)@ =~= old(out)@ + rendering(self@));
    }
}

impl AnonymousBlock {
    /// Writes the children enclosed in braces.
    pub fn write_tex(&self, out: &mut Vec<u8>)
        ensures
            final(out)@ == old(out)@ + rendering(self@),
        decreases self,
    {
        proof {
            lemma_nodes_of(self.0@);
            lemma_no_separator();
        }
        push_str(out, "{");
        write_list(out, "", &self.0);
        push_str(out, "}");
        assert(final(out)@ =~= old(out)@ + rendering(self@));
    }
}

impl Group {
    /// Writes the children in order.
    pub fn write_tex(&self, out: &mut Vec<u8>)
        ensures
            final(out)@ == old(out)@ + rendering(self@),
        decreases self,
    {
        proof {
            lemma_nodes_of(self.0@);
            lemma_no_separator();
        }
        write_list(out, "", &self.0);
    }
}

impl TableRow {
    /// Writes the cells separated by ` & `, then `\\` and a newline.
    pub fn write_tex(&self, out: &mut Vec<u8>)
        ensures
            final(out)@ == old(out)@ + rendering(self@),
        decreases self,
    {
        proof {
            lemma_nodes_of(self.0@);
        }
        write_list(out, " & ", &self.0);
        push_str(out, "\\\\\n");
        assert(final(out)@ =~= old(out)@ + rendering(self@));
    }
}

/// The decimal digit `d` as a character.
pub open spec fn digit_char(d: nat) -> char {
    ((d + 48) as u8) as char
}

/// The decimal digits of `n`, most significant first, without leading zeros.
pub open spec fn digits(n: nat) -> Seq<char>
    decreases n,
{
    if n < 10 {
        seq![digit_char(n)]
    } else {
        digits(n / 10) + seq![digit_char(n % 10)]
    }
}

/// The canonical decimal representation of `n`: a `-` for a negative number, then its digits.
pub open spec fn decimal(n: int) -> Seq<char> {
    if n < 0 {
        seq!['-'] + digits((-n) as nat)
    } else {
        digits(n as nat)
    }
}

/// The single digit `d` as a string.
fn digit_str(d: u128) -> (r: &'static str)
    requires
        d < 10,
    ensures
        r@ == seq![digit_char(d as nat)],
{
    proof {
        reveal_strlit("0");
        reveal_strlit("1");
        reveal_strlit("2");
        reveal_strlit("3");
        reveal_strlit("4");
        reveal_strlit("5");
        reveal_strlit("6");
        reveal_strlit("7");
        reveal_strlit("8");
        reveal_strlit("9");
    }
    let r = if d == 0 {
        "0"
    } else if d == 1 {
        "1"
    } else if d == 2 {
        "2"
    } else if d == 3 {
        "3"
    } else if d == 4 {
        "4"
    } else if d == 5 {
        "5"
    } else if d == 6 {
        "6"
    } else if d == 7 {
        "7"
    } else if d == 8 {
        "8"
    } else {
        "9"
    };
    assert(r@ =~= seq![digit_char(d as nat)]);
    r
}

/// Appends the decimal digits of `n`.
fn push_digits(s: &mut String, n: u128)
    ensures
        final(s)@ == old(s)@ + digits(n as nat),
    decreases n,
{
    if n >= 10 {
        push_digits(s, n / 10);
        s.append(digit_str(n % 10));
        assert(final(s)@ =~= old(s)@ + digits(n as nat));
    } else {
        s.append(digit_str(n));
    }
}

/// The decimal representation of an unsigned number.
fn unsigned_decimal(n: u128) -> (r: String)
    ensures
        r@ == decimal(n as int),
{
    let mut s = String::new();
    push_digits(&mut s, n);
    assert(s@ =~= decimal(n as int));
    s
}

/// The decimal representation of a signed number.
fn signed_decimal(n: i128) -> (r: String)
    ensures
        r@ == decimal(n as int),
{
    if n < 0 {
        let mut s = String::new();
        s.append("-");
        proof {
            reveal_strlit("-");
        }
        let magnitude = (-(n + 1)) as u128 + 1;
        push_digits(&mut s, magnitude);
        assert(s@ =~= decimal(n as int));
        s
    } else {
        unsigned_decimal(n as u128)
    }
}

/// The renderings of `nodes` one after the other.
pub open spec fn concatenated(nodes: Seq<Node>) -> Seq<u8> {
    nodes.map_values(|n: Node| rendering(n)).flatten()
}

/// One mandatory argument in its pair of braces.
pub open spec fn braced(n: Node) -> Seq<u8> {
    "{".spec_bytes() + rendering(n) + "}".spec_bytes()
}

/// The bytes of `a + b` are the bytes of `a` followed by those of `b`.
proof fn lemma_str_split(whole: &str, a: &str, b: &str)
    requires
        whole@ == a@ + b@,
    ensures
        whole.spec_bytes() == a.spec_bytes() + b.spec_bytes(),
{
    lemma_encode_utf8_concat(a@, b@);
}

/// Without a separator, the children are written one after the other.
pub proof fn lemma_join_concatenated(nodes: Seq<Node>)
    ensures
        join(nodes, Seq::empty()) == concatenated(nodes),
    decreases nodes.len(),
{
    let pieces = nodes.map_values(|n: Node| rendering(n));
    if nodes.len() == 0 {
        assert(pieces =~= Seq::<Seq<u8>>::empty());
    } else if nodes.len() == 1 {
        assert(pieces =~= seq![rendering(nodes[0])]);
        pieces.lemma_flatten_singleton();
    } else {
        let init = nodes.drop_last();
        lemma_join_concatenated(init);
        assert(pieces =~= init.map_values(|n: Node| rendering(n)).push(rendering(nodes.last())));
        init.map_values(|n: Node| rendering(n)).lemma_flatten_push(rendering(nodes.last()));
        assert(join(nodes, Seq::empty()) =~= concatenated(nodes));
    }
}

/// Each mandatory argument gets its own pair of braces, and the pairs follow one another:
/// no arguments render as nothing, `[a]` as `{a}`, `[a, b]` as `{a}{b}`.
pub proof fn lemma_args_each_braced(args: Seq<Node>)
    ensures
        rendering(Node::Args(args)) == args.map_values(|n: Node| braced(n)).flatten(),
    decreases args.len(),
{
    let pieces = args.map_values(|n: Node| braced(n));
    assert(rendering(Node::Args(args)) == args_rendering(args));
    if args.len() == 0 {
        assert(pieces =~= Seq::<Seq<u8>>::empty());
        assert(pieces.flatten() =~= Seq::<u8>::empty());
    } else if args.len() == 1 {
        assert(pieces =~= seq![braced(args[0])]);
        pieces.lemma_flatten_singleton();
        assert(join(args, "}{".spec_bytes()) == rendering(args[0]));
        assert(rendering(Node::Args(args)) == braced(args[0]));
    } else {
        let init = args.drop_last();
        lemma_args_each_braced(init);
        assert(pieces =~= init.map_values(|n: Node| braced(n)).push(braced(args.last())));
        init.map_values(|n: Node| braced(n)).lemma_flatten_push(braced(args.last()));
        reveal_strlit("}{");
        reveal_strlit("}");
        reveal_strlit("{");
        assert("}{"@ =~= "}"@ + "{"@);
        lemma_str_split("}{", "}", "{");
        let sep = "}{".spec_bytes();
        assert(rendering(Node::Args(args)) == args_rendering(args));
        assert(rendering(Node::Args(init)) == args_rendering(init));
        assert(join(args, sep) == join(init, sep) + sep + rendering(args.last()));
        assert(rendering(Node::Args(args)) =~= rendering(Node::Args(init)) + braced(args.last()));
    }
}

/// Mandatory arguments: none render as nothing, `[a]` as `{a}`, `[a, b]` as `{a}{b}`.
pub proof fn lemma_args_shapes(a: Node, b: Node)
    ensures
        rendering(Node::Args(seq![])) == Seq::<u8>::empty(),
        rendering(Node::Args(seq![a])) == braced(a),
        rendering(Node::Args(seq![a, b])) == braced(a) + braced(b),
{
    lemma_args_each_braced(seq![]);
    lemma_args_each_braced(seq![a]);
    lemma_args_each_braced(seq![a, b]);
    assert(seq![a].map_values(|n: Node| braced(n)) =~= seq![braced(a)]);
    seq![braced(a)].lemma_flatten_singleton();
    assert(seq![a, b].map_values(|n: Node| braced(n)) =~= seq![braced(a)].push(braced(b)));
    seq![braced(a)].lemma_flatten_push(braced(b));
    assert(seq![a].len() == 1);
}

/// Optional arguments: none render as nothing, `[a]` as `[a]`, `[a, b]` as `[a,b]`.
pub proof fn lemma_opt_args_shapes(a: Node, b: Node)
    ensures
        rendering(Node::OptArgs(seq![])) == Seq::<u8>::empty(),
        rendering(Node::OptArgs(seq![a])) == "[".spec_bytes() + rendering(a) + "]".spec_bytes(),
        rendering(Node::OptArgs(seq![a, b])) == "[".spec_bytes() + rendering(a) + ",".spec_bytes()
            + rendering(b) + "]".spec_bytes(),
{
    let none = Seq::<Node>::empty();
    let one = seq![a];
    let two = seq![a, b];
    assert(rendering(Node::OptArgs(none)) == opt_args_rendering(none));
    assert(rendering(Node::OptArgs(two)) == opt_args_rendering(two));
    assert(rendering(Node::OptArgs(one)) == opt_args_rendering(one));
    assert(two.drop_last() =~= one);
    assert(one.len() == 1);
    assert(one[0] == a && two.last() == b);
    assert(join(one, ",".spec_bytes()) == rendering(a));
    assert(join(two, ",".spec_bytes()) == rendering(a) + ",".spec_bytes() + rendering(b));
    assert(rendering(Node::OptArgs(two)) =~= "[".spec_bytes() + rendering(a) + ",".spec_bytes()
        + rendering(b) + "]".spec_bytes());
}

/// A begin/end block begins with `\begin{I}` and its arguments, holds the rendering of each
/// child in order, and ends with `\end{I}` and a newline, where `I` is the rendering of the one
/// identifier in both places.
pub proof fn lemma_begin_end_shape(
    ident: Node,
    opt_args: Seq<Node>,
    args: Seq<Node>,
    children: Seq<Node>,
)
    ensures
        ({
            let r = rendering(
                Node::BeginEndBlock { ident: Box::new(ident), opt_args, args, children },
            );
            let head = "\\begin{".spec_bytes() + rendering(ident) + "}".spec_bytes()
                + opt_args_rendering(opt_args) + args_rendering(args) + "\n".spec_bytes();
            let tail = "\\end{".spec_bytes() + rendering(ident) + "}\n".spec_bytes();
            &&& r == head + concatenated(children) + "\n".spec_bytes() + tail
            &&& r.subrange(0, head.len() as int) == head
            &&& r.subrange(r.len() - tail.len(), r.len() as int) == tail
        }),
{
    let r = rendering(Node::BeginEndBlock { ident: Box::new(ident), opt_args, args, children });
    let head = "\\begin{".spec_bytes() + rendering(ident) + "}".spec_bytes() + opt_args_rendering(
        opt_args,
    ) + args_rendering(args) + "\n".spec_bytes();
    let tail = "\\end{".spec_bytes() + rendering(ident) + "}\n".spec_bytes();
    lemma_join_concatenated(children);
    reveal_strlit("\n\\end{");
    reveal_strlit("\n");
    reveal_strlit("\\end{");
    assert("\n\\end{"@ =~= "\n"@ + "\\end{"@);
    lemma_str_split("\n\\end{", "\n", "\\end{");
    assert(r =~= head + concatenated(children) + "\n".spec_bytes() + tail);
    assert(r.subrange(0, head.len() as int) =~= head);
    assert(r.subrange(r.len() - tail.len(), r.len() as int) =~= tail);
}

/// Rendering the same element twice gives the same result: identical text both times, or a
/// failure both times.
pub proof fn lemma_render_repeatable(
    e: &TexElement,
    first: Result<String, std::string::FromUtf8Error>,
    second: Result<String, std::string::FromUtf8Error>,
)
    requires
        call_ensures(TexElement::render, (e,), first),
        call_ensures(TexElement::render, (e,), second),
    ensures
        first is Ok <==> second is Ok,
        first matches Ok(a) ==> (second matches Ok(b) && a@ == b@),
{
}

/// Conversion of values into TeX elements.
///
/// Elements are passed through unchanged; `str` and `String` become escaped `Text`; numbers
/// become escaped `Text` holding their decimal representation; a `Vec` of elements becomes a
/// `Group`; the unit type `()` becomes an empty element.
pub trait IntoTexElement: Sized {
    /// The model of the element that the value becomes.
    spec fn lifted(&self) -> Node;

    /// Converts the value into an element.
    fn into_tex_element(self) -> (r: TexElement)
        ensures
            r@ == self.lifted(),
    ;
}

impl IntoTexElement for TexElement {
    open spec fn lifted(&self) -> Node {
        self@
    }

    fn into_tex_element(self) -> (r: TexElement) {
        self
    }
}

impl<'a> IntoTexElement for &'a str {
    open spec fn lifted(&self) -> Node {
        Node::Text(self@)
    }

    fn into_tex_element(self) -> (r: TexElement) {
        TexElement::Text(Text::new(self.to_owned()))
    }
}

impl IntoTexElement for String {
    open spec fn lifted(&self) -> Node {
        Node::Text(self@)
    }

    fn into_tex_element(self) -> (r: TexElement) {
        TexElement::Text(Text::new(self))
    }
}

impl IntoTexElement for () {
    open spec fn lifted(&self) -> Node {
        Node::Raw(Seq::empty())
    }

    fn into_tex_element(self) -> (r: TexElement) {
        TexElement::Raw(RawTex::new(Vec::new()))
    }
}

impl IntoTexElement for Vec<TexElement> {
    open spec fn lifted(&self) -> Node {
        Node::Group(views(self@))
    }

    fn into_tex_element(self) -> (r: TexElement) {
        TexElement::Group(Group::new(self))
    }
}

impl IntoTexElement for u8 {
    open spec fn lifted(&self) -> Node {
        Node::Text(decimal(*self as int))
    }

    fn into_tex_element(self) -> (r: TexElement) {
        TexElement::Text(Text::new(unsigned_decimal(self as u128)))
    }
}

impl IntoTexElement for u16 {
    open spec fn lifted(&self) -> Node {
        Node::Text(decimal(*self as int))
    }

    fn into_tex_element(self) -> (r: TexElement) {
        TexElement::Text(Text::new(unsigned_decimal(self as u128)))
    }
}

impl IntoTexElement for u32 {
    open spec fn lifted(&self) -> Node {
        Node::Text(decimal(*self as int))
    }

    fn into_tex_element(self) -> (r: TexElement) {
        TexElement::Text(Text::new(unsigned_decimal(self as u128)))
    }
}

impl IntoTexElement for u64 {
    open spec fn lifted(&self) -> Node {
        Node::Text(decimal(*self as int))
    }

    fn into_tex_element(self) -> (r: TexElement) {
        TexElement::Text(Text::new(unsigned_decimal(self as u128)))
    }
}

impl IntoTexElement for u128 {
    open spec fn lifted(&self) -> Node {
        Node::Text(decimal(*self as int))
    }

    fn into_tex_element(self) -> (r: TexElement) {
        TexElement::Text(Text::new(unsigned_decimal(self)))
    }
}

impl IntoTexElement for i8 {
    open spec fn lifted(&self) -> Node {
        Node::Text(decimal(*self as int))
    }

    fn into_tex_element(self) -> (r: TexElement) {
        TexElement::Text(Text::new(signed_decimal(self as i128)))
    }
}

impl IntoTexElement for i16 {
    open spec fn lifted(&self) -> Node {
        Node::Text(decimal(*self as int))
    }

    fn into_tex_element(self) -> (r: TexElement) {
        TexElement::Text(Text::new(signed_decimal(self as i128)))
    }
}

impl IntoTexElement for i32 {
    open spec fn lifted(&self) -> Node {
        Node::Text(decimal(*self as int))
    }

    fn into_tex_element(self) -> (r: TexElement) {
        TexElement::Text(Text::new(signed_decimal(self as i128)))
    }
}

impl IntoTexElement for i64 {
    open spec fn lifted(&self) -> Node {
        Node::Text(decimal(*self as int))
    }

    fn into_tex_element(self) -> (r: TexElement) {
        TexElement::Text(Text::new(signed_decimal(self as i128)))
    }
}

impl IntoTexElement for i128 {
    open spec fn lifted(&self) -> Node {
        Node::Text(decimal(*self as int))
    }

    fn into_tex_element(self) -> (r: TexElement) {
        TexElement::Text(Text::new(signed_decimal(self)))
    }
}

impl IntoTexElement for RawTex {
    open spec fn lifted(&self) -> Node {
        self@
    }

    fn into_tex_element(self) -> (r: TexElement) {
        TexElement::Raw(self)
    }
}

impl IntoTexElement for Text {
    open spec fn lifted(&self) -> Node {
        self@
    }

    fn into_tex_element(self) -> (r: TexElement) {
        TexElement::Text(self)
    }
}

impl IntoTexElement for OptArgs {
    open spec fn lifted(&self) -> Node {
        self@
    }

    fn into_tex_element(self) -> (r: TexElement) {
        TexElement::OptArgs(self)
    }
}

impl IntoTexElement for Args {
    open spec fn lifted(&self) -> Node {
        self@
    }

    fn into_tex_element(self) -> (r: TexElement) {
        TexElement::Args(self)
    }
}

impl IntoTexElement for MacroCall {
    open spec fn lifted(&self) -> Node {
        self@
    }

    fn into_tex_element(self) -> (r: TexElement) {
        TexElement::MacroCall(self)
    }
}

impl IntoTexElement for BeginEndBlock {
    open spec fn lifted(&self) -> Node {
        self@
    }

    fn into_tex_element(self) -> (r: TexElement) {
        TexElement::BeginEndBlock(self)
    }
}

impl IntoTexElement for AnonymousBlock {
    open spec fn lifted(&self) -> Node {
        self@
    }

    fn into_tex_element(self) -> (r: TexElement) {
        TexElement::AnonymousBlock(self)
    }
}

impl IntoTexElement for Group {
    open spec fn lifted(&self) -> Node {
        self@
    }

    fn into_tex_element(self) -> (r: TexElement) {
        TexElement::Group(self)
    }
}

impl IntoTexElement for TableRow {
    open spec fn lifted(&self) -> Node {
        self@
    }

    fn into_tex_element(self) -> (r: TexElement) {
        TexElement::TableRow(self)
    }
}

impl RawTex {
    /// Creates a new raw TeX element from bytes.
    pub fn new(raw: Vec<u8>) -> (r: Self)
        ensures
            r@ == Node::Raw(raw@),
    {
        RawTex(raw)
    }
}

impl Text {
    /// Creates a new text string.
    pub fn new(raw: String) -> (r: Self)
        ensures
            r@ == Node::Text(raw@),
    {
        Text(raw)
    }
}

impl OptArgs {
    /// Creates a new set of optional arguments.
    pub fn new(elements: Vec<TexElement>) -> (r: Self)
        ensures
            r@ == Node::OptArgs(views(elements@)),
    {
        proof {
            lemma_nodes_of(elements@);
        }
        OptArgs(elements)
    }

    /// Creates a set of optional arguments that holds a single value.
    pub fn single<T: IntoTexElement>(elem: T) -> (r: Self)
        ensures
            r@ == Node::OptArgs(seq![elem.lifted()]),
    {
        let v = vec![elem.into_tex_element()];
        proof {
            lemma_nodes_of(v@);
            assert(views(v@) =~= seq![elem.lifted()]);
        }
        OptArgs(v)
    }
}

impl Default for OptArgs {
    /// No optional arguments.
    fn default() -> (r: Self)
        ensures
            r@ == Node::OptArgs(Seq::empty()),
    {
        let r = OptArgs::new(Vec::new());
        assert(views(Seq::<TexElement>::empty()) =~= Seq::empty());
        r
    }
}

impl Args {
    /// Creates a new set of arguments.
    pub fn new(elements: Vec<TexElement>) -> (r: Self)
        ensures
            r@ == Node::Args(views(elements@)),
    {
        proof {
            lemma_nodes_of(elements@);
        }
        Args(elements)
    }

    /// Creates a set of arguments that holds a single value.
    pub fn single<T: IntoTexElement>(elem: T) -> (r: Self)
        ensures
            r@ == Node::Args(seq![elem.lifted()]),
    {
        let v = vec![elem.into_tex_element()];
        proof {
            lemma_nodes_of(v@);
            assert(views(v@) =~= seq![elem.lifted()]);
        }
        Args(v)
    }
}

impl Default for Args {
    /// No arguments.
    fn default() -> (r: Self)
        ensures
            r@ == Node::Args(Seq::empty()),
    {
        let r = Args::new(Vec::new());
        assert(views(Seq::<TexElement>::empty()) =~= Seq::empty());
        r
    }
}

impl MacroCall {
    /// Creates a new macro call, which ends with a newline when rendered.
    pub fn new<T: IntoTexElement>(ident: T, opt_args: OptArgs, args: Args) -> (r: Self)
        ensures
            r@ == (Node::MacroCall {
                ident: Box::new(ident.lifted()),
                opt_args: opt_args@->OptArgs_0,
                args: args@->Args_0,
                newline: true,
            }),
    {
        MacroCall { ident: Box::new(ident.into_tex_element()), opt_args, args, newline: true }
    }

    /// Creates a new inline macro call, which does not end with a newline.
    pub fn new_inline<T: IntoTexElement>(ident: T, opt_args: OptArgs, args: Args) -> (r: Self)
        ensures
            r@ == (Node::MacroCall {
                ident: Box::new(ident.lifted()),
                opt_args: opt_args@->OptArgs_0,
                args: args@->Args_0,
                newline: false,
            }),
    {
        MacroCall { ident: Box::new(ident.into_tex_element()), opt_args, args, newline: false }
    }
}

impl BeginEndBlock {
    /// Creates a new begin/end block.
    pub fn new<T: IntoTexElement>(
        ident: T,
        opt_args: OptArgs,
        args: Args,
        children: Vec<TexElement>,
    ) -> (r: Self)
        ensures
            r@ == (Node::BeginEndBlock {
                ident: Box::new(ident.lifted()),
                opt_args: opt_args@->OptArgs_0,
                args: args@->Args_0,
                children: views(children@),
            }),
    {
        proof {
            lemma_nodes_of(children@);
        }
        BeginEndBlock { ident: Box::new(ident.into_tex_element()), opt_args, args, children }
    }
}

impl AnonymousBlock {
    /// Creates a new anonymous block.
    pub fn new(elems: Vec<TexElement>) -> (r: Self)
        ensures
            r@ == Node::AnonymousBlock(views(elems@)),
    {
        proof {
            lemma_nodes_of(elems@);
        }
        AnonymousBlock(elems)
    }
}

impl Group {
    /// Creates a new group.
    pub fn new(elems: Vec<TexElement>) -> (r: Self)
        ensures
            r@ == Node::Group(views(elems@)),
    {
        proof {
            lemma_nodes_of(elems@);
        }
        Group(elems)
    }
}

impl TableRow {
    /// Creates a new table row.
    pub fn new(elems: Vec<TexElement>) -> (r: Self)
        ensures
            r@ == Node::TableRow(views(elems@)),
    {
        proof {
            lemma_nodes_of(elems@);
        }
        TableRow(elems)
    }
}

} // verus!
