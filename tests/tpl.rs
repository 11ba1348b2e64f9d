use texrender::tpl::elements::{
    cellcolor, doc, document, documentclass, figure, footnote, group, hspace, includegraphics,
    minipage, nothing, raw, section, subsection, table_row, tabular, tabularx, textbf, usepackage,
    vspace, Nothing, N,
};
use texrender::tpl::{
    write_list, AnonymousBlock, Args, BeginEndBlock, Group, IntoTexElement, MacroCall, OptArgs,
    RawTex, TableRow, TexElement, Text,
};

fn render<T: IntoTexElement>(x: T) -> String {
    x.into_tex_element().render().expect("rendering failed")
}

fn text(s: &str) -> TexElement {
    s.into_tex_element()
}

#[test]
fn args_render_each_in_braces() {
    assert_eq!(render(Args::new(vec![])), "");
    assert_eq!(render(Args::new(vec![text("a")])), "{a}");
    assert_eq!(render(Args::new(vec![text("a"), text("b")])), "{a}{b}");
    assert_eq!(render(Args::single("x&y")), "{x\\&y}");
    assert_eq!(render(Args::default()), "");
}

#[test]
fn opt_args_render_in_brackets() {
    assert_eq!(render(OptArgs::new(vec![])), "");
    assert_eq!(render(OptArgs::new(vec![text("a")])), "[a]");
    assert_eq!(render(OptArgs::new(vec![text("a"), text("b")])), "[a,b]");
    assert_eq!(render(OptArgs::single("12pt")), "[12pt]");
    assert_eq!(render(OptArgs::default()), "");
}

#[test]
fn begin_end_block_wraps_children() {
    let block = BeginEndBlock::new(
        "itemize",
        OptArgs::single("t"),
        Args::new(vec![text("x"), text("y")]),
        vec![text("one"), raw("\\item two").into_tex_element()],
    );
    let out = render(block);
    assert_eq!(out, "\\begin{itemize}[t]{x}{y}\none\\item two\n\\end{itemize}\n");
    assert!(out.starts_with("\\begin{itemize}"));
    assert!(out.ends_with("\\end{itemize}\n"));
}

#[test]
fn begin_end_block_without_children() {
    let block = BeginEndBlock::new("center", OptArgs::default(), Args::default(), vec![]);
    assert_eq!(render(block), "\\begin{center}\n\n\\end{center}\n");
}

#[test]
fn rendering_twice_is_identical() {
    let tree = doc(vec![
        section("Title & more").into_tex_element(),
        text("body 100%"),
        textbf(42u32).into_tex_element(),
    ])
    .into_tex_element();
    let first = tree.render().unwrap();
    let second = tree.render().unwrap();
    assert_eq!(first, second);
    let mut a: Vec<u8> = Vec::new();
    let mut b: Vec<u8> = Vec::new();
    tree.write_tex(&mut a);
    tree.write_tex(&mut b);
    assert_eq!(a, b);
}

#[test]
fn hello_world_document() {
    let doctype = MacroCall::new("documentclass", OptArgs::single("12pt"), Args::single("article"));
    let contents: Vec<TexElement> = vec![
        MacroCall::new("section", OptArgs::default(), Args::single("Hello, world"))
            .into_tex_element(),
        "This is fun & easy.".into_tex_element(),
    ];
    let document = BeginEndBlock::new("document", OptArgs::default(), Args::default(), contents);
    let tex = Group::new(vec![doctype.into_tex_element(), document.into_tex_element()]);
    let output = render(tex);
    assert_eq!(
        output,
        "\\documentclass[12pt]{article}\n\
         \\begin{document}\n\
         \\section{Hello, world}\n\
         This is fun \\& easy.\n\
         \\end{document}\n"
    );
}

#[test]
fn hello_world_with_elements() {
    let tex = doc(vec![
        documentclass(vec![], "article").into_tex_element(),
        document(vec![section("Hello, world").into_tex_element(), text("This is fun & easy.")])
            .into_tex_element(),
    ]);
    assert_eq!(
        render(tex),
        "\\documentclass{article}\n\
         \\begin{document}\n\
         \\section{Hello, world}\n\
         This is fun \\& easy.\n\
         \\end{document}\n"
    );
}

#[test]
fn macro_call_newline_or_inline() {
    assert_eq!(render(MacroCall::new("par", OptArgs::default(), Args::default())), "\\par\n");
    assert_eq!(
        render(MacroCall::new_inline("emph", OptArgs::default(), Args::single("x"))),
        "\\emph{x}"
    );
}

#[test]
fn anonymous_block_and_group() {
    let block = AnonymousBlock::new(vec![raw("\\bf ").into_tex_element(), text("bold")]);
    assert_eq!(render(block), "{\\bf bold}");
    assert_eq!(render(AnonymousBlock::new(vec![])), "{}");
    assert_eq!(render(Group::new(vec![text("a"), text("b"), text("c")])), "abc");
    assert_eq!(render(Group::new(vec![])), "");
    assert_eq!(render(group(vec![text("x"), text("_")])), "x\\_");
}

#[test]
fn table_rows() {
    let row = TableRow::new(vec![text("a"), text("b & c"), 3u8.into_tex_element()]);
    assert_eq!(render(row), "a & b \\& c & 3\\\\\n");
    assert_eq!(render(table_row(vec![text("x")])), "x\\\\\n");
    assert_eq!(render(table_row(vec![])), "\\\\\n");
}

#[test]
fn write_list_separates_neighbours() {
    let elems = vec![text("a"), text("b"), text("c")];
    let mut out: Vec<u8> = Vec::new();
    write_list(&mut out, ", ", &elems);
    assert_eq!(out, b"a, b, c".to_vec());
    let mut empty: Vec<u8> = Vec::new();
    write_list(&mut empty, ", ", &vec![]);
    assert!(empty.is_empty());
}

#[test]
fn numbers_render_in_decimal() {
    assert_eq!(render(0u8), "0");
    assert_eq!(render(255u8), "255");
    assert_eq!(render(65535u16), "65535");
    assert_eq!(render(1234567u32), "1234567");
    assert_eq!(render(u64::MAX), "18446744073709551615");
    assert_eq!(render(u128::MAX), "340282366920938463463374607431768211455");
    assert_eq!(render(-7i8), "-7");
    assert_eq!(render(i16::MIN), "-32768");
    assert_eq!(render(-100i32), "-100");
    assert_eq!(render(i64::MIN), "-9223372036854775808");
    assert_eq!(render(i128::MIN), "-170141183460469231731687303715884105728");
    assert_eq!(render(10i128), "10");
}

#[test]
fn lifting_values() {
    assert_eq!(render(()), "");
    assert_eq!(render(String::from("a#b")), "a\\#b");
    assert_eq!(render("x~"), "x\\textasciitilde{}");
    assert_eq!(render(vec![text("a"), raw("%").into_tex_element()]), "a%");
    assert_eq!(render(Text::new(String::from("$"))), "\\$");
    assert_eq!(render(RawTex::new(b"\\relax".to_vec())), "\\relax");
    assert_eq!(render(text("y")), "y");
}

#[test]
fn invalid_utf8_raw_fails_to_render() {
    let tree = Group::new(vec![text("ok"), RawTex::new(vec![0xFF, 0xFE]).into_tex_element()])
        .into_tex_element();
    assert!(tree.render().is_err());
    let mut out: Vec<u8> = Vec::new();
    tree.write_tex(&mut out);
    assert_eq!(out, vec![b'o', b'k', 0xFF, 0xFE]);
}

#[test]
fn element_helpers() {
    assert_eq!(render(cellcolor("red!20")), "\\cellcolor{red!20}");
    assert_eq!(render(cellcolor("a_b!25")), "\\cellcolor{a_b!25}");
    assert_eq!(render(footnote("see & note")), "\\footnote{see \\& note}");
    assert_eq!(render(footnote("see [1]")), "\\footnote{see {[}1{]}}");
    assert_eq!(
        render(figure("h", vec![text("x")])),
        "\\begin{figure}[h]\nx\n\\end{figure}\n"
    );
    assert_eq!(render(hspace("1cm")), "\\hspace{1cm}");
    assert_eq!(render(vspace("2em")), "\\vspace{2em}");
    assert_eq!(
        render(includegraphics(vec![raw("width=3cm").into_tex_element()], "img.png")),
        "\\includegraphics[width=3cm]{img.png}"
    );
    assert_eq!(
        render(minipage("t", raw("0.5\\textwidth"), vec![text("m")])),
        "\\begin{minipage}[t]{0.5\\textwidth}\nm\n\\end{minipage}\n"
    );
    assert_eq!(render(nothing()), "");
    assert_eq!(render(raw("\\LaTeX{}")), "\\LaTeX{}");
    assert_eq!(render(section("A_B")), "\\section{A\\_B}\n");
    assert_eq!(render(subsection("Sub")), "\\subsection{Sub}\n");
    assert_eq!(
        render(tabular(raw("c"), raw("l|r"), vec![])),
        "\\begin{tabular}{c}{l|r}\n\n\\end{tabular}\n"
    );
    assert_eq!(
        render(tabularx(raw("\\textwidth"), "l|r", vec![])),
        "\\begin{tabularx}{\\textwidth}{l\\textbar{}r}\n\n\\end{tabularx}\n"
    );
    assert_eq!(render(textbf("b")), "\\textbf{b}");
    assert_eq!(
        render(usepackage(vec![text("utf8")], "inputenc")),
        "\\usepackage[utf8]{inputenc}\n"
    );
}

#[test]
fn nothing_yields_no_items() {
    let mut n = N;
    assert!(n.next().is_none());
    let mut m = Nothing;
    assert!(m.next().is_none());
}
