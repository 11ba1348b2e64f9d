use texrender::tex_escape::write_escaped;

fn escaped(s: &str) -> String {
    let mut out: Vec<u8> = Vec::new();
    write_escaped(&mut out, s);
    String::from_utf8(out).unwrap()
}

#[test]
fn escape_table_maps_each_special_character() {
    let table = [
        ("&", "\\&"),
        ("%", "\\%"),
        ("$", "\\$"),
        ("#", "\\#"),
        ("_", "\\_"),
        ("{", "\\{"),
        ("}", "\\}"),
        ("~", "\\textasciitilde{}"),
        ("^", "\\textasciicircum{}"),
        ("\\", "\\textbackslash{}"),
        ("<", "\\textless{}"),
        (">", "\\textgreater{}"),
        ("|", "\\textbar{}"),
        ("\"", "\\textquotedbl{}"),
        ("[", "{[}"),
        ("]", "{]}"),
    ];
    for (input, expected) in table.iter() {
        assert_eq!(escaped(input), *expected, "escaping {:?}", input);
    }
}

#[test]
fn escape_leaves_other_characters_alone() {
    assert_eq!(escaped("Hello, world. 1 + 2 = 3!"), "Hello, world. 1 + 2 = 3!");
    assert_eq!(escaped("Grüße, 日本語, 🦀"), "Grüße, 日本語, 🦀");
    assert_eq!(escaped("tab\tnew\nline"), "tab\tnew\nline");
}

#[test]
fn escape_empty_text() {
    assert_eq!(escaped(""), "");
}

#[test]
fn escape_mixed_text_left_to_right() {
    assert_eq!(escaped("50% of $x_1$ & {y}"), "50\\% of \\$x\\_1\\$ \\& \\{y\\}");
    assert_eq!(escaped("a\\b[c]"), "a\\textbackslash{}b{[}c{]}");
    assert_eq!(escaped("~^|<>\""), "\\textasciitilde{}\\textasciicircum{}\\textbar{}\\textless{}\\textgreater{}\\textquotedbl{}");
}

#[test]
fn escape_appends_to_existing_output() {
    let mut out: Vec<u8> = b"pre:".to_vec();
    write_escaped(&mut out, "a&b");
    assert_eq!(out, b"pre:a\\&b".to_vec());
}

#[test]
fn escape_writes_utf8_bytes() {
    let mut out: Vec<u8> = Vec::new();
    write_escaped(&mut out, "é€𝄞");
    assert_eq!(out, vec![0xC3, 0xA9, 0xE2, 0x82, 0xAC, 0xF0, 0x9D, 0x84, 0x9E]);
}
