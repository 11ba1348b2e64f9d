use texrender::{latex_outcome, RenderingError, TexRender};

#[test]
fn from_bytes_defaults() {
    let tex = TexRender::from_bytes(b"\\documentclass{article}".to_vec());
    assert_eq!(tex.source(), &b"\\documentclass{article}".to_vec());
    assert_eq!(tex.program(), &b"latexmk".to_vec());
    assert_eq!(tex.texinputs_value(), Vec::<u8>::new());
}

#[test]
fn texinputs_are_each_preceded_by_a_colon() {
    let mut tex = TexRender::from_bytes(Vec::new());
    tex.add_texinput(b"/usr/share/tex".to_vec());
    tex.add_texinput(b"./classes".to_vec());
    assert_eq!(tex.texinputs_value(), b":/usr/share/tex:./classes".to_vec());
}

#[test]
fn paths_that_are_not_utf8_pass_through() {
    let mut tex = TexRender::from_bytes(Vec::new());
    tex.add_texinput(vec![b'/', 0xFF, b'x']);
    assert_eq!(tex.texinputs_value(), vec![b':', b'/', 0xFF, b'x']);
    let args = tex.latexmk_args(vec![0xFE, b'.', b't']);
    assert_eq!(args.last(), Some(&vec![0xFE, b'.', b't']));
}

#[test]
fn latex_mk_path_can_be_set() {
    let mut tex = TexRender::from_bytes(Vec::new());
    tex.latex_mk_path(b"/opt/tex/bin/latexmk".to_vec());
    assert_eq!(tex.program(), &b"/opt/tex/bin/latexmk".to_vec());
}

#[test]
fn latexmk_arguments() {
    let tex = TexRender::from_bytes(Vec::new());
    let args = tex.latexmk_args(b"/tmp/x/input.tex".to_vec());
    assert_eq!(
        args,
        vec![
            "-interaction=batchmode",
            "-halt-on-error",
            "-file-line-error",
            "-pdf",
            "-xelatex",
            "-no-shell-escape",
            "/tmp/x/input.tex",
        ]
        .into_iter()
        .map(|a| a.as_bytes().to_vec())
        .collect::<Vec<Vec<u8>>>()
    );
}

#[test]
fn latex_outcome_success_and_failure() {
    assert!(latex_outcome(true, Some(0), b"out".to_vec(), Vec::new()).is_ok());
    match latex_outcome(false, Some(12), b"log".to_vec(), b"err".to_vec()) {
        Err(RenderingError::LatexError { status, stdout, stderr }) => {
            assert_eq!(status, Some(12));
            assert_eq!(stdout, b"log".to_vec());
            assert_eq!(stderr, b"err".to_vec());
        }
        other => panic!("expected latex error, got {:?}", other),
    }
    match latex_outcome(false, None, Vec::new(), Vec::new()) {
        Err(RenderingError::LatexError { status, .. }) => assert_eq!(status, None),
        other => panic!("expected latex error, got {:?}", other),
    }
}
