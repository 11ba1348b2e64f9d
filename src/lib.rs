//! LaTeX rendering.
//!
//! `tpl` builds TeX documents programmatically, `tex_escape` escapes text for them, and
//! `TexRender` holds what a run of `latexmk` over a document needs: the source, the search path
//! and the command line.
use vstd::prelude::*;
use vstd::string::*;

pub mod tex_escape;
pub mod tpl;

verus! {

/// An I/O error, carried from a failed step of a rendering.
#[verifier::external_type_specification]
#[verifier::external_body]
pub struct ExIoError(std::io::Error);

/// Error occurring during rendering.
#[derive(Debug)]
pub enum RenderingError {
    /// Temporary directory could not be created.
    TempdirCreation(std::io::Error),
    /// Writing the input file failed.
    WriteInputFile(std::io::Error),
    /// Reading the resulting output file failed.
    ReadOutputFile(std::io::Error),
    /// Could not run the LaTeX rendering command.
    RunError(std::io::Error),
    /// latexmk failed.
    LatexError {
        /// Process exit code.
        status: Option<i32>,
        /// Content of stdout.
        stdout: Vec<u8>,
        /// Content of stderr.
        stderr: Vec<u8>,
    },
}

/// The model of a rendering configuration.
pub struct TexRenderView {
    pub source: Seq<u8>,
    pub texinputs: Seq<Seq<u8>>,
    pub latex_mk_path: Seq<u8>,
    pub use_xelatex: bool,
    pub allow_shell_escape: bool,
}

/// LaTeX rendering configuration.
///
/// Starts from a LaTeX document given as bytes; the search path for classes, includes and other
/// files can be extended, and the path of `latexmk` set. The `TEXINPUTS` value and the command
/// line of a run come from `texinputs_value` and `latexmk_args`. Paths are held as the bytes of
/// the platform's path strings, so that any path passes through unchanged.
pub struct TexRender {
    /// Content to render.
    source: Vec<u8>,
    /// Folders to add to `TEXINPUTS`.
    texinputs: Vec<Vec<u8>>,
    /// Path to latexmk.
    latex_mk_path: Vec<u8>,
    /// Whether or not to use XeLaTeX.
    use_xelatex: bool,
    /// Whether or not to allow shell escaping.
    allow_shell_escape: bool,
}

impl View for TexRender {
    type V = TexRenderView;

    closed spec fn view(&self) -> TexRenderView {
        TexRenderView {
            source: self.source@,
            texinputs: self.texinputs@.map_values(|p: Vec<u8>| p@),
            latex_mk_path: self.latex_mk_path@,
            use_xelatex: self.use_xelatex,
            allow_shell_escape: self.allow_shell_escape,
        }
    }
}

/// The `TEXINPUTS` value for the folders `paths`: each folder preceded by a `:`.
pub open spec fn texinputs_spec(paths: Seq<Seq<u8>>) -> Seq<u8>
    decreases paths.len(),
{
    if paths.len() == 0 {
        Seq::empty()
    } else {
        texinputs_spec(paths.drop_last()) + ":".spec_bytes() + paths.last()
    }
}

/// The arguments of a `latexmk` run over the file `input`.
pub open spec fn latexmk_args_spec(
    use_xelatex: bool,
    allow_shell_escape: bool,
    input: Seq<u8>,
) -> Seq<Seq<u8>> {
    seq![
        "-interaction=batchmode".spec_bytes(),
        "-halt-on-error".spec_bytes(),
        "-file-line-error".spec_bytes(),
        "-pdf".spec_bytes(),
    ] + (if use_xelatex {
        seq!["-xelatex".spec_bytes()]
    } else {
        Seq::empty()
    }) + (if allow_shell_escape {
        Seq::empty()
    } else {
        seq!["-no-shell-escape".spec_bytes()]
    }) + seq![input]
}

/// The bytes of `s`.
fn bytes_of(s: &str) -> (r: Vec<u8>)
    ensures
        r@ == s.spec_bytes(),
{
    vstd::slice::slice_to_vec(s.as_bytes())
}

impl TexRender {
    /// Creates a new configuration that renders the given bytes as its source file.
    pub fn from_bytes(source: Vec<u8>) -> (r: TexRender)
        ensures
            r@ == (TexRenderView {
                source: source@,
                texinputs: Seq::empty(),
                latex_mk_path: "latexmk".spec_bytes(),
                use_xelatex: true,
                allow_shell_escape: false,
            }),
    {
        let r = TexRender {
            source,
            texinputs: Vec::new(),
            latex_mk_path: bytes_of("latexmk"),
            use_xelatex: true,
            allow_shell_escape: false,
        };
        assert(r@.texinputs =~= Seq::empty());
        r
    }

    /// Adds a path to the list of folders in `TEXINPUTS`.
    pub fn add_texinput(&mut self, input_path: Vec<u8>)
        ensures
            final(self)@ == (TexRenderView {
                texinputs: old(self)@.texinputs.push(input_path@),
                ..old(self)@
            }),
    {
        let ghost p = input_path@;
        self.texinputs.push(input_path);
        assert(final(self)@.texinputs =~= old(self)@.texinputs.push(p));
    }

    /// Sets the path of `latexmk`; without it, `latexmk` is looked for on the `PATH`.
    pub fn latex_mk_path(&mut self, latex_mk_path: Vec<u8>)
        ensures
            final(self)@ == (TexRenderView { latex_mk_path: latex_mk_path@, ..old(self)@ }),
    {
        self.latex_mk_path = latex_mk_path;
    }

    /// The document to render.
    pub fn source(&self) -> (r: &Vec<u8>)
        ensures
            r@ == self@.source,
    {
        &self.source
    }

    /// The path of `latexmk`.
    pub fn program(&self) -> (r: &Vec<u8>)
        ensures
            r@ == self@.latex_mk_path,
    {
        &self.latex_mk_path
    }

    /// The value of `TEXINPUTS` for a run: each folder preceded by a `:`.
    pub fn texinputs_value(&self) -> (r: Vec<u8>)
        ensures
            r@ == texinputs_spec(self@.texinputs),
    {
        let mut r: Vec<u8> = Vec::new();
        let mut i: usize = 0;
        while i < self.texinputs.len()
            invariant
                i <= self.texinputs.len(),
                r@ == texinputs_spec(self@.texinputs.take(i as int)),
            decreases self.texinputs.len() - i,
        {
            proof {
                let paths = self@.texinputs;
                assert(paths.take(i + 1).drop_last() =~= paths.take(i as int));
            }
            let ghost before = r@;
            r.extend_from_slice(":".as_bytes());
            r.extend_from_slice(self.texinputs[i].as_slice());
            proof {
                let paths = self@.texinputs;
                assert(paths.take(i + 1).last() == self.texinputs@[i as int]@);
                assert(r@ =~= before + ":".spec_bytes() + self.texinputs@[i as int]@);
            }
            i += 1;
        }
        assert(self@.texinputs.take(i as int) =~= self@.texinputs);
        r
    }

    /// The arguments of a `latexmk` run over `input_file`.
    pub fn latexmk_args(&self, input_file: Vec<u8>) -> (r: Vec<Vec<u8>>)
        ensures
            r@.map_values(|a: Vec<u8>| a@) == latexmk_args_spec(
                self@.use_xelatex,
                self@.allow_shell_escape,
                input_file@,
            ),
    {
        let mut r: Vec<Vec<u8>> = Vec::new();
        r.push(bytes_of("-interaction=batchmode"));
        r.push(bytes_of("-halt-on-error"));
        r.push(bytes_of("-file-line-error"));
        r.push(bytes_of("-pdf"));
        if self.use_xelatex {
            r.push(bytes_of("-xelatex"));
        }
        if !self.allow_shell_escape {
            r.push(bytes_of("-no-shell-escape"));
        }
        r.push(input_file);
        assert(r@.map_values(|a: Vec<u8>| a@) =~= latexmk_args_spec(
            self@.use_xelatex,
            self@.allow_shell_escape,
            input_file@,
        ));
        r
    }
}

/// The outcome of a finished `latexmk` run: success, or a `LatexError` holding the exit code
/// and the output of the process.
pub fn latex_outcome(success: bool, status: Option<i32>, stdout: Vec<u8>, stderr: Vec<u8>) -> (r:
    Result<(), RenderingError>)
    ensures
        r is Ok <==> success,
        r matches Err(e) ==> (e matches RenderingError::LatexError { status: s, stdout: o, stderr: e2 }
            && s == status && o@ == stdout@ && e2@ == stderr@),
{
    if success {
        Ok(())
    } else {
        Err(RenderingError::LatexError { status, stdout, stderr })
    }
}

} // verus!
