//! Planning and assembly of one LaTeX compile: validating the requested
//! compiler against the allow-list, laying out the exact subprocess
//! invocation, classifying spawn failures, combining the captured output
//! into one log, and assembling the result returned to the caller.
//!
//! The subprocess itself, and the file reads and writes around it, are I/O
//! and live with the embedding application; everything decided or computed
//! here is verified.

use vstd::prelude::*;

use base64::Engine;

use crate::diagnostics::{extract_errors, spec_extract_errors};
use crate::text::str_eq;

verus! {

/// One requested compile: the document source, the filename stem shared by
/// the `.tex` input and `.pdf` output, the compiler identifier, and an
/// optional working directory for relative-path resolution.
pub struct CompileRequest {
    pub source_text: String,
    pub output_stem: String,
    pub compiler_id: String,
    pub working_dir: Option<String>,
}

/// The outcome of one compile handed back to the front end. `pdf_base64` is
/// present only when the compiler reported success and the produced PDF
/// could be read.
#[derive(Debug, Clone)]
pub struct CompileResult {
    pub success: bool,
    pub pdf_base64: Option<String>,
    pub log: String,
    pub errors: Vec<String>,
}

/// The errors this core surfaces: a missing or unsupported compiler, or any
/// other I/O failure with the underlying message.
#[derive(Debug, Clone, PartialEq, Eq)]
pub enum EulerError {
    CompilerNotFound(String),
    Io(String),
}

/// The planned subprocess invocation: program, arguments in their fixed
/// order, working directory, and the path the `.tex` source is written to.
pub struct CompilePlan {
    pub program: String,
    pub args: Vec<String>,
    pub cwd: String,
    pub tex_path: String,
}

/// The allow-listed compiler identifiers.
pub open spec fn is_supported_compiler(s: Seq<char>) -> bool {
    s == "pdflatex"@ || s == "xelatex"@ || s == "lualatex"@
}

/// Path of the materialized `.tex` source inside the scratch directory.
pub open spec fn spec_tex_path(scratch: Seq<char>, stem: Seq<char>) -> Seq<char> {
    scratch + "/"@ + stem + ".tex"@
}

/// The message carried by the rejection of an unsupported compiler
/// identifier.
pub open spec fn spec_unknown_compiler_msg(id: Seq<char>) -> Seq<char> {
    "Unknown compiler '"@ + id + "'. Supported: pdflatex, xelatex, lualatex"@
}

/// The message carried when the requested compiler binary is absent.
pub open spec fn spec_missing_compiler_msg(id: Seq<char>) -> Seq<char> {
    "Compiler '"@ + id + "' not found on system. Please install it."@
}

/// The working directory the subprocess runs in: the caller-supplied one,
/// or the scratch directory as fallback.
pub open spec fn spec_cwd(working_dir: Option<Seq<char>>, scratch: Seq<char>) -> Seq<char> {
    match working_dir {
        Option::Some(w) => w,
        Option::None => scratch,
    }
}

/// The full log: captured stdout, then — only when stderr is non-empty — a
/// newline and the captured stderr.
pub open spec fn spec_combined_log(out: Seq<char>, err: Seq<char>) -> Seq<char> {
    if err.len() == 0 {
        out
    } else {
        out + seq!['\n'] + err
    }
}

/// A `CompilerNotFound` error carrying exactly the given message.
pub open spec fn is_compiler_not_found(e: EulerError, msg: Seq<char>) -> bool {
    match e {
        EulerError::CompilerNotFound(m) => m@ == msg,
        EulerError::Io(_) => false,
    }
}

/// An `Io` error carrying exactly the given message.
pub open spec fn is_io_error(e: EulerError, msg: Seq<char>) -> bool {
    match e {
        EulerError::CompilerNotFound(_) => false,
        EulerError::Io(m) => m@ == msg,
    }
}

/// Whether the given identifier is on the compiler allow-list.
pub fn compiler_supported(compiler: &str) -> (r: bool)
    ensures
        r == is_supported_compiler(compiler@),
{
    str_eq(compiler, "pdflatex") || str_eq(compiler, "xelatex") || str_eq(compiler, "lualatex")
}

/// Plans one compile. Rejects any compiler identifier outside the
/// allow-list before anything else would run; otherwise fixes the program,
/// the argument order, the working directory and the `.tex` path.
pub fn plan_compile(req: &CompileRequest, scratch_dir: &str) -> (r: Result<CompilePlan, EulerError>)
    ensures
        r is Ok <==> is_supported_compiler(req.compiler_id@),
        r matches Ok(p) ==> {
            &&& p.program@ == req.compiler_id@
            &&& p.args@.len() == 4
            &&& p.args@[0]@ == "-interaction=nonstopmode"@
            &&& p.args@[1]@ == "-halt-on-error"@
            &&& p.args@[2]@ == "-output-directory="@ + scratch_dir@
            &&& p.args@[3]@ == spec_tex_path(scratch_dir@, req.output_stem@)
            &&& p.tex_path@ == spec_tex_path(scratch_dir@, req.output_stem@)
            &&& p.cwd@ == spec_cwd(req.working_dir.deep_view(), scratch_dir@)
        },
        r matches Err(e) ==> is_compiler_not_found(e, spec_unknown_compiler_msg(req.compiler_id@)),
{
    if !compiler_supported(req.compiler_id.as_str()) {
        let mut msg = String::from_str("Unknown compiler '");
        msg.append(req.compiler_id.as_str());
        msg.append("'. Supported: pdflatex, xelatex, lualatex");
        return Err(EulerError::CompilerNotFound(msg));
    }
    let mut tex_path = String::from_str(scratch_dir);
    tex_path.append("/");
    tex_path.append(req.output_stem.as_str());
    tex_path.append(".tex");
    let mut out_dir_arg = String::from_str("-output-directory=");
    out_dir_arg.append(scratch_dir);
    let mut args: Vec<String> = Vec::new();
    args.push(String::from_str("-interaction=nonstopmode"));
    args.push(String::from_str("-halt-on-error"));
    args.push(out_dir_arg);
    args.push(tex_path.clone());
    let cwd = match &req.working_dir {
        Option::Some(w) => w.clone(),
        Option::None => String::from_str(scratch_dir),
    };
    Ok(CompilePlan { program: req.compiler_id.clone(), args, cwd, tex_path })
}

/// Classifies a failure to spawn the compiler process. A not-found report
/// from the operating system becomes `CompilerNotFound` with an install
/// hint naming the compiler; everything else stays a generic I/O error
/// carrying the underlying message.
pub fn spawn_failure_error(not_found: bool, compiler: &str, message: &str) -> (e: EulerError)
    ensures
        not_found ==> is_compiler_not_found(e, spec_missing_compiler_msg(compiler@)),
        !not_found ==> is_io_error(e, message@),
{
    if not_found {
        let mut msg = String::from_str("Compiler '");
        msg.append(compiler);
        msg.append("' not found on system. Please install it.");
        EulerError::CompilerNotFound(msg)
    } else {
        EulerError::Io(String::from_str(message))
    }
}

/// Combines the captured streams into the log: stdout alone when stderr is
/// empty, else stdout, a newline, and stderr.
pub fn combine_log(stdout: &str, stderr: &str) -> (r: String)
    ensures
        r@ == spec_combined_log(stdout@, stderr@),
{
    if stderr.unicode_len() == 0 {
        String::from_str(stdout)
    } else {
        let mut s = String::from_str(stdout);
        s.append("\n");
        s.append(stderr);
        proof {
            reveal_strlit("\n");
            assert(s@ =~= stdout@ + seq!['\n'] + stderr@);
        }
        s
    }
}

/// The returned PDF field against the bytes that were read: the standard
/// base64 encoding of them, or absent when none were read.
pub open spec fn pdf_field_encodes(pdf_bytes: Option<Vec<u8>>, out: Option<String>) -> bool {
    match pdf_bytes {
        Option::Some(b) => out matches Some(s) && s@ == base64_of(b@),
        Option::None => out is None,
    }
}

/// What the base64 crate's standard padded engine encodes the given bytes
/// to. The encoding is a function of the bytes alone.
pub uninterp spec fn base64_of(bytes: Seq<u8>) -> Seq<char>;

/// Relies on base64's `Engine::encode` with the `general_purpose::STANDARD`
/// engine: the result depends on the input bytes alone, and the padded
/// output holds four characters for every three-byte group begun. The
/// length bound keeps the encoded length within `usize`, which the call
/// would otherwise panic on.
#[verifier::external_body]
fn encode_base64(bytes: &Vec<u8>) -> (r: String)
    requires
        4 * ((bytes@.len() + 2) / 3) <= usize::MAX,
    ensures
        r@ == base64_of(bytes@),
        r@.len() == 4 * ((bytes@.len() + 2) / 3),
{
    base64::engine::general_purpose::STANDARD.encode(bytes)
}

/// Assembles the result of one compile from the subprocess's reported exit
/// status, its captured streams, and the bytes of the produced PDF where
/// one was read. The log is the combined streams, the error records are
/// extracted from it, `success` is exactly the reported status, and the
/// PDF is present — base64-encoded — exactly when the run succeeded and
/// its bytes were read.
pub fn assemble_result(
    success: bool,
    stdout: &str,
    stderr: &str,
    pdf_bytes: Option<Vec<u8>>,
) -> (r: CompileResult)
    requires
        pdf_bytes matches Some(b) ==> 4 * ((b@.len() + 2) / 3) <= usize::MAX,
    ensures
        r.success == success,
        r.log@ == spec_combined_log(stdout@, stderr@),
        r.errors.deep_view() == spec_extract_errors(spec_combined_log(stdout@, stderr@)),
        r.pdf_base64 is Some <==> (success && pdf_bytes is Some),
        success ==> pdf_field_encodes(pdf_bytes, r.pdf_base64),
        !success ==> r.pdf_base64 is None,
{
    let log = combine_log(stdout, stderr);
    let errors = extract_errors(log.as_str());
    let pdf_base64 = if success {
        match &pdf_bytes {
            Option::Some(b) => Option::Some(encode_base64(b)),
            Option::None => Option::None,
        }
    } else {
        Option::None
    };
    CompileResult { success, pdf_base64, log, errors }
}

} // verus!
