use base64::Engine;
use euler_core::compiler::{
    assemble_result, combine_log, compiler_supported, plan_compile, spawn_failure_error,
    CompileRequest, EulerError,
};

fn request(compiler_id: &str, working_dir: Option<&str>) -> CompileRequest {
    CompileRequest {
        source_text: "\\documentclass{article}\\begin{document}x\\end{document}".to_string(),
        output_stem: "doc".to_string(),
        compiler_id: compiler_id.to_string(),
        working_dir: working_dir.map(|w| w.to_string()),
    }
}

#[test]
fn unsupported_compiler_is_rejected_before_anything_runs() {
    let req = request("latexmk", None);
    let r = plan_compile(&req, "/scratch");
    match r {
        Err(EulerError::CompilerNotFound(msg)) => {
            assert_eq!(
                msg,
                "Unknown compiler 'latexmk'. Supported: pdflatex, xelatex, lualatex"
            );
        }
        _ => panic!("expected a CompilerNotFound rejection"),
    }
}

#[test]
fn allow_list_holds_exactly_the_three_compilers() {
    assert!(compiler_supported("pdflatex"));
    assert!(compiler_supported("xelatex"));
    assert!(compiler_supported("lualatex"));
    assert!(!compiler_supported("latexmk"));
    assert!(!compiler_supported("pdflatex "));
    assert!(!compiler_supported(""));
}

#[test]
fn plan_fixes_program_arguments_and_paths() {
    let req = request("xelatex", None);
    let plan = plan_compile(&req, "/scratch").unwrap();
    assert_eq!(plan.program, "xelatex");
    assert_eq!(
        plan.args,
        vec![
            "-interaction=nonstopmode".to_string(),
            "-halt-on-error".to_string(),
            "-output-directory=/scratch".to_string(),
            "/scratch/doc.tex".to_string(),
        ]
    );
    assert_eq!(plan.tex_path, "/scratch/doc.tex");
}

#[test]
fn supplied_working_directory_is_used_for_the_subprocess() {
    let req = request("pdflatex", Some("/home/user/project"));
    let plan = plan_compile(&req, "/scratch").unwrap();
    assert_eq!(plan.cwd, "/home/user/project");
    assert_eq!(plan.args[2], "-output-directory=/scratch");
}

#[test]
fn omitted_working_directory_falls_back_to_scratch() {
    let req = request("pdflatex", None);
    let plan = plan_compile(&req, "/scratch").unwrap();
    assert_eq!(plan.cwd, "/scratch");
}

#[test]
fn missing_binary_becomes_compiler_not_found() {
    let e = spawn_failure_error(true, "pdflatex", "No such file or directory (os error 2)");
    match e {
        EulerError::CompilerNotFound(msg) => {
            assert_eq!(msg, "Compiler 'pdflatex' not found on system. Please install it.");
        }
        _ => panic!("expected CompilerNotFound"),
    }
}

#[test]
fn other_spawn_failures_stay_generic_io_errors() {
    let e = spawn_failure_error(false, "pdflatex", "Permission denied (os error 13)");
    assert_eq!(e, EulerError::Io("Permission denied (os error 13)".to_string()));
}

#[test]
fn log_is_stdout_alone_when_stderr_is_empty() {
    assert_eq!(combine_log("just stdout", ""), "just stdout");
}

#[test]
fn log_joins_stdout_and_stderr_with_a_newline() {
    assert_eq!(combine_log("out", "err"), "out\nerr");
}

#[test]
fn successful_run_returns_the_pdf_base64_encoded() {
    let pdf = vec![1u8, 2, 3];
    let r = assemble_result(true, "done", "", Some(pdf.clone()));
    assert!(r.success);
    assert_eq!(r.pdf_base64, Some("AQID".to_string()));
    let expected = base64::engine::general_purpose::STANDARD.encode(&pdf);
    assert_eq!(r.pdf_base64, Some(expected));
    assert_eq!(r.log, "done");
}

#[test]
fn failed_run_returns_no_pdf_but_log_and_errors() {
    let r = assemble_result(false, "! Missing $ inserted.\nl.9 ...", "", Some(vec![1u8]));
    assert!(!r.success);
    assert_eq!(r.pdf_base64, None);
    assert_eq!(r.log, "! Missing $ inserted.\nl.9 ...");
    assert_eq!(r.errors, vec!["! Missing $ inserted.".to_string()]);
}

#[test]
fn successful_run_with_unreadable_pdf_still_succeeds() {
    let r = assemble_result(true, "done", "", None);
    assert!(r.success);
    assert_eq!(r.pdf_base64, None);
}

#[test]
fn errors_are_extracted_from_the_combined_log() {
    let r = assemble_result(false, "! From stdout.", "! From stderr.", None);
    assert_eq!(r.log, "! From stdout.\n! From stderr.");
    assert_eq!(
        r.errors,
        vec!["! From stdout.".to_string(), "! From stderr.".to_string()]
    );
}
