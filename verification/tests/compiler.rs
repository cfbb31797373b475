use compile_explorer::compiler::{
    artifact_expected, ast_json_arguments, ast_json_parsed, ast_json_source_file,
    explore_compile, get_ast_json, get_rust_version, open_workspace, plan_workspace,
    toolchain_arguments, toolchain_program, version_arguments, Argument, AstJsonError,
    CompileResult, ToolchainOutcome,
};
use compile_explorer::output::CompileOptions;
use compile_explorer::stage::{get_available_stages, CompileStage};

fn outcome(exit_ok: bool, stdout: &str, stderr: &str, artifact: Option<&str>) -> ToolchainOutcome {
    ToolchainOutcome {
        exit_ok,
        stdout: stdout.to_string(),
        stderr: stderr.to_string(),
        artifact: artifact.map(|text| text.to_string()),
    }
}

#[test]
fn a_small_program_explored_as_ast_succeeds() {
    let dump = "Crate {\n    attrs: [],\n    items: [],\n}\n";
    let result = explore_compile(
        CompileStage::Ast,
        &CompileOptions::default(),
        &outcome(true, dump, "", None),
    );
    assert!(result.success);
    assert!(!result.output.is_empty());
    assert_eq!(result.output, dump);
    assert_eq!(result.error, None);
    assert_eq!(result.stage, CompileStage::Ast);
    assert_eq!(result.lines, 4);
    assert!(!result.truncated);
}

#[test]
fn a_rejected_source_is_a_failure_at_every_stage() {
    let diagnostics = "error: expected one of `!` or `::`, found `<eof>`\n";
    for stage in get_available_stages() {
        for artifact in [None, Some("stale")] {
            let result = explore_compile(
                stage,
                &CompileOptions::default(),
                &outcome(false, "partial", diagnostics, artifact),
            );
            assert!(!result.success);
            assert_eq!(result.output, "");
            assert!(!result.error.clone().unwrap().is_empty());
            assert_eq!(result.error.as_deref(), Some(diagnostics));
            assert_eq!(result.stage, stage);
            assert_eq!(result.lines, 0);
            assert!(!result.truncated);
        }
    }
}

#[test]
fn the_error_of_a_capturing_stage_carries_standard_error() {
    let result = explore_compile(
        CompileStage::Mir,
        &CompileOptions::default(),
        &outcome(false, "", "error[E0425]: cannot find value `x`", None),
    );
    assert_eq!(result.error.as_deref(), Some("error[E0425]: cannot find value `x`"));
    let silent =
        explore_compile(CompileStage::Mir, &CompileOptions::default(), &outcome(false, "", "", None));
    assert!(!silent.success);
    assert_eq!(silent.error.as_deref(), Some(""));
}

#[test]
fn a_missing_artifact_is_a_failure_despite_exit_zero() {
    let result =
        explore_compile(CompileStage::Asm, &CompileOptions::default(), &outcome(true, "", "", None));
    assert!(!result.success);
    assert_eq!(result.output, "");
    assert_eq!(result.error.as_deref(), Some("Failed to generate 汇编代码 output"));
    assert_eq!(result.lines, 0);
    assert!(!result.truncated);
    let result = explore_compile(
        CompileStage::Llvm,
        &CompileOptions::default(),
        &outcome(true, "", "warning: unused variable", None),
    );
    assert_eq!(result.error.as_deref(), Some("Failed to generate LLVM 中间表示 output"));
}

#[test]
fn an_artifact_after_a_failed_exit_is_not_read() {
    let result = explore_compile(
        CompileStage::Llvm,
        &CompileOptions::default(),
        &outcome(false, "", "boom", Some("; ModuleID")),
    );
    assert!(!result.success);
    assert_eq!(result.output, "");
    assert_eq!(result.error.as_deref(), Some("boom"));
}

#[test]
fn the_error_of_an_emitting_stage_carries_standard_error() {
    let diagnostics = "error: cannot find macro `prntln` in this scope\n --> temp_7.rs:1:13\n";
    for stage in [CompileStage::Llvm, CompileStage::Asm] {
        let result = explore_compile(
            stage,
            &CompileOptions::default(),
            &outcome(false, "", diagnostics, None),
        );
        assert!(!result.success);
        assert_eq!(result.error.as_deref(), Some(diagnostics));
    }
}

#[test]
fn an_artifact_is_the_output_of_an_emitting_stage() {
    let listing = "\t.text\n\t.intel_syntax noprefix\nmain:\n\tret\n";
    let result = explore_compile(
        CompileStage::Asm,
        &CompileOptions::default(),
        &outcome(true, "ignored", "warning: unused", Some(listing)),
    );
    assert!(result.success);
    assert_eq!(result.output, listing);
    assert_eq!(result.error, None);
    assert_eq!(result.lines, 4);
    assert!(!result.truncated);
}

#[test]
fn standard_output_is_the_output_of_a_capturing_stage() {
    let result = explore_compile(
        CompileStage::Hir,
        &CompileOptions::default(),
        &outcome(true, "fn main() { }", "", Some("not this")),
    );
    assert!(result.success);
    assert_eq!(result.output, "fn main() { }");
    assert_eq!(result.lines, 1);
}

#[test]
fn the_line_count_is_taken_before_truncation() {
    let dump: String = (1..=1001).map(|i| format!("bb{}\n", i)).collect();
    let result = explore_compile(
        CompileStage::Mir,
        &CompileOptions::default(),
        &outcome(true, &dump, "", None),
    );
    assert!(result.success);
    assert!(result.truncated);
    assert_eq!(result.lines, 1001);
    assert_eq!(result.output.lines().count(), 1001);
    assert_eq!(result.output.lines().last(), Some("... (共1001行，显示前1000行)"));
    let full = CompileOptions { verbose: false, brief: true, full_output: true };
    let result = explore_compile(CompileStage::Mir, &full, &outcome(true, &dump, "", None));
    assert!(!result.truncated);
    assert_eq!(result.lines, 1001);
    assert_eq!(result.output, dump);
}

#[test]
fn results_are_built_whole() {
    let brief = CompileOptions { verbose: false, brief: true, full_output: false };
    let text: String = (0..101).map(|_| "x\n").collect();
    let done = CompileResult::completed(CompileStage::Expanded, &brief, &text);
    assert!(done.success && done.truncated);
    assert_eq!(done.lines, 101);
    assert_eq!(done.error, None);
    let failed = CompileResult::failed(CompileStage::Expanded, "no".to_string());
    assert!(!failed.success && !failed.truncated);
    assert_eq!(failed.output, "");
    assert_eq!(failed.error.as_deref(), Some("no"));
    assert_eq!(failed.lines, 0);
}

#[test]
fn the_artifact_is_looked_for_only_after_exit_zero_of_an_emitting_stage() {
    assert!(artifact_expected(CompileStage::Llvm, true));
    assert!(artifact_expected(CompileStage::Asm, true));
    assert!(!artifact_expected(CompileStage::Asm, false));
    assert!(!artifact_expected(CompileStage::Ast, true));
    assert!(!artifact_expected(CompileStage::Mir, false));
}

#[test]
fn files_are_named_after_the_token() {
    let workspace = plan_workspace(CompileStage::Ast, 0);
    assert_eq!(workspace.token, 0);
    assert_eq!(workspace.source_file, "temp_0.rs");
    assert_eq!(workspace.crate_name, "temp_0");
    assert_eq!(workspace.artifact_file, None);
    let workspace = plan_workspace(CompileStage::Llvm, 4294967295);
    assert_eq!(workspace.source_file, "temp_4294967295.rs");
    assert_eq!(workspace.crate_name, "temp_4294967295");
    assert_eq!(workspace.artifact_file.as_deref(), Some("output.ll"));
    let workspace = plan_workspace(CompileStage::Asm, 1234567);
    assert_eq!(workspace.source_file, "temp_1234567.rs");
    assert_eq!(workspace.artifact_file.as_deref(), Some("output.s"));
}

#[test]
fn different_tokens_give_different_names() {
    let tokens = [0u32, 1, 9, 10, 11, 100, 101, 110, 1000, 4294967295];
    for a in tokens {
        for b in tokens {
            let first = plan_workspace(CompileStage::Ast, a);
            let second = plan_workspace(CompileStage::Ast, b);
            assert_eq!(first.source_file == second.source_file, a == b);
            assert_eq!(first.crate_name == second.crate_name, a == b);
        }
    }
}

#[test]
fn a_new_workspace_is_named_after_its_own_token() {
    for stage in get_available_stages() {
        let workspace = open_workspace(stage);
        assert_eq!(workspace.crate_name, format!("temp_{}", workspace.token));
        assert_eq!(workspace.source_file, format!("temp_{}.rs", workspace.token));
        assert_eq!(workspace.artifact_file.as_deref(), stage.artifact_file());
    }
}

#[test]
fn new_workspaces_do_not_share_one_token() {
    let tokens: Vec<u32> = (0..64).map(|_| open_workspace(CompileStage::Ast).token).collect();
    assert!(tokens.iter().any(|token| *token != tokens[0]));
}

fn text(text: &str) -> Argument {
    Argument::Text(text.to_string())
}

#[test]
fn arguments_of_a_capturing_stage() {
    assert_eq!(toolchain_program(), "rustc");
    assert_eq!(
        toolchain_arguments(CompileStage::Ast, "temp_7"),
        vec![
            Argument::SourcePath,
            text("--crate-name"),
            text("temp_7"),
            text("--color"),
            text("never"),
            text("-Z"),
            text("unpretty=ast-tree"),
        ]
    );
    assert_eq!(
        toolchain_arguments(CompileStage::MirCfg, "c"),
        vec![
            Argument::SourcePath,
            text("--crate-name"),
            text("c"),
            text("--color"),
            text("never"),
            text("-Z"),
            text("unpretty=mir-cfg"),
        ]
    );
}

#[test]
fn arguments_of_an_emitting_stage_name_the_artifact() {
    assert_eq!(
        toolchain_arguments(CompileStage::Llvm, "temp_7"),
        vec![
            Argument::SourcePath,
            text("--crate-name"),
            text("temp_7"),
            text("--color"),
            text("never"),
            text("--emit=llvm-ir"),
            text("-o"),
            Argument::ArtifactPath,
        ]
    );
    assert_eq!(
        toolchain_arguments(CompileStage::Asm, "temp_7"),
        vec![
            Argument::SourcePath,
            text("--crate-name"),
            text("temp_7"),
            text("--color"),
            text("never"),
            text("--emit=asm"),
            text("-C"),
            text("llvm-args=-x86-asm-syntax=intel"),
            text("-o"),
            Argument::ArtifactPath,
        ]
    );
}

#[test]
fn the_artifact_path_is_an_argument_only_of_an_emitting_stage() {
    for stage in get_available_stages() {
        let args = toolchain_arguments(stage, "temp_1");
        assert_eq!(args.contains(&Argument::ArtifactPath), stage.artifact_file().is_some());
        assert_eq!(args.iter().filter(|arg| **arg == Argument::SourcePath).count(), 1);
    }
}

#[test]
fn the_version_is_standard_output_trimmed() {
    assert_eq!(version_arguments(), vec!["--version"]);
    assert_eq!(
        get_rust_version(true, "rustc 1.82.0-nightly (0d634185d 2024-08-29)\n"),
        "rustc 1.82.0-nightly (0d634185d 2024-08-29)"
    );
    assert_eq!(get_rust_version(true, "  rustc 1.80.0 \r\n\n"), "rustc 1.80.0");
    assert_eq!(get_rust_version(true, ""), "");
}

#[test]
fn the_version_is_unknown_after_a_failed_exit() {
    assert_eq!(get_rust_version(false, "rustc 1.80.0\n"), "Unknown");
    assert_eq!(get_rust_version(false, ""), "Unknown");
}

#[test]
fn arguments_for_the_syntax_tree_in_json() {
    assert_eq!(ast_json_source_file(), "temp_ast.rs");
    assert_eq!(
        ast_json_arguments(),
        vec![
            Argument::SourcePath,
            text("-Z"),
            text("ast-json"),
            text("--crate-name"),
            text("temp_ast"),
            text("--color"),
            text("never"),
        ]
    );
}

#[test]
fn json_in_standard_output_is_parsed() {
    let tree = get_ast_json(true, "{\"module\": {\"items\": [1, 2, 3]}, \"span\": null}", "")
        .expect("the text is JSON");
    assert!(tree.is_object());
    let items = tree.get("module").and_then(|module| module.get("items")).expect("items");
    assert_eq!(items.as_array().map(|items| items.len()), Some(3));
    assert_eq!(items.get(1).and_then(|item| item.as_i64()), Some(2));
    assert!(tree.get("span").expect("span").is_null());
}

#[test]
fn a_failed_exit_gives_the_words_of_standard_error() {
    match get_ast_json(false, "{}", "error: unknown debugging option: `ast-json`") {
        Err(AstJsonError::Toolchain { message }) => assert_eq!(
            message,
            "Failed to get AST JSON: error: unknown debugging option: `ast-json`"
        ),
        other => panic!("unexpected: {:?}", other),
    }
}

#[test]
fn text_that_is_not_json_gives_the_words_of_the_parser() {
    match get_ast_json(true, "{\"a\": ", "") {
        Err(error) => {
            assert!(matches!(error, AstJsonError::Malformed { .. }));
            assert_eq!(error.message(), "EOF while parsing a value at line 1 column 6");
        }
        Ok(tree) => panic!("unexpected: {:?}", tree),
    }
    assert!(matches!(get_ast_json(true, "", ""), Err(AstJsonError::Malformed { .. })));
    assert!(matches!(get_ast_json(true, "{} {}", ""), Err(AstJsonError::Malformed { .. })));
}

#[test]
fn a_parsed_tree_is_handed_on_as_it_is() {
    let value = serde_json::from_str::<serde_json::Value>("[true, \"x\"]");
    let wanted = value.as_ref().ok().cloned();
    assert_eq!(ast_json_parsed(value).ok(), wanted);
    let error = serde_json::from_str::<serde_json::Value>("[");
    assert!(matches!(ast_json_parsed(error), Err(AstJsonError::Malformed { .. })));
}
