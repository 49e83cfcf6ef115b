//! Tests of the language descriptors, command splitting, dispatch
//! planning, output capture, the cache store and the client configuration.

use rustsn::cache::Cache;
use rustsn::dispatch::{execution_request, EnvironmentType};
use rustsn::executor::{ExecutionResult, OutputChunk};
use rustsn::lang::{
    command_program, container_name, image_name, lang_name, project_file_paths, Lang,
};
use rustsn::llm_api::{LLMApi, ModelType};
use rustsn::outcome::only_error_message;
use rustsn::text::split_command;

#[test]
fn container_names_follow_the_convention() {
    assert_eq!(container_name(Lang::Python), "rustsn_python_container");
    assert_eq!(container_name(Lang::Rust), "rustsn_rust_container");
    assert_eq!(container_name(Lang::TypeScript), "rustsn_typescript_container");
}

#[test]
fn language_names_are_lower_case() {
    assert_eq!(lang_name(Lang::JavaScript), "javascript");
    assert_eq!(lang_name(Lang::Php), "php");
}

#[test]
fn every_language_has_an_image() {
    let langs = [
        Lang::Rust,
        Lang::Java,
        Lang::Scala,
        Lang::Swift,
        Lang::Kotlin,
        Lang::Python,
        Lang::JavaScript,
        Lang::TypeScript,
        Lang::Php,
    ];
    for l in langs {
        assert!(!image_name(l).is_empty());
        assert!(!project_file_paths(l).is_empty());
    }
}

#[test]
fn rust_reads_manifest_and_inline_tested_solution() {
    assert_eq!(project_file_paths(Lang::Rust), vec![
        "Cargo.toml".to_string(),
        "src/lib.rs".to_string(),
    ]);
}

#[test]
fn typescript_has_an_extra_config() {
    assert_eq!(project_file_paths(Lang::TypeScript), vec![
        "package.json".to_string(),
        "src/solution.ts".to_string(),
        "src/solution.test.ts".to_string(),
        "tsconfig.json".to_string(),
    ]);
}

#[test]
fn windows_suffixes_follow_the_descriptor() {
    assert_eq!(command_program(Lang::Java, "mvn", true), "mvn.cmd");
    assert_eq!(command_program(Lang::Kotlin, "gradle", true), "gradle.bat");
    assert_eq!(command_program(Lang::Python, "pytest", true), "pytest");
    assert_eq!(command_program(Lang::Java, "mvn", false), "mvn");
}

#[test]
fn command_lines_split_on_single_spaces() {
    assert_eq!(split_command("pytest"), vec!["pytest".to_string()]);
    assert_eq!(split_command("cargo test --offline"), vec![
        "cargo".to_string(),
        "test".to_string(),
        "--offline".to_string(),
    ]);
    // No shell interpretation: empty pieces and quotes are kept literally.
    assert_eq!(split_command("a  b"), vec!["a".to_string(), "".to_string(), "b".to_string()]);
    assert_eq!(split_command(""), vec!["".to_string()]);
    assert_eq!(split_command("echo \"x y\""), vec![
        "echo".to_string(),
        "\"x".to_string(),
        "y\"".to_string(),
    ]);
}

#[test]
fn execution_requests_carry_argv_workdir_and_identity() {
    let r = execution_request(EnvironmentType::Container, "pytest -q", 1000, 1000);
    assert_eq!(r.argv, vec!["pytest".to_string(), "-q".to_string()]);
    assert_eq!(r.working_dir, "/app");
    assert_eq!(r.uid, 1000);
    assert_eq!(r.gid, 1000);
    assert_eq!(r.environment, EnvironmentType::Container);
    let h = execution_request(EnvironmentType::Host, "cargo build", 7, 8);
    assert_eq!(h.working_dir, "sandbox");
    assert_eq!(h.environment, EnvironmentType::Host);
}

#[test]
fn output_chunks_are_classified_by_origin() {
    let mut res = ExecutionResult::empty();
    assert_eq!(res.exit_code, None);
    res.push_chunk(OutputChunk::Stdout(b"out ".to_vec()));
    res.push_chunk(OutputChunk::Stderr(b"err ".to_vec()));
    res.push_chunk(OutputChunk::Other);
    res.push_chunk(OutputChunk::Stdout(b"more".to_vec()));
    res.finish(3);
    assert_eq!(res.stdout, b"out more".to_vec());
    assert_eq!(res.stderr, b"err ".to_vec());
    assert_eq!(res.exit_code, Some(3));
}

#[test]
fn the_message_is_stderr_only_on_failure() {
    assert_eq!(only_error_message("warning: slow build", 0), "");
    assert_eq!(only_error_message("error: it broke", 101), "error: it broke");
    assert_eq!(only_error_message("", 1), "");
}

#[test]
fn the_cache_stores_and_replays_text() {
    let mut cache = Cache::new();
    assert_eq!(cache.get("missing"), None);
    cache.set("k1".to_string(), "v1".to_string());
    cache.set("k2".to_string(), "v2".to_string());
    assert_eq!(cache.get("k1"), Some("v1".to_string()));
    assert_eq!(cache.get("k2"), Some("v2".to_string()));
    cache.set("k1".to_string(), "v3".to_string());
    assert_eq!(cache.get("k1"), Some("v3".to_string()));
    assert!(cache.items().len() >= 2);
}

#[test]
fn lookup_needs_the_byte_identical_key() {
    let mut cache = Cache::new();
    cache.set("cmdfile".to_string(), "stored".to_string());
    assert_eq!(cache.get("cmdfile"), Some("stored".to_string()));
    assert_eq!(cache.get("cmdFile"), None);
    assert_eq!(cache.get("cmdfile "), None);
}

#[test]
fn the_client_keeps_its_configured_backend() {
    let api = LLMApi::new(ModelType::Ollama {
        model: "qwen2.5-coder:7b".to_string(),
        emb: "nomic-embed-text".to_string(),
    });
    match api.model_type() {
        ModelType::Ollama { model, emb } => {
            assert_eq!(model, "qwen2.5-coder:7b");
            assert_eq!(emb, "nomic-embed-text");
        }
        ModelType::OpenAI { .. } => panic!("wrong backend"),
    }
    let open_ai = LLMApi::new(ModelType::OpenAI { api_key: "SECRET-REDACTED".to_string() });
    assert!(matches!(open_ai.model_type(), ModelType::OpenAI { .. }));
}
