use envrender::errors::Error;
use envrender::pipeline::run;
use envrender::resolve::{Mode, SourceOutcome};

fn pairs(items: &[(&str, &str)]) -> Vec<(String, String)> {
    items.iter().map(|(k, v)| (k.to_string(), v.to_string())).collect()
}

#[test]
fn all_environment_scenario() {
    let source = SourceOutcome::Loaded(pairs(&[("KEY", "test value")]));
    let ambient = pairs(&[("GLOBAL_VALUE", "global test value")]);
    let template = "The value is {{KEY}} and the global is {{GLOBAL_VALUE}}.\n";
    let out = run(Mode::AllEnvironmentDefault, source, ambient, template).unwrap();
    assert_eq!(out, "The value is test value and the global is global test value.\n");
}

#[test]
fn file_only_scenario() {
    let source = SourceOutcome::Loaded(pairs(&[("KEY", "test value")]));
    let ambient = pairs(&[("GLOBAL_VALUE", "global test value")]);
    let template = "The value is {{KEY}}.\n";
    let out = run(Mode::FileOnlyDefault, source, ambient, template).unwrap();
    assert_eq!(out, "The value is test value.\n");
}

#[test]
fn file_only_missing_variable() {
    let source = SourceOutcome::Loaded(pairs(&[("KEY", "test value")]));
    let ambient = pairs(&[("GLOBAL_VALUE", "global test value")]);
    let template = "The value is {{KEY}} and the global is {{GLOBAL_VALUE}}.\n";
    let result = run(Mode::FileOnlyDefault, source, ambient, template);
    match result {
        Err(e) => {
            let msg = e.message();
            assert!(
                msg.contains("Variable \"GLOBAL_VALUE\" not found"),
                "Saw error: {}",
                msg
            );
            match e {
                Error::UndefinedVariable(Some(name)) => assert_eq!(name, "GLOBAL_VALUE"),
                other => panic!("expected an undefined-variable error, got {:?}", other),
            }
        }
        Ok(out) => panic!("expected an error, rendered {:?}", out),
    }
}

#[test]
fn ambient_only_variable_resolves_in_all_environment() {
    let source = SourceOutcome::Loaded(pairs(&[("KEY", "test value")]));
    let ambient = pairs(&[("ONLY_AMBIENT", "from the environment")]);
    let out = run(
        Mode::AllEnvironmentExplicit,
        source,
        ambient,
        "{{ONLY_AMBIENT}}",
    )
    .unwrap();
    assert_eq!(out, "from the environment");
}

#[test]
fn loaded_value_overrides_ambient() {
    let source = SourceOutcome::Loaded(pairs(&[("KEY", "from the file")]));
    let ambient = pairs(&[("KEY", "from the environment")]);
    let out = run(Mode::AllEnvironmentDefault, source, ambient, "{{KEY}}").unwrap();
    assert_eq!(out, "from the file");
}

#[test]
fn missing_default_source_tolerated_in_all_environment() {
    let source = SourceOutcome::Missing("No such file or directory".to_string());
    let ambient = pairs(&[("GLOBAL_VALUE", "global test value")]);
    let out = run(Mode::AllEnvironmentDefault, source, ambient, "{{GLOBAL_VALUE}}").unwrap();
    assert_eq!(out, "global test value");
}

#[test]
fn missing_default_source_fails_in_file_only() {
    let source = SourceOutcome::Missing("No such file or directory".to_string());
    let ambient = pairs(&[("GLOBAL_VALUE", "global test value")]);
    let result = run(Mode::FileOnlyDefault, source, ambient, "{{GLOBAL_VALUE}}");
    match result {
        Err(Error::SourceIo(msg)) => assert_eq!(msg, "No such file or directory"),
        other => panic!("expected a source I/O error, got {:?}", other),
    }
}

#[test]
fn missing_explicit_source_fails_in_all_environment() {
    let source = SourceOutcome::Missing("No such file or directory".to_string());
    let ambient = pairs(&[("GLOBAL_VALUE", "global test value")]);
    let result = run(Mode::AllEnvironmentExplicit, source, ambient, "{{GLOBAL_VALUE}}");
    match result {
        Err(Error::SourceIo(msg)) => assert_eq!(msg, "No such file or directory"),
        other => panic!("expected a source I/O error, got {:?}", other),
    }
}

#[test]
fn malformed_source_fails_in_every_mode() {
    for mode in [
        Mode::FileOnlyDefault,
        Mode::FileOnlyExplicit,
        Mode::AllEnvironmentDefault,
        Mode::AllEnvironmentExplicit,
    ] {
        let source = SourceOutcome::Malformed(
            "Error parsing line: 'KEY', error at line index: 3".to_string(),
        );
        let ambient = pairs(&[("GLOBAL_VALUE", "global test value")]);
        let result = run(mode, source, ambient, "{{GLOBAL_VALUE}}");
        match result {
            Err(Error::SourceParse(msg)) => {
                assert_eq!(msg, "Error parsing line: 'KEY', error at line index: 3");
            }
            other => panic!("expected a parse error, got {:?}", other),
        }
    }
}

#[test]
fn last_definition_of_a_key_wins() {
    let source = SourceOutcome::Loaded(pairs(&[("KEY", "first"), ("KEY", "second")]));
    let out = run(Mode::FileOnlyExplicit, source, Vec::new(), "{{KEY}}").unwrap();
    assert_eq!(out, "second");
}

#[test]
fn malformed_template_is_a_render_syntax_error() {
    let source = SourceOutcome::Loaded(pairs(&[("KEY", "test value")]));
    let result = run(Mode::FileOnlyDefault, source, Vec::new(), "{{#if}}");
    match result {
        Err(Error::RenderSyntax(msg)) => assert!(!msg.is_empty()),
        other => panic!("expected a render syntax error, got {:?}", other),
    }
}

#[test]
fn empty_template_renders_empty() {
    let source = SourceOutcome::Loaded(Vec::new());
    let out = run(Mode::FileOnlyDefault, source, Vec::new(), "").unwrap();
    assert_eq!(out, "");
}
