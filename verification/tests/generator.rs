use vpg::format::toml::Toml;
use vpg::format::Parser;
use vpg::generator::file_exists;
use vpg::generator::generate_config_toml;
use vpg::generator::generate_source;
use vpg::generator::make_cargo_dir;
use vpg::generator::make_cargo_toml;
use vpg::generator::make_config_toml;
use vpg::generator::make_setup_rs;
use vpg::generator::make_target_json;
use vpg::generator::make_target_ld;
use vpg::generator::make_template_dir;
use vpg::generator::modify_cargo_toml;
use vpg::generator::Generator;
use vpg::generator::Step;
use vpg::param::SystemConfig;

fn config(cpus: u64) -> SystemConfig {
    let text = format!("[env]\nnum_of_cpus = {}\n[env.memory]\n", cpus);
    Parser::parse::<Toml>(text).expect("parses")
}

#[test]
fn file_names() {
    assert_eq!(make_template_dir(), "template");
    assert_eq!(make_cargo_toml(), "Cargo.toml");
    assert_eq!(make_cargo_dir(), ".cargo");
    assert_eq!(make_config_toml(), "config.toml");
    assert_eq!(make_target_json(), "target.json");
    assert_eq!(make_target_ld(), "target.ld");
    assert_eq!(make_setup_rs(), "setup.rs");
}

#[test]
fn project_path_is_under_proj() {
    assert_eq!(Generator::project_path("demo"), "../proj/demo");
}

#[test]
fn existing_project_is_only_reported() {
    let steps = Generator::steps("../../proj/demo", &config(2), true);
    assert_eq!(steps.len(), 1);
    match &steps[0] {
        Step::Report(m) => assert_eq!(m, "Error: ../../proj/demo already exists"),
        _ => panic!("expected a report"),
    }
}

#[test]
fn new_project_steps_in_order() {
    let steps = Generator::steps("../../proj/demo", &config(12), false);
    assert_eq!(steps.len(), 8);
    match &steps[0] {
        Step::CreateProject(p) => assert_eq!(p, "../../proj/demo"),
        _ => panic!("expected project creation"),
    }
    match &steps[1] {
        Step::CopyFile { from, to } => {
            assert_eq!(from, "template/main.rs");
            assert_eq!(to, "../../proj/demo/src/main.rs");
        }
        _ => panic!("expected the main source"),
    }
    match &steps[2] {
        Step::FillTemplate { template, target, replacements } => {
            assert_eq!(template, "template/setup.rs");
            assert_eq!(target, "../../proj/demo/src/setup.rs");
            assert_eq!(replacements, &vec![("{{NUM_OF_CPUS}}".to_string(), "12".to_string())]);
        }
        _ => panic!("expected the setup template"),
    }
    match &steps[3] {
        Step::AppendLine { path, line } => {
            assert_eq!(path, "../../proj/demo/Cargo.toml");
            assert_eq!(line, "violet = { path = \"../../violet\" }");
        }
        _ => panic!("expected the dependency line"),
    }
    match &steps[4] {
        Step::CreateDir(p) => assert_eq!(p, "../../proj/demo/.cargo"),
        _ => panic!("expected the cargo directory"),
    }
    let copies: Vec<(String, String)> = steps[5..]
        .iter()
        .map(|s| match s {
            Step::CopyFile { from, to } => (from.clone(), to.clone()),
            _ => panic!("expected a copy"),
        })
        .collect();
    assert_eq!(
        copies,
        vec![
            ("template/.cargo/config.toml".to_string(), "../../proj/demo/.cargo/config.toml".to_string()),
            ("template/target.json".to_string(), "../../proj/demo/target.json".to_string()),
            ("template/target.ld".to_string(), "../../proj/demo/target.ld".to_string()),
        ]
    );
}

#[test]
fn source_and_config_steps_alone() {
    assert_eq!(generate_source("p", &config(3)).len(), 2);
    assert_eq!(generate_config_toml("p").len(), 4);
    match modify_cargo_toml("p/") {
        Step::AppendLine { path, .. } => assert_eq!(path, "p/Cargo.toml"),
        _ => panic!("expected the dependency line"),
    }
}

#[test]
fn existence_is_asked_of_the_file_system() {
    assert!(file_exists("."));
    assert!(!file_exists("no/such/path/exists/here"));
}
