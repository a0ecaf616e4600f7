use build_intercept::classifier::UnitKind;
use build_intercept::config::AnalysisConfig;
use build_intercept::invocation::Invocation;
use build_intercept::rewriter::{copy_args, copy_env, rewrite};
use build_intercept::scanner::parse_arg;

const REDUCED: &str = "{ \"reachable_only\": true, \"full_docs\": true, \"pub_only\": true, \"distro_crate\": false, \"signatures\": false, \"borrow_data\": false }";
const KEY: &str = "RUST_SAVE_ANALYSIS_CONFIG";

fn strings(items: &[&str]) -> Vec<String> {
    items.iter().map(|s| s.to_string()).collect()
}

fn sample() -> Invocation {
    Invocation::new("rustc".to_string(), strings(&["rustc", "--out-dir", "/tmp/out", "a.rs"]))
}

#[test]
fn reduced_config_has_the_fixed_fields() {
    let c = AnalysisConfig::reduced();
    assert!(c.reachable_only);
    assert!(c.full_docs);
    assert!(c.pub_only);
    assert!(!c.distro_crate);
    assert!(!c.signatures);
    assert!(!c.borrow_data);
}

#[test]
fn reduced_config_text() {
    assert_eq!(AnalysisConfig::reduced().to_json(), REDUCED);
}

#[test]
fn config_text_follows_the_fields() {
    let c = AnalysisConfig {
        reachable_only: false,
        full_docs: false,
        pub_only: false,
        distro_crate: true,
        signatures: true,
        borrow_data: true,
    };
    assert_eq!(
        c.to_json(),
        "{ \"reachable_only\": false, \"full_docs\": false, \"pub_only\": false, \"distro_crate\": true, \"signatures\": true, \"borrow_data\": true }"
    );
}

#[test]
fn dependency_rewrite_scenario() {
    let inv = sample();
    let out = rewrite(&inv, UnitKind::Dependency, "/opt/toolchain");
    assert_eq!(
        out.args,
        strings(&["rustc", "--out-dir", "/tmp/out", "a.rs", "--sysroot", "/opt/toolchain"])
    );
    assert_eq!(out.program, "rustc");
    assert_eq!(out.env_value(KEY), Some(REDUCED.to_string()));
    assert_eq!(parse_arg(&out.args, "--out-dir"), Some("/tmp/out".to_string()));
    assert_eq!(parse_arg(&out.args, "--sysroot"), Some("/opt/toolchain".to_string()));
}

#[test]
fn primary_rewrite_leaves_the_environment() {
    let mut inv = sample();
    inv.set_env("PATH", "/bin");
    let out = rewrite(&inv, UnitKind::Primary, "/opt/toolchain");
    assert_eq!(out.env_value(KEY), None);
    assert_eq!(out.env, vec![("PATH".to_string(), "/bin".to_string())]);
    assert_eq!(
        out.args,
        strings(&["rustc", "--out-dir", "/tmp/out", "a.rs", "--sysroot", "/opt/toolchain"])
    );
}

#[test]
fn primary_rewrite_keeps_a_key_that_was_there() {
    let mut inv = sample();
    inv.set_env(KEY, "{}");
    let out = rewrite(&inv, UnitKind::Primary, "/r");
    assert_eq!(out.env_value(KEY), Some("{}".to_string()));
}

#[test]
fn dependency_rewrite_replaces_an_earlier_config() {
    let mut inv = sample();
    inv.set_env("A", "1");
    inv.set_env(KEY, "{}");
    inv.set_env("B", "2");
    let out = rewrite(&inv, UnitKind::Dependency, "/r");
    assert_eq!(out.env.len(), 3);
    assert_eq!(out.env_value(KEY), Some(REDUCED.to_string()));
    assert_eq!(out.env_value("A"), Some("1".to_string()));
    assert_eq!(out.env_value("B"), Some("2".to_string()));
    assert!(out.is_well_formed());
}

#[test]
fn rewrite_leaves_its_input() {
    let inv = sample();
    let _ = rewrite(&inv, UnitKind::Dependency, "/r");
    assert_eq!(inv.args, strings(&["rustc", "--out-dir", "/tmp/out", "a.rs"]));
    assert!(inv.env.is_empty());
    assert_eq!(inv.program, "rustc");
}

#[test]
fn rewrite_appends_one_pair_in_order() {
    let inv = Invocation::new("rustc".to_string(), strings(&["b", "a", "b", "--sysroot", "old"]));
    for kind in [UnitKind::Primary, UnitKind::Dependency] {
        let out = rewrite(&inv, kind, "new");
        assert_eq!(out.args.len(), inv.args.len() + 2);
        assert_eq!(&out.args[..inv.args.len()], &inv.args[..]);
        assert_eq!(&out.args[inv.args.len()..], &strings(&["--sysroot", "new"])[..]);
    }
}

#[test]
fn rewrite_of_empty_arguments() {
    let inv = Invocation::new("rustc".to_string(), Vec::new());
    let out = rewrite(&inv, UnitKind::Primary, "");
    assert_eq!(out.args, strings(&["--sysroot", ""]));
}

#[test]
fn set_env_appends_then_replaces() {
    let mut inv = sample();
    inv.set_env("A", "1");
    inv.set_env("B", "2");
    inv.set_env("A", "3");
    assert_eq!(
        inv.env,
        vec![("A".to_string(), "3".to_string()), ("B".to_string(), "2".to_string())]
    );
    assert_eq!(inv.env_value("A"), Some("3".to_string()));
    assert_eq!(inv.env_value("C"), None);
    assert!(inv.is_well_formed());
}

#[test]
fn repeated_key_is_not_well_formed() {
    let inv = Invocation {
        program: "rustc".to_string(),
        args: Vec::new(),
        env: vec![
            ("A".to_string(), "1".to_string()),
            ("B".to_string(), "2".to_string()),
            ("A".to_string(), "3".to_string()),
        ],
    };
    assert!(!inv.is_well_formed());
}

#[test]
fn copies_are_equal() {
    let args = strings(&["x", "", "y"]);
    assert_eq!(copy_args(&args), args);
    let env = vec![("k".to_string(), "v".to_string())];
    assert_eq!(copy_env(&env), env);
}

#[test]
fn reduced_config_text_is_read_back_by_the_engine_format() {
    let text = AnalysisConfig::reduced().to_json();
    let read: rls_data::Config = serde_json::from_str(&text).unwrap();
    assert!(read.reachable_only);
    assert!(read.full_docs);
    assert!(read.pub_only);
    assert!(!read.distro_crate);
    assert!(!read.signatures);
    assert!(!read.borrow_data);
    assert_eq!(read.output_file, None);
}

#[test]
fn every_config_is_read_back() {
    for bits in 0..64u32 {
        let c = AnalysisConfig {
            reachable_only: bits & 1 != 0,
            full_docs: bits & 2 != 0,
            pub_only: bits & 4 != 0,
            distro_crate: bits & 8 != 0,
            signatures: bits & 16 != 0,
            borrow_data: bits & 32 != 0,
        };
        let read: rls_data::Config = serde_json::from_str(&c.to_json()).unwrap();
        assert_eq!(read.reachable_only, c.reachable_only);
        assert_eq!(read.full_docs, c.full_docs);
        assert_eq!(read.pub_only, c.pub_only);
        assert_eq!(read.distro_crate, c.distro_crate);
        assert_eq!(read.signatures, c.signatures);
        assert_eq!(read.borrow_data, c.borrow_data);
    }
}
