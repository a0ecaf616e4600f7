use build_intercept::error::InterceptError;
use build_intercept::sysroot::{
    current_sysroot, resolve_root, sysroot_from_output, RootQuery, ToolchainEnv,
};

fn env(vars: &[(&str, &str)]) -> ToolchainEnv {
    let get = |name: &str| vars.iter().find(|(k, _)| *k == name).map(|(_, v)| v.to_string());
    ToolchainEnv {
        rustup_home: get("RUSTUP_HOME"),
        multirust_home: get("MULTIRUST_HOME"),
        rustup_toolchain: get("RUSTUP_TOOLCHAIN"),
        multirust_toolchain: get("MULTIRUST_TOOLCHAIN"),
        sysroot: get("SYSROOT"),
        rustc: get("RUSTC"),
    }
}

fn resolved(q: RootQuery) -> Option<String> {
    match q {
        RootQuery::Resolved(r) => Some(r),
        RootQuery::AskCompiler(_) => None,
    }
}

fn asked(q: RootQuery) -> Option<String> {
    match q {
        RootQuery::Resolved(_) => None,
        RootQuery::AskCompiler(p) => Some(p),
    }
}

#[test]
fn pair_wins_over_override() {
    let e = env(&[("RUSTUP_HOME", "/home/u/.rustup"), ("RUSTUP_TOOLCHAIN", "stable"), ("SYSROOT", "/s")]);
    assert_eq!(resolved(current_sysroot(&e)), Some("/home/u/.rustup/toolchains/stable".to_string()));
}

#[test]
fn older_names_complete_the_pair() {
    let e = env(&[("MULTIRUST_HOME", "/m"), ("RUSTUP_TOOLCHAIN", "nightly")]);
    assert_eq!(resolved(current_sysroot(&e)), Some("/m/toolchains/nightly".to_string()));
    let e = env(&[("RUSTUP_HOME", "/r"), ("MULTIRUST_TOOLCHAIN", "beta")]);
    assert_eq!(resolved(current_sysroot(&e)), Some("/r/toolchains/beta".to_string()));
}

#[test]
fn current_names_win_over_older_names() {
    let e = env(&[
        ("RUSTUP_HOME", "/r"),
        ("MULTIRUST_HOME", "/m"),
        ("RUSTUP_TOOLCHAIN", "stable"),
        ("MULTIRUST_TOOLCHAIN", "old"),
    ]);
    assert_eq!(resolved(current_sysroot(&e)), Some("/r/toolchains/stable".to_string()));
}

#[test]
fn override_alone_wins() {
    let e = env(&[("SYSROOT", "/s"), ("RUSTC", "/bin/rustc")]);
    assert_eq!(resolved(current_sysroot(&e)), Some("/s".to_string()));
}

#[test]
fn half_a_pair_falls_through_to_the_override() {
    let e = env(&[("RUSTUP_HOME", "/r"), ("SYSROOT", "/s")]);
    assert_eq!(resolved(current_sysroot(&e)), Some("/s".to_string()));
}

#[test]
fn nothing_set_asks_the_default_compiler() {
    let e = env(&[]);
    assert_eq!(asked(current_sysroot(&e)), Some("rustc".to_string()));
}

#[test]
fn compiler_override_is_asked() {
    let e = env(&[("RUSTC", "/opt/bin/rustc"), ("RUSTUP_TOOLCHAIN", "stable")]);
    assert_eq!(asked(current_sysroot(&e)), Some("/opt/bin/rustc".to_string()));
}

#[test]
fn output_is_trimmed() {
    assert_eq!(
        sysroot_from_output(Some(b"  /usr/local/toolchain\n".to_vec())),
        Some("/usr/local/toolchain".to_string())
    );
    assert_eq!(sysroot_from_output(Some(b"/a b\r\n\t".to_vec())), Some("/a b".to_string()));
}

#[test]
fn empty_output_is_an_empty_root() {
    assert_eq!(sysroot_from_output(Some(Vec::new())), Some(String::new()));
    assert_eq!(sysroot_from_output(Some(b" \n".to_vec())), Some(String::new()));
}

#[test]
fn output_that_is_not_utf8_gives_nothing() {
    assert_eq!(sysroot_from_output(Some(vec![0x2f, 0xff, 0x61])), None);
    assert_eq!(sysroot_from_output(Some(vec![0xc0, 0x80])), None);
}

#[test]
fn no_output_gives_nothing() {
    assert_eq!(sysroot_from_output(None), None);
}

#[test]
fn output_beyond_ascii_is_decoded() {
    let text = "\u{3000}/opt/r\u{e9}sum\u{e9}\u{85}\u{2028}";
    assert_eq!(
        sysroot_from_output(Some(text.as_bytes().to_vec())),
        Some("/opt/r\u{e9}sum\u{e9}".to_string())
    );
}

#[test]
fn zero_width_space_is_no_white_space() {
    let text = "\u{200b}/x\u{200b}";
    assert_eq!(sysroot_from_output(Some(text.as_bytes().to_vec())), Some(text.to_string()));
}

#[test]
fn white_space_is_the_listed_set() {
    let listed = |v: u32| {
        (0x09..=0x0d).contains(&v)
            || v == 0x20
            || v == 0x85
            || v == 0xa0
            || v == 0x1680
            || (0x2000..=0x200a).contains(&v)
            || v == 0x2028
            || v == 0x2029
            || v == 0x202f
            || v == 0x205f
            || v == 0x3000
    };
    for v in 0..=0x10ffffu32 {
        if let Some(c) = char::from_u32(v) {
            assert_eq!(c.is_whitespace(), listed(v), "U+{:04X}", v);
            let text = format!("{}a{}", c, c);
            let kept = sysroot_from_output(Some(text.into_bytes())).unwrap();
            assert_eq!(kept == "a", listed(v), "U+{:04X}", v);
        }
    }
}

#[test]
fn resolved_root_stands_whatever_the_output() {
    let e = env(&[("SYSROOT", "/s")]);
    assert_eq!(resolve_root(current_sysroot(&e), None), Ok("/s".to_string()));
    let e = env(&[("SYSROOT", "/s")]);
    assert_eq!(resolve_root(current_sysroot(&e), Some(b"/other\n".to_vec())), Ok("/s".to_string()));
}

#[test]
fn compiler_answer_resolves() {
    let e = env(&[]);
    assert_eq!(resolve_root(current_sysroot(&e), Some(b"/from/rustc\n".to_vec())), Ok("/from/rustc".to_string()));
}

#[test]
fn resolution_fails_when_every_source_fails() {
    let e = env(&[]);
    assert_eq!(resolve_root(current_sysroot(&e), None), Err(InterceptError::ResolutionFailure));
    let e = env(&[("RUSTC", "/nowhere")]);
    assert_eq!(
        resolve_root(current_sysroot(&e), Some(vec![0xff])),
        Err(InterceptError::ResolutionFailure)
    );
}
