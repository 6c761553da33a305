use notion_shell::postscript::Postscript;
use notion_shell::shell::{CurrentShell, ShellError};
use notion_shell::version::Version;

/// The library's version value for a canonical version string, parsed by
/// the semver crate.
fn lib_version(s: &str) -> Version {
    let v = semver::Version::parse(s).expect("version should parse");
    Version {
        major: v.major,
        minor: v.minor,
        patch: v.patch,
        pre: v.pre.as_str().to_string(),
        build: v.build.as_str().to_string(),
    }
}

fn bash_shell() -> CurrentShell {
    CurrentShell::detect(
        Some("bash".to_string()),
        Some("/tmp/notion_postscript".to_string()),
    )
    .expect("Could not create bash shell")
}

#[test]
fn test_compile_postscript() {
    let bash = bash_shell();

    assert_eq!(
        bash.compile_postscript(&Postscript::Deactivate("some:path".to_string())),
        "export PATH='some:path'\nunset NOTION_HOME\n"
    );

    assert_eq!(
        bash.compile_postscript(&Postscript::Deactivate(
            "/path:/with:/single'quotes'".to_string()
        )),
        "export PATH='/path:/with:/single'quotes''\nunset NOTION_HOME\n"
    );

    assert_eq!(
        bash.compile_postscript(&Postscript::ToolVersion {
            tool: "test".to_string(),
            version: lib_version("2.4.5")
        }),
        "export NOTION_TEST_VERSION=2.4.5\n"
    );

    assert_eq!(
        bash.compile_postscript(&Postscript::Activate("some:path".to_string())),
        "export PATH='some:path'\nexport NOTION_HOME=\"${HOME}/.notion\"\n"
    );
}

#[test]
fn test_compile_deterministic() {
    let bash = bash_shell();
    let intents = vec![
        Postscript::Activate("/home/user/.notion/bin:/usr/bin".to_string()),
        Postscript::Deactivate("/usr/bin:/bin".to_string()),
        Postscript::ToolVersion {
            tool: "yarn".to_string(),
            version: lib_version("1.16.0"),
        },
    ];
    for intent in &intents {
        assert_eq!(
            bash.compile_postscript(intent),
            bash.compile_postscript(intent)
        );
    }
}

#[test]
fn test_activate_uses_home_expression() {
    let bash = bash_shell();
    let out = bash.compile_postscript(&Postscript::Activate("/opt/notion/bin".to_string()));
    assert!(out.starts_with("export PATH='"));
    assert!(out.contains("export NOTION_HOME=\"${HOME}/.notion\""));
    assert!(out.ends_with("\n"));
    assert!(!out.ends_with("\n\n"));
}

#[test]
fn test_tool_version_node() {
    let bash = bash_shell();
    assert_eq!(
        bash.compile_postscript(&Postscript::ToolVersion {
            tool: "node".to_string(),
            version: lib_version("16.2.0")
        }),
        "export NOTION_NODE_VERSION=16.2.0\n"
    );
}

#[test]
fn test_deactivate_quote_gap_preserved() {
    // The single quote inside the path is passed through unescaped: the
    // quoted string closes early when the shell parses it. The broken
    // output is the current, documented behaviour.
    let bash = bash_shell();
    assert_eq!(
        bash.compile_postscript(&Postscript::Deactivate("/path:with:a'quote".to_string())),
        "export PATH='/path:with:a'quote'\nunset NOTION_HOME\n"
    );
}

#[test]
fn test_detect_unspecified_shell() {
    assert_eq!(
        CurrentShell::detect(None, Some("/tmp/notion_postscript".to_string())),
        Err(ShellError::UnspecifiedShell)
    );
    assert_eq!(
        CurrentShell::detect(None, None),
        Err(ShellError::UnspecifiedShell)
    );
}

#[test]
fn test_detect_unrecognized_shell() {
    assert_eq!(
        CurrentShell::detect(
            Some("zsh".to_string()),
            Some("/tmp/notion_postscript".to_string())
        ),
        Err(ShellError::UnrecognizedShell {
            name: "zsh".to_string()
        })
    );
}

#[test]
fn test_detect_unspecified_postscript() {
    assert_eq!(
        CurrentShell::detect(Some("bash".to_string()), None),
        Err(ShellError::UnspecifiedPostscript)
    );
}

#[test]
fn test_detect_bash() {
    let shell = CurrentShell::detect(
        Some("bash".to_string()),
        Some("/home/user/.notion/postscript".to_string()),
    )
    .expect("bash with a postscript path should be detected");
    assert_eq!(shell.postscript_path(), "/home/user/.notion/postscript");
}

#[test]
fn test_version_string_matches_semver() {
    for s in [
        "0.0.0",
        "2.4.5",
        "16.2.0",
        "1.0.0-alpha.1",
        "1.0.0+build.5",
        "10.20.30-rc.1+linux.x64",
    ] {
        let parsed = semver::Version::parse(s).expect("version should parse");
        assert_eq!(lib_version(s).to_version_string(), parsed.to_string());
        assert_eq!(lib_version(s).to_version_string(), s);
    }
}

#[test]
fn test_version_string_large_components() {
    let v = Version::new(u64::MAX, 0, 7);
    assert_eq!(
        v.to_version_string(),
        format!("{}.0.7", u64::MAX)
    );
}
