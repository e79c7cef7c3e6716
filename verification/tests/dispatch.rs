use radcontrol::dispatch::{run_o2, run_o2_key, run_o2_proxy};
use radcontrol::error::{ErrorKind, O2Error, RegistryFault, TokenRole};
use radcontrol::key::{parse_o2_key, O2Key};
use radcontrol::verbs::verb_to_script;

fn script(name: &str, arg: &str) -> String {
    format!(
        "\nset -euo pipefail\nO2_ROOT=\"${{O2_ROOT:-$HOME/dev/o2}}\"\ncd \"${{O2_ROOT}}\"\nbash \"scripts/{name}\" \"{arg}\"\n"
    )
}

#[test]
fn parse_project_verb() {
    assert_eq!(
        parse_o2_key("tbis.snapshot"),
        Ok(O2Key::ProjectVerb { project: "tbis".to_string(), verb: "snapshot".to_string() })
    );
}

#[test]
fn parse_accepts_a_verb_the_table_does_not_know() {
    assert_eq!(
        parse_o2_key("tbis.deploy"),
        Ok(O2Key::ProjectVerb { project: "tbis".to_string(), verb: "deploy".to_string() })
    );
}

#[test]
fn parse_port_status() {
    assert_eq!(parse_o2_key("port_status.3000"), Ok(O2Key::PortStatus { port: "3000".to_string() }));
    assert_eq!(
        parse_o2_key(" port_status . 0080 "),
        Ok(O2Key::PortStatus { port: "0080".to_string() })
    );
}

#[test]
fn parse_trims_both_parts() {
    assert_eq!(
        parse_o2_key("  tbis \t.\n commit  "),
        Ok(O2Key::ProjectVerb { project: "tbis".to_string(), verb: "commit".to_string() })
    );
    assert_eq!(
        parse_o2_key("\u{a0}tbis\u{3000}.dev\u{2003}"),
        Ok(O2Key::ProjectVerb { project: "tbis".to_string(), verb: "dev".to_string() })
    );
}

#[test]
fn parse_rejects_keys_without_exactly_one_dot() {
    for key in ["", "tbis", "tbis..dev", "a.b.c", "...", "port_status", "port_status.30.00"] {
        assert_eq!(parse_o2_key(key), Err(O2Error::BadKeyShape { key: key.to_string() }));
    }
}

#[test]
fn parse_rejects_unsafe_tokens() {
    assert_eq!(
        parse_o2_key("TBIS.dev"),
        Err(O2Error::UnsafeToken { role: TokenRole::Project, token: "TBIS".to_string() })
    );
    assert_eq!(
        parse_o2_key("tbis.De v"),
        Err(O2Error::UnsafeToken { role: TokenRole::Verb, token: "De v".to_string() })
    );
    assert_eq!(
        parse_o2_key(".dev"),
        Err(O2Error::UnsafeToken { role: TokenRole::Project, token: String::new() })
    );
    assert_eq!(
        parse_o2_key("tbis."),
        Err(O2Error::UnsafeToken { role: TokenRole::Verb, token: String::new() })
    );
    assert_eq!(
        parse_o2_key("a b.$(x)"),
        Err(O2Error::UnsafeToken { role: TokenRole::Project, token: "a b".to_string() })
    );
    assert_eq!(
        parse_o2_key("tbis.\"; rm -rf ~; \""),
        Err(O2Error::UnsafeToken { role: TokenRole::Verb, token: "\"; rm -rf ~; \"".to_string() })
    );
}

#[test]
fn parse_rejects_bad_port_tokens() {
    assert_eq!(
        parse_o2_key("port_status.http"),
        Err(O2Error::UnsafeToken { role: TokenRole::Port, token: "http".to_string() })
    );
    assert_eq!(
        parse_o2_key("port_status."),
        Err(O2Error::UnsafeToken { role: TokenRole::Port, token: String::new() })
    );
    assert_eq!(
        parse_o2_key("port_status.-1"),
        Err(O2Error::UnsafeToken { role: TokenRole::Port, token: "-1".to_string() })
    );
}

#[test]
fn parse_is_total_on_odd_inputs() {
    let inputs = ["", ".", " . ", "\u{0}.\u{0}", "é.è", "a.\n", "𝔘.x", "port_status.٣"];
    for key in inputs {
        match parse_o2_key(key) {
            Ok(O2Key::ProjectVerb { .. }) | Ok(O2Key::PortStatus { .. }) => {}
            Err(e) => assert!(matches!(e.kind(), ErrorKind::BadKeyShape | ErrorKind::UnsafeToken)),
        }
    }
}

#[test]
fn verb_table() {
    assert_eq!(verb_to_script("dev"), Ok("o2_dev.sh"));
    assert_eq!(verb_to_script("dev_strict"), Ok("o2_dev_strict.sh"));
    assert_eq!(verb_to_script("snapshot"), Ok("o2_snapshot.sh"));
    assert_eq!(verb_to_script("commit"), Ok("o2_commit.sh"));
    assert_eq!(verb_to_script("map"), Ok("o2_map.sh"));
    assert_eq!(verb_to_script("proofpack"), Ok("o2_proofpack.sh"));
    assert_eq!(verb_to_script("truth_map"), Ok("o2_truth_map.sh"));
}

#[test]
fn verb_table_is_closed() {
    for verb in ["deploy", "", "Dev", "dev ", "session_start", "index", "devv", "de", "port_status"] {
        assert_eq!(verb_to_script(verb), Err(O2Error::UnknownVerb { verb: verb.to_string() }));
    }
}

#[test]
fn run_o2_snapshot() {
    assert_eq!(run_o2("tbis.snapshot"), Ok(script("o2_snapshot.sh", "tbis")));
}

#[test]
fn run_o2_invokes_the_script_from_the_root() {
    let text = run_o2("tbis.snapshot").unwrap();
    let lines: Vec<&str> = text.lines().collect();
    assert_eq!(
        lines,
        vec![
            "",
            "set -euo pipefail",
            "O2_ROOT=\"${O2_ROOT:-$HOME/dev/o2}\"",
            "cd \"${O2_ROOT}\"",
            "bash \"scripts/o2_snapshot.sh\" \"tbis\"",
        ]
    );
}

#[test]
fn run_o2_trims_trailing_space() {
    assert_eq!(run_o2("tbis.commit "), run_o2("tbis.commit"));
    assert_eq!(run_o2("tbis.commit "), Ok(script("o2_commit.sh", "tbis")));
}

#[test]
fn run_o2_two_dots_is_bad_key_shape() {
    let e = run_o2("tbis..dev").unwrap_err();
    assert_eq!(e.kind(), ErrorKind::BadKeyShape);
    assert_eq!(e, O2Error::BadKeyShape { key: "tbis..dev".to_string() });
    assert_eq!(
        e.message(),
        "Invalid key 'tbis..dev'. Expected '<project>.<verb>' OR 'port_status.<port>' (one dot)."
    );
    assert_eq!(e.message().matches("tbis..dev").count(), 1);
}

#[test]
fn run_o2_upper_case_is_unsafe_token() {
    let e = run_o2("TBIS.dev").unwrap_err();
    assert_eq!(e.kind(), ErrorKind::UnsafeToken);
    assert_eq!(e.message(), "Unsafe project token: 'TBIS'");
    assert_eq!(e.message().matches("TBIS").count(), 1);
}

#[test]
fn run_o2_unknown_verb() {
    let e = run_o2("tbis.deploy").unwrap_err();
    assert_eq!(e.kind(), ErrorKind::UnknownVerb);
    assert_eq!(e, O2Error::UnknownVerb { verb: "deploy".to_string() });
    assert_eq!(e.message(), "Unknown verb 'deploy' (not wired in O2 verb map)");
    assert_eq!(e.message().matches("deploy").count(), 1);
}

#[test]
fn run_o2_port_status() {
    assert_eq!(run_o2("port_status.3000"), Ok(script("o2_port_status_verb.sh", "3000")));
}

#[test]
fn run_o2_knows_exactly_seven_verbs() {
    let known = ["dev", "dev_strict", "snapshot", "commit", "map", "proofpack", "truth_map"];
    let others = ["deploy", "session_start", "index", "build", "d", "port_status", "truthmap"];
    for v in known {
        assert!(run_o2(&format!("any.{v}")).is_ok());
    }
    for v in others {
        let e = run_o2(&format!("any.{v}")).unwrap_err();
        assert_eq!(e, O2Error::UnknownVerb { verb: v.to_string() });
    }
}

#[test]
fn run_o2_command_line_has_the_dispatch_shape() {
    let verbs = [
        ("dev", "o2_dev.sh"),
        ("dev_strict", "o2_dev_strict.sh"),
        ("snapshot", "o2_snapshot.sh"),
        ("commit", "o2_commit.sh"),
        ("map", "o2_map.sh"),
        ("proofpack", "o2_proofpack.sh"),
        ("truth_map", "o2_truth_map.sh"),
    ];
    for project in ["tbis", "dqotd", "rad-control_2"] {
        for (verb, file) in verbs {
            let text = run_o2(&format!("{project}.{verb}")).unwrap();
            let preamble =
                "\nset -euo pipefail\nO2_ROOT=\"${O2_ROOT:-$HOME/dev/o2}\"\ncd \"${O2_ROOT}\"\n";
            let command = text.strip_prefix(preamble).unwrap();
            assert_eq!(command.trim(), format!("bash \"scripts/{file}\" \"{project}\""));
        }
    }
}

#[test]
fn run_o2_proxy_agrees_with_run_o2() {
    for key in ["tbis.dev", "tbis.deploy", "x", "port_status.1", "A.b"] {
        assert_eq!(run_o2_proxy(key), run_o2(key));
    }
}

#[test]
fn run_o2_key_on_parsed_keys() {
    let key = parse_o2_key("dqotd.map").unwrap();
    assert_eq!(run_o2_key(&key), Ok(script("o2_map.sh", "dqotd")));
    let key = parse_o2_key("port_status.65535").unwrap();
    assert_eq!(run_o2_key(&key), Ok(script("o2_port_status_verb.sh", "65535")));
    let key = parse_o2_key("dqotd.index").unwrap();
    assert_eq!(run_o2_key(&key), Err(O2Error::UnknownVerb { verb: "index".to_string() }));
}

#[test]
fn messages_of_every_kind() {
    let cases: Vec<(O2Error, ErrorKind, &str)> = vec![
        (
            O2Error::BadKeyShape { key: "a.b.c".to_string() },
            ErrorKind::BadKeyShape,
            "Invalid key 'a.b.c'. Expected '<project>.<verb>' OR 'port_status.<port>' (one dot).",
        ),
        (
            O2Error::UnsafeToken { role: TokenRole::Project, token: "A".to_string() },
            ErrorKind::UnsafeToken,
            "Unsafe project token: 'A'",
        ),
        (
            O2Error::UnsafeToken { role: TokenRole::Verb, token: "B!".to_string() },
            ErrorKind::UnsafeToken,
            "Unsafe verb token: 'B!'",
        ),
        (
            O2Error::UnsafeToken { role: TokenRole::Port, token: "x1".to_string() },
            ErrorKind::UnsafeToken,
            "Invalid port token: 'x1'",
        ),
        (
            O2Error::UnknownVerb { verb: "deploy".to_string() },
            ErrorKind::UnknownVerb,
            "Unknown verb 'deploy' (not wired in O2 verb map)",
        ),
        (
            O2Error::SpawnFailed { reason: "No such file or directory (os error 2)".to_string() },
            ErrorKind::SpawnFailed,
            "Failed to spawn shell: No such file or directory (os error 2)",
        ),
        (
            O2Error::NonZeroExit { code: Some(2), output: "boom".to_string() },
            ErrorKind::NonZeroExit,
            "Command failed (exit 2):\nboom",
        ),
        (
            O2Error::NonZeroExit { code: None, output: String::new() },
            ErrorKind::NonZeroExit,
            "Command failed (exit -1):\n",
        ),
        (
            O2Error::MissingEnv { reason: "environment variable not found".to_string() },
            ErrorKind::MissingEnv,
            "HOME not set: environment variable not found",
        ),
        (
            O2Error::MissingFile { path: "/h/dev/o2/registry/projects.json".to_string() },
            ErrorKind::MissingFile,
            "O2 registry missing: /h/dev/o2/registry/projects.json",
        ),
        (
            O2Error::BadRegistry {
                path: "/p.json".to_string(),
                fault: RegistryFault::Unreadable { reason: "denied".to_string() },
            },
            ErrorKind::BadRegistry,
            "Failed to read /p.json: denied",
        ),
        (
            O2Error::BadRegistry {
                path: "/p.json".to_string(),
                fault: RegistryFault::InvalidJson { detail: "expected value".to_string() },
            },
            ErrorKind::BadRegistry,
            "Invalid JSON in /p.json: expected value",
        ),
        (
            O2Error::BadRegistry { path: "/p.json".to_string(), fault: RegistryFault::NotArray },
            ErrorKind::BadRegistry,
            "Registry at /p.json is not a JSON array",
        ),
        (
            O2Error::BadRegistry {
                path: "/p.json".to_string(),
                fault: RegistryFault::Unserializable { detail: "no".to_string() },
            },
            ErrorKind::BadRegistry,
            "Failed to serialize registry: no",
        ),
    ];
    for (error, kind, message) in cases {
        assert_eq!(error.kind(), kind);
        assert_eq!(error.message(), message);
    }
}
