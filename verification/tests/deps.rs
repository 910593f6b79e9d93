use sweep_runner::commands::required_programs;
use sweep_runner::deps::{check_all_deps, presence_line, DependencyError, Probe, ProbeOutcome};

fn probe(name: &str, outcome: ProbeOutcome) -> Probe {
    Probe { name: name.to_string(), outcome }
}

#[test]
fn all_present_passes() {
    let probes = vec![
        probe("cargo", ProbeOutcome::Present),
        probe("node", ProbeOutcome::Present),
    ];
    assert_eq!(check_all_deps(&probes), Ok(()));
}

#[test]
fn nothing_to_probe_passes() {
    assert_eq!(check_all_deps(&Vec::new()), Ok(()));
}

#[test]
fn one_resolvable_and_one_not() {
    let probes = vec![
        probe("cargo", ProbeOutcome::Present),
        probe("no-such-program", ProbeOutcome::Absent),
    ];
    assert_eq!(
        check_all_deps(&probes),
        Err(DependencyError::Missing { names: vec!["no-such-program".to_string()] })
    );
}

#[test]
fn every_missing_program_is_named() {
    let probes = vec![
        probe("a", ProbeOutcome::Absent),
        probe("b", ProbeOutcome::Present),
        probe("c", ProbeOutcome::Absent),
        probe("d", ProbeOutcome::Absent),
    ];
    assert_eq!(
        check_all_deps(&probes),
        Err(DependencyError::Missing {
            names: vec!["a".to_string(), "c".to_string(), "d".to_string()]
        })
    );
}

#[test]
fn an_indeterminate_probe_is_not_a_missing_program() {
    let probes = vec![
        probe("a", ProbeOutcome::Absent),
        probe("b", ProbeOutcome::Indeterminate),
        probe("c", ProbeOutcome::Indeterminate),
    ];
    assert_eq!(
        check_all_deps(&probes),
        Err(DependencyError::Indeterminate { name: "b".to_string() })
    );
}

#[test]
fn presence_lines() {
    assert_eq!(
        presence_line(&probe("cargo", ProbeOutcome::Present)),
        "Checking for cargo in PATH: ✅"
    );
    assert_eq!(
        presence_line(&probe("node", ProbeOutcome::Absent)),
        "Checking for node in PATH: ❌"
    );
    assert_eq!(
        presence_line(&probe("node", ProbeOutcome::Indeterminate)),
        "Checking for node in PATH: ❌"
    );
}

#[test]
fn required_programs_in_order() {
    assert_eq!(
        required_programs("wasm-opt"),
        vec!["cargo", "wasm-opt", "basic-http-server", "wasm-bindgen", "node"]
    );
    assert_eq!(required_programs("./wasm-opt.exe")[1], "./wasm-opt.exe");
}
