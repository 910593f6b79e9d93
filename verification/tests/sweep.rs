use sweep_runner::commands::{
    bindgen_args, build_args, clean_args, driver_args, optimize_args, server_args, ARTIFACT,
    BINDGEN, COMPILER, COMPRESSED_ARTIFACT, DRIVER, REPORT, SERVER,
};
use sweep_runner::options::{CodegenUnits, Lto, OptLevel, Panic, Strip, WasmOpt};
use sweep_runner::report::MeasurementRow;
use sweep_runner::space::ConfigSpace;
use sweep_runner::sweep::{Phase, Sweep, SweepAction, SweepEvent};

fn two_by_one(profiles: Vec<WasmOpt>) -> ConfigSpace {
    ConfigSpace {
        opt_levels: vec![OptLevel::S, OptLevel::Z],
        ltos: vec![Lto::Off],
        codegen_units: vec![CodegenUnits::One],
        strips: vec![Strip::Keep],
        panics: vec![Panic::Unwind],
        profiles,
    }
}

struct Log {
    rows: Vec<MeasurementRow>,
    actions: Vec<SweepAction>,
    last: Sweep,
}

/// Carries a sweep through, answering every action with success. The build
/// of point `i` takes `i + 1` seconds, every optimizer run 250 ms.
fn drive(space: ConfigSpace) -> Log {
    let (mut sweep, mut action) = Sweep::start(space).unwrap();
    let mut rows = Vec::new();
    let mut actions = vec![action];
    loop {
        let event = match action {
            SweepAction::WriteSettings => SweepEvent::SettingsWritten,
            SweepAction::Clean => SweepEvent::Cleaned,
            SweepAction::Build => SweepEvent::Built {
                nanos: (sweep.point as u128 + 1) * 1_000_000_000,
            },
            SweepAction::Bindgen => SweepEvent::Bound,
            SweepAction::Optimize => SweepEvent::Optimized { nanos: 250_000_000 },
            SweepAction::Compress => SweepEvent::Compressed {
                size: 1000 + sweep.profile as u64,
                size_gzipped: 100 + sweep.profile as u64,
            },
            SweepAction::Measure => SweepEvent::Measured { frame_time: "16.67".to_string() },
            SweepAction::Record => {
                rows.push(sweep.row().unwrap());
                SweepEvent::Recorded
            }
            SweepAction::Finish => break,
            SweepAction::Abort { .. } => panic!("no step fails here"),
            SweepAction::Nothing => panic!("every event is in turn here"),
        };
        let (next, then) = sweep.step(event);
        sweep = next;
        action = then;
        actions.push(action);
    }
    Log { rows, actions, last: sweep }
}

#[test]
fn two_points_and_two_profiles_give_four_rows_in_order() {
    let log = drive(two_by_one(vec![WasmOpt::S, WasmOpt::Z]));
    let keys: Vec<(OptLevel, Lto, WasmOpt)> = log
        .rows
        .iter()
        .map(|row| (row.point.opt_level, row.point.lto, row.profile))
        .collect();
    assert_eq!(
        keys,
        vec![
            (OptLevel::S, Lto::Off, WasmOpt::S),
            (OptLevel::S, Lto::Off, WasmOpt::Z),
            (OptLevel::Z, Lto::Off, WasmOpt::S),
            (OptLevel::Z, Lto::Off, WasmOpt::Z),
        ]
    );
    let builds: Vec<u128> = log.rows.iter().map(|row| row.build_nanos).collect();
    assert_eq!(builds, vec![1_000_000_000, 1_000_000_000, 2_000_000_000, 2_000_000_000]);
    assert!(builds.iter().all(|nanos| *nanos > 0));
    assert_eq!(log.last.phase, Phase::Finished);
}

#[test]
fn each_point_is_built_once() {
    let log = drive(two_by_one(vec![WasmOpt::S, WasmOpt::Z]));
    assert_eq!(
        log.actions,
        vec![
            SweepAction::WriteSettings,
            SweepAction::Clean,
            SweepAction::Build,
            SweepAction::Bindgen,
            SweepAction::Optimize,
            SweepAction::Compress,
            SweepAction::Measure,
            SweepAction::Record,
            SweepAction::Bindgen,
            SweepAction::Optimize,
            SweepAction::Compress,
            SweepAction::Measure,
            SweepAction::Record,
            SweepAction::WriteSettings,
            SweepAction::Clean,
            SweepAction::Build,
            SweepAction::Bindgen,
            SweepAction::Optimize,
            SweepAction::Compress,
            SweepAction::Measure,
            SweepAction::Record,
            SweepAction::Bindgen,
            SweepAction::Optimize,
            SweepAction::Compress,
            SweepAction::Measure,
            SweepAction::Record,
            SweepAction::Finish,
        ]
    );
}

#[test]
fn disabled_profile_skips_the_optimizer_and_costs_no_time() {
    let log = drive(two_by_one(vec![WasmOpt::Off, WasmOpt::Three]));
    assert_eq!(log.rows.len(), 4);
    for row in &log.rows {
        if row.profile == WasmOpt::Off {
            assert_eq!(row.optimize_nanos, 0);
        } else {
            assert_eq!(row.optimize_nanos, 250_000_000);
        }
    }
    let optimizer_runs = log.actions.iter().filter(|a| **a == SweepAction::Optimize).count();
    assert_eq!(optimizer_runs, 2);
    assert_eq!(log.rows[0].size, 1000);
    assert_eq!(log.rows[1].size, 1001);
}

#[test]
fn disabled_profile_after_an_enabled_one_starts_from_zero() {
    let log = drive(two_by_one(vec![WasmOpt::Both, WasmOpt::Off]));
    let times: Vec<u128> = log.rows.iter().map(|row| row.optimize_nanos).collect();
    assert_eq!(times, vec![250_000_000, 0, 250_000_000, 0]);
}

#[test]
fn full_sweep_writes_every_row() {
    let log = drive(ConfigSpace::full());
    assert_eq!(log.rows.len(), 3 * 3 * 2 * 2 * 2 * 5);
    assert_eq!(log.rows.len(), 360);
    let space = ConfigSpace::full();
    for (number, row) in log.rows.iter().enumerate() {
        assert_eq!(Some(row.point), space.point(number / 5));
        assert_eq!(row.profile, space.profiles[number % 5]);
    }
    let builds = log.actions.iter().filter(|a| **a == SweepAction::Build).count();
    assert_eq!(builds, 72);
    assert_eq!(log.last.point, 72);
}

#[test]
fn full_sweep_rows_in_report_form() {
    let log = drive(ConfigSpace::full());
    assert_eq!(
        log.rows[0].render(),
        "S,None,Off,One,None,Unwind,1.000000000,0.000000000,1000,100,16.67"
    );
    assert_eq!(
        log.rows[359].render(),
        "Three,Both,Fat,Default,DebugInfo,Abort,72.000000000,0.250000000,1004,104,16.67"
    );
}

#[test]
fn sweep_without_points_is_finished_at_once() {
    let mut space = two_by_one(vec![WasmOpt::S]);
    space.panics = Vec::new();
    let (sweep, action) = Sweep::start(space).unwrap();
    assert_eq!(action, SweepAction::Finish);
    assert_eq!(sweep.phase, Phase::Finished);
}

#[test]
fn sweep_without_profiles_builds_and_writes_nothing() {
    let log = drive(two_by_one(Vec::new()));
    assert_eq!(log.rows.len(), 0);
    assert_eq!(
        log.actions,
        vec![
            SweepAction::WriteSettings,
            SweepAction::Clean,
            SweepAction::Build,
            SweepAction::WriteSettings,
            SweepAction::Clean,
            SweepAction::Build,
            SweepAction::Finish,
        ]
    );
}

#[test]
fn sweep_of_an_uncountable_space_does_not_start() {
    let space = ConfigSpace {
        opt_levels: vec![OptLevel::S; 1 << 13],
        ltos: vec![Lto::Off; 1 << 13],
        codegen_units: vec![CodegenUnits::One; 1 << 13],
        strips: vec![Strip::Keep; 1 << 13],
        panics: vec![Panic::Abort; 1 << 13],
        profiles: Vec::new(),
    };
    assert_eq!(Sweep::start(space), None);
}

#[test]
fn failure_of_any_step_aborts_the_sweep() {
    let answers = [
        SweepEvent::SettingsWritten,
        SweepEvent::Cleaned,
        SweepEvent::Built { nanos: 5 },
        SweepEvent::Bound,
        SweepEvent::Optimized { nanos: 6 },
        SweepEvent::Compressed { size: 2, size_gzipped: 1 },
        SweepEvent::Measured { frame_time: "1".to_string() },
    ];
    let stages = [
        Phase::Configuring,
        Phase::Cleaning,
        Phase::Building,
        Phase::Binding,
        Phase::Optimizing,
        Phase::Compressing,
        Phase::Measuring,
        Phase::Recording,
    ];
    for (failing, stage) in stages.iter().enumerate() {
        let (mut sweep, _) = Sweep::start(two_by_one(vec![WasmOpt::S])).unwrap();
        for answer in &answers[..failing] {
            let (next, action) = sweep.step(answer.clone());
            assert_ne!(action, SweepAction::Nothing);
            sweep = next;
        }
        assert_eq!(sweep.phase, *stage);
        let (sweep, action) = sweep.step(SweepEvent::Failed);
        assert_eq!(action, SweepAction::Abort { stage: *stage });
        assert_eq!(sweep.phase, Phase::Aborted);
        assert_eq!(sweep.row(), None);
        let (sweep, action) = sweep.step(SweepEvent::Recorded);
        assert_eq!(action, SweepAction::Nothing);
        let (sweep, action) = sweep.step(SweepEvent::Failed);
        assert_eq!(action, SweepAction::Nothing);
        assert_eq!(sweep.phase, Phase::Aborted);
    }
}

#[test]
fn events_out_of_turn_change_nothing() {
    let (sweep, _) = Sweep::start(two_by_one(vec![WasmOpt::S])).unwrap();
    let before = sweep.clone();
    let (sweep, action) = sweep.step(SweepEvent::Recorded);
    assert_eq!(action, SweepAction::Nothing);
    assert_eq!(sweep, before);
    let (sweep, action) = sweep.step(SweepEvent::Built { nanos: 1 });
    assert_eq!(action, SweepAction::Nothing);
    assert_eq!(sweep, before);
}

#[test]
fn there_is_a_row_only_when_one_is_due() {
    let (sweep, _) = Sweep::start(two_by_one(vec![WasmOpt::Off])).unwrap();
    assert_eq!(sweep.row(), None);
    let (sweep, _) = sweep.step(SweepEvent::SettingsWritten);
    let (sweep, _) = sweep.step(SweepEvent::Cleaned);
    let (sweep, _) = sweep.step(SweepEvent::Built { nanos: 3 });
    let (sweep, action) = sweep.step(SweepEvent::Bound);
    assert_eq!(action, SweepAction::Compress);
    let (sweep, _) = sweep.step(SweepEvent::Compressed { size: 20, size_gzipped: 10 });
    assert_eq!(sweep.row(), None);
    let (sweep, action) = sweep.step(SweepEvent::Measured { frame_time: "33.3".to_string() });
    assert_eq!(action, SweepAction::Record);
    let row = sweep.row().unwrap();
    assert_eq!(row.point, sweep.current_point().unwrap());
    assert_eq!(Some(row.profile), sweep.current_profile());
    assert_eq!(row.build_nanos, 3);
    assert_eq!(row.optimize_nanos, 0);
    assert_eq!(row.size, 20);
    assert_eq!(row.size_gzipped, 10);
    assert_eq!(row.frame_time, "33.3");
    let (sweep, _) = sweep.step(SweepEvent::Recorded);
    assert_eq!(sweep.row(), None);
    assert_eq!(sweep.frame_time, None);
}

#[test]
fn a_measurement_out_of_turn_leaves_no_row() {
    let (sweep, _) = Sweep::start(two_by_one(vec![WasmOpt::S])).unwrap();
    let (sweep, action) = sweep.step(SweepEvent::Measured { frame_time: "1".to_string() });
    assert_eq!(action, SweepAction::Nothing);
    assert_eq!(sweep.frame_time, None);
    assert_eq!(sweep.row(), None);
}

#[test]
fn command_lines() {
    assert_eq!(COMPILER, "cargo");
    assert_eq!(BINDGEN, "wasm-bindgen");
    assert_eq!(SERVER, "basic-http-server");
    assert_eq!(DRIVER, "node");
    assert_eq!(ARTIFACT, "web/bevy_wasm_bench_bg.wasm");
    assert_eq!(COMPRESSED_ARTIFACT, "web/bevy_wasm_bench_bg.wasm.gz");
    assert_eq!(REPORT, "out.csv");
    assert_eq!(clean_args(), vec!["clean"]);
    assert_eq!(
        build_args(),
        vec![
            "build",
            "-p",
            "bench",
            "--target=wasm32-unknown-unknown",
            "--profile",
            "bevy_wasm_bench"
        ]
    );
    assert_eq!(
        bindgen_args(),
        vec![
            "--out-name",
            "bevy_wasm_bench",
            "--out-dir",
            "web",
            "--target",
            "web",
            "target/wasm32-unknown-unknown/bevy_wasm_bench/bench.wasm"
        ]
    );
    assert_eq!(server_args(), vec!["web", "-a", "127.0.0.1:1334"]);
    assert_eq!(driver_args(), vec!["index.js"]);
}

#[test]
fn optimizer_works_in_place() {
    assert_eq!(optimize_args(WasmOpt::Off, "a.wasm"), None);
    assert_eq!(
        optimize_args(WasmOpt::S, "a.wasm"),
        Some(vec!["-Os".to_string(), "a.wasm".to_string(), "-o".to_string(), "a.wasm".to_string()])
    );
    let both = optimize_args(WasmOpt::Both, ARTIFACT).unwrap();
    assert_eq!(
        both,
        vec!["-O", "-s", "100", "-ol", "100", ARTIFACT, "-o", ARTIFACT]
    );
}

#[test]
fn a_frame_time_that_does_not_fit_a_column_aborts_the_sweep() {
    for text in ["1,2", "1\n2", "1,2\nx", ",", "\n"] {
        let (sweep, _) = Sweep::start(two_by_one(vec![WasmOpt::Off])).unwrap();
        let (sweep, _) = sweep.step(SweepEvent::SettingsWritten);
        let (sweep, _) = sweep.step(SweepEvent::Cleaned);
        let (sweep, _) = sweep.step(SweepEvent::Built { nanos: 3 });
        let (sweep, _) = sweep.step(SweepEvent::Bound);
        let (sweep, _) = sweep.step(SweepEvent::Compressed { size: 20, size_gzipped: 10 });
        assert_eq!(sweep.phase, Phase::Measuring);
        let (sweep, action) = sweep.step(SweepEvent::Measured { frame_time: text.to_string() });
        assert_eq!(action, SweepAction::Abort { stage: Phase::Measuring });
        assert_eq!(sweep.phase, Phase::Aborted);
        assert_eq!(sweep.frame_time, None);
        assert_eq!(sweep.row(), None);
    }
}

#[test]
fn a_state_made_by_hand_gives_no_row_that_breaks_the_columns() {
    let (sweep, _) = Sweep::start(two_by_one(vec![WasmOpt::Off])).unwrap();
    let fitting = Sweep {
        phase: Phase::Recording,
        frame_time: Some("16.67".to_string()),
        ..sweep.clone()
    };
    assert_eq!(fitting.row().unwrap().frame_time, "16.67");
    let with_comma =
        Sweep { phase: Phase::Recording, frame_time: Some("1,2".to_string()), ..sweep.clone() };
    assert_eq!(with_comma.row(), None);
    let with_break =
        Sweep { phase: Phase::Recording, frame_time: Some("1\n".to_string()), ..sweep.clone() };
    assert_eq!(with_break.row(), None);
    let without = Sweep { phase: Phase::Recording, frame_time: None, ..sweep };
    assert_eq!(without.row(), None);
}

#[test]
fn every_row_of_a_sweep_has_the_columns_of_the_header() {
    let log = drive(two_by_one(vec![WasmOpt::Off, WasmOpt::Both]));
    for row in &log.rows {
        let text = row.render();
        assert_eq!(text.split(',').count(), 11);
        assert!(!text.contains('\n'));
    }
}

#[test]
fn phases_in_words() {
    assert_eq!(Phase::Configuring.describe(), "Writing the settings");
    assert_eq!(Phase::Cleaning.describe(), "Cleaning");
    assert_eq!(Phase::Building.describe(), "Building");
    assert_eq!(Phase::Binding.describe(), "Generating the glue");
    assert_eq!(Phase::Optimizing.describe(), "Optimizing");
    assert_eq!(Phase::Compressing.describe(), "Compressing");
    assert_eq!(Phase::Measuring.describe(), "Measuring");
    assert_eq!(Phase::Recording.describe(), "Writing the report");
    assert_eq!(Phase::Finished.describe(), "Finished");
    assert_eq!(Phase::Aborted.describe(), "Aborted");
}
