use sweep_runner::options::{CodegenUnits, Lto, OptLevel, Panic, Strip, WasmOpt};
use sweep_runner::settings::SETTINGS_PATH;
use sweep_runner::space::{ConfigPoint, ConfigSpace};

fn small_space() -> ConfigSpace {
    ConfigSpace {
        opt_levels: vec![OptLevel::S, OptLevel::Z],
        ltos: vec![Lto::Off, Lto::Fat, Lto::Thin],
        codegen_units: vec![CodegenUnits::One],
        strips: vec![Strip::Keep, Strip::DebugInfo],
        panics: vec![Panic::Abort, Panic::Unwind],
        profiles: vec![WasmOpt::Off],
    }
}

#[test]
fn full_space_has_seventy_two_points() {
    let space = ConfigSpace::full();
    assert_eq!(space.count(), Some(72));
    assert_eq!(space.profiles.len(), 5);
}

#[test]
fn full_space_first_and_last_point() {
    let space = ConfigSpace::full();
    assert_eq!(
        space.point(0),
        Some(ConfigPoint {
            opt_level: OptLevel::S,
            lto: Lto::Off,
            codegen_units: CodegenUnits::One,
            strip: Strip::Keep,
            panic: Panic::Unwind,
        })
    );
    assert_eq!(
        space.point(71),
        Some(ConfigPoint {
            opt_level: OptLevel::Three,
            lto: Lto::Fat,
            codegen_units: CodegenUnits::Default,
            strip: Strip::DebugInfo,
            panic: Panic::Abort,
        })
    );
    assert_eq!(space.point(72), None);
    assert_eq!(space.point(usize::MAX), None);
}

#[test]
fn last_dimension_turns_fastest() {
    let space = ConfigSpace::full();
    let first = space.point(0).unwrap();
    let second = space.point(1).unwrap();
    assert_eq!(second, ConfigPoint { panic: Panic::Abort, ..first });
    let third = space.point(2).unwrap();
    assert_eq!(third, ConfigPoint { strip: Strip::DebugInfo, ..first });
    let fifth = space.point(4).unwrap();
    assert_eq!(fifth, ConfigPoint { codegen_units: CodegenUnits::Default, ..first });
    let ninth = space.point(8).unwrap();
    assert_eq!(ninth, ConfigPoint { lto: Lto::Thin, ..first });
    let twenty_fifth = space.point(24).unwrap();
    assert_eq!(twenty_fifth, ConfigPoint { opt_level: OptLevel::Z, ..first });
}

#[test]
fn points_are_the_nested_loops_in_order() {
    let space = small_space();
    let mut expected = Vec::new();
    for opt_level in &space.opt_levels {
        for lto in &space.ltos {
            for codegen_units in &space.codegen_units {
                for strip in &space.strips {
                    for panic in &space.panics {
                        expected.push(ConfigPoint {
                            opt_level: *opt_level,
                            lto: *lto,
                            codegen_units: *codegen_units,
                            strip: *strip,
                            panic: *panic,
                        });
                    }
                }
            }
        }
    }
    assert_eq!(space.count(), Some(expected.len()));
    assert_eq!(expected.len(), 24);
    for (index, point) in expected.iter().enumerate() {
        assert_eq!(space.point(index), Some(*point));
    }
    assert_eq!(space.point(expected.len()), None);
}

#[test]
fn every_point_of_the_full_space_occurs_once() {
    let space = ConfigSpace::full();
    let mut seen: Vec<ConfigPoint> = Vec::new();
    for index in 0..72 {
        let point = space.point(index).unwrap();
        assert!(!seen.contains(&point));
        seen.push(point);
    }
    assert_eq!(seen.len(), 72);
}

#[test]
fn a_space_with_an_empty_dimension_has_no_point() {
    let mut space = small_space();
    space.strips = Vec::new();
    assert_eq!(space.count(), Some(0));
    assert_eq!(space.point(0), None);
}

#[test]
fn a_space_with_an_empty_dimension_and_huge_others_has_no_point() {
    let space = ConfigSpace {
        opt_levels: vec![OptLevel::S; 1 << 16],
        ltos: vec![Lto::Off; 1 << 16],
        codegen_units: vec![CodegenUnits::One; 1 << 16],
        strips: vec![Strip::Keep; 1 << 16],
        panics: Vec::new(),
        profiles: Vec::new(),
    };
    assert_eq!(space.count(), Some(0));
}

#[test]
fn a_space_too_large_to_count_is_told_apart() {
    let space = ConfigSpace {
        opt_levels: vec![OptLevel::S; 1 << 13],
        ltos: vec![Lto::Off; 1 << 13],
        codegen_units: vec![CodegenUnits::One; 1 << 13],
        strips: vec![Strip::Keep; 1 << 13],
        panics: vec![Panic::Abort; 1 << 13],
        profiles: Vec::new(),
    };
    assert_eq!(space.count(), None);
    assert!(space.point(usize::MAX).is_some());
}

#[test]
fn settings_hold_one_line_per_dimension() {
    let point = ConfigPoint {
        opt_level: OptLevel::S,
        lto: Lto::Off,
        codegen_units: CodegenUnits::One,
        strip: Strip::DebugInfo,
        panic: Panic::Unwind,
    };
    assert_eq!(
        point.settings(),
        "[profile.bevy_wasm_bench]\ninherits = \"release\"\nopt-level = \"s\"\nlto = \"off\"\ncodegen-units = 1\nstrip = \"debuginfo\"\npanic = \"unwind\""
    );
}

#[test]
fn settings_keep_an_empty_line_for_a_default() {
    let point = ConfigPoint {
        opt_level: OptLevel::Three,
        lto: Lto::Thin,
        codegen_units: CodegenUnits::Default,
        strip: Strip::Keep,
        panic: Panic::Abort,
    };
    let text = point.settings();
    assert_eq!(
        text,
        "[profile.bevy_wasm_bench]\ninherits = \"release\"\nopt-level = \"3\"\nlto = \"thin\"\n\n\npanic = \"abort\""
    );
    let lines: Vec<&str> = text.split('\n').collect();
    assert_eq!(lines.len(), 7);
    assert_eq!(lines[4], "");
    assert_eq!(lines[5], "");
}

#[test]
fn settings_of_every_point_have_seven_lines() {
    let space = ConfigSpace::full();
    for index in 0..72 {
        let point = space.point(index).unwrap();
        let text = point.settings();
        let lines: Vec<&str> = text.split('\n').collect();
        assert_eq!(lines.len(), 7);
        assert_eq!(lines[0], "[profile.bevy_wasm_bench]");
        assert_eq!(lines[1], "inherits = \"release\"");
        assert_eq!(lines[2], point.opt_level.option());
        assert_eq!(lines[3], point.lto.option());
        assert_eq!(lines[4], point.codegen_units.option());
        assert_eq!(lines[5], point.strip.option());
        assert_eq!(lines[6], point.panic.option());
    }
}

#[test]
fn settings_file_path() {
    assert_eq!(SETTINGS_PATH, ".cargo/config.toml");
}
