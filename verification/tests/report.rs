use sweep_runner::options::{CodegenUnits, Lto, OptLevel, Panic, Strip, WasmOpt};
use sweep_runner::report::{header, MeasurementRow};
use sweep_runner::space::ConfigPoint;
use sweep_runner::text::{decimal_text, fits_field, fixed_digits_text, join, seconds_text};

#[test]
fn decimal_of_small_and_large_numbers() {
    assert_eq!(decimal_text(0), "0");
    assert_eq!(decimal_text(7), "7");
    assert_eq!(decimal_text(10), "10");
    assert_eq!(decimal_text(12345), "12345");
    assert_eq!(decimal_text(1_000_000), "1000000");
    assert_eq!(decimal_text(u64::MAX as u128), "18446744073709551615");
    assert_eq!(decimal_text(u128::MAX), "340282366920938463463374607431768211455");
}

#[test]
fn decimal_agrees_with_the_standard_library() {
    let mut n: u128 = 1;
    for _ in 0..60 {
        assert_eq!(decimal_text(n), n.to_string());
        assert_eq!(decimal_text(n - 1), (n - 1).to_string());
        n = n * 3 + 1;
    }
}

#[test]
fn fixed_digits_pad_and_cut() {
    assert_eq!(fixed_digits_text(0, 0), "");
    assert_eq!(fixed_digits_text(5, 3), "005");
    assert_eq!(fixed_digits_text(123, 3), "123");
    assert_eq!(fixed_digits_text(12345, 3), "345");
    assert_eq!(fixed_digits_text(0, 9), "000000000");
}

#[test]
fn seconds_keep_every_nanosecond() {
    assert_eq!(seconds_text(0), "0.000000000");
    assert_eq!(seconds_text(1), "0.000000001");
    assert_eq!(seconds_text(1_500_000_000), "1.500000000");
    assert_eq!(seconds_text(999_999_999), "0.999999999");
    assert_eq!(seconds_text(12_345_678_901), "12.345678901");
    assert_eq!(seconds_text(3_600_000_000_000), "3600.000000000");
}

#[test]
fn join_puts_the_separator_between() {
    assert_eq!(join(&Vec::new(), ","), "");
    assert_eq!(join(&vec!["a".to_string()], ","), "a");
    assert_eq!(join(&vec!["a".to_string(), "b".to_string()], ","), "a,b");
    assert_eq!(
        join(&vec!["a".to_string(), String::new(), "c".to_string()], "\n"),
        "a\n\nc"
    );
    assert_eq!(join(&vec![String::new(), String::new()], "--"), "--");
}

#[test]
fn header_lists_the_columns() {
    assert_eq!(
        header(),
        "opt_level,wasm_opt,lto,codegen_units,strip,panic,build_time,wasm_opt_time,size,size_gzipped,frame_time"
    );
}

#[test]
fn row_follows_the_header() {
    let row = MeasurementRow {
        point: ConfigPoint {
            opt_level: OptLevel::Z,
            lto: Lto::Fat,
            codegen_units: CodegenUnits::One,
            strip: Strip::Keep,
            panic: Panic::Abort,
        },
        profile: WasmOpt::Both,
        build_nanos: 61_250_000_000,
        optimize_nanos: 4_000_000_123,
        size: 15_000_000,
        size_gzipped: 4_321_987,
        frame_time: "16.67".to_string(),
    };
    assert_eq!(
        row.render(),
        "Z,Both,Fat,One,None,Abort,61.250000000,4.000000123,15000000,4321987,16.67"
    );
    assert_eq!(row.render().split(',').count(), header().split(',').count());
}

#[test]
fn row_of_a_disabled_profile() {
    let row = MeasurementRow {
        point: ConfigPoint {
            opt_level: OptLevel::Three,
            lto: Lto::Off,
            codegen_units: CodegenUnits::Default,
            strip: Strip::DebugInfo,
            panic: Panic::Unwind,
        },
        profile: WasmOpt::Off,
        build_nanos: 1,
        optimize_nanos: 0,
        size: 0,
        size_gzipped: u64::MAX,
        frame_time: "8.5".to_string(),
    };
    assert_eq!(
        row.render(),
        "Three,None,Off,Default,DebugInfo,Unwind,0.000000001,0.000000000,0,18446744073709551615,8.5"
    );
}

#[test]
fn a_field_holds_neither_comma_nor_line_break() {
    assert!(fits_field(""));
    assert!(fits_field("16.67"));
    assert!(fits_field("1e-3"));
    assert!(fits_field("a b\tc\r"));
    assert!(fits_field("\u{ff0c}\u{2028}"));
    assert!(!fits_field(","));
    assert!(!fits_field("\n"));
    assert!(!fits_field("16,67"));
    assert!(!fits_field("16.67\n"));
    assert!(!fits_field("\u{4e2d},"));
    assert!(!fits_field("x\ny,z"));
}
