//! The report: one header and one row per measurement, comma-separated.
//!
//! The columns are fixed: the six dimensions by label, then the build time
//! and the optimizer's time in seconds, the artifact's size and its
//! compressed size in bytes, and the measured frame time in milliseconds.

use vstd::prelude::*;
use vstd::string::*;
use crate::options::WasmOpt;
use crate::space::ConfigPoint;
use crate::text::{
    decimal, decimal_text, free_of, is_field, join, joined, lemma_decimal_free_of,
    lemma_joined_free_of, lemma_seconds_free_of, lemma_split_joined, seconds, seconds_text, split,
};

verus! {

/// One measurement: a configuration point under one optimizer profile, and
/// what was measured of it.
#[derive(Clone, Debug, PartialEq, Eq)]
pub struct MeasurementRow {
    pub point: ConfigPoint,
    pub profile: WasmOpt,
    /// Wall-clock time of the compiler run, in nanoseconds.
    pub build_nanos: u128,
    /// Wall-clock time of the optimizer run, in nanoseconds; zero where the
    /// profile is disabled.
    pub optimize_nanos: u128,
    /// Size of the artifact, in bytes.
    pub size: u64,
    /// Size of the compressed artifact, in bytes.
    pub size_gzipped: u64,
    /// The frame time in milliseconds, as text. A row that a sweep hands
    /// out holds neither a comma nor a line break here.
    pub frame_time: String,
}

/// The names of the columns, in order.
pub open spec fn columns() -> Seq<Seq<char>> {
    seq![
        "opt_level"@,
        "wasm_opt"@,
        "lto"@,
        "codegen_units"@,
        "strip"@,
        "panic"@,
        "build_time"@,
        "wasm_opt_time"@,
        "size"@,
        "size_gzipped"@,
        "frame_time"@,
    ]
}

/// The header row.
pub open spec fn header_text() -> Seq<char> {
    joined(columns(), seq![','])
}

/// Renders the header row, without a line break.
pub fn header() -> (text: String)
    ensures
        text@ == header_text(),
{
    let mut names: Vec<String> = Vec::new();
    names.push(String::from_str("opt_level"));
    names.push(String::from_str("wasm_opt"));
    names.push(String::from_str("lto"));
    names.push(String::from_str("codegen_units"));
    names.push(String::from_str("strip"));
    names.push(String::from_str("panic"));
    names.push(String::from_str("build_time"));
    names.push(String::from_str("wasm_opt_time"));
    names.push(String::from_str("size"));
    names.push(String::from_str("size_gzipped"));
    names.push(String::from_str("frame_time"));
    assert(names.deep_view() =~= columns());
    proof {
        reveal_strlit(",");
    }
    assert(","@ =~= seq![',']);
    join(&names, ",")
}

impl MeasurementRow {
    /// The fields of the row, column by column.
    pub open spec fn fields(&self) -> Seq<Seq<char>> {
        seq![
            self.point.opt_level.label_text(),
            self.profile.label_text(),
            self.point.lto.label_text(),
            self.point.codegen_units.label_text(),
            self.point.strip.label_text(),
            self.point.panic.label_text(),
            seconds(self.build_nanos as nat),
            seconds(self.optimize_nanos as nat),
            decimal(self.size as nat),
            decimal(self.size_gzipped as nat),
            self.frame_time@,
        ]
    }

    /// The row as it stands in the report.
    pub open spec fn text(&self) -> Seq<char> {
        joined(self.fields(), seq![','])
    }

    /// Renders the row, without a line break.
    pub fn render(&self) -> (text: String)
        ensures
            text@ == self.text(),
    {
        let mut fields: Vec<String> = Vec::new();
        fields.push(self.point.opt_level.label());
        fields.push(self.profile.label());
        fields.push(self.point.lto.label());
        fields.push(self.point.codegen_units.label());
        fields.push(self.point.strip.label());
        fields.push(self.point.panic.label());
        fields.push(seconds_text(self.build_nanos));
        fields.push(seconds_text(self.optimize_nanos));
        fields.push(decimal_text(self.size as u128));
        fields.push(decimal_text(self.size_gzipped as u128));
        fields.push(self.frame_time.clone());
        assert(fields.deep_view() =~= self.fields());
        proof {
            reveal_strlit(",");
        }
        assert(","@ =~= seq![',']);
        join(&fields, ",")
    }
}

/// The header holds the eleven column names and nothing else: cut at its
/// commas it gives back the names, in order.
pub proof fn lemma_header_columns()
    ensures
        columns().len() == 11,
        split(header_text(), ',') == columns(),
{
    reveal_strlit("opt_level");
    reveal_strlit("wasm_opt");
    reveal_strlit("lto");
    reveal_strlit("codegen_units");
    reveal_strlit("strip");
    reveal_strlit("panic");
    reveal_strlit("build_time");
    reveal_strlit("wasm_opt_time");
    reveal_strlit("size");
    reveal_strlit("size_gzipped");
    reveal_strlit("frame_time");
    assert(free_of(columns()[0], ','));
    assert(free_of(columns()[1], ','));
    assert(free_of(columns()[2], ','));
    assert(free_of(columns()[3], ','));
    assert(free_of(columns()[4], ','));
    assert(free_of(columns()[5], ','));
    assert(free_of(columns()[6], ','));
    assert(free_of(columns()[7], ','));
    assert(free_of(columns()[8], ','));
    assert(free_of(columns()[9], ','));
    assert(free_of(columns()[10], ','));
    lemma_split_joined(columns(), ',');
}

/// No label of any variant holds a comma or a line break.
pub proof fn lemma_labels_are_fields(point: ConfigPoint, profile: WasmOpt)
    ensures
        is_field(point.opt_level.label_text()),
        is_field(profile.label_text()),
        is_field(point.lto.label_text()),
        is_field(point.codegen_units.label_text()),
        is_field(point.strip.label_text()),
        is_field(point.panic.label_text()),
{
    reveal_strlit("S");
    reveal_strlit("Z");
    reveal_strlit("Three");
    reveal_strlit("Off");
    reveal_strlit("Thin");
    reveal_strlit("Fat");
    reveal_strlit("One");
    reveal_strlit("Default");
    reveal_strlit("None");
    reveal_strlit("DebugInfo");
    reveal_strlit("Both");
    reveal_strlit("Unwind");
    reveal_strlit("Abort");
}

/// A row whose frame time fits a column has exactly the columns of the
/// header, in the header's order, and is a single line: cut at its commas,
/// the row gives back its eleven fields, and it holds no line break.
pub proof fn lemma_row_columns(row: MeasurementRow)
    requires
        is_field(row.frame_time@),
    ensures
        row.fields().len() == columns().len(),
        split(row.text(), ',') == row.fields(),
        free_of(row.text(), '\n'),
{
    lemma_labels_are_fields(row.point, row.profile);
    lemma_seconds_free_of(row.build_nanos as nat, ',');
    lemma_seconds_free_of(row.optimize_nanos as nat, ',');
    lemma_decimal_free_of(row.size as nat, ',');
    lemma_decimal_free_of(row.size_gzipped as nat, ',');
    lemma_seconds_free_of(row.build_nanos as nat, '\n');
    lemma_seconds_free_of(row.optimize_nanos as nat, '\n');
    lemma_decimal_free_of(row.size as nat, '\n');
    lemma_decimal_free_of(row.size_gzipped as nat, '\n');
    let fields = row.fields();
    assert forall|i: int| 0 <= i < fields.len() implies is_field(#[trigger] fields[i]) by {
        if i == 0 {
        } else if i == 1 {
        } else if i == 2 {
        } else if i == 3 {
        } else if i == 4 {
        } else if i == 5 {
        } else if i == 6 {
        } else if i == 7 {
        } else if i == 8 {
        } else if i == 9 {
        } else {
        }
    }
    lemma_split_joined(fields, ',');
    lemma_joined_free_of(fields, seq![','], '\n');
}

} // verus!
