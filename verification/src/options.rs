//! The dimensions of the configuration space and their variants.
//!
//! Every dimension is a closed enum. A variant has a label, under which it is
//! reported, and (for the dimensions the compiler reads) a fragment of the
//! toolchain settings file. An empty fragment leaves the toolchain's default
//! in force. `variants` lists a dimension in its declared order, which is the
//! order of every sweep.

use vstd::prelude::*;
use vstd::string::*;

verus! {

/// Optimisation level handed to the compiler.
#[derive(Clone, Copy, Debug, PartialEq, Eq, Structural)]
pub enum OptLevel {
    S,
    Z,
    Three,
}

impl OptLevel {
    /// The variants of this dimension, in declared order.
    pub open spec fn all() -> Seq<OptLevel> {
        seq![OptLevel::S, OptLevel::Z, OptLevel::Three]
    }

    /// The label under which this variant is reported.
    pub open spec fn label_text(self) -> Seq<char> {
        match self {
            OptLevel::S => "S"@,
            OptLevel::Z => "Z"@,
            OptLevel::Three => "Three"@,
        }
    }

    /// Lists the variants of this dimension in declared order.
    pub fn variants() -> (list: Vec<OptLevel>)
        ensures
            list@ == Self::all(),
    {
        let mut list: Vec<OptLevel> = Vec::new();
        list.push(OptLevel::S);
        list.push(OptLevel::Z);
        list.push(OptLevel::Three);
        assert(list@ =~= Self::all());
        list
    }

    /// Returns the label under which this variant is reported.
    pub fn label(&self) -> (text: String)
        ensures
            text@ == self.label_text(),
    {
        match self {
            OptLevel::S => String::from_str("S"),
            OptLevel::Z => String::from_str("Z"),
            OptLevel::Three => String::from_str("Three"),
        }
    }

    /// The settings fragment of this variant; empty where the toolchain default applies.
    pub open spec fn fragment(self) -> Seq<char> {
        match self {
            OptLevel::S => "opt-level = \"s\""@,
            OptLevel::Z => "opt-level = \"z\""@,
            OptLevel::Three => "opt-level = \"3\""@,
        }
    }

    /// Renders this variant as a line of the toolchain settings file.
    pub fn option(&self) -> (text: String)
        ensures
            text@ == self.fragment(),
    {
        match self {
            OptLevel::S => String::from_str("opt-level = \"s\""),
            OptLevel::Z => String::from_str("opt-level = \"z\""),
            OptLevel::Three => String::from_str("opt-level = \"3\""),
        }
    }
}

/// Link-time optimisation mode.
#[derive(Clone, Copy, Debug, PartialEq, Eq, Structural)]
pub enum Lto {
    Off,
    Thin,
    Fat,
}

impl Lto {
    /// The variants of this dimension, in declared order.
    pub open spec fn all() -> Seq<Lto> {
        seq![Lto::Off, Lto::Thin, Lto::Fat]
    }

    /// The label under which this variant is reported.
    pub open spec fn label_text(self) -> Seq<char> {
        match self {
            Lto::Off => "Off"@,
            Lto::Thin => "Thin"@,
            Lto::Fat => "Fat"@,
        }
    }

    /// Lists the variants of this dimension in declared order.
    pub fn variants() -> (list: Vec<Lto>)
        ensures
            list@ == Self::all(),
    {
        let mut list: Vec<Lto> = Vec::new();
        list.push(Lto::Off);
        list.push(Lto::Thin);
        list.push(Lto::Fat);
        assert(list@ =~= Self::all());
        list
    }

    /// Returns the label under which this variant is reported.
    pub fn label(&self) -> (text: String)
        ensures
            text@ == self.label_text(),
    {
        match self {
            Lto::Off => String::from_str("Off"),
            Lto::Thin => String::from_str("Thin"),
            Lto::Fat => String::from_str("Fat"),
        }
    }

    /// The settings fragment of this variant; empty where the toolchain default applies.
    pub open spec fn fragment(self) -> Seq<char> {
        match self {
            Lto::Off => "lto = \"off\""@,
            Lto::Thin => "lto = \"thin\""@,
            Lto::Fat => "lto = \"fat\""@,
        }
    }

    /// Renders this variant as a line of the toolchain settings file.
    pub fn option(&self) -> (text: String)
        ensures
            text@ == self.fragment(),
    {
        match self {
            Lto::Off => String::from_str("lto = \"off\""),
            Lto::Thin => String::from_str("lto = \"thin\""),
            Lto::Fat => String::from_str("lto = \"fat\""),
        }
    }
}

/// Number of code generation units.
#[derive(Clone, Copy, Debug, PartialEq, Eq, Structural)]
pub enum CodegenUnits {
    One,
    Default,
}

impl CodegenUnits {
    /// The variants of this dimension, in declared order.
    pub open spec fn all() -> Seq<CodegenUnits> {
        seq![CodegenUnits::One, CodegenUnits::Default]
    }

    /// The label under which this variant is reported.
    pub open spec fn label_text(self) -> Seq<char> {
        match self {
            CodegenUnits::One => "One"@,
            CodegenUnits::Default => "Default"@,
        }
    }

    /// Lists the variants of this dimension in declared order.
    pub fn variants() -> (list: Vec<CodegenUnits>)
        ensures
            list@ == Self::all(),
    {
        let mut list: Vec<CodegenUnits> = Vec::new();
        list.push(CodegenUnits::One);
        list.push(CodegenUnits::Default);
        assert(list@ =~= Self::all());
        list
    }

    /// Returns the label under which this variant is reported.
    pub fn label(&self) -> (text: String)
        ensures
            text@ == self.label_text(),
    {
        match self {
            CodegenUnits::One => String::from_str("One"),
            CodegenUnits::Default => String::from_str("Default"),
        }
    }

    /// The settings fragment of this variant; empty where the toolchain default applies.
    pub open spec fn fragment(self) -> Seq<char> {
        match self {
            CodegenUnits::One => "codegen-units = 1"@,
            CodegenUnits::Default => ""@,
        }
    }

    /// Renders this variant as a line of the toolchain settings file.
    pub fn option(&self) -> (text: String)
        ensures
            text@ == self.fragment(),
    {
        match self {
            CodegenUnits::One => String::from_str("codegen-units = 1"),
            CodegenUnits::Default => String::from_str(""),
        }
    }
}

/// Symbol stripping mode. `Keep` strips nothing and is reported as `None`.
#[derive(Clone, Copy, Debug, PartialEq, Eq, Structural)]
pub enum Strip {
    Keep,
    DebugInfo,
}

impl Strip {
    /// The variants of this dimension, in declared order.
    pub open spec fn all() -> Seq<Strip> {
        seq![Strip::Keep, Strip::DebugInfo]
    }

    /// The label under which this variant is reported.
    pub open spec fn label_text(self) -> Seq<char> {
        match self {
            Strip::Keep => "None"@,
            Strip::DebugInfo => "DebugInfo"@,
        }
    }

    /// Lists the variants of this dimension in declared order.
    pub fn variants() -> (list: Vec<Strip>)
        ensures
            list@ == Self::all(),
    {
        let mut list: Vec<Strip> = Vec::new();
        list.push(Strip::Keep);
        list.push(Strip::DebugInfo);
        assert(list@ =~= Self::all());
        list
    }

    /// Returns the label under which this variant is reported.
    pub fn label(&self) -> (text: String)
        ensures
            text@ == self.label_text(),
    {
        match self {
            Strip::Keep => String::from_str("None"),
            Strip::DebugInfo => String::from_str("DebugInfo"),
        }
    }

    /// The settings fragment of this variant; empty where the toolchain default applies.
    pub open spec fn fragment(self) -> Seq<char> {
        match self {
            Strip::Keep => ""@,
            Strip::DebugInfo => "strip = \"debuginfo\""@,
        }
    }

    /// Renders this variant as a line of the toolchain settings file.
    pub fn option(&self) -> (text: String)
        ensures
            text@ == self.fragment(),
    {
        match self {
            Strip::Keep => String::from_str(""),
            Strip::DebugInfo => String::from_str("strip = \"debuginfo\""),
        }
    }
}

/// Panic strategy.
#[derive(Clone, Copy, Debug, PartialEq, Eq, Structural)]
pub enum Panic {
    Unwind,
    Abort,
}

impl Panic {
    /// The variants of this dimension, in declared order.
    pub open spec fn all() -> Seq<Panic> {
        seq![Panic::Unwind, Panic::Abort]
    }

    /// The label under which this variant is reported.
    pub open spec fn label_text(self) -> Seq<char> {
        match self {
            Panic::Unwind => "Unwind"@,
            Panic::Abort => "Abort"@,
        }
    }

    /// Lists the variants of this dimension in declared order.
    pub fn variants() -> (list: Vec<Panic>)
        ensures
            list@ == Self::all(),
    {
        let mut list: Vec<Panic> = Vec::new();
        list.push(Panic::Unwind);
        list.push(Panic::Abort);
        assert(list@ =~= Self::all());
        list
    }

    /// Returns the label under which this variant is reported.
    pub fn label(&self) -> (text: String)
        ensures
            text@ == self.label_text(),
    {
        match self {
            Panic::Unwind => String::from_str("Unwind"),
            Panic::Abort => String::from_str("Abort"),
        }
    }

    /// The settings fragment of this variant; empty where the toolchain default applies.
    pub open spec fn fragment(self) -> Seq<char> {
        match self {
            Panic::Unwind => "panic = \"unwind\""@,
            Panic::Abort => "panic = \"abort\""@,
        }
    }

    /// Renders this variant as a line of the toolchain settings file.
    pub fn option(&self) -> (text: String)
        ensures
            text@ == self.fragment(),
    {
        match self {
            Panic::Unwind => String::from_str("panic = \"unwind\""),
            Panic::Abort => String::from_str("panic = \"abort\""),
        }
    }
}

/// Profile of the post-build optimizer. `Off` bypasses the optimizer and is
/// reported as `None`.
#[derive(Clone, Copy, Debug, PartialEq, Eq, Structural)]
pub enum WasmOpt {
    Off,
    S,
    Z,
    Three,
    Both,
}

impl WasmOpt {
    /// The variants of this dimension, in declared order.
    pub open spec fn all() -> Seq<WasmOpt> {
        seq![WasmOpt::Off, WasmOpt::S, WasmOpt::Z, WasmOpt::Three, WasmOpt::Both]
    }

    /// The label under which this variant is reported.
    pub open spec fn label_text(self) -> Seq<char> {
        match self {
            WasmOpt::Off => "None"@,
            WasmOpt::S => "S"@,
            WasmOpt::Z => "Z"@,
            WasmOpt::Three => "Three"@,
            WasmOpt::Both => "Both"@,
        }
    }

    /// Lists the variants of this dimension in declared order.
    pub fn variants() -> (list: Vec<WasmOpt>)
        ensures
            list@ == Self::all(),
    {
        let mut list: Vec<WasmOpt> = Vec::new();
        list.push(WasmOpt::Off);
        list.push(WasmOpt::S);
        list.push(WasmOpt::Z);
        list.push(WasmOpt::Three);
        list.push(WasmOpt::Both);
        assert(list@ =~= Self::all());
        list
    }

    /// Returns the label under which this variant is reported.
    pub fn label(&self) -> (text: String)
        ensures
            text@ == self.label_text(),
    {
        match self {
            WasmOpt::Off => String::from_str("None"),
            WasmOpt::S => String::from_str("S"),
            WasmOpt::Z => String::from_str("Z"),
            WasmOpt::Three => String::from_str("Three"),
            WasmOpt::Both => String::from_str("Both"),
        }
    }

    /// Whether this profile runs the optimizer at all.
    pub open spec fn is_enabled(self) -> bool {
        self != WasmOpt::Off
    }

    /// The optimizer's arguments for this profile, without the artifact's path.
    pub open spec fn arguments(self) -> Seq<Seq<char>> {
        match self {
            WasmOpt::Off => seq![],
            WasmOpt::S => seq!["-Os"@],
            WasmOpt::Z => seq!["-Oz"@],
            WasmOpt::Three => seq!["-O3"@],
            WasmOpt::Both => seq!["-O"@, "-s"@, "100"@, "-ol"@, "100"@],
        }
    }

    /// Tells whether this profile runs the optimizer.
    pub fn enabled(&self) -> (b: bool)
        ensures
            b == self.is_enabled(),
    {
        match self {
            WasmOpt::Off => false,
            _ => true,
        }
    }

    /// Returns the optimizer's arguments for this profile. A disabled profile
    /// has none.
    pub fn args(&self) -> (list: Vec<String>)
        ensures
            list.deep_view() == self.arguments(),
    {
        let mut list: Vec<String> = Vec::new();
        match self {
            WasmOpt::Off => {
            },
            WasmOpt::S => {
                list.push(String::from_str("-Os"));
            },
            WasmOpt::Z => {
                list.push(String::from_str("-Oz"));
            },
            WasmOpt::Three => {
                list.push(String::from_str("-O3"));
            },
            WasmOpt::Both => {
                list.push(String::from_str("-O"));
                list.push(String::from_str("-s"));
                list.push(String::from_str("100"));
                list.push(String::from_str("-ol"));
                list.push(String::from_str("100"));
            },
        }
        assert(list.deep_view() =~= self.arguments());
        list
    }
}

} // verus!
