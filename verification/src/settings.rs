//! The toolchain settings file of a configuration point.
//!
//! The file is written anew for every point. It opens the build profile with
//! two fixed lines and then holds one line per dimension, in the order of the
//! dimensions. Where a variant leaves the toolchain's default in force its
//! line is empty.

use vstd::prelude::*;
use vstd::string::*;
use crate::space::ConfigPoint;
use crate::text::{
    free_of, join, joined, lemma_split_concat, lemma_split_joined, lemma_split_single, split,
};

verus! {

/// Path of the settings file, relative to the workspace.
pub const SETTINGS_PATH: &'static str = ".cargo/config.toml";

/// The first line of every settings file: it names the build profile.
pub open spec fn profile_line() -> Seq<char> {
    "[profile.bevy_wasm_bench]"@
}

/// The second line of every settings file.
pub open spec fn inherits_line() -> Seq<char> {
    "inherits = \"release\""@
}

impl ConfigPoint {
    /// The settings fragments of the point, one per dimension.
    pub open spec fn fragments(self) -> Seq<Seq<char>> {
        seq![
            self.opt_level.fragment(),
            self.lto.fragment(),
            self.codegen_units.fragment(),
            self.strip.fragment(),
            self.panic.fragment(),
        ]
    }

    /// The whole content of the settings file for this point.
    pub open spec fn settings_text(self) -> Seq<char> {
        profile_line() + seq!['\n'] + inherits_line() + seq!['\n'] + joined(
            self.fragments(),
            seq!['\n'],
        )
    }

    /// Renders the settings file for this point.
    pub fn settings(&self) -> (text: String)
        ensures
            text@ == self.settings_text(),
    {
        let mut fragments: Vec<String> = Vec::new();
        fragments.push(self.opt_level.option());
        fragments.push(self.lto.option());
        fragments.push(self.codegen_units.option());
        fragments.push(self.strip.option());
        fragments.push(self.panic.option());
        assert(fragments.deep_view() =~= self.fragments());
        proof {
            reveal_strlit("\n");
        }
        assert("\n"@ =~= seq!['\n']);
        let body = join(&fragments, "\n");
        let mut text = String::from_str("[profile.bevy_wasm_bench]");
        text.append("\n");
        text.append("inherits = \"release\"");
        text.append("\n");
        text.append(body.as_str());
        text
    }
}

/// No settings fragment of any variant holds a line break.
pub proof fn lemma_fragments_are_lines(point: ConfigPoint)
    ensures
        forall|i: int|
            0 <= i < point.fragments().len() ==> free_of(#[trigger] point.fragments()[i], '\n'),
        free_of(profile_line(), '\n'),
        free_of(inherits_line(), '\n'),
{
    reveal_strlit("[profile.bevy_wasm_bench]");
    reveal_strlit("inherits = \"release\"");
    reveal_strlit("opt-level = \"s\"");
    reveal_strlit("opt-level = \"z\"");
    reveal_strlit("opt-level = \"3\"");
    reveal_strlit("lto = \"off\"");
    reveal_strlit("lto = \"thin\"");
    reveal_strlit("lto = \"fat\"");
    reveal_strlit("codegen-units = 1");
    reveal_strlit("strip = \"debuginfo\"");
    reveal_strlit("panic = \"unwind\"");
    reveal_strlit("panic = \"abort\"");
    reveal_strlit("");
    assert(free_of(point.opt_level.fragment(), '\n'));
    assert(free_of(point.lto.fragment(), '\n'));
    assert(free_of(point.codegen_units.fragment(), '\n'));
    assert(free_of(point.strip.fragment(), '\n'));
    assert(free_of(point.panic.fragment(), '\n'));
}

/// The settings file of a point has seven lines: the two that open the
/// profile, then exactly one per dimension, in the order of the dimensions,
/// each holding that dimension's fragment. A variant with an empty fragment
/// leaves an empty line and changes no other.
pub proof fn lemma_settings_lines(point: ConfigPoint)
    ensures
        split(point.settings_text(), '\n') == seq![
            profile_line(),
            inherits_line(),
            point.opt_level.fragment(),
            point.lto.fragment(),
            point.codegen_units.fragment(),
            point.strip.fragment(),
            point.panic.fragment(),
        ],
{
    lemma_fragments_are_lines(point);
    let nl = seq!['\n'];
    let body = joined(point.fragments(), nl);
    lemma_split_joined(point.fragments(), '\n');
    lemma_split_single(profile_line(), '\n');
    lemma_split_single(inherits_line(), '\n');
    lemma_split_concat(inherits_line(), body, '\n');
    lemma_split_concat(profile_line(), inherits_line() + nl + body, '\n');
    assert(point.settings_text() =~= profile_line() + nl + (inherits_line() + nl + body));
    assert(seq![profile_line()] + (seq![inherits_line()] + point.fragments()) =~= seq![
        profile_line(),
        inherits_line(),
        point.opt_level.fragment(),
        point.lto.fragment(),
        point.codegen_units.fragment(),
        point.strip.fragment(),
        point.panic.fragment(),
    ]);
}

} // verus!
