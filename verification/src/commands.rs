//! The command lines of the external tools.
//!
//! Each function gives the arguments of one invocation. The programs are
//! named by the constants; the optimizer's program differs between platforms
//! and is chosen by the caller.

use vstd::prelude::*;
use vstd::string::*;
use crate::options::WasmOpt;

verus! {

/// The compiler driver, used for cleaning and for building.
pub const COMPILER: &'static str = "cargo";

/// The generator of the loader glue.
pub const BINDGEN: &'static str = "wasm-bindgen";

/// The static file server.
pub const SERVER: &'static str = "basic-http-server";

/// The runtime of the browser driver.
pub const DRIVER: &'static str = "node";

/// The artifact that is optimized in place, compressed and served.
pub const ARTIFACT: &'static str = "web/bevy_wasm_bench_bg.wasm";

/// Where the compressed copy of the artifact goes.
pub const COMPRESSED_ARTIFACT: &'static str = "web/bevy_wasm_bench_bg.wasm.gz";

/// Path of the report.
pub const REPORT: &'static str = "out.csv";

/// Arguments of the clean step, which removes the whole build cache.
pub open spec fn clean_arguments() -> Seq<Seq<char>> {
    seq!["clean"@]
}

/// Arguments of the build step.
pub open spec fn build_arguments() -> Seq<Seq<char>> {
    seq![
        "build"@,
        "-p"@,
        "bench"@,
        "--target=wasm32-unknown-unknown"@,
        "--profile"@,
        "bevy_wasm_bench"@,
    ]
}

/// Arguments of the glue generator.
pub open spec fn bindgen_arguments() -> Seq<Seq<char>> {
    seq![
        "--out-name"@,
        "bevy_wasm_bench"@,
        "--out-dir"@,
        "web"@,
        "--target"@,
        "web"@,
        "target/wasm32-unknown-unknown/bevy_wasm_bench/bench.wasm"@,
    ]
}

/// Arguments of the optimizer for an enabled profile: the profile's own,
/// then the artifact as input and, after `-o`, the same artifact as output.
pub open spec fn optimize_arguments(profile: WasmOpt, artifact: Seq<char>) -> Seq<Seq<char>> {
    profile.arguments() + seq![artifact, "-o"@, artifact]
}

/// Arguments of the file server: the served directory and the address.
pub open spec fn server_arguments() -> Seq<Seq<char>> {
    seq!["web"@, "-a"@, "127.0.0.1:1334"@]
}

/// Arguments of the browser driver.
pub open spec fn driver_arguments() -> Seq<Seq<char>> {
    seq!["index.js"@]
}

/// The executables that must be present before a sweep, `optimizer` being
/// the optimizer's program on this platform.
pub open spec fn required(optimizer: Seq<char>) -> Seq<Seq<char>> {
    seq!["cargo"@, optimizer, "basic-http-server"@, "wasm-bindgen"@, "node"@]
}

/// Returns the arguments of the clean step.
pub fn clean_args() -> (list: Vec<String>)
    ensures
        list.deep_view() == clean_arguments(),
{
    let mut list: Vec<String> = Vec::new();
    list.push(String::from_str("clean"));
    assert(list.deep_view() =~= clean_arguments());
    list
}

/// Returns the arguments of the build step.
pub fn build_args() -> (list: Vec<String>)
    ensures
        list.deep_view() == build_arguments(),
{
    let mut list: Vec<String> = Vec::new();
    list.push(String::from_str("build"));
    list.push(String::from_str("-p"));
    list.push(String::from_str("bench"));
    list.push(String::from_str("--target=wasm32-unknown-unknown"));
    list.push(String::from_str("--profile"));
    list.push(String::from_str("bevy_wasm_bench"));
    assert(list.deep_view() =~= build_arguments());
    list
}

/// Returns the arguments of the glue generator.
pub fn bindgen_args() -> (list: Vec<String>)
    ensures
        list.deep_view() == bindgen_arguments(),
{
    let mut list: Vec<String> = Vec::new();
    list.push(String::from_str("--out-name"));
    list.push(String::from_str("bevy_wasm_bench"));
    list.push(String::from_str("--out-dir"));
    list.push(String::from_str("web"));
    list.push(String::from_str("--target"));
    list.push(String::from_str("web"));
    list.push(String::from_str("target/wasm32-unknown-unknown/bevy_wasm_bench/bench.wasm"));
    assert(list.deep_view() =~= bindgen_arguments());
    list
}

/// Returns the optimizer's arguments for running `profile` on `artifact` in
/// place, or `None` for the disabled profile, which runs nothing.
pub fn optimize_args(profile: WasmOpt, artifact: &str) -> (found: Option<Vec<String>>)
    ensures
        match found {
            Some(list) => profile.is_enabled() && list.deep_view() == optimize_arguments(
                profile,
                artifact@,
            ),
            None => !profile.is_enabled(),
        },
{
    if !profile.enabled() {
        return None;
    }
    let mut list = profile.args();
    let ghost own = list.deep_view();
    list.push(String::from_str(artifact));
    list.push(String::from_str("-o"));
    list.push(String::from_str(artifact));
    assert(list.deep_view() =~= own + seq![artifact@, "-o"@, artifact@]);
    Some(list)
}

/// Returns the arguments of the file server.
pub fn server_args() -> (list: Vec<String>)
    ensures
        list.deep_view() == server_arguments(),
{
    let mut list: Vec<String> = Vec::new();
    list.push(String::from_str("web"));
    list.push(String::from_str("-a"));
    list.push(String::from_str("127.0.0.1:1334"));
    assert(list.deep_view() =~= server_arguments());
    list
}

/// Returns the arguments of the browser driver.
pub fn driver_args() -> (list: Vec<String>)
    ensures
        list.deep_view() == driver_arguments(),
{
    let mut list: Vec<String> = Vec::new();
    list.push(String::from_str("index.js"));
    assert(list.deep_view() =~= driver_arguments());
    list
}

/// Lists the executables to probe before a sweep.
pub fn required_programs(optimizer: &str) -> (list: Vec<String>)
    ensures
        list.deep_view() == required(optimizer@),
{
    let mut list: Vec<String> = Vec::new();
    list.push(String::from_str("cargo"));
    list.push(String::from_str(optimizer));
    list.push(String::from_str("basic-http-server"));
    list.push(String::from_str("wasm-bindgen"));
    list.push(String::from_str("node"));
    assert(list.deep_view() =~= required(optimizer@));
    list
}

} // verus!
