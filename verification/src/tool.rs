//! The measurement tool, as far as the controller knows it: how it is
//! started and where it leaves its result. The tool is run in its own
//! directory, with its output passed through to the operator; it takes no
//! input, and its exit status means nothing to the controller.

use crate::text::text_views;
use vstd::prelude::*;

verus! {

/// The program, relative to the tool's directory.
pub open spec fn program_path() -> Seq<char> {
    "./CloudflareST"@
}

/// The fixed arguments: how many candidates are measured for their download
/// speed, and the latency in milliseconds above which a candidate is left
/// out.
pub open spec fn fixed_arguments() -> Seq<Seq<char>> {
    seq!["-dn"@, "20"@, "-tl"@, "250"@]
}

/// The file, in the tool's directory, that holds the result of a run.
pub open spec fn result_file_name() -> Seq<char> {
    "result.csv"@
}

/// The program to start.
pub fn program() -> (path: &'static str)
    ensures
        path@ == program_path(),
{
    "./CloudflareST"
}

/// The arguments to start it with.
pub fn arguments() -> (list: Vec<String>)
    ensures
        text_views(list@) == fixed_arguments(),
{
    let mut list: Vec<String> = Vec::new();
    list.push("-dn".to_owned());
    list.push("20".to_owned());
    list.push("-tl".to_owned());
    list.push("250".to_owned());
    assert(text_views(list@) =~= fixed_arguments());
    list
}

/// The name of the result file.
pub fn result_file() -> (name: &'static str)
    ensures
        name@ == result_file_name(),
{
    "result.csv"
}

} // verus!
