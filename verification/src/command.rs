//! The fixed target identity and the exact command line of every step.
//!
//! The tool is pinned at build time to one upstream repository and one version
//! tag, and every external invocation it makes is a fixed argument list over
//! three fixed paths: the working clone, the fixture destination and the hash
//! marker file. Nothing here depends on anything but the step itself, so a
//! run's commands are deterministic.

use crate::action::Action;
use vstd::prelude::*;

verus! {

/// The upstream repository the tool is pinned to.
pub open spec fn repo_url_spec() -> Seq<char> {
    "https://github.com/microsoft/TypeScript"@
}

/// The upstream repository the tool is pinned to.
pub fn repo_url() -> (r: &'static str)
    ensures
        r@ == repo_url_spec(),
{
    "https://github.com/microsoft/TypeScript"
}

/// The version tag the tool is pinned to.
pub open spec fn target_version_spec() -> Seq<char> {
    "v4.7.4"@
}

/// The version tag the tool is pinned to.
pub fn target_version() -> (r: &'static str)
    ensures
        r@ == target_version_spec(),
{
    "v4.7.4"
}

/// The path of the hash marker file.
pub open spec fn hash_file_spec() -> Seq<char> {
    "./CURRENT_HASH"@
}

/// The path of the hash marker file, which the plan's write step targets.
pub fn hash_file_path() -> (r: &'static str)
    ensures
        r@ == hash_file_spec(),
{
    "./CURRENT_HASH"
}

/// The path of the working clone.
pub open spec fn working_clone_spec() -> Seq<char> {
    "./temp/typescript"@
}

/// Whether a step is an external command (every step but the marker-file
/// write).
pub open spec fn is_command(a: Action) -> bool {
    !(a is WriteHashFile)
}

/// The program a command step invokes.
pub open spec fn program_spec(a: Action) -> Seq<char> {
    match a {
        Action::RemoveArtifacts => "rm"@,
        Action::CloneRepo => "git"@,
        Action::FetchAll => "git"@,
        Action::CheckoutTag => "git"@,
        Action::QueryHead => "git"@,
        Action::WriteHashFile => Seq::empty(),
        Action::CopyFixtures => "cp"@,
    }
}

/// The program a command step invokes: the delete and copy utilities, or the
/// version-control binary.
pub fn program_of(a: Action) -> (r: &'static str)
    requires
        is_command(a),
    ensures
        r@ == program_spec(a),
{
    match a {
        Action::RemoveArtifacts => "rm",
        Action::CloneRepo => "git",
        Action::FetchAll => "git",
        Action::CheckoutTag => "git",
        Action::QueryHead => "git",
        Action::WriteHashFile => "",
        Action::CopyFixtures => "cp",
    }
}

/// The exact argument list of a command step.
pub open spec fn args_ok<'a>(a: Action, v: Seq<&'a str>) -> bool {
    match a {
        Action::RemoveArtifacts => v.len() == 4 && v[0]@ == "-rvf"@ && v[1]@ == "temp"@ && v[2]@
            == "conformance"@ && v[3]@ == hash_file_spec(),
        Action::CloneRepo => v.len() == 3 && v[0]@ == "clone"@ && v[1]@ == repo_url_spec() && v[2]@
            == "temp/typescript"@,
        Action::FetchAll => v.len() == 4 && v[0]@ == "fetch"@ && v[1]@ == "--all"@ && v[2]@
            == "--tags"@ && v[3]@ == "--prune"@,
        Action::CheckoutTag => v.len() == 4 && v[0]@ == "checkout"@ && v[1]@ == "tags/v4.7.4"@
            && v[2]@ == "-b"@ && v[3]@ == "__workstation__"@,
        Action::QueryHead => v.len() == 2 && v[0]@ == "rev-parse"@ && v[1]@ == "HEAD"@,
        Action::WriteHashFile => v.len() == 0,
        Action::CopyFixtures => v.len() == 3 && v[0]@ == "-rv"@ && v[1]@
            == "./temp/typescript/tests/cases/conformance"@ && v[2]@ == "conformance"@,
    }
}

/// The argument list handed to a command step's program.
pub fn args_of(a: Action) -> (r: Vec<&'static str>)
    requires
        is_command(a),
    ensures
        args_ok(a, r@),
{
    let mut r: Vec<&'static str> = Vec::new();
    match a {
        Action::RemoveArtifacts => {
            r.push("-rvf");
            r.push("temp");
            r.push("conformance");
            r.push("./CURRENT_HASH");
        },
        Action::CloneRepo => {
            r.push("clone");
            r.push("https://github.com/microsoft/TypeScript");
            r.push("temp/typescript");
        },
        Action::FetchAll => {
            r.push("fetch");
            r.push("--all");
            r.push("--tags");
            r.push("--prune");
        },
        Action::CheckoutTag => {
            r.push("checkout");
            r.push("tags/v4.7.4");
            r.push("-b");
            r.push("__workstation__");
        },
        Action::QueryHead => {
            r.push("rev-parse");
            r.push("HEAD");
        },
        Action::WriteHashFile => {},
        Action::CopyFixtures => {
            r.push("-rv");
            r.push("./temp/typescript/tests/cases/conformance");
            r.push("conformance");
        },
    }
    r
}

/// Whether a command step runs inside the working clone rather than in the
/// tool's own working directory.
pub open spec fn runs_in_clone(a: Action) -> bool {
    a is FetchAll || a is CheckoutTag || a is QueryHead
}

/// The working directory of a command step: the working clone for the fetch,
/// checkout and revision-query steps, the tool's own directory otherwise.
pub fn cwd_of(a: Action) -> (r: Option<&'static str>)
    ensures
        match r {
            Some(d) => runs_in_clone(a) && d@ == working_clone_spec(),
            None => !runs_in_clone(a),
        },
{
    match a {
        Action::FetchAll => Some("./temp/typescript"),
        Action::CheckoutTag => Some("./temp/typescript"),
        Action::QueryHead => Some("./temp/typescript"),
        _ => None,
    }
}

} // verus!
