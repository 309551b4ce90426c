use vstd::prelude::*;

verus! {

/// The arguments with which the build tool is asked to run the project:
/// always with colour, and as a release build if `release` is set.
pub fn run_arguments(release: bool) -> (args: Vec<&'static str>)
    ensures
        args@.len() == if release {
            3nat
        } else {
            2nat
        },
        args@[0]@ == "run"@,
        args@[1]@ == "--color=always"@,
        release ==> args@[2]@ == "--release"@,
{
    let mut args: Vec<&'static str> = Vec::new();
    args.push("run");
    args.push("--color=always");
    if release {
        args.push("--release");
    }
    args
}

} // verus!
