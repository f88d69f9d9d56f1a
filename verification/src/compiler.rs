//! The compiler chosen at startup: its executable name, its fixed flag list,
//! and the discovery rule that picks it.
use vstd::prelude::*;

verus! {

/// The compiler selected once at startup; every compile invocation of the
/// process uses this choice and its fixed flag list.
#[derive(Clone, Copy, Debug, PartialEq, Eq, Structural)]
pub enum CompilerChoice {
    Gpp,
    Clang,
}

/// The executable name of a compiler choice.
pub open spec fn spec_executable_name(c: CompilerChoice) -> Seq<char> {
    match c {
        CompilerChoice::Gpp => "g++"@,
        CompilerChoice::Clang => "clang++"@,
    }
}

pub fn executable_name(c: CompilerChoice) -> (r: &'static str)
    ensures
        r@ == spec_executable_name(c),
{
    match c {
        CompilerChoice::Gpp => "g++",
        CompilerChoice::Clang => "clang++",
    }
}

/// Pick a compiler from the probe results, preferring the GNU-style compiler.
/// Discovery runs once at startup; `None` means the process must report the
/// lack and exit before watching.
pub fn choose_compiler(gpp_found: bool, clang_found: bool) -> (r: Option<CompilerChoice>)
    ensures
        gpp_found ==> r == Some(CompilerChoice::Gpp),
        !gpp_found && clang_found ==> r == Some(CompilerChoice::Clang),
        !gpp_found && !clang_found ==> r is None,
        r is Some <==> (gpp_found || clang_found),
{
    if gpp_found {
        Some(CompilerChoice::Gpp)
    } else if clang_found {
        Some(CompilerChoice::Clang)
    } else {
        None
    }
}

} // verus!
