//! The compile invoker's decisions: whether a path gets compiled, the exact
//! command line to run, and the console report for the outcome.
//!
//! The subprocess itself runs outside this crate; callers hand in whether the
//! path exists as a regular file, and hand back the captured standard error
//! (or nothing, when the compiler failed to launch).
use vstd::prelude::*;

use crate::compiler::CompilerChoice;
use crate::compiler::spec_executable_name;
use crate::compiler::executable_name;
use crate::paths::extension_of;
use crate::paths::stem_of;
use crate::paths::split_path;

verus! {

/// The extensions recognized as C/C++ sources.
pub open spec fn recognized_ext(e: Seq<char>) -> bool {
    e == "cpp"@ || e == "cc"@ || e == "c"@
}

/// Whether a compile happens for this path: it must exist as a regular file
/// and its extension must be recognized. Anything else is silently filtered
/// out, not an error.
pub open spec fn compile_eligible(p: Seq<char>, is_file: bool) -> bool {
    is_file && match extension_of(p) {
        Some(e) => recognized_ext(e),
        None => false,
    }
}

/// The fixed flag list of a compiler: optimization, warnings, the language
/// standard, and the colored-diagnostics flag of that compiler family.
pub open spec fn spec_flags(c: CompilerChoice) -> Seq<Seq<char>> {
    match c {
        CompilerChoice::Gpp => seq!["-fdiagnostics-color=always"@, "-O2"@, "-Wall"@, "-std=c++17"@],
        CompilerChoice::Clang => seq!["-fcolor-diagnostics"@, "-O2"@, "-Wall"@, "-std=c++17"@],
    }
}

pub fn compiler_flags(c: CompilerChoice) -> (r: Vec<String>)
    ensures
        r.deep_view() == spec_flags(c),
{
    let mut r: Vec<String> = Vec::new();
    match c {
        CompilerChoice::Gpp => {
            r.push("-fdiagnostics-color=always".to_owned());
        },
        CompilerChoice::Clang => {
            r.push("-fcolor-diagnostics".to_owned());
        },
    }
    r.push("-O2".to_owned());
    r.push("-Wall".to_owned());
    r.push("-std=c++17".to_owned());
    proof {
        assert(r.deep_view() =~= spec_flags(c));
    }
    r
}

/// One planned compiler invocation: the program to run and its arguments, in
/// order.
pub struct CompileCommand {
    pub program: String,
    pub args: Vec<String>,
}

/// The argument list of a planned compile: the compiler's fixed flags, the
/// source path, and `-o` with the output name got by stripping the path's
/// extension.
pub open spec fn spec_compile_args(p: Seq<char>, c: CompilerChoice) -> Seq<Seq<char>> {
    spec_flags(c) + seq![p, "-o"@, stem_of(p)]
}

/// Equality of two strings, compared character by character.
fn str_eq(a: &str, b: &str) -> (r: bool)
    ensures
        r == (a@ == b@),
{
    let alen = a.unicode_len();
    let blen = b.unicode_len();
    if alen != blen {
        return false;
    }
    let mut k: usize = 0;
    while k < alen
        invariant
            k <= alen,
            alen == a@.len(),
            alen == b@.len(),
            forall|j: int| 0 <= j < k ==> a@[j] == b@[j],
        decreases alen - k,
    {
        if a.get_char(k) != b.get_char(k) {
            return false;
        }
        k = k + 1;
    }
    proof {
        assert(a@ =~= b@);
    }
    true
}

/// Decide whether `path` gets compiled and, when it does, build the command
/// line. `is_file` says whether the path currently exists as a regular file;
/// the caller queries the filesystem for it. `None` means no subprocess is
/// to be launched and nothing printed.
pub fn plan_compile(path: &str, is_file: bool, compiler: CompilerChoice) -> (r: Option<
    CompileCommand,
>)
    ensures
        r is Some <==> compile_eligible(path@, is_file),
        match r {
            Some(cmd) => cmd.program@ == spec_executable_name(compiler) && cmd.args.deep_view()
                == spec_compile_args(path@, compiler),
            None => true,
        },
{
    if !is_file {
        return None;
    }
    let (stem, ext) = split_path(path);
    let ext = match ext {
        Some(e) => e,
        None => {
            return None;
        },
    };
    if !(str_eq(ext.as_str(), "cpp") || str_eq(ext.as_str(), "cc") || str_eq(ext.as_str(), "c")) {
        return None;
    }
    let mut args = compiler_flags(compiler);
    args.push(path.to_owned());
    args.push("-o".to_owned());
    args.push(stem);
    proof {
        assert(args.deep_view() =~= spec_compile_args(path@, compiler));
    }
    Some(CompileCommand { program: executable_name(compiler).to_owned(), args })
}

/// The console report for one compile attempt on `p`. `launch` is `None`
/// when the compiler process could not be started; otherwise it is the
/// captured standard error text, empty on a diagnostic-free run.
pub open spec fn spec_report(p: Seq<char>, launch: Option<Seq<char>>) -> Seq<char> {
    match launch {
        None => "failed to run the compiler"@,
        Some(e) => if e.len() == 0 {
            p + " was compiled successfully"@
        } else {
            e
        },
    }
}

/// Report the outcome of one compile attempt: a fixed notice when the
/// compiler failed to launch, a success notice naming the source when it ran
/// without error output, and the diagnostic text verbatim otherwise.
pub fn report_outcome(path: &str, launch: Option<&str>) -> (r: String)
    ensures
        r@ == spec_report(path@, launch.deep_view()),
{
    match launch {
        None => "failed to run the compiler".to_owned(),
        Some(e) => {
            if e.unicode_len() == 0 {
                path.to_owned().concat(" was compiled successfully")
            } else {
                e.to_owned()
            }
        },
    }
}

} // verus!
