//! The guarantees of the compile loop, stated once and proved, over the spec
//! functions that the executable functions' contracts use.
use vstd::prelude::*;

use crate::compiler::CompilerChoice;
use crate::events::ChangeEvent;
use crate::events::spec_compile_request;
use crate::invoke::compile_eligible;
use crate::invoke::recognized_ext;
use crate::invoke::spec_compile_args;
use crate::invoke::spec_flags;
use crate::invoke::spec_report;
use crate::paths::extension_of;
use crate::paths::file_name_of;
use crate::paths::lemma_output_strips_extension;
use crate::paths::stem_of;

verus! {

/// For an existing regular file whose extension is recognized, a compile is
/// planned: the command carries the source path, then `-o`, then an output
/// name got by stripping the extension from the file name; and an invocation
/// that captures no error text is reported as a success naming the file.
pub proof fn law_recognized_source_compiles(p: Seq<char>, c: CompilerChoice)
    requires
        extension_of(p) is Some,
        recognized_ext(extension_of(p)->Some_0),
    ensures
        compile_eligible(p, true),
        spec_compile_args(p, c) == spec_flags(c) + seq![p, "-o"@, stem_of(p)],
        file_name_of(p) == stem_of(p) + seq!['.'] + extension_of(p)->Some_0,
        spec_report(p, Some(Seq::<char>::empty())) == p + " was compiled successfully"@,
{
    lemma_output_strips_extension(p);
}

/// A path that is not a regular file, and a path whose extension is missing
/// or not recognized, is never eligible: no subprocess is launched and no
/// outcome is reported for it.
pub proof fn law_filtered_paths_are_no_ops(p: Seq<char>, is_file: bool)
    ensures
        !is_file ==> !compile_eligible(p, is_file),
        extension_of(p) is None ==> !compile_eligible(p, is_file),
        extension_of(p) matches Some(e) && !recognized_ext(e) ==> !compile_eligible(p, is_file),
{
}

/// The outcome report has exactly three shapes: the fixed notice when the
/// compiler failed to launch, the success notice naming the file when it ran
/// with empty captured error output, and the diagnostic text verbatim
/// otherwise — never a success notice alongside diagnostics.
pub proof fn law_report_cases(p: Seq<char>, launch: Option<Seq<char>>)
    ensures
        launch is None ==> spec_report(p, launch) == "failed to run the compiler"@,
        launch matches Some(e) ==> (if e.len() == 0 {
            spec_report(p, launch) == p + " was compiled successfully"@
        } else {
            spec_report(p, launch) == e
        }),
{
}

/// Only a write or a creation asks for a compile, and it asks for exactly
/// the event's path; every other event is notice-only.
pub proof fn law_only_writes_and_creations_compile(e: ChangeEvent)
    ensures
        spec_compile_request(e) is Some <==> (e is Written || e is Created),
        e matches ChangeEvent::Written(p) ==> spec_compile_request(e) == Some(p@),
        e matches ChangeEvent::Created(p) ==> spec_compile_request(e) == Some(p@),
{
}

} // verus!
