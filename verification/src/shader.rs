use vstd::prelude::*;
use crate::error::FluidError;

verus! {

/// Diagnostic for a context that hands out no shader or program object.
pub open spec fn no_object_message() -> Seq<char> {
    "Unable to create shader object"@
}

/// Diagnostic for a failed compilation that left no log.
pub open spec fn unknown_shader_message() -> Seq<char> {
    "Unknown error creating shader"@
}

/// Diagnostic for a failed link that left no log.
pub open spec fn unknown_program_message() -> Seq<char> {
    "Unknown error creating program object"@
}

/// The diagnostic of a failed build: its log, or `fallback` where there is
/// none.
pub open spec fn diagnostic(info_log: Option<String>, fallback: Seq<char>) -> Seq<char> {
    match info_log {
        Some(log) => log@,
        None => fallback,
    }
}

/// Judges the compilation of one shader stage from what the context
/// reports: whether it handed out a shader object, the compile status, and
/// the compiler's log.
///
/// The stage is good when the object exists and the status is `true`. A
/// missing object is a resource failure; anything else is a compile error
/// that carries the log.
pub fn compile_shader(
    created: bool,
    compile_status: Option<bool>,
    info_log: Option<String>,
) -> (r: Result<(), FluidError>)
    ensures
        r is Ok <==> created && compile_status == Some(true),
        !created ==> (r matches Err(FluidError::ResourceCreation(message)) && message@
            == no_object_message()),
        created && compile_status != Some(true) ==> (r matches Err(
            FluidError::ShaderCompile(message),
        ) && message@ == diagnostic(info_log, unknown_shader_message())),
{
    if !created {
        return Err(FluidError::ResourceCreation("Unable to create shader object".to_owned()));
    }
    match compile_status {
        Some(true) => Ok(()),
        _ => match info_log {
            Some(log) => Err(FluidError::ShaderCompile(log)),
            None => Err(FluidError::ShaderCompile("Unknown error creating shader".to_owned())),
        },
    }
}

/// Judges the linking of a program from what the context reports: whether
/// it handed out a program object, the link status, and the linker's log.
///
/// The program is good when the object exists and the status is `true`. A
/// missing object is a resource failure; anything else is a link error that
/// carries the log.
pub fn link_program(
    created: bool,
    link_status: Option<bool>,
    info_log: Option<String>,
) -> (r: Result<(), FluidError>)
    ensures
        r is Ok <==> created && link_status == Some(true),
        !created ==> (r matches Err(FluidError::ResourceCreation(message)) && message@
            == no_object_message()),
        created && link_status != Some(true) ==> (r matches Err(FluidError::ProgramLink(message))
            && message@ == diagnostic(info_log, unknown_program_message())),
{
    if !created {
        return Err(FluidError::ResourceCreation("Unable to create shader object".to_owned()));
    }
    match link_status {
        Some(true) => Ok(()),
        _ => match info_log {
            Some(log) => Err(FluidError::ProgramLink(log)),
            None => Err(
                FluidError::ProgramLink("Unknown error creating program object".to_owned()),
            ),
        },
    }
}

} // verus!
