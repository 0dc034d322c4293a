//! The decisions behind building a shader program: which status word each
//! stage is checked with, and the exact text of the error reports.

use vstd::prelude::*;
use vstd::string::StringExecFns;

verus! {

/// A stage of a shader build whose status is checked.
#[derive(Clone, Copy, PartialEq, Eq, Structural, Debug)]
pub enum ShaderStage {
    Vertex,
    Fragment,
    Program,
}

/// Which status word the graphics API is asked for.
#[derive(Clone, Copy, PartialEq, Eq, Structural, Debug)]
pub enum StatusQuery {
    Compile,
    Link,
}

/// The status word that tells whether a stage built: the linked program is
/// asked for its link status, the two shaders for their compile status.
pub fn status_query(stage: ShaderStage) -> (q: StatusQuery)
    ensures
        q == (if stage == ShaderStage::Program {
            StatusQuery::Link
        } else {
            StatusQuery::Compile
        }),
{
    match stage {
        ShaderStage::Program => StatusQuery::Link,
        ShaderStage::Vertex => StatusQuery::Compile,
        ShaderStage::Fragment => StatusQuery::Compile,
    }
}

/// The name under which a stage appears in error reports.
pub open spec fn stage_label(stage: ShaderStage) -> Seq<char> {
    match stage {
        ShaderStage::Vertex => "VERTEX"@,
        ShaderStage::Fragment => "FRAGMENT"@,
        ShaderStage::Program => "PROGRAM"@,
    }
}

/// The name under which a stage appears in error reports.
pub fn shader_stage_label(stage: ShaderStage) -> (r: &'static str)
    ensures
        r@ == stage_label(stage),
{
    match stage {
        ShaderStage::Vertex => "VERTEX",
        ShaderStage::Fragment => "FRAGMENT",
        ShaderStage::Program => "PROGRAM",
    }
}

/// The report for a stage that failed to build, wrapping the stage's name
/// and the info log the API handed back.
pub open spec fn spec_build_error_message(stage: ShaderStage, log: Seq<char>) -> Seq<char> {
    (if stage == ShaderStage::Program {
        "ERROR::PROGRAM_LINKING_ERROR of type: "@
    } else {
        "ERROR::SHADER_COMPILATION_ERROR of type: "@
    }) + stage_label(stage) + "\n"@ + log + "\n -- --------------------------------------------------- -- "@
}

/// The report for a stage that failed to build.
pub fn build_error_message(stage: ShaderStage, log: &str) -> (r: String)
    ensures
        r@ == spec_build_error_message(stage, log@),
{
    let mut s = if let ShaderStage::Program = stage {
        String::from_str("ERROR::PROGRAM_LINKING_ERROR of type: ")
    } else {
        String::from_str("ERROR::SHADER_COMPILATION_ERROR of type: ")
    };
    s.append(shader_stage_label(stage));
    s.append("\n");
    s.append(log);
    s.append("\n -- --------------------------------------------------- -- ");
    s
}

/// Whether a reported status word means the stage built: any non-zero word
/// is success, zero carries the stage's error report.
pub fn build_status(stage: ShaderStage, success: i32, log: &str) -> (r: Result<(), String>)
    ensures
        match r {
            Ok(u) => success != 0,
            Err(m) => success == 0 && m@ == spec_build_error_message(stage, log@),
        },
{
    if success == 0 {
        Err(build_error_message(stage, log))
    } else {
        Ok(())
    }
}

/// The report for a shader source file that could not be read.
pub open spec fn spec_read_error_message(detail: Seq<char>) -> Seq<char> {
    "ERROR::SHADER::FILE_NOT_SUCCESFULLY_READ: "@ + detail
}

/// The report for a shader source file that could not be read, wrapping
/// the reason it could not be.
pub fn read_error_message(detail: &str) -> (r: String)
    ensures
        r@ == spec_read_error_message(detail@),
{
    let mut s = String::from_str("ERROR::SHADER::FILE_NOT_SUCCESFULLY_READ: ");
    s.append(detail);
    s
}

/// The byte length of the buffer that receives an info log reported to be
/// `len` bytes long: one more for the terminating NUL.
pub fn info_log_buffer_len(len: i32) -> (r: usize)
    requires
        len >= 0,
    ensures
        r == len + 1,
{
    (len as usize) + 1
}

} // verus!
