//! The GPU program loader without the GPU: which shader object a kind maps
//! to, whether a source text can be handed over, what the status that the
//! GPU reports after compiling or linking means, and which shader objects a
//! linked program no longer needs.

use crate::text::{decimal, decimal_text};
use vstd::prelude::*;
use vstd::string::StringSliceAdditionalSpecFns;

verus! {

/// The kinds of shader unit.
#[derive(Clone, Copy, Debug, PartialEq, Eq, Structural)]
pub enum ShaderKind {
    Vertex,
    Fragment,
    Geometry,
    TessellationControl,
    TessellationEvaluation,
    Compute,
}

/// OpenGL enumerant `GL_VERTEX_SHADER`.
pub const VERTEX_SHADER: u32 = 0x8B31;

/// OpenGL enumerant `GL_FRAGMENT_SHADER`.
pub const FRAGMENT_SHADER: u32 = 0x8B30;

/// OpenGL enumerant `GL_GEOMETRY_SHADER`.
pub const GEOMETRY_SHADER: u32 = 0x8DD9;

/// OpenGL enumerant `GL_TESS_CONTROL_SHADER`.
pub const TESS_CONTROL_SHADER: u32 = 0x8E88;

/// OpenGL enumerant `GL_TESS_EVALUATION_SHADER`.
pub const TESS_EVALUATION_SHADER: u32 = 0x8E87;

/// OpenGL enumerant `GL_COMPUTE_SHADER`.
pub const COMPUTE_SHADER: u32 = 0x91B9;

impl ShaderKind {
    /// The OpenGL shader type of a kind.
    pub open spec fn gl_type(self) -> u32 {
        match self {
            ShaderKind::Vertex => VERTEX_SHADER,
            ShaderKind::Fragment => FRAGMENT_SHADER,
            ShaderKind::Geometry => GEOMETRY_SHADER,
            ShaderKind::TessellationControl => TESS_CONTROL_SHADER,
            ShaderKind::TessellationEvaluation => TESS_EVALUATION_SHADER,
            ShaderKind::Compute => COMPUTE_SHADER,
        }
    }

    /// The OpenGL shader type to create a unit of this kind with.
    pub fn map_type(&self) -> (gl_type: u32)
        ensures
            gl_type == self.gl_type(),
    {
        match self {
            ShaderKind::Vertex => VERTEX_SHADER,
            ShaderKind::Fragment => FRAGMENT_SHADER,
            ShaderKind::Geometry => GEOMETRY_SHADER,
            ShaderKind::TessellationControl => TESS_CONTROL_SHADER,
            ShaderKind::TessellationEvaluation => TESS_EVALUATION_SHADER,
            ShaderKind::Compute => COMPUTE_SHADER,
        }
    }
}

/// The step of building a program that a status belongs to.
#[derive(Clone, Copy, Debug, PartialEq, Eq, Structural)]
pub enum Stage {
    Compile,
    Link,
}

/// Why a shader or a program could not be built.
#[derive(Debug, PartialEq, Eq)]
pub enum ShaderError {
    /// The source holds a zero byte, at this byte offset first, and cannot be
    /// passed to the GPU as a terminated string.
    NulInSource { position: usize },
    /// The GPU refused the shader; `log` is its diagnostic.
    CompileFailed { log: String },
    /// The GPU refused the shader without a diagnostic.
    CompileFailedSilently,
    /// The GPU refused to link the program; `log` is its diagnostic.
    LinkFailed { log: String },
    /// The GPU refused to link the program without a diagnostic.
    LinkFailedSilently,
}

/// A `ShaderError` with its text as a sequence of characters.
pub enum Failure {
    NulInSource { position: nat },
    CompileFailed { log: Seq<char> },
    CompileFailedSilently,
    LinkFailed { log: Seq<char> },
    LinkFailedSilently,
}

impl View for ShaderError {
    type V = Failure;

    open spec fn view(&self) -> Failure {
        match self {
            ShaderError::NulInSource { position } => Failure::NulInSource {
                position: *position as nat,
            },
            ShaderError::CompileFailed { log } => Failure::CompileFailed { log: log@ },
            ShaderError::CompileFailedSilently => Failure::CompileFailedSilently,
            ShaderError::LinkFailed { log } => Failure::LinkFailed { log: log@ },
            ShaderError::LinkFailedSilently => Failure::LinkFailedSilently,
        }
    }
}

impl Failure {
    /// The failure after `stage` for a diagnostic text: without text it is
    /// the silent kind.
    pub open spec fn of(stage: Stage, diagnostic: Seq<char>) -> Failure {
        match stage {
            Stage::Compile => if diagnostic.len() == 0 {
                Failure::CompileFailedSilently
            } else {
                Failure::CompileFailed { log: diagnostic }
            },
            Stage::Link => if diagnostic.len() == 0 {
                Failure::LinkFailedSilently
            } else {
                Failure::LinkFailed { log: diagnostic }
            },
        }
    }

    /// The diagnostic that a failure carries.
    pub open spec fn diagnostic(self) -> Option<Seq<char>> {
        match self {
            Failure::CompileFailed { log } => Some(log),
            Failure::LinkFailed { log } => Some(log),
            _ => None,
        }
    }

    /// The text of a failure.
    pub open spec fn message(self) -> Seq<char> {
        match self {
            Failure::NulInSource { position } =>
                "Shader source contains null byte: nul byte found in provided data at position: "@
                    + decimal(position),
            Failure::CompileFailed { log } => "Shader compilation failed:\n"@ + log,
            Failure::CompileFailedSilently => "Shader compilation failed with no error message"@,
            Failure::LinkFailed { log } => "Shader program linking failed:\n"@ + log,
            Failure::LinkFailedSilently => "Shader program linking failed with no error message"@,
        }
    }
}

/// The text that `String::from_utf8_lossy` makes of a byte string.
pub uninterp spec fn lossy_text(bytes: Seq<u8>) -> Seq<char>;

/// Decodes bytes as UTF-8 with `String::from_utf8_lossy` of the standard
/// library, which replaces each invalid sequence by U+FFFD. The result
/// depends on the bytes alone; of valid UTF-8 it is the very text, so that
/// its encoding is the input again.
#[verifier::external_body]
fn decode_lossy(bytes: &[u8]) -> (text: String)
    ensures
        text@ == lossy_text(bytes@),
        vstd::utf8::valid_utf8(bytes@) ==> vstd::utf8::encode_utf8(text@) == bytes@,
{
    String::from_utf8_lossy(bytes).into_owned()
}

/// Finds the first zero byte in the UTF-8 encoding of `text`.
pub fn find_nul(text: &str) -> (found: Option<usize>)
    ensures
        match found {
            Some(position) => {
                &&& position < text.spec_bytes().len()
                &&& text.spec_bytes()[position as int] == 0
                &&& forall|j: int| 0 <= j < position ==> text.spec_bytes()[j] != 0
            },
            None => forall|j: int| 0 <= j < text.spec_bytes().len() ==> text.spec_bytes()[j] != 0,
        },
{
    let bytes = text.as_bytes();
    let mut i: usize = 0;
    while i < bytes.len()
        invariant
            bytes@ == text.spec_bytes(),
            i <= bytes@.len(),
            forall|j: int| 0 <= j < i ==> bytes@[j] != 0,
        decreases bytes@.len() - i,
    {
        if bytes[i] == 0 {
            return Some(i);
        }
        i = i + 1;
    }
    None
}

/// Checks that a shader source can be passed to the GPU as a terminated
/// string: it must hold no zero byte.
pub fn check_source(source: &str) -> (result: Result<(), ShaderError>)
    ensures
        result is Ok <==> forall|j: int|
            0 <= j < source.spec_bytes().len() ==> source.spec_bytes()[j] != 0,
        result matches Err(error) ==> {
            &&& error matches ShaderError::NulInSource { position }
            &&& position < source.spec_bytes().len()
            &&& source.spec_bytes()[position as int] == 0
            &&& forall|j: int| 0 <= j < position ==> source.spec_bytes()[j] != 0
        },
{
    match find_nul(source) {
        Some(position) => Err(ShaderError::NulInSource { position }),
        None => Ok(()),
    }
}

/// How many bytes of information log to fetch after a status query: after a
/// failure the length that the GPU reports, if it reports one; else none.
pub fn info_log_capacity(success: i32, log_length: i32) -> (capacity: usize)
    ensures
        capacity == if success == 0 && log_length > 0 {
            log_length as int
        } else {
            0
        },
{
    if success == 0 && log_length > 0 {
        log_length as usize
    } else {
        0
    }
}

/// The bytes of the diagnostic in an information log of reported length
/// `log_length`: the reported length counts a terminating zero byte, which
/// is no part of the text. A buffer shorter than that is taken whole.
pub open spec fn reported_text(log_length: i32, log: Seq<u8>) -> Seq<u8> {
    if log_length <= 1 {
        Seq::empty()
    } else if log_length - 1 <= log.len() {
        log.take(log_length - 1)
    } else {
        log
    }
}

/// What a status means: any status but zero is success; zero is the
/// failure of `stage` with the diagnostic as it was reported.
pub open spec fn status_outcome(stage: Stage, success: i32, log_length: i32, log: Seq<u8>) -> Option<
    Failure,
> {
    if success != 0 {
        None
    } else if reported_text(log_length, log).len() == 0 {
        Some(Failure::of(stage, Seq::empty()))
    } else {
        Some(Failure::of(stage, lossy_text(reported_text(log_length, log))))
    }
}

/// The failure after `stage` whose diagnostic is `diagnostic`: the silent
/// kind if the text is empty.
pub fn failure(stage: Stage, diagnostic: String) -> (error: ShaderError)
    ensures
        error@ == Failure::of(stage, diagnostic@),
{
    let silent = diagnostic.as_str().is_empty();
    match stage {
        Stage::Compile => if silent {
            ShaderError::CompileFailedSilently
        } else {
            ShaderError::CompileFailed { log: diagnostic }
        },
        Stage::Link => if silent {
            ShaderError::LinkFailedSilently
        } else {
            ShaderError::LinkFailed { log: diagnostic }
        },
    }
}

/// A diagnostic that is valid UTF-8 is surfaced as it was reported.
pub open spec fn surfaced_verbatim(failure: Failure, reported: Seq<u8>) -> bool {
    reported.len() > 0 && vstd::utf8::valid_utf8(reported) ==> (failure.diagnostic() matches Some(
        log,
    ) && vstd::utf8::encode_utf8(log) == reported)
}

/// Interprets the status of `stage`: `success` as the GPU reported it,
/// `log_length` the reported length of the information log and `log` the
/// bytes fetched of it.
pub fn check_status(stage: Stage, success: i32, log_length: i32, log: &[u8]) -> (result: Result<
    (),
    ShaderError,
>)
    ensures
        result is Ok <==> success != 0,
        result matches Err(error) ==> Some(error@) == status_outcome(
            stage,
            success,
            log_length,
            log@,
        ) && surfaced_verbatim(error@, reported_text(log_length, log@)),
{
    if success != 0 {
        return Ok(());
    }
    let wanted: usize = if log_length <= 1 {
        0
    } else {
        (log_length - 1) as usize
    };
    let end: usize = if wanted <= log.len() {
        wanted
    } else {
        log.len()
    };
    let text = vstd::slice::slice_subrange(log, 0, end);
    assert(text@ =~= reported_text(log_length, log@));
    if end == 0 {
        let silent = match stage {
            Stage::Compile => ShaderError::CompileFailedSilently,
            Stage::Link => ShaderError::LinkFailedSilently,
        };
        Err(silent)
    } else {
        Err(failure(stage, decode_lossy(text)))
    }
}

/// Interprets the compile status of a shader unit.
pub fn check_compile_status(success: i32, log_length: i32, log: &[u8]) -> (result: Result<
    (),
    ShaderError,
>)
    ensures
        result is Ok <==> success != 0,
        result matches Err(error) ==> Some(error@) == status_outcome(
            Stage::Compile,
            success,
            log_length,
            log@,
        ) && surfaced_verbatim(error@, reported_text(log_length, log@)),
{
    check_status(Stage::Compile, success, log_length, log)
}

/// Interprets the link status of a program.
pub fn check_link_status(success: i32, log_length: i32, log: &[u8]) -> (result: Result<
    (),
    ShaderError,
>)
    ensures
        result is Ok <==> success != 0,
        result matches Err(error) ==> Some(error@) == status_outcome(
            Stage::Link,
            success,
            log_length,
            log@,
        ) && surfaced_verbatim(error@, reported_text(log_length, log@)),
{
    check_status(Stage::Link, success, log_length, log)
}

/// A program under construction as contracts see it.
pub struct Program {
    /// The GPU's name for the program.
    pub id: u32,
    /// The shader units attached and not yet released, in attachment order.
    pub attached: Seq<u32>,
}

/// A GPU program and the shader units attached to it.
pub struct ShaderProgram {
    id: u32,
    shader_ids: Vec<u32>,
}

impl View for ShaderProgram {
    type V = Program;

    closed spec fn view(&self) -> Program {
        Program { id: self.id, attached: self.shader_ids@ }
    }
}

impl ShaderProgram {
    /// The record of a program that the GPU names `id`, with nothing attached.
    pub fn new(id: u32) -> (program: ShaderProgram)
        ensures
            program@ == (Program { id, attached: Seq::empty() }),
    {
        ShaderProgram { id, shader_ids: Vec::new() }
    }

    /// The GPU's name for the program.
    pub fn id(&self) -> (id: u32)
        ensures
            id == self@.id,
    {
        self.id
    }

    /// The shader units attached and not yet released.
    pub fn shader_ids(&self) -> (ids: &Vec<u32>)
        ensures
            ids@ == self@.attached,
    {
        &self.shader_ids
    }

    /// Records that the compiled shader unit `shader_id` was attached.
    pub fn attach(&mut self, shader_id: u32)
        ensures
            final(self)@ == (Program {
                id: old(self)@.id,
                attached: old(self)@.attached.push(shader_id),
            }),
    {
        self.shader_ids.push(shader_id);
    }

    /// Concludes a link from the status that the GPU reported. After a
    /// success every attached shader unit is handed back for release and the
    /// program keeps none; after a failure the program keeps them all.
    pub fn link(&mut self, success: i32, log_length: i32, log: &[u8]) -> (result: Result<
        Vec<u32>,
        ShaderError,
    >)
        ensures
            result is Ok <==> success != 0,
            final(self)@.id == old(self)@.id,
            result matches Ok(released) ==> released@ == old(self)@.attached
                && final(self)@.attached.len() == 0,
            result matches Err(error) ==> final(self)@ == old(self)@ && Some(error@)
                == status_outcome(Stage::Link, success, log_length, log@) && surfaced_verbatim(
                error@,
                reported_text(log_length, log@),
            ),
    {
        match check_link_status(success, log_length, log) {
            Ok(()) => {
                let mut released: Vec<u32> = Vec::new();
                std::mem::swap(&mut released, &mut self.shader_ids);
                Ok(released)
            },
            Err(error) => Err(error),
        }
    }
}

impl ShaderError {
    /// The text of the error, for a diagnostic stream.
    pub fn message(&self) -> (text: String)
        ensures
            text@ == self@.message(),
    {
        match self {
            ShaderError::NulInSource { position } => {
                let mut text = String::from_str(
                    "Shader source contains null byte: nul byte found in provided data at position: ",
                );
                text.append(decimal_text(*position).as_str());
                text
            },
            ShaderError::CompileFailed { log } => {
                let mut text = String::from_str("Shader compilation failed:\n");
                text.append(log.as_str());
                text
            },
            ShaderError::CompileFailedSilently => String::from_str(
                "Shader compilation failed with no error message",
            ),
            ShaderError::LinkFailed { log } => {
                let mut text = String::from_str("Shader program linking failed:\n");
                text.append(log.as_str());
                text
            },
            ShaderError::LinkFailedSilently => String::from_str(
                "Shader program linking failed with no error message",
            ),
        }
    }
}

} // verus!
