//! The compilation of a shader from WGSL source text into SPIR-V words: the
//! options it is written with, the order of its stages, and what comes of
//! each way in which a stage can end.
//!
//! The stages themselves belong to the compiler behind them. Whoever runs
//! them tells this module how each one ended and learns from it what comes
//! next.

use vstd::prelude::*;

verus! {

/// A SPIR-V capability that a written module may rely on.
#[derive(Debug, Clone, Copy, PartialEq, Eq, Structural)]
pub enum ShaderCapability {
    Shader,
    Matrix,
    Sampled1D,
    Image1D,
    ImageQuery,
    DerivativeControl,
    SampledCubeArray,
    SampleRateShading,
    StorageImageExtendedFormats,
    MultiView,
}

/// What the written code does with an index that is out of range.
#[derive(Debug, Clone, Copy, PartialEq, Eq, Structural)]
pub enum BoundsPolicy {
    /// Replace the index by one that is in range.
    Restrict,
    /// Reads give zero and writes do nothing.
    ReadZeroSkipWrite,
    /// No check is added.
    Unchecked,
}

/// How the SPIR-V writer is set up.
#[derive(Debug)]
pub struct WriterOptions {
    /// Major and minor version of the SPIR-V to write.
    pub lang_version: (u8, u8),
    /// Emit debug labels for everything.
    pub debug: bool,
    /// Flip the Y coordinate of the position output.
    pub adjust_coordinate_space: bool,
    /// Emit names for input and output locations.
    pub label_varyings: bool,
    /// Emit a point size output in vertex shaders.
    pub force_point_size: bool,
    /// Clamp the fragment depth output between 0 and 1.
    pub clamp_frag_depth: bool,
    /// The capabilities that modules may use.
    pub capabilities: Vec<ShaderCapability>,
    /// Policy for indexing arrays, vectors and matrices.
    pub index: BoundsPolicy,
    /// Policy for indexing into storage and uniform buffers.
    pub buffer: BoundsPolicy,
    /// Policy for image texel access.
    pub image: BoundsPolicy,
}

/// The capabilities that every shader of the demo may use.
pub open spec fn demo_capabilities() -> Seq<ShaderCapability> {
    seq![
        ShaderCapability::Shader,
        ShaderCapability::Matrix,
        ShaderCapability::Sampled1D,
        ShaderCapability::Image1D,
        ShaderCapability::ImageQuery,
        ShaderCapability::DerivativeControl,
        ShaderCapability::SampledCubeArray,
        ShaderCapability::SampleRateShading,
        ShaderCapability::StorageImageExtendedFormats,
        ShaderCapability::MultiView,
    ]
}

/// Whether `options` are the ones every shader of the demo is written with:
/// SPIR-V 1.0, debug labels and names of varyings kept, a point size always
/// written, and no bounds check of any kind.
pub open spec fn is_demo_options(options: WriterOptions) -> bool {
    &&& options.lang_version == (1u8, 0u8)
    &&& options.debug
    &&& !options.adjust_coordinate_space
    &&& options.label_varyings
    &&& options.force_point_size
    &&& !options.clamp_frag_depth
    &&& options.capabilities@ == demo_capabilities()
    &&& options.index == BoundsPolicy::Unchecked
    &&& options.buffer == BoundsPolicy::Unchecked
    &&& options.image == BoundsPolicy::Unchecked
}

/// The options every shader of the demo is written with.
pub fn get_options() -> (options: WriterOptions)
    ensures
        is_demo_options(options),
{
    let mut capabilities: Vec<ShaderCapability> = Vec::new();
    capabilities.push(ShaderCapability::Shader);
    capabilities.push(ShaderCapability::Matrix);
    capabilities.push(ShaderCapability::Sampled1D);
    capabilities.push(ShaderCapability::Image1D);
    capabilities.push(ShaderCapability::ImageQuery);
    capabilities.push(ShaderCapability::DerivativeControl);
    capabilities.push(ShaderCapability::SampledCubeArray);
    capabilities.push(ShaderCapability::SampleRateShading);
    capabilities.push(ShaderCapability::StorageImageExtendedFormats);
    capabilities.push(ShaderCapability::MultiView);
    assert(capabilities@ =~= demo_capabilities());
    WriterOptions {
        lang_version: (1, 0),
        debug: true,
        adjust_coordinate_space: false,
        label_varyings: true,
        force_point_size: true,
        clamp_frag_depth: false,
        capabilities,
        index: BoundsPolicy::Unchecked,
        buffer: BoundsPolicy::Unchecked,
        image: BoundsPolicy::Unchecked,
    }
}

/// What the parser says of a source text that it rejects.
#[derive(Debug)]
pub struct ParseFailure {
    /// The parser's message.
    pub message: String,
    /// The message laid out over the lines of the source that it is about.
    pub rendered: String,
}

/// A stage of a compilation.
#[derive(Debug, Clone, Copy, PartialEq, Eq, Structural)]
pub enum CompileStage {
    /// The source text is parsed into a module.
    Parse,
    /// The module is checked for consistency of types and bindings.
    Validate,
    /// The module is written as SPIR-V words.
    Write,
}

/// How the run of one stage ended.
#[derive(Debug)]
pub enum StageRun<T, E> {
    /// The stage went through and gave this.
    Passed(T),
    /// The stage refused what it was given, for this reason.
    Refused(E),
    /// The stage broke off before it came to an answer; holds what it said
    /// in breaking off.
    Crashed(String),
}

/// Why a shader could not be compiled.
#[derive(Debug)]
pub enum CompilerError {
    /// The file could not be read; holds the text of the I/O error.
    Read { message: String },
    /// The source text is not WGSL; holds what the parser said and the source.
    Compile { error: ParseFailure, source: String },
    /// The parsed module is not valid.
    Validate { message: String },
    /// The valid module could not be written as SPIR-V.
    Write { message: String },
    /// A stage broke off before it came to an answer.
    Crashed { stage: CompileStage, message: String },
}

impl CompilerError {
    /// A line of text that says what went wrong.
    pub open spec fn spec_message(&self) -> Seq<char> {
        match self {
            CompilerError::Read { message } => message@,
            CompilerError::Compile { error, source } => error.message@,
            CompilerError::Validate { message } => message@,
            CompilerError::Write { message } => message@,
            CompilerError::Crashed { stage, message } => message@,
        }
    }

    /// A line of text that says what went wrong.
    pub fn message(&self) -> (text: String)
        ensures
            text@ == self.spec_message(),
    {
        match self {
            CompilerError::Read { message } => message.clone(),
            CompilerError::Compile { error, source } => error.message.clone(),
            CompilerError::Validate { message } => message.clone(),
            CompilerError::Write { message } => message.clone(),
            CompilerError::Crashed { stage, message } => message.clone(),
        }
    }
}

/// What a whole compilation gives, from what reading the file gave and how
/// each stage ended. The first thing that went wrong decides: an unread file,
/// then the parser, the validator, the writer. A stage counts only where
/// every stage before it went through.
pub open spec fn compile_result(
    read: Result<String, String>,
    parsed: StageRun<(), ParseFailure>,
    validated: StageRun<(), String>,
    written: StageRun<Vec<u32>, String>,
) -> Result<Vec<u32>, CompilerError> {
    match read {
        Err(message) => Err(CompilerError::Read { message }),
        Ok(source) => match parsed {
            StageRun::Refused(error) => Err(CompilerError::Compile { error, source }),
            StageRun::Crashed(message) => Err(
                CompilerError::Crashed { stage: CompileStage::Parse, message },
            ),
            StageRun::Passed(_) => match validated {
                StageRun::Refused(message) => Err(CompilerError::Validate { message }),
                StageRun::Crashed(message) => Err(
                    CompilerError::Crashed { stage: CompileStage::Validate, message },
                ),
                StageRun::Passed(_) => match written {
                    StageRun::Refused(message) => Err(CompilerError::Write { message }),
                    StageRun::Crashed(message) => Err(
                        CompilerError::Crashed { stage: CompileStage::Write, message },
                    ),
                    StageRun::Passed(words) => Ok(words),
                },
            },
        },
    }
}

/// How far a compilation has come.
#[derive(Debug)]
pub enum Compilation {
    /// The file was read; this source text is to be parsed.
    Parsing { source: String },
    /// The source was parsed; the module is to be validated.
    Validating,
    /// The module is valid; it is to be written.
    Writing,
    /// The compilation is over, with these words or this error.
    Done(Result<Vec<u32>, CompilerError>),
}

impl Compilation {
    /// Where a compilation stands once the file was read, or could not be.
    pub open spec fn started(read: Result<String, String>) -> Compilation {
        match read {
            Ok(source) => Compilation::Parsing { source },
            Err(message) => Compilation::Done(Err(CompilerError::Read { message })),
        }
    }

    /// Where a compilation that waits for the parser stands once the parser
    /// has run.
    pub open spec fn after_parse(self, run: StageRun<(), ParseFailure>) -> Compilation {
        match run {
            StageRun::Passed(_) => Compilation::Validating,
            StageRun::Refused(error) => Compilation::Done(
                Err(CompilerError::Compile { error, source: self->source }),
            ),
            StageRun::Crashed(message) => Compilation::Done(
                Err(CompilerError::Crashed { stage: CompileStage::Parse, message }),
            ),
        }
    }

    /// Where a compilation stands once the validator has run.
    pub open spec fn after_validation(run: StageRun<(), String>) -> Compilation {
        match run {
            StageRun::Passed(_) => Compilation::Writing,
            StageRun::Refused(message) => Compilation::Done(
                Err(CompilerError::Validate { message }),
            ),
            StageRun::Crashed(message) => Compilation::Done(
                Err(CompilerError::Crashed { stage: CompileStage::Validate, message }),
            ),
        }
    }

    /// Where a compilation stands once the writer has run.
    pub open spec fn after_writing(run: StageRun<Vec<u32>, String>) -> Compilation {
        match run {
            StageRun::Passed(words) => Compilation::Done(Ok(words)),
            StageRun::Refused(message) => Compilation::Done(Err(CompilerError::Write { message })),
            StageRun::Crashed(message) => Compilation::Done(
                Err(CompilerError::Crashed { stage: CompileStage::Write, message }),
            ),
        }
    }

    /// The stage that is to run next; none once the compilation is over.
    pub open spec fn spec_next_stage(self) -> Option<CompileStage> {
        match self {
            Compilation::Parsing { source } => Some(CompileStage::Parse),
            Compilation::Validating => Some(CompileStage::Validate),
            Compilation::Writing => Some(CompileStage::Write),
            Compilation::Done(_) => None,
        }
    }

    /// Begins a compilation with what reading the file gave: its text, or
    /// the text of the error that kept it from being read. A file that could
    /// not be read is not compiled.
    pub fn start(read: Result<String, String>) -> (state: Self)
        ensures
            state == Self::started(read),
    {
        match read {
            Ok(source) => Compilation::Parsing { source },
            Err(message) => Compilation::Done(Err(CompilerError::Read { message })),
        }
    }

    /// The stage that is to run next; none once the compilation is over.
    pub fn next_stage(&self) -> (stage: Option<CompileStage>)
        ensures
            stage == self.spec_next_stage(),
    {
        match self {
            Compilation::Parsing { source } => Some(CompileStage::Parse),
            Compilation::Validating => Some(CompileStage::Validate),
            Compilation::Writing => Some(CompileStage::Write),
            Compilation::Done(_) => None,
        }
    }

    /// Takes note of how the parser ended: on to validation where it went
    /// through; else over, with the parser's words and the source they are
    /// about.
    pub fn parsed(self, run: StageRun<(), ParseFailure>) -> (next: Self)
        requires
            self is Parsing,
        ensures
            next == self.after_parse(run),
    {
        match self {
            Compilation::Parsing { source } => match run {
                StageRun::Passed(_) => Compilation::Validating,
                StageRun::Refused(error) => Compilation::Done(
                    Err(CompilerError::Compile { error, source }),
                ),
                StageRun::Crashed(message) => Compilation::Done(
                    Err(CompilerError::Crashed { stage: CompileStage::Parse, message }),
                ),
            },
            other => other,
        }
    }

    /// Takes note of how the validator ended: on to writing where it went
    /// through; else over.
    pub fn validated(self, run: StageRun<(), String>) -> (next: Self)
        requires
            self is Validating,
        ensures
            next == Self::after_validation(run),
    {
        match run {
            StageRun::Passed(_) => Compilation::Writing,
            StageRun::Refused(message) => Compilation::Done(
                Err(CompilerError::Validate { message }),
            ),
            StageRun::Crashed(message) => Compilation::Done(
                Err(CompilerError::Crashed { stage: CompileStage::Validate, message }),
            ),
        }
    }

    /// Takes note of how the writer ended: the compilation is over, with the
    /// words where the writer gave any.
    pub fn written(self, run: StageRun<Vec<u32>, String>) -> (next: Self)
        requires
            self is Writing,
        ensures
            next == Self::after_writing(run),
    {
        match run {
            StageRun::Passed(words) => Compilation::Done(Ok(words)),
            StageRun::Refused(message) => Compilation::Done(Err(CompilerError::Write { message })),
            StageRun::Crashed(message) => Compilation::Done(
                Err(CompilerError::Crashed { stage: CompileStage::Write, message }),
            ),
        }
    }
}

/// A compilation that is taken through its stages ends with what
/// `compile_result` says, however far it gets: each stage is asked for only
/// where the one before went through.
pub proof fn lemma_compilation_ends(
    read: Result<String, String>,
    parsed: StageRun<(), ParseFailure>,
    validated: StageRun<(), String>,
    written: StageRun<Vec<u32>, String>,
)
    ensures
        ({
            let result = Compilation::Done(compile_result(read, parsed, validated, written));
            let begun = Compilation::started(read);
            if begun is Done {
                begun == result
            } else {
                let after_parse = begun.after_parse(parsed);
                if after_parse is Done {
                    begun is Parsing && after_parse == result
                } else {
                    let after_validation = Compilation::after_validation(validated);
                    if after_validation is Done {
                        after_parse is Validating && after_validation == result
                    } else {
                        after_validation is Writing && Compilation::after_writing(written)
                            == result
                    }
                }
            }
        }),
{
}

/// Words come back exactly where the file was read and the parser, the
/// validator and the writer all went through, and they are the writer's; in
/// every other case the compilation gives an error and no words.
pub proof fn lemma_words_when_all_pass(
    read: Result<String, String>,
    parsed: StageRun<(), ParseFailure>,
    validated: StageRun<(), String>,
    written: StageRun<Vec<u32>, String>,
)
    ensures
        compile_result(read, parsed, validated, written) is Ok <==> (read is Ok && parsed is Passed
            && validated is Passed && written is Passed),
        compile_result(read, parsed, validated, written) matches Ok(words) ==> written
            == StageRun::<Vec<u32>, String>::Passed(words),
{
}

} // verus!
