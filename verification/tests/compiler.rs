use naga::back::spv;
use naga::proc::{BoundsCheckPolicies, BoundsCheckPolicy};
use naga::valid::{Capabilities, ValidationFlags, Validator};
use vokselis::utils::shader_compiler::{
    get_options, BoundsPolicy, Compilation, CompileStage, CompilerError, ParseFailure,
    ShaderCapability, StageRun, WriterOptions,
};
use vokselis::watcher::{on_module_created, ModuleCreation, WatchAction};

const FRAGMENT: &str = "[[stage(fragment)]]
fn fs_main() -> [[location(0)]] vec4<f32> {
    return vec4<f32>(1.0, 0.5, 0.25, 1.0);
}
";

const QUERY: &str = "[[group(0), binding(0)]]
var image: texture_2d<f32>;

[[stage(fragment)]]
fn fs_main() -> [[location(0)]] vec4<f32> {
    let size = textureDimensions(image);
    return vec4<f32>(f32(size.x), f32(size.y), 0.0, 1.0);
}
";

fn capability(capability: &ShaderCapability) -> spv::Capability {
    match capability {
        ShaderCapability::Shader => spv::Capability::Shader,
        ShaderCapability::Matrix => spv::Capability::Matrix,
        ShaderCapability::Sampled1D => spv::Capability::Sampled1D,
        ShaderCapability::Image1D => spv::Capability::Image1D,
        ShaderCapability::ImageQuery => spv::Capability::ImageQuery,
        ShaderCapability::DerivativeControl => spv::Capability::DerivativeControl,
        ShaderCapability::SampledCubeArray => spv::Capability::SampledCubeArray,
        ShaderCapability::SampleRateShading => spv::Capability::SampleRateShading,
        ShaderCapability::StorageImageExtendedFormats => {
            spv::Capability::StorageImageExtendedFormats
        }
        ShaderCapability::MultiView => spv::Capability::MultiView,
    }
}

fn policy(policy: BoundsPolicy) -> BoundsCheckPolicy {
    match policy {
        BoundsPolicy::Restrict => BoundsCheckPolicy::Restrict,
        BoundsPolicy::ReadZeroSkipWrite => BoundsCheckPolicy::ReadZeroSkipWrite,
        BoundsPolicy::Unchecked => BoundsCheckPolicy::Unchecked,
    }
}

fn writer(options: &WriterOptions) -> spv::Writer {
    let mut flags = spv::WriterFlags::empty();
    flags.set(spv::WriterFlags::DEBUG, options.debug);
    flags.set(spv::WriterFlags::ADJUST_COORDINATE_SPACE, options.adjust_coordinate_space);
    flags.set(spv::WriterFlags::LABEL_VARYINGS, options.label_varyings);
    flags.set(spv::WriterFlags::FORCE_POINT_SIZE, options.force_point_size);
    flags.set(spv::WriterFlags::CLAMP_FRAG_DEPTH, options.clamp_frag_depth);
    spv::Writer::new(&spv::Options {
        lang_version: options.lang_version,
        flags,
        capabilities: Some(options.capabilities.iter().map(capability).collect()),
        bounds_check_policies: BoundsCheckPolicies {
            index: policy(options.index),
            buffer: policy(options.buffer),
            image: policy(options.image),
        },
    })
    .unwrap()
}

fn stage<T, E>(result: Result<T, E>, kept: &mut Option<T>) -> StageRun<(), E> {
    match result {
        Ok(passed) => {
            *kept = Some(passed);
            StageRun::Passed(())
        }
        Err(refused) => StageRun::Refused(refused),
    }
}

/// Takes a compilation through naga's stages, as far as the library asks.
fn compile(options: &WriterOptions, read: Result<String, String>) -> Result<Vec<u32>, CompilerError> {
    let mut validator = Validator::new(ValidationFlags::all(), Capabilities::all());
    let mut writer = writer(options);
    let mut module = None;
    let mut info = None;
    let mut stages = vec![];
    let mut state = Compilation::start(read);
    loop {
        if let Some(next) = state.next_stage() {
            stages.push(next);
        }
        state = match state {
            Compilation::Parsing { source } => {
                let parsed = naga::front::wgsl::parse_str(&source).map_err(|e| ParseFailure {
                    message: e.to_string(),
                    rendered: e.emit_to_string(&source),
                });
                Compilation::Parsing { source }.parsed(stage(parsed, &mut module))
            }
            Compilation::Validating => {
                let validated = validator
                    .validate(module.as_ref().unwrap())
                    .map_err(|e| e.to_string());
                Compilation::Validating.validated(stage(validated, &mut info))
            }
            Compilation::Writing => {
                let mut words = Vec::new();
                let written = writer.write(
                    module.as_ref().unwrap(),
                    info.as_ref().unwrap(),
                    None,
                    &mut words,
                );
                Compilation::Writing.written(match written {
                    Ok(()) => StageRun::Passed(words),
                    Err(e) => StageRun::Refused(e.to_string()),
                })
            }
            Compilation::Done(result) => {
                let all = [CompileStage::Parse, CompileStage::Validate, CompileStage::Write];
                assert_eq!(stages.as_slice(), &all[..stages.len()]);
                assert_eq!(result.is_ok(), stages.len() == 3 && result.is_ok());
                return result;
            }
        }
    }
}

#[test]
fn valid_shader_compiles_to_spirv() {
    let words = compile(&get_options(), Ok(FRAGMENT.to_string())).unwrap();
    assert!(words.len() > 5);
    assert_eq!(words[0], 0x0723_0203);
    assert_eq!(words[1], 0x0001_0000);
    assert_eq!(words[4], 0);
}

#[test]
fn one_text_compiles_to_the_same_words() {
    let first = compile(&get_options(), Ok(FRAGMENT.to_string())).unwrap();
    assert!(compile(&get_options(), Ok("fn broken( {".to_string())).is_err());
    let second = compile(&get_options(), Ok(FRAGMENT.to_string())).unwrap();
    assert_eq!(first, second);
}

#[test]
fn malformed_source_gives_compile_error_with_source() {
    let source = "fn main() -> { return 1; }";
    match compile(&get_options(), Ok(source.to_string())) {
        Err(CompilerError::Compile { error, source: kept }) => {
            assert_eq!(kept, source);
            assert!(!error.message.is_empty());
            assert!(error.rendered.contains("wgsl:1:"));
        }
        other => panic!("expected a parse error, got {:?}", other),
    }
}

#[test]
fn invalid_module_gives_validation_error() {
    let source = "[[stage(fragment)]]
fn fs_main(shade: f32) -> [[location(0)]] vec4<f32> {
    return vec4<f32>(shade, shade, shade, 1.0);
}
";
    match compile(&get_options(), Ok(source.to_string())) {
        Err(CompilerError::Validate { message }) => assert!(!message.is_empty()),
        other => panic!("expected a validation error, got {:?}", other),
    }
}

#[test]
fn unread_file_is_not_compiled() {
    let unread = Err("No such file or directory (os error 2)".to_string());
    match compile(&get_options(), unread) {
        Err(CompilerError::Read { message }) => {
            assert_eq!(message, "No such file or directory (os error 2)")
        }
        other => panic!("expected a read error, got {:?}", other),
    }
    let state = Compilation::start(Err("gone".to_string()));
    assert_eq!(state.next_stage(), None);
    assert!(matches!(state, Compilation::Done(Err(CompilerError::Read { .. }))));
}

#[test]
fn options_reach_the_writer() {
    let mut plain = get_options();
    plain.debug = false;
    let short = compile(&plain, Ok(FRAGMENT.to_string())).unwrap();
    let long = compile(&get_options(), Ok(FRAGMENT.to_string())).unwrap();
    assert!(short.len() < long.len());

    let mut narrow = get_options();
    narrow.capabilities = vec![ShaderCapability::Shader];
    match compile(&narrow, Ok(QUERY.to_string())) {
        Err(CompilerError::Write { message }) => assert!(message.contains("ImageQuery")),
        other => panic!("expected a writer error, got {:?}", other),
    }
    assert_eq!(compile(&get_options(), Ok(QUERY.to_string())).unwrap()[0], 0x0723_0203);
}

#[test]
fn stages_follow_one_another() {
    let state = Compilation::start(Ok("text".to_string()));
    assert_eq!(state.next_stage(), Some(CompileStage::Parse));
    let state = state.parsed(StageRun::Passed(()));
    assert_eq!(state.next_stage(), Some(CompileStage::Validate));
    let state = state.validated(StageRun::Passed(()));
    assert_eq!(state.next_stage(), Some(CompileStage::Write));
    let state = state.written(StageRun::Passed(vec![7, 8, 9]));
    assert_eq!(state.next_stage(), None);
    match state {
        Compilation::Done(Ok(words)) => assert_eq!(words, vec![7, 8, 9]),
        other => panic!("expected words, got {:?}", other),
    }
}

#[test]
fn first_failure_ends_the_compilation() {
    let begin = || Compilation::start(Ok("the text".to_string()));
    let failure = ParseFailure { message: "expected ';'".to_string(), rendered: "1 | x".to_string() };
    match begin().parsed(StageRun::Refused(failure)) {
        Compilation::Done(Err(CompilerError::Compile { error, source })) => {
            assert_eq!(error.message, "expected ';'");
            assert_eq!(error.rendered, "1 | x");
            assert_eq!(source, "the text");
        }
        other => panic!("expected a parse error, got {:?}", other),
    }
    match begin().parsed(StageRun::Passed(())).validated(StageRun::Refused("bad type".to_string())) {
        Compilation::Done(Err(CompilerError::Validate { message })) => {
            assert_eq!(message, "bad type")
        }
        other => panic!("expected a validation error, got {:?}", other),
    }
    let to_write = || begin().parsed(StageRun::Passed(())).validated(StageRun::Passed(()));
    match to_write().written(StageRun::Refused("no capability".to_string())) {
        Compilation::Done(Err(CompilerError::Write { message })) => {
            assert_eq!(message, "no capability")
        }
        other => panic!("expected a writer error, got {:?}", other),
    }
}

#[test]
fn a_stage_that_breaks_off_ends_the_compilation() {
    let begin = || Compilation::start(Ok("the text".to_string()));
    let broke = |stage: CompileStage, state: Compilation| match state {
        Compilation::Done(Err(CompilerError::Crashed { stage: at, message })) => {
            assert_eq!(at, stage);
            assert_eq!(message, "not implemented");
        }
        other => panic!("expected a crash, got {:?}", other),
    };
    let crash = || "not implemented".to_string();
    broke(CompileStage::Parse, begin().parsed(StageRun::Crashed(crash())));
    let parsed = || begin().parsed(StageRun::Passed(()));
    broke(CompileStage::Validate, parsed().validated(StageRun::Crashed(crash())));
    let valid = || parsed().validated(StageRun::Passed(()));
    broke(CompileStage::Write, valid().written(StageRun::Crashed(crash())));
}

#[test]
fn error_message_is_the_stage_message() {
    let read = CompilerError::Read { message: "No such file or directory".to_string() };
    assert_eq!(read.message(), "No such file or directory");
    let write = CompilerError::Write { message: "unimplemented x".to_string() };
    assert_eq!(write.message(), "unimplemented x");
    let validate = CompilerError::Validate { message: "bad".to_string() };
    assert_eq!(validate.message(), "bad");
    let crashed = CompilerError::Crashed { stage: CompileStage::Write, message: "broke".to_string() };
    assert_eq!(crashed.message(), "broke");
    let compile = CompilerError::Compile {
        error: ParseFailure { message: "expected ')'".to_string(), rendered: String::new() },
        source: String::new(),
    };
    assert_eq!(compile.message(), "expected ')'");
}

#[test]
fn options_keep_debug_names_and_skip_bounds_checks() {
    let options = get_options();
    assert_eq!(options.lang_version, (1, 0));
    assert!(options.debug);
    assert!(options.label_varyings);
    assert!(options.force_point_size);
    assert!(!options.adjust_coordinate_space);
    assert!(!options.clamp_frag_depth);
    assert_eq!(options.index, BoundsPolicy::Unchecked);
    assert_eq!(options.buffer, BoundsPolicy::Unchecked);
    assert_eq!(options.image, BoundsPolicy::Unchecked);
    assert_eq!(
        options.capabilities,
        vec![
            ShaderCapability::Shader,
            ShaderCapability::Matrix,
            ShaderCapability::Sampled1D,
            ShaderCapability::Image1D,
            ShaderCapability::ImageQuery,
            ShaderCapability::DerivativeControl,
            ShaderCapability::SampledCubeArray,
            ShaderCapability::SampleRateShading,
            ShaderCapability::StorageImageExtendedFormats,
            ShaderCapability::MultiView,
        ]
    );
}

#[test]
fn module_creation_outcomes() {
    let path = "/shaders/a.wgsl".to_string();
    match on_module_created(path.clone(), ModuleCreation::Created(41u64)) {
        Some(WatchAction::Reload(e)) => {
            assert_eq!(e.path, "/shaders/a.wgsl");
            assert_eq!(e.module, 41);
        }
        other => panic!("expected a reload, got {:?}", other),
    }
    assert!(on_module_created(path.clone(), ModuleCreation::<u64>::DeviceGone).is_none());
    let failed = ModuleCreation::<u64>::Failed { message: "bad words".to_string() };
    match on_module_created(path, failed) {
        Some(WatchAction::Report(d)) => {
            assert_eq!(d.file_name, "a.wgsl");
            assert_eq!(d.message, "bad words");
            assert_eq!(d.snippet, None);
        }
        other => panic!("expected a report, got {:?}", other),
    }
}
