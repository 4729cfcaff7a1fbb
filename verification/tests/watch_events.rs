use vokselis::utils::paths::{extension, file_name, has_extension, rfind_char, same_text};
use vokselis::utils::shader_compiler::{
    Compilation, CompileStage, CompilerError, ParseFailure, StageRun,
};
use vokselis::watcher::{
    changed_shaders, on_compiled, AccessKind, AccessMode, EventKind, FileEvent, WatchAction,
};

fn event(kind: EventKind, paths: &[&str]) -> FileEvent {
    FileEvent { kind, paths: paths.iter().map(|p| p.to_string()).collect() }
}

#[test]
fn write_completion_selects_shader_files() {
    let e = event(
        EventKind::Access(AccessKind::Close(AccessMode::Write)),
        &["/w/shaders/a.wgsl", "/w/shaders/notes.txt", "/w/shaders/sub/b.wgsl", "/w/shaders/wgsl"],
    );
    assert_eq!(changed_shaders(&e), vec!["/w/shaders/a.wgsl", "/w/shaders/sub/b.wgsl"]);
}

#[test]
fn other_events_select_nothing() {
    let paths = ["/w/shaders/a.wgsl"];
    for kind in [
        EventKind::Any,
        EventKind::Create,
        EventKind::Modify,
        EventKind::Remove,
        EventKind::Other,
        EventKind::Access(AccessKind::Any),
        EventKind::Access(AccessKind::Read),
        EventKind::Access(AccessKind::Open(AccessMode::Write)),
        EventKind::Access(AccessKind::Close(AccessMode::Read)),
        EventKind::Access(AccessKind::Close(AccessMode::Any)),
        EventKind::Access(AccessKind::Other),
    ] {
        assert!(changed_shaders(&event(kind, &paths)).is_empty());
    }
}

#[test]
fn repeated_events_select_the_file_each_time() {
    let e = event(
        EventKind::Access(AccessKind::Close(AccessMode::Write)),
        &["/s/a.wgsl", "/s/a.wgsl"],
    );
    assert_eq!(changed_shaders(&e), vec!["/s/a.wgsl", "/s/a.wgsl"]);
    assert_eq!(changed_shaders(&e), vec!["/s/a.wgsl", "/s/a.wgsl"]);
}

#[test]
fn file_names_and_extensions() {
    assert_eq!(file_name("/shaders/a.shader"), "a.shader");
    assert_eq!(file_name("present.wgsl"), "present.wgsl");
    assert_eq!(file_name("/shaders/"), "");
    assert_eq!(extension("/shaders/a.shader"), Some("shader"));
    assert_eq!(extension("/shaders/archive.tar.gz"), Some("gz"));
    assert_eq!(extension("/shaders.d/readme"), None);
    assert_eq!(extension("/home/.bashrc"), None);
    assert_eq!(extension("/home/.."), None);
    assert_eq!(extension("/home/a."), Some(""));
    assert_eq!(extension("/h\u{e9}/sch\u{e9}ma.wgsl"), Some("wgsl"));
    assert!(has_extension("/shaders/present.wgsl", "wgsl"));
    assert!(!has_extension("/shaders/present.wgsl.bak", "wgsl"));
    assert!(!has_extension("/shaders/wgsl", "wgsl"));
    assert_eq!(rfind_char("a/b/c", '/'), Some(3));
    assert_eq!(rfind_char("abc", '/'), None);
    assert!(same_text("wgsl", "wgsl"));
    assert!(!same_text("wgsl", "wgs"));
}

#[test]
fn compiled_module_is_sent_with_its_path() {
    match on_compiled("/shaders/a.wgsl".to_string(), Ok(vec![0x0723_0203u32, 7])) {
        WatchAction::Reload(e) => {
            assert_eq!(e.path, "/shaders/a.wgsl");
            assert_eq!(e.module, vec![0x0723_0203u32, 7]);
        }
        other => panic!("expected a reload, got {:?}", other),
    }
}

#[test]
fn compile_failure_sends_nothing_and_names_the_file() {
    let failure = ParseFailure {
        message: "expected ')', found '->'".to_string(),
        rendered: "error: expected ')', found '->'\n  wgsl:1:13".to_string(),
    };
    let compiled = match Compilation::start(Ok("fn fs_main( -> {".to_string()))
        .parsed(StageRun::Refused(failure))
    {
        Compilation::Done(result) => result,
        other => panic!("expected the end, got {:?}", other),
    };
    assert!(compiled.is_err());
    match on_compiled("/shaders/broken.wgsl".to_string(), compiled) {
        WatchAction::Report(d) => {
            assert_eq!(d.file_name, "broken.wgsl");
            assert_eq!(d.message, "expected ')', found '->'");
            assert!(d.snippet.unwrap().contains("wgsl:1:13"));
        }
        other => panic!("expected a report, got {:?}", other),
    }
}

#[test]
fn compiler_that_breaks_off_is_reported() {
    let failed: Result<Vec<u32>, CompilerError> = Err(CompilerError::Crashed {
        stage: CompileStage::Write,
        message: "not implemented".to_string(),
    });
    match on_compiled("/shaders/sum.wgsl".to_string(), failed) {
        WatchAction::Report(d) => {
            assert_eq!(d.file_name, "sum.wgsl");
            assert_eq!(d.message, "not implemented");
            assert_eq!(d.snippet, None);
        }
        other => panic!("expected a report, got {:?}", other),
    }
}

#[test]
fn read_failure_is_reported_without_snippet() {
    let failed: Result<Vec<u32>, CompilerError> =
        Err(CompilerError::Read { message: "permission denied".to_string() });
    match on_compiled("/shaders/locked.wgsl".to_string(), failed) {
        WatchAction::Report(d) => {
            assert_eq!(d.file_name, "locked.wgsl");
            assert_eq!(d.message, "permission denied");
            assert_eq!(d.snippet, None);
        }
        other => panic!("expected a report, got {:?}", other),
    }
}

#[test]
fn report_of_a_path_without_file_name() {
    let failed: Result<Vec<u32>, CompilerError> = Err(CompilerError::Compile {
        error: ParseFailure { message: "expected ')'".to_string(), rendered: "error: x".to_string() },
        source: "fn (".to_string(),
    });
    match on_compiled("/shaders/".to_string(), failed) {
        WatchAction::Report(d) => {
            assert_eq!(d.file_name, "wgsl");
            assert_eq!(d.message, "expected ')'");
            assert_eq!(d.snippet, Some("error: x".to_string()));
        }
        other => panic!("expected a report, got {:?}", other),
    }
}
