use kclvm_api::artifact::{ArtifactCache, ArtifactState, BuildOutcome, Loaded};
use kclvm_api::error::{ErrorCategory, ErrorKind, ServiceError};
use kclvm_api::request::{Artifact, BuildProgramArgs, ExecArtifactArgs, ExecProgramArgs};

fn build_args(output: &str) -> BuildProgramArgs {
    BuildProgramArgs {
        exec_args: ExecProgramArgs {
            work_dir: "/work".to_string(),
            k_filename_list: vec!["main.k".to_string()],
            ..Default::default()
        },
        output: output.to_string(),
    }
}

fn exec_args(path: &str) -> ExecArtifactArgs {
    ExecArtifactArgs { path: path.to_string(), exec_args: ExecProgramArgs::default() }
}

fn built(cache: &mut ArtifactCache, output: &str) -> Artifact {
    cache.build_program(&build_args(output), |args| BuildOutcome::Built(format!("{}.so", args.output))).unwrap()
}

fn never_load(_args: &ExecArtifactArgs) -> Loaded<String> {
    panic!("the artifact was loaded")
}

#[test]
fn nothing_is_built_in_a_new_cache() {
    let cache = ArtifactCache::new();
    assert!(!cache.is_built("/tmp/a.so"));
    assert!(!cache.is_built(""));
}

#[test]
fn a_run_on_a_path_that_was_never_built_is_a_resource_error() {
    let cache = ArtifactCache::new();
    let e = cache.exec_artifact(&exec_args("/tmp/never.so"), never_load).unwrap_err();
    assert_eq!(e, ServiceError { kind: ErrorKind::MissingArtifact, detail: "/tmp/never.so".to_string() });
    assert_eq!(e.category(), ErrorCategory::Resource);
    assert_eq!(e.message(), "artifact not found: /tmp/never.so");
}

#[test]
fn a_build_of_one_path_does_not_build_another() {
    let mut cache = ArtifactCache::new();
    built(&mut cache, "/tmp/a");
    assert!(cache.is_built("/tmp/a.so"));
    assert!(!cache.is_built("/tmp/a"));
    assert!(!cache.is_built("/tmp/b.so"));
    let e = cache.exec_artifact(&exec_args("/tmp/b.so"), never_load).unwrap_err();
    assert_eq!(e.kind, ErrorKind::MissingArtifact);
    assert_eq!(e.detail, "/tmp/b.so");
}

#[test]
fn a_build_returns_the_resolved_path() {
    let mut cache = ArtifactCache::new();
    let artifact = cache
        .build_program(&build_args("out/prog"), |args| {
            assert_eq!(args.output, "out/prog");
            assert_eq!(args.exec_args.k_filename_list, vec!["main.k"]);
            BuildOutcome::Built("/abs/out/prog.dylib".to_string())
        })
        .unwrap();
    assert_eq!(artifact, Artifact { path: "/abs/out/prog.dylib".to_string() });
    assert!(cache.is_built("/abs/out/prog.dylib"));
}

#[test]
fn an_artifact_runs_any_number_of_times() {
    let mut cache = ArtifactCache::new();
    let artifact = built(&mut cache, "/tmp/a");
    for n in 0..50 {
        let result = cache
            .exec_artifact(&exec_args(&artifact.path), |args| Loaded::Ran(format!("{} #{}", args.path, n)))
            .unwrap();
        assert_eq!(result, format!("/tmp/a.so #{}", n));
        assert!(cache.is_built("/tmp/a.so"));
    }
}

#[test]
fn a_build_that_cannot_write_fails_and_builds_nothing() {
    let mut cache = ArtifactCache::new();
    let e = cache.build_program(&build_args("/readonly/a"), |_| BuildOutcome::UnwritableOutput).unwrap_err();
    assert_eq!(e, ServiceError { kind: ErrorKind::UnwritableOutput, detail: "/readonly/a".to_string() });
    assert_eq!(e.category(), ErrorCategory::Resource);
    assert!(!cache.is_built("/readonly/a"));
    assert!(!cache.is_built("/readonly/a.so"));
}

#[test]
fn a_build_that_does_not_compile_fails_and_builds_nothing() {
    let mut cache = ArtifactCache::new();
    built(&mut cache, "/tmp/kept");
    let e = cache
        .build_program(&build_args("/tmp/a"), |_| BuildOutcome::CompileFailed("main.k:1:1 invalid syntax".to_string()))
        .unwrap_err();
    assert_eq!(e, ServiceError { kind: ErrorKind::CompileFailed, detail: "main.k:1:1 invalid syntax".to_string() });
    assert_eq!(e.category(), ErrorCategory::Diagnostic);
    assert!(!cache.is_built("/tmp/a.so"));
    assert!(cache.is_built("/tmp/kept.so"));
}

#[test]
fn a_removed_artifact_is_missing_again() {
    let mut cache = ArtifactCache::new();
    let artifact = built(&mut cache, "/tmp/a");
    built(&mut cache, "/tmp/b");

    // The path is gone from disk: the loader finds nothing.
    let e = cache.exec_artifact(&exec_args(&artifact.path), |_| Loaded::<String>::Missing).unwrap_err();
    assert_eq!(e, ServiceError { kind: ErrorKind::MissingArtifact, detail: "/tmp/a.so".to_string() });

    assert!(cache.forget("/tmp/a.so"));
    assert!(!cache.is_built("/tmp/a.so"));
    assert!(cache.is_built("/tmp/b.so"));
    let e = cache.exec_artifact(&exec_args("/tmp/a.so"), never_load).unwrap_err();
    assert_eq!(e.kind, ErrorKind::MissingArtifact);
    assert!(!cache.forget("/tmp/a.so"));
    assert!(!cache.forget("/tmp/never.so"));
}

#[test]
fn building_again_builds_once() {
    let mut cache = ArtifactCache::new();
    built(&mut cache, "/tmp/a");
    built(&mut cache, "/tmp/a");
    assert!(cache.is_built("/tmp/a.so"));
    assert!(cache.forget("/tmp/a.so"));
    assert!(!cache.is_built("/tmp/a.so"));
    built(&mut cache, "/tmp/a");
    assert!(cache.is_built("/tmp/a.so"));
}

#[test]
fn a_path_goes_from_unbuilt_to_built_and_back_only_by_removal() {
    let mut cache = ArtifactCache::new();
    assert_eq!(cache.state("/tmp/a.so"), ArtifactState::Unbuilt);
    let _ = cache.build_program(&build_args("/tmp/a"), |_| BuildOutcome::UnwritableOutput);
    assert_eq!(cache.state("/tmp/a.so"), ArtifactState::Unbuilt);
    built(&mut cache, "/tmp/a");
    assert_eq!(cache.state("/tmp/a.so"), ArtifactState::Built);
    assert_eq!(cache.state("/tmp/b.so"), ArtifactState::Unbuilt);
    for _ in 0..3 {
        cache.exec_artifact(&exec_args("/tmp/a.so"), |_| Loaded::Ran(())).unwrap();
        assert_eq!(cache.state("/tmp/a.so"), ArtifactState::Built);
    }
    let _ = cache.exec_artifact(&exec_args("/tmp/a.so"), |_| Loaded::<()>::Missing);
    assert_eq!(cache.state("/tmp/a.so"), ArtifactState::Built);
    cache.forget("/tmp/a.so");
    assert_eq!(cache.state("/tmp/a.so"), ArtifactState::Unbuilt);
}
