use kclvm_api::method::{Effect, Method, Shape};

#[test]
fn every_operation_is_found_by_its_name() {
    let all = Method::all();
    assert_eq!(all.len(), 17);
    for m in all {
        assert_eq!(Method::from_name(m.name()), Some(m));
        assert!(m.name().starts_with("KclvmService."));
    }
}

#[test]
fn the_names_are_the_ones_hosts_call() {
    assert_eq!(Method::ExecProgram.name(), "KclvmService.ExecProgram");
    assert_eq!(Method::BuildProgram.name(), "KclvmService.BuildProgram");
    assert_eq!(Method::ExecArtifact.name(), "KclvmService.ExecArtifact");
    assert_eq!(Method::OverrideFile.name(), "KclvmService.OverrideFile");
    assert_eq!(Method::GetFullSchemaType.name(), "KclvmService.GetFullSchemaType");
    assert_eq!(Method::GetSchemaTypeMapping.name(), "KclvmService.GetSchemaTypeMapping");
    assert_eq!(Method::FormatCode.name(), "KclvmService.FormatCode");
    assert_eq!(Method::FormatPath.name(), "KclvmService.FormatPath");
    assert_eq!(Method::LintPath.name(), "KclvmService.LintPath");
    assert_eq!(Method::ValidateCode.name(), "KclvmService.ValidateCode");
    assert_eq!(Method::LoadSettingsFiles.name(), "KclvmService.LoadSettingsFiles");
    assert_eq!(Method::Rename.name(), "KclvmService.Rename");
    assert_eq!(Method::RenameCode.name(), "KclvmService.RenameCode");
    assert_eq!(Method::ListOptions.name(), "KclvmService.ListOptions");
    assert_eq!(Method::ListVariables.name(), "KclvmService.ListVariables");
    assert_eq!(Method::ParseFile.name(), "KclvmService.ParseFile");
    assert_eq!(Method::Test.name(), "KclvmService.Test");
}

#[test]
fn no_two_operations_share_a_name() {
    let all = Method::all();
    for (i, a) in all.iter().enumerate() {
        for (j, b) in all.iter().enumerate() {
            assert_eq!(a.name() == b.name(), i == j);
        }
    }
}

#[test]
fn names_are_matched_exactly() {
    assert_eq!(Method::from_name("KclvmService.Rename"), Some(Method::Rename));
    assert_eq!(Method::from_name("KclvmService.RenameCode"), Some(Method::RenameCode));
    assert_eq!(Method::from_name("KclvmService.RenameCod"), None);
    assert_eq!(Method::from_name("KclvmService.rename"), None);
    assert_eq!(Method::from_name("Rename"), None);
    assert_eq!(Method::from_name(""), None);
    assert_eq!(Method::from_name("KclvmService.Test\0"), None);
    assert_eq!(Method::from_name(" KclvmService.Test"), None);
}

#[test]
fn only_three_operations_rewrite_sources_and_one_writes_an_artifact() {
    for m in Method::all() {
        let expected = match m {
            Method::OverrideFile | Method::Rename | Method::RenameCode => Effect::RewritesSources,
            Method::BuildProgram => Effect::WritesArtifact,
            _ => Effect::ReadOnly,
        };
        assert_eq!(m.effect(), expected);
    }
}

#[test]
fn running_an_artifact_answers_in_the_shape_of_running_a_program() {
    assert_eq!(Method::ExecArtifact.request_shape(), Shape::ExecArtifactArgs);
    assert_eq!(Method::ExecArtifact.response_shape(), Method::ExecProgram.response_shape());
    assert_eq!(Method::BuildProgram.request_shape(), Shape::BuildProgramArgs);
    assert_eq!(Method::BuildProgram.response_shape(), Shape::BuildProgramResult);
    assert_eq!(Method::Rename.request_shape(), Shape::RenameArgs);
    assert_eq!(Method::Rename.response_shape(), Shape::RenameResult);
    assert_eq!(Method::ListOptions.request_shape(), Shape::ParseProgramArgs);
}
