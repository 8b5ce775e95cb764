//! The method registry: the fixed set of operations a host can call, and
//! the names under which they are reached.

use vstd::prelude::*;
use crate::text::str_eq;

verus! {

/// One operation of the service.
#[derive(Clone, Copy, Debug, PartialEq, Eq, Structural)]
pub enum Method {
    ExecProgram,
    BuildProgram,
    ExecArtifact,
    OverrideFile,
    GetFullSchemaType,
    GetSchemaTypeMapping,
    FormatCode,
    FormatPath,
    LintPath,
    ValidateCode,
    LoadSettingsFiles,
    Rename,
    RenameCode,
    ListOptions,
    ListVariables,
    ParseFile,
    Test,
}

/// The shape of a request or of a response: which message it is.
#[derive(Clone, Copy, Debug, PartialEq, Eq, Structural)]
pub enum Shape {
    ExecProgramArgs,
    ExecProgramResult,
    BuildProgramArgs,
    BuildProgramResult,
    ExecArtifactArgs,
    OverrideFileArgs,
    OverrideFileResult,
    GetFullSchemaTypeArgs,
    GetSchemaTypeResult,
    GetSchemaTypeMappingArgs,
    GetSchemaTypeMappingResult,
    FormatCodeArgs,
    FormatCodeResult,
    FormatPathArgs,
    FormatPathResult,
    LintPathArgs,
    LintPathResult,
    ValidateCodeArgs,
    ValidateCodeResult,
    LoadSettingsFilesArgs,
    LoadSettingsFilesResult,
    RenameArgs,
    RenameResult,
    RenameCodeArgs,
    RenameCodeResult,
    ParseProgramArgs,
    ListOptionsResult,
    ListVariablesArgs,
    ListVariablesResult,
    ParseFileArgs,
    ParseFileResult,
    TestArgs,
    TestResult,
}

/// What an operation does to the files of the host.
#[derive(Clone, Copy, Debug, PartialEq, Eq, Structural)]
pub enum Effect {
    /// It writes nothing.
    ReadOnly,
    /// It writes the artifact it builds and nothing else.
    WritesArtifact,
    /// It rewrites source files in place.
    RewritesSources,
}

impl Method {
    /// The shape of the request of this operation.
    pub open spec fn spec_request_shape(self) -> Shape {
        match self {
            Method::ExecProgram => Shape::ExecProgramArgs,
            Method::BuildProgram => Shape::BuildProgramArgs,
            Method::ExecArtifact => Shape::ExecArtifactArgs,
            Method::OverrideFile => Shape::OverrideFileArgs,
            Method::GetFullSchemaType => Shape::GetFullSchemaTypeArgs,
            Method::GetSchemaTypeMapping => Shape::GetSchemaTypeMappingArgs,
            Method::FormatCode => Shape::FormatCodeArgs,
            Method::FormatPath => Shape::FormatPathArgs,
            Method::LintPath => Shape::LintPathArgs,
            Method::ValidateCode => Shape::ValidateCodeArgs,
            Method::LoadSettingsFiles => Shape::LoadSettingsFilesArgs,
            Method::Rename => Shape::RenameArgs,
            Method::RenameCode => Shape::RenameCodeArgs,
            Method::ListOptions => Shape::ParseProgramArgs,
            Method::ListVariables => Shape::ListVariablesArgs,
            Method::ParseFile => Shape::ParseFileArgs,
            Method::Test => Shape::TestArgs,
        }
    }

    /// The shape of the response of this operation. Running an artifact
    /// answers in the shape of running a program.
    pub open spec fn spec_response_shape(self) -> Shape {
        match self {
            Method::ExecProgram => Shape::ExecProgramResult,
            Method::BuildProgram => Shape::BuildProgramResult,
            Method::ExecArtifact => Shape::ExecProgramResult,
            Method::OverrideFile => Shape::OverrideFileResult,
            Method::GetFullSchemaType => Shape::GetSchemaTypeResult,
            Method::GetSchemaTypeMapping => Shape::GetSchemaTypeMappingResult,
            Method::FormatCode => Shape::FormatCodeResult,
            Method::FormatPath => Shape::FormatPathResult,
            Method::LintPath => Shape::LintPathResult,
            Method::ValidateCode => Shape::ValidateCodeResult,
            Method::LoadSettingsFiles => Shape::LoadSettingsFilesResult,
            Method::Rename => Shape::RenameResult,
            Method::RenameCode => Shape::RenameCodeResult,
            Method::ListOptions => Shape::ListOptionsResult,
            Method::ListVariables => Shape::ListVariablesResult,
            Method::ParseFile => Shape::ParseFileResult,
            Method::Test => Shape::TestResult,
        }
    }

    /// What this operation does to the files of the host.
    pub open spec fn spec_effect(self) -> Effect {
        match self {
            Method::OverrideFile | Method::Rename | Method::RenameCode => Effect::RewritesSources,
            Method::BuildProgram => Effect::WritesArtifact,
            _ => Effect::ReadOnly,
        }
    }

    /// The shape of the request of this operation.
    pub fn request_shape(self) -> (shape: Shape)
        ensures
            shape == self.spec_request_shape(),
    {
        match self {
            Method::ExecProgram => Shape::ExecProgramArgs,
            Method::BuildProgram => Shape::BuildProgramArgs,
            Method::ExecArtifact => Shape::ExecArtifactArgs,
            Method::OverrideFile => Shape::OverrideFileArgs,
            Method::GetFullSchemaType => Shape::GetFullSchemaTypeArgs,
            Method::GetSchemaTypeMapping => Shape::GetSchemaTypeMappingArgs,
            Method::FormatCode => Shape::FormatCodeArgs,
            Method::FormatPath => Shape::FormatPathArgs,
            Method::LintPath => Shape::LintPathArgs,
            Method::ValidateCode => Shape::ValidateCodeArgs,
            Method::LoadSettingsFiles => Shape::LoadSettingsFilesArgs,
            Method::Rename => Shape::RenameArgs,
            Method::RenameCode => Shape::RenameCodeArgs,
            Method::ListOptions => Shape::ParseProgramArgs,
            Method::ListVariables => Shape::ListVariablesArgs,
            Method::ParseFile => Shape::ParseFileArgs,
            Method::Test => Shape::TestArgs,
        }
    }

    /// The shape of the response of this operation.
    pub fn response_shape(self) -> (shape: Shape)
        ensures
            shape == self.spec_response_shape(),
    {
        match self {
            Method::ExecProgram => Shape::ExecProgramResult,
            Method::BuildProgram => Shape::BuildProgramResult,
            Method::ExecArtifact => Shape::ExecProgramResult,
            Method::OverrideFile => Shape::OverrideFileResult,
            Method::GetFullSchemaType => Shape::GetSchemaTypeResult,
            Method::GetSchemaTypeMapping => Shape::GetSchemaTypeMappingResult,
            Method::FormatCode => Shape::FormatCodeResult,
            Method::FormatPath => Shape::FormatPathResult,
            Method::LintPath => Shape::LintPathResult,
            Method::ValidateCode => Shape::ValidateCodeResult,
            Method::LoadSettingsFiles => Shape::LoadSettingsFilesResult,
            Method::Rename => Shape::RenameResult,
            Method::RenameCode => Shape::RenameCodeResult,
            Method::ListOptions => Shape::ListOptionsResult,
            Method::ListVariables => Shape::ListVariablesResult,
            Method::ParseFile => Shape::ParseFileResult,
            Method::Test => Shape::TestResult,
        }
    }

    /// What this operation does to the files of the host.
    pub fn effect(self) -> (effect: Effect)
        ensures
            effect == self.spec_effect(),
    {
        match self {
            Method::OverrideFile | Method::Rename | Method::RenameCode => Effect::RewritesSources,
            Method::BuildProgram => Effect::WritesArtifact,
            _ => Effect::ReadOnly,
        }
    }

    /// The name under which a host reaches this operation.
    pub open spec fn spec_name(self) -> Seq<char> {
        match self {
            Method::ExecProgram => "KclvmService.ExecProgram"@,
            Method::BuildProgram => "KclvmService.BuildProgram"@,
            Method::ExecArtifact => "KclvmService.ExecArtifact"@,
            Method::OverrideFile => "KclvmService.OverrideFile"@,
            Method::GetFullSchemaType => "KclvmService.GetFullSchemaType"@,
            Method::GetSchemaTypeMapping => "KclvmService.GetSchemaTypeMapping"@,
            Method::FormatCode => "KclvmService.FormatCode"@,
            Method::FormatPath => "KclvmService.FormatPath"@,
            Method::LintPath => "KclvmService.LintPath"@,
            Method::ValidateCode => "KclvmService.ValidateCode"@,
            Method::LoadSettingsFiles => "KclvmService.LoadSettingsFiles"@,
            Method::Rename => "KclvmService.Rename"@,
            Method::RenameCode => "KclvmService.RenameCode"@,
            Method::ListOptions => "KclvmService.ListOptions"@,
            Method::ListVariables => "KclvmService.ListVariables"@,
            Method::ParseFile => "KclvmService.ParseFile"@,
            Method::Test => "KclvmService.Test"@,
        }
    }

    /// Whether `name` is the name of some operation.
    pub open spec fn is_registered(name: Seq<char>) -> bool {
        exists|m: Method| #[trigger] m.spec_name() == name
    }

    /// The operation that `name` names, where it names one.
    pub open spec fn spec_lookup(name: Seq<char>) -> Method {
        choose|m: Method| #[trigger] m.spec_name() == name
    }

    /// The name under which a host reaches this operation.
    pub fn name(self) -> (s: &'static str)
        ensures
            s@ == self.spec_name(),
    {
        match self {
            Method::ExecProgram => "KclvmService.ExecProgram",
            Method::BuildProgram => "KclvmService.BuildProgram",
            Method::ExecArtifact => "KclvmService.ExecArtifact",
            Method::OverrideFile => "KclvmService.OverrideFile",
            Method::GetFullSchemaType => "KclvmService.GetFullSchemaType",
            Method::GetSchemaTypeMapping => "KclvmService.GetSchemaTypeMapping",
            Method::FormatCode => "KclvmService.FormatCode",
            Method::FormatPath => "KclvmService.FormatPath",
            Method::LintPath => "KclvmService.LintPath",
            Method::ValidateCode => "KclvmService.ValidateCode",
            Method::LoadSettingsFiles => "KclvmService.LoadSettingsFiles",
            Method::Rename => "KclvmService.Rename",
            Method::RenameCode => "KclvmService.RenameCode",
            Method::ListOptions => "KclvmService.ListOptions",
            Method::ListVariables => "KclvmService.ListVariables",
            Method::ParseFile => "KclvmService.ParseFile",
            Method::Test => "KclvmService.Test",
        }
    }

    /// Every operation, in registry order.
    pub fn all() -> (ms: Vec<Method>)
        ensures
            ms@ == Self::spec_all(),
    {
        let ms = vec![
            Method::ExecProgram,
            Method::BuildProgram,
            Method::ExecArtifact,
            Method::OverrideFile,
            Method::GetFullSchemaType,
            Method::GetSchemaTypeMapping,
            Method::FormatCode,
            Method::FormatPath,
            Method::LintPath,
            Method::ValidateCode,
            Method::LoadSettingsFiles,
            Method::Rename,
            Method::RenameCode,
            Method::ListOptions,
            Method::ListVariables,
            Method::ParseFile,
            Method::Test,
        ];
        assert(ms@ =~= Self::spec_all());
        ms
    }

    /// Every operation, in registry order.
    pub open spec fn spec_all() -> Seq<Method> {
        seq![
            Method::ExecProgram,
            Method::BuildProgram,
            Method::ExecArtifact,
            Method::OverrideFile,
            Method::GetFullSchemaType,
            Method::GetSchemaTypeMapping,
            Method::FormatCode,
            Method::FormatPath,
            Method::LintPath,
            Method::ValidateCode,
            Method::LoadSettingsFiles,
            Method::Rename,
            Method::RenameCode,
            Method::ListOptions,
            Method::ListVariables,
            Method::ParseFile,
            Method::Test,
        ]
    }

    /// Looks an operation up by its name. Names are matched exactly.
    pub fn from_name(name: &str) -> (found: Option<Method>)
        ensures
            match found {
                Some(m) => m.spec_name() == name@,
                None => !Self::is_registered(name@),
            },
    {
        let all = Self::all();
        let mut i: usize = 0;
        while i < all.len()
            invariant
                all@ == Self::spec_all(),
                i <= all.len(),
                forall|j: int| 0 <= j < i ==> (#[trigger] all@[j]).spec_name() != name@,
            decreases all.len() - i,
        {
            let m = all[i];
            if str_eq(m.name(), name) {
                return Some(m);
            }
            i += 1;
        }
        proof {
            assert forall|m: Method| m.spec_name() != name@ by {
                lemma_all_is_complete(m);
            }
        }
        None
    }
}

/// Every operation occurs in the registry listing.
pub proof fn lemma_all_is_complete(m: Method)
    ensures
        Method::spec_all().contains(m),
{
    let all = Method::spec_all();
    match m {
        Method::ExecProgram => assert(all[0] == m),
        Method::BuildProgram => assert(all[1] == m),
        Method::ExecArtifact => assert(all[2] == m),
        Method::OverrideFile => assert(all[3] == m),
        Method::GetFullSchemaType => assert(all[4] == m),
        Method::GetSchemaTypeMapping => assert(all[5] == m),
        Method::FormatCode => assert(all[6] == m),
        Method::FormatPath => assert(all[7] == m),
        Method::LintPath => assert(all[8] == m),
        Method::ValidateCode => assert(all[9] == m),
        Method::LoadSettingsFiles => assert(all[10] == m),
        Method::Rename => assert(all[11] == m),
        Method::RenameCode => assert(all[12] == m),
        Method::ListOptions => assert(all[13] == m),
        Method::ListVariables => assert(all[14] == m),
        Method::ParseFile => assert(all[15] == m),
        Method::Test => assert(all[16] == m),
    }
}

/// No two operations share a name.
pub proof fn lemma_names_are_distinct(a: Method, b: Method)
    ensures
        a.spec_name() == b.spec_name() <==> a == b,
{
    reveal_strlit("KclvmService.ExecProgram");
    reveal_strlit("KclvmService.BuildProgram");
    reveal_strlit("KclvmService.ExecArtifact");
    reveal_strlit("KclvmService.OverrideFile");
    reveal_strlit("KclvmService.GetFullSchemaType");
    reveal_strlit("KclvmService.GetSchemaTypeMapping");
    reveal_strlit("KclvmService.FormatCode");
    reveal_strlit("KclvmService.FormatPath");
    reveal_strlit("KclvmService.LintPath");
    reveal_strlit("KclvmService.ValidateCode");
    reveal_strlit("KclvmService.LoadSettingsFiles");
    reveal_strlit("KclvmService.Rename");
    reveal_strlit("KclvmService.RenameCode");
    reveal_strlit("KclvmService.ListOptions");
    reveal_strlit("KclvmService.ListVariables");
    reveal_strlit("KclvmService.ParseFile");
    reveal_strlit("KclvmService.Test");
    if a.spec_name() == b.spec_name() {
        // Length, first letter of the operation and one later letter tell
        // all names apart.
        assert(a.spec_name().len() == b.spec_name().len());
        assert(a.spec_name()[13] == b.spec_name()[13]);
        assert(a.spec_name()[19] == b.spec_name()[19]);
    }
}

/// Looking up the name of an operation finds that operation, and a lookup
/// that finds an operation was given exactly its name.
pub proof fn lemma_lookup_round_trip(m: Method, name: Seq<char>)
    ensures
        Method::is_registered(m.spec_name()),
        Method::is_registered(name) ==> (m.spec_name() == name <==> m == Method::spec_lookup(name)),
{
    if Method::is_registered(name) {
        let found = Method::spec_lookup(name);
        lemma_names_are_distinct(m, found);
    }
}

} // verus!
