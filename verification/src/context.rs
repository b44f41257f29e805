//! Where a project keeps its definitions and mutations.

use vstd::prelude::*;
use vstd::string::*;
use crate::moment::{moment_name, moment_rfc3339, name_of_moment, parse_moment, parsed_rfc3339, rfc3339_of_moment};
use crate::mutation::{ProjectMutation, SourceFileMutation};
use crate::print::name_start;
use crate::script::{line_texts, lines_of, split_fields, split_lines, trim_text, trimmed, two_fields};

verus! {

/// What a saved mutation applies to.
#[derive(Debug, Clone)]
pub enum BlobMutationKind {
    Project,
    SourceFile,
}

/// The mutation that a metadata record describes.
#[derive(Debug, Clone)]
pub enum BlobMutationMetadataKind {
    Project(Box<ProjectMutation>),
    SourceFile(Box<SourceFileMutation>),
}

/// What is stored beside a saved mutation.
#[derive(Debug, Clone)]
pub struct BlobMutationMetadata {
    /// Seconds since the Unix epoch at which the draft was made.
    pub created_at: i64,
    pub kind: BlobMutationKind,
    pub mutation: BlobMutationMetadataKind,
}

impl BlobMutationMetadata {
    /// The record of a project mutation, dated as its draft.
    pub fn of_project(project_mutation: ProjectMutation) -> (metadata: Self)
        ensures
            metadata.created_at == project_mutation.parent.parent.created_at,
            metadata.kind is Project,
            metadata.mutation == BlobMutationMetadataKind::Project(Box::new(project_mutation)),
    {
        BlobMutationMetadata {
            created_at: project_mutation.parent.parent.created_at,
            kind: BlobMutationKind::Project,
            mutation: BlobMutationMetadataKind::Project(Box::new(project_mutation)),
        }
    }

    /// The record of a file mutation, dated as its draft.
    pub fn of_source_file(source_file_mutation: SourceFileMutation) -> (metadata: Self)
        ensures
            metadata.created_at == source_file_mutation.parent.created_at,
            metadata.kind is SourceFile,
            metadata.mutation == BlobMutationMetadataKind::SourceFile(Box::new(source_file_mutation)),
    {
        BlobMutationMetadata {
            created_at: source_file_mutation.parent.created_at,
            kind: BlobMutationKind::SourceFile,
            mutation: BlobMutationMetadataKind::SourceFile(Box::new(source_file_mutation)),
        }
    }
}

/// Which set of definitions a file holds.
#[derive(Debug)]
pub enum BlobDefinitionKind {
    Project,
    SelfReference,
}

impl BlobDefinitionKind {
    /// Name of the file that holds the definitions of this kind.
    pub open spec fn filename(self) -> Seq<char> {
        match self {
            BlobDefinitionKind::Project => "_project.md"@,
            BlobDefinitionKind::SelfReference => "_self.md"@,
        }
    }

    pub fn as_filename(&self) -> (name: &'static str)
        ensures
            name@ == self.filename(),
    {
        match self {
            BlobDefinitionKind::Project => "_project.md",
            BlobDefinitionKind::SelfReference => "_self.md",
        }
    }
}

/// Knows the layout of the `.blob` directory of one project.
pub struct BlobContextProcessor {
    pub project_path: String,
}

impl BlobContextProcessor {
    pub fn new(project_path: String) -> (ctx: Self)
        ensures
            ctx.project_path == project_path,
    {
        BlobContextProcessor { project_path }
    }

    /// What the tool says of itself, written once to the definitions of
    /// kind `SelfReference`.
    pub fn self_definitions() -> (lines: Vec<String>)
        ensures
            lines@.len() == 6,
            lines@[0]@ == "blob is a cli tool to modify the source code with natural language instructions"@,
            lines@[1]@ == "blob uses OpenAI GPT-3 to understand the instructions and execute the mutations in form of unix instructions or file editing"@,
            lines@[2]@ == "blob have two commands: `blob do` an `blob define`"@,
            lines@[3]@ == "`blob do \"YOUR_INSTRUCTION\"` is used to execute a mutation over the entire project file structure"@,
            lines@[4]@ == "`blob do -f <file> \"YOUR_INSTRUCTION\"` is used to execute a mutation over specific file"@,
            lines@[5]@ == "`blob define \"YOUR_DEFINITION\"` is used to define a concept and improve the context for blob"@,
    {
        let mut lines: Vec<String> = Vec::new();
        lines.push(String::from_str("blob is a cli tool to modify the source code with natural language instructions"));
        lines.push(String::from_str("blob uses OpenAI GPT-3 to understand the instructions and execute the mutations in form of unix instructions or file editing"));
        lines.push(String::from_str("blob have two commands: `blob do` an `blob define`"));
        lines.push(String::from_str("`blob do \"YOUR_INSTRUCTION\"` is used to execute a mutation over the entire project file structure"));
        lines.push(String::from_str("`blob do -f <file> \"YOUR_INSTRUCTION\"` is used to execute a mutation over specific file"));
        lines.push(String::from_str("`blob define \"YOUR_DEFINITION\"` is used to define a concept and improve the context for blob"));
        lines
    }

    /// Directory of the definition files.
    pub fn get_definitions_path(&self) -> (path: String)
        ensures
            path@ == self.project_path@ + "/.blob/.definitions"@,
    {
        let mut path = self.project_path.clone();
        path.append("/.blob/.definitions");
        path
    }

    /// Directory of the saved mutations.
    pub fn get_mutations_path(&self) -> (path: String)
        ensures
            path@ == self.project_path@ + "/.blob/.mutations"@,
    {
        let mut path = self.project_path.clone();
        path.append("/.blob/.mutations");
        path
    }

    /// The file that holds the definitions of `kind`.
    pub fn definitions_file(&self, kind: &BlobDefinitionKind) -> (path: String)
        ensures
            path@ == self.project_path@ + "/.blob/.definitions"@ + "/"@ + kind.filename(),
    {
        let mut path = self.get_definitions_path();
        path.append("/");
        path.append(kind.as_filename());
        path
    }

    /// The directory of the mutation that was created at the moment written
    /// as `context_name`.
    pub fn mutation_path(&self, context_name: &str) -> (path: String)
        ensures
            path@ == self.project_path@ + "/.blob/.mutations"@ + "/"@ + context_name@,
    {
        let mut path = self.get_mutations_path();
        path.append("/");
        path.append(context_name);
        path
    }
}

/// A definition with the moment it was made, in seconds since the Unix
/// epoch.
#[derive(Debug, Clone)]
pub struct BlobDefinition {
    pub created_at: i64,
    pub definition: String,
}

/// A definition as contracts see it.
pub struct DefinitionModel {
    pub created_at: i64,
    pub definition: Seq<char>,
}

impl View for BlobDefinition {
    type V = DefinitionModel;

    open spec fn view(&self) -> DefinitionModel {
        DefinitionModel { created_at: self.created_at, definition: self.definition@ }
    }
}

/// The directories of a path: what stands before its last `/`, and nothing
/// if it has none.
pub open spec fn directories_of(path: Seq<char>) -> Seq<char> {
    let start = name_start(path, path.len() as int);
    if start <= 0 {
        Seq::empty()
    } else {
        path.subrange(0, start - 1)
    }
}

/// The line that stores a definition: the moment in RFC 3339 form, a comma
/// and a blank, the definition, and a newline.
pub open spec fn definition_line_of(created_at: i64, definition: Seq<char>) -> Option<Seq<char>> {
    match moment_rfc3339(created_at) {
        Some(stamp) => Some(stamp + ", "@ + definition + "\n"@),
        None => None,
    }
}

/// The definition that a stored line holds: a line of exactly two fields
/// whose first, trimmed, is a moment in RFC 3339 form gives the moment and
/// the trimmed second field. Any other line holds none.
pub open spec fn definition_in(line: Seq<char>) -> Option<DefinitionModel> {
    match two_fields(line) {
        Some((left, right)) => match parsed_rfc3339(trimmed(left)) {
            Some(created_at) => Some(DefinitionModel { created_at, definition: trimmed(right) }),
            None => None,
        },
        None => None,
    }
}

/// The definitions held by the first `n` of `lines`, in order.
pub open spec fn definitions_in(lines: Seq<Seq<char>>, n: int) -> Seq<DefinitionModel>
    decreases n,
{
    if n <= 0 {
        Seq::empty()
    } else {
        match definition_in(lines[n - 1]) {
            Some(def) => definitions_in(lines, n - 1).push(def),
            None => definitions_in(lines, n - 1),
        }
    }
}

/// The views of `definitions`, in order.
pub open spec fn definition_models(definitions: Seq<BlobDefinition>) -> Seq<DefinitionModel> {
    Seq::new(definitions.len(), |i: int| definitions[i]@)
}

impl BlobContextProcessor {
    /// The directory of a project mutation, named after the moment its
    /// draft was made; `None` if that moment cannot be written as a date.
    pub fn get_project_mutation_path(&self, project_mutation: &ProjectMutation) -> (path: Option<String>)
        ensures
            match moment_name(project_mutation.parent.parent.created_at) {
                Some(name) => path is Some && path->Some_0@ == self.project_path@ + "/.blob/.mutations"@
                    + "/"@ + name,
                None => path is None,
            },
    {
        match name_of_moment(project_mutation.parent.parent.created_at) {
            Some(name) => Some(self.mutation_path(name.as_str())),
            None => None,
        }
    }

    /// The directory of a file mutation, named after the moment its draft
    /// was made; `None` if that moment cannot be written as a date.
    pub fn get_source_file_mutation_path(&self, source_file_mutation: &SourceFileMutation) -> (path: Option<String>)
        ensures
            match moment_name(source_file_mutation.parent.created_at) {
                Some(name) => path is Some && path->Some_0@ == self.project_path@ + "/.blob/.mutations"@
                    + "/"@ + name,
                None => path is None,
            },
    {
        match name_of_moment(source_file_mutation.parent.created_at) {
            Some(name) => Some(self.mutation_path(name.as_str())),
            None => None,
        }
    }

    /// The script of a mutation stored under `context_path`.
    pub fn script_path(context_path: &str) -> (path: String)
        ensures
            path@ == context_path@ + "/script.sh"@,
    {
        let mut path = String::from_str(context_path);
        path.append("/script.sh");
        path
    }

    /// The metadata of a mutation stored under `context_path`.
    pub fn metadata_path(context_path: &str) -> (path: String)
        ensures
            path@ == context_path@ + "/metadata.json"@,
    {
        let mut path = String::from_str(context_path);
        path.append("/metadata.json");
        path
    }

    /// Where the new content of `file_path` is stored under `context_path`,
    /// and the directory that has to exist for it.
    pub fn mutated_file_paths(context_path: &str, file_path: &str) -> (paths: (String, String))
        ensures
            paths.0@ == context_path@ + "/"@ + file_path@,
            paths.1@ == context_path@ + "/"@ + directories_of(file_path@),
    {
        let mut file = String::from_str(context_path);
        file.append("/");
        file.append(file_path);
        let len: usize = file_path.unicode_len();
        let mut start: usize = 0;
        let mut i: usize = 0;
        while i < len
            invariant
                len == file_path@.len(),
                i <= len,
                start == name_start(file_path@, i as int),
                start <= i,
            decreases len - i,
        {
            if file_path.get_char(i) == '/' {
                start = i + 1;
            }
            i += 1;
        }
        let mut directory = String::from_str(context_path);
        directory.append("/");
        if start > 0 {
            directory.append(file_path.substring_char(0, start - 1));
        } else {
            assert(directory@ + Seq::<char>::empty() =~= directory@);
        }
        (file, directory)
    }

    /// The definitions for the given texts, all made at the moment
    /// `created_at`.
    pub fn stamped(definitions: Vec<String>, created_at: i64) -> (stamped: Vec<BlobDefinition>)
        ensures
            stamped@.len() == definitions@.len(),
            forall|i: int| 0 <= i < stamped@.len() ==> (#[trigger] stamped@[i]).created_at == created_at
                && stamped@[i].definition@ == definitions@[i]@,
    {
        let mut stamped: Vec<BlobDefinition> = Vec::new();
        let mut i: usize = 0;
        while i < definitions.len()
            invariant
                i <= definitions@.len(),
                stamped@.len() == i,
                forall|k: int| 0 <= k < i ==> (#[trigger] stamped@[k]).created_at == created_at
                    && stamped@[k].definition@ == definitions@[k]@,
            decreases definitions@.len() - i,
        {
            stamped.push(BlobDefinition { created_at, definition: definitions[i].clone() });
            i += 1;
        }
        stamped
    }

    /// The line that stores `definition`; `None` if its moment cannot be
    /// written as a date.
    pub fn definition_line(definition: &BlobDefinition) -> (line: Option<String>)
        ensures
            match definition_line_of(definition.created_at, definition.definition@) {
                Some(text) => line is Some && line->Some_0@ == text,
                None => line is None,
            },
    {
        match rfc3339_of_moment(definition.created_at) {
            Some(stamp) => {
                let mut line = stamp;
                line.append(", ");
                line.append(definition.definition.as_str());
                line.append("\n");
                Some(line)
            },
            None => None,
        }
    }

    /// Reads one stored line.
    pub fn parse_definition(line: &str) -> (found: Option<BlobDefinition>)
        ensures
            match found {
                Some(def) => definition_in(line@) == Some(def@),
                None => definition_in(line@) is None,
            },
    {
        match split_fields(line) {
            Some((left, right)) => {
                let stamp = trim_text(left.as_str());
                match parse_moment(stamp.as_str()) {
                    Some(created_at) => Some(BlobDefinition { created_at, definition: trim_text(right.as_str()) }),
                    None => None,
                }
            },
            None => None,
        }
    }

    /// The definitions stored in the content of a definitions file, in the
    /// order of its lines. Lines that hold no definition are passed over.
    pub fn parse_definitions(contents: &str) -> (definitions: Vec<BlobDefinition>)
        ensures
            definition_models(definitions@) == definitions_in(lines_of(contents@), lines_of(contents@).len() as int),
    {
        let lines = split_lines(contents);
        let mut definitions: Vec<BlobDefinition> = Vec::new();
        let mut i: usize = 0;
        assert(definition_models(definitions@) =~= definitions_in(line_texts(lines@), 0));
        while i < lines.len()
            invariant
                i <= lines@.len(),
                line_texts(lines@) == lines_of(contents@),
                definition_models(definitions@) == definitions_in(line_texts(lines@), i as int),
            decreases lines@.len() - i,
        {
            let ghost had = definitions@;
            assert(line_texts(lines@)[i as int] == lines@[i as int]@);
            match Self::parse_definition(lines[i].as_str()) {
                Some(def) => {
                    definitions.push(def);
                    assert(definition_models(definitions@) =~= definition_models(had).push(def@));
                },
                None => {},
            }
            i += 1;
        }
        definitions
    }
}

} // verus!
