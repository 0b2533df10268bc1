//! Why a configuration could not be loaded.

use vstd::prelude::*;

verus! {

/// A place in the document that the schema knows.
#[derive(Debug, Clone, Copy, PartialEq, Eq)]
pub enum Field {
    /// The document as a whole.
    Document,
    StateDir,
    Atcoder,
    Enable,
    UserId,
    OutDir,
    OutFormat,
    UseIndex,
    ArchiveTargets,
    RequestIntervalMs,
    Git,
    Mode,
    ChunkSize,
    PerFileTemplate,
    PerChunkTemplate,
    OnceTemplate,
    Languages,
    /// One member of `languages`.
    Rule,
    RuleMatch,
    RuleId,
    RuleExt,
}

/// What is wrong at a place.
#[derive(Debug, Clone, Copy, PartialEq, Eq)]
pub enum Flaw {
    /// A key without a default is absent.
    Missing,
    /// The value is of another TOML type than the schema asks for.
    WrongType,
    /// The text is none of the spellings of the field's variants.
    UnknownTag,
    /// The number is negative or too large for the field.
    OutOfRange,
}

/// The first place at which a document breaks the schema, and how.
#[derive(Debug, Clone, Copy, PartialEq, Eq)]
pub struct SchemaError {
    pub field: Field,
    pub flaw: Flaw,
}

/// Why a text is no configuration.
#[derive(Debug, Clone, PartialEq, Eq)]
pub enum ParseFault {
    /// The text is no TOML document; the parser's message is kept.
    Syntax(String),
    /// The document is TOML and breaks the schema.
    Schema(SchemaError),
}

/// Why loading failed.
#[derive(Debug, Clone, PartialEq, Eq)]
pub enum ConfigError {
    /// The file could not be read; the reason is kept.
    Io(String),
    /// The file was read and holds no configuration.
    Parse(ParseFault),
}

/// Why start-up failed.
#[derive(Debug, Clone, PartialEq, Eq)]
pub enum BootstrapError {
    /// There is no configuration.
    Config(ConfigError),
    /// The configuration was loaded and its state directory could not be
    /// created; the path that was tried and the reason are kept.
    StateDir { path: String, reason: String },
}

/// The failure of `field` by `flaw`.
pub open spec fn fail<T>(field: Field, flaw: Flaw) -> Result<T, SchemaError> {
    Err(SchemaError { field, flaw })
}

impl Field {
    /// Where the field stands in a document, from the root, with dots
    /// between the tables.
    pub open spec fn path(self) -> Seq<char> {
        match self {
            Field::Document => "the document"@,
            Field::StateDir => "state_dir"@,
            Field::Atcoder => "atcoder"@,
            Field::Enable => "atcoder.enable"@,
            Field::UserId => "atcoder.user_id"@,
            Field::OutDir => "atcoder.out_dir"@,
            Field::OutFormat => "atcoder.out_format"@,
            Field::UseIndex => "atcoder.use_index"@,
            Field::ArchiveTargets => "atcoder.archive_targets"@,
            Field::RequestIntervalMs => "atcoder.request_interval_ms"@,
            Field::Git => "atcoder.git"@,
            Field::Mode => "atcoder.git.mode"@,
            Field::ChunkSize => "atcoder.git.chunk_size"@,
            Field::PerFileTemplate => "atcoder.git.per_file_template"@,
            Field::PerChunkTemplate => "atcoder.git.per_chunk_template"@,
            Field::OnceTemplate => "atcoder.git.once_template"@,
            Field::Languages => "atcoder.languages"@,
            Field::Rule => "a member of atcoder.languages"@,
            Field::RuleMatch => "match in atcoder.languages"@,
            Field::RuleId => "id in atcoder.languages"@,
            Field::RuleExt => "ext in atcoder.languages"@,
        }
    }

    /// The field's place in a document, as text.
    pub fn location(&self) -> (r: &'static str)
        ensures
            r@ == self.path(),
    {
        match self {
            Field::Document => "the document",
            Field::StateDir => "state_dir",
            Field::Atcoder => "atcoder",
            Field::Enable => "atcoder.enable",
            Field::UserId => "atcoder.user_id",
            Field::OutDir => "atcoder.out_dir",
            Field::OutFormat => "atcoder.out_format",
            Field::UseIndex => "atcoder.use_index",
            Field::ArchiveTargets => "atcoder.archive_targets",
            Field::RequestIntervalMs => "atcoder.request_interval_ms",
            Field::Git => "atcoder.git",
            Field::Mode => "atcoder.git.mode",
            Field::ChunkSize => "atcoder.git.chunk_size",
            Field::PerFileTemplate => "atcoder.git.per_file_template",
            Field::PerChunkTemplate => "atcoder.git.per_chunk_template",
            Field::OnceTemplate => "atcoder.git.once_template",
            Field::Languages => "atcoder.languages",
            Field::Rule => "a member of atcoder.languages",
            Field::RuleMatch => "match in atcoder.languages",
            Field::RuleId => "id in atcoder.languages",
            Field::RuleExt => "ext in atcoder.languages",
        }
    }
}

impl Flaw {
    /// What is said of a place with this flaw.
    pub open spec fn wording(self) -> Seq<char> {
        match self {
            Flaw::Missing => " is missing"@,
            Flaw::WrongType => " has the wrong type"@,
            Flaw::UnknownTag => " is none of the values it can take"@,
            Flaw::OutOfRange => " is out of range"@,
        }
    }

    /// The flaw in words, to stand behind the name of a place.
    pub fn words(&self) -> (r: &'static str)
        ensures
            r@ == self.wording(),
    {
        match self {
            Flaw::Missing => " is missing",
            Flaw::WrongType => " has the wrong type",
            Flaw::UnknownTag => " is none of the values it can take",
            Flaw::OutOfRange => " is out of range",
        }
    }
}

impl SchemaError {
    /// The fault in words: the place, then what is wrong there.
    pub open spec fn text(self) -> Seq<char> {
        self.field.path() + self.flaw.wording()
    }

    /// The fault in words.
    pub fn describe(&self) -> (r: String)
        ensures
            r@ == self.text(),
    {
        self.field.location().to_owned().concat(self.flaw.words())
    }
}

impl ParseFault {
    /// The fault in words: the parser's message, or the schema fault.
    pub open spec fn text(self) -> Seq<char> {
        match self {
            ParseFault::Syntax(message) => message@,
            ParseFault::Schema(fault) => fault.text(),
        }
    }

    /// The fault in words.
    pub fn describe(&self) -> (r: String)
        ensures
            r@ == self.text(),
    {
        match self {
            ParseFault::Syntax(message) => message.clone(),
            ParseFault::Schema(fault) => fault.describe(),
        }
    }
}

impl ConfigError {
    /// The error in words: what kind it is, then the cause as it was given.
    pub open spec fn text(self) -> Seq<char> {
        match self {
            ConfigError::Io(reason) => "cannot read the configuration: "@ + reason@,
            ConfigError::Parse(fault) => "invalid configuration: "@ + fault.text(),
        }
    }

    /// The error in words.
    pub fn describe(&self) -> (r: String)
        ensures
            r@ == self.text(),
    {
        match self {
            ConfigError::Io(reason) => "cannot read the configuration: ".to_owned().concat(
                reason.as_str(),
            ),
            ConfigError::Parse(fault) => {
                let cause = fault.describe();
                "invalid configuration: ".to_owned().concat(cause.as_str())
            },
        }
    }
}

impl BootstrapError {
    /// The error in words; for the state directory, the path that was tried
    /// and the cause as it was given.
    pub open spec fn text(self) -> Seq<char> {
        match self {
            BootstrapError::Config(error) => error.text(),
            BootstrapError::StateDir { path, reason } => "cannot create the state directory "@
                + path@ + ": "@ + reason@,
        }
    }

    /// The error in words.
    pub fn describe(&self) -> (r: String)
        ensures
            r@ == self.text(),
    {
        match self {
            BootstrapError::Config(error) => error.describe(),
            BootstrapError::StateDir { path, reason } => {
                "cannot create the state directory ".to_owned().concat(path.as_str()).concat(
                    ": ",
                ).concat(reason.as_str())
            },
        }
    }
}

} // verus!
