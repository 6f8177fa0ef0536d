use vstd::prelude::*;

use crate::alias_map::{keys_distinct, pairs_map, AliasMap};
use crate::error::CaiError;

verus! {

#[verifier::external_type_specification]
#[verifier::external_body]
pub struct ExYamlError(serde_yaml::Error);

/// The flat string-to-string mapping that serde_yaml decodes from a text, or `None` where it
/// refuses the text.
pub uninterp spec fn yaml_string_map(content: Seq<char>) -> Option<Map<Seq<char>, Seq<char>>>;

/// Relies on `serde_yaml::from_str` decoding the text into a `BTreeMap<String, String>`: the
/// outcome depends on the text alone, and `BTreeMap::into_iter` hands out each key once.
#[verifier::external_body]
fn decode_string_map(content: &str) -> (r: Result<Vec<(String, String)>, serde_yaml::Error>)
    ensures
        match r {
            Ok(v) => keys_distinct(v@) && yaml_string_map(content@) == Some(pairs_map(v@)),
            Err(_) => yaml_string_map(content@).is_none(),
        },
{
    match serde_yaml::from_str::<std::collections::BTreeMap<String, String>>(content) {
        Ok(m) => Ok(m.into_iter().collect()),
        Err(e) => Err(e),
    }
}

/// The two serialization formats a configuration file may use.
#[derive(Debug, Clone, Copy, PartialEq, Eq, Structural)]
pub enum CommandFileKind {
    /// Braces, keys and values: `{"foo": "ls"}`.
    Json,
    /// Indented lines: `foo: ls`.
    Yaml,
}

/// The mapping that a text of the given format decodes to. JSON is a subset of YAML, so one
/// decoder reads both.
pub open spec fn decoded(kind: CommandFileKind, content: Seq<char>) -> Option<
    Map<Seq<char>, Seq<char>>,
> {
    match kind {
        CommandFileKind::Json => yaml_string_map(content),
        CommandFileKind::Yaml => yaml_string_map(content),
    }
}

/// What parsing a text of the given format returns: its mapping, or `ConfigMalformed`.
pub open spec fn parse_outcome(
    kind: CommandFileKind,
    content: Seq<char>,
    r: Result<AliasMap, CaiError>,
) -> bool {
    match decoded(kind, content) {
        Some(m) => r is Ok && r->Ok_0@ == m,
        None => r == Err::<AliasMap, CaiError>(CaiError::ConfigMalformed),
    }
}

/// The file read when no path is given; each format has its own.
pub open spec fn default_path(kind: CommandFileKind) -> Seq<char> {
    match kind {
        CommandFileKind::Json => "./cai_config.json"@,
        CommandFileKind::Yaml => "./cai_config.yaml"@,
    }
}

/// The format a hint selects: YAML when it says so, JSON otherwise.
pub open spec fn kind_of(hint: Option<Seq<char>>) -> CommandFileKind {
    if hint == Some("YAML"@) {
        CommandFileKind::Yaml
    } else {
        CommandFileKind::Json
    }
}

/// The characters of an optional string.
pub open spec fn hint_of(o: Option<String>) -> Option<Seq<char>> {
    match o {
        Some(s) => Some(s@),
        None => None,
    }
}

/// The path that an optional path hint selects for a format.
pub open spec fn chosen_path(kind: CommandFileKind, path: Option<Seq<char>>) -> Seq<char> {
    match path {
        Some(p) => p,
        None => default_path(kind),
    }
}

/// A configuration file of one format: where it lies and how its text is decoded.
pub trait CommandFile {
    /// The format of the file.
    spec fn kind(&self) -> CommandFileKind;

    /// Where the file lies.
    spec fn file_path(&self) -> Seq<char>;

    /// Decodes the text of the file into a mapping.
    fn parse(&self, content: &str) -> (r: Result<AliasMap, CaiError>)
        ensures
            parse_outcome(self.kind(), content@, r),
    ;

    /// Where the file lies.
    fn path(&self) -> (r: &str)
        ensures
            r@ == self.file_path(),
    ;
}

/// Decodes a text into a mapping, or reports it malformed.
fn parse_string_map(content: &str) -> (r: Result<AliasMap, CaiError>)
    ensures
        parse_outcome(CommandFileKind::Json, content@, r),
        parse_outcome(CommandFileKind::Yaml, content@, r),
{
    match decode_string_map(content) {
        Ok(entries) => Ok(AliasMap::from_entries(entries)),
        Err(_) => Err(CaiError::ConfigMalformed),
    }
}

/// A configuration file in JSON.
pub struct JsonCommandFile {
    path: String,
}

impl JsonCommandFile {
    /// The JSON file at `path`, or at the default path for JSON.
    pub fn new(path: Option<&str>) -> (r: Self)
        ensures
            r.file_path() == chosen_path(
                CommandFileKind::Json,
                match path {
                    Some(p) => Some(p@),
                    None => None,
                },
            ),
    {
        let path = match path {
            Some(p) => p.to_owned(),
            None => "./cai_config.json".to_owned(),
        };
        JsonCommandFile { path }
    }
}

impl CommandFile for JsonCommandFile {
    closed spec fn kind(&self) -> CommandFileKind {
        CommandFileKind::Json
    }

    closed spec fn file_path(&self) -> Seq<char> {
        self.path@
    }

    fn parse(&self, content: &str) -> (r: Result<AliasMap, CaiError>) {
        parse_string_map(content)
    }

    fn path(&self) -> (r: &str) {
        self.path.as_str()
    }
}

/// A configuration file in YAML.
pub struct YamlCommandFile {
    path: String,
}

impl YamlCommandFile {
    /// The YAML file at `path`, or at the default path for YAML.
    pub fn new(path: Option<&str>) -> (r: Self)
        ensures
            r.file_path() == chosen_path(
                CommandFileKind::Yaml,
                match path {
                    Some(p) => Some(p@),
                    None => None,
                },
            ),
    {
        let path = match path {
            Some(p) => p.to_owned(),
            None => "./cai_config.yaml".to_owned(),
        };
        YamlCommandFile { path }
    }
}

impl CommandFile for YamlCommandFile {
    closed spec fn kind(&self) -> CommandFileKind {
        CommandFileKind::Yaml
    }

    closed spec fn file_path(&self) -> Seq<char> {
        self.path@
    }

    fn parse(&self, content: &str) -> (r: Result<AliasMap, CaiError>) {
        parse_string_map(content)
    }

    fn path(&self) -> (r: &str) {
        self.path.as_str()
    }
}

/// Format and path hints, as the environment gives them.
#[derive(Debug)]
pub struct EnvConfig {
    pub file_kind: Option<String>,
    pub file_path: Option<String>,
}

/// Loads the mapping from a configuration file chosen by a format hint and a path hint.
pub struct CommandFileService {
    kind: CommandFileKind,
    path: Option<String>,
}

impl CommandFileService {
    /// The format that was selected.
    pub closed spec fn kind(&self) -> CommandFileKind {
        self.kind
    }

    /// The path that was given, if any.
    pub closed spec fn path_hint(&self) -> Option<Seq<char>> {
        hint_of(self.path)
    }

    /// A service for the format that `config_file_kind` names (YAML for `"YAML"`, JSON for
    /// anything else or nothing) and the path `config_file_path`.
    pub fn new(config_file_kind: Option<String>, config_file_path: Option<String>) -> (r: Self)
        ensures
            r.kind() == kind_of(hint_of(config_file_kind)),
            r.path_hint() == hint_of(config_file_path),
    {
        let yaml = "YAML".to_owned();
        let kind = match &config_file_kind {
            Some(k) => {
                if *k == yaml {
                    CommandFileKind::Yaml
                } else {
                    CommandFileKind::Json
                }
            },
            None => CommandFileKind::Json,
        };
        CommandFileService { kind, path: config_file_path }
    }

    /// The path of the selected file.
    fn path_ref(&self) -> (r: Option<&str>)
        ensures
            match r {
                Some(p) => self.path_hint() == Some(p@),
                None => self.path_hint().is_none(),
            },
    {
        match &self.path {
            Some(p) => Some(p.as_str()),
            None => None,
        }
    }

    /// The path of the file to read: the given path, or the default path of the format.
    pub fn config_path(&self) -> (r: String)
        ensures
            r@ == chosen_path(self.kind(), self.path_hint()),
    {
        match self.kind {
            CommandFileKind::Json => JsonCommandFile::new(self.path_ref()).path().to_owned(),
            CommandFileKind::Yaml => YamlCommandFile::new(self.path_ref()).path().to_owned(),
        }
    }

    /// The mapping in the file, given its text, or `None` where the file could not be opened
    /// or read.
    pub fn parse_config_file(&self, content: Option<String>) -> (r: Result<AliasMap, CaiError>)
        ensures
            content.is_none() ==> r == Err::<AliasMap, CaiError>(CaiError::ConfigNotFound),
            content.is_some() ==> parse_outcome(self.kind(), content.unwrap()@, r),
    {
        match content {
            None => Err(CaiError::ConfigNotFound),
            Some(text) => match self.kind {
                CommandFileKind::Json => JsonCommandFile::new(self.path_ref()).parse(
                    text.as_str(),
                ),
                CommandFileKind::Yaml => YamlCommandFile::new(self.path_ref()).parse(
                    text.as_str(),
                ),
            },
        }
    }
}

/// Both formats decode a text into the same mapping, so what follows loading does not
/// depend on the format.
pub proof fn lemma_formats_agree(content: Seq<char>)
    ensures
        decoded(CommandFileKind::Json, content) == decoded(CommandFileKind::Yaml, content),
        forall|r: Result<AliasMap, CaiError>|
            parse_outcome(CommandFileKind::Json, content, r) <==> parse_outcome(
                CommandFileKind::Yaml,
                content,
                r,
            ),
{
}

} // verus!
