//! The composite configuration schema, the file-backed configuration, and the
//! shared handle.
use vstd::prelude::*;

pub mod common;
pub mod document;
pub mod harmony;
pub mod laws;
pub mod stracture;
pub mod stream;
pub mod timbre;
pub mod tonality;

use common::{CommonConfig, Frequency};
use document::{document_entries, parse_table, table_entries, table_entry, table_len, Entry};
use harmony::HarmonyConfig;
use stracture::StractureConfig;
use stream::StreamConfig;
use timbre::TimbreConfig;
use tonality::TonalityConfig;

verus! {

/// Why a configuration could not be loaded.
#[derive(Clone, Copy, Debug, PartialEq, Eq, Structural)]
pub enum ConfigError {
    /// The configuration file could not be opened or read.
    Io,
    /// The text is not a valid document, or does not match the schema: a
    /// section or field is missing, a value has the wrong type, or a key is
    /// unknown.
    Schema,
}

/// The keys that the root table of a document holds: the fields of
/// `CommonConfig`, which stand at the root, and one key per section.
pub open spec fn root_keys() -> Set<Seq<char>> {
    set!["hz"@, "tonality"@, "timbre"@, "stracture"@, "harmony"@, "stream"@]
}

/// Whether the root table holds `key` as a section that the schema accepts.
/// No section declares fields yet, so a section is a table with no keys.
pub open spec fn section_fits(m: Map<Seq<char>, Entry>, key: Seq<char>) -> bool {
    m.contains_key(key) && m[key] == Entry::Table(0)
}

/// The frequency that an entry of the root gives, where it is a number.
pub open spec fn frequency_of(e: Entry) -> Option<Frequency> {
    match e {
        Entry::Float(bits) => Some(Frequency::Float(bits)),
        Entry::Integer(i) => Some(Frequency::Integer(i)),
        _ => None,
    }
}

/// The composite configuration that a root table binds to, or `Schema` where
/// it does not match the schema.
pub open spec fn schema_config(m: Map<Seq<char>, Entry>) -> Result<InnerConfig, ConfigError> {
    if m.dom() == root_keys() && frequency_of(m["hz"@]) is Some && section_fits(m, "tonality"@)
        && section_fits(m, "timbre"@) && section_fits(m, "stracture"@) && section_fits(
        m,
        "harmony"@,
    ) && section_fits(m, "stream"@) {
        Ok(
            InnerConfig {
                common: CommonConfig { hz: frequency_of(m["hz"@])->Some_0 },
                tonality: TonalityConfig {  },
                timbre: TimbreConfig {  },
                stracture: StractureConfig {  },
                harmony: HarmonyConfig {  },
                stream: StreamConfig {  },
            },
        )
    } else {
        Err(ConfigError::Schema)
    }
}

/// The composite configuration that a document's text binds to.
pub open spec fn document_config(text: Seq<char>) -> Result<InnerConfig, ConfigError> {
    match document_entries(text) {
        Some(m) => schema_config(m),
        None => Err(ConfigError::Schema),
    }
}

proof fn lemma_root_keys_len()
    ensures
        root_keys().finite(),
        root_keys().len() == 6,
{
    reveal_strlit("hz");
    reveal_strlit("tonality");
    reveal_strlit("timbre");
    reveal_strlit("stracture");
    reveal_strlit("harmony");
    reveal_strlit("stream");
    let s1 = Set::<Seq<char>>::empty().insert("hz"@);
    let s2 = s1.insert("tonality"@);
    let s3 = s2.insert("timbre"@);
    let s4 = s3.insert("stracture"@);
    let s5 = s4.insert("harmony"@);
    assert("hz"@.len() == 2 && "tonality"@.len() == 8 && "timbre"@.len() == 6);
    assert("stracture"@.len() == 9 && "harmony"@.len() == 7 && "stream"@.len() == 6);
    assert(!s1.contains("tonality"@));
    assert(!s2.contains("timbre"@));
    assert(!s3.contains("stracture"@));
    assert(!s4.contains("harmony"@));
    assert("timbre"@[0] != "stream"@[0]);
    assert(!s5.contains("stream"@));
    assert(root_keys() == s5.insert("stream"@));
}

/// The whole configuration: the root-level common settings and one record
/// per section.
#[derive(Clone, Copy, Debug, PartialEq, Eq, Structural)]
pub struct InnerConfig {
    pub common: CommonConfig,
    pub tonality: TonalityConfig,
    pub timbre: TimbreConfig,
    pub stracture: StractureConfig,
    pub harmony: HarmonyConfig,
    pub stream: StreamConfig,
}

impl InnerConfig {
    /// Parses the text of a configuration document and binds it to the schema.
    pub fn new(document: &str) -> (r: Result<Self, ConfigError>)
        ensures
            r == document_config(document@),
    {
        match parse_table(document) {
            Ok(t) => Self::from_table(&t),
            Err(_) => Err(ConfigError::Schema),
        }
    }

    /// Binds a parsed root table to the schema, rejecting any key it does not
    /// know.
    pub fn from_table(t: &toml::Table) -> (r: Result<Self, ConfigError>)
        ensures
            r == schema_config(table_entries(*t)),
    {
        let ghost m = table_entries(*t);
        let n = table_len(t);
        let hz = table_entry(t, "hz");
        let tonality = table_entry(t, "tonality");
        let timbre = table_entry(t, "timbre");
        let stracture = table_entry(t, "stracture");
        let harmony = table_entry(t, "harmony");
        let stream = table_entry(t, "stream");
        proof {
            lemma_root_keys_len();
        }
        if n == 6 && matches!(tonality, Some(Entry::Table(0))) && matches!(timbre, Some(Entry::Table(0)))
            && matches!(stracture, Some(Entry::Table(0))) && matches!(
            harmony,
            Some(Entry::Table(0)),
        ) && matches!(stream, Some(Entry::Table(0))) {
            let frequency = match hz {
                Some(Entry::Float(bits)) => Some(Frequency::Float(bits)),
                Some(Entry::Integer(i)) => Some(Frequency::Integer(i)),
                _ => None,
            };
            if let Some(f) = frequency {
                proof {
                    assert(root_keys().subset_of(m.dom()));
                    vstd::set_lib::lemma_subset_equality(root_keys(), m.dom());
                }
                return Ok(
                    InnerConfig {
                        common: CommonConfig { hz: f },
                        tonality: TonalityConfig {  },
                        timbre: TimbreConfig {  },
                        stracture: StractureConfig {  },
                        harmony: HarmonyConfig {  },
                        stream: StreamConfig {  },
                    },
                );
            }
        }
        Err(ConfigError::Schema)
    }
}

/// The text of a configuration file as it was read, or `None` where it could
/// not be read.
pub open spec fn text_of(document: Option<&str>) -> Option<Seq<char>> {
    match document {
        Some(d) => Some(d@),
        None => None,
    }
}

/// The composite configuration that reading a file gives: `Io` where the file
/// could not be read, else what its text binds to.
pub open spec fn loaded_config(text: Option<Seq<char>>) -> Result<InnerConfig, ConfigError> {
    match text {
        Some(d) => document_config(d),
        None => Err(ConfigError::Io),
    }
}

/// A configuration that `reload` leaves behind: the new composite where the
/// file bound to the schema, else the old configuration unchanged.
pub open spec fn reloaded(before: MTConfig, text: Option<Seq<char>>) -> MTConfig {
    match loaded_config(text) {
        Ok(c) => MTConfig { config: c, ..before },
        Err(_) => before,
    }
}

/// A composite configuration together with the path of the file it was
/// loaded from.
#[derive(Clone, Debug)]
pub struct MTConfig {
    pub path: String,
    pub config: InnerConfig,
}

impl MTConfig {
    /// Opens the configuration at `path`, given the text read from that file
    /// (`None` where it could not be read).
    pub fn new(path: &str, document: Option<&str>) -> (r: Result<Self, ConfigError>)
        ensures
            match loaded_config(text_of(document)) {
                Ok(c) => r matches Ok(m) && m.path@ == path@ && m.config == c,
                Err(e) => r matches Err(e2) && e2 == e,
            },
    {
        let config = match document {
            Some(d) => InnerConfig::new(d),
            None => Err(ConfigError::Io),
        };
        match config {
            Ok(c) => Ok(MTConfig { path: path.to_string(), config: c }),
            Err(e) => Err(e),
        }
    }

    /// Replaces the composite with the one that the file's text binds to,
    /// given that text as read again from `self.path`. Where reading or binding
    /// fails, nothing changes and `false` comes back.
    pub fn reload(&mut self, document: Option<&str>) -> (r: bool)
        ensures
            r == loaded_config(text_of(document)) is Ok,
            *final(self) == reloaded(*old(self), text_of(document)),
    {
        let config = match document {
            Some(d) => InnerConfig::new(d),
            None => Err(ConfigError::Io),
        };
        match config {
            Ok(c) => {
                self.config = c;
                true
            },
            Err(_) => false,
        }
    }

    /// An owned copy of the current composite.
    pub fn snapshot(&self) -> (r: InnerConfig)
        ensures
            r == self.config,
    {
        self.config
    }
}

/// The configuration handle: the one configuration that is installed. Reads
/// hand out owned copies; a reload replaces the composite all or nothing.
/// Where the handle is shared between threads, it stands behind a
/// many-readers, one-writer lock of the caller's.
pub struct Config {
    installed: MTConfig,
}

impl View for Config {
    type V = MTConfig;

    /// The installed configuration.
    closed spec fn view(&self) -> MTConfig {
        self.installed
    }
}

impl Config {
    /// Opens the configuration at `path`, given the text read from that file,
    /// and installs it behind a new handle.
    pub fn new(path: &str, document: Option<&str>) -> (r: Result<Self, ConfigError>)
        ensures
            match loaded_config(text_of(document)) {
                Ok(c) => r matches Ok(h) && h@.path@ == path@ && h@.config == c,
                Err(e) => r matches Err(e2) && e2 == e,
            },
    {
        match MTConfig::new(path, document) {
            Ok(m) => Ok(Config { installed: m }),
            Err(e) => Err(e),
        }
    }

    /// The path of the file that the configuration is loaded from.
    pub fn path(&self) -> (r: &String)
        ensures
            *r == self@.path,
    {
        &self.installed.path
    }

    /// An owned copy of the installed configuration.
    pub fn read(&self) -> (r: MTConfig)
        ensures
            r == self@,
    {
        MTConfig { path: self.installed.path.clone(), config: self.installed.config }
    }

    /// Reloads the installed configuration, given the text read again from
    /// its path. Returns whether the composite was replaced; where it was not,
    /// the installed configuration is left as it was.
    pub fn reload(&mut self, document: Option<&str>) -> (r: bool)
        ensures
            r == loaded_config(text_of(document)) is Ok,
            final(self)@ == reloaded(old(self)@, text_of(document)),
    {
        self.installed.reload(document)
    }
}

} // verus!
