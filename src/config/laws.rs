//! Laws of loading and reloading that hold for every document.
use vstd::prelude::*;

use super::document::{document_entries, Entry};
use super::{
    document_config, frequency_of, loaded_config, reloaded, root_keys, ConfigError, InnerConfig, MTConfig,
};

verus! {

/// A reload that fails leaves the configuration exactly as it was before the
/// call: path and composite.
pub proof fn lemma_failed_reload_keeps_config(before: MTConfig, text: Option<Seq<char>>)
    requires
        loaded_config(text) is Err,
    ensures
        reloaded(before, text) == before,
{
}

/// A snapshot taken before a successful reload keeps the composite it was
/// taken from, while the configuration itself now holds the new composite
/// under the same path.
pub proof fn lemma_snapshot_survives_reload(
    before: MTConfig,
    snapshot: InnerConfig,
    text: Option<Seq<char>>,
)
    requires
        snapshot == before.config,
        loaded_config(text) is Ok,
    ensures
        snapshot == before.config,
        reloaded(before, text).config == loaded_config(text)->Ok_0,
        reloaded(before, text).path == before.path,
{
}

/// A document whose root holds a key that the schema does not know fails to
/// load with `Schema`.
pub proof fn lemma_unknown_root_key_rejected(text: Seq<char>, key: Seq<char>)
    requires
        document_entries(text) matches Some(m) && m.contains_key(key),
        !root_keys().contains(key),
    ensures
        document_config(text) == Err::<InnerConfig, ConfigError>(ConfigError::Schema),
{
    let m = document_entries(text)->Some_0;
    assert(!root_keys().contains(key) && m.dom().contains(key));
}

/// A document where a section holds any key fails to load with `Schema`: no
/// section declares fields, so every key under one is unknown.
pub proof fn lemma_unknown_section_field_rejected(text: Seq<char>, section: Seq<char>)
    requires
        document_entries(text) matches Some(m) && m.contains_key(section) && (m[section] matches Entry::Table(n) && n > 0),
        root_keys().contains(section),
        section != "hz"@,
    ensures
        document_config(text) == Err::<InnerConfig, ConfigError>(ConfigError::Schema),
{
}

/// The common settings are read from the root of the document: a loaded
/// composite's frequency is the number under the root key `hz`.
pub proof fn lemma_common_read_at_root(text: Seq<char>)
    requires
        document_config(text) is Ok,
    ensures
        document_entries(text) matches Some(m) && m.contains_key("hz"@) && frequency_of(m["hz"@])
            == Some(document_config(text)->Ok_0.common.hz),
{
    reveal_strlit("hz");
    let m = document_entries(text)->Some_0;
    assert(root_keys().contains("hz"@));
}

/// The common settings cannot be written as a `[common]` table: a document
/// whose root holds the key `common` fails to load with `Schema`.
pub proof fn lemma_common_section_rejected(text: Seq<char>)
    requires
        document_entries(text) matches Some(m) && m.contains_key("common"@),
    ensures
        document_config(text) == Err::<InnerConfig, ConfigError>(ConfigError::Schema),
{
    reveal_strlit("common");
    reveal_strlit("hz");
    reveal_strlit("tonality");
    reveal_strlit("timbre");
    reveal_strlit("stracture");
    reveal_strlit("harmony");
    reveal_strlit("stream");
    assert("common"@.len() == 6 && "timbre"@.len() == 6 && "stream"@.len() == 6);
    assert("common"@[0] != "timbre"@[0] && "common"@[0] != "stream"@[0]);
    assert("common"@.len() != "hz"@.len() && "common"@.len() != "tonality"@.len());
    assert("common"@.len() != "stracture"@.len() && "common"@.len() != "harmony"@.len());
    assert(!root_keys().contains("common"@));
    lemma_unknown_root_key_rejected(text, "common"@);
}

} // verus!
