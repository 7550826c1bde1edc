//! The shapes of the server's JSON resources, as plain values. Nested parts
//! that both server families share are declared here.

pub mod radarr;
pub mod sonarr;

use vstd::prelude::*;

verus! {

/// A language as the server names it.
pub struct Language {
    pub id: i64,
    pub name: String,
}

/// A status message attached to a queue entry.
pub struct StatusMessage {
    pub title: String,
    pub messages: Vec<String>,
}

/// A custom format matched by a release.
pub struct CustomFormat {
    pub id: i64,
    pub name: String,
    pub include_custom_format_when_renaming: Option<bool>,
    pub specifications: Option<Vec<Specification>>,
}

/// One condition of a custom format.
pub struct Specification {
    pub id: i64,
    pub name: String,
    pub implementation: String,
    pub implementation_name: String,
    pub info_link: String,
    pub negate: bool,
    pub required: bool,
    pub fields: Vec<Field>,
    pub presets: Vec<String>,
}

/// A configurable field of a custom format condition.
pub struct Field {
    pub order: i64,
    pub name: String,
    pub label: String,
    pub unit: String,
    pub help_text: String,
    pub help_text_warning: String,
    pub help_link: String,
    pub value: String,
    pub type_field: String,
    pub advanced: bool,
    pub select_options: Vec<SelectOption>,
    pub select_options_provider_action: String,
    pub section: String,
    pub hidden: String,
    pub privacy: String,
    pub placeholder: String,
    pub is_float: bool,
}

/// One choice of a select field.
pub struct SelectOption {
    pub value: i64,
    pub name: String,
    pub order: i64,
    pub hint: String,
    pub divider_after: Option<bool>,
}

/// The quality of a release.
pub struct Quality {
    pub quality: Quality2,
    pub revision: Revision,
}

/// The source and resolution that make up a quality.
pub struct Quality2 {
    pub id: i64,
    pub name: String,
    pub source: String,
    pub resolution: i64,
    pub modifier: Option<String>,
}

/// The revision of a release (repacks and proper releases).
pub struct Revision {
    pub version: i64,
    pub real: i64,
    pub is_repack: bool,
}

} // verus!
