//! The manifest reader: from the bytes of a module's descriptor file to a
//! typed manifest.
//!
//! A manifest is a JSON object. Eight of its members are required texts:
//! `name`, `version`, `scope`, `summary`, `description`, `homepage`,
//! `license` and `source`. `version` has to be a semantic version, `homepage`
//! and `source` absolute addresses. `entry`, the library's path relative to
//! the module's directory, may be left out or be `null`. Other members are
//! passed over, and of a key that occurs more than once the last occurrence
//! counts.

use crate::error::LoadError;
use vstd::prelude::*;

verus! {

/// `serde_json::Value`, a decoded JSON document. Nothing of its inside is
/// visible here; `json_members` names what it holds.
#[verifier::external_type_specification]
#[verifier::external_body]
pub struct ExJsonValue(serde_json::Value);

/// What a document holds under one key.
#[derive(Clone, Debug, PartialEq, Eq)]
pub enum Member {
    /// The document is no object, or the object has no such key.
    Missing,
    /// The key holds `null`.
    Null,
    /// The key holds a text.
    Text(String),
    /// The key holds a number, a truth value, a list or an object.
    Other,
}

/// A member as plain values.
pub enum MemberView {
    Missing,
    Null,
    Text(Seq<char>),
    Other,
}

impl View for Member {
    type V = MemberView;

    open spec fn view(&self) -> MemberView {
        match self {
            Member::Missing => MemberView::Missing,
            Member::Null => MemberView::Null,
            Member::Text(text) => MemberView::Text(text@),
            Member::Other => MemberView::Other,
        }
    }
}

/// The members of a decoded document: for a JSON object, what each of its
/// keys holds; for any other document, the empty map.
pub uninterp spec fn json_members(document: serde_json::Value) -> Map<Seq<char>, MemberView>;

/// The members of the document that `bytes` decode to, `None` where the
/// bytes are not one well-formed JSON document.
pub uninterp spec fn json_document(bytes: Seq<u8>) -> Option<Map<Seq<char>, MemberView>>;

/// Whether `text` is a semantic version, as `semver::Version::parse` judges
/// it.
pub uninterp spec fn semver_accepts(text: Seq<char>) -> bool;

/// Whether `text` is an absolute address, as `url::Url::parse` judges it.
pub uninterp spec fn url_accepts(text: Seq<char>) -> bool;

/// What `members` hold under `key`.
pub open spec fn member_at(members: Map<Seq<char>, MemberView>, key: Seq<char>) -> MemberView {
    if members.contains_key(key) {
        members[key]
    } else {
        MemberView::Missing
    }
}

/// Decodes `bytes` with `serde_json::from_slice` into a `serde_json::Value`.
/// The crate's answer is a function of the bytes alone: either an error, or
/// the document whose members `json_document` names.
#[verifier::external_body]
fn parse_document(bytes: &[u8]) -> (document: Option<serde_json::Value>)
    ensures
        match document {
            Some(value) => json_document(bytes@) == Some(json_members(value)),
            None => json_document(bytes@) is None,
        },
{
    serde_json::from_slice::<serde_json::Value>(bytes).ok()
}

/// Looks `key` up with `serde_json::Value::get`, which finds a key only in
/// an object, and tells apart what was found by the variant of the value.
#[verifier::external_body]
fn member(document: &serde_json::Value, key: &str) -> (found: Member)
    ensures
        found@ == member_at(json_members(*document), key@),
{
    match document.get(key) {
        None => Member::Missing,
        Some(serde_json::Value::Null) => Member::Null,
        Some(serde_json::Value::String(text)) => Member::Text(text.clone()),
        Some(_) => Member::Other,
    }
}

/// Whether `semver::Version::parse` accepts `text`.
#[verifier::external_body]
fn is_semantic_version(text: &str) -> (accepted: bool)
    ensures
        accepted == semver_accepts(text@),
{
    semver::Version::parse(text).is_ok()
}

/// Whether `url::Url::parse` accepts `text`.
#[verifier::external_body]
fn is_address(text: &str) -> (accepted: bool)
    ensures
        accepted == url_accepts(text@),
{
    url::Url::parse(text).is_ok()
}

/// What a manifest file holds under the keys that a manifest is made of.
#[derive(Clone, Debug, PartialEq, Eq)]
pub struct ManifestFields {
    pub name: Member,
    pub version: Member,
    pub scope: Member,
    pub summary: Member,
    pub description: Member,
    pub homepage: Member,
    pub license: Member,
    pub source: Member,
    pub entry: Member,
}

/// Manifest fields as plain values.
pub struct FieldsView {
    pub name: MemberView,
    pub version: MemberView,
    pub scope: MemberView,
    pub summary: MemberView,
    pub description: MemberView,
    pub homepage: MemberView,
    pub license: MemberView,
    pub source: MemberView,
    pub entry: MemberView,
}

impl View for ManifestFields {
    type V = FieldsView;

    open spec fn view(&self) -> FieldsView {
        FieldsView {
            name: self.name@,
            version: self.version@,
            scope: self.scope@,
            summary: self.summary@,
            description: self.description@,
            homepage: self.homepage@,
            license: self.license@,
            source: self.source@,
            entry: self.entry@,
        }
    }
}

/// The descriptor of a module. It is made by `assemble` or `decode` and does
/// not change afterwards.
#[derive(Clone, Debug, PartialEq, Eq)]
pub struct PluginManifest {
    name: String,
    version: String,
    scope: String,
    summary: String,
    description: String,
    homepage: String,
    license: String,
    source: String,
    entry: Option<String>,
}

/// A manifest as plain values.
pub struct ManifestView {
    pub name: Seq<char>,
    pub version: Seq<char>,
    pub scope: Seq<char>,
    pub summary: Seq<char>,
    pub description: Seq<char>,
    pub homepage: Seq<char>,
    pub license: Seq<char>,
    pub source: Seq<char>,
    pub entry: Option<Seq<char>>,
}

impl View for PluginManifest {
    type V = ManifestView;

    closed spec fn view(&self) -> ManifestView {
        ManifestView {
            name: self.name@,
            version: self.version@,
            scope: self.scope@,
            summary: self.summary@,
            description: self.description@,
            homepage: self.homepage@,
            license: self.license@,
            source: self.source@,
            entry: match self.entry {
                Some(path) => Some(path@),
                None => None,
            },
        }
    }
}

/// The text that a member holds; of no meaning where it holds none.
pub open spec fn text_of(member: MemberView) -> Seq<char> {
    match member {
        MemberView::Text(text) => text,
        _ => Seq::empty(),
    }
}

/// Whether every required member is a text and `entry` is a text, `null` or
/// left out.
pub open spec fn well_shaped(fields: FieldsView) -> bool {
    &&& fields.name is Text
    &&& fields.version is Text
    &&& fields.scope is Text
    &&& fields.summary is Text
    &&& fields.description is Text
    &&& fields.homepage is Text
    &&& fields.license is Text
    &&& fields.source is Text
    &&& !(fields.entry is Other)
}

/// The manifest that well-shaped fields make.
pub open spec fn manifest_from(fields: FieldsView) -> ManifestView {
    ManifestView {
        name: text_of(fields.name),
        version: text_of(fields.version),
        scope: text_of(fields.scope),
        summary: text_of(fields.summary),
        description: text_of(fields.description),
        homepage: text_of(fields.homepage),
        license: text_of(fields.license),
        source: text_of(fields.source),
        entry: match fields.entry {
            MemberView::Text(path) => Some(path),
            _ => None,
        },
    }
}

/// The manifest that `fields` make, given the verdicts on its version and on
/// its two addresses; `None` where the fields are ill-shaped or a verdict is
/// against them.
pub open spec fn assembled(
    fields: FieldsView,
    version_ok: bool,
    homepage_ok: bool,
    source_ok: bool,
) -> Option<ManifestView> {
    if well_shaped(fields) && version_ok && homepage_ok && source_ok {
        Some(manifest_from(fields))
    } else {
        None
    }
}

/// The manifest fields among the members of a document.
pub open spec fn fields_of(members: Map<Seq<char>, MemberView>) -> FieldsView {
    FieldsView {
        name: member_at(members, "name"@),
        version: member_at(members, "version"@),
        scope: member_at(members, "scope"@),
        summary: member_at(members, "summary"@),
        description: member_at(members, "description"@),
        homepage: member_at(members, "homepage"@),
        license: member_at(members, "license"@),
        source: member_at(members, "source"@),
        entry: member_at(members, "entry"@),
    }
}

/// Whether `member` is a text that is a semantic version.
pub open spec fn holds_version(member: MemberView) -> bool {
    member is Text && semver_accepts(text_of(member))
}

/// Whether `member` is a text that is an absolute address.
pub open spec fn holds_address(member: MemberView) -> bool {
    member is Text && url_accepts(text_of(member))
}

/// The manifest that the bytes of a manifest file stand for, `None` where
/// they stand for none.
pub open spec fn decoded(bytes: Seq<u8>) -> Option<ManifestView> {
    match json_document(bytes) {
        None => None,
        Some(members) => {
            let fields = fields_of(members);
            assembled(
                fields,
                holds_version(fields.version),
                holds_address(fields.homepage),
                holds_address(fields.source),
            )
        },
    }
}

/// Takes the text out of a member that `well_shaped` found to be one.
fn into_text(member: Member) -> (text: String)
    requires
        member is Text,
    ensures
        text@ == text_of(member@),
{
    match member {
        Member::Text(text) => text,
        _ => String::new(),
    }
}

impl PluginManifest {
    /// Makes a manifest of the members found in a manifest file and of the
    /// verdicts on its version and addresses. Fails with
    /// `ManifestParseError` where a required member is no text, `entry` is
    /// neither a text nor `null` nor left out, or a verdict is against it.
    pub fn assemble(
        fields: ManifestFields,
        version_ok: bool,
        homepage_ok: bool,
        source_ok: bool,
    ) -> (result: Result<PluginManifest, LoadError>)
        ensures
            match result {
                Ok(manifest) => assembled(fields@, version_ok, homepage_ok, source_ok) == Some(
                    manifest@,
                ),
                Err(error) => assembled(fields@, version_ok, homepage_ok, source_ok) is None
                    && error == LoadError::ManifestParseError,
            },
    {
        let shaped = matches!(fields.name, Member::Text(_)) && matches!(
            fields.version,
            Member::Text(_)
        ) && matches!(fields.scope, Member::Text(_)) && matches!(fields.summary, Member::Text(_))
            && matches!(fields.description, Member::Text(_)) && matches!(
            fields.homepage,
            Member::Text(_)
        ) && matches!(fields.license, Member::Text(_)) && matches!(
            fields.source,
            Member::Text(_)
        ) && !matches!(fields.entry, Member::Other);
        if !(shaped && version_ok && homepage_ok && source_ok) {
            return Err(LoadError::ManifestParseError);
        }
        let entry = match fields.entry {
            Member::Text(path) => Some(path),
            _ => None,
        };
        Ok(
            PluginManifest {
                name: into_text(fields.name),
                version: into_text(fields.version),
                scope: into_text(fields.scope),
                summary: into_text(fields.summary),
                description: into_text(fields.description),
                homepage: into_text(fields.homepage),
                license: into_text(fields.license),
                source: into_text(fields.source),
                entry,
            },
        )
    }

    /// Reads a manifest from the bytes of a manifest file. Fails with
    /// `ManifestParseError` exactly where `decoded` finds no manifest in
    /// them.
    pub fn decode(bytes: &[u8]) -> (result: Result<PluginManifest, LoadError>)
        ensures
            match result {
                Ok(manifest) => decoded(bytes@) == Some(manifest@),
                Err(error) => decoded(bytes@) is None && error == LoadError::ManifestParseError,
            },
    {
        let document = match parse_document(bytes) {
            Some(document) => document,
            None => {
                return Err(LoadError::ManifestParseError);
            },
        };
        let fields = ManifestFields {
            name: member(&document, "name"),
            version: member(&document, "version"),
            scope: member(&document, "scope"),
            summary: member(&document, "summary"),
            description: member(&document, "description"),
            homepage: member(&document, "homepage"),
            license: member(&document, "license"),
            source: member(&document, "source"),
            entry: member(&document, "entry"),
        };
        let version_ok = match &fields.version {
            Member::Text(text) => is_semantic_version(text.as_str()),
            _ => false,
        };
        let homepage_ok = match &fields.homepage {
            Member::Text(text) => is_address(text.as_str()),
            _ => false,
        };
        let source_ok = match &fields.source {
            Member::Text(text) => is_address(text.as_str()),
            _ => false,
        };
        PluginManifest::assemble(fields, version_ok, homepage_ok, source_ok)
    }

    /// The module's name.
    pub fn name(&self) -> (text: &str)
        ensures
            text@ == self@.name,
    {
        self.name.as_str()
    }

    /// The module's version, a semantic version.
    pub fn version(&self) -> (text: &str)
        ensures
            text@ == self@.version,
    {
        self.version.as_str()
    }

    /// The scope that the module belongs to.
    pub fn scope(&self) -> (text: &str)
        ensures
            text@ == self@.scope,
    {
        self.scope.as_str()
    }

    /// One line on what the module does.
    pub fn summary(&self) -> (text: &str)
        ensures
            text@ == self@.summary,
    {
        self.summary.as_str()
    }

    /// What the module does, at length.
    pub fn description(&self) -> (text: &str)
        ensures
            text@ == self@.description,
    {
        self.description.as_str()
    }

    /// The address of the module's home page.
    pub fn homepage(&self) -> (text: &str)
        ensures
            text@ == self@.homepage,
    {
        self.homepage.as_str()
    }

    /// The module's license.
    pub fn license(&self) -> (text: &str)
        ensures
            text@ == self@.license,
    {
        self.license.as_str()
    }

    /// The address of the module's source.
    pub fn source(&self) -> (text: &str)
        ensures
            text@ == self@.source,
    {
        self.source.as_str()
    }

    /// The library's path relative to the module's directory, if the module
    /// has a library.
    pub fn entry(&self) -> (path: Option<&str>)
        ensures
            match path {
                Some(text) => self@.entry == Some(text@),
                None => self@.entry is None,
            },
    {
        match &self.entry {
            Some(path) => Some(path.as_str()),
            None => None,
        }
    }
}

} // verus!
