//! The package build manifest, `Boxer.toml`. The TOML grammar itself is
//! decoded outside the library into a plain two-level document — a list of
//! top-level sections, each a list of keyed items — and everything from
//! there on is verified here: the schema the document must match, the typed
//! manifest it yields, and the extraction of the post-install build command.

use vstd::prelude::*;
use crate::errors::AcquireError;

verus! {

/// A value inside a manifest section. The manifest logic interprets only
/// strings and all-string arrays; any other TOML value is carried as
/// `Other`, opaque and never read.
pub enum TomlItem {
    Str(String),
    StrArray(Vec<String>),
    Other,
}

/// A top-level value of the manifest document: a section table, or any
/// other TOML value, carried opaquely.
pub enum TomlTop {
    Table(Vec<(String, TomlItem)>),
    Other,
}

/// The mathematical shape of a section item.
pub enum ItemModel {
    Str(Seq<char>),
    StrArray(Seq<Seq<char>>),
    Other,
}

/// The mathematical shape of a top-level value.
pub enum TopModel {
    Table(Seq<(Seq<char>, ItemModel)>),
    Other,
}

/// The shape of one section item.
pub open spec fn item_model(v: TomlItem) -> ItemModel {
    match v {
        TomlItem::Str(s) => ItemModel::Str(s@),
        TomlItem::StrArray(vs) => ItemModel::StrArray(vs.deep_view()),
        TomlItem::Other => ItemModel::Other,
    }
}

/// The shape of a section: its entries as key/item-shape pairs, in order.
pub open spec fn section_model(entries: Seq<(String, TomlItem)>) -> Seq<(Seq<char>, ItemModel)> {
    entries.map_values(|e: (String, TomlItem)| (e.0@, item_model(e.1)))
}

/// The shape of a top-level value.
pub open spec fn top_model(v: TomlTop) -> TopModel {
    match v {
        TomlTop::Table(entries) => TopModel::Table(section_model(entries@)),
        TomlTop::Other => TopModel::Other,
    }
}

/// The shape of a whole manifest document.
pub open spec fn doc_model(doc: Seq<(String, TomlTop)>) -> Seq<(Seq<char>, TopModel)> {
    doc.map_values(|e: (String, TomlTop)| (e.0@, top_model(e.1)))
}

/// Association lookup: the value of the first entry whose key equals `key`,
/// if any. Keys of a TOML table are unique, but the definition does not
/// depend on that.
pub open spec fn assoc_lookup<V>(entries: Seq<(Seq<char>, V)>, key: Seq<char>) -> Option<V>
    decreases entries.len(),
{
    if entries.len() == 0 {
        None
    } else if entries[0].0 == key {
        Some(entries[0].1)
    } else {
        assoc_lookup(entries.drop_first(), key)
    }
}

/// A first match at `i` — a match with no earlier match — is what
/// association lookup returns.
proof fn lemma_assoc_lookup_first<V>(entries: Seq<(Seq<char>, V)>, key: Seq<char>, i: int)
    requires
        0 <= i < entries.len(),
        entries[i].0 == key,
        forall|j: int| 0 <= j < i ==> entries[j].0 != key,
    ensures
        assoc_lookup(entries, key) == Some(entries[i].1),
    decreases i,
{
    if i > 0 {
        lemma_assoc_lookup_first(entries.drop_first(), key, i - 1);
    }
}

/// Where no entry's key equals `key`, association lookup returns nothing.
proof fn lemma_assoc_lookup_none<V>(entries: Seq<(Seq<char>, V)>, key: Seq<char>)
    requires
        forall|j: int| 0 <= j < entries.len() ==> entries[j].0 != key,
    ensures
        assoc_lookup(entries, key) is None,
    decreases entries.len(),
{
    if entries.len() > 0 {
        lemma_assoc_lookup_none(entries.drop_first(), key);
    }
}

/// Find the first entry whose key equals `key`, scanning in order.
fn find_key<V>(entries: &Vec<(String, V)>, key: &String) -> (r: Option<usize>)
    ensures
        match r {
            Some(i) => i < entries@.len() && entries@[i as int].0@ == key@ && forall|j: int|
                0 <= j < i ==> entries@[j].0@ != key@,
            None => forall|j: int| 0 <= j < entries@.len() ==> entries@[j].0@ != key@,
        },
{
    let mut j: usize = 0;
    while j < entries.len()
        invariant
            j <= entries@.len(),
            forall|m: int| 0 <= m < j ==> entries@[m].0@ != key@,
        decreases entries@.len() - j,
    {
        if entries[j].0.eq(key) {
            return Some(j);
        }
        j = j + 1;
    }
    None
}

/// The `package` section of a manifest.
pub struct PackageSection {
    pub name: String,
    pub version: String,
    pub author: Option<Vec<String>>,
    pub git: String,
}

/// The `lib` section of a manifest.
pub struct LibSection {
    pub release_type: String,
}

/// A parsed manifest: the typed `package` and `lib` sections, and the
/// `scripts` and `dependencies` tables carried entry by entry.
pub struct ManifestSchema {
    pub package: PackageSection,
    pub lib: LibSection,
    pub scripts: Vec<(String, TomlItem)>,
    pub dependencies: Vec<(String, TomlItem)>,
}

/// Whether the `package` section has the required shape: `name`, `version`
/// and `git` present as strings, and `author`, if present, an array of
/// strings.
pub open spec fn package_wf(p: Seq<(Seq<char>, ItemModel)>) -> bool {
    &&& assoc_lookup(p, "name"@) matches Some(ItemModel::Str(_))
    &&& assoc_lookup(p, "version"@) matches Some(ItemModel::Str(_))
    &&& assoc_lookup(p, "git"@) matches Some(ItemModel::Str(_))
    &&& match assoc_lookup(p, "author"@) {
        Option::None => true,
        Option::Some(ItemModel::StrArray(_)) => true,
        Option::Some(_) => false,
    }
}

/// Whether a manifest document matches the expected schema: a well-formed
/// `package` table, a `lib` table holding `release_type` as a string, and
/// `scripts` and `dependencies` tables. Entries beyond these are ignored.
pub open spec fn manifest_wf(d: Seq<(Seq<char>, TopModel)>) -> bool {
    &&& assoc_lookup(d, "package"@) matches Some(TopModel::Table(p)) && package_wf(p)
    &&& assoc_lookup(d, "lib"@) matches Some(TopModel::Table(l)) && (assoc_lookup(l, "release_type"@) matches Some(
        ItemModel::Str(_),
    ))
    &&& assoc_lookup(d, "scripts"@) matches Some(TopModel::Table(_))
    &&& assoc_lookup(d, "dependencies"@) matches Some(TopModel::Table(_))
}

/// The table stored under `key`, empty where there is none.
pub open spec fn table_at(d: Seq<(Seq<char>, TopModel)>, key: Seq<char>) -> Seq<
    (Seq<char>, ItemModel),
> {
    match assoc_lookup(d, key) {
        Option::Some(TopModel::Table(t)) => t,
        _ => Seq::empty(),
    }
}

/// The string stored under `key`, empty where there is none.
pub open spec fn str_at(t: Seq<(Seq<char>, ItemModel)>, key: Seq<char>) -> Seq<char> {
    match assoc_lookup(t, key) {
        Option::Some(ItemModel::Str(s)) => s,
        _ => Seq::empty(),
    }
}

/// Whether the typed manifest `m` reproduces document `d`: every typed
/// field carries the corresponding entry of the document, and the `scripts`
/// and `dependencies` tables are carried shape-identically.
pub open spec fn manifest_matches_doc(m: ManifestSchema, d: Seq<(Seq<char>, TopModel)>) -> bool {
    &&& m.package.name@ == str_at(table_at(d, "package"@), "name"@)
    &&& m.package.version@ == str_at(table_at(d, "package"@), "version"@)
    &&& m.package.git@ == str_at(table_at(d, "package"@), "git"@)
    &&& match assoc_lookup(table_at(d, "package"@), "author"@) {
        Option::None => m.package.author is None,
        Option::Some(ItemModel::StrArray(a)) => m.package.author matches Some(v) && v.deep_view()
            == a,
        Option::Some(_) => false,
    }
    &&& m.lib.release_type@ == str_at(table_at(d, "lib"@), "release_type"@)
    &&& section_model(m.scripts@) == table_at(d, "scripts"@)
    &&& section_model(m.dependencies@) == table_at(d, "dependencies"@)
}

/// Copy a vector of strings; the copy has the same shape.
fn clone_string_vec(v: &Vec<String>) -> (r: Vec<String>)
    ensures
        r.deep_view() == v.deep_view(),
{
    let mut r: Vec<String> = Vec::new();
    let mut i: usize = 0;
    while i < v.len()
        invariant
            i <= v@.len(),
            r@.len() == i,
            forall|k: int| 0 <= k < i ==> r@[k]@ == v@[k]@,
        decreases v@.len() - i,
    {
        r.push(v[i].clone());
        i = i + 1;
    }
    proof {
        assert(r.deep_view() =~= v.deep_view());
    }
    r
}

/// Copy one section item; the copy has the same shape.
fn clone_item(v: &TomlItem) -> (r: TomlItem)
    ensures
        item_model(r) == item_model(*v),
{
    match v {
        TomlItem::Str(s) => TomlItem::Str(s.clone()),
        TomlItem::StrArray(vs) => TomlItem::StrArray(clone_string_vec(vs)),
        TomlItem::Other => TomlItem::Other,
    }
}

/// Copy a whole section; the copy has the same shape.
fn clone_section(v: &Vec<(String, TomlItem)>) -> (r: Vec<(String, TomlItem)>)
    ensures
        section_model(r@) == section_model(v@),
{
    let mut r: Vec<(String, TomlItem)> = Vec::new();
    let mut i: usize = 0;
    while i < v.len()
        invariant
            i <= v@.len(),
            section_model(r@) =~= section_model(v@).take(i as int),
        decreases v@.len() - i,
    {
        let entry = (v[i].0.clone(), clone_item(&v[i].1));
        proof {
            assert(section_model(r@ + seq![entry]) =~= section_model(r@) + seq![
                (entry.0@, item_model(entry.1)),
            ]);
            assert(section_model(v@).take(i + 1).drop_last() =~= section_model(v@).take(i as int));
        }
        r.push(entry);
        i = i + 1;
    }
    proof {
        assert(section_model(v@).take(v@.len() as int) =~= section_model(v@));
    }
    r
}

/// Loads and parses a package's build manifest: holds the raw text of
/// `Boxer.toml` between reading it and decoding it.
pub struct ManfiestHandler {
    pub manifest_contents: String,
}

/// The outcome of reading `Boxer.toml` from the project directory, reported
/// by whatever performed the read.
pub enum ManifestReadOutcome {
    /// The file was read whole; carries its text.
    Found(String),
    /// No `Boxer.toml` exists in the project directory.
    NotFound,
    /// The file exists but reading it failed.
    Unreadable,
}

impl ManfiestHandler {
    /// A handler over manifest text already read into memory.
    pub fn new(manifest_contents: String) -> (r: Self)
        ensures
            r.manifest_contents@ == manifest_contents@,
    {
        ManfiestHandler { manifest_contents }
    }

    /// Interpret the outcome of reading `Boxer.toml`: an absent file is
    /// `ManifestNotFound`, any other read failure is `ManifestUnreadable`.
    pub fn from_read(outcome: ManifestReadOutcome) -> (r: Result<Self, AcquireError>)
        ensures
            match outcome {
                ManifestReadOutcome::Found(c) => r matches Ok(h) && h.manifest_contents@ == c@,
                ManifestReadOutcome::NotFound => r == Result::<Self, AcquireError>::Err(
                    AcquireError::ManifestNotFound,
                ),
                ManifestReadOutcome::Unreadable => r == Result::<Self, AcquireError>::Err(
                    AcquireError::ManifestUnreadable,
                ),
            },
    {
        match outcome {
            ManifestReadOutcome::Found(contents) => Ok(ManfiestHandler::new(contents)),
            ManifestReadOutcome::NotFound => Err(AcquireError::ManifestNotFound),
            ManifestReadOutcome::Unreadable => Err(AcquireError::ManifestUnreadable),
        }
    }

    /// Validate a decoded manifest document against the schema and build the
    /// typed manifest from it. `decoded` is the TOML decoding of the
    /// handler's text, or nothing where that text is not valid TOML; both a
    /// failed decode and a document of the wrong shape are
    /// `ManifestMalformed`.
    pub fn parse_manifest(decoded: &Option<Vec<(String, TomlTop)>>) -> (r: Result<
        ManifestSchema,
        AcquireError,
    >)
        ensures
            match decoded {
                Option::None => r == Result::<ManifestSchema, AcquireError>::Err(
                    AcquireError::ManifestMalformed,
                ),
                Option::Some(doc) => {
                    &&& r is Ok <==> manifest_wf(doc_model(doc@))
                    &&& (r matches Ok(m) ==> manifest_matches_doc(m, doc_model(doc@)))
                    &&& (r is Err ==> r == Result::<ManifestSchema, AcquireError>::Err(
                        AcquireError::ManifestMalformed,
                    ))
                },
            },
    {
        let doc = match decoded {
            Option::Some(doc) => doc,
            Option::None => {
                return Err(AcquireError::ManifestMalformed);
            },
        };
        let package_entries = match lookup_table(doc, "package") {
            Option::Some(t) => t,
            Option::None => {
                return Err(AcquireError::ManifestMalformed);
            },
        };
        let name = match lookup_str(package_entries, "name") {
            Option::Some(s) => s,
            Option::None => {
                return Err(AcquireError::ManifestMalformed);
            },
        };
        let version = match lookup_str(package_entries, "version") {
            Option::Some(s) => s,
            Option::None => {
                return Err(AcquireError::ManifestMalformed);
            },
        };
        let git = match lookup_str(package_entries, "git") {
            Option::Some(s) => s,
            Option::None => {
                return Err(AcquireError::ManifestMalformed);
            },
        };
        let author = match lookup_author(package_entries) {
            Result::Ok(a) => a,
            Result::Err(e) => {
                return Err(e);
            },
        };
        let lib_entries = match lookup_table(doc, "lib") {
            Option::Some(t) => t,
            Option::None => {
                return Err(AcquireError::ManifestMalformed);
            },
        };
        let release_type = match lookup_str(lib_entries, "release_type") {
            Option::Some(s) => s,
            Option::None => {
                return Err(AcquireError::ManifestMalformed);
            },
        };
        let scripts_entries = match lookup_table(doc, "scripts") {
            Option::Some(t) => t,
            Option::None => {
                return Err(AcquireError::ManifestMalformed);
            },
        };
        let deps_entries = match lookup_table(doc, "dependencies") {
            Option::Some(t) => t,
            Option::None => {
                return Err(AcquireError::ManifestMalformed);
            },
        };
        Ok(
            ManifestSchema {
                package: PackageSection { name, version, author, git },
                lib: LibSection { release_type },
                scripts: clone_section(scripts_entries),
                dependencies: clone_section(deps_entries),
            },
        )
    }
}

/// The table stored at `key` of the document, where the document has a
/// table there.
fn lookup_table<'a>(doc: &'a Vec<(String, TomlTop)>, key: &str) -> (r: Option<
    &'a Vec<(String, TomlItem)>,
>)
    ensures
        match r {
            Option::Some(t) => assoc_lookup(doc_model(doc@), key@) == Some(
                TopModel::Table(section_model(t@)),
            ),
            Option::None => !(assoc_lookup(doc_model(doc@), key@) matches Some(
                TopModel::Table(_),
            )),
        },
{
    let owned_key = String::from_str(key);
    match find_key(doc, &owned_key) {
        Option::Some(i) => {
            proof {
                let d = doc_model(doc@);
                assert(forall|j: int| 0 <= j < i ==> d[j].0 != key@);
                lemma_assoc_lookup_first(d, key@, i as int);
            }
            match &doc[i].1 {
                TomlTop::Table(t) => Some(t),
                TomlTop::Other => None,
            }
        },
        Option::None => {
            proof {
                let d = doc_model(doc@);
                assert(forall|j: int| 0 <= j < d.len() ==> d[j].0 != key@);
                lemma_assoc_lookup_none(d, key@);
            }
            None
        },
    }
}

/// The string stored at `key` of a section, owned, where the section has a
/// string there.
fn lookup_str(entries: &Vec<(String, TomlItem)>, key: &str) -> (r: Option<String>)
    ensures
        match r {
            Option::Some(s) => assoc_lookup(section_model(entries@), key@) == Some(
                ItemModel::Str(s@),
            ) && s@ == str_at(section_model(entries@), key@),
            Option::None => !(assoc_lookup(section_model(entries@), key@) matches Some(
                ItemModel::Str(_),
            )),
        },
{
    let owned_key = String::from_str(key);
    match find_key(entries, &owned_key) {
        Option::Some(i) => {
            proof {
                let d = section_model(entries@);
                assert(forall|j: int| 0 <= j < i ==> d[j].0 != key@);
                lemma_assoc_lookup_first(d, key@, i as int);
            }
            match &entries[i].1 {
                TomlItem::Str(s) => Some(s.clone()),
                _ => None,
            }
        },
        Option::None => {
            proof {
                let d = section_model(entries@);
                assert(forall|j: int| 0 <= j < d.len() ==> d[j].0 != key@);
                lemma_assoc_lookup_none(d, key@);
            }
            None
        },
    }
}

/// The author list of the `package` section: absent is allowed, an array of
/// strings is taken whole, anything else is malformed.
fn lookup_author(entries: &Vec<(String, TomlItem)>) -> (r: Result<Option<Vec<String>>, AcquireError>)
    ensures
        match assoc_lookup(section_model(entries@), "author"@) {
            Option::None => r matches Ok(a) && a is None,
            Option::Some(ItemModel::StrArray(vs)) => r matches Ok(a) && (a matches Some(v)
                && v.deep_view() == vs),
            Option::Some(_) => r == Result::<Option<Vec<String>>, AcquireError>::Err(
                AcquireError::ManifestMalformed,
            ),
        },
{
    let owned_key = String::from_str("author");
    match find_key(entries, &owned_key) {
        Option::Some(i) => {
            proof {
                let d = section_model(entries@);
                assert(forall|j: int| 0 <= j < i ==> d[j].0 != "author"@);
                lemma_assoc_lookup_first(d, "author"@, i as int);
            }
            match &entries[i].1 {
                TomlItem::StrArray(vs) => Ok(Some(clone_string_vec(vs))),
                _ => Err(AcquireError::ManifestMalformed),
            }
        },
        Option::None => {
            proof {
                let d = section_model(entries@);
                assert(forall|j: int| 0 <= j < d.len() ==> d[j].0 != "author"@);
                lemma_assoc_lookup_none(d, "author"@);
            }
            Ok(None)
        },
    }
}

/// The post-install build command of a manifest: the string under
/// `post_install` of the `scripts` table. The schema does not itself demand
/// the key, so its absence — or a non-string value under it — surfaces as
/// `ManifestMalformed` here.
pub fn post_install_script(m: &ManifestSchema) -> (r: Result<String, AcquireError>)
    ensures
        match assoc_lookup(section_model(m.scripts@), "post_install"@) {
            Option::Some(ItemModel::Str(s)) => r matches Ok(c) && c@ == s,
            _ => r == Result::<String, AcquireError>::Err(AcquireError::ManifestMalformed),
        },
{
    match lookup_str(&m.scripts, "post_install") {
        Option::Some(s) => Ok(s),
        Option::None => Err(AcquireError::ManifestMalformed),
    }
}

} // verus!
