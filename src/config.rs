//! The run configuration: a key/value table as read from the configuration
//! store, and the typed record the engine works with.

use vstd::prelude::*;
use vstd::string::StringExecFns;
use crate::verdict::{Marker, marker_text};

verus! {

/// An item of a list in the configuration table.
#[derive(Debug)]
pub enum ListItem {
    Text(String),
    /// An item that is not a string.
    Other,
}

/// A value of the configuration table, reduced to what the engine reads.
#[derive(Debug)]
pub enum ConfigValue {
    Text(String),
    List(Vec<ListItem>),
    /// Any other kind of value (number, boolean, table, ...).
    Other,
}

/// The keys whose values the engine interprets.
#[derive(Clone, Copy, Debug, PartialEq, Eq, Structural)]
pub enum ConfigKey {
    Build,
    Run,
    Test,
    FilePath,
    DepsFiles,
}

/// Why a configuration table cannot be used.
#[derive(Clone, Copy, Debug, PartialEq, Eq, Structural)]
pub enum ConfigError {
    /// The required `run` entry is absent.
    MissingRun,
    /// The `run` entry is an empty list.
    EmptyRun,
    /// The entry should be a list.
    NotList(ConfigKey),
    /// The entry, or one of its items, should be a string.
    NotText(ConfigKey),
    /// The text is not a TOML document.
    Malformed,
}

/// What the engine reads from the configuration.
#[derive(Debug)]
pub struct RunConfig {
    pub build: Option<Vec<String>>,
    pub run: Vec<String>,
    pub test: Option<Vec<String>>,
    pub file_path: Option<String>,
    pub deps_files: Option<Vec<String>>,
}

pub struct RunConfigView {
    pub build: Option<Seq<Seq<char>>>,
    pub run: Seq<Seq<char>>,
    pub test: Option<Seq<Seq<char>>>,
    pub file_path: Option<Seq<char>>,
    pub deps_files: Option<Seq<Seq<char>>>,
}

pub open spec fn texts(v: Seq<String>) -> Seq<Seq<char>> {
    v.map_values(|s: String| s@)
}

pub open spec fn opt_texts(v: Option<Vec<String>>) -> Option<Seq<Seq<char>>> {
    match v {
        Some(l) => Some(texts(l@)),
        None => None,
    }
}

pub open spec fn opt_text(v: Option<String>) -> Option<Seq<char>> {
    match v {
        Some(s) => Some(s@),
        None => None,
    }
}

impl View for RunConfig {
    type V = RunConfigView;

    open spec fn view(&self) -> RunConfigView {
        RunConfigView {
            build: opt_texts(self.build),
            run: texts(self.run@),
            test: opt_texts(self.test),
            file_path: opt_text(self.file_path),
            deps_files: opt_texts(self.deps_files),
        }
    }
}

pub open spec fn key_name(k: ConfigKey) -> Seq<char> {
    match k {
        ConfigKey::Build => "build"@,
        ConfigKey::Run => "run"@,
        ConfigKey::Test => "test"@,
        ConfigKey::FilePath => "file_path"@,
        ConfigKey::DepsFiles => "deps_files"@,
    }
}

/// A value of the table as plain text: a list item that is not a string
/// is `None`.
pub enum ValueView {
    Text(Seq<char>),
    List(Seq<Option<Seq<char>>>),
    Other,
}

pub open spec fn item_view(i: ListItem) -> Option<Seq<char>> {
    match i {
        ListItem::Text(s) => Some(s@),
        ListItem::Other => None,
    }
}

impl View for ConfigValue {
    type V = ValueView;

    open spec fn view(&self) -> ValueView {
        match self {
            ConfigValue::Text(s) => ValueView::Text(s@),
            ConfigValue::List(items) => ValueView::List(items@.map_values(|i: ListItem| item_view(i))),
            ConfigValue::Other => ValueView::Other,
        }
    }
}

/// A table as (key, value) pairs of plain text.
pub open spec fn table_view(entries: Seq<(String, ConfigValue)>) -> Seq<(Seq<char>, ValueView)> {
    entries.map_values(|e: (String, ConfigValue)| (e.0@, e.1@))
}

/// The value of the first entry named `key`.
pub open spec fn lookup(entries: Seq<(Seq<char>, ValueView)>, key: Seq<char>) -> Option<ValueView>
    decreases entries.len(),
{
    if entries.len() == 0 {
        None
    } else {
        let earlier = lookup(entries.drop_last(), key);
        if earlier is Some {
            earlier
        } else if entries.last().0 == key {
            Some(entries.last().1)
        } else {
            None
        }
    }
}

/// The entry `k` read as an optional list of strings.
pub open spec fn string_list(entries: Seq<(Seq<char>, ValueView)>, k: ConfigKey) -> Result<
    Option<Seq<Seq<char>>>,
    ConfigError,
> {
    match lookup(entries, key_name(k)) {
        None => Ok(None),
        Some(ValueView::List(items)) => if forall|i: int|
            0 <= i < items.len() ==> (#[trigger] items[i]) is Some {
            Ok(Some(items.map_values(|o: Option<Seq<char>>| o->Some_0)))
        } else {
            Err(ConfigError::NotText(k))
        },
        Some(_) => Err(ConfigError::NotList(k)),
    }
}

/// The dependency list: a value that is not a list counts as absent.
pub open spec fn deps_list(entries: Seq<(Seq<char>, ValueView)>) -> Result<
    Option<Seq<Seq<char>>>,
    ConfigError,
> {
    match lookup(entries, key_name(ConfigKey::DepsFiles)) {
        Some(ValueView::List(_)) => string_list(entries, ConfigKey::DepsFiles),
        _ => Ok(None),
    }
}

pub open spec fn file_path_of(entries: Seq<(Seq<char>, ValueView)>) -> Result<
    Option<Seq<char>>,
    ConfigError,
> {
    match lookup(entries, key_name(ConfigKey::FilePath)) {
        None => Ok(None),
        Some(ValueView::Text(s)) => Ok(Some(s)),
        Some(_) => Err(ConfigError::NotText(ConfigKey::FilePath)),
    }
}

/// The first error of the table, checking `build`, `run`, `test`,
/// `file_path` and `deps_files` in that order, if there is one.
pub open spec fn config_error(entries: Seq<(Seq<char>, ValueView)>) -> Option<ConfigError> {
    if string_list(entries, ConfigKey::Build) is Err {
        Some(string_list(entries, ConfigKey::Build)->Err_0)
    } else if string_list(entries, ConfigKey::Run) is Err {
        Some(string_list(entries, ConfigKey::Run)->Err_0)
    } else if string_list(entries, ConfigKey::Run) == Ok::<_, ConfigError>(None::<Seq<Seq<char>>>) {
        Some(ConfigError::MissingRun)
    } else if string_list(entries, ConfigKey::Run)->Ok_0->Some_0.len() == 0 {
        Some(ConfigError::EmptyRun)
    } else if string_list(entries, ConfigKey::Test) is Err {
        Some(string_list(entries, ConfigKey::Test)->Err_0)
    } else if file_path_of(entries) is Err {
        Some(file_path_of(entries)->Err_0)
    } else if deps_list(entries) is Err {
        Some(deps_list(entries)->Err_0)
    } else {
        None
    }
}

/// The configuration read from a table that has no error.
pub open spec fn config_of(entries: Seq<(Seq<char>, ValueView)>) -> RunConfigView {
    RunConfigView {
        build: string_list(entries, ConfigKey::Build)->Ok_0,
        run: string_list(entries, ConfigKey::Run)->Ok_0->Some_0,
        test: string_list(entries, ConfigKey::Test)->Ok_0,
        file_path: file_path_of(entries)->Ok_0,
        deps_files: deps_list(entries)->Ok_0,
    }
}

/// The name of a key as it stands in the table.
pub fn key_text(k: ConfigKey) -> (r: String)
    ensures
        r@ == key_name(k),
{
    match k {
        ConfigKey::Build => String::from_str("build"),
        ConfigKey::Run => String::from_str("run"),
        ConfigKey::Test => String::from_str("test"),
        ConfigKey::FilePath => String::from_str("file_path"),
        ConfigKey::DepsFiles => String::from_str("deps_files"),
    }
}

/// The value of the first entry named `key`, if any.
pub fn lookup_entry<'a>(entries: &'a Vec<(String, ConfigValue)>, key: &String) -> (r: Option<
    &'a ConfigValue,
>)
    ensures
        r is Some <==> lookup(table_view(entries@), key@) is Some,
        r is Some ==> lookup(table_view(entries@), key@) == Some(r->Some_0@),
{
    let ghost tv = table_view(entries@);
    let mut i: usize = 0;
    while i < entries.len()
        invariant
            0 <= i <= entries@.len(),
            tv == table_view(entries@),
            lookup(tv.subrange(0, i as int), key@) is None,
        decreases entries@.len() - i,
    {
        assert(tv.subrange(0, i + 1).drop_last() =~= tv.subrange(0, i as int));
        if entries[i].0 == *key {
            proof {
                lemma_lookup_prefix(tv, key@, i + 1);
            }
            return Some(&entries[i].1);
        }
        i = i + 1;
    }
    assert(tv.subrange(0, entries@.len() as int) =~= tv);
    None
}

/// A match found in a prefix is the match of the whole table.
pub proof fn lemma_lookup_prefix(entries: Seq<(Seq<char>, ValueView)>, key: Seq<char>, n: int)
    requires
        0 <= n <= entries.len(),
        lookup(entries.subrange(0, n), key) is Some,
    ensures
        lookup(entries, key) == lookup(entries.subrange(0, n), key),
    decreases entries.len() - n,
{
    if n < entries.len() {
        assert(entries.subrange(0, n + 1).drop_last() =~= entries.subrange(0, n));
        lemma_lookup_prefix(entries, key, n + 1);
    } else {
        assert(entries.subrange(0, n) =~= entries);
    }
}

/// The entry `k` as an optional list of strings.
pub fn get_string_list(entries: &Vec<(String, ConfigValue)>, k: ConfigKey) -> (r: Result<
    Option<Vec<String>>,
    ConfigError,
>)
    ensures
        r is Ok ==> string_list(table_view(entries@), k) == Ok::<_, ConfigError>(opt_texts(r->Ok_0)),
        r is Err ==> string_list(table_view(entries@), k) == Err::<Option<Seq<Seq<char>>>, _>(
            r->Err_0,
        ),
{
    let key = key_text(k);
    let found = lookup_entry(entries, &key);
    match found {
        None => Ok(None),
        Some(ConfigValue::List(items)) => {
            let ghost iv = items@.map_values(|i: ListItem| item_view(i));
            assert(found->Some_0@ == ValueView::List(iv));
            let mut out: Vec<String> = Vec::new();
            let mut i: usize = 0;
            while i < items.len()
                invariant
                    0 <= i <= items@.len(),
                    iv == items@.map_values(|i: ListItem| item_view(i)),
                    lookup(table_view(entries@), key_name(k)) == Some(ValueView::List(iv)),
                    forall|j: int| 0 <= j < i ==> (#[trigger] iv[j]) is Some,
                    texts(out@) =~= iv.subrange(0, i as int).map_values(
                        |o: Option<Seq<char>>| o->Some_0,
                    ),
                decreases items@.len() - i,
            {
                let ghost before = out@;
                match &items[i] {
                    ListItem::Text(t) => {
                        out.push(t.clone());
                        assert(texts(out@) =~= texts(before).push(iv[i as int]->Some_0));
                    },
                    ListItem::Other => {
                        assert(iv[i as int] is None);
                        return Err(ConfigError::NotText(k));
                    },
                }
                assert(iv.subrange(0, i + 1) =~= iv.subrange(0, i as int).push(iv[i as int]));
                i = i + 1;
            }
            assert(iv.subrange(0, items@.len() as int) =~= iv);
            Ok(Some(out))
        },
        Some(_) => Err(ConfigError::NotList(k)),
    }
}

impl RunConfig {
    /// Reads the configuration out of a table, or reports the first problem
    /// among `build`, `run`, `test`, `file_path` and `deps_files`.
    pub fn from_entries(entries: &Vec<(String, ConfigValue)>) -> (r: Result<RunConfig, ConfigError>)
        ensures
            r is Ok <==> config_error(table_view(entries@)) is None,
            r is Ok ==> r->Ok_0@ == config_of(table_view(entries@)),
            r is Err ==> config_error(table_view(entries@)) == Some(r->Err_0),
    {
        let build = match get_string_list(entries, ConfigKey::Build) {
            Ok(b) => b,
            Err(e) => return Err(e),
        };
        let run = match get_string_list(entries, ConfigKey::Run) {
            Ok(Some(l)) => l,
            Ok(None) => return Err(ConfigError::MissingRun),
            Err(e) => return Err(e),
        };
        if run.len() == 0 {
            return Err(ConfigError::EmptyRun);
        }
        let test = match get_string_list(entries, ConfigKey::Test) {
            Ok(t) => t,
            Err(e) => return Err(e),
        };
        let key = key_text(ConfigKey::FilePath);
        let file_path = match lookup_entry(entries, &key) {
            None => None,
            Some(ConfigValue::Text(p)) => Some(p.clone()),
            Some(_) => return Err(ConfigError::NotText(ConfigKey::FilePath)),
        };
        let key = key_text(ConfigKey::DepsFiles);
        let deps_files = match lookup_entry(entries, &key) {
            Some(ConfigValue::List(_)) => match get_string_list(entries, ConfigKey::DepsFiles) {
                Ok(d) => d,
                Err(e) => return Err(e),
            },
            _ => None,
        };
        Ok(RunConfig { build, run, test, file_path, deps_files })
    }
}

/// Whether two lists of strings hold the same strings in the same order.
pub fn same_texts(a: &Vec<String>, b: &Vec<String>) -> (r: bool)
    ensures
        r == (texts(a@) == texts(b@)),
{
    if a.len() != b.len() {
        assert(texts(a@).len() != texts(b@).len());
        return false;
    }
    let mut i: usize = 0;
    while i < a.len()
        invariant
            0 <= i <= a@.len(),
            a@.len() == b@.len(),
            forall|j: int| 0 <= j < i ==> (#[trigger] a@[j])@ == b@[j]@,
        decreases a@.len() - i,
    {
        if a[i] != b[i] {
            assert(texts(a@)[i as int] != texts(b@)[i as int]);
            return false;
        }
        i = i + 1;
    }
    assert(texts(a@) =~= texts(b@));
    true
}

fn same_opt_texts(a: &Option<Vec<String>>, b: &Option<Vec<String>>) -> (r: bool)
    ensures
        r == (opt_texts(*a) == opt_texts(*b)),
{
    match (a, b) {
        (Some(x), Some(y)) => same_texts(x, y),
        (None, None) => true,
        _ => false,
    }
}

fn same_opt_text(a: &Option<String>, b: &Option<String>) -> (r: bool)
    ensures
        r == (opt_text(*a) == opt_text(*b)),
{
    match (a, b) {
        (Some(x), Some(y)) => *x == *y,
        (None, None) => true,
        _ => false,
    }
}

/// A copy of a list of strings.
pub fn copy_texts(v: &Vec<String>) -> (r: Vec<String>)
    ensures
        r@ == v@,
{
    let mut out: Vec<String> = Vec::new();
    let mut i: usize = 0;
    while i < v.len()
        invariant
            0 <= i <= v@.len(),
            out@ == v@.subrange(0, i as int),
        decreases v@.len() - i,
    {
        out.push(v[i].clone());
        assert(v@.subrange(0, i + 1) =~= v@.subrange(0, i as int).push(v@[i as int]));
        i = i + 1;
    }
    assert(v@.subrange(0, v@.len() as int) =~= v@);
    out
}

fn copy_opt_texts(v: &Option<Vec<String>>) -> (r: Option<Vec<String>>)
    ensures
        opt_texts(r) == opt_texts(*v),
{
    match v {
        Some(l) => Some(copy_texts(l)),
        None => None,
    }
}

impl RunConfig {
    /// Whether two configurations read alike.
    pub fn same_as(&self, other: &RunConfig) -> (r: bool)
        ensures
            r == (self@ == other@),
    {
        same_opt_texts(&self.build, &other.build) && same_texts(&self.run, &other.run)
            && same_opt_texts(&self.test, &other.test) && same_opt_text(
            &self.file_path,
            &other.file_path,
        ) && same_opt_texts(&self.deps_files, &other.deps_files)
    }

    /// A copy of the configuration.
    pub fn duplicate(&self) -> (r: RunConfig)
        ensures
            r@ == self@,
    {
        RunConfig {
            build: copy_opt_texts(&self.build),
            run: copy_texts(&self.run),
            test: copy_opt_texts(&self.test),
            file_path: match &self.file_path {
                Some(p) => Some(p.clone()),
                None => None,
            },
            deps_files: copy_opt_texts(&self.deps_files),
        }
    }
}

/// The entries of a TOML document's top-level table, in the table's order.
pub uninterp spec fn toml_entries(text: Seq<char>) -> Option<Seq<(Seq<char>, ValueView)>>;

/// Relies on toml: `str::parse::<toml::Table>` (`None` when the text is not a
/// TOML document) and the table's iteration order; each value is told apart
/// by its variant (string, array of items that are strings or not, other).
#[verifier::external_body]
fn parse_table(text: &str) -> (r: Option<Vec<(String, ConfigValue)>>)
    ensures
        r is Some <==> toml_entries(text@) is Some,
        r is Some ==> toml_entries(text@)->Some_0 == table_view(r->Some_0@),
{
    let table = text.parse::<toml::Table>().ok()?;
    Some(table.into_iter().map(|(k, v)| (k, match v {
        toml::Value::String(s) => ConfigValue::Text(s),
        toml::Value::Array(a) => ConfigValue::List(a.into_iter().map(|i| match i {
            toml::Value::String(s) => ListItem::Text(s),
            _ => ListItem::Other,
        }).collect()),
        _ => ConfigValue::Other,
    })).collect())
}

/// The table that a configuration text holds.
pub fn config_table(text: &str) -> (r: Result<Vec<(String, ConfigValue)>, ConfigError>)
    ensures
        r is Ok <==> toml_entries(text@) is Some,
        r is Ok ==> toml_entries(text@)->Some_0 == table_view(r->Ok_0@),
        r is Err ==> r->Err_0 == ConfigError::Malformed,
{
    match parse_table(text) {
        Some(entries) => Ok(entries),
        None => Err(ConfigError::Malformed),
    }
}

/// Whether a `deps_files` entry is present but, not being a list, ignored.
pub fn deps_ignored(entries: &Vec<(String, ConfigValue)>) -> (r: bool)
    ensures
        r == (lookup(table_view(entries@), key_name(ConfigKey::DepsFiles)) is Some && !(lookup(
            table_view(entries@),
            key_name(ConfigKey::DepsFiles),
        ) matches Some(ValueView::List(_)))),
{
    let key = key_text(ConfigKey::DepsFiles);
    match lookup_entry(entries, &key) {
        Some(ConfigValue::List(_)) => false,
        Some(_) => true,
        None => false,
    }
}

impl RunConfig {
    /// Reads the configuration out of a TOML text.
    pub fn parse(text: &str) -> (r: Result<RunConfig, ConfigError>)
        ensures
            toml_entries(text@) is None ==> r is Err && r->Err_0 == ConfigError::Malformed,
            toml_entries(text@) matches Some(t) ==> {
                &&& (r is Ok <==> config_error(t) is None)
                &&& r is Ok ==> r->Ok_0@ == config_of(t)
                &&& r is Err ==> config_error(t) == Some(r->Err_0)
            },
    {
        match config_table(text) {
            Ok(entries) => RunConfig::from_entries(&entries),
            Err(e) => Err(e),
        }
    }
}

/// The message that reports a configuration error.
pub open spec fn config_message(e: ConfigError) -> Seq<char> {
    marker_text(Marker::Minus) + " "@ + match e {
        ConfigError::MissingRun => "\"attest.toml\" must have \"run\" value"@,
        ConfigError::EmptyRun => "the length of \"run\" value has to be more than 0"@,
        ConfigError::NotList(k) => "\""@ + key_name(k) + "\" value has to be array"@,
        ConfigError::NotText(ConfigKey::FilePath) => "the \"file_path\" value has to be string"@,
        ConfigError::NotText(k) => "items of \""@ + key_name(k) + "\" value have to be string"@,
        ConfigError::Malformed => "\"attest.toml\" has wrong format"@,
    }
}

impl ConfigError {
    /// The message that reports the error.
    pub fn message(&self) -> (r: String)
        ensures
            r@ == config_message(*self),
    {
        let text = match self {
            ConfigError::MissingRun => String::from_str("\"attest.toml\" must have \"run\" value"),
            ConfigError::EmptyRun => String::from_str(
                "the length of \"run\" value has to be more than 0",
            ),
            ConfigError::NotList(k) => String::from_str("\"").concat(key_text(*k).as_str()).concat(
                "\" value has to be array",
            ),
            ConfigError::NotText(ConfigKey::FilePath) => String::from_str(
                "the \"file_path\" value has to be string",
            ),
            ConfigError::NotText(k) => String::from_str("items of \"").concat(
                key_text(*k).as_str(),
            ).concat("\" value have to be string"),
            ConfigError::Malformed => String::from_str("\"attest.toml\" has wrong format"),
        };
        Marker::minus(text.as_str())
    }
}

} // verus!
