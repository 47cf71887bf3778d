//! The configuration document: TOML text with four optional string keys.
//!
//! The `toml` crate reads and writes the text. What is verified here is what
//! the library makes of the entries it reads and of the lines it writes.

use vstd::prelude::*;
use crate::config::{empty_config, text_of, ToolConfig, ToolConfigView};
use crate::error::ToolError;

verus! {

/// One top-level entry of a document: its key and, where the value is a
/// string, that string.
#[derive(Clone, Debug, PartialEq, Eq)]
pub struct Entry {
    pub key: String,
    pub text: Option<String>,
}

/// The entries of a list as plain text.
pub open spec fn entry_views(entries: Seq<Entry>) -> Seq<(Seq<char>, Option<Seq<char>>)> {
    entries.map_values(|e: Entry| (e.key@, text_of(e.text)))
}

/// The entries of an optional list as plain text.
pub open spec fn parsed_view(entries: Option<Vec<Entry>>) -> Option<
    Seq<(Seq<char>, Option<Seq<char>>)>,
> {
    match entries {
        Some(list) => Some(entry_views(list@)),
        None => None,
    }
}

/// The top-level entries that `toml::from_str` reads from `text` as a
/// `toml::Table`, in the table's order, each string value as its text and
/// every other value as `None`; `None` where the text is not a TOML document.
pub uninterp spec fn toml_entries(text: Seq<char>) -> Option<Seq<(Seq<char>, Option<Seq<char>>)>>;

/// The text that `toml::to_string` gives for the table that holds the one
/// entry `key = value`, `value` a string; `None` where it reports an error.
pub uninterp spec fn toml_line(key: Seq<char>, value: Seq<char>) -> Option<Seq<char>>;

/// Calls `toml::from_str` to read `text` as a `toml::Table` and hands out the
/// table's entries in the order of its iterator. The contract only names the
/// result: nothing is claimed of how a given text parses.
#[verifier::external_body]
fn parse_entries(text: &str) -> (entries: Option<Vec<Entry>>)
    ensures
        parsed_view(entries) == toml_entries(text@),
{
    match toml::from_str::<toml::Table>(text) {
        Ok(table) => Some(
            table.iter().map(
                |(k, v)| Entry { key: k.clone(), text: v.as_str().map(|s| s.to_string()) },
            ).collect(),
        ),
        Err(_) => None,
    }
}

/// Calls `toml::to_string` on a `toml::Table` that holds the single entry
/// `key = value`. The contract only names the result.
#[verifier::external_body]
fn render_entry(key: &str, value: &str) -> (line: Option<String>)
    ensures
        text_of(line) == toml_line(key@, value@),
{
    let mut table = toml::Table::new();
    table.insert(key.to_string(), toml::Value::String(value.to_string()));
    toml::to_string(&table).ok()
}

/// What a list of entries holds under `key`: `None` where no entry has the
/// key, else the value of the first such entry, itself `None` where that
/// value is not a string.
pub open spec fn find(entries: Seq<(Seq<char>, Option<Seq<char>>)>, key: Seq<char>) -> Option<
    Option<Seq<char>>,
>
    decreases entries.len(),
{
    if entries.len() == 0 {
        None
    } else if entries[0].0 == key {
        Some(entries[0].1)
    } else {
        find(entries.drop_first(), key)
    }
}

/// One field of the record as a list of entries gives it: absent where the
/// key is absent, the text where the value is a string, and a parse error
/// where the value is anything else.
pub open spec fn field_of(entries: Seq<(Seq<char>, Option<Seq<char>>)>, key: Seq<char>) -> Result<
    Option<Seq<char>>,
    ToolError,
> {
    match find(entries, key) {
        None => Ok(None),
        Some(Some(text)) => Ok(Some(text)),
        Some(None) => Err(ToolError::Parse),
    }
}

/// The record that a list of entries gives. Keys other than the four of the
/// record are ignored.
pub open spec fn config_of(entries: Seq<(Seq<char>, Option<Seq<char>>)>) -> Result<
    ToolConfigView,
    ToolError,
> {
    let compiler = field_of(entries, "compiler_path"@);
    let vm = field_of(entries, "vm_path"@);
    let sanusb = field_of(entries, "sanusb_path"@);
    let infra = field_of(entries, "infra_path"@);
    if compiler.is_ok() && vm.is_ok() && sanusb.is_ok() && infra.is_ok() {
        Ok(
            ToolConfigView {
                compiler_path: compiler.unwrap(),
                vm_path: vm.unwrap(),
                sanusb_path: sanusb.unwrap(),
                infra_path: infra.unwrap(),
            },
        )
    } else {
        Err(ToolError::Parse)
    }
}

/// The record that the configuration file gives: every field absent where
/// there is no file, a parse error where its text is not a TOML document or
/// gives one of the four keys a value that is not a string.
pub open spec fn loaded(text: Option<Seq<char>>) -> Result<ToolConfigView, ToolError> {
    match text {
        None => Ok(empty_config()),
        Some(t) => match toml_entries(t) {
            None => Err(ToolError::Parse),
            Some(entries) => config_of(entries),
        },
    }
}

/// A record or an error, the record as plain text.
pub open spec fn outcome_view(outcome: Result<ToolConfig, ToolError>) -> Result<
    ToolConfigView,
    ToolError,
> {
    match outcome {
        Ok(config) => Ok(config@),
        Err(e) => Err(e),
    }
}

proof fn lemma_find_step(entries: Seq<(Seq<char>, Option<Seq<char>>)>, key: Seq<char>, i: int)
    requires
        0 <= i < entries.len(),
        entries[i].0 != key,
    ensures
        find(entries.subrange(i, entries.len() as int), key) == find(
            entries.subrange(i + 1, entries.len() as int),
            key,
        ),
{
    let rest = entries.subrange(i, entries.len() as int);
    assert(rest.drop_first() =~= entries.subrange(i + 1, entries.len() as int));
}

/// Reads one field of the record from a list of entries.
pub fn read_field(entries: &Vec<Entry>, key: &str) -> (field: Result<Option<String>, ToolError>)
    ensures
        match field {
            Ok(value) => field_of(entry_views(entries@), key@) == Ok::<
                Option<Seq<char>>,
                ToolError,
            >(text_of(value)),
            Err(e) => field_of(entry_views(entries@), key@) == Err::<Option<Seq<char>>, ToolError>(
                e,
            ),
        },
{
    let wanted = String::from_str(key);
    let ghost all = entry_views(entries@);
    let mut i: usize = 0;
    proof {
        assert(all.subrange(0, all.len() as int) =~= all);
    }
    while i < entries.len()
        invariant
            0 <= i <= entries.len(),
            all == entry_views(entries@),
            wanted@ == key@,
            find(all, key@) == find(all.subrange(i as int, all.len() as int), key@),
        decreases entries.len() - i,
    {
        let entry = &entries[i];
        if entry.key == wanted {
            return match &entry.text {
                Some(text) => Ok(Some(text.clone())),
                None => Err(ToolError::Parse),
            };
        }
        proof {
            lemma_find_step(all, key@, i as int);
        }
        i += 1;
    }
    Ok(None)
}

/// Builds the record from the entries of a document.
pub fn config_from_entries(entries: &Vec<Entry>) -> (outcome: Result<ToolConfig, ToolError>)
    ensures
        outcome_view(outcome) == config_of(entry_views(entries@)),
{
    let compiler = read_field(entries, "compiler_path");
    let vm = read_field(entries, "vm_path");
    let sanusb = read_field(entries, "sanusb_path");
    let infra = read_field(entries, "infra_path");
    match (compiler, vm, sanusb, infra) {
        (Ok(compiler_path), Ok(vm_path), Ok(sanusb_path), Ok(infra_path)) => Ok(
            ToolConfig { compiler_path, vm_path, sanusb_path, infra_path },
        ),
        _ => Err(ToolError::Parse),
    }
}

/// Loads the record from the text of the configuration file, `None` where
/// the file is absent.
pub fn load(text: &Option<String>) -> (outcome: Result<ToolConfig, ToolError>)
    ensures
        outcome_view(outcome) == loaded(text_of(*text)),
{
    match text {
        None => Ok(ToolConfig::empty()),
        Some(t) => match parse_entries(t.as_str()) {
            None => Err(ToolError::Parse),
            Some(entries) => config_from_entries(&entries),
        },
    }
}

/// The line that one field contributes to the document: nothing where the
/// field is absent.
pub open spec fn field_line(key: Seq<char>, field: Option<Seq<char>>) -> Option<Seq<char>> {
    match field {
        None => Some(Seq::empty()),
        Some(value) => toml_line(key, value),
    }
}

/// Four texts one after the other, where all four are there.
pub open spec fn joined(
    first: Option<Seq<char>>,
    second: Option<Seq<char>>,
    third: Option<Seq<char>>,
    fourth: Option<Seq<char>>,
) -> Option<Seq<char>> {
    if first.is_some() && second.is_some() && third.is_some() && fourth.is_some() {
        Some(first.unwrap() + second.unwrap() + third.unwrap() + fourth.unwrap())
    } else {
        None
    }
}

/// The text of the document for a record: one line for each field that is
/// present, in the order compiler, VM, flashing project, infra.
pub open spec fn rendered(config: ToolConfigView) -> Option<Seq<char>> {
    joined(
        field_line("compiler_path"@, config.compiler_path),
        field_line("vm_path"@, config.vm_path),
        field_line("sanusb_path"@, config.sanusb_path),
        field_line("infra_path"@, config.infra_path),
    )
}

fn render_field(key: &str, field: &Option<String>) -> (line: Option<String>)
    ensures
        text_of(line) == field_line(key@, text_of(*field)),
{
    match field {
        None => Some(String::new()),
        Some(value) => render_entry(key, value.as_str()),
    }
}

/// Joins the lines of the four fields, or gives `None` where one of them
/// could not be written.
pub fn join_lines(
    first: Option<String>,
    second: Option<String>,
    third: Option<String>,
    fourth: Option<String>,
) -> (text: Option<String>)
    ensures
        text_of(text) == joined(text_of(first), text_of(second), text_of(third), text_of(fourth)),
{
    match (first, second, third, fourth) {
        (Some(a), Some(b), Some(c), Some(d)) => Some(
            a.concat(b.as_str()).concat(c.as_str()).concat(d.as_str()),
        ),
        _ => None,
    }
}

/// Writes the record as the text of the document.
pub fn render(config: &ToolConfig) -> (text: Option<String>)
    ensures
        text_of(text) == rendered(config@),
{
    join_lines(
        render_field("compiler_path", &config.compiler_path),
        render_field("vm_path", &config.vm_path),
        render_field("sanusb_path", &config.sanusb_path),
        render_field("infra_path", &config.infra_path),
    )
}

} // verus!
