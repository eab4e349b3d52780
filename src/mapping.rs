//! Resolution of symbolic pin names to device file paths.
//!
//! A mapping document is a JSON object whose member `gpio_mapping`, its pin
//! table, is an object from pin names to device paths, for instance
//! `{"gpio_mapping": {"gpio1": "/dev/gpio1"}}`; other members are ignored.
//! `get_path` reports why a document gives no pin table; `resolve` is
//! fail-soft: such a document, or a name that the table does not list,
//! resolves to the empty path.

use vstd::prelude::*;

verus! {

/// The member of a mapping document that holds the pin table.
pub const MAPPING_SECTION: &'static str = "gpio_mapping";

/// Where the mapping document lies below the base directory.
pub const MAPPING_FILE: &'static str = "/mapping/gpio-mapping.json";

/// What serde_json reads from `text` as a JSON object: for each member its
/// name and its value written back as compact JSON text, in the map's order;
/// `None` where the text is no object.
pub uninterp spec fn object_members_of(text: Seq<char>) -> Option<Seq<(Seq<char>, Seq<char>)>>;

/// What serde_json reads from `text` as an object of strings: each member's
/// name and string, in the map's order; `None` where the text is no such
/// object.
pub uninterp spec fn string_table_of(text: Seq<char>) -> Option<Seq<(Seq<char>, Seq<char>)>>;

/// The view of a list of string pairs.
pub open spec fn pairs_view(pairs: Seq<(String, String)>) -> Seq<(Seq<char>, Seq<char>)> {
    pairs.map_values(|p: (String, String)| (p.0@, p.1@))
}

/// No key occurs twice.
pub open spec fn keys_distinct<V>(entries: Seq<(Seq<char>, V)>) -> bool {
    forall|i: int, j: int| 0 <= i < j < entries.len() ==> entries[i].0 != entries[j].0
}

/// The value of the first entry whose key is `key`.
pub open spec fn value_for<V>(entries: Seq<(Seq<char>, V)>, key: Seq<char>) -> Option<V>
    decreases entries.len(),
{
    if entries.len() == 0 {
        None
    } else if entries[0].0 == key {
        Some(entries[0].1)
    } else {
        value_for(entries.drop_first(), key)
    }
}

/// The path that `table` records for `name`, or the empty path.
pub open spec fn path_in(table: Seq<(Seq<char>, Seq<char>)>, name: Seq<char>) -> Seq<char> {
    match value_for(table, name) {
        Some(path) => path,
        None => Seq::empty(),
    }
}

/// The pin table of the mapping document `document`: its `gpio_mapping`
/// member read as an object of strings.
pub open spec fn pin_table_of(document: Seq<char>) -> Option<Seq<(Seq<char>, Seq<char>)>> {
    match object_members_of(document) {
        Some(members) => match value_for(members, MAPPING_SECTION@) {
            Some(section) => string_table_of(section),
            None => None,
        },
        None => None,
    }
}

/// The path that the mapping document `document` gives `name`; empty where
/// it has no pin table or the table does not list `name`.
pub open spec fn resolved(document: Seq<char>, name: Seq<char>) -> Seq<char> {
    match pin_table_of(document) {
        Some(table) => path_in(table, name),
        None => Seq::empty(),
    }
}

/// `i` is the first index whose key is `key`.
pub open spec fn is_first_index<V>(entries: Seq<(Seq<char>, V)>, key: Seq<char>, i: int) -> bool {
    &&& 0 <= i < entries.len()
    &&& entries[i].0 == key
    &&& forall|j: int| 0 <= j < i ==> entries[j].0 != key
}

/// The first entry with a key is the one that `value_for` picks.
pub proof fn lemma_value_for_first<V>(entries: Seq<(Seq<char>, V)>, key: Seq<char>, i: int)
    requires
        is_first_index(entries, key, i),
    ensures
        value_for(entries, key) == Some(entries[i].1),
    decreases entries.len(),
{
    if i > 0 {
        let rest = entries.drop_first();
        assert(is_first_index(rest, key, i - 1)) by {
            assert forall|j: int| 0 <= j < i - 1 implies rest[j].0 != key by {
                assert(rest[j] == entries[j + 1]);
            }
        }
        lemma_value_for_first(rest, key, i - 1);
    }
}

/// Where no entry has the key, `value_for` finds none.
pub proof fn lemma_value_for_absent<V>(entries: Seq<(Seq<char>, V)>, key: Seq<char>)
    requires
        forall|j: int| 0 <= j < entries.len() ==> entries[j].0 != key,
    ensures
        value_for(entries, key) is None,
    decreases entries.len(),
{
    if entries.len() > 0 {
        let rest = entries.drop_first();
        assert forall|j: int| 0 <= j < rest.len() implies rest[j].0 != key by {
            assert(rest[j] == entries[j + 1]);
        }
        lemma_value_for_absent(rest, key);
    }
}

/// Where keys are distinct, an entry with a key is the first one.
pub proof fn lemma_distinct_first<V>(entries: Seq<(Seq<char>, V)>, i: int)
    requires
        keys_distinct(entries),
        0 <= i < entries.len(),
    ensures
        is_first_index(entries, entries[i].0, i),
{
}

/// A pin name resolves to exactly the path that the document's pin table
/// records under it; a name that the table does not list, or any name in a
/// document without a pin table, resolves to the empty path.
pub proof fn lemma_resolve_recorded_path(document: Seq<char>, name: Seq<char>)
    requires
        pin_table_of(document) matches Some(table) ==> keys_distinct(table),
    ensures
        pin_table_of(document) matches Some(table) ==> forall|i: int|
            0 <= i < table.len() && #[trigger] table[i].0 == name ==> resolved(document, name) == table[i].1,
        pin_table_of(document) matches Some(table) ==> (forall|i: int|
            0 <= i < table.len() ==> #[trigger] table[i].0 != name) ==> resolved(document, name) == Seq::<char>::empty(),
        pin_table_of(document) is None ==> resolved(document, name) == Seq::<char>::empty(),
{
    if let Some(table) = pin_table_of(document) {
        assert forall|i: int| 0 <= i < table.len() && #[trigger] table[i].0 == name implies resolved(document, name) == table[i].1 by {
            lemma_distinct_first(table, i);
            lemma_value_for_first(table, name, i);
        }
        if forall|i: int| 0 <= i < table.len() ==> #[trigger] table[i].0 != name {
            lemma_value_for_absent(table, name);
        }
    }
}

/// Resolution depends on the document and the name alone: resolving one
/// name twice against an unchanged document gives one path.
pub proof fn lemma_resolve_idempotent(document: Seq<char>, unchanged: Seq<char>, name: Seq<char>)
    requires
        unchanged == document,
    ensures
        resolved(document, name) == resolved(unchanged, name),
{
}

/// Why a mapping document gives no pin table.
#[derive(Clone, Copy, Debug, PartialEq, Eq, Structural)]
pub enum MappingError {
    /// serde_json could not read the document, or its pin table, as it must
    /// be; the position of the fault, one-based (0 where it knows none).
    Malformed { line: usize, column: usize },
    /// The document is an object without a `gpio_mapping` member.
    MissingSection,
}

#[verifier::external_type_specification]
#[verifier::external_body]
pub struct ExJsonError(serde_json::Error);

/// Relies on serde_json::Error::line: the line at which the fault was found.
pub assume_specification[ serde_json::Error::line ](e: &serde_json::Error) -> usize;

/// Relies on serde_json::Error::column: the column at which the fault was found.
pub assume_specification[ serde_json::Error::column ](e: &serde_json::Error) -> usize;

/// Relies on serde_json::from_str read into a BTreeMap of serde_json::Value,
/// and on Value's Display, which writes a value back as compact JSON: `Ok`
/// exactly where the text is a JSON object. The members come in the map's
/// own order, which holds each name once.
#[verifier::external_body]
fn parse_object_members(text: &str) -> (r: Result<Vec<(String, String)>, serde_json::Error>)
    ensures
        match r {
            Ok(members) => object_members_of(text@) == Some(pairs_view(members@))
                && keys_distinct(pairs_view(members@)),
            Err(_) => object_members_of(text@) is None,
        },
{
    let members: std::collections::BTreeMap<String, serde_json::Value> = serde_json::from_str(text)?;
    Ok(members.into_iter().map(|(name, value)| (name, value.to_string())).collect())
}

/// Relies on serde_json::from_str read into a BTreeMap of strings: `Ok`
/// exactly where the text is an object of strings. The members come in the
/// map's own order, which holds each name once.
#[verifier::external_body]
fn parse_string_table(text: &str) -> (r: Result<Vec<(String, String)>, serde_json::Error>)
    ensures
        match r {
            Ok(table) => string_table_of(text@) == Some(pairs_view(table@)) && keys_distinct(pairs_view(table@)),
            Err(_) => string_table_of(text@) is None,
        },
{
    let table: std::collections::BTreeMap<String, String> = serde_json::from_str(text)?;
    Ok(table.into_iter().collect())
}

/// The fault that serde_json reports, as a mapping error.
fn malformed(e: &serde_json::Error) -> (r: MappingError)
    ensures
        r matches MappingError::Malformed { .. },
{
    MappingError::Malformed { line: e.line(), column: e.column() }
}

/// The index of the first entry whose key is `key`, if any.
pub fn position<V>(entries: &Vec<(String, V)>, key: &String) -> (r: Option<usize>)
    ensures
        match r {
            Some(i) => {
                &&& i < entries.len()
                &&& entries@[i as int].0@ == key@
                &&& forall|j: int| 0 <= j < i ==> entries@[j].0@ != key@
            },
            None => forall|j: int| 0 <= j < entries.len() ==> entries@[j].0@ != key@,
        },
{
    let mut i: usize = 0;
    while i < entries.len()
        invariant
            i <= entries.len(),
            forall|j: int| 0 <= j < i ==> entries@[j].0@ != key@,
        decreases entries.len() - i,
    {
        if entries[i].0 == *key {
            return Some(i);
        }
        i = i + 1;
    }
    None
}

/// The value of the first entry of `entries` whose key is `key`, if any.
pub fn value_of(entries: &Vec<(String, String)>, key: &str) -> (r: Option<String>)
    ensures
        match r {
            Some(v) => value_for(pairs_view(entries@), key@) == Some(v@),
            None => value_for(pairs_view(entries@), key@) is None,
        },
{
    let key = key.to_owned();
    let ghost view = pairs_view(entries@);
    match position(entries, &key) {
        Some(i) => {
            proof {
                lemma_value_for_first(view, key@, i as int);
            }
            Some(entries[i].1.clone())
        },
        None => {
            proof {
                lemma_value_for_absent(view, key@);
            }
            None
        },
    }
}

/// The path that `table` records for `gpio_device`, or the empty path.
pub fn path_in_table(table: &Vec<(String, String)>, gpio_device: &str) -> (r: String)
    ensures
        r@ == path_in(pairs_view(table@), gpio_device@),
{
    match value_of(table, gpio_device) {
        Some(path) => path,
        None => String::new(),
    }
}

/// Reads `document` as a mapping document and looks `gpio_device` up in its
/// pin table: the empty path where the table does not list it; an error
/// where the document is no JSON object, has no pin table, or its pin table
/// is not an object of strings.
pub fn get_path(document: &str, gpio_device: &str) -> (r: Result<String, MappingError>)
    ensures
        match object_members_of(document@) {
            None => r matches Err(MappingError::Malformed { .. }),
            Some(members) => match value_for(members, MAPPING_SECTION@) {
                None => r == Err::<String, MappingError>(MappingError::MissingSection),
                Some(section) => match string_table_of(section) {
                    None => r matches Err(MappingError::Malformed { .. }),
                    Some(table) => r matches Ok(path) && path@ == path_in(table, gpio_device@),
                },
            },
        },
{
    let members = match parse_object_members(document) {
        Ok(members) => members,
        Err(e) => return Err(malformed(&e)),
    };
    let section = match value_of(&members, MAPPING_SECTION) {
        Some(section) => section,
        None => return Err(MappingError::MissingSection),
    };
    match parse_string_table(&section) {
        Ok(table) => Ok(path_in_table(&table, gpio_device)),
        Err(e) => Err(malformed(&e)),
    }
}

/// The device path of `gpio_device` after `document`; the empty path where
/// the document gives no pin table.
pub fn resolve(document: &str, gpio_device: &str) -> (r: String)
    ensures
        r@ == resolved(document@, gpio_device@),
{
    match get_path(document, gpio_device) {
        Ok(path) => path,
        Err(_) => String::new(),
    }
}

/// The path of the mapping document below `directory`.
pub fn mapping_file_path(directory: &str) -> (r: String)
    ensures
        r@ == directory@ + MAPPING_FILE@,
{
    directory.to_owned().concat(MAPPING_FILE)
}

} // verus!
