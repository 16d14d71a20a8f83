//! The metadata decoder: the metadata block's text is parsed as a key-value
//! mapping, the four required text fields are extracted, and every other key
//! is kept, value untouched, in the residual map.

use vstd::prelude::*;
use vstd::string::StringExecFns;
use crate::values::text_of;

verus! {

/// The top-level entries of the metadata block under the source dialect's
/// grammar, each value already carried as a `toml::Value`, in the order the
/// parser hands them out; `None` where the block is not a valid mapping with
/// textual keys. The result depends on the text alone.
pub uninterp spec fn yaml_front_entries(s: Seq<char>) -> Option<Seq<(String, toml::Value)>>;

/// Relies on `serde_yaml::from_str`, deserializing into
/// `toml::map::Map<String, toml::Value>` through `toml::Value`'s
/// `serde::Deserialize`: parses the block as a YAML mapping with string keys
/// and re-shapes each value as a TOML value, or fails. The map is key-ordered,
/// so the entry sequence depends on the text alone.
#[verifier::external_body]
pub(crate) fn parse_yaml_block(s: &str) -> (r: Option<Vec<(String, toml::Value)>>)
    ensures
        match r {
            Some(entries) => yaml_front_entries(s@) == Some(entries@),
            None => yaml_front_entries(s@) is None,
        },
{
    match serde_yaml::from_str::<toml::map::Map<String, toml::Value>>(s) {
        Ok(table) => Some(table.into_iter().collect()),
        Err(_) => None,
    }
}

/// The value under the first entry with the given key, if any.
pub open spec fn lookup_from(
    entries: Seq<(String, toml::Value)>,
    key: Seq<char>,
    i: int,
) -> Option<toml::Value>
    decreases entries.len() - i,
{
    if i < 0 || i >= entries.len() {
        None
    } else if entries[i].0@ == key {
        Some(entries[i].1)
    } else {
        lookup_from(entries, key, i + 1)
    }
}

/// The value under a key in the decoded entries, if the key is present.
pub open spec fn lookup(entries: Seq<(String, toml::Value)>, key: Seq<char>) -> Option<
    toml::Value,
> {
    lookup_from(entries, key, 0)
}

/// The text under a key, if the key is present and its value is textual.
pub open spec fn required_text(entries: Seq<(String, toml::Value)>, key: Seq<char>) -> Option<
    Seq<char>,
> {
    match lookup(entries, key) {
        Some(v) => text_of(v),
        None => None,
    }
}

/// The keys that the source schema claims for itself; every other key goes to
/// the residual map.
pub open spec fn is_reserved_key(key: Seq<char>) -> bool {
    ||| key == "title"@
    ||| key == "date"@
    ||| key == "subtitle"@
    ||| key == "author"@
}

/// The residual entries: everything the named fields do not claim, in order.
pub open spec fn residual_entries(entries: Seq<(String, toml::Value)>) -> Seq<
    (String, toml::Value),
> {
    entries.filter(|e: (String, toml::Value)| !is_reserved_key(e.0@))
}

/// Why a decoded mapping fails to be a source record: a required key is
/// absent, or its value is not a textual scalar.
#[derive(Clone, Copy, PartialEq, Eq, Structural, Debug)]
pub enum DecodeError {
    MissingField,
    WrongShape,
}

/// The first failure among the required fields, checked in schema order, or
/// `None` where all four are present and textual.
pub open spec fn decode_failure(entries: Seq<(String, toml::Value)>) -> Option<DecodeError> {
    if lookup(entries, "title"@) is None || lookup(entries, "date"@) is None || lookup(
        entries,
        "subtitle"@,
    ) is None || lookup(entries, "author"@) is None {
        Some(DecodeError::MissingField)
    } else if required_text(entries, "title"@) is None || required_text(entries, "date"@) is None
        || required_text(entries, "subtitle"@) is None || required_text(entries, "author"@)
        is None {
        Some(DecodeError::WrongShape)
    } else {
        None
    }
}

/// The source metadata record: the four required text fields, and the
/// residual map of every other key with its value untouched.
#[derive(Debug)]
pub struct JekyllFront {
    pub title: String,
    pub date: String,
    pub subtitle: String,
    pub author: String,
    pub extra: Vec<(String, toml::Value)>,
}

fn lookup_exec<'a>(entries: &'a Vec<(String, toml::Value)>, key: &String) -> (r: Option<
    &'a toml::Value,
>)
    ensures
        match r {
            Some(v) => lookup(entries@, key@) == Some(*v),
            None => lookup(entries@, key@) is None,
        },
{
    let mut i: usize = 0;
    while i < entries.len()
        invariant
            0 <= i <= entries.len(),
            lookup(entries@, key@) == lookup_from(entries@, key@, i as int),
        decreases entries.len() - i,
    {
        if entries[i].0 == *key {
            assert(entries@[i as int].0@ == key@);
            return Some(&entries[i].1);
        }
        assert(entries@[i as int].0@ != key@);
        i = i + 1;
    }
    None
}

fn required_text_exec(entries: &Vec<(String, toml::Value)>, key: &String) -> (r: Option<String>)
    ensures
        match r {
            Some(s) => required_text(entries@, key@) == Some(s@),
            None => required_text(entries@, key@) is None,
        },
{
    match lookup_exec(entries, key) {
        Some(v) => crate::values::value_text(v),
        None => None,
    }
}

/// Decode the parsed metadata entries into the source record: the four
/// required keys must be present with textual values, and every other entry
/// passes through to the residual map in order.
pub fn decode_front(entries: Vec<(String, toml::Value)>) -> (r: Result<JekyllFront, DecodeError>)
    ensures
        r is Ok <==> decode_failure(entries@) is None,
        r matches Err(e) ==> Some(e) == decode_failure(entries@),
        r matches Ok(f) ==> {
            &&& Some(f.title@) == required_text(entries@, "title"@)
            &&& Some(f.date@) == required_text(entries@, "date"@)
            &&& Some(f.subtitle@) == required_text(entries@, "subtitle"@)
            &&& Some(f.author@) == required_text(entries@, "author"@)
            &&& f.extra@ == residual_entries(entries@)
        },
{
    let title_key: String = String::from_str("title");
    let date_key: String = String::from_str("date");
    let subtitle_key: String = String::from_str("subtitle");
    let author_key: String = String::from_str("author");
    let title_present = lookup_exec(&entries, &title_key).is_some();
    let date_present = lookup_exec(&entries, &date_key).is_some();
    let subtitle_present = lookup_exec(&entries, &subtitle_key).is_some();
    let author_present = lookup_exec(&entries, &author_key).is_some();
    if !(title_present && date_present && subtitle_present && author_present) {
        return Err(DecodeError::MissingField);
    }
    let title = match required_text_exec(&entries, &title_key) {
        Some(s) => s,
        None => return Err(DecodeError::WrongShape),
    };
    let date = match required_text_exec(&entries, &date_key) {
        Some(s) => s,
        None => return Err(DecodeError::WrongShape),
    };
    let subtitle = match required_text_exec(&entries, &subtitle_key) {
        Some(s) => s,
        None => return Err(DecodeError::WrongShape),
    };
    let author = match required_text_exec(&entries, &author_key) {
        Some(s) => s,
        None => return Err(DecodeError::WrongShape),
    };
    let extra = residual_exec(entries);
    Ok(JekyllFront { title, date, subtitle, author, extra })
}

fn residual_exec(entries: Vec<(String, toml::Value)>) -> (r: Vec<(String, toml::Value)>)
    ensures
        r@ == residual_entries(entries@),
{
    let mut out: Vec<(String, toml::Value)> = Vec::new();
    let mut i: usize = 0;
    while i < entries.len()
        invariant
            0 <= i <= entries.len(),
            out@ == residual_entries(entries@.take(i as int)),
        decreases entries.len() - i,
    {
        proof {
            assert(entries@.take(i + 1 as int).drop_last() =~= entries@.take(i as int));
            reveal_with_fuel(Seq::<_>::filter, 2);
        }
        let reserved = is_reserved_exec(&entries[i].0);
        if !reserved {
            out.push((entries[i].0.clone(), clone_value(&entries[i].1)));
        }
        i = i + 1;
    }
    proof {
        assert(entries@.take(entries@.len() as int) =~= entries@);
    }
    out
}

fn is_reserved_exec(key: &String) -> (r: bool)
    ensures
        r == is_reserved_key(key@),
{
    let title: String = String::from_str("title");
    let date: String = String::from_str("date");
    let subtitle: String = String::from_str("subtitle");
    let author: String = String::from_str("author");
    *key == title || *key == date || *key == subtitle || *key == author
}

/// Relies on `toml::Value::clone`: a value equal to the given one.
#[verifier::external_body]
fn clone_value(v: &toml::Value) -> (r: toml::Value)
    ensures
        r == *v,
{
    v.clone()
}

} // verus!
