//! The metadata encoder and the document assembler: the target record is
//! serialized as a TOML block through the `toml` crate, and the final
//! document is the block between `+++` markers followed by the content block.

use vstd::prelude::*;
use vstd::string::StringExecFns;
use crate::convert::ZolaFront;
use crate::values::{datetime_value, make_datetime_value, make_text_value, text_value};

verus! {

/// An entry sequence reduced to what determines its encoding: each key as
/// text beside its value.
pub open spec fn entry_views(entries: Seq<(String, toml::Value)>) -> Seq<(Seq<char>, toml::Value)> {
    entries.map_values(|e: (String, toml::Value)| (e.0@, e.1))
}

/// The TOML block that the target dialect's serializer writes for a table
/// with the given entries, or `None` where the table cannot be written. The
/// result depends on the entries alone.
pub uninterp spec fn toml_encoding(entries: Seq<(Seq<char>, toml::Value)>) -> Option<Seq<char>>;

/// Relies on `toml::to_string`, applied to the `toml::map::Map` collected
/// from the entries: writes the table as a TOML block, each top-level key on
/// its own line, or fails. The map is key-ordered, so the output depends on
/// the entries alone.
#[verifier::external_body]
fn encode_entries(entries: Vec<(String, toml::Value)>) -> (r: Option<String>)
    ensures
        match r {
            Some(s) => toml_encoding(entry_views(entries@)) == Some(s@),
            None => toml_encoding(entry_views(entries@)) is None,
        },
{
    let table: toml::map::Map<String, toml::Value> = entries.into_iter().collect();
    match toml::to_string(&table) {
        Ok(s) => Some(s),
        Err(_) => None,
    }
}

/// The entries that the encoder writes for a target record: the four named
/// fields in schema order, then the residual map in its own order.
pub open spec fn front_entries(z: ZolaFront) -> Seq<(Seq<char>, toml::Value)> {
    seq![
        ("title"@, text_value(z.title@)),
        ("date"@, datetime_value(z.date)),
        ("description"@, text_value(z.description@)),
        ("author"@, text_value(z.author@)),
    ] + entry_views(z.extra@)
}

/// Serialize the target record as a TOML block without surrounding markers:
/// the four named fields and, at the same nesting level, every residual key
/// with its value untouched.
pub fn encode_front(front: ZolaFront) -> (r: Option<String>)
    ensures
        match r {
            Some(s) => toml_encoding(front_entries(front)) == Some(s@),
            None => toml_encoding(front_entries(front)) is None,
        },
{
    let ghost z = front;
    let ZolaFront { title, date, description, author, extra } = front;
    let mut extra = extra;
    let mut entries: Vec<(String, toml::Value)> = Vec::new();
    entries.push((String::from_str("title"), make_text_value(title)));
    entries.push((String::from_str("date"), make_datetime_value(&date)));
    entries.push((String::from_str("description"), make_text_value(description)));
    entries.push((String::from_str("author"), make_text_value(author)));
    entries.append(&mut extra);
    proof {
        assert(entry_views(entries@) =~= front_entries(z));
    }
    encode_entries(entries)
}

/// Assemble the final document: the encoded metadata between `+++` marker
/// lines, followed by the verbatim content block.
pub fn assemble(encoded: String, content: &String) -> (r: String)
    ensures
        r@ == "+++\n"@ + encoded@ + "\n+++\n"@ + content@,
{
    let mut out: String = String::from_str("+++\n");
    out.append(encoded.as_str());
    out.append("\n+++\n");
    out.append(content.as_str());
    proof {
        assert(out@ =~= "+++\n"@ + encoded@ + "\n+++\n"@ + content@);
    }
    out
}

} // verus!
