//! The schema converter: a pure, field-by-field mapping from the source
//! record to the target record. `title` and `author` are copied verbatim,
//! `subtitle` is renamed to `description`, the `date` text is parsed into a
//! typed calendar value, and the residual map passes through whole and
//! unexamined. Parsing the date is the one fallible step.

use vstd::prelude::*;
use crate::datetime::{parse_datetime, parsed_datetime, DatetimeValue};
use crate::decode::JekyllFront;

verus! {

/// The target metadata record: the same text fields under the target schema,
/// the date as a typed value, and the residual map unchanged.
#[derive(Debug)]
pub struct ZolaFront {
    pub title: String,
    pub date: DatetimeValue,
    pub description: String,
    pub author: String,
    pub extra: Vec<(String, toml::Value)>,
}

/// Why a source record has no target counterpart: its `date` text does not
/// conform to the accepted date grammar.
#[derive(Clone, Copy, PartialEq, Eq, Structural, Debug)]
pub enum ConvertError {
    InvalidDate,
}

/// Convert the source record to the target schema. The conversion succeeds
/// exactly when the `date` text conforms to the date grammar; everything else
/// is copied: `title` and `author` verbatim, `subtitle` as `description`, and
/// the residual map byte for byte.
pub fn convert_front(front: JekyllFront) -> (r: Result<ZolaFront, ConvertError>)
    ensures
        r is Ok <==> parsed_datetime(front.date@) is Some,
        r matches Ok(z) ==> {
            &&& z.title == front.title
            &&& Some(z.date) == parsed_datetime(front.date@)
            &&& z.date.wf()
            &&& z.description == front.subtitle
            &&& z.author == front.author
            &&& z.extra == front.extra
        },
        r matches Err(e) ==> e == ConvertError::InvalidDate,
{
    let date = match parse_datetime(front.date.as_str()) {
        Some(d) => d,
        None => return Err(ConvertError::InvalidDate),
    };
    Ok(ZolaFront {
        title: front.title,
        date,
        description: front.subtitle,
        author: front.author,
        extra: front.extra,
    })
}

} // verus!
