//! Version records: one line of a crate's index file.
use vstd::prelude::*;
use crate::json::{parsed, member_of, text_value, bool_value, parse_value, member, text};

verus! {

/// One published version of a crate, as an index line states it.
#[derive(Debug, Clone)]
pub struct VersionRecord {
    pub name: String,
    pub vers: String,
    pub yanked: bool,
}

/// What a version record holds, as plain values.
pub struct RecordView {
    pub name: Seq<char>,
    pub vers: Seq<char>,
    pub yanked: bool,
}

impl View for VersionRecord {
    type V = RecordView;

    open spec fn view(&self) -> RecordView {
        RecordView { name: self.name@, vers: self.vers@, yanked: self.yanked }
    }
}

/// Why an index line could not be read as a version record.
#[derive(Debug, Clone, Copy, PartialEq, Eq, Structural)]
pub enum DecodeError {
    /// The line is not a UTF-8 JSON document.
    Syntax,
    /// A field is missing or has the wrong JSON type.
    Field,
}

/// The record a line describes: an object whose `name` and `vers` are
/// strings and whose `yanked` is a boolean.
pub open spec fn decode_spec(line: Seq<u8>) -> Result<RecordView, DecodeError> {
    match parsed(line) {
        None => Err(DecodeError::Syntax),
        Some(v) => {
            let n = member_of(v, "name"@);
            let s = member_of(v, "vers"@);
            let y = member_of(v, "yanked"@);
            if n is Some && s is Some && y is Some
                && text_value(n->0) is Some && text_value(s->0) is Some
                && bool_value(y->0) is Some {
                Ok(RecordView {
                    name: text_value(n->0)->0,
                    vers: text_value(s->0)->0,
                    yanked: bool_value(y->0)->0,
                })
            } else {
                Err(DecodeError::Field)
            }
        },
    }
}

/// Reads one index line (the bytes of a diff line, newline included).
pub fn decode_record(line: &[u8]) -> (r: Result<VersionRecord, DecodeError>)
    ensures
        match r {
            Ok(rec) => decode_spec(line@) == Ok::<RecordView, DecodeError>(rec@),
            Err(e) => decode_spec(line@) == Err::<RecordView, DecodeError>(e),
        },
{
    let v = match parse_value(line) {
        Some(v) => v,
        None => return Err(DecodeError::Syntax),
    };
    let n = member(&v, "name");
    let s = member(&v, "vers");
    let y = member(&v, "yanked");
    match (n, s, y) {
        (Some(n), Some(s), Some(y)) => {
            match (text(&n), text(&s), y.as_bool()) {
                (Some(name), Some(vers), Some(yanked)) => {
                    Ok(VersionRecord { name, vers, yanked })
                },
                _ => Err(DecodeError::Field),
            }
        },
        _ => Err(DecodeError::Field),
    }
}

} // verus!
