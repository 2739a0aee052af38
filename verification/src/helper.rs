//! Reading a duration update from its text form: `+1h`, `-30m`, `2d`, or a bare `0`.

use std::str::FromStr;
use vstd::prelude::*;
use vstd::string::StrSliceExecFns;
use crate::protocol::DurationUpdate;
use crate::time::Span;

verus! {

/// What `duration_string` reads from `text`: the duration in nanoseconds, or the message
/// of its error.
pub uninterp spec fn parsed_duration(text: Seq<char>) -> Result<u128, Seq<char>>;

/// Calls `DurationString::from_str` of the crate `duration_string`, which reads a text
/// such as `100ms` or `1h10m`. The result depends on the text alone; it is named
/// `parsed_duration`, and nothing more is claimed of it. A duration comes back in
/// nanoseconds, an error as its message.
#[verifier::external_body]
fn parse_duration(text: &str) -> (parsed: Result<Span, String>)
    ensures
        match parsed {
            Ok(span) => parsed_duration(text@) == Ok::<u128, Seq<char>>(span.nanos),
            Err(message) => parsed_duration(text@) == Err::<u128, Seq<char>>(message@),
        },
{
    match duration_string::DurationString::from_str(text) {
        Ok(duration) => Ok(Span { nanos: std::time::Duration::from(duration).as_nanos() }),
        Err(error) => Err(error.to_string()),
    }
}

/// What an update does with its duration.
#[derive(Clone, Copy, Debug, PartialEq, Eq, Structural)]
pub enum UpdateKind {
    Add,
    Sub,
    SetTo,
}

/// The kind of update that a text asks for: a leading `+` adds, a leading `-`
/// subtracts, anything else sets.
pub open spec fn kind_of(text: Seq<char>) -> UpdateKind {
    if text.len() > 0 && text[0] == '+' {
        UpdateKind::Add
    } else if text.len() > 0 && text[0] == '-' {
        UpdateKind::Sub
    } else {
        UpdateKind::SetTo
    }
}

/// The part of a text that holds the duration: the text without its sign.
pub open spec fn duration_part(text: Seq<char>) -> Seq<char> {
    if kind_of(text) == UpdateKind::SetTo {
        text
    } else {
        text.subrange(1, text.len() as int)
    }
}

/// The update of the given kind with the given duration.
pub open spec fn update_of(kind: UpdateKind, span: Span) -> DurationUpdate {
    match kind {
        UpdateKind::Add => DurationUpdate::Add(span),
        UpdateKind::Sub => DurationUpdate::Sub(span),
        UpdateKind::SetTo => DurationUpdate::SetTo(span),
    }
}

/// The update that a text stands for, given what the duration parser makes of a text.
/// A bare `0` sets the deadline to now, which deactivates. Otherwise the duration part
/// is parsed, and the parser's error is the error.
pub open spec fn update_in(text: Seq<char>) -> Result<DurationUpdate, Seq<char>> {
    if text == seq!['0'] {
        Ok(DurationUpdate::SetTo(Span { nanos: 0 }))
    } else {
        match parsed_duration(duration_part(text)) {
            Ok(nanos) => Ok(update_of(kind_of(text), Span { nanos })),
            Err(message) => Err(message),
        }
    }
}

/// Splits a text into the kind of update it asks for and the part that holds the
/// duration.
pub fn split_sign(s: &str) -> (parts: (UpdateKind, &str))
    ensures
        parts.0 == kind_of(s@),
        parts.1@ == duration_part(s@),
{
    let len = s.unicode_len();
    if len == 0 {
        return (UpdateKind::SetTo, s);
    }
    let first = s.get_char(0);
    if first == '+' {
        (UpdateKind::Add, s.substring_char(1, len))
    } else if first == '-' {
        (UpdateKind::Sub, s.substring_char(1, len))
    } else {
        (UpdateKind::SetTo, s)
    }
}

/// Makes the update of the given kind from what the duration parser returned.
pub fn build_update(kind: UpdateKind, parsed: Result<Span, String>) -> (update: Result<
    DurationUpdate,
    String,
>)
    ensures
        parsed matches Ok(span) ==> (update matches Ok(made) && made == update_of(kind, span)),
        parsed matches Err(message) ==> (update matches Err(kept) && kept@ == message@),
{
    match parsed {
        Ok(span) => Ok(
            match kind {
                UpdateKind::Add => DurationUpdate::Add(span),
                UpdateKind::Sub => DurationUpdate::Sub(span),
                UpdateKind::SetTo => DurationUpdate::SetTo(span),
            },
        ),
        Err(message) => Err(message),
    }
}

/// Whether a text is the bare `0` that deactivates at once.
fn is_bare_zero(s: &str) -> (yes: bool)
    ensures
        yes == (s@ == seq!['0']),
{
    if s.unicode_len() != 1 {
        return false;
    }
    let only = s.get_char(0);
    assert(only == '0' ==> s@ =~= seq!['0']);
    only == '0'
}

/// Reads a duration update. A malformed text is rejected with the parser's message.
pub fn parse_duration_update(s: &str) -> (update: Result<DurationUpdate, String>)
    ensures
        update_in(s@) matches Ok(expected) ==> (update matches Ok(made) && made == expected),
        update_in(s@) matches Err(message) ==> (update matches Err(given) && given@ == message),
{
    if is_bare_zero(s) {
        return Ok(DurationUpdate::SetTo(Span::zero()));
    }
    let (kind, text) = split_sign(s);
    build_update(kind, parse_duration(text))
}

} // verus!
