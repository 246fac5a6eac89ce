//! Validation and quoting of change stream names.

use crate::error::{same_outcome, InternalError};
use crate::text::{debug_format, debug_text};
use vstd::prelude::*;

verus! {

/// Characters that are never valid in a GoogleSQL identifier. The backslash is one of them: between
/// backticks it starts an escape sequence.
pub const INVALID_IDENT_CHARS: [char; 11] = [
    '`',
    '\\',
    '"',
    '\'',
    ';',
    '-',
    ' ',
    '\n',
    '\r',
    '\t',
    '\0',
];

/// Whether `name` holds a character that no GoogleSQL identifier can hold.
pub open spec fn has_invalid_char(name: Seq<char>) -> bool {
    exists|i: int| 0 <= i < name.len() && INVALID_IDENT_CHARS@.contains(#[trigger] name[i])
}

/// The names that can be quoted: not empty, and free of invalid characters.
pub open spec fn is_valid_identifier(name: Seq<char>) -> bool {
    name.len() > 0 && !has_invalid_char(name)
}

/// `name` between backticks.
pub open spec fn quoted(name: Seq<char>) -> Seq<char> {
    seq!['`'] + name + seq!['`']
}

/// The message for a name with an invalid character, given the name in its `Debug` format.
pub open spec fn invalid_name_message(formatted: Seq<char>) -> Seq<char> {
    "change stream name contains invalid characters: "@ + formatted
}

/// What [`escape_identifier`] makes of `name`: the quoted name, or the message of its error.
pub open spec fn escaped_identifier(name: Seq<char>) -> Result<Seq<char>, Seq<char>> {
    if name.len() == 0 {
        Err("change stream name must not be empty"@)
    } else if has_invalid_char(name) {
        Err(invalid_name_message(debug_text(name)))
    } else {
        Ok(quoted(name))
    }
}

/// Whether `c` is one of [`INVALID_IDENT_CHARS`].
fn is_invalid_char(c: char) -> (invalid: bool)
    ensures
        invalid == INVALID_IDENT_CHARS@.contains(c),
{
    for i in 0..INVALID_IDENT_CHARS.len()
        invariant
            forall|k: int| 0 <= k < i ==> INVALID_IDENT_CHARS@[k] != c,
    {
        if INVALID_IDENT_CHARS[i] == c {
            return true;
        }
    }
    false
}

/// The error for a name with an invalid character, given the name in its `Debug` format.
pub fn invalid_name_error(formatted: &str) -> (error: InternalError)
    ensures
        error.deep_view() == invalid_name_message(formatted@),
        error.message@ == "change stream name contains invalid characters: "@ + formatted@,
{
    let mut message = "change stream name contains invalid characters: ".to_owned();
    message.append(formatted);
    InternalError { message }
}

/// Validates that `name` looks like a legal Spanner identifier and returns it
/// backtick-escaped for safe interpolation into SQL.
pub fn escape_identifier(name: &str) -> (escaped: Result<String, InternalError>)
    ensures
        same_outcome(escaped, escaped_identifier(name@)),
{
    if name.is_empty() {
        return Err(InternalError { message: "change stream name must not be empty".to_owned() });
    }
    for c in it: name.chars()
        invariant
            it.seq() == name@,
            forall|k: int| 0 <= k < it.index() ==> !INVALID_IDENT_CHARS@.contains(name@[k]),
    {
        if is_invalid_char(c) {
            return Err(invalid_name_error(debug_format(name).as_str()));
        }
    }
    let mut escaped = "`".to_owned();
    escaped.append(name);
    escaped.append("`");
    proof {
        reveal_strlit("`");
        assert("`"@ =~= seq!['`']);
    }
    Ok(escaped)
}

/// A name is quoted exactly if it is a valid identifier; every other name is refused.
pub proof fn law_escaping_accepts_exactly_valid_identifiers(name: Seq<char>)
    ensures
        escaped_identifier(name) is Ok <==> is_valid_identifier(name),
{
}

/// A quoted name opens with a backtick, closes with a backtick, and between them holds the name
/// itself, without any backtick, backslash, quote, semicolon, dash, blank or control character of
/// [`INVALID_IDENT_CHARS`]: no character of the name closes the quotes, and none escapes the closing
/// backtick, so SQL text cannot leave the quotes.
pub proof fn law_quoted_names_cannot_be_left(name: Seq<char>)
    requires
        is_valid_identifier(name),
    ensures
        escaped_identifier(name) is Ok,
        ({
            let escaped = escaped_identifier(name)->Ok_0;
            &&& escaped.len() == name.len() + 2
            &&& escaped.first() == '`'
            &&& escaped.last() == '`'
            &&& escaped.subrange(1, escaped.len() - 1) == name
            &&& forall|i: int|
                0 < i < escaped.len() - 1 ==> {
                    &&& !INVALID_IDENT_CHARS@.contains(#[trigger] escaped[i])
                    &&& escaped[i] != '`'
                    &&& escaped[i] != '\\'
                }
        }),
{
    let escaped = quoted(name);
    assert(escaped.subrange(1, escaped.len() - 1) =~= name);
    assert(INVALID_IDENT_CHARS@[0] == '`' && INVALID_IDENT_CHARS@[1] == '\\');
    assert forall|i: int| 0 < i < escaped.len() - 1 implies {
        &&& !INVALID_IDENT_CHARS@.contains(#[trigger] escaped[i])
        &&& escaped[i] != '`'
        &&& escaped[i] != '\\'
    } by {
        assert(escaped[i] == name[i - 1]);
    }
}

/// Different names are quoted differently.
pub proof fn law_escaping_is_injective(a: Seq<char>, b: Seq<char>)
    requires
        escaped_identifier(a) is Ok,
        escaped_identifier(a) == escaped_identifier(b),
    ensures
        a == b,
{
    assert(quoted(a).subrange(1, quoted(a).len() - 1) =~= a);
    assert(quoted(b).subrange(1, quoted(b).len() - 1) =~= b);
}

/// Exactly the names are quoted that hold at least one character and none of: backtick, backslash,
/// double quote, single quote, semicolon, dash, blank, line feed, carriage return, tab and the null
/// character. A quoted name is the name between backticks. The error for another name says that it
/// is empty, or shows it in its `Debug` format.
pub proof fn law_names_are_quoted_or_refused(name: Seq<char>)
    ensures
        escaped_identifier(name) is Ok <==> name.len() > 0 && forall|i: int|
            #![trigger name[i]]
            0 <= i < name.len() ==> {
                &&& name[i] != '`'
                &&& name[i] != '\\'
                &&& name[i] != '"'
                &&& name[i] != '\''
                &&& name[i] != ';'
                &&& name[i] != '-'
                &&& name[i] != ' '
                &&& name[i] != '\n'
                &&& name[i] != '\r'
                &&& name[i] != '\t'
                &&& name[i] != '\0'
            },
        escaped_identifier(name) is Ok ==> escaped_identifier(name)->Ok_0 == seq!['`'] + name + seq![
            '`',
        ],
        name.len() == 0 ==> escaped_identifier(name) == Err::<Seq<char>, Seq<char>>(
            "change stream name must not be empty"@,
        ),
        name.len() > 0 && escaped_identifier(name) is Err ==> escaped_identifier(name)->Err_0
            == "change stream name contains invalid characters: "@ + debug_text(name),
{
    let chars = INVALID_IDENT_CHARS@;
    assert(chars[0] == '`' && chars[1] == '\\' && chars[2] == '"' && chars[3] == '\'');
    assert(chars[4] == ';' && chars[5] == '-' && chars[6] == ' ' && chars[7] == '\n');
    assert(chars[8] == '\r' && chars[9] == '\t' && chars[10] == '\0');
    assert(chars.len() == 11);
}

} // verus!
