//! The command interpreter: parsing of typed commands (`offset!<n>`,
//! `ts!<epoch-millis>`) and of partition labels (`<topic>/<id>`).

use vstd::prelude::*;
use vstd::string::*;
use crate::strings::{
    find_char, find_char_index, is_canonical_i32_string, is_i64_string, parse_i32, parse_i64,
    parsed_i64, str_eq,
};

verus! {

/// What one typed command line means.
#[derive(Clone, PartialEq, Eq, Structural, Debug)]
pub enum CommandParse {
    /// `offset!<n>`: fetch the message at the literal offset.
    Offset { offset: i64 },
    /// `ts!<n>`: resolve the epoch-millisecond timestamp to an offset,
    /// then fetch.
    Timestamp { timestamp: i64 },
    /// No `!` separator, or an unknown command word.
    InvalidCommand,
    /// The `offset!` argument is not an integer.
    InvalidOffset,
    /// The `ts!` argument is not an integer, or not a representable epoch.
    InvalidTimestamp,
}

/// The earliest and latest epoch milliseconds that fit the calendar used to
/// validate `ts!` arguments (about 262,000 years either side of the common
/// era).
pub open spec fn ts_in_calendar_range(t: int) -> bool {
    -8334601228800000 <= t <= 8210266876799999
}

/// Relies on chrono's `DateTime::<Utc>::from_timestamp_millis`: per its
/// source it returns `Some` exactly when the milliseconds fall in the
/// calendar range stated by `ts_in_calendar_range`.
#[verifier::external_body]
fn timestamp_in_calendar_range(t: i64) -> (r: bool)
    ensures
        r == ts_in_calendar_range(t as int),
{
    chrono::DateTime::<chrono::Utc>::from_timestamp_millis(t).is_some()
}

/// Does the timestamp denote a representable epoch millisecond?
pub fn timestamp_valid(t: i64) -> (r: bool)
    ensures
        r == ts_in_calendar_range(t as int),
{
    timestamp_in_calendar_range(t)
}

/// The command word: everything before the first `!`.
pub open spec fn spec_command_keyword(s: Seq<char>) -> Seq<char> {
    s.subrange(0, find_char(s, '!'))
}

/// The argument: between the first `!` and the next `!` or the end.
pub open spec fn spec_command_arg(s: Seq<char>) -> Seq<char> {
    let f = find_char(s, '!');
    let rest = s.subrange(f + 1, s.len() as int);
    rest.subrange(0, find_char(rest, '!'))
}

/// The grammar of typed commands: `<command>!<argument>`.
pub open spec fn spec_parse_command(s: Seq<char>) -> CommandParse {
    if find_char(s, '!') == s.len() {
        CommandParse::InvalidCommand
    } else {
        let kw = spec_command_keyword(s);
        let arg = spec_command_arg(s);
        if kw == ("offset")@ {
            if is_i64_string(arg) {
                (CommandParse::Offset { offset: parsed_i64(arg) as i64 })
            } else {
                CommandParse::InvalidOffset
            }
        } else if kw == ("ts")@ {
            if is_i64_string(arg) && ts_in_calendar_range(parsed_i64(arg)) {
                (CommandParse::Timestamp { timestamp: parsed_i64(arg) as i64 })
            } else {
                CommandParse::InvalidTimestamp
            }
        } else {
            CommandParse::InvalidCommand
        }
    }
}

/// Parses one typed command line.
pub fn parse_command(input: &str) -> (r: CommandParse)
    ensures
        r == spec_parse_command(input@),
{
    let n = input.unicode_len();
    proof {
        crate::strings::lemma_find_char_props(input@, '!');
    }
    let f = find_char_index(input, '!');
    if f == n {
        return CommandParse::InvalidCommand;
    }
    let kw = input.substring_char(0, f);
    let rest = input.substring_char(f + 1, n);
    proof {
        crate::strings::lemma_find_char_props(rest@, '!');
    }
    let g = find_char_index(rest, '!');
    let arg = rest.substring_char(0, g);
    proof {
        assert(kw@ == spec_command_keyword(input@));
        assert(arg@ == spec_command_arg(input@));
    }
    if str_eq(kw, "offset") {
        match parse_i64(arg) {
            Some(offset) => CommandParse::Offset { offset },
            None => CommandParse::InvalidOffset,
        }
    } else if str_eq(kw, "ts") {
        match parse_i64(arg) {
            Some(timestamp) => {
                if timestamp_in_calendar_range(timestamp) {
                    CommandParse::Timestamp { timestamp }
                } else {
                    CommandParse::InvalidTimestamp
                }
            },
            None => CommandParse::InvalidTimestamp,
        }
    } else {
        CommandParse::InvalidCommand
    }
}

/// What a partition label `<topic>/<id>` denotes, if well formed: the text
/// before the only `/`, and the partition id behind it. The id part must
/// be the canonical decimal rendering of the id — no plus sign, no leading
/// zeros — the form under which `partition_names` writes the labels, so a
/// label finds a partition exactly when it is one of the written labels.
pub open spec fn spec_partition_label(s: Seq<char>) -> Option<(Seq<char>, int)> {
    let f = find_char(s, '/');
    if f == s.len() {
        None
    } else {
        let topic = s.subrange(0, f);
        let rest = s.subrange(f + 1, s.len() as int);
        if find_char(rest, '/') != rest.len() {
            None
        } else if is_canonical_i32_string(rest) {
            Some((topic, parsed_i64(rest)))
        } else {
            None
        }
    }
}

/// Splits a partition label into the topic name and the partition id.
pub fn get_topic_and_parition_id(partition_name: &str) -> (r: Option<(String, i32)>)
    ensures
        match r {
            Some(p) => spec_partition_label(partition_name@) == Some((p.0@, p.1 as int)),
            None => spec_partition_label(partition_name@) is None,
        },
{
    let n = partition_name.unicode_len();
    proof {
        crate::strings::lemma_find_char_props(partition_name@, '/');
    }
    let f = find_char_index(partition_name, '/');
    if f == n {
        return None;
    }
    let topic = partition_name.substring_char(0, f);
    let rest = partition_name.substring_char(f + 1, n);
    let g = find_char_index(rest, '/');
    if g != rest.unicode_len() {
        return None;
    }
    match parse_i32(rest) {
        Some(id) => {
            let canonical = crate::strings::i32_to_dec_string(id);
            if str_eq(rest, canonical.as_str()) {
                Some((String::from_str(topic), id))
            } else {
                None
            }
        },
        None => None,
    }
}

} // verus!
