//! Rules of the repeat launcher: how the launch count is derived from
//! the program's own file name, and the exit-code convention of a run.

use vstd::prelude::*;
use crate::text::{parses_as_u32, parsed_u32, parse_u32};

verus! {

/// The repeat count used when the file name yields no usable count.
pub const DEFAULT_REPEAT_COUNT: u32 = 2;

/// The largest accepted repeat count.
pub const MAX_REPEAT_COUNT: u32 = 10;

/// The effective repeat count for a program file name: the name parsed
/// as a decimal number, accepted only in `[1, 10]`; any parse failure,
/// out-of-range value, or missing name falls back to the default of 2.
pub open spec fn repeat_count_spec(name: Option<Seq<char>>) -> u32 {
    match name {
        Option::Some(s) => {
            if parses_as_u32(s) && 1 <= parsed_u32(s) && parsed_u32(s) <= MAX_REPEAT_COUNT {
                parsed_u32(s) as u32
            } else {
                DEFAULT_REPEAT_COUNT
            }
        },
        Option::None => DEFAULT_REPEAT_COUNT,
    }
}

/// Runtime counterpart of [`repeat_count_spec`].  The result is always
/// clamped into `[1, 10]`.
pub fn repeat_count(name: &Option<String>) -> (n: u32)
    ensures
        n == repeat_count_spec(name.deep_view()),
        1 <= n <= 10,
{
    match name {
        Option::Some(s) => {
            match parse_u32(s.as_str()) {
                Option::Some(v) => {
                    if 1 <= v && v <= MAX_REPEAT_COUNT {
                        v
                    } else {
                        DEFAULT_REPEAT_COUNT
                    }
                },
                Option::None => DEFAULT_REPEAT_COUNT,
            }
        },
        Option::None => DEFAULT_REPEAT_COUNT,
    }
}

/// How a run of the repeat launcher ended.
#[derive(Clone, Copy, PartialEq, Eq, Structural, Debug)]
pub enum RunEnd {
    /// The resolved target was launched the requested number of times.
    Launched,
    /// Resolution failed and the user declined to pick a path manually.
    Declined,
    /// The resolved path failed the final existence check.
    ResolvedInvalid,
    /// The manually entered path was not an existing file.
    ManualInvalid,
    /// The user was asked for a path but picked none.
    ManualNone,
    /// Resolution failed and no recovery path was taken.
    NoResolution,
}

/// The process exit code of each run ending, an observed convention
/// kept as-is: success is 0, a declined manual entry 1, a resolved
/// path found invalid at the final check 2, an invalid manual path 3,
/// no manual path entered 4, and an unrecovered resolution failure 5.
pub open spec fn exit_code_spec(e: RunEnd) -> u8 {
    match e {
        RunEnd::Launched => 0,
        RunEnd::Declined => 1,
        RunEnd::ResolvedInvalid => 2,
        RunEnd::ManualInvalid => 3,
        RunEnd::ManualNone => 4,
        RunEnd::NoResolution => 5,
    }
}

/// Runtime counterpart of [`exit_code_spec`].
pub fn exit_code(e: RunEnd) -> (c: u8)
    ensures
        c == exit_code_spec(e),
{
    match e {
        RunEnd::Launched => 0,
        RunEnd::Declined => 1,
        RunEnd::ResolvedInvalid => 2,
        RunEnd::ManualInvalid => 3,
        RunEnd::ManualNone => 4,
        RunEnd::NoResolution => 5,
    }
}

} // verus!
