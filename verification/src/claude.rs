//! The assistant: how it is called, and how its answer is framed.

use vstd::prelude::*;
use vstd::string::StringExecFns;
use crate::commands::in_directory;
use crate::search::{find_first, find_last, first_index, last_index, range_without, without_char};
use crate::text::{chars_of, given};

verus! {

/// How the JSON part of an answer begins.
pub const FENCE_OPEN: &'static str = "```json\n";

/// How the JSON part of an answer ends.
pub const FENCE_CLOSE: &'static str = "```";

/// How many characters of `FENCE_OPEN` are skipped: the fence and its label,
/// not the line break.
pub const FENCE_SKIP: usize = 7;

/// The JSON text in an answer: what stands between the first opening fence
/// and the last closing fence, without line breaks. `None` where the answer
/// holds no opening fence, or none that a closing fence follows.
pub open spec fn fenced_json(answer: Seq<char>) -> Option<Seq<char>> {
    match (first_index(answer, FENCE_OPEN@), last_index(answer, FENCE_CLOSE@)) {
        (Some(start), Some(end)) => if start + FENCE_SKIP <= end {
            Some(without_char(answer.subrange(start + FENCE_SKIP, end), '\n'))
        } else {
            None
        },
        _ => None,
    }
}

/// The JSON text in the answer of the assistant.
pub fn parse_claude_response(answer: &str) -> (r: Option<String>)
    ensures
        match r {
            Some(json) => fenced_json(answer@) == Some(json@),
            None => fenced_json(answer@) is None,
        },
{
    let chars = chars_of(answer);
    let open = chars_of(FENCE_OPEN);
    let close = chars_of(FENCE_CLOSE);
    let start = match find_first(&chars, &open) {
        Some(i) => i,
        None => {
            return None;
        },
    };
    let end = match find_last(&chars, &close) {
        Some(j) => j,
        None => {
            return None;
        },
    };
    if start > usize::MAX - FENCE_SKIP || start + FENCE_SKIP > end {
        return None;
    }
    Some(range_without(&chars, start + FENCE_SKIP, end, '\n'))
}

/// The command that asks the assistant, called as `assistant`, once: the
/// prompt is read from a file, the header is the question.
pub open spec fn one_off_line(
    assistant: Seq<char>,
    directory: Seq<char>,
    prompt_file: Seq<char>,
    prompt_header: Seq<char>,
    mcp_config: Option<Seq<char>>,
) -> Seq<char> {
    in_directory(directory, " cat "@) + prompt_file + " | "@ + assistant
        + " --model sonnet --output-format json "@ + mcp_argument(mcp_config) + " -p "@
        + prompt_header
}

/// The argument that hands a configuration to the assistant, or an empty
/// one.
pub open spec fn mcp_argument(mcp_config: Option<Seq<char>>) -> Seq<char> {
    match mcp_config {
        Some(c) => "--mcp-config="@ + c,
        None => Seq::empty(),
    }
}

/// The command that asks the assistant once.
pub fn prompt_claude_one_off(
    assistant: &str,
    directory: &str,
    prompt_file: &str,
    prompt_header: &str,
    mcp_config: Option<&str>,
) -> (r: String)
    ensures
        r@ == one_off_line(
            assistant@,
            directory@,
            prompt_file@,
            prompt_header@,
            given(mcp_config),
        ),
{
    let mut out = String::from_str("cd ");
    out.append(directory);
    out.append(" && ");
    out.append(" cat ");
    out.append(prompt_file);
    out.append(" | ");
    out.append(assistant);
    out.append(" --model sonnet --output-format json ");
    let ghost before = out@;
    match mcp_config {
        Some(c) => {
            out.append("--mcp-config=");
            out.append(c);
            assert(out@ == before + ("--mcp-config="@ + c@));
        },
        None => {
            assert(out@ == before + Seq::<char>::empty());
        },
    }
    out.append(" -p ");
    out.append(prompt_header);
    out
}

/// The first argument of an interactive call of the assistant.
pub fn prompt_claude(mcp_config: Option<&str>) -> (r: String)
    ensures
        r@ == mcp_argument(given(mcp_config)),
{
    let mut out = String::new();
    match mcp_config {
        Some(c) => {
            out.append("--mcp-config=");
            out.append(c);
            assert(out@ == "--mcp-config="@ + c@);
        },
        None => {},
    }
    out
}

} // verus!
