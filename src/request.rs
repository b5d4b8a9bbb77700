//! The JSON body of one chat-completion request: a fixed model, a
//! system-role message with the instruction and a user-role message with the
//! content.
use vstd::prelude::*;
use vstd::string::*;

verus! {

/// The model that every request names.
pub const MODEL: &'static str = "gpt-3.5-turbo";

#[verifier::external_type_specification]
#[verifier::external_body]
pub struct ExJsonError(serde_json::Error);

/// The lower-case hexadecimal digits.
pub open spec fn hex_digits() -> Seq<char> {
    seq!['0', '1', '2', '3', '4', '5', '6', '7', '8', '9', 'a', 'b', 'c', 'd', 'e', 'f']
}

/// How one character stands inside a JSON string literal: quote and
/// backslash behind a backslash, the five named control characters by their
/// letter, any other control character below U+0020 as `\u00` and two
/// lower-case hex digits, and everything else as it is.
pub open spec fn escaped_char(c: char) -> Seq<char> {
    if c == '"' {
        seq!['\\', '"']
    } else if c == '\\' {
        seq!['\\', '\\']
    } else if c == '\u{8}' {
        seq!['\\', 'b']
    } else if c == '\t' {
        seq!['\\', 't']
    } else if c == '\n' {
        seq!['\\', 'n']
    } else if c == '\u{c}' {
        seq!['\\', 'f']
    } else if c == '\r' {
        seq!['\\', 'r']
    } else if (c as u32) < 0x20 {
        seq![
            '\\',
            'u',
            '0',
            '0',
            hex_digits()[((c as u32) / 16) as int],
            hex_digits()[((c as u32) % 16) as int],
        ]
    } else {
        seq![c]
    }
}

/// The characters of `s`, each escaped.
pub open spec fn escaped(s: Seq<char>) -> Seq<char>
    decreases s.len(),
{
    if s.len() == 0 {
        Seq::empty()
    } else {
        escaped(s.drop_last()) + escaped_char(s.last())
    }
}

/// The JSON string literal of `s`: its escaped characters between quotes.
pub open spec fn json_quoted(s: Seq<char>) -> Seq<char> {
    seq!['"'] + escaped(s) + seq!['"']
}

/// Relies on `serde_json::to_string` applied to a `str`: the result is the
/// JSON string literal of `s`, escaped as `format_escaped_str` and the
/// `ESCAPE` table of the crate's serializer do it. A `str` is written
/// into an in-memory buffer, which has no error of its own, so the call
/// always succeeds.
#[verifier::external_body]
fn quote_json(s: &str) -> (r: Result<String, serde_json::Error>)
    ensures
        r is Ok,
        r is Ok ==> r->Ok_0@ == json_quoted(s@),
{
    serde_json::to_string(s)
}

/// The request body around two JSON string literals, with the keys in the
/// order `model`, `messages`, and `role` before `content`.
pub open spec fn request_frame(quoted_instruction: Seq<char>, quoted_content: Seq<char>) -> Seq<
    char,
> {
    "{\"model\":\""@ + MODEL@ + "\",\"messages\":[{\"role\":\"system\",\"content\":"@
        + quoted_instruction + "},{\"role\":\"user\",\"content\":"@ + quoted_content + "}]}"@
}

/// The request body that carries `instruction` and `content`.
pub open spec fn request_text(instruction: Seq<char>, content: Seq<char>) -> Seq<char> {
    request_frame(json_quoted(instruction), json_quoted(content))
}

/// Builds the request body from the JSON string literals of the instruction
/// and of the content.
pub fn frame_request(quoted_instruction: &str, quoted_content: &str) -> (r: String)
    ensures
        r@ == request_frame(quoted_instruction@, quoted_content@),
{
    let mut r = String::from_str("{\"model\":\"");
    r.append(MODEL);
    r.append("\",\"messages\":[{\"role\":\"system\",\"content\":");
    r.append(quoted_instruction);
    r.append("},{\"role\":\"user\",\"content\":");
    r.append(quoted_content);
    r.append("}]}");
    r
}

/// Builds the request body that asks the model to follow `instruction` on
/// `content`.
pub fn request_body(instruction: &str, content: &str) -> (r: String)
    ensures
        r@ == request_text(instruction@, content@),
{
    let quoted_instruction = unwrap_quoted(quote_json(instruction));
    let quoted_content = unwrap_quoted(quote_json(content));
    frame_request(quoted_instruction.as_str(), quoted_content.as_str())
}

fn unwrap_quoted(r: Result<String, serde_json::Error>) -> (q: String)
    requires
        r is Ok,
    ensures
        q == r->Ok_0,
{
    match r {
        Ok(q) => q,
        Err(_) => {
            proof {
                assert(false);
            }
            String::new()
        },
    }
}

} // verus!
