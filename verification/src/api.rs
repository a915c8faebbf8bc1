//! The direct transport: the requests sent to the service's interface and
//! how the status of each reply is read.

use crate::remote::{ErrorModel, TransportError};
use crate::text::chars_of;
use vstd::prelude::*;

verus! {

/// The address under which the interface serves the pages of every project.
pub const API_ROOT: &'static str = "https://scrapbox.io/api/pages/";

/// Whether a status reports success: the statuses from 200 to 299.
pub open spec fn is_success_status(status: u16) -> bool {
    200 <= status <= 299
}

/// Whether a status reports success.
pub fn is_success(status: u16) -> (success: bool)
    ensures
        success == is_success_status(status),
{
    200 <= status && status <= 299
}

/// The address that serves the text of the page `title` of `project`.
pub open spec fn text_url_text(project: Seq<char>, title: Seq<char>) -> Seq<char> {
    API_ROOT@ + project + seq!['/'] + title + seq!['/', 't', 'e', 'x', 't']
}

/// The address that takes the pages to create in `project`.
pub open spec fn pages_url_text(project: Seq<char>) -> Seq<char> {
    API_ROOT@ + project
}

/// The address to `GET` to learn whether the page `title` of `project`
/// exists.
pub fn text_url(project: &str, title: &str) -> (url: String)
    ensures
        url@ == text_url_text(project@, title@),
{
    let mut url = API_ROOT.to_owned();
    url.append(project);
    url.push('/');
    url.append(title);
    url.push('/');
    url.push('t');
    url.push('e');
    url.push('x');
    url.push('t');
    proof {
        assert(url@ =~= text_url_text(project@, title@));
    }
    url
}

/// The address to `POST` a new page of `project` to.
pub fn pages_url(project: &str) -> (url: String)
    ensures
        url@ == pages_url_text(project@),
{
    let mut url = API_ROOT.to_owned();
    url.append(project);
    url
}

/// Whether the page exists, from the status of the reply to the request for
/// its text: it does exactly when the status reports success.
pub fn page_exists_from_status(status: u16) -> (exists: bool)
    ensures
        exists == is_success_status(status),
{
    is_success(status)
}

/// What the reply to a request to create a page means: success exactly for
/// a status that reports it, else a rejection with this status and message.
pub fn creation_from_response(status: u16, message: String) -> (result: Result<(), TransportError>)
    ensures
        result is Ok <==> is_success_status(status),
        result matches Err(e) ==> e@ == (ErrorModel::Rejected { status, message: message@ }),
{
    if is_success(status) {
        Ok(())
    } else {
        Err(TransportError::Rejected { status, message })
    }
}

/// The lower-case hexadecimal digit of `nibble`, for `nibble` in `0..=15`.
pub open spec fn lower_hex(nibble: int) -> char {
    if nibble == 0 {
        '0'
    } else if nibble == 1 {
        '1'
    } else if nibble == 2 {
        '2'
    } else if nibble == 3 {
        '3'
    } else if nibble == 4 {
        '4'
    } else if nibble == 5 {
        '5'
    } else if nibble == 6 {
        '6'
    } else if nibble == 7 {
        '7'
    } else if nibble == 8 {
        '8'
    } else if nibble == 9 {
        '9'
    } else if nibble == 10 {
        'a'
    } else if nibble == 11 {
        'b'
    } else if nibble == 12 {
        'c'
    } else if nibble == 13 {
        'd'
    } else if nibble == 14 {
        'e'
    } else {
        'f'
    }
}

/// How one character is written inside a JSON string: the quotation mark and
/// the backslash after a backslash, the control characters in their short
/// form where JSON has one and as `\u00` with two hexadecimal digits where it
/// has none, and every other character as it is.
pub open spec fn json_escaped_char(c: char) -> Seq<char> {
    if c == '"' {
        seq!['\\', '"']
    } else if c == '\\' {
        seq!['\\', '\\']
    } else if c == '\n' {
        seq!['\\', 'n']
    } else if c == '\r' {
        seq!['\\', 'r']
    } else if c == '\t' {
        seq!['\\', 't']
    } else if c as u32 == 0x08 {
        seq!['\\', 'b']
    } else if c as u32 == 0x0c {
        seq!['\\', 'f']
    } else if (c as u32) < 0x20 {
        seq!['\\', 'u', '0', '0', lower_hex(c as u32 as int / 16), lower_hex(c as u32 as int % 16)]
    } else {
        seq![c]
    }
}

/// How a text is written inside a JSON string: character by character.
pub open spec fn json_escaped(text: Seq<char>) -> Seq<char>
    decreases text.len(),
{
    if text.len() == 0 {
        Seq::empty()
    } else {
        json_escaped(text.drop_last()) + json_escaped_char(text.last())
    }
}

/// A text as a JSON string: its escaped characters between quotation marks.
pub open spec fn json_string(text: Seq<char>) -> Seq<char> {
    seq!['"'] + json_escaped(text) + seq!['"']
}

/// The JSON object that asks for a page: the members `title` and `content`,
/// in this order and without spaces.
pub open spec fn create_payload_text(title: Seq<char>, content: Seq<char>) -> Seq<char> {
    "{\"title\":"@ + json_string(title) + ",\"content\":"@ + json_string(content) + seq!['}']
}

fn nibble_to_char(nibble: u32) -> (c: char)
    requires
        nibble < 16,
    ensures
        c == lower_hex(nibble as int),
{
    if nibble == 0 {
        '0'
    } else if nibble == 1 {
        '1'
    } else if nibble == 2 {
        '2'
    } else if nibble == 3 {
        '3'
    } else if nibble == 4 {
        '4'
    } else if nibble == 5 {
        '5'
    } else if nibble == 6 {
        '6'
    } else if nibble == 7 {
        '7'
    } else if nibble == 8 {
        '8'
    } else if nibble == 9 {
        '9'
    } else if nibble == 10 {
        'a'
    } else if nibble == 11 {
        'b'
    } else if nibble == 12 {
        'c'
    } else if nibble == 13 {
        'd'
    } else if nibble == 14 {
        'e'
    } else {
        'f'
    }
}

/// Appends `c` as it is written inside a JSON string.
fn push_json_char(out: &mut String, c: char)
    ensures
        final(out)@ == old(out)@ + json_escaped_char(c),
{
    let code: u32 = c as u32;
    if c == '"' {
        out.push('\\');
        out.push('"');
    } else if c == '\\' {
        out.push('\\');
        out.push('\\');
    } else if c == '\n' {
        out.push('\\');
        out.push('n');
    } else if c == '\r' {
        out.push('\\');
        out.push('r');
    } else if c == '\t' {
        out.push('\\');
        out.push('t');
    } else if code == 0x08 {
        out.push('\\');
        out.push('b');
    } else if code == 0x0c {
        out.push('\\');
        out.push('f');
    } else if code < 0x20 {
        out.push('\\');
        out.push('u');
        out.push('0');
        out.push('0');
        out.push(nibble_to_char(code / 16));
        out.push(nibble_to_char(code % 16));
    } else {
        out.push(c);
    }
    proof {
        assert(final(out)@ =~= old(out)@ + json_escaped_char(c));
    }
}

/// Appends `text` as a JSON string.
fn push_json_string(out: &mut String, text: &str)
    ensures
        final(out)@ == old(out)@ + json_string(text@),
{
    let chars = chars_of(text);
    out.push('"');
    let mut i: usize = 0;
    while i < chars.len()
        invariant
            i <= chars.len(),
            chars@ == text@,
            out@ == old(out)@ + seq!['"'] + json_escaped(chars@.take(i as int)),
        decreases chars.len() - i,
    {
        push_json_char(out, chars[i]);
        proof {
            let before = chars@.take(i as int);
            let after = chars@.take(i + 1);
            assert(after.drop_last() =~= before);
            assert(after.last() == chars@[i as int]);
            assert(out@ =~= old(out)@ + seq!['"'] + json_escaped(after));
        }
        i += 1;
    }
    out.push('"');
    proof {
        assert(chars@.take(chars.len() as int) =~= text@);
        assert(final(out)@ =~= old(out)@ + json_string(text@));
    }
}

/// The body of the request that creates a page: a JSON object with the
/// members `title` and `content`.
pub fn create_payload(title: &str, content: &str) -> (payload: String)
    ensures
        payload@ == create_payload_text(title@, content@),
{
    let mut payload = "{\"title\":".to_owned();
    push_json_string(&mut payload, title);
    payload.append(",\"content\":");
    push_json_string(&mut payload, content);
    payload.push('}');
    payload
}

} // verus!
