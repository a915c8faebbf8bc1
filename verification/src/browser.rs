//! The browser-driven transport: the addresses a browser session is sent to
//! and how the text of the rendered page is read.
//!
//! Whether a page exists is judged from what the service shows: the page of a
//! title that is not in use yet invites the reader to create it, and the
//! words of that invitation are looked for in the rendered text.

use crate::remote::{ErrorModel, TransportError};
use crate::text::{contains, contains_phrase};
use vstd::prelude::*;
use vstd::utf8::encode_utf8;

verus! {

/// The address under which the pages of every project are found.
pub const PAGE_ROOT: &'static str = "https://scrapbox.io/";

/// The words that the service shows in place of a page that does not exist.
pub const NEW_PAGE_PHRASE: &'static str = "create new page";

/// What is reported where the text of a rendered page could not be read.
pub const UNREADABLE_PAGE: &'static str = "the text of the page could not be read";

/// The element that is present once a page has loaded.
pub const LOADED_SELECTOR: &'static str = "body";

/// The element that is present once a page has been created.
pub const CREATED_SELECTOR: &'static str = ".page-wrapper";

/// Whether a byte stands for itself in a query: a letter or digit of ASCII,
/// or one of `-`, `.`, `_`, `~`.
pub open spec fn is_unreserved(byte: u8) -> bool {
    ||| 0x30 <= byte <= 0x39
    ||| 0x41 <= byte <= 0x5a
    ||| 0x61 <= byte <= 0x7a
    ||| byte == 0x2d
    ||| byte == 0x2e
    ||| byte == 0x5f
    ||| byte == 0x7e
}

/// The upper-case hexadecimal digit of `nibble`, for `nibble` in `0..=15`.
pub open spec fn upper_hex(nibble: int) -> char {
    if nibble == 0 {
        '0'
    } else if nibble == 1 {
        '1'
    } else if nibble == 2 {
        '2'
    } else if nibble == 3 {
        '3'
    } else if nibble == 4 {
        '4'
    } else if nibble == 5 {
        '5'
    } else if nibble == 6 {
        '6'
    } else if nibble == 7 {
        '7'
    } else if nibble == 8 {
        '8'
    } else if nibble == 9 {
        '9'
    } else if nibble == 10 {
        'A'
    } else if nibble == 11 {
        'B'
    } else if nibble == 12 {
        'C'
    } else if nibble == 13 {
        'D'
    } else if nibble == 14 {
        'E'
    } else {
        'F'
    }
}

/// How one byte is written in a query: itself where it is unreserved, else a
/// percent sign and its two hexadecimal digits.
pub open spec fn encoded_byte(byte: u8) -> Seq<char> {
    if is_unreserved(byte) {
        seq![byte as char]
    } else {
        seq!['%', upper_hex(byte as int / 16), upper_hex(byte as int % 16)]
    }
}

/// How a sequence of bytes is written in a query: byte by byte.
pub open spec fn percent_encoded(bytes: Seq<u8>) -> Seq<char>
    decreases bytes.len(),
{
    if bytes.len() == 0 {
        Seq::empty()
    } else {
        percent_encoded(bytes.drop_last()) + encoded_byte(bytes.last())
    }
}

/// Whether a character may stand in an encoded query: an unreserved
/// character of ASCII or the percent sign.
pub open spec fn is_query_safe(c: char) -> bool {
    c == '%' || (c as u32 <= 0x7f && is_unreserved(c as u8))
}

/// Whatever the bytes, their encoding holds only characters that may stand
/// in a query, and at least one and at most three for each byte.
pub proof fn lemma_percent_encoded_is_query_safe(bytes: Seq<u8>)
    ensures
        forall|k: int|
            0 <= k < percent_encoded(bytes).len() ==> is_query_safe(
                #[trigger] percent_encoded(bytes)[k],
            ),
        bytes.len() <= percent_encoded(bytes).len() <= 3 * bytes.len(),
    decreases bytes.len(),
{
    if bytes.len() > 0 {
        lemma_percent_encoded_is_query_safe(bytes.drop_last());
        let byte = bytes.last();
        let tail = encoded_byte(byte);
        assert forall|k: int| 0 <= k < tail.len() implies is_query_safe(#[trigger] tail[k]) by {
            if is_unreserved(byte) {
                assert(tail[0] == byte as char);
                assert((byte as char) as u32 == byte as u32);
                assert((byte as char) as u8 == byte);
            } else {
                let c = tail[k];
                assert(c == '%' || c == upper_hex(byte as int / 16) || c == upper_hex(
                    byte as int % 16,
                ));
                lemma_upper_hex_is_query_safe(byte as int / 16);
                lemma_upper_hex_is_query_safe(byte as int % 16);
            }
        }
    }
}

/// Every hexadecimal digit may stand in a query.
pub proof fn lemma_upper_hex_is_query_safe(nibble: int)
    ensures
        is_query_safe(upper_hex(nibble)),
{
}

/// Calls `urlencoding::encode` and takes the result as an owned string.
///
/// Trusted: that the function walks the UTF-8 bytes of the text in order,
/// keeps each ASCII letter, digit, `-`, `.`, `_` and `~` as it is, and writes
/// every other byte as a percent sign followed by its two upper-case
/// hexadecimal digits.
#[verifier::external_body]
fn percent_encode(text: &str) -> (encoded: String)
    ensures
        encoded@ == percent_encoded(encode_utf8(text@)),
{
    urlencoding::encode(text).into_owned()
}

/// The address of the page `title` of `project`.
pub open spec fn page_url_text(project: Seq<char>, title: Seq<char>) -> Seq<char> {
    PAGE_ROOT@ + project + seq!['/'] + title
}

/// The address that creates the page `title` of `project` with `body` as its
/// text: the page's address, with the encoded body as the query `body`.
pub open spec fn create_url_text(project: Seq<char>, title: Seq<char>, body: Seq<char>) -> Seq<
    char,
> {
    page_url_text(project, title) + seq!['?', 'b', 'o', 'd', 'y', '='] + percent_encoded(
        encode_utf8(body),
    )
}

/// The address of the page `title` of `project`.
pub fn page_url(project: &str, title: &str) -> (url: String)
    ensures
        url@ == page_url_text(project@, title@),
{
    let mut url = PAGE_ROOT.to_owned();
    url.append(project);
    url.push('/');
    url.append(title);
    url
}

/// The address that creates the page `title` of `project` with `body` as its
/// text.
pub fn create_url(project: &str, title: &str, body: &str) -> (url: String)
    ensures
        url@ == create_url_text(project@, title@, body@),
{
    let mut url = page_url(project, title);
    url.push('?');
    url.push('b');
    url.push('o');
    url.push('d');
    url.push('y');
    url.push('=');
    let encoded = percent_encode(body);
    url.append(encoded.as_str());
    proof {
        assert(url@ =~= create_url_text(project@, title@, body@));
    }
    url
}

/// What the reading of a rendered page says about the page. Where the text
/// was read, the page exists unless the text holds the invitation to create
/// it. Where no text could be read nothing is known of the page: that is a
/// failure of the transport, never an absent page.
pub open spec fn shows_existing_page(rendered: Option<Seq<char>>) -> Result<bool, ErrorModel> {
    match rendered {
        Some(text) => Ok(!contains_phrase(text, NEW_PAGE_PHRASE@)),
        None => Err(ErrorModel::Failure { detail: UNREADABLE_PAGE@ }),
    }
}

/// The text of a reading as a sequence of characters.
pub open spec fn rendered_model(rendered: Option<&str>) -> Option<Seq<char>> {
    match rendered {
        Some(text) => Some(text@),
        None => None,
    }
}

/// An answer to the question whether a page exists, with the error, where
/// there is one, as its model.
pub open spec fn answer_model(answer: Result<bool, TransportError>) -> Result<bool, ErrorModel> {
    match answer {
        Ok(found) => Ok(found),
        Err(e) => Err(e@),
    }
}

/// What the reading of a rendered page says about the page: whether it
/// exists, or that this could not be found out because no text was read.
pub fn page_exists_in(rendered: Option<&str>) -> (answer: Result<bool, TransportError>)
    ensures
        answer_model(answer) == shows_existing_page(rendered_model(rendered)),
        answer is Ok <==> rendered is Some,
{
    match rendered {
        Some(text) => Ok(!contains(text, NEW_PAGE_PHRASE)),
        None => Err(TransportError::Failure { detail: UNREADABLE_PAGE.to_owned() }),
    }
}

} // verus!
