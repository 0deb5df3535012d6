//! The first line of a response: a status, a space and a meta text.

use crate::error::ErrorView;
use crate::error::GeminiClientError;
use crate::text::chars_of;
use crate::text::decode;
use crate::text::string_of;
use crate::text::trim;
use crate::text::trim_bounds;
use vstd::prelude::*;
use vstd::string::*;
use vstd::utf8::*;

verus! {

/// Whether the first space of `text` stands at `at`.
pub open spec fn is_first_space(text: Seq<char>, at: int) -> bool {
    &&& 0 <= at < text.len()
    &&& text[at] == ' '
    &&& forall|j: int| 0 <= j < at ==> text[j] != ' '
}

/// Where the first space of `text` stands, for a text that has one.
pub open spec fn first_space(text: Seq<char>) -> int {
    choose|at: int| is_first_space(text, at)
}

/// A text has at most one first space, so knowing one is knowing
/// `first_space`.
pub proof fn lemma_first_space(text: Seq<char>, at: int)
    requires
        is_first_space(text, at),
    ensures
        first_space(text) == at,
        text.contains(' '),
{
    let chosen = first_space(text);
    assert(is_first_space(text, chosen));
    if chosen < at {
        assert(text[chosen] != ' ');
    }
    if at < chosen {
        assert(text[at] != ' ');
    }
}

/// `s` without the line feed that ends it and without the carriage return
/// before that line feed, where it has them.
pub open spec fn without_line_end(s: Seq<char>) -> Seq<char> {
    if s.len() >= 2 && s[s.len() - 2] == '\r' && s.last() == '\n' {
        s.take(s.len() - 2)
    } else if s.len() >= 1 && s.last() == '\n' {
        s.drop_last()
    } else {
        s
    }
}

/// The characters that name a status class.
pub open spec fn is_status_digit(c: char) -> bool {
    '1' <= c <= '9'
}

/// A header line can be read when it has a space, to part the status from
/// the meta text, and begins with a digit from 1 to 9.
pub open spec fn well_formed(text: Seq<char>) -> bool {
    text.contains(' ') && is_status_digit(text[0])
}

/// The status class of a header line: the value of its first digit.
pub open spec fn status_of(text: Seq<char>) -> u8 {
    (text[0] as u32 - '0' as u32) as u8
}

/// The meta text of a header line: what stands between the first space
/// and the end of the line.
pub open spec fn meta_of(text: Seq<char>) -> Seq<char> {
    without_line_end(text.skip(first_space(text) + 1))
}

/// What a MIME type must begin with for its body to be read.
pub open spec fn text_prefix() -> Seq<char> {
    "text/"@
}

/// The MIME type that a meta text names.
pub open spec fn mime_of(meta: Seq<char>) -> Seq<char> {
    trim(meta)
}

/// Why a response with this status and meta text has no body to read, or
/// `None` where it has one: a success that offers text.
pub open spec fn refusal(status: u8, meta: Seq<char>) -> Option<ErrorView> {
    if status == 1 || status == 3 || status == 6 {
        Some(ErrorView::UnsupportedStatusError)
    } else if status == 2 {
        if text_prefix().is_prefix_of(mime_of(meta)) {
            None
        } else {
            Some(ErrorView::UnsupportedMimeError(mime_of(meta)))
        }
    } else {
        Some(ErrorView::RequestError(meta))
    }
}

/// Why the response that begins with the line `line` has no body to read,
/// or `None` where it has one.
pub open spec fn line_refusal(line: Seq<u8>) -> Option<ErrorView> {
    if valid_utf8(line) && well_formed(decode_utf8(line)) {
        refusal(status_of(decode_utf8(line)), meta_of(decode_utf8(line)))
    } else {
        Some(ErrorView::MalformedResponseError)
    }
}

/// A header line with a space either begins with a digit from 1 to 9, and
/// then its status class is that digit and its outcome the one that the
/// class and the meta text give, or it is malformed. Bytes that are not
/// text are malformed too.
pub proof fn lemma_digit_or_malformed(line: Seq<u8>)
    ensures
        !valid_utf8(line) ==> line_refusal(line) == Some(ErrorView::MalformedResponseError),
        valid_utf8(line) && decode_utf8(line).contains(' ') ==> ({
            let text = decode_utf8(line);
            if is_status_digit(text[0]) {
                &&& 1 <= status_of(text) <= 9
                &&& status_of(text) == text[0] as u32 - '0' as u32
                &&& line_refusal(line) == refusal(status_of(text), meta_of(text))
            } else {
                line_refusal(line) == Some(ErrorView::MalformedResponseError)
            }
        }),
{
}

/// A header line that can be read has a status class from 1 to 9.
pub proof fn lemma_status_in_range(text: Seq<char>)
    requires
        well_formed(text),
    ensures
        1 <= status_of(text) <= 9,
{
}

/// A success whose MIME type does not begin with `text/` is refused with
/// that MIME type, so its body is never asked for.
pub proof fn lemma_other_mime_is_refused(meta: Seq<char>)
    requires
        !text_prefix().is_prefix_of(mime_of(meta)),
    ensures
        refusal(2, meta) == Some(ErrorView::UnsupportedMimeError(mime_of(meta))),
{
}

/// The header of a response.
pub struct ResponseHeader {
    /// The status class, from 1 to 9.
    pub status: u8,
    /// The MIME type, the redirect target or the error message, as the
    /// status class has it.
    pub meta: String,
}

/// Whether `chars` begins with `text/`.
fn offers_text(chars: &Vec<char>, from: usize, to: usize) -> (yes: bool)
    requires
        from <= to <= chars.len(),
    ensures
        yes == text_prefix().is_prefix_of(chars@.subrange(from as int, to as int)),
{
    proof {
        reveal_strlit("text/");
    }
    let ghost s = chars@.subrange(from as int, to as int);
    if to - from < 5 {
        return false;
    }
    let yes = chars[from] == 't' && chars[from + 1] == 'e' && chars[from + 2] == 'x' && chars[from
        + 3] == 't' && chars[from + 4] == '/';
    proof {
        if yes {
            assert(text_prefix() =~= s.subrange(0, 5));
        } else {
            let t = s.subrange(0, 5);
            assert(t[0] == s[0] && t[1] == s[1] && t[2] == s[2] && t[3] == s[3] && t[4] == s[4]);
        }
    }
    yes
}

impl ResponseHeader {
    /// Reads a header line that has been decoded: `MalformedResponseError`
    /// unless the line has a space and begins with a digit from 1 to 9.
    pub fn parse_text(text: &str) -> (header: Result<ResponseHeader, GeminiClientError>)
        ensures
            match header {
                Ok(h) => {
                    &&& well_formed(text@)
                    &&& h.status == status_of(text@)
                    &&& 1 <= h.status <= 9
                    &&& h.meta@ == meta_of(text@)
                },
                Err(e) => !well_formed(text@) && e@ == ErrorView::MalformedResponseError,
            },
    {
        let chars = chars_of(text);
        let n: usize = chars.len();
        let mut at: usize = 0;
        while at < n && chars[at] != ' '
            invariant
                at <= n == chars.len(),
                forall|j: int| 0 <= j < at ==> chars@[j] != ' ',
            decreases n - at,
        {
            at = at + 1;
        }
        if at == n {
            return Err(GeminiClientError::MalformedResponseError);
        }
        proof {
            lemma_first_space(chars@, at as int);
        }
        let first: char = chars[0];
        if !('1' <= first && first <= '9') {
            return Err(GeminiClientError::MalformedResponseError);
        }
        let status: u8 = (first as u32 - '0' as u32) as u8;
        let mut end: usize = n;
        let ghost rest = chars@.skip(at as int + 1);
        if end - at >= 3 && chars[end - 2] == '\r' && chars[end - 1] == '\n' {
            end = end - 2;
        } else if end - at >= 2 && chars[end - 1] == '\n' {
            end = end - 1;
        }
        assert(chars@.subrange(at as int + 1, end as int) =~= without_line_end(rest));
        let meta = string_of(&chars, at + 1, end);
        Ok(ResponseHeader { status, meta })
    }

    /// Reads a header line as it came from the server:
    /// `MalformedResponseError` unless the bytes are UTF-8 and the text
    /// they encode has a space and begins with a digit from 1 to 9.
    pub fn parse(line: Vec<u8>) -> (header: Result<ResponseHeader, GeminiClientError>)
        ensures
            match header {
                Ok(h) => {
                    &&& valid_utf8(line@)
                    &&& well_formed(decode_utf8(line@))
                    &&& h.status == status_of(decode_utf8(line@))
                    &&& 1 <= h.status <= 9
                    &&& h.meta@ == meta_of(decode_utf8(line@))
                },
                Err(e) => {
                    &&& !(valid_utf8(line@) && well_formed(decode_utf8(line@)))
                    &&& e@ == ErrorView::MalformedResponseError
                },
            },
    {
        match decode(line) {
            Ok(text) => ResponseHeader::parse_text(text.as_str()),
            Err(_) => Err(GeminiClientError::MalformedResponseError),
        }
    }

    /// The MIME type that the meta text names: the meta text without the
    /// white space around it.
    pub fn mime(&self) -> (mime: String)
        ensures
            mime@ == mime_of(self.meta@),
    {
        let chars = chars_of(self.meta.as_str());
        let (from, to) = trim_bounds(&chars);
        string_of(&chars, from, to)
    }

    /// Decides whether the body is to be read: only after a success that
    /// offers text. Status classes 1, 3 and 6 are not supported, a success
    /// with another MIME type is refused with that type, and any other
    /// status is a failure that carries the server's message.
    pub fn check(self) -> (verdict: Result<(), GeminiClientError>)
        ensures
            match verdict {
                Ok(_) => refusal(self.status, self.meta@) is None,
                Err(e) => refusal(self.status, self.meta@) == Some(e@),
            },
    {
        if self.status == 1 || self.status == 3 || self.status == 6 {
            Err(GeminiClientError::UnsupportedStatusError)
        } else if self.status == 2 {
            let chars = chars_of(self.meta.as_str());
            let (from, to) = trim_bounds(&chars);
            if offers_text(&chars, from, to) {
                Ok(())
            } else {
                Err(GeminiClientError::UnsupportedMimeError(string_of(&chars, from, to)))
            }
        } else {
            Err(GeminiClientError::RequestError(self.meta))
        }
    }
}

/// Reads a header line as it came from the server and decides whether the
/// body is to be read.
pub fn read_header(line: Vec<u8>) -> (verdict: Result<(), GeminiClientError>)
    ensures
        match verdict {
            Ok(_) => line_refusal(line@) is None,
            Err(e) => line_refusal(line@) == Some(e@),
        },
{
    match ResponseHeader::parse(line) {
        Ok(header) => header.check(),
        Err(e) => Err(e),
    }
}

/// Reads a body as it came from the server: the text that the bytes
/// encode, or `Utf8Error` where they are not UTF-8.
pub fn decode_body(bytes: Vec<u8>) -> (body: Result<String, GeminiClientError>)
    ensures
        match body {
            Ok(text) => valid_utf8(bytes@) && text@ == decode_utf8(bytes@),
            Err(e) => !valid_utf8(bytes@) && e@ == ErrorView::Utf8Error,
        },
{
    match decode(bytes) {
        Ok(text) => Ok(text),
        Err(e) => Err(GeminiClientError::Utf8Error(e)),
    }
}

} // verus!
