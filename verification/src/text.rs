//! Text helpers shared by the services: Unicode whitespace, the first
//! whitespace-separated word of a text, substring search, UTF-8 decoding and
//! the `{"status": ...}` JSON body.

use vstd::prelude::*;
use vstd::utf8::decode_utf8;
use vstd::utf8::valid_utf8;

verus! {

/// The Unicode `White_Space` property (PropList.txt), which is what
/// `char::is_whitespace` tests.
pub open spec fn unicode_white_space(c: char) -> bool {
    let n = c as int;
    ||| 0x09 <= n <= 0x0d
    ||| n == 0x20
    ||| n == 0x85
    ||| n == 0xa0
    ||| n == 0x1680
    ||| 0x2000 <= n <= 0x200a
    ||| n == 0x2028
    ||| n == 0x2029
    ||| n == 0x202f
    ||| n == 0x205f
    ||| n == 0x3000
}

/// `char::is_whitespace`, which std documents as the `White_Space` property.
#[verifier::external_body]
fn char_is_whitespace(c: char) -> (ws: bool)
    ensures
        ws == unicode_white_space(c),
{
    c.is_whitespace()
}

/// Index of the first character at or after `i` that is not whitespace
/// (`s.len()` when there is none).
pub open spec fn skip_white_space(s: Seq<char>, i: int) -> int
    decreases s.len() - i,
{
    if 0 <= i < s.len() && unicode_white_space(s[i]) {
        skip_white_space(s, i + 1)
    } else {
        i
    }
}

/// Index of the first whitespace character at or after `i` (`s.len()` when
/// there is none).
pub open spec fn skip_word(s: Seq<char>, i: int) -> int
    decreases s.len() - i,
{
    if 0 <= i < s.len() && !unicode_white_space(s[i]) {
        skip_word(s, i + 1)
    } else {
        i
    }
}

/// The first item of `str::split_whitespace`: the first maximal run of
/// non-whitespace characters, if the text has any.
pub open spec fn first_word(s: Seq<char>) -> Option<Seq<char>> {
    let start = skip_white_space(s, 0);
    if start < s.len() {
        Some(s.subrange(start, skip_word(s, start)))
    } else {
        None
    }
}

proof fn lemma_skip_white_space(s: Seq<char>, i: int)
    requires
        0 <= i <= s.len(),
    ensures
        i <= skip_white_space(s, i) <= s.len(),
        forall|k: int| i <= k < skip_white_space(s, i) ==> unicode_white_space(#[trigger] s[k]),
        skip_white_space(s, i) < s.len() ==> !unicode_white_space(s[skip_white_space(s, i)]),
    decreases s.len() - i,
{
    if i < s.len() && unicode_white_space(s[i]) {
        lemma_skip_white_space(s, i + 1);
    }
}

proof fn lemma_skip_word(s: Seq<char>, i: int)
    requires
        0 <= i <= s.len(),
    ensures
        i <= skip_word(s, i) <= s.len(),
        forall|k: int| i <= k < skip_word(s, i) ==> !unicode_white_space(#[trigger] s[k]),
        skip_word(s, i) < s.len() ==> unicode_white_space(s[skip_word(s, i)]),
    decreases s.len() - i,
{
    if i < s.len() && !unicode_white_space(s[i]) {
        lemma_skip_word(s, i + 1);
    }
}

/// The first word of a text is non-empty, holds no whitespace, is preceded
/// by whitespace only, and ends at a whitespace character or at the end of
/// the text; a text without a word is whitespace throughout.
pub proof fn lemma_first_word_shape(s: Seq<char>)
    ensures
        first_word(s) is None ==> forall|k: int| 0 <= k < s.len() ==> unicode_white_space(#[trigger] s[k]),
        first_word(s) matches Some(w) ==> {
            let start = skip_white_space(s, 0);
            &&& w.len() > 0
            &&& forall|k: int| 0 <= k < w.len() ==> !unicode_white_space(#[trigger] w[k])
            &&& forall|k: int| 0 <= k < start ==> unicode_white_space(#[trigger] s[k])
            &&& 0 <= start
            &&& start + w.len() <= s.len()
            &&& w == s.subrange(start, start + w.len())
            &&& (start + w.len() == s.len() || unicode_white_space(s[start + w.len()]))
        },
{
    lemma_skip_white_space(s, 0);
    let start = skip_white_space(s, 0);
    if start < s.len() {
        lemma_skip_word(s, start);
        let w = s.subrange(start, skip_word(s, start));
        assert forall|k: int| 0 <= k < w.len() implies !unicode_white_space(#[trigger] w[k]) by {
            assert(w[k] == s[start + k]);
        }
    }
}

/// The characters of a string, in order.
pub fn chars_of(s: &str) -> (chars: Vec<char>)
    ensures
        chars@ == s@,
{
    let mut chars: Vec<char> = Vec::new();
    for c in it: s.chars()
        invariant
            it.seq() == s@,
            chars@ == it.seq().take(it.index() as int),
    {
        proof {
            assert(it.seq().take(it.index() + 1) == it.seq().take(it.index() as int).push(c));
        }
        chars.push(c);
    }
    chars
}

/// The first whitespace-separated word of `text`, as
/// `text.split_whitespace().next()` yields it.
pub fn first_word_of(text: &Vec<char>) -> (word: Option<Vec<char>>)
    ensures
        word is Some <==> first_word(text@) is Some,
        word matches Some(w) ==> first_word(text@) == Some(w@),
{
    let n = text.len();
    let mut i: usize = 0;
    while i < n && char_is_whitespace(text[i])
        invariant
            n == text@.len(),
            i <= n,
            skip_white_space(text@, i as int) == skip_white_space(text@, 0),
        decreases n - i,
    {
        i = i + 1;
    }
    if i == n {
        return None;
    }
    let start = i;
    let mut word: Vec<char> = Vec::new();
    while i < n && !char_is_whitespace(text[i])
        invariant
            n == text@.len(),
            start <= i <= n,
            start == skip_white_space(text@, 0),
            skip_word(text@, i as int) == skip_word(text@, start as int),
            word@ == text@.subrange(start as int, i as int),
        decreases n - i,
    {
        word.push(text[i]);
        i = i + 1;
    }
    Some(word)
}

/// Whether `needle` occurs in `haystack` as a contiguous run
/// (`str::contains` with a string pattern).
pub open spec fn occurs_in(haystack: Seq<char>, needle: Seq<char>) -> bool {
    exists|i: int|
        0 <= i && i + needle.len() <= haystack.len() && #[trigger] haystack.subrange(
            i,
            i + needle.len(),
        ) == needle
}

fn matches_at(haystack: &Vec<char>, needle: &Vec<char>, at: usize) -> (found: bool)
    requires
        at + needle@.len() <= haystack@.len(),
    ensures
        found == (haystack@.subrange(at as int, at + needle@.len()) == needle@),
{
    let m = needle.len();
    let len = haystack.len();
    let mut j: usize = 0;
    while j < m
        invariant
            m == needle@.len(),
            len == haystack@.len(),
            at + m <= haystack@.len(),
            j <= m,
            forall|k: int| 0 <= k < j ==> haystack@[at + k] == needle@[k],
        decreases m - j,
    {
        if haystack[at + j] != needle[j] {
            assert(haystack@.subrange(at as int, at + m)[j as int] != needle@[j as int]);
            return false;
        }
        j = j + 1;
    }
    assert(haystack@.subrange(at as int, at + m) =~= needle@);
    true
}

/// Whether `needle` occurs in `haystack`.
pub fn contains_text(haystack: &str, needle: &str) -> (found: bool)
    ensures
        found == occurs_in(haystack@, needle@),
{
    let h = chars_of(haystack);
    let p = chars_of(needle);
    let n = h.len();
    let m = p.len();
    if m > n {
        return false;
    }
    let mut i: usize = 0;
    while i <= n - m
        invariant_except_break
            forall|k: int| 0 <= k < i ==> #[trigger] h@.subrange(k, k + m) != p@,
        invariant
            n == h@.len(),
            m == p@.len(),
            m <= n,
            h@ == haystack@,
            p@ == needle@,
            i <= n - m,
        ensures
            forall|k: int| 0 <= k <= n - m ==> #[trigger] h@.subrange(k, k + m) != p@,
        decreases n - m + 1 - i,
    {
        if matches_at(&h, &p, i) {
            return true;
        }
        if i == n - m {
            break;
        }
        i = i + 1;
    }
    false
}

/// `String::from_utf8(bytes).ok()`; std documents that it fails exactly when
/// the bytes are not valid UTF-8, and otherwise holds the decoded text.
#[verifier::external_body]
fn string_from_utf8(bytes: Vec<u8>) -> (text: Option<String>)
    ensures
        text is Some <==> valid_utf8(bytes@),
        text matches Some(t) ==> t@ == decode_utf8(bytes@),
{
    String::from_utf8(bytes).ok()
}

/// Decodes UTF-8 bytes into characters; `None` when they are not UTF-8.
pub fn decode_utf8_chars(bytes: &Vec<u8>) -> (chars: Option<Vec<char>>)
    ensures
        chars is Some <==> valid_utf8(bytes@),
        chars matches Some(c) ==> c@ == decode_utf8(bytes@),
{
    match string_from_utf8(bytes.clone()) {
        Some(text) => Some(chars_of(text.as_str())),
        None => None,
    }
}

/// A lower-case hexadecimal digit.
pub open spec fn hex_digit(n: int) -> char {
    if n < 10 {
        (('0' as int) + n) as char
    } else {
        (('a' as int) + n - 10) as char
    }
}

/// How serde_json writes one character inside a JSON string: `"` and `\`
/// and the control characters below U+0020 are escaped (`\b`, `\t`, `\n`,
/// `\f`, `\r`, or `\u00` and two lower-case hex digits); every other
/// character stands for itself.
pub open spec fn json_escape_char(c: char) -> Seq<char> {
    let n = c as int;
    if c == '"' {
        seq!['\\', '"']
    } else if c == '\\' {
        seq!['\\', '\\']
    } else if n == 0x08 {
        seq!['\\', 'b']
    } else if n == 0x09 {
        seq!['\\', 't']
    } else if n == 0x0a {
        seq!['\\', 'n']
    } else if n == 0x0c {
        seq!['\\', 'f']
    } else if n == 0x0d {
        seq!['\\', 'r']
    } else if n < 0x20 {
        seq!['\\', 'u', '0', '0', hex_digit(n / 16), hex_digit(n % 16)]
    } else {
        seq![c]
    }
}

/// The escaped characters of a text, one after the other.
pub open spec fn json_escaped(text: Seq<char>) -> Seq<char>
    decreases text.len(),
{
    if text.len() == 0 {
        Seq::empty()
    } else {
        json_escape_char(text[0]) + json_escaped(text.drop_first())
    }
}

/// The JSON string literal (quotes and escapes included) that serde_json
/// writes for a text.
pub open spec fn json_string(text: Seq<char>) -> Seq<char> {
    seq!['"'] + json_escaped(text) + seq!['"']
}

/// Writes `serde_json::Value::String(text)` with its `Display` impl, the
/// compact JSON form: a quote, each character as `format_escaped_str` and
/// its `ESCAPE` table write it, and a quote.
#[verifier::external_body]
fn serde_json_string(text: &str) -> (literal: String)
    ensures
        literal@ == json_string(text@),
{
    serde_json::Value::String(text.to_owned()).to_string()
}

/// The compact JSON object with the single field `status`.
pub open spec fn status_json(status: Seq<char>) -> Seq<char> {
    "{"@ + json_string("status"@) + ":"@ + json_string(status) + "}"@
}

/// The response body `{"status": <status>}` in compact JSON.
pub fn status_body(status: &str) -> (body: String)
    ensures
        body@ == status_json(status@),
{
    let key = serde_json_string("status");
    let value = serde_json_string(status);
    let mut body = String::from_str("{");
    body.append(key.as_str());
    body.append(":");
    body.append(value.as_str());
    body.append("}");
    body
}

/// `String::push`: std documents that it appends the character.
pub assume_specification[ String::push ](s: &mut String, ch: char)
    ensures
        final(s)@ == old(s)@.push(ch),
;

/// A string holding the given characters.
pub fn string_of_chars(chars: &Vec<char>) -> (s: String)
    ensures
        s@ == chars@,
{
    let mut s = String::new();
    let n = chars.len();
    let mut i: usize = 0;
    while i < n
        invariant
            n == chars@.len(),
            i <= n,
            s@ == chars@.take(i as int),
        decreases n - i,
    {
        s.push(chars[i]);
        assert(chars@.take(i + 1) =~= chars@.take(i as int).push(chars@[i as int]));
        i = i + 1;
    }
    assert(chars@.take(n as int) =~= chars@);
    s
}

} // verus!
