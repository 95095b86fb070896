//! JSON for the engine's OpenAI-compatible chat API: the request body is
//! written here (string quoting by `serde_json`), and the answer is read
//! out of the parsed reply.

use vstd::prelude::*;

verus! {

/// Lower-case hexadecimal digit of `d < 16`.
pub open spec fn hex_digit(d: nat) -> char {
    if d < 10 {
        (48 + d) as char
    } else {
        (87 + d) as char
    }
}

/// How one character appears inside a JSON string literal: quote, backslash
/// and control characters are escaped, everything else stands as it is.
pub open spec fn json_escape_char(c: char) -> Seq<char> {
    if c == '"' {
        seq!['\\', '"']
    } else if c == '\\' {
        seq!['\\', '\\']
    } else if c == '\u{8}' {
        seq!['\\', 'b']
    } else if c == '\t' {
        seq!['\\', 't']
    } else if c == '\n' {
        seq!['\\', 'n']
    } else if c == '\u{c}' {
        seq!['\\', 'f']
    } else if c == '\r' {
        seq!['\\', 'r']
    } else if (c as nat) < 32 {
        seq!['\\', 'u', '0', '0', hex_digit((c as nat) / 16), hex_digit((c as nat) % 16)]
    } else {
        seq![c]
    }
}

/// The escaped contents of a JSON string literal for `s`.
pub open spec fn json_escaped(s: Seq<char>) -> Seq<char>
    decreases s.len(),
{
    if s.len() == 0 {
        Seq::empty()
    } else {
        json_escaped(s.drop_last()) + json_escape_char(s.last())
    }
}

/// `s` written as a JSON string literal, quotes included.
pub open spec fn json_quote(s: Seq<char>) -> Seq<char> {
    seq!['"'] + json_escaped(s) + seq!['"']
}

/// Text without quotes, backslashes or control characters is written into a
/// JSON string literal unchanged.
pub proof fn law_plain_text_quoted_verbatim(s: Seq<char>)
    requires
        forall|i: int|
            0 <= i < s.len() ==> #[trigger] s[i] != '"' && s[i] != '\\' && (s[i] as nat) >= 32,
    ensures
        json_escaped(s) == s,
        json_quote(s) == seq!['"'] + s + seq!['"'],
    decreases s.len(),
{
    if s.len() > 0 {
        law_plain_text_quoted_verbatim(s.drop_last());
        assert(s.drop_last().push(s.last()) =~= s);
    }
}

/// `serde_json::to_string` on a `&str`: the JSON string literal for `s`.
///
/// The contract restates serde_json's string escaper (its `ESCAPE` table and
/// lower-case `\u00XX` form). Serialising a `str` into a `Vec` cannot fail,
/// so the error branch is never taken.
#[verifier::external_body]
fn quote_json(s: &str) -> (q: String)
    ensures
        q@ == json_quote(s@),
{
    match serde_json::to_string(s) {
        Ok(q) => q,
        Err(_) => String::new(),
    }
}

/// The body of a chat completion request for `prompt` (keys in the order
/// serde_json's default map writes them).
pub open spec fn chat_request_json(prompt: Seq<char>) -> Seq<char> {
    "{\"max_tokens\":512,\"messages\":[{\"content\":"@ + json_quote(prompt)
        + ",\"role\":\"user\"}],\"model\":\"local\"}"@
}

/// Builds the JSON request body that asks the local model to answer `prompt`.
pub fn chat_request_body(prompt: &str) -> (body: String)
    ensures
        body@ == chat_request_json(prompt@),
{
    let mut body = "{\"max_tokens\":512,\"messages\":[{\"content\":".to_owned();
    let q = quote_json(prompt);
    body.append(q.as_str());
    body.append(",\"role\":\"user\"}],\"model\":\"local\"}");
    body
}

/// A JSON value as the chat logic reads it: numbers are kept only as such,
/// an object is its members in document order.
#[derive(Debug)]
pub enum JsonValue {
    Null,
    Bool(bool),
    Number,
    Str(String),
    Array(Vec<JsonValue>),
    Object(Vec<(String, JsonValue)>),
}

/// The value of the first member named `key` among `entries`.
pub open spec fn entry_value(entries: Seq<(String, JsonValue)>, key: Seq<char>) -> Option<
    JsonValue,
>
    decreases entries.len(),
{
    if entries.len() == 0 {
        None
    } else if entries[0].0@ == key {
        Some(entries[0].1)
    } else {
        entry_value(entries.drop_first(), key)
    }
}

/// The member `key` of an object; `None` for a missing key or a non-object.
pub open spec fn member(v: JsonValue, key: Seq<char>) -> Option<JsonValue> {
    match v {
        JsonValue::Object(entries) => entry_value(entries@, key),
        _ => None,
    }
}

/// Element `i` of an array; `None` out of bounds or for a non-array.
pub open spec fn element(v: JsonValue, i: int) -> Option<JsonValue> {
    match v {
        JsonValue::Array(items) => if 0 <= i < items@.len() {
            Some(items@[i])
        } else {
            None
        },
        _ => None,
    }
}

/// The text of a JSON string; `None` for any other value.
pub open spec fn text_of(v: JsonValue) -> Option<Seq<char>> {
    match v {
        JsonValue::Str(s) => Some(s@),
        _ => None,
    }
}

/// `v["choices"][0]["message"]["content"]` when it is a string.
pub open spec fn reply_content(v: JsonValue) -> Option<Seq<char>> {
    match member(v, "choices"@) {
        Some(choices) => match element(choices, 0) {
            Some(first) => match member(first, "message"@) {
                Some(message) => match member(message, "content"@) {
                    Some(c) => text_of(c),
                    None => None,
                },
                None => None,
            },
            None => None,
        },
        None => None,
    }
}

/// What the chat answers for a reply `v`: its message content, or the
/// format error.
pub open spec fn reply_answer(v: JsonValue, r: Result<String, String>) -> bool {
    match reply_content(v) {
        Some(c) => r is Ok && r->Ok_0@ == c,
        None => r is Err && r->Err_0@ == "Unexpected AI response format"@,
    }
}

/// The first member named `key` is the one at position `i` when no earlier
/// member has that name.
pub proof fn lemma_first_entry(entries: Seq<(String, JsonValue)>, key: Seq<char>, i: int)
    requires
        0 <= i < entries.len(),
        entries[i].0@ == key,
        forall|j: int| 0 <= j < i ==> #[trigger] entries[j].0@ != key,
    ensures
        entry_value(entries, key) == Some(entries[i].1),
    decreases i,
{
    if i > 0 {
        let rest = entries.drop_first();
        assert(entries[0].0@ != key);
        assert forall|j: int| 0 <= j < i - 1 implies #[trigger] rest[j].0@ != key by {
            assert(rest[j] == entries[j + 1]);
        }
        assert(rest[i - 1] == entries[i]);
        lemma_first_entry(rest, key, i - 1);
    }
}

/// `entries` has a member named `key` at position `i`, and none before it.
pub open spec fn first_named(entries: Seq<(String, JsonValue)>, key: Seq<char>, i: int) -> bool {
    &&& 0 <= i < entries.len()
    &&& entries[i].0@ == key
    &&& forall|j: int| 0 <= j < i ==> #[trigger] entries[j].0@ != key
}

/// The chat answer is the content of the first choice's message: for every
/// reply object whose member `choices` is an array whose first element is an
/// object whose member `message` is an object whose member `content` is the
/// string `s`, the answer is `Ok(s)`, whatever other members the reply, the
/// choice or the message carry and wherever they stand.
pub proof fn law_answer_is_first_choice_content(
    v: JsonValue,
    r: Result<String, String>,
    ci: int,
    mi: int,
    ti: int,
    s: Seq<char>,
)
    requires
        reply_answer(v, r),
        v matches JsonValue::Object(top) && first_named(top@, "choices"@, ci) && (top@[ci].1 matches JsonValue::Array(
            choices,
        ) && choices@.len() > 0 && (choices@[0] matches JsonValue::Object(choice) && first_named(
            choice@,
            "message"@,
            mi,
        ) && (choice@[mi].1 matches JsonValue::Object(message) && first_named(
            message@,
            "content"@,
            ti,
        ) && (message@[ti].1 matches JsonValue::Str(text) && text@ == s)))),
    ensures
        r is Ok,
        r->Ok_0@ == s,
{
    let top = v->Object_0@;
    lemma_first_entry(top, "choices"@, ci);
    let choices = top[ci].1->Array_0@;
    let choice = choices[0]->Object_0@;
    lemma_first_entry(choice, "message"@, mi);
    let message = choice[mi].1->Object_0@;
    lemma_first_entry(message, "content"@, ti);
}

/// Compares two strings.
fn same_key(a: &str, b: &str) -> (r: bool)
    ensures
        r == (a@ == b@),
{
    a.to_owned() == b.to_owned()
}

/// The member `key` of an object.
pub fn json_member<'a>(v: &'a JsonValue, key: &str) -> (r: Option<&'a JsonValue>)
    ensures
        match member(*v, key@) {
            Some(m) => r is Some && *r->0 == m,
            None => r is None,
        },
{
    match v {
        JsonValue::Object(entries) => {
            let n = entries.len();
            let mut i: usize = 0;
            assert(entries@.skip(0) =~= entries@);
            while i < n
                invariant
                    n == entries@.len(),
                    i <= n,
                    member(*v, key@) == entry_value(entries@, key@),
                    entry_value(entries@, key@) == entry_value(entries@.skip(i as int), key@),
                decreases n - i,
            {
                assert(entries@.skip(i as int).drop_first() =~= entries@.skip(i + 1));
                assert(entries@.skip(i as int)[0] == entries@[i as int]);
                if same_key(entries[i].0.as_str(), key) {
                    return Some(&entries[i].1);
                }
                i = i + 1;
            }
            assert(entries@.skip(n as int) =~= Seq::<(String, JsonValue)>::empty());
            None
        },
        _ => None,
    }
}

/// Element `i` of an array.
pub fn json_element(v: &JsonValue, i: usize) -> (r: Option<&JsonValue>)
    ensures
        match element(*v, i as int) {
            Some(e) => r is Some && *r->0 == e,
            None => r is None,
        },
{
    match v {
        JsonValue::Array(items) => if i < items.len() {
            Some(&items[i])
        } else {
            None
        },
        _ => None,
    }
}

/// The text of a JSON string.
pub fn json_text(v: &JsonValue) -> (r: Option<String>)
    ensures
        match text_of(*v) {
            Some(t) => r is Some && r->0@ == t,
            None => r is None,
        },
{
    match v {
        JsonValue::Str(s) => Some(s.clone()),
        _ => None,
    }
}

/// The answer when the reply's message content is `content`.
pub fn reply_from_content(content: Option<String>) -> (r: Result<String, String>)
    ensures
        match content {
            Some(c) => r == Ok::<String, String>(c),
            None => r is Err && r->Err_0@ == "Unexpected AI response format"@,
        },
{
    match content {
        Some(c) => Ok(c),
        None => Err("Unexpected AI response format".to_owned()),
    }
}

/// Reads the answer out of a chat completion reply:
/// `choices[0].message.content`, which must be a string.
pub fn reply_from_json(v: &JsonValue) -> (r: Result<String, String>)
    ensures
        reply_answer(*v, r),
{
    let content = match json_member(v, "choices") {
        Some(choices) => match json_element(choices, 0) {
            Some(first) => match json_member(first, "message") {
                Some(message) => match json_member(message, "content") {
                    Some(c) => json_text(c),
                    None => None,
                },
                None => None,
            },
            None => None,
        },
        None => None,
    };
    reply_from_content(content)
}

} // verus!
