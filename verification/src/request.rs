//! Framing of the remote translation request: the fixed endpoint, the
//! bearer credential header, and the JSON payload that carries a fixed
//! system instruction plus the stem to translate. The JSON string escaping
//! is written out and verified here, so the payload is well-formed for any
//! stem.

use vstd::prelude::*;

verus! {

/// The hexadecimal digit for a value below 16.
pub open spec fn hex_digit_char(n: int) -> char {
    if n == 0 {
        '0'
    } else if n == 1 {
        '1'
    } else if n == 2 {
        '2'
    } else if n == 3 {
        '3'
    } else if n == 4 {
        '4'
    } else if n == 5 {
        '5'
    } else if n == 6 {
        '6'
    } else if n == 7 {
        '7'
    } else if n == 8 {
        '8'
    } else if n == 9 {
        '9'
    } else if n == 10 {
        'a'
    } else if n == 11 {
        'b'
    } else if n == 12 {
        'c'
    } else if n == 13 {
        'd'
    } else if n == 14 {
        'e'
    } else {
        'f'
    }
}

/// How one character appears inside a JSON string literal: quotes and
/// backslashes escaped, control characters in `\u00XX` form, everything
/// else as itself.
pub open spec fn json_escaped_char(c: char) -> Seq<char> {
    if c == '"' {
        seq!['\\', '"']
    } else if c == '\\' {
        seq!['\\', '\\']
    } else if (c as u32) < 32 {
        seq!['\\', 'u', '0', '0', hex_digit_char(c as int / 16), hex_digit_char(c as int % 16)]
    } else {
        seq![c]
    }
}

/// The JSON string-literal form of a whole sequence.
pub open spec fn json_escaped(s: Seq<char>) -> Seq<char>
    decreases s.len(),
{
    if s.len() == 0 {
        Seq::empty()
    } else {
        json_escaped_char(s[0]) + json_escaped(s.skip(1))
    }
}

/// Escaping a sequence extended by one character appends that character's
/// escaped form.
proof fn lemma_json_escaped_push(t: Seq<char>, c: char)
    ensures
        json_escaped(t.push(c)) == json_escaped(t) + json_escaped_char(c),
    decreases t.len(),
{
    if t.len() == 0 {
        let p = t.push(c);
        assert(p[0] == c);
        assert(p.skip(1) =~= Seq::<char>::empty());
        assert(json_escaped(p.skip(1)) == Seq::<char>::empty());
        assert(t =~= Seq::<char>::empty());
        assert(json_escaped(t) == Seq::<char>::empty());
        assert(json_escaped(p) == json_escaped_char(c) + json_escaped(p.skip(1)));
        assert(json_escaped(p) =~= json_escaped(t) + json_escaped_char(c));
    } else {
        assert(t.push(c)[0] == t[0]);
        assert(t.push(c).skip(1) =~= t.skip(1).push(c));
        lemma_json_escaped_push(t.skip(1), c);
        assert(json_escaped(t.push(c)) =~= json_escaped(t) + json_escaped_char(c));
    }
}

/// The hexadecimal digit for a value below 16.
fn hex_digit_str(n: u32) -> (r: &'static str)
    requires
        n < 16,
    ensures
        r@ == seq![hex_digit_char(n as int)],
{
    let r: &'static str = match n {
        0 => "0",
        1 => "1",
        2 => "2",
        3 => "3",
        4 => "4",
        5 => "5",
        6 => "6",
        7 => "7",
        8 => "8",
        9 => "9",
        10 => "a",
        11 => "b",
        12 => "c",
        13 => "d",
        14 => "e",
        _ => "f",
    };
    proof {
        reveal_strlit("0");
        reveal_strlit("1");
        reveal_strlit("2");
        reveal_strlit("3");
        reveal_strlit("4");
        reveal_strlit("5");
        reveal_strlit("6");
        reveal_strlit("7");
        reveal_strlit("8");
        reveal_strlit("9");
        reveal_strlit("a");
        reveal_strlit("b");
        reveal_strlit("c");
        reveal_strlit("d");
        reveal_strlit("e");
        reveal_strlit("f");
        assert(r@ =~= seq![hex_digit_char(n as int)]);
    }
    r
}

/// Escapes a text for inclusion inside a JSON string literal.
pub fn json_escape(s: &str) -> (r: String)
    ensures
        r@ == json_escaped(s@),
{
    let n = s.unicode_len();
    let mut out = String::new();
    let mut i: usize = 0;
    proof {
        assert(s@.take(0) =~= Seq::<char>::empty());
    }
    while i < n
        invariant
            n == s@.len(),
            i <= n,
            out@ == json_escaped(s@.take(i as int)),
        decreases n - i,
    {
        let c = s.get_char(i);
        if c == '"' {
            proof {
                reveal_strlit("\\\"");
            }
            out.append("\\\"");
        } else if c == '\\' {
            proof {
                reveal_strlit("\\\\");
            }
            out.append("\\\\");
        } else if (c as u32) < 32 {
            proof {
                reveal_strlit("\\u00");
            }
            out.append("\\u00");
            out.append(hex_digit_str((c as u32) / 16));
            out.append(hex_digit_str((c as u32) % 16));
        } else {
            out.append(s.substring_char(i, i + 1));
            proof {
                assert(s@.subrange(i as int, i + 1) =~= seq![s@[i as int]]);
            }
        }
        proof {
            lemma_json_escaped_push(s@.take(i as int), s@[i as int]);
            assert(s@.take(i + 1) =~= s@.take(i as int).push(s@[i as int]));
            assert(out@ =~= json_escaped(s@.take(i + 1)));
        }
        i = i + 1;
    }
    proof {
        assert(s@.take(n as int) =~= s@);
    }
    out
}

/// The payload text up to the opening quote of the user content.
pub open spec fn request_prefix() -> Seq<char> {
    "{\"model\":\"qwen-max\",\"input\":{\"messages\":[{\"role\":\"system\",\"content\":\"You are a translator. Translate the following text to English. Only respond with the translation, no explanations or additional text.\"},{\"role\":\"user\",\"content\":\""@
}

/// The payload text after the user content.
pub open spec fn request_suffix() -> Seq<char> {
    "\"}]}}"@
}

/// The full JSON payload for one stem.
pub open spec fn request_body_spec(stem: Seq<char>) -> Seq<char> {
    request_prefix() + json_escaped(stem) + request_suffix()
}

/// Builds the JSON payload: the fixed system instruction and the escaped
/// stem as the user message.
pub fn build_request_body(stem: &str) -> (r: String)
    ensures
        r@ == request_body_spec(stem@),
{
    let mut out = String::from_str(
        "{\"model\":\"qwen-max\",\"input\":{\"messages\":[{\"role\":\"system\",\"content\":\"You are a translator. Translate the following text to English. Only respond with the translation, no explanations or additional text.\"},{\"role\":\"user\",\"content\":\"",
    );
    let escaped = json_escape(stem);
    out.append(escaped.as_str());
    out.append("\"}]}}");
    out
}

/// The fixed endpoint of the remote translation service.
pub open spec fn endpoint_url_spec() -> Seq<char> {
    "https://dashscope.aliyuncs.com/api/v1/services/aigc/text-generation/generation"@
}

/// The fixed endpoint of the remote translation service.
pub fn endpoint_url() -> (r: String)
    ensures
        r@ == endpoint_url_spec(),
{
    String::from_str(
        "https://dashscope.aliyuncs.com/api/v1/services/aigc/text-generation/generation",
    )
}

/// The authorization header value for a credential.
pub open spec fn bearer_of(key: Seq<char>) -> Seq<char> {
    "Bearer "@ + key
}

/// Builds the authorization header value for a credential.
pub fn bearer_header(key: &str) -> (r: String)
    ensures
        r@ == bearer_of(key@),
{
    String::from_str("Bearer ").concat(key)
}

/// Everything the caller needs to issue the remote request: where to send
/// it, the authorization header value, and the JSON payload.
pub struct TranslationRequest {
    pub url: String,
    pub auth: String,
    pub body: String,
}

} // verus!
