//! The stored configuration document.
//!
//! Writing is the library's own: the document is a fixed three-field JSON
//! object, rendered exactly (pretty-printed, two-space indent, strings
//! escaped as JSON asks). Reading arbitrary bytes back goes through
//! serde_json behind one trusted wrapper whose result carries a name, so
//! that loading is pinned to the input bytes; the substitution of defaults
//! for missing or malformed fields is verified logic on the extracted
//! values.

use vstd::prelude::*;

use crate::config::Config;
use crate::config::ConfigView;
use crate::config::Mode;
use crate::config::mode_str;
use crate::config::parse_mode;
use crate::config::spec_default_config;
use crate::config::spec_mode_str;
use crate::config::spec_parse_mode;
use crate::config::lemma_mode_str_parses;
use crate::text::push_char;

verus! {

// ----- rendering the document -----

pub open spec fn spec_hex_digit(n: u32) -> char {
    if n == 0 {
        '0'
    } else if n == 1 {
        '1'
    } else if n == 2 {
        '2'
    } else if n == 3 {
        '3'
    } else if n == 4 {
        '4'
    } else if n == 5 {
        '5'
    } else if n == 6 {
        '6'
    } else if n == 7 {
        '7'
    } else if n == 8 {
        '8'
    } else if n == 9 {
        '9'
    } else if n == 10 {
        'a'
    } else if n == 11 {
        'b'
    } else if n == 12 {
        'c'
    } else if n == 13 {
        'd'
    } else if n == 14 {
        'e'
    } else {
        'f'
    }
}

fn hex_digit(n: u32) -> (r: char)
    requires
        n < 16,
    ensures
        r == spec_hex_digit(n),
{
    if n == 0 {
        '0'
    } else if n == 1 {
        '1'
    } else if n == 2 {
        '2'
    } else if n == 3 {
        '3'
    } else if n == 4 {
        '4'
    } else if n == 5 {
        '5'
    } else if n == 6 {
        '6'
    } else if n == 7 {
        '7'
    } else if n == 8 {
        '8'
    } else if n == 9 {
        '9'
    } else if n == 10 {
        'a'
    } else if n == 11 {
        'b'
    } else if n == 12 {
        'c'
    } else if n == 13 {
        'd'
    } else if n == 14 {
        'e'
    } else {
        'f'
    }
}

/// How one character appears inside a JSON string literal: the two-character
/// escapes for quote, backslash and the common controls, a `\u00..` escape
/// for the remaining controls, and the character itself otherwise.
pub open spec fn spec_escape_char(c: char) -> Seq<char> {
    if c == '"' {
        "\\\""@
    } else if c == '\\' {
        "\\\\"@
    } else if c == '\u{8}' {
        "\\b"@
    } else if c == '\t' {
        "\\t"@
    } else if c == '\n' {
        "\\n"@
    } else if c == '\u{c}' {
        "\\f"@
    } else if c == '\r' {
        "\\r"@
    } else if (c as u32) < 0x20 {
        "\\u00"@ + seq![spec_hex_digit((c as u32) / 16), spec_hex_digit((c as u32) % 16)]
    } else {
        seq![c]
    }
}

/// A whole string, character by character.
pub open spec fn spec_escaped(s: Seq<char>) -> Seq<char>
    decreases s.len(),
{
    if s.len() == 0 {
        Seq::empty()
    } else {
        spec_escape_char(s[0]) + spec_escaped(s.skip(1))
    }
}

proof fn lemma_escaped_append(a: Seq<char>, b: Seq<char>)
    ensures
        spec_escaped(a + b) == spec_escaped(a) + spec_escaped(b),
    decreases a.len(),
{
    if a.len() == 0 {
        assert(a + b =~= b);
        assert(spec_escaped(a) + spec_escaped(b) =~= spec_escaped(b));
    } else {
        assert((a + b)[0] == a[0]);
        assert((a + b).skip(1) =~= a.skip(1) + b);
        lemma_escaped_append(a.skip(1), b);
        assert(spec_escaped(a + b) =~= spec_escaped(a) + spec_escaped(b));
    }
}

proof fn lemma_escaped_take_step(s: Seq<char>, i: int)
    requires
        0 <= i < s.len(),
    ensures
        spec_escaped(s.take(i + 1)) == spec_escaped(s.take(i)) + spec_escape_char(s[i]),
{
    let one = seq![s[i]];
    assert(s.take(i + 1) =~= s.take(i) + one);
    lemma_escaped_append(s.take(i), one);
    assert(one.skip(1) =~= Seq::<char>::empty());
    assert(one[0] == s[i]);
    assert(spec_escaped(one.skip(1)) == Seq::<char>::empty());
    assert(spec_escaped(one) == spec_escape_char(s[i]) + spec_escaped(one.skip(1)));
    assert(spec_escape_char(s[i]) + Seq::<char>::empty() =~= spec_escape_char(s[i]));
}

/// Appends the JSON escaping of `s` to `out`.
fn append_escaped(out: &mut String, s: &str)
    ensures
        final(out)@ == old(out)@ + spec_escaped(s@),
{
    let ghost base = out@;
    let n = s.unicode_len();
    let mut i: usize = 0;
    proof {
        assert(s@.take(0) =~= Seq::<char>::empty());
        assert(base + spec_escaped(s@.take(0)) =~= base);
    }
    while i < n
        invariant
            n == s@.len(),
            i <= n,
            out@ == base + spec_escaped(s@.take(i as int)),
        decreases n - i,
    {
        let c = s.get_char(i);
        proof {
            lemma_escaped_take_step(s@, i as int);
        }
        if c == '"' {
            out.append("\\\"");
        } else if c == '\\' {
            out.append("\\\\");
        } else if c == '\u{8}' {
            out.append("\\b");
        } else if c == '\t' {
            out.append("\\t");
        } else if c == '\n' {
            out.append("\\n");
        } else if c == '\u{c}' {
            out.append("\\f");
        } else if c == '\r' {
            out.append("\\r");
        } else {
            let u = c as u32;
            if u < 0x20 {
                out.append("\\u00");
                push_char(out, hex_digit(u / 16));
                push_char(out, hex_digit(u % 16));
                proof {
                    assert(seq![spec_hex_digit(u / 16)].push(spec_hex_digit(u % 16))
                        =~= seq![spec_hex_digit(u / 16), spec_hex_digit(u % 16)]);
                }
            } else {
                push_char(out, c);
                proof {
                    assert(spec_escape_char(c) =~= seq![c]);
                }
            }
        }
        proof {
            assert(out@ =~= base + spec_escaped(s@.take(i + 1)));
        }
        i = i + 1;
    }
    proof {
        assert(s@.take(n as int) =~= s@);
    }
}

/// A JSON string literal: quotes around the escaped text.
pub open spec fn spec_json_string(s: Seq<char>) -> Seq<char> {
    "\""@ + spec_escaped(s) + "\""@
}

/// An optional message as stored: its string literal, or `null`.
pub open spec fn spec_json_opt_string(m: Option<Seq<char>>) -> Seq<char> {
    match m {
        Some(s) => spec_json_string(s),
        None => "null"@,
    }
}

fn append_json_string(out: &mut String, s: &str)
    ensures
        final(out)@ == old(out)@ + spec_json_string(s@),
{
    out.append("\"");
    append_escaped(out, s);
    out.append("\"");
    proof {
        assert(out@ =~= old(out)@ + spec_json_string(s@));
    }
}

fn append_json_opt_string(out: &mut String, m: &Option<String>)
    ensures
        final(out)@ == old(out)@ + spec_json_opt_string(m.deep_view()),
{
    match m {
        Some(s) => append_json_string(out, s.as_str()),
        None => out.append("null"),
    }
}

/// The exact on-disk document for a configuration: a pretty-printed JSON
/// object with the mode's lowercase name and the two optional messages.
pub open spec fn spec_config_doc(c: ConfigView) -> Seq<char> {
    "{\n  \"mode\": "@ + spec_json_string(spec_mode_str(c.mode)) + ",\n  \"refuse_message\": "@
        + spec_json_opt_string(c.refuse_message) + ",\n  \"warn_message\": "@
        + spec_json_opt_string(c.warn_message) + "\n}"@
}

/// Renders the document that persists `cfg`.
pub fn serialize_config(cfg: &Config) -> (r: String)
    ensures
        r@ == spec_config_doc(cfg@),
{
    let mut out = String::new();
    out.append("{\n  \"mode\": ");
    append_json_string(&mut out, mode_str(cfg.mode));
    out.append(",\n  \"refuse_message\": ");
    append_json_opt_string(&mut out, &cfg.refuse_message);
    out.append(",\n  \"warn_message\": ");
    append_json_opt_string(&mut out, &cfg.warn_message);
    out.append("\n}");
    proof {
        assert(out@ =~= spec_config_doc(cfg@));
    }
    out
}

// ----- reading the document back -----

/// The text stored under a key in a JSON document: a function of the bytes
/// and the key alone. It is `None` when the bytes are not valid JSON, when
/// the document is not an object with that member, and when the member is
/// not a string.
pub uninterp spec fn spec_json_string_member(bytes: Seq<u8>, key: Seq<char>) -> Option<Seq<char>>;

/// Relies on serde_json::from_slice, Value::get and Value::as_str: decodes
/// the bytes and takes the member's text when the document is an object
/// whose member under the key is a string. All three are deterministic in
/// their arguments, so the result is a function of the bytes and the key.
#[verifier::external_body]
fn json_string_member(bytes: &Vec<u8>, key: &str) -> (r: Option<String>)
    ensures
        r.deep_view() == spec_json_string_member(bytes@, key@),
{
    match serde_json::from_slice::<serde_json::Value>(bytes.as_slice()) {
        Ok(v) => match v.get(key) {
            Some(member) => match member.as_str() {
                Some(s) => Some(s.to_string()),
                None => None,
            },
            None => None,
        },
        Err(_) => None,
    }
}

/// The configuration carried by extracted document fields, with defaults
/// substituted: a missing or unrecognized mode falls back to applying, and
/// each message field is an override exactly when a string was stored.
pub open spec fn spec_config_from_fields(
    mode_s: Option<Seq<char>>,
    refuse_s: Option<Seq<char>>,
    warn_s: Option<Seq<char>>,
) -> ConfigView {
    ConfigView {
        mode: match mode_s {
            Some(s) => match spec_parse_mode(s) {
                Some(m) => m,
                None => Mode::Apply,
            },
            None => Mode::Apply,
        },
        refuse_message: refuse_s,
        warn_message: warn_s,
    }
}

pub fn config_from_fields(
    mode_s: Option<String>,
    refuse_s: Option<String>,
    warn_s: Option<String>,
) -> (r: Config)
    ensures
        r@ == spec_config_from_fields(mode_s.deep_view(), refuse_s.deep_view(), warn_s.deep_view()),
{
    let mode = match &mode_s {
        Some(s) => match parse_mode(s.as_str()) {
            Some(m) => m,
            None => Mode::Apply,
        },
        None => Mode::Apply,
    };
    Config { mode: mode, refuse_message: refuse_s, warn_message: warn_s }
}

/// Interprets the bytes read from the configuration file, `None` standing
/// for a file that could not be read at all. A missing or undecodable file
/// is never an error: it is the all-defaults configuration. The result is a
/// function of the bytes alone: exactly the default-substituted
/// configuration over the three members the document carries.
pub fn load_config(bytes: Option<Vec<u8>>) -> (r: Config)
    ensures
        bytes is None ==> r@ == spec_default_config(),
        bytes matches Some(b) ==> r@ == spec_config_from_fields(
            spec_json_string_member(b@, "mode"@),
            spec_json_string_member(b@, "refuse_message"@),
            spec_json_string_member(b@, "warn_message"@),
        ),
{
    match bytes {
        None => Config::default(),
        Some(b) => {
            let mode_s = json_string_member(&b, "mode");
            let refuse_s = json_string_member(&b, "refuse_message");
            let warn_s = json_string_member(&b, "warn_message");
            config_from_fields(mode_s, refuse_s, warn_s)
        },
    }
}

// ----- what loading guarantees, stated once and proved -----

/// A document with no usable fields carries the all-defaults configuration.
pub proof fn lemma_no_fields_gives_defaults()
    ensures
        spec_config_from_fields(None, None, None) == spec_default_config(),
{
}

/// An unrecognized mode literal falls back to applying and leaves the
/// message fields exactly as stored.
pub proof fn lemma_unrecognized_mode_defaults(
    s: Seq<char>,
    r: Option<Seq<char>>,
    w: Option<Seq<char>>,
)
    requires
        spec_parse_mode(s) is None,
    ensures
        spec_config_from_fields(Some(s), r, w) == (ConfigView {
            mode: Mode::Apply,
            refuse_message: r,
            warn_message: w,
        }),
{
}

/// Round trip: a document carrying exactly a configuration's fields loads
/// back to that configuration.
pub proof fn lemma_fields_round_trip(c: ConfigView)
    ensures
        spec_config_from_fields(Some(spec_mode_str(c.mode)), c.refuse_message, c.warn_message) == c,
{
    lemma_mode_str_parses(c.mode);
}

} // verus!
