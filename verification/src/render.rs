//! Deterministic JSON rendering of errors: every error variant maps to a
//! 400 response with an `application/json` body whose exact text is pinned
//! down, character for character, by the spec functions in this module.

use vstd::prelude::*;
use vstd::string::StrSliceExecFns;
use crate::report::{RuleViolation, FieldErrors};
use crate::error::{Error, DeserializeErrors, PayloadErrorKind};
use crate::config::{MediaType, Response, RequestContext, ExtractorConfig, ErrorHandler};

verus! {

/// The hexadecimal digit for a value below 16, lower case.
pub open spec fn spec_hex_digit(n: int) -> char {
    if n == 0 {
        '0'
    } else if n == 1 {
        '1'
    } else if n == 2 {
        '2'
    } else if n == 3 {
        '3'
    } else if n == 4 {
        '4'
    } else if n == 5 {
        '5'
    } else if n == 6 {
        '6'
    } else if n == 7 {
        '7'
    } else if n == 8 {
        '8'
    } else if n == 9 {
        '9'
    } else if n == 10 {
        'a'
    } else if n == 11 {
        'b'
    } else if n == 12 {
        'c'
    } else if n == 13 {
        'd'
    } else if n == 14 {
        'e'
    } else {
        'f'
    }
}

/// The decimal digits of a number, most significant first, no sign and no
/// leading zeros (a single zero for zero itself).
pub open spec fn spec_dec_nat(n: nat) -> Seq<char>
    decreases n,
{
    if n < 10 {
        seq![spec_hex_digit(n as int)]
    } else {
        spec_dec_nat(n / 10) + seq![spec_hex_digit((n % 10) as int)]
    }
}

/// How one character appears inside a JSON string literal: quote and
/// backslash are escaped, the named control characters use their short
/// escapes, any other control character uses a `\u00` escape with lower
/// case hex digits, and everything else stands verbatim.
pub open spec fn spec_escape_char(c: char) -> Seq<char> {
    if c == '"' {
        seq!['\\', '"']
    } else if c == '\\' {
        seq!['\\', '\\']
    } else if c == '\u{08}' {
        seq!['\\', 'b']
    } else if c == '\t' {
        seq!['\\', 't']
    } else if c == '\n' {
        seq!['\\', 'n']
    } else if c == '\u{0C}' {
        seq!['\\', 'f']
    } else if c == '\r' {
        seq!['\\', 'r']
    } else if (c as u32) < 0x20 {
        seq!['\\', 'u', '0', '0', spec_hex_digit((c as u32) as int / 16), spec_hex_digit(
            (c as u32) as int % 16,
        )]
    } else {
        seq![c]
    }
}

/// A whole string as it appears inside a JSON string literal.
pub open spec fn spec_escape(s: Seq<char>) -> Seq<char>
    decreases s.len(),
{
    if s.len() == 0 {
        Seq::empty()
    } else {
        spec_escape_char(s[0]) + spec_escape(s.skip(1))
    }
}

/// Escaping distributes over concatenation.
pub proof fn lemma_escape_append(a: Seq<char>, b: Seq<char>)
    ensures
        spec_escape(a + b) == spec_escape(a) + spec_escape(b),
    decreases a.len(),
{
    if a.len() == 0 {
        assert(a + b =~= b);
        assert(spec_escape(a) + spec_escape(b) =~= spec_escape(b));
    } else {
        assert((a + b).len() > 0);
        assert((a + b)[0] == a[0]);
        assert((a + b).skip(1) =~= a.skip(1) + b);
        lemma_escape_append(a.skip(1), b);
        assert(spec_escape(a + b) =~= spec_escape_char(a[0]) + spec_escape(a.skip(1)) + spec_escape(
            b,
        ));
        assert(spec_escape(a) + spec_escape(b) =~= spec_escape_char(a[0]) + spec_escape(a.skip(1))
            + spec_escape(b));
    }
}

/// Escaping one more character appends that character's escape.
pub proof fn lemma_escape_snoc(s: Seq<char>, i: int)
    requires
        0 <= i < s.len(),
    ensures
        spec_escape(s.take(i + 1)) == spec_escape(s.take(i)) + spec_escape_char(s[i]),
{
    let one = seq![s[i]];
    assert(s.take(i + 1) =~= s.take(i) + one);
    lemma_escape_append(s.take(i), one);
    assert(one.len() == 1);
    assert(one[0] == s[i]);
    assert(one.skip(1) =~= Seq::<char>::empty());
    assert(spec_escape(one) == spec_escape_char(s[i]) + spec_escape(Seq::<char>::empty()));
    assert(spec_escape(Seq::<char>::empty()) == Seq::<char>::empty());
    assert(spec_escape_char(s[i]) + Seq::<char>::empty() =~= spec_escape_char(s[i]));
}

/// One rule violation as a JSON object with its rule code and its optional
/// message (`null` when the message is absent).
pub open spec fn spec_violation_json(v: RuleViolation) -> Seq<char> {
    "{\"code\":\""@ + spec_escape(v.code@) + "\",\"msg\":"@ + (match v.msg {
        Some(m) => "\""@ + spec_escape(m@) + "\""@,
        None => "null"@,
    }) + "}"@
}

/// A sequence of rule violations as a comma-separated JSON list body, in
/// the order the rules were evaluated.
pub open spec fn spec_violations_json(vs: Seq<RuleViolation>) -> Seq<char>
    decreases vs.len(),
{
    if vs.len() == 0 {
        Seq::empty()
    } else if vs.len() == 1 {
        spec_violation_json(vs[0])
    } else {
        spec_violations_json(vs.drop_last()) + ","@ + spec_violation_json(vs.last())
    }
}

/// One failing field as a JSON object: the field name and every rule it
/// violated.
pub open spec fn spec_field_json(f: FieldErrors) -> Seq<char> {
    "{\"field\":\""@ + spec_escape(f.field@) + "\",\"errors\":["@ + spec_violations_json(f.errors@)
        + "]}"@
}

/// The failing fields as a comma-separated JSON list body, in evaluation
/// order.
pub open spec fn spec_fields_json(fs: Seq<FieldErrors>) -> Seq<char>
    decreases fs.len(),
{
    if fs.len() == 0 {
        Seq::empty()
    } else if fs.len() == 1 {
        spec_field_json(fs[0])
    } else {
        spec_fields_json(fs.drop_last()) + ","@ + spec_field_json(fs.last())
    }
}

/// The raw (pre-escaping) diagnostic text for a transport-level failure.
pub open spec fn spec_payload_msg(k: PayloadErrorKind) -> Seq<char> {
    match k {
        PayloadErrorKind::Overflow { limit, length } => "payload ("@ + spec_dec_nat(length as nat)
            + " bytes) is larger than allowed (limit: "@ + spec_dec_nat(limit as nat) + " bytes)"@,
        PayloadErrorKind::ContentType => "content type was rejected by the configuration"@,
        PayloadErrorKind::Malformed(m) => m@,
    }
}

/// A body of the simple shape shared by every non-validation error.
pub open spec fn spec_simple_body(tag: Seq<char>, msg: Seq<char>) -> Seq<char> {
    "{\"error\":{\"code\":400,\"status\":\""@ + tag + "\",\"msg\":\""@ + spec_escape(msg) + "\"}}"@
}

/// The exact default JSON body for every error variant.
pub open spec fn spec_error_body(e: Error) -> Seq<char> {
    match e {
        Error::Validate(rep) => "{\"error\":{\"code\":400,\"status\":\"VALIDATION_ERROR\",\"fields\":["@
            + spec_fields_json(rep.fields@) + "]}}"@,
        Error::Deserialize(DeserializeErrors::DeserializeQuery(m)) => spec_simple_body(
            "QUERY_DESERIALIZE_ERROR"@,
            m@,
        ),
        Error::Deserialize(DeserializeErrors::DeserializeJson(m)) => spec_simple_body(
            "JSON_DESERIALIZE_ERROR"@,
            m@,
        ),
        Error::Deserialize(DeserializeErrors::DeserializePath(m)) => spec_simple_body(
            "PATH_DESERIALIZE_ERROR"@,
            m@,
        ),
        Error::JsonPayloadError(k) => spec_simple_body("PAYLOAD_ERROR"@, spec_payload_msg(k)),
        Error::UrlEncodedError(k) => spec_simple_body("URL_ENCODED_ERROR"@, spec_payload_msg(k)),
        Error::QsError(m) => spec_simple_body("QUERY_ERROR"@, m@),
    }
}

/// Relies on std's `String: FromIterator<char>`: collecting characters
/// builds the string holding exactly those characters in order.
#[verifier::external_body]
fn string_from_chars(v: &Vec<char>) -> (r: String)
    ensures
        r@ == v@,
{
    v.iter().collect()
}

/// The hexadecimal digit character for a value below 16.
fn hex_digit(d: usize) -> (c: char)
    requires
        d < 16,
    ensures
        c == spec_hex_digit(d as int),
{
    if d == 0 {
        '0'
    } else if d == 1 {
        '1'
    } else if d == 2 {
        '2'
    } else if d == 3 {
        '3'
    } else if d == 4 {
        '4'
    } else if d == 5 {
        '5'
    } else if d == 6 {
        '6'
    } else if d == 7 {
        '7'
    } else if d == 8 {
        '8'
    } else if d == 9 {
        '9'
    } else if d == 10 {
        'a'
    } else if d == 11 {
        'b'
    } else if d == 12 {
        'c'
    } else if d == 13 {
        'd'
    } else if d == 14 {
        'e'
    } else {
        'f'
    }
}

/// Append the characters of a string slice, unescaped.
fn append_str(out: &mut Vec<char>, s: &str)
    ensures
        final(out)@ == old(out)@ + s@,
{
    let ghost orig = out@;
    let n = s.unicode_len();
    let mut i: usize = 0;
    while i < n
        invariant
            i <= n,
            n == s@.len(),
            out@ == orig + s@.take(i as int),
        decreases n - i,
    {
        let c = s.get_char(i);
        out.push(c);
        proof {
            assert(orig + s@.take(i + 1) =~= (orig + s@.take(i as int)).push(s@[i as int]));
        }
        i = i + 1;
    }
    proof {
        assert(s@.take(n as int) =~= s@);
    }
}

/// Append the decimal digits of a number.
fn append_dec(out: &mut Vec<char>, n: usize)
    ensures
        final(out)@ == old(out)@ + spec_dec_nat(n as nat),
{
    let ghost orig = out@;
    if n < 10 {
        out.push(hex_digit(n));
        proof {
            assert(orig + spec_dec_nat(n as nat) =~= orig.push(spec_hex_digit(n as int)));
        }
        return ;
    }
    let mut digits: Vec<char> = Vec::new();
    let mut m: usize = n;
    while m > 0
        invariant
            m > 0 ==> spec_dec_nat(n as nat) == spec_dec_nat(m as nat) + digits@,
            m == 0 ==> spec_dec_nat(n as nat) == digits@,
        decreases m,
    {
        let d: usize = m % 10;
        assert(m % 10 < 10) by (nonlinear_arith);
        let c = hex_digit(d);
        digits.insert(0, c);
        let ghost prev = m;
        m = m / 10;
        proof {
            assert(prev >= 10 ==> prev / 10 >= 1) by (nonlinear_arith);
            assert(prev < 10 ==> prev / 10 == 0) by (nonlinear_arith);
            assert(prev < 10 ==> prev % 10 == prev) by (nonlinear_arith);
            assert(prev / 10 < prev) by (nonlinear_arith)
                requires
                    prev > 0,
            ;
            if m > 0 {
                assert(spec_dec_nat(prev as nat) == spec_dec_nat(m as nat) + seq![
                    spec_hex_digit(d as int),
                ]);
                assert(spec_dec_nat(m as nat) + digits@ =~= (spec_dec_nat(m as nat) + seq![
                    spec_hex_digit(d as int),
                ]) + digits@.skip(1));
            } else {
                assert(spec_dec_nat(prev as nat) == seq![spec_hex_digit(d as int)]);
                assert(seq![spec_hex_digit(d as int)] + digits@.skip(1) =~= digits@);
            }
        }
    }
    out.append(&mut digits);
}

/// The characters of a string slice, in order.
fn chars_of(s: &str) -> (r: Vec<char>)
    ensures
        r@ == s@,
{
    let mut out: Vec<char> = Vec::new();
    append_str(&mut out, s);
    out
}

/// Append a string as it appears inside a JSON string literal.
fn append_escaped(out: &mut Vec<char>, s: &str)
    ensures
        final(out)@ == old(out)@ + spec_escape(s@),
{
    let chars = chars_of(s);
    append_escaped_chars(out, &chars);
}

/// Append a string as a quoted, escaped JSON string literal.
fn append_json_string(out: &mut Vec<char>, s: &str)
    ensures
        final(out)@ == old(out)@ + "\""@ + spec_escape(s@) + "\""@,
{
    append_str(out, "\"");
    append_escaped(out, s);
    append_str(out, "\"");
}

/// Render one rule violation.
fn append_violation(out: &mut Vec<char>, v: &RuleViolation)
    ensures
        final(out)@ == old(out)@ + spec_violation_json(*v),
{
    append_str(out, "{\"code\":\"");
    append_escaped(out, v.code.as_str());
    append_str(out, "\",\"msg\":");
    match &v.msg {
        Some(m) => {
            append_json_string(out, m.as_str());
        },
        None => {
            append_str(out, "null");
        },
    }
    append_str(out, "}");
}

/// Render one failing field with all its violations.
fn append_field(out: &mut Vec<char>, f: &FieldErrors)
    ensures
        final(out)@ == old(out)@ + spec_field_json(*f),
{
    let ghost orig = out@;
    append_str(out, "{\"field\":\"");
    append_escaped(out, f.field.as_str());
    append_str(out, "\",\"errors\":[");
    let mut i: usize = 0;
    let n = f.errors.len();
    while i < n
        invariant
            i <= n,
            n == f.errors@.len(),
            out@ == orig + "{\"field\":\""@ + spec_escape(f.field@) + "\",\"errors\":["@
                + spec_violations_json(f.errors@.take(i as int)),
        decreases n - i,
    {
        if i > 0 {
            append_str(out, ",");
        }
        append_violation(out, &f.errors[i]);
        proof {
            let pre = f.errors@.take(i as int);
            let post = f.errors@.take(i + 1);
            assert(post.drop_last() =~= pre);
            assert(post.last() == f.errors@[i as int]);
            if i == 0 {
                assert(spec_violations_json(post) == spec_violation_json(f.errors@[i as int]));
            }
            assert(out@ =~= orig + "{\"field\":\""@ + spec_escape(f.field@) + "\",\"errors\":["@
                + spec_violations_json(post));
        }
        i = i + 1;
    }
    append_str(out, "]}");
    proof {
        assert(f.errors@.take(n as int) =~= f.errors@);
        assert(out@ =~= old(out)@ + spec_field_json(*f));
    }
}

/// Render the whole `fields` list of a validation failure.
fn append_fields(out: &mut Vec<char>, fs: &Vec<FieldErrors>)
    ensures
        final(out)@ == old(out)@ + spec_fields_json(fs@),
{
    let ghost orig = out@;
    let mut i: usize = 0;
    let n = fs.len();
    while i < n
        invariant
            i <= n,
            n == fs@.len(),
            out@ == orig + spec_fields_json(fs@.take(i as int)),
        decreases n - i,
    {
        if i > 0 {
            append_str(out, ",");
        }
        append_field(out, &fs[i]);
        proof {
            let pre = fs@.take(i as int);
            let post = fs@.take(i + 1);
            assert(post.drop_last() =~= pre);
            assert(post.last() == fs@[i as int]);
            if i == 0 {
                assert(spec_fields_json(post) == spec_field_json(fs@[i as int]));
            }
            assert(out@ =~= orig + spec_fields_json(post));
        }
        i = i + 1;
    }
    proof {
        assert(fs@.take(n as int) =~= fs@);
    }
}

/// Build the raw transport diagnostic for a payload error kind.
fn payload_msg(k: &PayloadErrorKind) -> (r: Vec<char>)
    ensures
        r@ == spec_payload_msg(*k),
{
    let mut out: Vec<char> = Vec::new();
    match k {
        PayloadErrorKind::Overflow { limit, length } => {
            append_str(&mut out, "payload (");
            append_dec(&mut out, *length);
            append_str(&mut out, " bytes) is larger than allowed (limit: ");
            append_dec(&mut out, *limit);
            append_str(&mut out, " bytes)");
        },
        PayloadErrorKind::ContentType => {
            append_str(&mut out, "content type was rejected by the configuration");
        },
        PayloadErrorKind::Malformed(m) => {
            append_str(&mut out, m.as_str());
        },
    }
    out
}

/// Append the characters of an already-built message, escaped.
fn append_escaped_chars(out: &mut Vec<char>, msg: &Vec<char>)
    ensures
        final(out)@ == old(out)@ + spec_escape(msg@),
{
    let ghost orig = out@;
    let n = msg.len();
    let mut i: usize = 0;
    while i < n
        invariant
            i <= n,
            n == msg@.len(),
            out@ == orig + spec_escape(msg@.take(i as int)),
        decreases n - i,
    {
        let c = msg[i];
        proof {
            lemma_escape_snoc(msg@, i as int);
        }
        if c == '"' {
            out.push('\\');
            out.push('"');
        } else if c == '\\' {
            out.push('\\');
            out.push('\\');
        } else if c == '\u{08}' {
            out.push('\\');
            out.push('b');
        } else if c == '\t' {
            out.push('\\');
            out.push('t');
        } else if c == '\n' {
            out.push('\\');
            out.push('n');
        } else if c == '\u{0C}' {
            out.push('\\');
            out.push('f');
        } else if c == '\r' {
            out.push('\\');
            out.push('r');
        } else if (c as u32) < 0x20 {
            let code = c as u32;
            out.push('\\');
            out.push('u');
            out.push('0');
            out.push('0');
            out.push(hex_digit((code / 16) as usize));
            out.push(hex_digit((code % 16) as usize));
        } else {
            out.push(c);
        }
        proof {
            assert(out@ =~= orig + spec_escape(msg@.take(i + 1)));
        }
        i = i + 1;
    }
    proof {
        assert(msg@.take(n as int) =~= msg@);
    }
}

/// Append a body of the simple shape shared by every non-validation error.
fn append_simple_body(out: &mut Vec<char>, tag: &str, msg: &Vec<char>)
    ensures
        final(out)@ == old(out)@ + spec_simple_body(tag@, msg@),
{
    append_str(out, "{\"error\":{\"code\":400,\"status\":\"");
    append_str(out, tag);
    append_str(out, "\",\"msg\":\"");
    append_escaped_chars(out, msg);
    append_str(out, "\"}}");
}

/// The default JSON body for an error, exactly as `spec_error_body` gives
/// it.
pub fn render_body(e: &Error) -> (r: String)
    ensures
        r@ == spec_error_body(*e),
{
    let mut out: Vec<char> = Vec::new();
    match e {
        Error::Validate(rep) => {
            append_str(&mut out, "{\"error\":{\"code\":400,\"status\":\"VALIDATION_ERROR\",\"fields\":[");
            append_fields(&mut out, &rep.fields);
            append_str(&mut out, "]}}");
        },
        Error::Deserialize(DeserializeErrors::DeserializeQuery(m)) => {
            let mut msg: Vec<char> = Vec::new();
            append_str(&mut msg, m.as_str());
            append_simple_body(&mut out, "QUERY_DESERIALIZE_ERROR", &msg);
        },
        Error::Deserialize(DeserializeErrors::DeserializeJson(m)) => {
            let mut msg: Vec<char> = Vec::new();
            append_str(&mut msg, m.as_str());
            append_simple_body(&mut out, "JSON_DESERIALIZE_ERROR", &msg);
        },
        Error::Deserialize(DeserializeErrors::DeserializePath(m)) => {
            let mut msg: Vec<char> = Vec::new();
            append_str(&mut msg, m.as_str());
            append_simple_body(&mut out, "PATH_DESERIALIZE_ERROR", &msg);
        },
        Error::JsonPayloadError(k) => {
            let msg = payload_msg(k);
            append_simple_body(&mut out, "PAYLOAD_ERROR", &msg);
        },
        Error::UrlEncodedError(k) => {
            let msg = payload_msg(k);
            append_simple_body(&mut out, "URL_ENCODED_ERROR", &msg);
        },
        Error::QsError(m) => {
            let mut msg: Vec<char> = Vec::new();
            append_str(&mut msg, m.as_str());
            append_simple_body(&mut out, "QUERY_ERROR", &msg);
        },
    }
    string_from_chars(&out)
}

/// The default rendering policy: every error renders as 400 Bad Request
/// with an `application/json` body of the exact default shape.
pub fn render(e: &Error) -> (r: Response)
    ensures
        r.status == 400,
        r.content_type == MediaType::ApplicationJson,
        r.body@ == spec_error_body(*e),
{
    let body = render_body(e);
    Response { status: 400, content_type: MediaType::ApplicationJson, body }
}

/// Rendering is a pure function of the error: two renderings of equal
/// errors are character-for-character identical.
pub proof fn lemma_render_deterministic(e1: Error, e2: Error, body1: Seq<char>, body2: Seq<char>)
    requires
        e1 == e2,
        body1 == spec_error_body(e1),
        body2 == spec_error_body(e2),
    ensures
        body1 == body2,
{
}

/// The default rendering policy packaged as an error handler, for
/// configurations that want to name it explicitly.
pub struct DefaultErrorHandler;

impl ErrorHandler for DefaultErrorHandler {
    fn handle(&self, error: Error, ctx: &RequestContext) -> Response {
        render(&error)
    }
}

/// Produce the response for an error under a resolved configuration: with
/// no custom handler installed, exactly the default rendering; with one
/// installed, whatever that handler returns (the default renderer is
/// bypassed entirely).
pub fn respond<P, H: ErrorHandler>(
    e: Error,
    ctx: &RequestContext,
    config: &ExtractorConfig<P, H>,
) -> (r: Response)
    ensures
        config.error_handler is None ==> (r.status == 400 && r.content_type
            == MediaType::ApplicationJson && r.body@ == spec_error_body(e)),
{
    match &config.error_handler {
        Some(h) => h.handle(e, ctx),
        None => render(&e),
    }
}

} // verus!
