//! Reading and writing JSON text through the `json` crate.
use vstd::prelude::*;
use crate::json::{Json, JsonNode, JsonNumber, lemma_view_fields, lemma_view_nodes, view_fields, view_node, view_nodes};
use vstd::string::StringSliceAdditionalSpecFns;

verus! {

#[verifier::external_type_specification]
#[verifier::external_body]
pub struct ExJsonValue(json::JsonValue);

/// Why a text is not a JSON document, as the `json` crate's parser reports it.
#[derive(Debug, PartialEq, Eq)]
pub enum JsonParseError {
    UnexpectedCharacter { ch: char, line: usize, column: usize },
    UnexpectedEndOfJson,
    ExceededDepthLimit,
    FailedUtf8Parsing,
    WrongType(String),
}

/// The document that `json::parse` reads from a text, `None` where it fails.
pub uninterp spec fn json_parse(text: Seq<char>) -> Option<Json>;

/// The text that `json::stringify_pretty` writes for a document.
pub uninterp spec fn json_pretty(doc: Json, spaces: u16) -> Seq<char>;

/// The text that the `json` crate's `Display` writes for a document.
pub uninterp spec fn json_display(doc: Json) -> Seq<char>;

/// The `json` crate's parser keeps a number's mantissa in a `u64` and,
/// while it is below this, takes every further digit into it unchecked.
pub const MAX_PRECISION: u64 = 576460752303423500;

/// The lowest decimal exponent the parser can hold (`i16::MIN`).
pub const MIN_EXPONENT: i32 = -32768;

/// The highest decimal exponent the parser can hold (`i16::MAX`).
pub const MAX_EXPONENT: i32 = 32767;

/// A byte that is a decimal digit.
pub open spec fn digit_byte(c: u8) -> bool {
    0x30 <= c <= 0x39
}

/// Whether the parser takes one more digit `d` into the mantissa `num`:
/// unchecked while the mantissa is below `MAX_PRECISION`, and afterwards as
/// long as the result still fits in a `u64`.
pub open spec fn takes_digit(num: int, d: int) -> bool {
    num < MAX_PRECISION || num * 10 + d <= u64::MAX
}

/// One byte of the parser's walk over a text, as far as its numbers go: the
/// state is whether it is inside a string, whether the last byte there was
/// a backslash, where it is in a number (not in one: 0, after its minus
/// sign: 1, in its integer digits: 2, in its fraction: 3, in its exponent:
/// 4), the number's mantissa and decimal
/// exponent so far, and whether a fraction digit ever took the exponent
/// below `MIN_EXPONENT` (where the parser stops the program). Each integer
/// digit that no longer fits in the mantissa raises the exponent by one (up
/// to `MAX_EXPONENT`, where the parser gives up with an error); each
/// fraction digit that fits lowers it by one.
pub open spec fn scan_step(st: (bool, bool, int, int, int, bool), c: u8) -> (bool, bool, int, int, int, bool) {
    let (in_string, escaped, phase, num, e, bad) = st;
    let d = c - 0x30;
    if in_string {
        if escaped {
            (true, false, 0, num, e, bad)
        } else if c == 0x5C {
            (true, true, 0, num, e, bad)
        } else if c == 0x22 {
            (false, false, 0, num, e, bad)
        } else {
            (true, false, 0, num, e, bad)
        }
    } else if c == 0x22 {
        (true, false, 0, num, e, bad)
    } else if digit_byte(c) {
        if phase == 0 || phase == 1 {
            (false, false, 2, d, 0, bad)
        } else if phase == 2 {
            if takes_digit(num, d) {
                (false, false, 2, num * 10 + d, e, bad)
            } else {
                (false, false, 2, num, if e < MAX_EXPONENT { e + 1 } else { e }, bad)
            }
        } else if phase == 3 {
            if takes_digit(num, d) {
                if e - 1 < MIN_EXPONENT {
                    (false, false, 3, num * 10 + d, e, true)
                } else {
                    (false, false, 3, num * 10 + d, e - 1, bad)
                }
            } else {
                (false, false, 3, num, e, bad)
            }
        } else {
            (false, false, phase, num, e, bad)
        }
    } else if c == 0x2D || c == 0x2B {
        if phase == 4 {
            (false, false, 4, num, e, bad)
        } else if c == 0x2D {
            (false, false, 1, num, e, bad)
        } else {
            (false, false, 0, num, e, bad)
        }
    } else if c == 0x2E {
        (false, false, if phase == 2 { 3 } else { 0 }, num, e, bad)
    } else if c == 0x65 || c == 0x45 {
        (false, false, if phase == 2 || phase == 3 { 4 } else { 0 }, num, e, bad)
    } else {
        (false, false, 0, num, e, bad)
    }
}

/// The reader's state after the first `n` bytes of `b`.
pub open spec fn scan(b: Seq<u8>, n: int) -> (bool, bool, int, int, int, bool)
    decreases n,
{
    if n <= 0 {
        (false, false, 0, 0, 0, false)
    } else {
        scan_step(scan(b, n - 1), b[n - 1])
    }
}

/// The `json` crate parses the text with bytes `b` without the exponent of
/// one of its numbers leaving its range: no fraction outside a string has
/// so many digits taken into its mantissa that the exponent would fall
/// below `MIN_EXPONENT`.
pub open spec fn parse_safe(b: Seq<u8>) -> bool {
    !scan(b, b.len() as int).5
}

/// Whether the `json` crate can parse `text` without the exponent of one of
/// its numbers leaving its range (see `parse_safe`).
pub fn parse_safe_text(text: &str) -> (r: bool)
    ensures
        r == parse_safe(text.spec_bytes()),
{
    let b = text.as_bytes();
    let n = b.len();
    let mut in_string = false;
    let mut escaped = false;
    let mut phase: u8 = 0;
    let mut num: u64 = 0;
    let mut e: i32 = 0;
    let mut bad = false;
    let mut i: usize = 0;
    while i < n
        invariant
            0 <= i <= n,
            n == b@.len(),
            b@ == text.spec_bytes(),
            MIN_EXPONENT <= e <= MAX_EXPONENT,
            phase <= 4,
            scan(b@, i as int) == (in_string, escaped, phase as int, num as int, e as int, bad),
        decreases n - i,
    {
        let c = b[i];
        if in_string {
            if escaped {
                escaped = false;
            } else if c == 0x5C {
                escaped = true;
            } else if c == 0x22 {
                in_string = false;
            }
            phase = 0;
        } else if c == 0x22 {
            in_string = true;
            escaped = false;
            phase = 0;
        } else if 0x30 <= c && c <= 0x39 {
            let d = (c - 0x30) as u64;
            if phase == 0 || phase == 1 {
                phase = 2;
                num = d;
                e = 0;
            } else if phase == 2 || phase == 3 {
                let next: Option<u64> = if num < MAX_PRECISION {
                    Some(num * 10 + d)
                } else {
                    match num.checked_mul(10) {
                        Some(m) => m.checked_add(d),
                        None => None,
                    }
                };
                match next {
                    Some(m) => {
                        num = m;
                        if phase == 3 {
                            if e - 1 < MIN_EXPONENT {
                                bad = true;
                            } else {
                                e = e - 1;
                            }
                        }
                    },
                    None => {
                        if phase == 2 && e < MAX_EXPONENT {
                            e = e + 1;
                        }
                    },
                }
            }
        } else if c == 0x2D || c == 0x2B {
            if phase != 4 {
                phase = if c == 0x2D { 1 } else { 0 };
            }
        } else if c == 0x2E {
            phase = if phase == 2 { 3 } else { 0 };
        } else if c == 0x65 || c == 0x45 {
            phase = if phase == 2 || phase == 3 { 4 } else { 0 };
        } else {
            phase = 0;
        }
        i = i + 1;
    }
    !bad
}

/// The deepest nesting that the game's pretty printing (an indent of four
/// spaces, counted in 16 bits) can write.
pub const PRETTY_DEPTH_LIMIT: usize = 16383;

/// How many containers the pretty printer of the `json` crate indents into
/// for a document: one for each level of non-empty array or object.
pub open spec fn pretty_depth(j: Json) -> nat
    decreases j, 0nat,
{
    match j {
        Json::Array(items) => if items.len() == 0 {
            0
        } else {
            1 + items_depth(items)
        },
        Json::Object(fields) => if fields.len() == 0 {
            0
        } else {
            1 + fields_depth(fields)
        },
        _ => 0,
    }
}

/// The deepest of the documents `items`.
pub open spec fn items_depth(items: Seq<Json>) -> nat
    decreases items, 1nat,
{
    if items.len() == 0 {
        0
    } else {
        let rest = items_depth(items.drop_last());
        let last = pretty_depth(items.last());
        if last > rest {
            last
        } else {
            rest
        }
    }
}

/// The deepest of the values of the members `fields`.
pub open spec fn fields_depth(fields: Seq<(Seq<char>, Json)>) -> nat
    decreases fields, 1nat,
{
    if fields.len() == 0 {
        0
    } else {
        let rest = fields_depth(fields.drop_last());
        let last = pretty_depth(fields.last().1);
        if last > rest {
            last
        } else {
            rest
        }
    }
}

/// A list of documents is no deeper than `limit` exactly where each of
/// them is not.
pub proof fn lemma_items_depth(items: Seq<Json>, limit: nat)
    ensures
        (items_depth(items) <= limit) <==> (forall|i: int| 0 <= i < items.len() ==> #[trigger] pretty_depth(items[i]) <= limit),
    decreases items.len(),
{
    if items.len() > 0 {
        let t = items.drop_last();
        lemma_items_depth(t, limit);
        assert forall|i: int| 0 <= i < t.len() implies #[trigger] t[i] == items[i] by {}
        if items_depth(items) <= limit {
            assert forall|i: int| 0 <= i < items.len() implies #[trigger] pretty_depth(items[i]) <= limit by {
                if i < t.len() {
                    assert(t[i] == items[i]);
                }
            }
        }
        if forall|i: int| 0 <= i < items.len() ==> #[trigger] pretty_depth(items[i]) <= limit {
            assert forall|i: int| 0 <= i < t.len() implies #[trigger] pretty_depth(t[i]) <= limit by {
                assert(t[i] == items[i]);
            }
            assert(pretty_depth(items[items.len() - 1]) <= limit);
        }
    }
}

/// The members of an object are no deeper than `limit` exactly where the
/// value of each of them is not.
pub proof fn lemma_fields_depth(fields: Seq<(Seq<char>, Json)>, limit: nat)
    ensures
        (fields_depth(fields) <= limit) <==> (forall|i: int| 0 <= i < fields.len() ==> #[trigger] pretty_depth(fields[i].1) <= limit),
    decreases fields.len(),
{
    if fields.len() > 0 {
        let t = fields.drop_last();
        lemma_fields_depth(t, limit);
        if fields_depth(fields) <= limit {
            assert forall|i: int| 0 <= i < fields.len() implies #[trigger] pretty_depth(fields[i].1) <= limit by {
                if i < t.len() {
                    assert(t[i] == fields[i]);
                }
            }
        }
        if forall|i: int| 0 <= i < fields.len() ==> #[trigger] pretty_depth(fields[i].1) <= limit {
            assert forall|i: int| 0 <= i < t.len() implies #[trigger] pretty_depth(t[i].1) <= limit by {
                assert(t[i] == fields[i]);
            }
            assert(pretty_depth(fields[fields.len() - 1].1) <= limit);
        }
    }
}

/// Whether the pretty printer indents into at most `limit` containers for
/// the document `doc` (see `pretty_depth`).
pub fn depth_within(doc: &JsonNode, limit: usize) -> (r: bool)
    ensures
        r == (pretty_depth(doc@) <= limit),
    decreases doc,
{
    match doc {
        JsonNode::Array(v) => {
            proof {
                lemma_view_nodes(v@);
                lemma_items_depth(view_nodes(v@), (limit - 1) as nat);
            }
            if v.len() == 0 {
                return true;
            }
            if limit == 0 {
                return false;
            }
            let mut i: usize = 0;
            while i < v.len()
                invariant
                    0 <= i <= v.len(),
                    limit >= 1,
                    *doc == JsonNode::Array(*v),
                    view_nodes(v@).len() == v@.len(),
                    forall|k: int| 0 <= k < v@.len() ==> #[trigger] view_nodes(v@)[k] == view_node(v@[k]),
                    forall|j: int| 0 <= j < i ==> #[trigger] pretty_depth(view_node(v@[j])) <= limit - 1,
                decreases v.len() - i,
            {
                proof {
                    assert(decreases_to!(*doc => *v));
                    assert(decreases_to!(*v => v@));
                    assert(decreases_to!(v@ => v@[i as int]));
                }
                if !depth_within(&v[i], limit - 1) {
                    proof {
                        lemma_items_depth(view_nodes(v@), (limit - 1) as nat);
                        assert(pretty_depth(view_nodes(v@)[i as int]) > limit - 1);
                        assert(doc@ == Json::Array(view_nodes(v@)));
                    }
                    return false;
                }
                i = i + 1;
            }
            assert forall|j: int| 0 <= j < view_nodes(v@).len() implies #[trigger] pretty_depth(view_nodes(v@)[j]) <= limit - 1 by {
                assert(view_nodes(v@)[j] == view_node(v@[j]));
            }
            true
        },
        JsonNode::Object(f) => {
            proof {
                lemma_view_fields(f@);
                lemma_fields_depth(view_fields(f@), (limit - 1) as nat);
            }
            if f.len() == 0 {
                return true;
            }
            if limit == 0 {
                return false;
            }
            let mut i: usize = 0;
            while i < f.len()
                invariant
                    0 <= i <= f.len(),
                    limit >= 1,
                    *doc == JsonNode::Object(*f),
                    view_fields(f@).len() == f@.len(),
                    forall|k: int| 0 <= k < f@.len() ==> #[trigger] view_fields(f@)[k] == (f@[k].0@, view_node(f@[k].1)),
                    forall|j: int| 0 <= j < i ==> #[trigger] pretty_depth(view_node(f@[j].1)) <= limit - 1,
                decreases f.len() - i,
            {
                proof {
                    assert(decreases_to!(*doc => *f));
                    assert(decreases_to!(*f => f@));
                    assert(decreases_to!(f@ => f@[i as int]));
                    assert(decreases_to!(f@[i as int] => f@[i as int].1));
                }
                if !depth_within(&f[i].1, limit - 1) {
                    proof {
                        lemma_fields_depth(view_fields(f@), (limit - 1) as nat);
                        assert(pretty_depth(view_fields(f@)[i as int].1) > limit - 1);
                        assert(doc@ == Json::Object(view_fields(f@)));
                    }
                    return false;
                }
                i = i + 1;
            }
            assert forall|j: int| 0 <= j < view_fields(f@).len() implies #[trigger] pretty_depth(view_fields(f@)[j].1) <= limit - 1 by {
                assert(view_fields(f@)[j] == (f@[j].0@, view_node(f@[j].1)));
            }
            true
        },
        _ => true,
    }
}

/// Moves a document of the `json` crate into the library's model, variant
/// for variant (a number by its sign, mantissa and exponent, an object's
/// members in the crate's order). Nothing about the result is stated here;
/// `parse_text` states it.
#[verifier::external_body]
fn node_from_value(v: &json::JsonValue) -> JsonNode {
    match v {
        json::JsonValue::Null => JsonNode::Null,
        json::JsonValue::Short(s) => JsonNode::Str(s.as_str().to_string()),
        json::JsonValue::String(s) => JsonNode::Str(s.clone()),
        json::JsonValue::Number(n) => {
            let (positive, mantissa, exponent) = n.as_parts();
            JsonNode::Number(JsonNumber { positive, mantissa, exponent })
        },
        json::JsonValue::Boolean(b) => JsonNode::Bool(*b),
        json::JsonValue::Object(o) => JsonNode::Object(o.iter().map(|(k, x)| (k.to_string(), node_from_value(x))).collect()),
        json::JsonValue::Array(a) => JsonNode::Array(a.iter().map(node_from_value).collect()),
    }
}

/// Moves a document of the library's model into the `json` crate's type,
/// variant for variant (numbers through `Number::from_parts`, members through
/// `Object::insert`). Nothing about the result is stated here; the callers'
/// names state what the crate makes of it.
#[verifier::external_body]
fn value_from_node(n: &JsonNode) -> json::JsonValue {
    match n {
        JsonNode::Null => json::JsonValue::Null,
        JsonNode::Bool(b) => json::JsonValue::Boolean(*b),
        JsonNode::Number(x) => json::JsonValue::Number(json::number::Number::from_parts(x.positive, x.mantissa, x.exponent)),
        JsonNode::Str(s) => json::JsonValue::String(s.clone()),
        JsonNode::Array(a) => json::JsonValue::Array(a.iter().map(value_from_node).collect()),
        JsonNode::Object(f) => json::JsonValue::Object(f.iter().map(|(k, x)| (k.as_str(), value_from_node(x))).collect()),
    }
}

/// `json::parse`: the claim is only that the result is the document named
/// `json_parse` of the text, and that it fails exactly where that name has
/// no document. The error is the crate's own, variant for variant. Texts
/// with a fraction whose digits would take the parser's 16-bit exponent out
/// of its range are left out (see `parse_safe`): on them the parser stops
/// the program.
#[verifier::external_body]
fn parse_text(text: &str) -> (r: Result<JsonNode, JsonParseError>)
    requires
        parse_safe(text.spec_bytes()),
    ensures
        r is Ok <==> json_parse(text@) is Some,
        r matches Ok(n) ==> json_parse(text@) == Some(n@),
{
    match json::parse(text) {
        Ok(v) => Ok(node_from_value(&v)),
        Err(json::Error::UnexpectedCharacter { ch, line, column }) => Err(JsonParseError::UnexpectedCharacter { ch, line, column }),
        Err(json::Error::UnexpectedEndOfJson) => Err(JsonParseError::UnexpectedEndOfJson),
        Err(json::Error::ExceededDepthLimit) => Err(JsonParseError::ExceededDepthLimit),
        Err(json::Error::FailedUtf8Parsing) => Err(JsonParseError::FailedUtf8Parsing),
        Err(json::Error::WrongType(s)) => Err(JsonParseError::WrongType(s)),
    }
}

/// `json::stringify_pretty`: the claim is only that the text is the one
/// named `json_pretty` of the document and the indent. The printer counts
/// the levels it indents into, and the spaces of an indent, in 16 bits;
/// documents whose indent would not fit are left out, as on them it stops
/// the program.
#[verifier::external_body]
fn stringify_pretty(doc: &JsonNode, spaces: u16) -> (r: String)
    requires
        pretty_depth(doc@) <= u16::MAX,
        pretty_depth(doc@) * spaces <= u16::MAX,
    ensures
        r@ == json_pretty(doc@, spaces),
{
    json::stringify_pretty(value_from_node(doc), spaces)
}

/// `ToString` through the `json` crate's `Display`: the text named
/// `json_display`; a string is written as its bare characters (the crate's
/// `Display` hands a string to `str`'s own), a boolean as `true`/`false`,
/// null as `null`.
#[verifier::external_body]
fn display_text(doc: &JsonNode) -> (r: String)
    ensures
        r@ == json_display(doc@),
        doc@ matches Json::Str(s) ==> r@ == s,
        doc@ == Json::Null ==> r@ == "null"@,
{
    value_from_node(doc).to_string()
}

/// Reads a JSON document from its text (what the game does with the
/// contents of each of its configuration files).
pub fn parse_json(text: &str) -> (r: Result<JsonNode, JsonParseError>)
    requires
        parse_safe(text.spec_bytes()),
    ensures
        r is Ok <==> json_parse(text@) is Some,
        r matches Ok(n) ==> json_parse(text@) == Some(n@),
{
    parse_text(text)
}

/// The text the game writes to a configuration file for a document:
/// pretty printed with an indent of four spaces (so for documents nested
/// at most `PRETTY_DEPTH_LIMIT` containers deep).
pub fn pretty_json(doc: &JsonNode) -> (r: String)
    requires
        pretty_depth(doc@) <= PRETTY_DEPTH_LIMIT,
    ensures
        r@ == json_pretty(doc@, 4),
{
    stringify_pretty(doc, 4)
}

/// The text of a document as its `Display` writes it.
pub fn json_to_string(doc: &JsonNode) -> (r: String)
    ensures
        r@ == json_display(doc@),
        doc@ matches Json::Str(s) ==> r@ == s,
{
    display_text(doc)
}

} // verus!
