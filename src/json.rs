//! A JSON document as a tree of plain values, and the lookups, parsing and
//! rendering that the envelope codec is built on.

use vstd::prelude::*;
use vstd::string::*;

verus! {

/// A JSON value. A number keeps the text that the parser printed for it, so
/// that no floating-point value is ever held. An object keeps its members in
/// the order it was given them: the parser hands them over sorted by name,
/// and the writers of this library in the order of the wire form.
#[derive(Debug)]
pub enum JsonValue {
    Null,
    Bool(bool),
    Number(String),
    Text(String),
    Array(Vec<JsonValue>),
    Object(Vec<(String, JsonValue)>),
}

/// The member named `key` among `fields`. Where a name occurs more than once
/// the last occurrence wins, as it does when the parser builds an object.
pub open spec fn field_of(fields: Seq<(String, JsonValue)>, key: Seq<char>) -> Option<JsonValue>
    decreases fields.len(),
{
    if fields.len() == 0 {
        None
    } else if fields.last().0@ == key {
        Some(fields.last().1)
    } else {
        field_of(fields.drop_last(), key)
    }
}

impl JsonValue {
    /// The member named `key` of an object; `None` for any other value.
    pub open spec fn member(self, key: Seq<char>) -> Option<JsonValue> {
        match self {
            JsonValue::Object(fields) => field_of(fields@, key),
            _ => None,
        }
    }
}

/// Whether two strings hold the same characters.
pub fn str_eq(a: &str, b: &str) -> (r: bool)
    ensures
        r == (a@ == b@),
{
    let x = a.to_owned();
    let y = b.to_owned();
    x == y
}

/// Moves the members named by `keys` out of `fields`, in the order of `keys`.
pub fn take_members(fields: Vec<(String, JsonValue)>, keys: &Vec<&str>) -> (r: Vec<Option<JsonValue>>)
    requires
        forall|i: int, j: int| 0 <= i < j < keys@.len() ==> keys@[i]@ != keys@[j]@,
    ensures
        r@.len() == keys@.len(),
        forall|j: int| 0 <= j < keys@.len() ==> r@[j] == field_of(fields@, keys@[j]@),
{
    let ghost all = fields@;
    let mut rest = fields;
    let mut r: Vec<Option<JsonValue>> = Vec::new();
    let mut n: usize = 0;
    while n < keys.len()
        invariant
            n <= keys@.len(),
            r@.len() == n,
            rest@ == all,
            forall|j: int| 0 <= j < n ==> r@[j] is None,
        decreases keys@.len() - n,
    {
        r.push(None);
        n = n + 1;
    }
    while rest.len() > 0
        invariant
            r@.len() == keys@.len(),
            forall|i: int, j: int| 0 <= i < j < keys@.len() ==> keys@[i]@ != keys@[j]@,
            forall|j: int|
                0 <= j < keys@.len() ==> (#[trigger] r@[j] matches Some(v) ==> Some(v) == field_of(
                    all,
                    keys@[j]@,
                )),
            forall|j: int|
                0 <= j < keys@.len() ==> (#[trigger] r@[j] is None ==> field_of(rest@, keys@[j]@)
                    == field_of(all, keys@[j]@)),
        decreases rest@.len(),
    {
        let ghost before = rest@;
        let (name, value) = rest.pop().unwrap();
        assert(rest@ == before.drop_last());
        let mut found: usize = keys.len();
        let mut j: usize = 0;
        while j < keys.len()
            invariant
                j <= keys@.len(),
                r@.len() == keys@.len(),
                found == keys@.len() || (found < j && keys@[found as int]@ == name@ && r@[found as int] is None),
                found == keys@.len() ==> forall|k: int| 0 <= k < j ==> (r@[k] is None ==> keys@[k]@ != name@),
            decreases keys@.len() - j,
        {
            if found == keys.len() && r[j].is_none() && str_eq(name.as_str(), keys[j]) {
                found = j;
            }
            j = j + 1;
        }
        if found < keys.len() {
            r.set(found, Some(value));
        }
    }
    assert forall|j: int| 0 <= j < keys@.len() implies r@[j] == field_of(fields@, keys@[j]@) by {
        if r@[j] is None {
            assert(field_of(rest@, keys@[j]@) is None);
        }
    }
    r
}


// ----- Numbers -----

pub open spec fn is_digit(c: char) -> bool {
    '0' <= c && c <= '9'
}

/// The value of a string of decimal digits, most significant first.
pub open spec fn digits_value(s: Seq<char>) -> nat
    decreases s.len(),
{
    if s.len() == 0 {
        0
    } else {
        digits_value(s.drop_last()) * 10 + ((s.last() as u32) - ('0' as u32)) as nat
    }
}

/// The unsigned 64-bit integer that a number's text denotes, if it denotes one.
pub open spec fn u64_of_text(s: Seq<char>) -> Option<u64> {
    if s.len() > 0 && (forall|i: int| 0 <= i < s.len() ==> is_digit(#[trigger] s[i]))
        && digits_value(s) <= u64::MAX {
        Some(digits_value(s) as u64)
    } else {
        None
    }
}

pub open spec fn digit_char(d: nat) -> char {
    if d == 0 { '0' }
    else if d == 1 { '1' }
    else if d == 2 { '2' }
    else if d == 3 { '3' }
    else if d == 4 { '4' }
    else if d == 5 { '5' }
    else if d == 6 { '6' }
    else if d == 7 { '7' }
    else if d == 8 { '8' }
    else { '9' }
}

/// The decimal text of `n`, without leading zeros.
pub open spec fn text_of_u64(n: nat) -> Seq<char>
    decreases n,
{
    if n < 10 {
        seq![digit_char(n)]
    } else {
        text_of_u64(n / 10).push(digit_char(n % 10))
    }
}

proof fn lemma_digits_prefix(s: Seq<char>, i: int)
    requires
        0 <= i <= s.len(),
        forall|k: int| 0 <= k < s.len() ==> is_digit(#[trigger] s[k]),
    ensures
        digits_value(s.subrange(0, i)) <= digits_value(s),
    decreases s.len(),
{
    if i < s.len() {
        assert(s.drop_last() =~= s.subrange(0, s.len() - 1));
        lemma_digits_prefix(s.drop_last(), i);
        assert(s.drop_last().subrange(0, i) =~= s.subrange(0, i));
    } else {
        assert(s.subrange(0, i) =~= s);
    }
}

/// The text of a number printed from `n` reads back as `n`.
pub proof fn lemma_text_of_u64(n: u64)
    ensures
        u64_of_text(text_of_u64(n as nat)) == Some(n),
        text_of_u64(n as nat).len() > 0,
{
    lemma_text_digits(n as nat);
}

proof fn lemma_text_digits(n: nat)
    ensures
        digits_value(text_of_u64(n)) == n,
        text_of_u64(n).len() > 0,
        forall|i: int| 0 <= i < text_of_u64(n).len() ==> is_digit(#[trigger] text_of_u64(n)[i]),
    decreases n,
{
    let c = digit_char(n % 10);
    assert(is_digit(c) && (c as u32) - ('0' as u32) == n % 10);
    if n >= 10 {
        lemma_text_digits(n / 10);
        let t = text_of_u64(n / 10);
        assert(t.push(c).drop_last() =~= t);
        assert(digits_value(t.push(c)) == digits_value(t) * 10 + ((c as u32) - ('0' as u32)) as nat);
        assert(n == (n / 10) * 10 + n % 10);
        assert(text_of_u64(n) == t.push(c));
    } else {
        assert(seq![c].drop_last() =~= Seq::<char>::empty());
        assert(digits_value(Seq::<char>::empty()) == 0);
        assert(digits_value(seq![c]) == digits_value(seq![c].drop_last()) * 10 + ((c as u32) - ('0' as u32)) as nat);
        assert(text_of_u64(n) == seq![c]);
    }
}

/// Reads `text` as an unsigned 64-bit integer in decimal.
pub fn parse_u64(text: &str) -> (r: Option<u64>)
    ensures
        r == u64_of_text(text@),
{
    let len = text.unicode_len();
    if len == 0 {
        return None;
    }
    let mut acc: u64 = 0;
    let mut i: usize = 0;
    while i < len
        invariant
            len == text@.len(),
            i <= len,
            acc as nat == digits_value(text@.subrange(0, i as int)),
            forall|k: int| 0 <= k < i ==> is_digit(#[trigger] text@[k]),
        decreases len - i,
    {
        let c = text.get_char(i);
        assert(text@.subrange(0, i + 1).drop_last() =~= text@.subrange(0, i as int));
        if !('0' <= c && c <= '9') {
            return None;
        }
        let d = (c as u32 - '0' as u32) as u64;
        if acc > (u64::MAX - d) / 10 {
            proof {
                let s = text@;
                if forall|k: int| 0 <= k < s.len() ==> is_digit(#[trigger] s[k]) {
                    lemma_digits_prefix(s, i + 1);
                    assert(acc * 10 + d > u64::MAX) by (nonlinear_arith)
                        requires acc > (u64::MAX - d) / 10, d <= 9;
                }
            }
            return None;
        }
        acc = acc * 10 + d;
        i = i + 1;
    }
    assert(text@.subrange(0, len as int) =~= text@);
    Some(acc)
}

/// The integer a number's text denotes, where it is one that an unsigned or
/// negative 64-bit integer holds.
pub open spec fn int_of_text(s: Seq<char>) -> Option<int> {
    match u64_of_text(s) {
        Some(n) => Some(n as int),
        None => if s.len() > 0 && s[0] == '-' {
            match u64_of_text(s.drop_first()) {
                Some(m) => Some(-(m as int)),
                None => None,
            }
        } else {
            None
        },
    }
}

/// Reads `text` as a decimal integer, with an optional minus sign.
pub fn parse_int(text: &str) -> (r: Option<i128>)
    ensures
        r matches Some(c) ==> int_of_text(text@) == Some(c as int),
        r is None ==> int_of_text(text@) is None,
{
    match parse_u64(text) {
        Some(n) => Some(n as i128),
        None => {
            let len = text.unicode_len();
            if len > 0 && text.get_char(0) == '-' {
                let rest = text.substring_char(1, len);
                assert(rest@ =~= text@.drop_first());
                match parse_u64(rest) {
                    Some(m) => Some(-(m as i128)),
                    None => None,
                }
            } else {
                None
            }
        },
    }
}

pub open spec fn read_int(v: Option<JsonValue>) -> Option<int> {
    match v {
        Some(JsonValue::Number(t)) => int_of_text(t@),
        _ => None,
    }
}

pub fn take_int(v: &Option<JsonValue>) -> (r: Option<i128>)
    ensures
        r matches Some(c) ==> read_int(*v) == Some(c as int),
        r is None ==> read_int(*v) is None,
{
    match v {
        Some(JsonValue::Number(t)) => parse_int(t.as_str()),
        _ => None,
    }
}

fn digit_str(d: u64) -> (r: &'static str)
    requires
        d < 10,
    ensures
        r@ == seq![digit_char(d as nat)],
{
    proof {
        reveal_strlit("0");
        reveal_strlit("1");
        reveal_strlit("2");
        reveal_strlit("3");
        reveal_strlit("4");
        reveal_strlit("5");
        reveal_strlit("6");
        reveal_strlit("7");
        reveal_strlit("8");
        reveal_strlit("9");
    }
    if d == 0 { "0" }
    else if d == 1 { "1" }
    else if d == 2 { "2" }
    else if d == 3 { "3" }
    else if d == 4 { "4" }
    else if d == 5 { "5" }
    else if d == 6 { "6" }
    else if d == 7 { "7" }
    else if d == 8 { "8" }
    else { "9" }
}

/// Prints `n` in decimal.
pub fn u64_text(n: u64) -> (r: String)
    ensures
        r@ == text_of_u64(n as nat),
    decreases n,
{
    if n < 10 {
        digit_str(n).to_owned()
    } else {
        let mut s = u64_text(n / 10);
        s.append(digit_str(n % 10));
        s
    }
}


// ----- Parsing and rendering -----

#[verifier::external_type_specification]
#[verifier::external_body]
pub struct ExSerdeValue(serde_json::Value);

/// What serde_json reads from a text: the tree, or the message of the error
/// it reports.
pub uninterp spec fn json_of_text(text: Seq<char>) -> Result<JsonValue, Seq<char>>;

pub open spec fn hex_digit(d: nat) -> char {
    if d < 10 {
        digit_char(d)
    } else if d == 10 {
        'a'
    } else if d == 11 {
        'b'
    } else if d == 12 {
        'c'
    } else if d == 13 {
        'd'
    } else if d == 14 {
        'e'
    } else {
        'f'
    }
}

/// How one character is written inside a JSON string: the quote, the
/// backslash and the control characters are escaped, with the short forms
/// where JSON has them; every other character stands for itself.
pub open spec fn escaped(c: char) -> Seq<char> {
    if c == '"' {
        seq!['\\', '"']
    } else if c == '\\' {
        seq!['\\', '\\']
    } else if c == '\x08' {
        seq!['\\', 'b']
    } else if c == '\t' {
        seq!['\\', 't']
    } else if c == '\n' {
        seq!['\\', 'n']
    } else if c == '\x0c' {
        seq!['\\', 'f']
    } else if c == '\r' {
        seq!['\\', 'r']
    } else if (c as u32) < 0x20 {
        seq!['\\', 'u', '0', '0', hex_digit((c as u32 / 16) as nat), hex_digit((c as u32 % 16) as nat)]
    } else {
        seq![c]
    }
}

pub open spec fn escape_all(s: Seq<char>) -> Seq<char>
    decreases s.len(),
{
    if s.len() == 0 {
        Seq::empty()
    } else {
        escape_all(s.drop_last()) + escaped(s.last())
    }
}

/// The JSON string literal of a string: quotes around its escaped characters.
pub open spec fn quoted(s: Seq<char>) -> Seq<char> {
    seq!['"'] + escape_all(s) + seq!['"']
}

/// Relies on serde_json::from_str into a `serde_json::Value`: the tree, or the
/// error's message, depends on the text alone.
#[verifier::external_body]
pub fn parse_text(text: &str) -> (r: Result<JsonValue, String>)
    ensures
        match r {
            Ok(v) => json_of_text(text@) == Ok::<JsonValue, Seq<char>>(v),
            Err(e) => json_of_text(text@) == Err::<JsonValue, Seq<char>>(e@),
        },
{
    match serde_json::from_str::<serde_json::Value>(text) {
        Ok(v) => Ok(from_serde(v)),
        Err(e) => Err(e.to_string()),
    }
}

/// Converts serde_json's tree into a `JsonValue`, node for node; a number
/// becomes the text that serde_json prints for it. Used by `parse_text` alone.
#[verifier::external_body]
fn from_serde(v: serde_json::Value) -> JsonValue {
    match v {
        serde_json::Value::Null => JsonValue::Null,
        serde_json::Value::Bool(b) => JsonValue::Bool(b),
        serde_json::Value::Number(n) => JsonValue::Number(n.to_string()),
        serde_json::Value::String(s) => JsonValue::Text(s),
        serde_json::Value::Array(a) => JsonValue::Array(a.into_iter().map(from_serde).collect()),
        serde_json::Value::Object(o) => JsonValue::Object(
            o.into_iter().map(|(k, v)| (k, from_serde(v))).collect(),
        ),
    }
}

/// Relies on serde_json::to_string on a `str`, which writes the string
/// literal with serde_json's escape table and cannot fail on a `str`.
#[verifier::external_body]
fn quote(s: &str) -> (r: String)
    ensures
        r@ == quoted(s@),
{
    serde_json::to_string(s).unwrap_or_default()
}

/// The compact JSON text of a value.
pub open spec fn render(v: JsonValue) -> Seq<char>
    decreases v,
{
    match v {
        JsonValue::Null => seq!['n', 'u', 'l', 'l'],
        JsonValue::Bool(b) => if b {
            seq!['t', 'r', 'u', 'e']
        } else {
            seq!['f', 'a', 'l', 's', 'e']
        },
        JsonValue::Number(t) => t@,
        JsonValue::Text(t) => quoted(t@),
        JsonValue::Array(items) => seq!['['] + render_items(items@) + seq![']'],
        JsonValue::Object(fields) => seq!['{'] + render_fields(fields@) + seq!['}'],
    }
}

/// The elements of an array, separated by commas.
pub open spec fn render_items(items: Seq<JsonValue>) -> Seq<char>
    decreases items,
{
    if items.len() == 0 {
        Seq::empty()
    } else if items.len() == 1 {
        render(items[0])
    } else {
        render_items(items.drop_last()) + seq![','] + render(items.last())
    }
}

/// The members of an object, separated by commas.
pub open spec fn render_fields(fields: Seq<(String, JsonValue)>) -> Seq<char>
    decreases fields,
{
    if fields.len() == 0 {
        Seq::empty()
    } else if fields.len() == 1 {
        quoted(fields[0].0@) + seq![':'] + render(fields[0].1)
    } else {
        render_fields(fields.drop_last()) + seq![','] + quoted(fields.last().0@) + seq![':']
            + render(fields.last().1)
    }
}

/// Writes `v` as compact JSON text.
pub fn render_text(v: &JsonValue) -> (r: String)
    ensures
        r@ == render(*v),
    decreases v,
{
    proof {
        reveal_strlit("null");
        reveal_strlit("true");
        reveal_strlit("false");
        reveal_strlit("[");
        reveal_strlit("]");
        reveal_strlit("{");
        reveal_strlit("}");
        reveal_strlit(",");
        reveal_strlit(":");
    }
    match v {
        JsonValue::Null => "null".to_owned(),
        JsonValue::Bool(b) => if *b {
            "true".to_owned()
        } else {
            "false".to_owned()
        },
        JsonValue::Number(t) => t.clone(),
        JsonValue::Text(t) => quote(t.as_str()),
        JsonValue::Array(items) => {
            let mut out = "[".to_owned();
            let mut i: usize = 0;
            while i < items.len()
                invariant
                    i <= items@.len(),
                    *v == JsonValue::Array(*items),
                    out@ == seq!['['] + render_items(items@.subrange(0, i as int)),
                decreases items@.len() - i,
            {
                proof {
                    reveal_strlit(",");
                }
                let ghost sub = items@.subrange(0, i + 1);
                assert(sub.drop_last() =~= items@.subrange(0, i as int));
                assert(sub.last() == items@[i as int]);
                if i > 0 {
                    out.append(",");
                } else {
                    assert(items@.subrange(0, 0) =~= Seq::<JsonValue>::empty());
                }
                proof {
                    vstd::std_specs::vec::axiom_vec_index_decreases(*items, i as int);
                    assert(decreases_to!(*v => v->Array_0));
                }
                let ghost prev = out@;
                let part = render_text(&items[i]);
                assert(part@ == render(items@[i as int]));
                out.append(part.as_str());
                assert(out@ == prev + render(items@[i as int]));
                proof {
                    if i > 0 {
                        assert(prev =~= seq!['['] + render_items(sub.drop_last()) + seq![',']);
                    } else {
                        assert(prev =~= seq!['[']);
                    }
                    if i == 0 {
                        assert(render_items(sub) == render(items@[i as int]));
                    } else {
                        assert(render_items(sub) == render_items(sub.drop_last()) + seq![','] + render(
                            items@[i as int],
                        ));
                    }
                    assert(out@ =~= seq!['['] + render_items(sub));
                }
                i = i + 1;
            }
            assert(items@.subrange(0, items@.len() as int) =~= items@);
            out.append("]");
            out
        },
        JsonValue::Object(fields) => {
            let mut out = "{".to_owned();
            let mut i: usize = 0;
            while i < fields.len()
                invariant
                    i <= fields@.len(),
                    *v == JsonValue::Object(*fields),
                    out@ == seq!['{'] + render_fields(fields@.subrange(0, i as int)),
                decreases fields@.len() - i,
            {
                proof {
                    reveal_strlit(",");
                    reveal_strlit(":");
                }
                let ghost sub = fields@.subrange(0, i + 1);
                assert(sub.drop_last() =~= fields@.subrange(0, i as int));
                assert(sub.last() == fields@[i as int]);
                if i > 0 {
                    out.append(",");
                } else {
                    assert(fields@.subrange(0, 0) =~= Seq::<(String, JsonValue)>::empty());
                }
                let key = quote(fields[i].0.as_str());
                let ghost prev = out@;
                out.append(key.as_str());
                out.append(":");
                proof {
                    vstd::std_specs::vec::axiom_vec_index_decreases(*fields, i as int);
                    assert(decreases_to!(*v => v->Object_0));
                    assert(decreases_to!(fields@[i as int] => fields@[i as int].1));
                }
                let part = render_text(&fields[i].1);
                out.append(part.as_str());
                proof {
                    let e = fields@[i as int];
                    assert(out@ == prev + quoted(e.0@) + seq![':'] + render(e.1));
                    if i > 0 {
                        assert(prev =~= seq!['{'] + render_fields(sub.drop_last()) + seq![',']);
                    } else {
                        assert(prev =~= seq!['{']);
                    }
                    if i == 0 {
                        assert(render_fields(sub) == quoted(e.0@) + seq![':'] + render(e.1));
                    } else {
                        assert(render_fields(sub) == render_fields(sub.drop_last()) + seq![',']
                            + quoted(e.0@) + seq![':'] + render(e.1));
                    }
                    assert(out@ =~= seq!['{'] + render_fields(sub));
                }
                i = i + 1;
            }
            assert(fields@.subrange(0, fields@.len() as int) =~= fields@);
            out.append("}");
            out
        },
    }
}


// ----- Reading typed members -----
//
// Each `read_*` spec function says what a member (absent when `None`) reads
// as, `None` meaning that its shape is wrong. An optional member may be absent
// or `null`.

pub open spec fn read_text(v: Option<JsonValue>) -> Option<String> {
    match v {
        Some(JsonValue::Text(s)) => Some(s),
        _ => None,
    }
}

pub open spec fn read_opt_text(v: Option<JsonValue>) -> Option<Option<String>> {
    match v {
        None => Some(None),
        Some(JsonValue::Null) => Some(None),
        Some(JsonValue::Text(s)) => Some(Some(s)),
        _ => None,
    }
}

pub open spec fn read_bool(v: Option<JsonValue>) -> Option<bool> {
    match v {
        Some(JsonValue::Bool(b)) => Some(b),
        _ => None,
    }
}

pub open spec fn read_opt_bool(v: Option<JsonValue>) -> Option<Option<bool>> {
    match v {
        None => Some(None),
        Some(JsonValue::Null) => Some(None),
        Some(JsonValue::Bool(b)) => Some(Some(b)),
        _ => None,
    }
}

pub open spec fn read_u64(v: Option<JsonValue>) -> Option<u64> {
    match v {
        Some(JsonValue::Number(t)) => u64_of_text(t@),
        _ => None,
    }
}

pub open spec fn read_opt_u64(v: Option<JsonValue>) -> Option<Option<u64>> {
    match v {
        None => Some(None),
        Some(JsonValue::Null) => Some(None),
        Some(JsonValue::Number(t)) => match u64_of_text(t@) {
            Some(n) => Some(Some(n)),
            None => None,
        },
        _ => None,
    }
}

/// A pair of integers written as a two-element array.
pub open spec fn read_pair(v: Option<JsonValue>) -> Option<(u64, u64)> {
    match v {
        Some(JsonValue::Array(items)) => if items@.len() == 2 {
            match (read_u64(Some(items@[0])), read_u64(Some(items@[1]))) {
                (Some(a), Some(b)) => Some((a, b)),
                _ => None,
            }
        } else {
            None
        },
        _ => None,
    }
}

pub open spec fn read_opt_pair(v: Option<JsonValue>) -> Option<Option<(u64, u64)>> {
    match v {
        None => Some(None),
        Some(JsonValue::Null) => Some(None),
        _ => match read_pair(v) {
            Some(p) => Some(Some(p)),
            None => None,
        },
    }
}

pub fn take_text(v: Option<JsonValue>) -> (r: Option<String>)
    ensures
        r == read_text(v),
{
    match v {
        Some(JsonValue::Text(s)) => Some(s),
        _ => None,
    }
}

pub fn take_opt_text(v: Option<JsonValue>) -> (r: Option<Option<String>>)
    ensures
        r == read_opt_text(v),
{
    match v {
        None => Some(None),
        Some(JsonValue::Null) => Some(None),
        Some(JsonValue::Text(s)) => Some(Some(s)),
        _ => None,
    }
}

pub fn take_bool(v: &Option<JsonValue>) -> (r: Option<bool>)
    ensures
        r == read_bool(*v),
{
    match v {
        Some(JsonValue::Bool(b)) => Some(*b),
        _ => None,
    }
}

pub fn take_opt_bool(v: &Option<JsonValue>) -> (r: Option<Option<bool>>)
    ensures
        r == read_opt_bool(*v),
{
    match v {
        None => Some(None),
        Some(JsonValue::Null) => Some(None),
        Some(JsonValue::Bool(b)) => Some(Some(*b)),
        _ => None,
    }
}

pub fn take_u64(v: &Option<JsonValue>) -> (r: Option<u64>)
    ensures
        r == read_u64(*v),
{
    match v {
        Some(JsonValue::Number(t)) => parse_u64(t.as_str()),
        _ => None,
    }
}

pub fn take_opt_u64(v: &Option<JsonValue>) -> (r: Option<Option<u64>>)
    ensures
        r == read_opt_u64(*v),
{
    match v {
        None => Some(None),
        Some(JsonValue::Null) => Some(None),
        Some(JsonValue::Number(t)) => match parse_u64(t.as_str()) {
            Some(n) => Some(Some(n)),
            None => None,
        },
        _ => None,
    }
}


pub fn take_pair(v: &Option<JsonValue>) -> (r: Option<(u64, u64)>)
    ensures
        r == read_pair(*v),
{
    match v {
        Some(JsonValue::Array(items)) => {
            if items.len() == 2 {
                let a = take_u64(&Some(items[0].clone_number()));
                let b = take_u64(&Some(items[1].clone_number()));
                match (a, b) {
                    (Some(a), Some(b)) => Some((a, b)),
                    _ => None,
                }
            } else {
                None
            }
        },
        _ => None,
    }
}

pub fn take_opt_pair(v: &Option<JsonValue>) -> (r: Option<Option<(u64, u64)>>)
    ensures
        r == read_opt_pair(*v),
{
    match v {
        None => Some(None),
        Some(JsonValue::Null) => Some(None),
        _ => match take_pair(v) {
            Some(p) => Some(Some(p)),
            None => None,
        },
    }
}

impl JsonValue {
    /// A copy that keeps what `read_u64` sees: the same number text, or a
    /// `null` for anything that is not a number.
    fn clone_number(&self) -> (r: JsonValue)
        ensures
            read_u64(Some(r)) == read_u64(Some(*self)),
    {
        match self {
            JsonValue::Number(t) => JsonValue::Number(t.clone()),
            _ => JsonValue::Null,
        }
    }
}

// ----- Writing typed members -----

pub fn number(n: u64) -> (r: JsonValue)
    ensures
        read_u64(Some(r)) == Some(n),
        read_opt_u64(Some(r)) == Some(Some(n)),
        is_number(r, n),
{
    proof {
        lemma_text_of_u64(n);
    }
    JsonValue::Number(u64_text(n))
}

pub fn opt_number(n: Option<u64>) -> (r: JsonValue)
    ensures
        read_opt_u64(Some(r)) == Some(n),
        is_opt_number(r, n),
{
    match n {
        Some(n) => number(n),
        None => JsonValue::Null,
    }
}

pub fn opt_text(s: Option<String>) -> (r: JsonValue)
    ensures
        read_opt_text(Some(r)) == Some(s),
        is_opt_text(r, s),
{
    match s {
        Some(s) => JsonValue::Text(s),
        None => JsonValue::Null,
    }
}

pub fn opt_bool(b: Option<bool>) -> (r: JsonValue)
    ensures
        read_opt_bool(Some(r)) == Some(b),
        is_opt_bool(r, b),
{
    match b {
        Some(b) => JsonValue::Bool(b),
        None => JsonValue::Null,
    }
}

pub fn pair(p: (u64, u64)) -> (r: JsonValue)
    ensures
        read_pair(Some(r)) == Some(p),
        read_opt_pair(Some(r)) == Some(Some(p)),
        is_pair(r, p),
{
    let a = number(p.0);
    let b = number(p.1);
    let items = vec![a, b];
    JsonValue::Array(items)
}

pub fn opt_pair(p: Option<(u64, u64)>) -> (r: JsonValue)
    ensures
        read_opt_pair(Some(r)) == Some(p),
        is_opt_pair(r, p),
{
    match p {
        Some(p) => pair(p),
        None => JsonValue::Null,
    }
}


/// The names of an object's members, in order.
pub open spec fn keys_of(fields: Seq<(String, JsonValue)>) -> Seq<Seq<char>> {
    fields.map_values(|e: (String, JsonValue)| e.0@)
}

pub broadcast proof fn lemma_keys_of_push(s: Seq<(String, JsonValue)>, e: (String, JsonValue))
    ensures
        #[trigger] keys_of(s.push(e)) == keys_of(s).push(e.0@),
{
    assert(keys_of(s.push(e)) =~= keys_of(s).push(e.0@));
}

/// An object whose members have exactly these names, in this order.
pub open spec fn has_keys(v: JsonValue, keys: Seq<Seq<char>>) -> bool {
    v matches JsonValue::Object(f) && keys_of(f@) == keys
}

/// `keys` with `k` added where `b` holds.
pub open spec fn push_if(keys: Seq<Seq<char>>, b: bool, k: Seq<char>) -> Seq<Seq<char>> {
    if b {
        keys.push(k)
    } else {
        keys
    }
}

/// The number written for `n`: its decimal text.
pub open spec fn is_number(v: JsonValue, n: u64) -> bool {
    v matches JsonValue::Number(t) && t@ == text_of_u64(n as nat)
}

pub open spec fn is_opt_number(v: JsonValue, n: Option<u64>) -> bool {
    match n {
        Some(n) => is_number(v, n),
        None => v == JsonValue::Null,
    }
}

pub open spec fn is_opt_text(v: JsonValue, s: Option<String>) -> bool {
    match s {
        Some(s) => v == JsonValue::Text(s),
        None => v == JsonValue::Null,
    }
}

pub open spec fn is_opt_bool(v: JsonValue, b: Option<bool>) -> bool {
    match b {
        Some(b) => v == JsonValue::Bool(b),
        None => v == JsonValue::Null,
    }
}

pub open spec fn is_pair(v: JsonValue, p: (u64, u64)) -> bool {
    v matches JsonValue::Array(items) && items@.len() == 2 && is_number(items@[0], p.0) && is_number(
        items@[1],
        p.1,
    )
}

pub open spec fn is_opt_pair(v: JsonValue, p: Option<(u64, u64)>) -> bool {
    match p {
        Some(p) => is_pair(v, p),
        None => v == JsonValue::Null,
    }
}

/// Adding a member at the end decides what that name reads as.
pub broadcast proof fn lemma_field_of_push(s: Seq<(String, JsonValue)>, e: (String, JsonValue), k: Seq<char>)
    ensures
        #[trigger] field_of(s.push(e), k) == if e.0@ == k {
            Some(e.1)
        } else {
            field_of(s, k)
        },
{
    assert(s.push(e).drop_last() =~= s);
}

/// Appends the member `key: v`.
pub fn put(fields: &mut Vec<(String, JsonValue)>, key: &str, v: JsonValue)
    ensures
        final(fields)@.len() == old(fields)@.len() + 1,
        final(fields)@ == old(fields)@.push(final(fields)@.last()),
        final(fields)@.last().0@ == key@,
        final(fields)@.last().1 == v,
{
    fields.push((key.to_owned(), v));
    assert(final(fields)@ == old(fields)@.push(final(fields)@.last()));
}

/// Where reading a value failed: the names from the outside in, and why.
#[derive(Debug)]
pub struct FieldError {
    pub path: Vec<String>,
    pub message: String,
}

impl FieldError {
    /// The names of the path.
    pub open spec fn spec_path(self) -> Seq<Seq<char>> {
        self.path@.map_values(|s: String| s@)
    }

    /// A failure at the value itself.
    pub fn here(message: &str) -> (r: FieldError)
        ensures
            r.path@.len() == 0,
            r.spec_path() == Seq::<Seq<char>>::empty(),
            r.message@ == message@,
    {
        FieldError { path: Vec::new(), message: message.to_owned() }
    }

    /// A failure at the member `key` of the value.
    pub fn at(key: &str, message: &str) -> (r: FieldError)
        ensures
            r.path@.len() == 1,
            r.path@[0]@ == key@,
            r.spec_path() == seq![key@],
            r.message@ == message@,
    {
        let mut path: Vec<String> = Vec::new();
        path.push(key.to_owned());
        let r = FieldError { path, message: message.to_owned() };
        assert(r.spec_path() =~= seq![key@]);
        r
    }

    /// The same failure, seen from the object that holds the value as `key`.
    pub fn within(self, key: &str) -> (r: FieldError)
        ensures
            r.path@.len() == self.path@.len() + 1,
            r.path@[0]@ == key@,
            r.path@.drop_first() == self.path@,
            r.spec_path() == seq![key@] + self.spec_path(),
            r.message == self.message,
    {
        let ghost inner = self.spec_path();
        let mut path = self.path;
        let ghost before = path@;
        path.insert(0, key.to_owned());
        assert(path@.drop_first() =~= before);
        let r = FieldError { path, message: self.message };
        assert(r.spec_path() =~= seq![key@] + inner);
        r
    }
}

} // verus!
