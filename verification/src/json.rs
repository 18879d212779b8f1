//! A JSON document model.
//!
//! Request bodies are built as [`JsonValue`] trees and rendered to bytes by a
//! verified writer; incoming payloads are parsed by `serde_json` behind a
//! trusted wrapper and then inspected by verified accessors.

use vstd::prelude::*;

verus! {

use vstd::string::StrSliceExecFns;
use vstd::string::StringExecFns;
use vstd::string::StringSliceAdditionalSpecFns;

broadcast use vstd::std_specs::vec::group_vec_axioms;

/// Compare two string slices by their character sequences.
pub fn str_eq(a: &str, b: &str) -> (r: bool)
    ensures
        r == (a@ == b@),
{
    let x = a.to_owned();
    let y = b.to_owned();
    x == y
}

/// A JSON value. Numbers are carried as their decimal text, so the model
/// stays exact for integers and faithful for anything a provider sends.
pub enum JsonValue {
    Null,
    Bool(bool),
    Num(String),
    Str(String),
    Arr(Vec<JsonValue>),
    Obj(Vec<(String, JsonValue)>),
}

/// Mathematical model of a [`JsonValue`]: the same tree with text as
/// character sequences.
pub enum JsonV {
    Null,
    Bool(bool),
    Num(Seq<char>),
    Str(Seq<char>),
    Arr(Seq<JsonV>),
    Obj(Seq<(Seq<char>, JsonV)>),
}

pub open spec fn jv_view(v: JsonValue) -> JsonV
    decreases v,
    via jv_view_decreases
{
    match v {
        JsonValue::Null => JsonV::Null,
        JsonValue::Bool(b) => JsonV::Bool(b),
        JsonValue::Num(s) => JsonV::Num(s@),
        JsonValue::Str(s) => JsonV::Str(s@),
        JsonValue::Arr(items) => JsonV::Arr(
            Seq::new(
                items@.len(),
                |i: int|
                    if 0 <= i < items@.len() {
                        jv_view(items@[i])
                    } else {
                        JsonV::Null
                    },
            ),
        ),
        JsonValue::Obj(fields) => JsonV::Obj(
            Seq::new(
                fields@.len(),
                |i: int|
                    if 0 <= i < fields@.len() {
                        (fields@[i].0@, jv_view(fields@[i].1))
                    } else {
                        (Seq::empty(), JsonV::Null)
                    },
            ),
        ),
    }
}

#[via_fn]
proof fn jv_view_decreases(v: JsonValue) {
    broadcast use vstd::seq::axiom_seq_index_decreases;

    match v {
        JsonValue::Arr(items) => {
            assert forall|i: int| 0 <= i < items@.len() implies decreases_to!(v => items@[i]) by {
                assert(decreases_to!(v => items));
                assert(decreases_to!(items => items@));
                assert(decreases_to!(items@ => items@[i]));
            }
        },
        JsonValue::Obj(fields) => {
            assert forall|i: int| 0 <= i < fields@.len() implies decreases_to!(
                v => fields@[i].1,
            ) by {
                assert(decreases_to!(v => fields));
                assert(decreases_to!(fields => fields@));
                assert(decreases_to!(fields@ => fields@[i]));
                assert(decreases_to!(fields@[i] => fields@[i].1));
            }
        },
        _ => {},
    }
}

impl View for JsonValue {
    type V = JsonV;

    open spec fn view(&self) -> JsonV {
        jv_view(*self)
    }
}

/// Model of an object's field list as seen through the view.
pub open spec fn fields_view(fields: Seq<(String, JsonValue)>) -> Seq<(Seq<char>, JsonV)> {
    Seq::new(
        fields.len(),
        |i: int|
            if 0 <= i < fields.len() {
                (fields[i].0@, jv_view(fields[i].1))
            } else {
                (Seq::empty(), JsonV::Null)
            },
    )
}

/// Model of an array's item list as seen through the view.
pub open spec fn items_view(items: Seq<JsonValue>) -> Seq<JsonV> {
    Seq::new(
        items.len(),
        |i: int|
            if 0 <= i < items.len() {
                jv_view(items[i])
            } else {
                JsonV::Null
            },
    )
}

/// The view of an array value is the array of the item views.
pub broadcast proof fn lemma_jv_view_arr(items: Vec<JsonValue>)
    ensures
        #[trigger] jv_view(JsonValue::Arr(items)) == JsonV::Arr(items_view(items@)),
{
    let a = jv_view(JsonValue::Arr(items));
    assert(a is Arr);
    assert(a->Arr_0 =~= items_view(items@));
    assert(a =~= JsonV::Arr(items_view(items@)));
}

/// The view of an object value is the object of the field views.
pub broadcast proof fn lemma_jv_view_obj(fields: Vec<(String, JsonValue)>)
    ensures
        #[trigger] jv_view(JsonValue::Obj(fields)) == JsonV::Obj(fields_view(fields@)),
{
    let o = jv_view(JsonValue::Obj(fields));
    assert(o is Obj);
    assert(o->Obj_0 =~= fields_view(fields@));
    assert(o =~= JsonV::Obj(fields_view(fields@)));
}

/// Lookup of the first field with the given key.
pub open spec fn spec_obj_get(fs: Seq<(Seq<char>, JsonV)>, key: Seq<char>) -> Option<JsonV>
    decreases fs.len(),
{
    if fs.len() == 0 {
        None
    } else if fs[0].0 == key {
        Some(fs[0].1)
    } else {
        spec_obj_get(fs.skip(1), key)
    }
}

/// Field lookup on a value: some field only when the value is an object
/// holding the key.
pub open spec fn spec_get(v: JsonV, key: Seq<char>) -> Option<JsonV> {
    match v {
        JsonV::Obj(fs) => spec_obj_get(fs, key),
        _ => None,
    }
}

proof fn lemma_obj_get_at(fs: Seq<(Seq<char>, JsonV)>, key: Seq<char>, k: int)
    requires
        0 <= k < fs.len(),
        fs[k].0 == key,
        forall|j: int| 0 <= j < k ==> fs[j].0 != key,
    ensures
        spec_obj_get(fs, key) == Some(fs[k].1),
    decreases k,
{
    if k > 0 {
        lemma_obj_get_at(fs.skip(1), key, k - 1);
    }
}

proof fn lemma_obj_get_none(fs: Seq<(Seq<char>, JsonV)>, key: Seq<char>)
    requires
        forall|j: int| 0 <= j < fs.len() ==> fs[j].0 != key,
    ensures
        spec_obj_get(fs, key) is None,
    decreases fs.len(),
{
    if fs.len() > 0 {
        lemma_obj_get_none(fs.skip(1), key);
    }
}

/// A decimal digit character.
pub open spec fn is_digit(c: char) -> bool {
    48 <= c as u32 <= 57
}

pub open spec fn digit_val(c: char) -> nat {
    (c as u32 - 48) as nat
}

pub open spec fn is_digits(s: Seq<char>) -> bool {
    forall|j: int| 0 <= j < s.len() ==> is_digit(#[trigger] s[j])
}

/// Value of a digit string, most significant digit first.
pub open spec fn spec_digits_val(s: Seq<char>) -> nat
    decreases s.len(),
{
    if s.len() == 0 {
        0
    } else {
        spec_digits_val(s.drop_last()) * 10 + digit_val(s.last())
    }
}

/// What `u64::from_str` accepts: an optional leading `+`, then one or more
/// decimal digits whose value fits in a `u64`.
pub open spec fn spec_parse_u64(s: Seq<char>) -> Option<u64> {
    let body = if s.len() > 0 && s[0] == '+' {
        s.skip(1)
    } else {
        s
    };
    if body.len() > 0 && is_digits(body) && spec_digits_val(body) <= u64::MAX {
        Some(spec_digits_val(body) as u64)
    } else {
        None
    }
}

pub open spec fn digit_char(d: nat) -> char {
    if d == 0 {
        '0'
    } else if d == 1 {
        '1'
    } else if d == 2 {
        '2'
    } else if d == 3 {
        '3'
    } else if d == 4 {
        '4'
    } else if d == 5 {
        '5'
    } else if d == 6 {
        '6'
    } else if d == 7 {
        '7'
    } else if d == 8 {
        '8'
    } else {
        '9'
    }
}

/// Decimal rendering of a natural number, no sign, no leading zeros.
pub open spec fn spec_u64_dec(n: nat) -> Seq<char>
    decreases n,
{
    if n < 10 {
        seq![digit_char(n)]
    } else {
        spec_u64_dec(n / 10).push(digit_char(n % 10))
    }
}

fn digit_str(d: u64) -> (r: &'static str)
    requires
        d < 10,
    ensures
        r@ =~= seq![digit_char(d as nat)],
{
    proof {
        reveal_strlit("0");
        reveal_strlit("1");
        reveal_strlit("2");
        reveal_strlit("3");
        reveal_strlit("4");
        reveal_strlit("5");
        reveal_strlit("6");
        reveal_strlit("7");
        reveal_strlit("8");
        reveal_strlit("9");
    }
    match d {
        0 => "0",
        1 => "1",
        2 => "2",
        3 => "3",
        4 => "4",
        5 => "5",
        6 => "6",
        7 => "7",
        8 => "8",
        _ => "9",
    }
}

/// Render a `u64` in decimal.
pub fn u64_to_dec(n: u64) -> (r: String)
    ensures
        r@ == spec_u64_dec(n as nat),
    decreases n,
{
    if n < 10 {
        digit_str(n).to_owned()
    } else {
        let mut s = u64_to_dec(n / 10);
        s.append(digit_str(n % 10));
        proof {
            assert(s@ =~= spec_u64_dec(n as nat));
        }
        s
    }
}

/// Decimal rendering of a per-mille value: `700` is `0.7`, `1000` is `1`,
/// `50` is `0.05`.
pub open spec fn spec_milli_dec(m: nat) -> Seq<char> {
    let whole = spec_u64_dec(m / 1000);
    let f = m % 1000;
    if f == 0 {
        whole
    } else if f % 100 == 0 {
        whole + seq!['.', digit_char(f / 100)]
    } else if f % 10 == 0 {
        whole + seq!['.', digit_char(f / 100), digit_char((f / 10) % 10)]
    } else {
        whole + seq!['.', digit_char(f / 100), digit_char((f / 10) % 10), digit_char(f % 10)]
    }
}

/// Render a value given in thousandths as a decimal number.
pub fn milli_to_dec(m: u32) -> (r: String)
    ensures
        r@ == spec_milli_dec(m as nat),
{
    let mut s = u64_to_dec((m as u64) / 1000);
    let f = m % 1000;
    if f == 0 {
        proof {
            assert(s@ =~= spec_milli_dec(m as nat));
        }
        return s;
    }
    s.append(".");
    proof {
        reveal_strlit(".");
    }
    s.append(digit_str(((f / 100) % 10) as u64));
    if f % 100 != 0 {
        s.append(digit_str(((f / 10) % 10) as u64));
        if f % 10 != 0 {
            s.append(digit_str((f % 10) as u64));
        }
    }
    proof {
        assert(s@ =~= spec_milli_dec(m as nat));
    }
    s
}

/// Parse a decimal `u64` exactly as `u64::from_str` would.
pub fn parse_u64_dec(s: &str) -> (r: Option<u64>)
    ensures
        r == spec_parse_u64(s@),
{
    let n = s.unicode_len();
    let mut start: usize = 0;
    if n > 0 && s.get_char(0) == '+' {
        start = 1;
    }
    let ghost body = s@.skip(start as int);
    proof {
        if start == 0 {
            assert(body =~= s@);
        }
    }
    if n == start {
        return None;
    }
    let mut acc: u64 = 0;
    let mut k: usize = start;
    while k < n
        invariant
            start <= k <= n,
            n == s@.len(),
            start == 0 || start == 1,
            start == 1 ==> s@[0] == '+',
            start == 0 ==> (s@.len() == 0 || s@[0] != '+'),
            body == s@.skip(start as int),
            start == 0 ==> body == s@,
            is_digits(body.take(k - start)),
            acc == spec_digits_val(body.take(k - start)),
        decreases n - k,
    {
        let c = s.get_char(k);
        let d = c as u32;
        if d < 48 || d > 57 {
            proof {
                assert(body[k - start] == s@[k as int]);
                assert(!is_digits(body));
            }
            return None;
        }
        let dv = (d - 48) as u64;
        if acc > (u64::MAX - dv) / 10 {
            proof {
                assert(body.take(k + 1 - start).drop_last() =~= body.take(k - start));
                assert(body.take(k + 1 - start).last() == s@[k as int]);
                assert(spec_digits_val(body.take(k + 1 - start)) == acc * 10 + dv);
                assert(spec_digits_val(body.take(k + 1 - start)) > u64::MAX);
                lemma_digits_val_monotone(body, k + 1 - start);
            }
            return None;
        }
        let new_acc = acc * 10 + dv;
        proof {
            assert(body.take(k + 1 - start).drop_last() =~= body.take(k - start));
            assert(body.take(k + 1 - start).last() == s@[k as int]);
        }
        acc = new_acc;
        k = k + 1;
    }
    proof {
        assert(body.take(n - start) =~= body);
    }
    Some(acc)
}

/// Appending digits never decreases the value of a digit string.
proof fn lemma_digits_val_monotone(s: Seq<char>, k: int)
    requires
        0 <= k <= s.len(),
    ensures
        spec_digits_val(s) >= spec_digits_val(s.take(k)),
    decreases s.len() - k,
{
    if k < s.len() {
        lemma_digits_val_monotone(s, k + 1);
        assert(s.take(k + 1).drop_last() =~= s.take(k));
        assert(spec_digits_val(s.take(k + 1)) >= spec_digits_val(s.take(k)));
    } else {
        assert(s.take(k) =~= s);
    }
}

impl JsonValue {
    /// Field lookup; `Some` exactly when this value is an object with the key.
    pub fn get<'a>(&'a self, key: &str) -> (r: Option<&'a JsonValue>)
        ensures
            match r {
                Some(v) => spec_get(self@, key@) == Some(v@),
                None => spec_get(self@, key@) is None,
            },
    {
        match self {
            JsonValue::Obj(fields) => {
                let ghost fsv = fields_view(fields@);
                proof {
                    broadcast use lemma_jv_view_obj;

                    assert(self@ == JsonV::Obj(fsv));
                }
                let mut i: usize = 0;
                while i < fields.len()
                    invariant
                        0 <= i <= fields.len(),
                        fsv == fields_view(fields@),
                        spec_get(self@, key@) == spec_obj_get(fsv, key@),
                        forall|j: int| 0 <= j < i ==> fsv[j].0 != key@,
                    decreases fields.len() - i,
                {
                    if str_eq(fields[i].0.as_str(), key) {
                        proof {
                            lemma_obj_get_at(fsv, key@, i as int);
                        }
                        return Some(&fields[i].1);
                    }
                    i = i + 1;
                }
                proof {
                    lemma_obj_get_none(fsv, key@);
                }
                None
            },
            _ => None,
        }
    }

    /// The string payload, when this value is a string.
    pub fn as_str(&self) -> (r: Option<&String>)
        ensures
            match r {
                Some(s) => self@ == JsonV::Str(s@),
                None => !(self@ is Str),
            },
    {
        match self {
            JsonValue::Str(s) => Some(s),
            _ => None,
        }
    }

    /// The boolean payload, when this value is a boolean.
    pub fn as_bool(&self) -> (r: Option<bool>)
        ensures
            match r {
                Some(b) => self@ == JsonV::Bool(b),
                None => !(self@ is Bool),
            },
    {
        match self {
            JsonValue::Bool(b) => Some(*b),
            _ => None,
        }
    }

    /// The items, when this value is an array.
    pub fn as_array(&self) -> (r: Option<&Vec<JsonValue>>)
        ensures
            match r {
                Some(items) => self@ == JsonV::Arr(items_view(items@)),
                None => !(self@ is Arr),
            },
    {
        match self {
            JsonValue::Arr(items) => {
                proof {
                    broadcast use lemma_jv_view_arr;

                    assert(self@ == JsonV::Arr(items_view(items@)));
                }
                Some(items)
            },
            _ => None,
        }
    }

    /// The fields, when this value is an object.
    pub fn as_object(&self) -> (r: Option<&Vec<(String, JsonValue)>>)
        ensures
            match r {
                Some(fields) => self@ == JsonV::Obj(fields_view(fields@)),
                None => !(self@ is Obj),
            },
    {
        match self {
            JsonValue::Obj(fields) => {
                proof {
                    broadcast use lemma_jv_view_obj;

                    assert(self@ == JsonV::Obj(fields_view(fields@)));
                }
                Some(fields)
            },
            _ => None,
        }
    }

    /// The numeric payload as a `u64`, when this value is a number written
    /// as a plain unsigned decimal.
    pub fn as_u64(&self) -> (r: Option<u64>)
        ensures
            r == spec_as_u64(self@),
    {
        match self {
            JsonValue::Num(s) => parse_u64_dec(s.as_str()),
            _ => None,
        }
    }

    /// Like [`Self::as_u64`] but bounded to `u32`.
    pub fn as_u32(&self) -> (r: Option<u32>)
        ensures
            r == spec_as_u32(self@),
    {
        match self.as_u64() {
            Some(n) => if n <= u32::MAX as u64 {
                Some(n as u32)
            } else {
                None
            },
            None => None,
        }
    }

    /// True exactly when this value is `null`.
    pub fn is_null(&self) -> (r: bool)
        ensures
            r == (self@ is Null),
    {
        matches!(self, JsonValue::Null)
    }

    /// Build a number value from an unsigned integer.
    pub fn from_u64(n: u64) -> (r: JsonValue)
        ensures
            r@ == JsonV::Num(spec_u64_dec(n as nat)),
    {
        JsonValue::Num(u64_to_dec(n))
    }

    /// Build a number value from a quantity in thousandths.
    pub fn from_milli(m: u32) -> (r: JsonValue)
        ensures
            r@ == JsonV::Num(spec_milli_dec(m as nat)),
    {
        JsonValue::Num(milli_to_dec(m))
    }

    /// Build a string value from a string slice.
    pub fn string(s: &str) -> (r: JsonValue)
        ensures
            r@ == JsonV::Str(s@),
    {
        JsonValue::Str(s.to_owned())
    }
}

pub open spec fn spec_as_u64(v: JsonV) -> Option<u64> {
    match v {
        JsonV::Num(s) => spec_parse_u64(s),
        _ => None,
    }
}

pub open spec fn spec_as_u32(v: JsonV) -> Option<u32> {
    match spec_as_u64(v) {
        Some(n) => if n <= u32::MAX {
            Some(n as u32)
        } else {
            None
        },
        None => None,
    }
}

/// Set a field on an object's field list: replace the first entry with the
/// key, else append.
pub open spec fn spec_obj_set(
    fs: Seq<(Seq<char>, JsonV)>,
    key: Seq<char>,
    value: JsonV,
) -> Seq<(Seq<char>, JsonV)>
    decreases fs.len(),
{
    if fs.len() == 0 {
        seq![(key, value)]
    } else if fs[0].0 == key {
        seq![(key, value)] + fs.skip(1)
    } else {
        seq![fs[0]] + spec_obj_set(fs.skip(1), key, value)
    }
}

proof fn lemma_obj_set_at(fs: Seq<(Seq<char>, JsonV)>, key: Seq<char>, value: JsonV, k: int)
    requires
        0 <= k < fs.len(),
        fs[k].0 == key,
        forall|j: int| 0 <= j < k ==> fs[j].0 != key,
    ensures
        spec_obj_set(fs, key, value) =~= fs.update(k, (key, value)),
    decreases k,
{
    if k == 0 {
        assert(spec_obj_set(fs, key, value) =~= fs.update(0, (key, value)));
    } else {
        lemma_obj_set_at(fs.skip(1), key, value, k - 1);
        assert(spec_obj_set(fs, key, value) =~= fs.update(k, (key, value)));
    }
}

proof fn lemma_obj_set_none(fs: Seq<(Seq<char>, JsonV)>, key: Seq<char>, value: JsonV)
    requires
        forall|j: int| 0 <= j < fs.len() ==> fs[j].0 != key,
    ensures
        spec_obj_set(fs, key, value) =~= fs.push((key, value)),
    decreases fs.len(),
{
    if fs.len() > 0 {
        lemma_obj_set_none(fs.skip(1), key, value);
        assert(spec_obj_set(fs, key, value) =~= fs.push((key, value)));
    }
}

/// Set a field in an object's field list, replacing the first entry with
/// that key or appending a new one.
pub fn obj_set(fields: &mut Vec<(String, JsonValue)>, key: String, value: JsonValue)
    ensures
        fields_view(final(fields)@) == spec_obj_set(fields_view(old(fields)@), key@, value@),
{
    let ghost fsv = fields_view(fields@);
    let mut i: usize = 0;
    while i < fields.len()
        invariant
            0 <= i <= fields.len(),
            fields@ == old(fields)@,
            fsv == fields_view(fields@),
            forall|j: int| 0 <= j < i ==> fsv[j].0 != key@,
        decreases fields.len() - i,
    {
        if str_eq(fields[i].0.as_str(), key.as_str()) {
            proof {
                lemma_obj_set_at(fsv, key@, value@, i as int);
            }
            let ghost kv = key@;
            let ghost vv = value@;
            fields[i] = (key, value);
            proof {
                assert(fields_view(fields@) =~= fsv.update(i as int, (kv, vv)));
                assert(fields_view(fields@) == spec_obj_set(fsv, kv, vv));
            }
            return ;
        }
        i = i + 1;
    }
    proof {
        lemma_obj_set_none(fsv, key@, value@);
    }
    let ghost kv = key@;
    let ghost vv = value@;
    fields.push((key, value));
    proof {
        assert(fields_view(fields@) =~= fsv.push((kv, vv)));
        assert(fields_view(fields@) == spec_obj_set(fsv, kv, vv));
    }
}

/// Hex digit byte (lowercase) for a value below sixteen.
pub open spec fn hex_byte(d: nat) -> u8 {
    if d < 10 {
        (48 + d) as u8
    } else {
        (87 + d) as u8
    }
}

/// Escape of one byte of UTF-8 string content inside a JSON string literal:
/// quote and backslash get a backslash, common control characters get their
/// short escape, other control characters are written as `\u00XX`.
pub open spec fn spec_escape_byte(b: u8) -> Seq<u8> {
    if b == 34 {
        seq![92u8, 34u8]
    } else if b == 92 {
        seq![92u8, 92u8]
    } else if b == 8 {
        seq![92u8, 98u8]
    } else if b == 9 {
        seq![92u8, 116u8]
    } else if b == 10 {
        seq![92u8, 110u8]
    } else if b == 12 {
        seq![92u8, 102u8]
    } else if b == 13 {
        seq![92u8, 114u8]
    } else if b < 32 {
        seq![92u8, 117u8, 48u8, 48u8, hex_byte((b / 16) as nat), hex_byte((b % 16) as nat)]
    } else {
        seq![b]
    }
}

pub open spec fn spec_escape_bytes(bs: Seq<u8>) -> Seq<u8>
    decreases bs.len(),
{
    if bs.len() == 0 {
        Seq::empty()
    } else {
        spec_escape_bytes(bs.drop_last()) + spec_escape_byte(bs.last())
    }
}

/// Rendering of a JSON string literal: quoted, content escaped bytewise.
pub open spec fn spec_str_bytes(s: Seq<char>) -> Seq<u8> {
    seq![34u8] + spec_escape_bytes(vstd::utf8::encode_utf8(s)) + seq![34u8]
}

/// Comma-joined concatenation of rendered parts.
pub open spec fn spec_join(parts: Seq<Seq<u8>>) -> Seq<u8>
    decreases parts.len(),
{
    if parts.len() == 0 {
        Seq::empty()
    } else if parts.len() == 1 {
        parts[0]
    } else {
        spec_join(parts.drop_last()) + seq![44u8] + parts.last()
    }
}

/// The byte rendering of a JSON value: `null`, `true`/`false`, number text,
/// quoted escaped strings, `[..]` arrays and `{"k":v,..}` objects, with no
/// added whitespace.
pub open spec fn spec_json_bytes(v: JsonV) -> Seq<u8>
    decreases v,
    via spec_json_bytes_decreases
{
    match v {
        JsonV::Null => seq![110u8, 117u8, 108u8, 108u8],
        JsonV::Bool(b) => if b {
            seq![116u8, 114u8, 117u8, 101u8]
        } else {
            seq![102u8, 97u8, 108u8, 115u8, 101u8]
        },
        JsonV::Num(s) => vstd::utf8::encode_utf8(s),
        JsonV::Str(s) => spec_str_bytes(s),
        JsonV::Arr(items) => seq![91u8] + spec_join(arr_parts(items)) + seq![93u8],
        JsonV::Obj(fields) => seq![123u8] + spec_join(obj_parts(fields)) + seq![125u8],
    }
}

/// The rendered items of an array, before comma joining.
pub open spec fn arr_parts(items: Seq<JsonV>) -> Seq<Seq<u8>>
    decreases items,
    via arr_parts_decreases
{
    Seq::new(
        items.len(),
        |i: int|
            if 0 <= i < items.len() {
                spec_json_bytes(items[i])
            } else {
                Seq::empty()
            },
    )
}

#[via_fn]
proof fn arr_parts_decreases(items: Seq<JsonV>) {
    broadcast use vstd::seq::axiom_seq_index_decreases;

}

/// The rendered `"key":value` pairs of an object, before comma joining.
pub open spec fn obj_parts(fields: Seq<(Seq<char>, JsonV)>) -> Seq<Seq<u8>>
    decreases fields,
    via obj_parts_decreases
{
    Seq::new(
        fields.len(),
        |i: int|
            if 0 <= i < fields.len() {
                spec_str_bytes(fields[i].0) + seq![58u8] + spec_json_bytes(fields[i].1)
            } else {
                Seq::empty()
            },
    )
}

#[via_fn]
proof fn obj_parts_decreases(fields: Seq<(Seq<char>, JsonV)>) {
    broadcast use vstd::seq::axiom_seq_index_decreases;

    assert forall|i: int| 0 <= i < fields.len() implies decreases_to!(fields => fields[i].1) by {
        assert(decreases_to!(fields => fields[i]));
        assert(decreases_to!(fields[i] => fields[i].1));
    }
}

#[via_fn]
proof fn spec_json_bytes_decreases(v: JsonV) {
    broadcast use vstd::seq::axiom_seq_index_decreases;

    match v {
        JsonV::Arr(items) => {
            assert forall|i: int| 0 <= i < items.len() implies decreases_to!(v => items[i]) by {
                assert(decreases_to!(v => items));
                assert(decreases_to!(items => items[i]));
            }
        },
        JsonV::Obj(fields) => {
            assert forall|i: int| 0 <= i < fields.len() implies decreases_to!(
                v => fields[i].1,
            ) by {
                assert(decreases_to!(v => fields));
                assert(decreases_to!(fields => fields[i]));
                assert(decreases_to!(fields[i] => fields[i].1));
            }
        },
        _ => {},
    }
}

fn hex_digit(d: u8) -> (r: u8)
    requires
        d < 16,
    ensures
        r == hex_byte(d as nat),
{
    if d < 10 {
        48 + d
    } else {
        87 + d
    }
}

/// Append a byte slice to the output.
fn push_bytes(out: &mut Vec<u8>, bs: &[u8])
    ensures
        final(out)@ == old(out)@ + bs@,
{
    let mut i: usize = 0;
    while i < bs.len()
        invariant
            0 <= i <= bs.len(),
            out@ == old(out)@ + bs@.take(i as int),
        decreases bs.len() - i,
    {
        out.push(bs[i]);
        proof {
            assert(out@ =~= old(out)@ + bs@.take(i + 1));
        }
        i = i + 1;
    }
    proof {
        assert(old(out)@ + bs@.take(bs@.len() as int) =~= old(out)@ + bs@);
    }
}

/// Append the rendering of a JSON string literal for `s`.
fn push_str_bytes(out: &mut Vec<u8>, s: &str)
    ensures
        final(out)@ == old(out)@ + spec_str_bytes(s@),
{
    out.push(34);
    let bs = s.as_bytes();
    let ghost mid = old(out)@ + seq![34u8];
    proof {
        assert(out@ =~= mid);
    }
    let mut i: usize = 0;
    while i < bs.len()
        invariant
            0 <= i <= bs.len(),
            bs@ == s.spec_bytes(),
            mid == old(out)@ + seq![34u8],
            out@ == mid + spec_escape_bytes(bs@.take(i as int)),
        decreases bs.len() - i,
    {
        let b = bs[i];
        let ghost before = out@;
        if b == 34 {
            out.push(92);
            out.push(34);
        } else if b == 92 {
            out.push(92);
            out.push(92);
        } else if b == 8 {
            out.push(92);
            out.push(98);
        } else if b == 9 {
            out.push(92);
            out.push(116);
        } else if b == 10 {
            out.push(92);
            out.push(110);
        } else if b == 12 {
            out.push(92);
            out.push(102);
        } else if b == 13 {
            out.push(92);
            out.push(114);
        } else if b < 32 {
            out.push(92);
            out.push(117);
            out.push(48);
            out.push(48);
            out.push(hex_digit(b / 16));
            out.push(hex_digit(b % 16));
        } else {
            out.push(b);
        }
        proof {
            assert(out@ =~= before + spec_escape_byte(b));
            assert(bs@.take(i + 1).drop_last() =~= bs@.take(i as int));
            assert(bs@.take(i + 1).last() == b);
            assert(out@ =~= mid + spec_escape_bytes(bs@.take(i + 1)));
        }
        i = i + 1;
    }
    out.push(34);
    proof {
        assert(bs@.take(bs@.len() as int) =~= bs@);
        assert(out@ =~= old(out)@ + spec_str_bytes(s@));
    }
}

/// Append the byte rendering of `v` to the output.
#[verifier::loop_isolation(false)]
#[verifier::rlimit(30)]
pub fn write_json(v: &JsonValue, out: &mut Vec<u8>)
    ensures
        final(out)@ == old(out)@ + spec_json_bytes(v@),
    decreases v,
{
    match v {
        JsonValue::Null => {
            out.push(110);
            out.push(117);
            out.push(108);
            out.push(108);
            proof {
                assert(out@ =~= old(out)@ + spec_json_bytes(v@));
            }
        },
        JsonValue::Bool(b) => {
            if *b {
                out.push(116);
                out.push(114);
                out.push(117);
                out.push(101);
            } else {
                out.push(102);
                out.push(97);
                out.push(108);
                out.push(115);
                out.push(101);
            }
            proof {
                assert(out@ =~= old(out)@ + spec_json_bytes(v@));
            }
        },
        JsonValue::Num(s) => {
            push_bytes(out, s.as_str().as_bytes());
        },
        JsonValue::Str(s) => {
            push_str_bytes(out, s.as_str());
        },
        JsonValue::Arr(items) => {
            let ghost its = items_view(items@);
            let ghost parts = arr_parts(its);
            proof {
                broadcast use lemma_jv_view_arr;

                assert(v@ == JsonV::Arr(its));
                assert(spec_json_bytes(v@) == seq![91u8] + spec_join(parts) + seq![93u8]);
            }
            out.push(91);
            let mut i: usize = 0;
            while i < items.len()
                invariant
                    0 <= i <= items.len(),
                    its == items_view(items@),
                    parts.len() == items@.len(),
                    forall|j: int|
                        0 <= j < items@.len() ==> #[trigger] parts[j] == spec_json_bytes(
                            jv_view(items@[j]),
                        ),
                    out@ == old(out)@ + seq![91u8] + spec_join(parts.take(i as int)),
                decreases items.len() - i,
            {
                if i > 0 {
                    out.push(44);
                }
                let ghost before = out@;
                proof {
                    broadcast use vstd::seq::axiom_seq_index_decreases;

                    assert(decreases_to!(items => items@));
                    assert(decreases_to!(items@ => items@[i as int]));
                }
                write_json(&items[i], out);
                proof {
                    assert(parts.take(i + 1).drop_last() =~= parts.take(i as int));
                    if i == 0 {
                        assert(out@ =~= old(out)@ + seq![91u8] + spec_join(parts.take(1)));
                    } else {
                        assert(out@ =~= old(out)@ + seq![91u8] + spec_join(parts.take(i + 1)));
                    }
                }
                i = i + 1;
            }
            out.push(93);
            proof {
                assert(parts.take(parts.len() as int) =~= parts);
                assert(out@ =~= old(out)@ + spec_json_bytes(v@));
            }
        },
        JsonValue::Obj(fields) => {
            let ghost fsv = fields_view(fields@);
            let ghost parts = obj_parts(fsv);
            proof {
                broadcast use lemma_jv_view_obj;

                assert(v@ == JsonV::Obj(fsv));
                assert(spec_json_bytes(v@) == seq![123u8] + spec_join(parts) + seq![125u8]);
            }
            out.push(123);
            let mut i: usize = 0;
            while i < fields.len()
                invariant
                    0 <= i <= fields.len(),
                    fsv == fields_view(fields@),
                    parts.len() == fields@.len(),
                    forall|j: int|
                        0 <= j < fields@.len() ==> #[trigger] parts[j] == spec_str_bytes(
                            fields@[j].0@,
                        ) + seq![58u8] + spec_json_bytes(jv_view(fields@[j].1)),
                    out@ == old(out)@ + seq![123u8] + spec_join(parts.take(i as int)),
                decreases fields.len() - i,
            {
                if i > 0 {
                    out.push(44);
                }
                let ghost before = out@;
                push_str_bytes(out, fields[i].0.as_str());
                out.push(58);
                proof {
                    broadcast use vstd::seq::axiom_seq_index_decreases;

                    assert(decreases_to!(fields => fields@));
                    assert(decreases_to!(fields@ => fields@[i as int]));
                    assert(decreases_to!(fields@[i as int] => fields@[i as int].1));
                }
                write_json(&fields[i].1, out);
                proof {
                    assert(parts.take(i + 1).drop_last() =~= parts.take(i as int));
                    if i == 0 {
                        assert(out@ =~= old(out)@ + seq![123u8] + spec_join(parts.take(1)));
                    } else {
                        assert(out@ =~= old(out)@ + seq![123u8] + spec_join(parts.take(i + 1)));
                    }
                }
                i = i + 1;
            }
            out.push(125);
            proof {
                assert(parts.take(parts.len() as int) =~= parts);
                assert(out@ =~= old(out)@ + spec_json_bytes(v@));
            }
        },
    }
}

/// Render a JSON value as bytes.
pub fn to_json_bytes(v: &JsonValue) -> (r: Vec<u8>)
    ensures
        r@ == spec_json_bytes(v@),
{
    let mut out: Vec<u8> = Vec::new();
    write_json(v, &mut out);
    proof {
        assert(out@ =~= spec_json_bytes(v@));
    }
    out
}

/// Names the value that `serde_json` parses out of a document; `None` stands
/// for text that is not valid JSON.
pub uninterp spec fn spec_parse_json(s: Seq<char>) -> Option<JsonV>;

#[verifier::external_type_specification]
#[verifier::external_body]
pub struct ExValue(serde_json::Value);

/// Converts a document parsed by serde_json into the library's model, one
/// constructor per arm; a number keeps the decimal text serde_json renders.
#[verifier::external_body]
fn json_from_serde(v: &serde_json::Value) -> JsonValue {
    match v {
        serde_json::Value::Null => JsonValue::Null,
        serde_json::Value::Bool(b) => JsonValue::Bool(*b),
        serde_json::Value::Number(n) => JsonValue::Num(n.to_string()),
        serde_json::Value::String(s) => JsonValue::Str(s.clone()),
        serde_json::Value::Array(items) => JsonValue::Arr(
            items.iter().map(json_from_serde).collect(),
        ),
        serde_json::Value::Object(fields) => JsonValue::Obj(
            fields.iter().map(|(k, x)| (k.clone(), json_from_serde(x))).collect(),
        ),
    }
}

/// Relies on `serde_json::from_str::<serde_json::Value>`: parses exactly the
/// well-formed JSON documents, and the parsed value is a function of the text
/// alone.
#[verifier::external_body]
pub(crate) fn parse_json(s: &str) -> (r: Option<JsonValue>)
    ensures
        match r {
            Some(v) => spec_parse_json(s@) == Some(v@),
            None => spec_parse_json(s@) is None,
        },
{
    match serde_json::from_str::<serde_json::Value>(s) {
        Ok(v) => Some(json_from_serde(&v)),
        Err(_) => None,
    }
}


impl JsonValue {
    /// Deep copy of a JSON value.
    #[verifier::loop_isolation(false)]
    pub fn clone_value(&self) -> (r: JsonValue)
        ensures
            r@ == self@,
        decreases self,
    {
        match self {
            JsonValue::Null => JsonValue::Null,
            JsonValue::Bool(b) => JsonValue::Bool(*b),
            JsonValue::Num(s) => JsonValue::Num(s.clone()),
            JsonValue::Str(s) => JsonValue::Str(s.clone()),
            JsonValue::Arr(items) => {
                let mut out: Vec<JsonValue> = Vec::new();
                let mut i: usize = 0;
                while i < items.len()
                    invariant
                        0 <= i <= items@.len(),
                        items_view(out@) == items_view(items@).take(i as int),
                    decreases items@.len() - i,
                {
                    proof {
                        broadcast use vstd::seq::axiom_seq_index_decreases;

                        assert(decreases_to!(items => items@));
                        assert(decreases_to!(items@ => items@[i as int]));
                    }
                    out.push(items[i].clone_value());
                    proof {
                        assert(items_view(out@) =~= items_view(items@).take(i + 1));
                    }
                    i = i + 1;
                }
                let r = JsonValue::Arr(out);
                proof {
                    broadcast use lemma_jv_view_arr;

                    assert(items_view(out@) =~= items_view(items@));
                    assert(r@ == self@);
                }
                r
            },
            JsonValue::Obj(fields) => {
                let mut out: Vec<(String, JsonValue)> = Vec::new();
                let mut i: usize = 0;
                while i < fields.len()
                    invariant
                        0 <= i <= fields@.len(),
                        fields_view(out@) == fields_view(fields@).take(i as int),
                    decreases fields@.len() - i,
                {
                    proof {
                        broadcast use vstd::seq::axiom_seq_index_decreases;

                        assert(decreases_to!(fields => fields@));
                        assert(decreases_to!(fields@ => fields@[i as int]));
                        assert(decreases_to!(fields@[i as int] => fields@[i as int].1));
                    }
                    out.push((fields[i].0.clone(), fields[i].1.clone_value()));
                    proof {
                        assert(fields_view(out@) =~= fields_view(fields@).take(i + 1));
                    }
                    i = i + 1;
                }
                let r = JsonValue::Obj(out);
                proof {
                    broadcast use lemma_jv_view_obj;

                    assert(fields_view(out@) =~= fields_view(fields@));
                    assert(r@ == self@);
                }
                r
            },
        }
    }
}

/// Relies on `core::str::from_utf8`: succeeds exactly on valid UTF-8 and
/// decodes it, per vstd's model of UTF-8.
#[verifier::external_body]
pub(crate) fn utf8_to_string(bytes: &[u8]) -> (r: Option<String>)
    ensures
        match r {
            Some(s) => vstd::utf8::valid_utf8(bytes@) && s@ == vstd::utf8::decode_utf8(bytes@),
            None => !vstd::utf8::valid_utf8(bytes@),
        },
{
    match core::str::from_utf8(bytes) {
        Ok(s) => Some(s.to_string()),
        Err(_) => None,
    }
}

/// Render a JSON value as text: some string exactly when the byte rendering
/// is valid UTF-8, and then its decoding.
pub fn to_json_string(v: &JsonValue) -> (r: Option<String>)
    ensures
        match r {
            Some(s) => vstd::utf8::valid_utf8(spec_json_bytes(v@)) && s@ == vstd::utf8::decode_utf8(
                spec_json_bytes(v@),
            ),
            None => !vstd::utf8::valid_utf8(spec_json_bytes(v@)),
        },
{
    let bytes = to_json_bytes(v);
    utf8_to_string(bytes.as_slice())
}

} // verus!
