//! The canonical query string: the exact text of a call's parameters, which is
//! both transmitted and signed.
//!
//! A parameter value is an ordered list of fields. A field that has no value
//! is left out altogether; every other field becomes `key=value`, and the
//! pairs are joined with `&` in the order of the fields. Keys and values are
//! written in the form encoding of URL queries.

use vstd::prelude::*;
use vstd::string::*;
use vstd::utf8::*;
use crate::text::{append_decimal, append_signed_decimal, decimal, push_char, signed_decimal};

verus! {

/// A scalar that a field can hold.
#[derive(Debug, Clone)]
pub enum QueryValue {
    /// A signed integer, written in decimal.
    Int(i64),
    /// An unsigned integer, written in decimal.
    Uint(u64),
    /// A truth value, written `true` or `false`.
    Bool(bool),
    /// A piece of text.
    Text(String),
}

/// One step from the key of a field down to a value inside it: a position in
/// a list, or the name of a field of a record.
#[derive(Debug, Clone)]
pub enum KeyPart {
    Position(usize),
    Name(String),
}

/// One named field of a parameter value; `value` is `None` when the caller
/// left the field out. A value inside a list or a record carries in `path`
/// the steps that lead to it, and is written under the key followed by each
/// step in square brackets: `key[0]`, `key[0][name]`.
#[derive(Debug, Clone)]
pub struct QueryField {
    pub key: String,
    pub path: Vec<KeyPart>,
    pub value: Option<QueryValue>,
}

/// The mathematical content of a [`QueryValue`].
pub enum ValueModel {
    Number(int),
    Flag(bool),
    Text(Seq<char>),
}

/// The mathematical content of a [`KeyPart`].
pub enum PartModel {
    Position(nat),
    Name(Seq<char>),
}

/// The mathematical content of a [`QueryField`].
pub struct FieldModel {
    pub key: Seq<char>,
    pub path: Seq<PartModel>,
    pub value: Option<ValueModel>,
}

/// A field that has a value: what one `key=value` pair is made from.
pub struct PairModel {
    pub key: Seq<char>,
    pub path: Seq<PartModel>,
    pub value: ValueModel,
}

impl View for KeyPart {
    type V = PartModel;

    open spec fn view(&self) -> PartModel {
        match self {
            KeyPart::Position(n) => PartModel::Position(*n as nat),
            KeyPart::Name(s) => PartModel::Name(s@),
        }
    }
}

/// The models of the steps of a path, in order.
pub open spec fn part_models(parts: Seq<KeyPart>) -> Seq<PartModel> {
    Seq::new(parts.len(), |i: int| parts[i]@)
}

impl View for QueryValue {
    type V = ValueModel;

    open spec fn view(&self) -> ValueModel {
        match self {
            QueryValue::Int(n) => ValueModel::Number(*n as int),
            QueryValue::Uint(n) => ValueModel::Number(*n as int),
            QueryValue::Bool(b) => ValueModel::Flag(*b),
            QueryValue::Text(s) => ValueModel::Text(s@),
        }
    }
}

impl View for QueryField {
    type V = FieldModel;

    open spec fn view(&self) -> FieldModel {
        FieldModel {
            key: self.key@,
            path: part_models(self.path@),
            value: match self.value {
                Some(v) => Some(v@),
                None => None,
            },
        }
    }
}

/// The models of a list of fields, in order.
pub open spec fn field_models(fields: Seq<QueryField>) -> Seq<FieldModel> {
    Seq::new(fields.len(), |i: int| fields[i]@)
}

/// Whether a byte stands for itself in the form encoding: the ASCII letters
/// and digits and `*`, `-`, `.`, `_`.
pub open spec fn is_plain_byte(b: u8) -> bool {
    ||| 0x30 <= b <= 0x39
    ||| 0x41 <= b <= 0x5a
    ||| 0x61 <= b <= 0x7a
    ||| b == 0x2a
    ||| b == 0x2d
    ||| b == 0x2e
    ||| b == 0x5f
}

/// The upper-case hexadecimal digit for a value below 16.
pub open spec fn upper_hex_digit(n: nat) -> char
    recommends
        n < 16,
{
    if n < 10 {
        ((0x30 + n) as u8) as char
    } else {
        ((0x41 + n - 10) as u8) as char
    }
}

/// The form encoding of one byte: itself when plain, `+` for a space, and
/// otherwise `%` followed by its two upper-case hexadecimal digits.
pub open spec fn form_encode_byte(b: u8) -> Seq<char> {
    if is_plain_byte(b) {
        seq![b as char]
    } else if b == 0x20 {
        seq!['+']
    } else {
        seq!['%', upper_hex_digit((b / 16) as nat), upper_hex_digit((b % 16) as nat)]
    }
}

/// The form encoding of a byte string: the encodings of its bytes, in order.
pub open spec fn form_encode(bytes: Seq<u8>) -> Seq<char>
    decreases bytes.len(),
{
    if bytes.len() == 0 {
        Seq::empty()
    } else {
        form_encode(bytes.drop_last()) + form_encode_byte(bytes.last())
    }
}

/// The text of a scalar before it is encoded.
pub open spec fn value_text(v: ValueModel) -> Seq<char> {
    match v {
        ValueModel::Number(n) => signed_decimal(n),
        ValueModel::Flag(b) => if b {
            "true"@
        } else {
            "false"@
        },
        ValueModel::Text(s) => s,
    }
}

/// The text of one step of a path: a position in decimal, a name in the form
/// encoding of its UTF-8 bytes.
pub open spec fn part_text(part: PartModel) -> Seq<char> {
    match part {
        PartModel::Position(n) => decimal(n),
        PartModel::Name(s) => form_encode(encode_utf8(s)),
    }
}

/// The text of a path: each step in square brackets, in order.
pub open spec fn path_text(path: Seq<PartModel>) -> Seq<char>
    decreases path.len(),
{
    if path.len() == 0 {
        Seq::empty()
    } else {
        path_text(path.drop_last()).push('[') + part_text(path.last()) + seq![']']
    }
}

/// The left side of a pair: the key in the form encoding of its UTF-8 bytes,
/// followed by the text of the path.
pub open spec fn key_text(key: Seq<char>, path: Seq<PartModel>) -> Seq<char> {
    form_encode(encode_utf8(key)) + path_text(path)
}

/// One `key=value` pair; the value is written in the form encoding of the
/// UTF-8 bytes of its text.
pub open spec fn pair_text(pair: PairModel) -> Seq<char> {
    key_text(pair.key, pair.path).push('=') + form_encode(encode_utf8(value_text(pair.value)))
}

/// The pairs that a list of fields contributes: one for each field that has a
/// value, in the order of the fields.
pub open spec fn present_pairs(fields: Seq<FieldModel>) -> Seq<PairModel>
    decreases fields.len(),
{
    if fields.len() == 0 {
        Seq::empty()
    } else {
        let before = present_pairs(fields.drop_last());
        let field = fields.last();
        match field.value {
            Some(v) => before.push(PairModel { key: field.key, path: field.path, value: v }),
            None => before,
        }
    }
}

/// The given pairs as text, joined with `&`.
pub open spec fn join_pairs(pairs: Seq<PairModel>) -> Seq<char>
    decreases pairs.len(),
{
    if pairs.len() == 0 {
        Seq::empty()
    } else if pairs.len() == 1 {
        pair_text(pairs[0])
    } else {
        join_pairs(pairs.drop_last()).push('&') + pair_text(pairs.last())
    }
}

/// The canonical query string of a list of fields.
pub open spec fn canonical(fields: Seq<FieldModel>) -> Seq<char> {
    join_pairs(present_pairs(fields))
}

/// Appends the form encoding of the UTF-8 bytes of `text` to `out`.
pub fn append_form_encoded(out: &mut String, text: &str)
    ensures
        final(out)@ == old(out)@ + form_encode(encode_utf8(text@)),
{
    let bytes = text.as_bytes();
    let mut i: usize = 0;
    while i < bytes.len()
        invariant
            i <= bytes.len(),
            bytes@ == encode_utf8(text@),
            out@ == old(out)@ + form_encode(bytes@.take(i as int)),
        decreases bytes.len() - i,
    {
        let b: u8 = bytes[i];
        if (0x30 <= b && b <= 0x39) || (0x41 <= b && b <= 0x5a) || (0x61 <= b && b <= 0x7a) || b
            == 0x2a || b == 0x2d || b == 0x2e || b == 0x5f {
            push_char(out, b as char);
        } else if b == 0x20 {
            push_char(out, '+');
        } else {
            push_char(out, '%');
            push_char(out, upper_hex(b / 16));
            push_char(out, upper_hex(b % 16));
        }
        proof {
            assert(bytes@.take(i + 1).drop_last() =~= bytes@.take(i as int));
        }
        i += 1;
    }
    proof {
        assert(bytes@.take(i as int) =~= bytes@);
    }
}

/// The upper-case hexadecimal digit for a value below 16.
fn upper_hex(n: u8) -> (c: char)
    requires
        n < 16,
    ensures
        c == upper_hex_digit(n as nat),
{
    if n < 10 {
        (0x30u8 + n) as char
    } else {
        (0x41u8 + n - 10) as char
    }
}

/// Appends the unencoded text of a scalar, form-encoded, to `out`.
fn append_value(out: &mut String, value: &QueryValue)
    ensures
        final(out)@ == old(out)@ + form_encode(encode_utf8(value_text(value@))),
{
    let mut raw = String::new();
    match value {
        QueryValue::Int(n) => {
            append_signed_decimal(&mut raw, *n);
        },
        QueryValue::Uint(n) => {
            append_decimal(&mut raw, *n);
        },
        QueryValue::Bool(b) => {
            if *b {
                raw.append("true");
            } else {
                raw.append("false");
            }
        },
        QueryValue::Text(s) => {
            raw.append(s.as_str());
        },
    }
    append_form_encoded(out, raw.as_str());
}

/// Taking one more field either adds its pair or, when it has no value,
/// changes nothing.
pub proof fn lemma_present_pairs_step(fields: Seq<FieldModel>, i: int)
    requires
        0 <= i < fields.len(),
    ensures
        present_pairs(fields.take(i + 1)) == match fields[i].value {
            Some(v) => present_pairs(fields.take(i)).push(
                PairModel { key: fields[i].key, path: fields[i].path, value: v },
            ),
            None => present_pairs(fields.take(i)),
        },
{
    assert(fields.take(i + 1).drop_last() =~= fields.take(i));
}

/// Joining one more pair appends `&` and the pair, or the pair alone when it
/// is the first.
pub proof fn lemma_join_pairs_push(pairs: Seq<PairModel>, pair: PairModel)
    ensures
        join_pairs(pairs.push(pair)) == if pairs.len() == 0 {
            pair_text(pair)
        } else {
            join_pairs(pairs).push('&') + pair_text(pair)
        },
{
    assert(pairs.push(pair).drop_last() =~= pairs);
}

/// A field without a value contributes nothing: when every field under a key
/// is absent, no pair of the canonical query string is made from that key.
pub proof fn lemma_absent_key_has_no_pair(fields: Seq<FieldModel>, key: Seq<char>)
    requires
        forall|i: int| 0 <= i < fields.len() && fields[i].key == key ==> fields[i].value is None,
    ensures
        forall|j: int|
            0 <= j < present_pairs(fields).len() ==> (#[trigger] present_pairs(fields)[j]).key
                != key,
    decreases fields.len(),
{
    if fields.len() > 0 {
        let rest = fields.drop_last();
        assert forall|i: int| 0 <= i < rest.len() && rest[i].key == key implies rest[i].value
            is None by {
        }
        lemma_absent_key_has_no_pair(rest, key);
    }
}

/// A field without a value is left out altogether: the canonical query string
/// is the same as if the field were not there.
pub proof fn lemma_absent_field_is_omitted(fields: Seq<FieldModel>, i: int)
    requires
        0 <= i < fields.len(),
        fields[i].value is None,
    ensures
        present_pairs(fields.remove(i)) == present_pairs(fields),
        canonical(fields.remove(i)) == canonical(fields),
    decreases fields.len(),
{
    if i == fields.len() - 1 {
    } else {
        let rest = fields.drop_last();
        assert(fields.remove(i).drop_last() =~= rest.remove(i));
        lemma_absent_field_is_omitted(rest, i);
    }
}

/// Appends the text of a path to `out`.
pub fn append_path(out: &mut String, path: &Vec<KeyPart>)
    ensures
        final(out)@ == old(out)@ + path_text(part_models(path@)),
{
    let ghost parts = part_models(path@);
    let mut i: usize = 0;
    while i < path.len()
        invariant
            i <= path.len(),
            parts == part_models(path@),
            out@ == old(out)@ + path_text(parts.take(i as int)),
        decreases path.len() - i,
    {
        push_char(out, '[');
        match &path[i] {
            KeyPart::Position(n) => {
                append_decimal(out, *n as u64);
            },
            KeyPart::Name(s) => {
                append_form_encoded(out, s.as_str());
            },
        }
        push_char(out, ']');
        proof {
            assert(parts.take(i + 1).drop_last() =~= parts.take(i as int));
        }
        i += 1;
    }
    proof {
        assert(parts.take(i as int) =~= parts);
    }
}

/// Renders the canonical query string of a parameter value: the pairs of the
/// fields that have a value, in the order of the fields, joined with `&`. The
/// result is empty when no field has a value.
pub fn canonical_query(fields: &Vec<QueryField>) -> (query: String)
    ensures
        query@ == canonical(field_models(fields@)),
{
    let mut out = String::new();
    let mut first = true;
    let mut i: usize = 0;
    let ghost models = field_models(fields@);
    while i < fields.len()
        invariant
            i <= fields.len(),
            models == field_models(fields@),
            out@ == canonical(models.take(i as int)),
            first == (present_pairs(models.take(i as int)).len() == 0),
        decreases fields.len() - i,
    {
        let field = &fields[i];
        proof {
            lemma_present_pairs_step(models, i as int);
        }
        match &field.value {
            Some(v) => {
                let ghost pair = PairModel {
                    key: field@.key,
                    path: field@.path,
                    value: v@,
                };
                proof {
                    lemma_join_pairs_push(present_pairs(models.take(i as int)), pair);
                }
                if !first {
                    push_char(&mut out, '&');
                }
                append_form_encoded(&mut out, field.key.as_str());
                append_path(&mut out, &field.path);
                push_char(&mut out, '=');
                append_value(&mut out, v);
                first = false;
            },
            None => {},
        }
        i += 1;
    }
    proof {
        assert(models.take(i as int) =~= models);
    }
    out
}

/// The model of a field that holds text.
pub open spec fn text_field(key: Seq<char>, value: Seq<char>) -> FieldModel {
    FieldModel { key, path: Seq::empty(), value: Some(ValueModel::Text(value)) }
}

/// The model of a field that may hold text.
pub open spec fn opt_text_field(key: Seq<char>, value: Option<Seq<char>>) -> FieldModel {
    FieldModel {
        key,
        path: Seq::empty(),
        value: match value {
            Some(s) => Some(ValueModel::Text(s)),
            None => None,
        },
    }
}

/// The view of a string that may be absent.
pub open spec fn opt_string_view(value: Option<String>) -> Option<Seq<char>> {
    match value {
        Some(s) => Some(s@),
        None => None,
    }
}

/// The model of a field that holds an integer.
pub open spec fn number_field(key: Seq<char>, value: int) -> FieldModel {
    FieldModel { key, path: Seq::empty(), value: Some(ValueModel::Number(value)) }
}

/// The model of a field that may hold an integer.
pub open spec fn opt_number_field(key: Seq<char>, value: Option<int>) -> FieldModel {
    FieldModel {
        key,
        path: Seq::empty(),
        value: match value {
            Some(n) => Some(ValueModel::Number(n)),
            None => None,
        },
    }
}

/// The model of a field that holds a truth value.
pub open spec fn flag_field(key: Seq<char>, value: bool) -> FieldModel {
    FieldModel { key, path: Seq::empty(), value: Some(ValueModel::Flag(value)) }
}

/// The model of a field that may hold a truth value.
pub open spec fn opt_flag_field(key: Seq<char>, value: Option<bool>) -> FieldModel {
    FieldModel {
        key,
        path: Seq::empty(),
        value: match value {
            Some(b) => Some(ValueModel::Flag(b)),
            None => None,
        },
    }
}

/// The models of the elements of a list of integers under one key.
pub open spec fn number_items(key: Seq<char>, items: Seq<int>) -> Seq<FieldModel> {
    Seq::new(
        items.len(),
        |i: int|
            FieldModel {
                key,
                path: seq![PartModel::Position(i as nat)],
                value: Some(ValueModel::Number(items[i])),
            },
    )
}

/// The models of the elements of a list of texts under one key.
pub open spec fn text_items(key: Seq<char>, items: Seq<Seq<char>>) -> Seq<FieldModel> {
    Seq::new(
        items.len(),
        |i: int|
            FieldModel {
                key,
                path: seq![PartModel::Position(i as nat)],
                value: Some(ValueModel::Text(items[i])),
            },
    )
}

/// The values of a list of machine integers.
pub open spec fn usize_values(items: Seq<usize>) -> Seq<int> {
    Seq::new(items.len(), |i: int| items[i] as int)
}

/// The views of a list of strings.
pub open spec fn string_views(items: Seq<String>) -> Seq<Seq<char>> {
    Seq::new(items.len(), |i: int| items[i]@)
}

impl QueryField {
    /// A field directly under its key, with or without a value.
    pub fn plain(key: &str, value: Option<QueryValue>) -> (f: QueryField)
        ensures
            f@ == (FieldModel {
                key: key@,
                path: Seq::empty(),
                value: match value {
                    Some(v) => Some(v@),
                    None => None,
                },
            }),
    {
        let f = QueryField { key: String::from_str(key), path: Vec::new(), value };
        proof {
            assert(f@.path =~= Seq::<PartModel>::empty());
        }
        f
    }

    /// An element of a list-valued field, at its position.
    pub fn item(key: &str, position: usize, value: QueryValue) -> (f: QueryField)
        ensures
            f@ == (FieldModel {
                key: key@,
                path: seq![PartModel::Position(position as nat)],
                value: Some(value@),
            }),
    {
        let mut path: Vec<KeyPart> = Vec::new();
        path.push(KeyPart::Position(position));
        let f = QueryField { key: String::from_str(key), path, value: Some(value) };
        proof {
            assert(f@.path =~= seq![PartModel::Position(position as nat)]);
        }
        f
    }

    /// A field that holds text.
    pub fn text(key: &str, value: &str) -> (f: QueryField)
        ensures
            f@ == text_field(key@, value@),
    {
        QueryField::plain(key, Some(QueryValue::Text(String::from_str(value))))
    }

    /// A field that may hold text.
    pub fn opt_text(key: &str, value: Option<&str>) -> (f: QueryField)
        ensures
            f@ == opt_text_field(
                key@,
                match value {
                    Some(s) => Some(s@),
                    None => None,
                },
            ),
    {
        QueryField::plain(
            key,
            match value {
                Some(s) => Some(QueryValue::Text(String::from_str(s))),
                None => None,
            },
        )
    }

    /// A field that may hold text, from an owned value.
    pub fn opt_string(key: &str, value: &Option<String>) -> (f: QueryField)
        ensures
            f@ == opt_text_field(key@, opt_string_view(*value)),
    {
        QueryField::plain(
            key,
            match value {
                Some(s) => Some(QueryValue::Text(s.clone())),
                None => None,
            },
        )
    }

    /// A field that holds a signed integer.
    pub fn signed(key: &str, value: i64) -> (f: QueryField)
        ensures
            f@ == number_field(key@, value as int),
    {
        QueryField::plain(key, Some(QueryValue::Int(value)))
    }

    /// A field that may hold a signed integer.
    pub fn opt_signed(key: &str, value: Option<i64>) -> (f: QueryField)
        ensures
            f@ == opt_number_field(
                key@,
                match value {
                    Some(n) => Some(n as int),
                    None => None,
                },
            ),
    {
        QueryField::plain(
            key,
            match value {
                Some(n) => Some(QueryValue::Int(n)),
                None => None,
            },
        )
    }

    /// A field that holds an unsigned integer.
    pub fn unsigned(key: &str, value: usize) -> (f: QueryField)
        ensures
            f@ == number_field(key@, value as int),
    {
        QueryField::plain(key, Some(QueryValue::Uint(value as u64)))
    }

    /// A field that may hold an unsigned integer.
    pub fn opt_unsigned(key: &str, value: Option<usize>) -> (f: QueryField)
        ensures
            f@ == opt_number_field(
                key@,
                match value {
                    Some(n) => Some(n as int),
                    None => None,
                },
            ),
    {
        QueryField::plain(
            key,
            match value {
                Some(n) => Some(QueryValue::Uint(n as u64)),
                None => None,
            },
        )
    }

    /// A field that holds a truth value.
    pub fn flag(key: &str, value: bool) -> (f: QueryField)
        ensures
            f@ == flag_field(key@, value),
    {
        QueryField::plain(key, Some(QueryValue::Bool(value)))
    }

    /// A field that may hold a truth value.
    pub fn opt_flag(key: &str, value: Option<bool>) -> (f: QueryField)
        ensures
            f@ == opt_flag_field(key@, value),
    {
        QueryField::plain(
            key,
            match value {
                Some(b) => Some(QueryValue::Bool(b)),
                None => None,
            },
        )
    }
}

/// Appends one field to a list of fields.
pub fn push_field(fields: &mut Vec<QueryField>, field: QueryField)
    ensures
        field_models(final(fields)@) == field_models(old(fields)@).push(field@),
{
    fields.push(field);
}

/// Appends the elements of a list of integers, each under `key` and its
/// position.
pub fn push_uint_items(fields: &mut Vec<QueryField>, key: &str, items: &Vec<usize>)
    ensures
        field_models(final(fields)@) == field_models(old(fields)@) + number_items(
            key@,
            usize_values(items@),
        ),
{
    let ghost all = number_items(key@, usize_values(items@));
    let mut i: usize = 0;
    while i < items.len()
        invariant
            i <= items.len(),
            all == number_items(key@, usize_values(items@)),
            field_models(fields@) == field_models(old(fields)@) + all.take(i as int),
        decreases items.len() - i,
    {
        let field = QueryField::item(key, i, QueryValue::Uint(items[i] as u64));
        push_field(fields, field);
        i += 1;
    }
}

/// Appends the elements of a list of texts, each under `key` and its
/// position.
pub fn push_text_items(fields: &mut Vec<QueryField>, key: &str, items: &Vec<String>)
    ensures
        field_models(final(fields)@) == field_models(old(fields)@) + text_items(
            key@,
            string_views(items@),
        ),
{
    let ghost all = text_items(key@, string_views(items@));
    let mut i: usize = 0;
    while i < items.len()
        invariant
            i <= items.len(),
            all == text_items(key@, string_views(items@)),
            field_models(fields@) == field_models(old(fields)@) + all.take(i as int),
        decreases items.len() - i,
    {
        let field = QueryField::item(key, i, QueryValue::Text(items[i].clone()));
        push_field(fields, field);
        i += 1;
    }
}

/// The model of a field of a record that is an element of a list: the key of
/// the list, then the position of the record and the name of the field, then
/// whatever led further down inside the field.
pub open spec fn nested_field(key: Seq<char>, position: nat, field: FieldModel) -> FieldModel {
    FieldModel {
        key,
        path: seq![PartModel::Position(position), PartModel::Name(field.key)] + field.path,
        value: field.value,
    }
}

/// The models of the fields of one record of a list, in order.
pub open spec fn nested_record(key: Seq<char>, position: nat, fields: Seq<FieldModel>) -> Seq<
    FieldModel,
> {
    Seq::new(fields.len(), |j: int| nested_field(key, position, fields[j]))
}

/// The models of the fields of the records of a list: record after record,
/// each with its fields in order.
pub open spec fn nested_records(key: Seq<char>, records: Seq<Seq<FieldModel>>) -> Seq<FieldModel>
    decreases records.len(),
{
    if records.len() == 0 {
        Seq::empty()
    } else {
        nested_records(key, records.drop_last()) + nested_record(
            key,
            (records.len() - 1) as nat,
            records.last(),
        )
    }
}

/// A copy of a scalar.
pub fn copy_value(value: &QueryValue) -> (c: QueryValue)
    ensures
        c@ == value@,
{
    match value {
        QueryValue::Int(n) => QueryValue::Int(*n),
        QueryValue::Uint(n) => QueryValue::Uint(*n),
        QueryValue::Bool(b) => QueryValue::Bool(*b),
        QueryValue::Text(s) => QueryValue::Text(s.clone()),
    }
}

/// The field of a record that is an element of a list under `key`.
pub fn nest(key: &str, position: usize, field: &QueryField) -> (f: QueryField)
    ensures
        f@ == nested_field(key@, position as nat, field@),
{
    let mut path: Vec<KeyPart> = Vec::new();
    path.push(KeyPart::Position(position));
    path.push(KeyPart::Name(field.key.clone()));
    let ghost head = seq![PartModel::Position(position as nat), PartModel::Name(field.key@)];
    let ghost inner = part_models(field.path@);
    let mut i: usize = 0;
    while i < field.path.len()
        invariant
            i <= field.path.len(),
            inner == part_models(field.path@),
            part_models(path@) == head + inner.take(i as int),
        decreases field.path.len() - i,
    {
        let ghost before = part_models(path@);
        let part = match &field.path[i] {
            KeyPart::Position(n) => KeyPart::Position(*n),
            KeyPart::Name(s) => KeyPart::Name(s.clone()),
        };
        path.push(part);
        proof {
            assert(part_models(path@) =~= before.push(inner[i as int]));
        }
        i += 1;
    }
    proof {
        assert(inner.take(i as int) =~= inner);
    }
    let value = match &field.value {
        Some(v) => Some(copy_value(v)),
        None => None,
    };
    QueryField { key: String::from_str(key), path, value }
}

/// Appends the fields of one record of a list under `key`.
pub fn push_record(
    fields: &mut Vec<QueryField>,
    key: &str,
    position: usize,
    record: &Vec<QueryField>,
)
    ensures
        field_models(final(fields)@) == field_models(old(fields)@) + nested_record(
            key@,
            position as nat,
            field_models(record@),
        ),
{
    let ghost all = nested_record(key@, position as nat, field_models(record@));
    let mut i: usize = 0;
    while i < record.len()
        invariant
            i <= record.len(),
            all == nested_record(key@, position as nat, field_models(record@)),
            field_models(fields@) == field_models(old(fields)@) + all.take(i as int),
        decreases record.len() - i,
    {
        let field = nest(key, position, &record[i]);
        push_field(fields, field);
        i += 1;
    }
}

/// A parameter value: anything that lists its fields in a fixed order.
pub trait QueryParams {
    /// The fields of this value, in the order in which they are written.
    spec fn spec_fields(&self) -> Seq<FieldModel>;

    /// Lists the fields of this value.
    fn fields(&self) -> (v: Vec<QueryField>)
        ensures
            field_models(v@) == self.spec_fields(),
    ;
}

/// The fields of each of a list of parameter values.
pub open spec fn record_fields<P: QueryParams>(records: Seq<P>) -> Seq<Seq<FieldModel>> {
    Seq::new(records.len(), |i: int| records[i].spec_fields())
}

/// Appends the fields of a list of parameter values under `key`: each value
/// as a record at its position.
pub fn push_records<P: QueryParams>(fields: &mut Vec<QueryField>, key: &str, records: &Vec<P>)
    ensures
        field_models(final(fields)@) == field_models(old(fields)@) + nested_records(
            key@,
            record_fields(records@),
        ),
{
    let ghost all = record_fields(records@);
    let mut i: usize = 0;
    while i < records.len()
        invariant
            i <= records.len(),
            all == record_fields(records@),
            field_models(fields@) == field_models(old(fields)@) + nested_records(
                key@,
                all.take(i as int),
            ),
        decreases records.len() - i,
    {
        let record = records[i].fields();
        proof {
            assert(all.take(i + 1).drop_last() =~= all.take(i as int));
        }
        push_record(fields, key, i, &record);
        i += 1;
    }
    proof {
        assert(all.take(i as int) =~= all);
    }
}

/// The canonical query string of a parameter value.
pub fn to_query<P: QueryParams>(params: &P) -> (query: String)
    ensures
        query@ == canonical(params.spec_fields()),
{
    let fields = params.fields();
    canonical_query(&fields)
}

/// Whether a character can occur in form-encoded text: the ASCII letters and
/// digits and `*`, `-`, `.`, `_`, `+`, `%`.
pub open spec fn is_encoded_char(c: char) -> bool {
    ||| '0' <= c <= '9'
    ||| 'A' <= c <= 'Z'
    ||| 'a' <= c <= 'z'
    ||| c == '*'
    ||| c == '-'
    ||| c == '.'
    ||| c == '_'
    ||| c == '+'
    ||| c == '%'
}

/// Form-encoded text holds none of the characters that structure a query
/// string: whatever the bytes, their encoding has no `&`, `=`, `[` or `]`, so
/// the pairs of a canonical query string and the two sides of each pair can
/// always be told apart.
pub proof fn lemma_form_encode_is_safe(bytes: Seq<u8>)
    ensures
        forall|i: int|
            0 <= i < form_encode(bytes).len() ==> is_encoded_char(#[trigger] form_encode(bytes)[i]),
        forall|i: int|
            0 <= i < form_encode(bytes).len() ==> {
                let c = #[trigger] form_encode(bytes)[i];
                c != '&' && c != '=' && c != '[' && c != ']'
            },
    decreases bytes.len(),
{
    if bytes.len() > 0 {
        lemma_form_encode_is_safe(bytes.drop_last());
        let head = form_encode(bytes.drop_last());
        let tail = form_encode_byte(bytes.last());
        assert forall|k: int| 0 <= k < tail.len() implies is_encoded_char(#[trigger] tail[k]) by {}
        assert forall|i: int| 0 <= i < form_encode(bytes).len() implies is_encoded_char(
            #[trigger] form_encode(bytes)[i],
        ) by {
            if i >= head.len() {
            }
        }
    }
}

} // verus!
