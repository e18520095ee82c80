//! The canonical query string can be taken apart again: it splits at `&`
//! into exactly the pairs it was made from, and the key of a pair can be read
//! off its text. This is what lets the exchange rebuild the signed text.

use vstd::prelude::*;
use vstd::utf8::*;
use crate::numeral::lemma_decimal_digits;
use crate::query::{
    canonical, form_encode, form_encode_byte, is_encoded_char, is_plain_byte, join_pairs,
    key_text, lemma_absent_key_has_no_pair, lemma_form_encode_is_safe, pair_text, part_text,
    path_text, present_pairs, upper_hex_digit, value_text, FieldModel, PairModel, PartModel,
};

verus! {

/// The pieces of a text between its `&` characters, in order. A text without
/// `&` is one piece; an empty text is one empty piece.
pub open spec fn segments(s: Seq<char>) -> Seq<Seq<char>>
    decreases s.len(),
{
    if s.len() == 0 {
        seq![Seq::empty()]
    } else {
        let before = segments(s.drop_last());
        if s.last() == '&' {
            before.push(Seq::empty())
        } else {
            before.drop_last().push(before.last().push(s.last()))
        }
    }
}

/// The texts of a list of pairs, in order.
pub open spec fn pair_texts(pairs: Seq<PairModel>) -> Seq<Seq<char>> {
    Seq::new(pairs.len(), |i: int| pair_text(pairs[i]))
}

/// Every text has at least one piece.
pub proof fn lemma_segments_nonempty(s: Seq<char>)
    ensures
        segments(s).len() >= 1,
    decreases s.len(),
{
    if s.len() > 0 {
        lemma_segments_nonempty(s.drop_last());
    }
}

/// Appending a text without `&` extends the last piece and leaves the others
/// alone.
pub proof fn lemma_segments_append(a: Seq<char>, t: Seq<char>)
    requires
        forall|i: int| 0 <= i < t.len() ==> t[i] != '&',
    ensures
        segments(a).len() >= 1,
        segments(a + t) == segments(a).drop_last().push(segments(a).last() + t),
    decreases t.len(),
{
    lemma_segments_nonempty(a);
    if t.len() > 0 {
        lemma_segments_append(a, t.drop_last());
        assert((a + t).drop_last() =~= a + t.drop_last());
        assert((segments(a).last() + t.drop_last()).push(t.last()) =~= segments(a).last() + t);
    }
}

/// Whether a character can occur on the left side of a pair: what form
/// encoding yields, and the brackets round a position.
pub open spec fn is_key_char(c: char) -> bool {
    is_encoded_char(c) || c == '[' || c == ']'
}

/// The text of a path is made of form-encoded text, digits and brackets.
pub proof fn lemma_path_text_chars(path: Seq<PartModel>)
    ensures
        forall|i: int|
            0 <= i < path_text(path).len() ==> is_key_char(#[trigger] path_text(path)[i]),
        path.len() > 0 ==> path_text(path).len() > 0 && path_text(path).last() == ']',
    decreases path.len(),
{
    if path.len() > 0 {
        lemma_path_text_chars(path.drop_last());
        let head = path_text(path.drop_last()).push('[');
        let part = part_text(path.last());
        match path.last() {
            PartModel::Position(n) => {
                lemma_decimal_digits(n);
            },
            PartModel::Name(s) => {
                lemma_form_encode_is_safe(encode_utf8(s));
            },
        }
        assert forall|k: int| 0 <= k < part.len() implies is_key_char(#[trigger] part[k]) by {}
        assert forall|i: int| 0 <= i < path_text(path).len() implies is_key_char(
            #[trigger] path_text(path)[i],
        ) by {
            if i < head.len() {
                assert(path_text(path)[i] == head[i]);
            } else if i < head.len() + part.len() {
                assert(path_text(path)[i] == part[i - head.len()]);
            }
        }
    }
}

/// The left side of a pair holds neither `&` nor `=`: it is made of
/// form-encoded text, digits and brackets.
pub proof fn lemma_key_text_chars(key: Seq<char>, path: Seq<PartModel>)
    ensures
        forall|i: int|
            0 <= i < key_text(key, path).len() ==> is_key_char(#[trigger] key_text(key, path)[i]),
{
    lemma_form_encode_is_safe(encode_utf8(key));
    lemma_path_text_chars(path);
}

/// No character of a pair is `&`.
pub proof fn lemma_pair_text_has_no_separator(pair: PairModel)
    ensures
        forall|i: int| 0 <= i < pair_text(pair).len() ==> pair_text(pair)[i] != '&',
{
    lemma_key_text_chars(pair.key, pair.path);
    lemma_form_encode_is_safe(encode_utf8(value_text(pair.value)));
}

/// Joined pairs split into the texts of the pairs.
pub proof fn lemma_segments_of_join(pairs: Seq<PairModel>)
    requires
        pairs.len() > 0,
    ensures
        segments(join_pairs(pairs)) == pair_texts(pairs),
    decreases pairs.len(),
{
    let last = pair_text(pairs.last());
    lemma_pair_text_has_no_separator(pairs.last());
    if pairs.len() == 1 {
        lemma_segments_append(Seq::empty(), last);
    } else {
        let rest = pairs.drop_last();
        lemma_segments_of_join(rest);
        let head = join_pairs(rest).push('&');
        assert(head.drop_last() =~= join_pairs(rest));
        lemma_segments_append(head, last);
    }
}

/// The canonical query string splits at `&` into exactly its pairs: one
/// piece for each field that has a value, in the order of the fields, and
/// each piece is the text of its pair.
pub proof fn lemma_query_splits_into_its_pairs(fields: Seq<FieldModel>)
    requires
        present_pairs(fields).len() > 0,
    ensures
        segments(canonical(fields)) == pair_texts(present_pairs(fields)),
{
    lemma_segments_of_join(present_pairs(fields));
}

/// The form encoding of a byte string, read from the front: the encoding of
/// the first byte, then that of the rest.
pub proof fn lemma_form_encode_first(bytes: Seq<u8>)
    requires
        bytes.len() > 0,
    ensures
        form_encode(bytes) == form_encode_byte(bytes[0]) + form_encode(bytes.drop_first()),
    decreases bytes.len(),
{
    if bytes.len() == 1 {
        assert(bytes.drop_last() =~= Seq::<u8>::empty());
        assert(bytes.drop_first() =~= Seq::<u8>::empty());
    } else {
        lemma_form_encode_first(bytes.drop_last());
        assert(bytes.drop_first().drop_last() =~= bytes.drop_last().drop_first());
    }
}

/// The encoding of a byte tells the byte, whatever follows it.
pub proof fn lemma_byte_encoding_is_prefix_free(
    x: u8,
    after_x: Seq<char>,
    y: u8,
    after_y: Seq<char>,
)
    requires
        form_encode_byte(x) + after_x == form_encode_byte(y) + after_y,
    ensures
        x == y,
        after_x == after_y,
{
    let ex = form_encode_byte(x);
    let ey = form_encode_byte(y);
    let whole = ex + after_x;
    assert(whole[0] == ey[0]);
    if !is_plain_byte(x) && x != 0x20 {
        assert(whole[1] == ex[1] && whole[1] == ey[1]);
        assert(whole[2] == ex[2] && whole[2] == ey[2]);
        lemma_hex_digit_tells_its_value((x / 16) as nat, (y / 16) as nat);
        lemma_hex_digit_tells_its_value((x % 16) as nat, (y % 16) as nat);
    }
    assert(after_y =~= whole.subrange(ey.len() as int, whole.len() as int));
}

/// Different values below 16 have different hexadecimal digits.
pub proof fn lemma_hex_digit_tells_its_value(a: nat, b: nat)
    requires
        a < 16,
        b < 16,
        upper_hex_digit(a) == upper_hex_digit(b),
    ensures
        a == b,
{
}

/// Form encoding loses nothing: byte strings with the same encoding are the
/// same.
pub proof fn lemma_form_encode_is_injective(a: Seq<u8>, b: Seq<u8>)
    requires
        form_encode(a) == form_encode(b),
    ensures
        a == b,
    decreases a.len(),
{
    if a.len() == 0 {
        if b.len() > 0 {
            lemma_form_encode_first(b);
            assert(form_encode(a).len() == 0);
        }
    } else if b.len() == 0 {
        lemma_form_encode_first(a);
        assert(form_encode(b).len() == 0);
    } else {
        lemma_form_encode_first(a);
        lemma_form_encode_first(b);
        lemma_byte_encoding_is_prefix_free(
            a[0],
            form_encode(a.drop_first()),
            b[0],
            form_encode(b.drop_first()),
        );
        lemma_form_encode_is_injective(a.drop_first(), b.drop_first());
        assert(b =~= seq![b[0]] + b.drop_first());
    }
}

/// How a pair under a key without a path begins: the encoded key and `=`.
pub open spec fn key_prefix(key: Seq<char>) -> Seq<char> {
    form_encode(encode_utf8(key)).push('=')
}

/// The key of a pair can be read off its text: a pair that begins with the
/// encoding of a key and `=` is a pair of that key, and of nothing inside a
/// list or a record.
pub proof fn lemma_key_can_be_read_off(pair: PairModel, key: Seq<char>)
    requires
        key_prefix(key).is_prefix_of(pair_text(pair)),
    ensures
        pair.key == key,
        pair.path.len() == 0,
{
    let wanted = form_encode(encode_utf8(key));
    let left = key_text(pair.key, pair.path);
    let text = pair_text(pair);
    lemma_form_encode_is_safe(encode_utf8(key));
    lemma_key_text_chars(pair.key, pair.path);
    let prefix = key_prefix(key);
    assert forall|i: int| 0 <= i < prefix.len() implies text[i] == prefix[i] by {}
    if wanted.len() < left.len() {
        assert(text[wanted.len() as int] == left[wanted.len() as int]);
    } else if wanted.len() > left.len() {
        assert(prefix[left.len() as int] == wanted[left.len() as int]);
    }
    assert forall|i: int| 0 <= i < wanted.len() implies wanted[i] == left[i] by {
        assert(text[i] == left[i]);
    }
    if pair.path.len() > 0 {
        lemma_path_text_chars(pair.path);
        assert(left.last() == path_text(pair.path).last());
    }
    assert(left == wanted);
    lemma_form_encode_is_injective(encode_utf8(pair.key), encode_utf8(key));
    encode_utf8_decode_utf8(pair.key);
    encode_utf8_decode_utf8(key);
}

/// A field without a value is nowhere in the text: when every field under a
/// key is absent, no piece of the canonical query string begins with that
/// key and `=`.
pub proof fn lemma_absent_key_starts_no_piece(fields: Seq<FieldModel>, key: Seq<char>)
    requires
        forall|i: int| 0 <= i < fields.len() && fields[i].key == key ==> fields[i].value is None,
    ensures
        forall|j: int|
            0 <= j < segments(canonical(fields)).len() ==> !key_prefix(key).is_prefix_of(
                #[trigger] segments(canonical(fields))[j],
            ),
{
    let pairs = present_pairs(fields);
    let pieces = segments(canonical(fields));
    lemma_absent_key_has_no_pair(fields, key);
    if pairs.len() > 0 {
        lemma_query_splits_into_its_pairs(fields);
    }
    assert forall|j: int| 0 <= j < pieces.len() implies !key_prefix(key).is_prefix_of(
        #[trigger] pieces[j],
    ) by {
        if pairs.len() > 0 {
            if key_prefix(key).is_prefix_of(pieces[j]) {
                lemma_key_can_be_read_off(pairs[j], key);
            }
        }
    }
}

} // verus!
