//! Fields: typed values written as NUL-terminated text, and the split of a
//! payload back into its fields.

use vstd::prelude::*;
use vstd::string::*;
use vstd::utf8::*;
use crate::framing::{utf8_text, FrameError};

verus! {

/// One value to be written into a payload.
#[derive(Debug)]
pub enum Field {
    Bool(bool),
    Int32(i32),
    Int64(i64),
    Str(String),
    Empty,
}

/// The character of the decimal digit `d`.
pub open spec fn digit_char(d: nat) -> char
    recommends
        d < 10,
{
    (d + 48) as char
}

/// The decimal digits of `n`, most significant first, with no leading zero.
pub open spec fn decimal_digits(n: nat) -> Seq<char>
    decreases n,
{
    if n < 10 {
        seq![digit_char(n)]
    } else {
        decimal_digits(n / 10).push(digit_char(n % 10))
    }
}

/// The decimal text of `v`: a minus sign for a negative value, then the digits.
pub open spec fn decimal_text(v: int) -> Seq<char> {
    if v < 0 {
        seq!['-'] + decimal_digits((-v) as nat)
    } else {
        decimal_digits(v as nat)
    }
}

/// `s` holds no NUL character.
pub open spec fn no_nul(s: Seq<char>) -> bool {
    forall|i: int| 0 <= i < s.len() ==> s[i] != '\0'
}

/// A field may be written: a text field must not hold the terminator.
pub open spec fn writable(f: Field) -> bool {
    f matches Field::Str(s) ==> no_nul(s@)
}

/// The wire text of one field.
pub open spec fn field_text(f: Field) -> Seq<char> {
    match f {
        Field::Bool(b) => seq![if b { '1' } else { '0' }, '\0'],
        Field::Int32(v) => decimal_text(v as int).push('\0'),
        Field::Int64(v) => decimal_text(v as int).push('\0'),
        Field::Str(s) => s@.push('\0'),
        Field::Empty => Seq::empty(),
    }
}

/// Relies on the standard `Display` of `i64` (through `to_string`): the
/// value in decimal, with a leading `-` when negative.
#[verifier::external_body]
fn decimal_string(v: i64) -> (r: String)
    ensures
        r@ == decimal_text(v as int),
{
    v.to_string()
}

/// The wire text of `val`: the value's text followed by one NUL; booleans
/// as `1` or `0`, integers in decimal, text as it is. `Empty` gives no text.
pub fn make_field(val: &Field) -> (r: String)
    requires
        writable(*val),
    ensures
        r@ == field_text(*val),
{
    let nul = "\0";
    proof {
        reveal_strlit("\0");
    }
    match val {
        Field::Bool(b) => {
            let digit = if *b { "1" } else { "0" };
            proof {
                reveal_strlit("1");
                reveal_strlit("0");
            }
            let mut s = digit.to_owned();
            s.append(nul);
            s
        },
        Field::Int32(v) => {
            let mut s = decimal_string(*v as i64);
            s.append(nul);
            s
        },
        Field::Int64(v) => {
            let mut s = decimal_string(*v);
            s.append(nul);
            s
        },
        Field::Str(text) => {
            let mut s = text.clone();
            s.append(nul);
            s
        },
        Field::Empty => String::new(),
    }
}

/// The same as `make_field`: an unset value is written as any other.
pub fn make_field_handle_empty(val: &Field) -> (r: String)
    requires
        writable(*val),
    ensures
        r@ == field_text(*val),
{
    make_field(val)
}

/// The payload made of `fields` in order, each followed by one NUL.
pub open spec fn join_fields(fields: Seq<Seq<char>>) -> Seq<char>
    decreases fields.len(),
{
    if fields.len() == 0 {
        Seq::empty()
    } else {
        join_fields(fields.drop_last()) + fields.last().push('\0')
    }
}

/// The texts of a sequence of strings.
pub open spec fn texts(v: Seq<String>) -> Seq<Seq<char>> {
    v.map_values(|f: String| f@)
}

/// A payload ends where a field ends: it is empty or its last character is NUL.
pub open spec fn ends_on_field(payload: Seq<char>) -> bool {
    payload.len() == 0 || payload.last() == '\0'
}

/// A NUL-free run of valid UTF-8 bytes decodes to NUL-free text, and to some
/// text when it is not empty.
proof fn lemma_decode_no_nul(b: Seq<u8>)
    requires
        valid_utf8(b),
        forall|k: int| 0 <= k < b.len() ==> b[k] != 0,
    ensures
        no_nul(decode_utf8(b)),
        b.len() > 0 ==> decode_utf8(b).len() > 0,
    decreases b.len(),
{
    if b.len() > 0 {
        let b0 = b[0];
        let c = decode_first_scalar(b);
        decode_utf8_first_scalar(b);
        if (c as char) == '\0' {
            assert(encode_scalar(0u32) =~= seq![0u8]) by {
                assert(leading_byte_width_1(0u32) == 0u8) by (bit_vector);
            }
            assert(take_first_scalar(b)[0] == b0);
        }
        let rest = pop_first_scalar(b);
        lemma_decode_no_nul(rest);
        let d = decode_utf8(b);
        assert(d =~= seq![c as char] + decode_utf8(rest));
    }
}

/// A run of valid UTF-8 that starts with a NUL byte decodes to a NUL and then
/// the rest.
proof fn lemma_decode_nul_first(b: Seq<u8>)
    requires
        valid_utf8(b),
        b.len() > 0,
        b[0] == 0,
    ensures
        valid_utf8(b.subrange(1, b.len() as int)),
        decode_utf8(b) == seq!['\0'] + decode_utf8(b.subrange(1, b.len() as int)),
{
    assert(0u8 & 0x7f == 0) by (bit_vector);
    assert(decode_first_scalar(b) == 0);
    assert(pop_first_scalar(b) == b.subrange(1, b.len() as int));
}

/// Joining one more field appends its text and a NUL.
proof fn lemma_join_push(fields: Seq<Seq<char>>, f: Seq<char>)
    ensures
        join_fields(fields.push(f)) == join_fields(fields) + f.push('\0'),
{
    assert(fields.push(f).drop_last() =~= fields);
}

/// Every joined payload ends on a field.
proof fn lemma_join_ends_on_field(fields: Seq<Seq<char>>)
    ensures
        ends_on_field(join_fields(fields)),
{
    if fields.len() > 0 {
        let j = join_fields(fields);
        assert(j.last() == '\0');
    }
}

/// Fields are found again from their payload: two lists of NUL-free fields
/// that join to the same payload are the same list.
pub proof fn lemma_join_fields_injective(a: Seq<Seq<char>>, b: Seq<Seq<char>>)
    requires
        forall|i: int| 0 <= i < a.len() ==> no_nul(#[trigger] a[i]),
        forall|i: int| 0 <= i < b.len() ==> no_nul(#[trigger] b[i]),
        join_fields(a) == join_fields(b),
    ensures
        a == b,
    decreases a.len(),
{
    let s = join_fields(a);
    if a.len() == 0 || b.len() == 0 {
        assert(a.len() > 0 ==> join_fields(a).len() > 0);
        assert(b.len() > 0 ==> join_fields(b).len() > 0);
        assert(a =~= b);
    } else {
        let ja = join_fields(a.drop_last());
        let jb = join_fields(b.drop_last());
        let fa = a.last();
        let fb = b.last();
        assert(no_nul(fa) && no_nul(fb)) by {
            assert(fa == a[a.len() - 1]);
            assert(fb == b[b.len() - 1]);
        }
        lemma_join_ends_on_field(a.drop_last());
        lemma_join_ends_on_field(b.drop_last());
        assert(s == ja + fa.push('\0'));
        assert(s == jb + fb.push('\0'));
        if fa.len() < fb.len() {
            assert(s[ja.len() - 1] == ja.last());
            assert(s[ja.len() - 1] == fb[ja.len() - 1 - jb.len()]);
        } else if fb.len() < fa.len() {
            assert(s[jb.len() - 1] == jb.last());
            assert(s[jb.len() - 1] == fa[jb.len() - 1 - ja.len()]);
        }
        assert(ja =~= s.subrange(0, ja.len() as int));
        assert(jb =~= s.subrange(0, jb.len() as int));
        assert forall|k: int| 0 <= k < fa.len() implies fa[k] == fb[k] by {
            assert(s[ja.len() + k] == fa[k]);
            assert(s[jb.len() + k] == fb[k]);
        }
        assert(fa =~= fb);
        assert forall|i: int| 0 <= i < a.drop_last().len() implies no_nul(
            #[trigger] a.drop_last()[i],
        ) by {
            assert(a.drop_last()[i] == a[i]);
        }
        assert forall|i: int| 0 <= i < b.drop_last().len() implies no_nul(
            #[trigger] b.drop_last()[i],
        ) by {
            assert(b.drop_last()[i] == b[i]);
        }
        lemma_join_fields_injective(a.drop_last(), b.drop_last());
        assert(a =~= a.drop_last().push(fa));
        assert(b =~= b.drop_last().push(fb));
    }
}

/// What `read_fields` returns on `payload`: the fields, NUL-free, that join
/// to it; or `MalformedFrame` exactly when it does not end on a field.
pub open spec fn tokenizes_as(payload: Seq<char>, r: Result<Vec<String>, FrameError>) -> bool {
    &&& (r is Err <==> !ends_on_field(payload))
    &&& (r is Err ==> r == Err::<Vec<String>, FrameError>(FrameError::MalformedFrame))
    &&& (r matches Ok(fields) ==> join_fields(texts(fields@)) == payload && forall|i: int|
        0 <= i < fields@.len() ==> no_nul(#[trigger] fields@[i]@))
}

/// The text of a field's value, without its terminator.
pub open spec fn value_text(f: Field) -> Seq<char> {
    match f {
        Field::Bool(b) => seq![if b { '1' } else { '0' }],
        Field::Int32(v) => decimal_text(v as int),
        Field::Int64(v) => decimal_text(v as int),
        Field::Str(s) => s@,
        Field::Empty => Seq::empty(),
    }
}

/// The payload made of the wire texts of `fields`, in order.
pub open spec fn payload_of(fields: Seq<Field>) -> Seq<char>
    decreases fields.len(),
{
    if fields.len() == 0 {
        Seq::empty()
    } else {
        payload_of(fields.drop_last()) + field_text(fields.last())
    }
}

/// Decimal digits hold no NUL.
proof fn lemma_digits_no_nul(n: nat)
    ensures
        no_nul(decimal_digits(n)),
    decreases n,
{
    if n >= 10 {
        lemma_digits_no_nul(n / 10);
    }
}

/// A writable field's value text holds no NUL.
proof fn lemma_value_text_no_nul(f: Field)
    requires
        writable(f),
    ensures
        no_nul(value_text(f)),
{
    match f {
        Field::Int32(v) => {
            lemma_digits_no_nul(if v < 0 { (-v) as nat } else { v as nat });
        },
        Field::Int64(v) => {
            lemma_digits_no_nul(if v < 0 { (-v) as nat } else { v as nat });
        },
        _ => {},
    }
}

/// Formatting loses nothing: tokenizing a payload made of formatted fields
/// (none of them `Empty`) succeeds and gives back each field's value text, in
/// order.
pub proof fn lemma_format_then_tokenize(fields: Seq<Field>, r: Result<Vec<String>, FrameError>)
    requires
        forall|i: int| 0 <= i < fields.len() ==> writable(#[trigger] fields[i]) && !(fields[i] is Empty),
        tokenizes_as(payload_of(fields), r),
    ensures
        r matches Ok(v) && texts(v@) == fields.map_values(|f: Field| value_text(f)),
    decreases fields.len(),
{
    let want = fields.map_values(|f: Field| value_text(f));
    lemma_payload_joins(fields);
    lemma_join_ends_on_field(want);
    assert forall|i: int| 0 <= i < want.len() implies no_nul(#[trigger] want[i]) by {
        lemma_value_text_no_nul(fields[i]);
    }
    if let Ok(v) = r {
        assert forall|i: int| 0 <= i < texts(v@).len() implies no_nul(#[trigger] texts(v@)[i]) by {
            assert(texts(v@)[i] == v@[i]@);
        }
        lemma_join_fields_injective(texts(v@), want);
    }
}

/// A payload of formatted fields, none `Empty`, is the join of their value texts.
proof fn lemma_payload_joins(fields: Seq<Field>)
    requires
        forall|i: int| 0 <= i < fields.len() ==> !(#[trigger] fields[i] is Empty),
    ensures
        payload_of(fields) == join_fields(fields.map_values(|f: Field| value_text(f))),
    decreases fields.len(),
{
    if fields.len() > 0 {
        let init = fields.drop_last();
        assert forall|i: int| 0 <= i < init.len() implies !(#[trigger] init[i] is Empty) by {
            assert(init[i] == fields[i]);
        }
        lemma_payload_joins(init);
        let want = fields.map_values(|f: Field| value_text(f));
        assert(want.drop_last() =~= init.map_values(|f: Field| value_text(f)));
        assert(fields.last() == fields[fields.len() - 1]);
        assert(field_text(fields.last()) =~= value_text(fields.last()).push('\0'));
    }
}

/// Splits a payload into its fields, in order, dropping each field's NUL
/// terminator. A payload that does not end on a field is malformed.
pub fn read_fields(buf: &str) -> (r: Result<Vec<String>, FrameError>)
    ensures
        tokenizes_as(buf@, r),
{
    let bytes = buf.as_bytes();
    let n = bytes.len();
    let mut fields: Vec<String> = Vec::new();
    let mut start: usize = 0;
    let mut i: usize = 0;
    proof {
        encode_utf8_valid_utf8(buf@);
        encode_utf8_decode_utf8(buf@);
        assert(bytes@.subrange(0, n as int) =~= bytes@);
    }
    while i < n
        invariant
            n == bytes@.len(),
            bytes@ == encode_utf8(buf@),
            0 <= start <= i <= n,
            valid_utf8(bytes@.subrange(start as int, n as int)),
            buf@ == join_fields(texts(fields@)) + decode_utf8(bytes@.subrange(start as int, n as int)),
            forall|k: int| 0 <= k < fields@.len() ==> no_nul(#[trigger] fields@[k]@),
            forall|k: int| start <= k < i ==> bytes@[k] != 0,
        decreases n - i,
    {
        if bytes[i] == 0 {
            let ghost rest = bytes@.subrange(start as int, n as int);
            let ghost j = i - start;
            let seg = &bytes[start..i];
            proof {
                assert(rest[j] == 0);
                is_char_boundary_iff_not_is_continuation_byte(rest, j);
                valid_utf8_split(rest, j);
                decode_utf8_split(rest, j);
                assert(seg@ =~= rest.subrange(0, j));
                let tail = rest.subrange(j, rest.len() as int);
                lemma_decode_nul_first(tail);
                assert(tail.subrange(1, tail.len() as int) =~= bytes@.subrange(i + 1, n as int));
                lemma_decode_no_nul(seg@);
            }
            match utf8_text(seg) {
                Some(text) => {
                    proof {
                        lemma_join_push(texts(fields@), text@);
                        assert(texts(fields@.push(text)) =~= texts(fields@).push(text@));
                    }
                    fields.push(text);
                },
                None => {
                    return Err(FrameError::MalformedFrame);
                },
            }
            start = i + 1;
        }
        i = i + 1;
    }
    if start < n {
        proof {
            let rest = bytes@.subrange(start as int, n as int);
            lemma_decode_no_nul(rest);
            let d = decode_utf8(rest);
            assert(buf@.last() == d.last());
        }
        Err(FrameError::MalformedFrame)
    } else {
        proof {
            assert(bytes@.subrange(start as int, n as int) =~= Seq::<u8>::empty());
            assert(buf@ =~= join_fields(texts(fields@)));
            lemma_join_ends_on_field(texts(fields@));
        }
        Ok(fields)
    }
}

} // verus!
