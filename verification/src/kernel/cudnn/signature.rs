//! Byte encoding of graphs, from which signatures are digested.
//!
//! The encoding is a sequence of fields. Integers take eight bytes, the least
//! significant first; lists come after their length; optional values come
//! after a word that tells whether they are there.

use vstd::bytes::*;
use vstd::prelude::*;

verus! {

/// One field of an encoding.
pub enum Field {
    Byte(u8),
    Word(u64),
    Ints(Seq<i64>),
    Maybe(Option<i64>),
}

/// One field to encode.
pub enum FieldRef<'a> {
    Byte(u8),
    Word(u64),
    Ints(&'a Vec<i64>),
    Maybe(Option<i64>),
}

impl<'a> View for FieldRef<'a> {
    type V = Field;

    open spec fn view(&self) -> Field {
        match self {
            FieldRef::Byte(b) => Field::Byte(*b),
            FieldRef::Word(w) => Field::Word(*w),
            FieldRef::Ints(v) => Field::Ints(v@),
            FieldRef::Maybe(v) => Field::Maybe(*v),
        }
    }
}

/// The fields, taken by their views.
pub open spec fn field_views(s: Seq<FieldRef<'_>>) -> Seq<Field> {
    Seq::new(s.len(), |i: int| s[i]@)
}

/// The eight bytes of an integer, the least significant first.
pub open spec fn word(w: u64) -> Seq<u8> {
    spec_u64_to_le_bytes(w)
}

/// The bytes of integers one after another.
pub open spec fn ints_bytes(s: Seq<i64>) -> Seq<u8>
    decreases s.len(),
{
    if s.len() == 0 {
        Seq::empty()
    } else {
        ints_bytes(s.drop_last()) + word(s.last() as u64)
    }
}

/// The bytes of a field.
pub open spec fn field_bytes(f: Field) -> Seq<u8> {
    match f {
        Field::Byte(b) => seq![b],
        Field::Word(w) => word(w),
        Field::Ints(s) => word(s.len() as u64) + ints_bytes(s),
        Field::Maybe(None) => word(0),
        Field::Maybe(Some(v)) => word(1) + word(v as u64),
    }
}

/// The bytes of fields one after another.
pub open spec fn fields_bytes(s: Seq<Field>) -> Seq<u8>
    decreases s.len(),
{
    if s.len() == 0 {
        Seq::empty()
    } else {
        field_bytes(s[0]) + fields_bytes(s.drop_first())
    }
}

proof fn lemma_fields_push(s: Seq<Field>, f: Field)
    ensures
        fields_bytes(s.push(f)) == fields_bytes(s) + field_bytes(f),
    decreases s.len(),
{
    if s.len() == 0 {
        let none = Seq::<Field>::empty();
        assert(s =~= none && s.push(f).drop_first() =~= none);
        assert(fields_bytes(none) =~= Seq::<u8>::empty());
        assert(fields_bytes(s.push(f)) =~= fields_bytes(s) + field_bytes(f));
    } else {
        assert(s.push(f).drop_first() =~= s.drop_first().push(f));
        lemma_fields_push(s.drop_first(), f);
        assert(fields_bytes(s.push(f)) =~= fields_bytes(s) + field_bytes(f));
    }
}

/// Append an integer.
pub(crate) fn write_word(buf: &mut Vec<u8>, w: u64)
    ensures
        final(buf)@ == old(buf)@ + word(w),
{
    let mut bytes = u64_to_le_bytes(w);
    buf.append(&mut bytes);
}

fn write_ints(buf: &mut Vec<u8>, s: &Vec<i64>)
    ensures
        final(buf)@ == old(buf)@ + ints_bytes(s@),
{
    let ghost head = buf@;
    let mut i: usize = 0;
    assert(buf@ =~= head + ints_bytes(s@.take(0)));
    while i < s.len()
        invariant
            i <= s.len(),
            buf@ == head + ints_bytes(s@.take(i as int)),
        decreases s.len() - i,
    {
        write_word(buf, s[i] as u64);
        proof {
            assert(s@.take(i + 1).drop_last() =~= s@.take(i as int));
        }
        i = i + 1;
        assert(buf@ =~= head + ints_bytes(s@.take(i as int)));
    }
    assert(s@.take(i as int) =~= s@);
}

fn write_field(buf: &mut Vec<u8>, f: &FieldRef<'_>)
    ensures
        final(buf)@ == old(buf)@ + field_bytes(f@),
{
    let ghost head = buf@;
    match f {
        FieldRef::Byte(b) => {
            buf.push(*b);
        },
        FieldRef::Word(w) => {
            write_word(buf, *w);
        },
        FieldRef::Ints(s) => {
            write_word(buf, s.len() as u64);
            write_ints(buf, s);
        },
        FieldRef::Maybe(None) => {
            write_word(buf, 0);
        },
        FieldRef::Maybe(Some(v)) => {
            write_word(buf, 1);
            write_word(buf, *v as u64);
        },
    }
    assert(buf@ =~= head + field_bytes(f@));
}

/// Append fields one after another.
pub(crate) fn write_fields(buf: &mut Vec<u8>, fields: &Vec<FieldRef<'_>>)
    ensures
        final(buf)@ == old(buf)@ + fields_bytes(field_views(fields@)),
{
    let ghost head = buf@;
    let ghost views = field_views(fields@);
    let mut i: usize = 0;
    assert(buf@ =~= head + fields_bytes(views.take(0)));
    while i < fields.len()
        invariant
            i <= fields.len(),
            views == field_views(fields@),
            buf@ == head + fields_bytes(views.take(i as int)),
        decreases fields.len() - i,
    {
        write_field(buf, &fields[i]);
        proof {
            lemma_fields_push(views.take(i as int), views[i as int]);
            assert(views.take(i as int).push(views[i as int]) =~= views.take(i + 1));
        }
        i = i + 1;
        assert(buf@ =~= head + fields_bytes(views.take(i as int)));
    }
    assert(views.take(i as int) =~= views);
}

proof fn lemma_split(a: Seq<u8>, b: Seq<u8>, rest_a: Seq<u8>, rest_b: Seq<u8>)
    requires
        a.len() == b.len(),
        a + rest_a == b + rest_b,
    ensures
        a == b,
        rest_a == rest_b,
{
    let whole = a + rest_a;
    let other = b + rest_b;
    assert(a =~= whole.subrange(0, a.len() as int));
    assert(b =~= other.subrange(0, a.len() as int));
    assert(rest_a =~= whole.subrange(a.len() as int, whole.len() as int));
    assert(rest_b =~= other.subrange(a.len() as int, other.len() as int));
}

pub(crate) proof fn lemma_word_injective(a: u64, b: u64, rest_a: Seq<u8>, rest_b: Seq<u8>)
    requires
        word(a) + rest_a == word(b) + rest_b,
    ensures
        a == b,
        rest_a == rest_b,
{
    lemma_auto_spec_u64_to_from_le_bytes();
    lemma_split(word(a), word(b), rest_a, rest_b);
    assert(spec_u64_from_le_bytes(word(a)) == a);
    assert(spec_u64_from_le_bytes(word(b)) == b);
}

proof fn lemma_ints_length(s: Seq<i64>)
    ensures
        ints_bytes(s).len() == 8 * s.len(),
    decreases s.len(),
{
    lemma_auto_spec_u64_to_from_le_bytes();
    if s.len() > 0 {
        lemma_ints_length(s.drop_last());
        assert(word(s.last() as u64).len() == 8);
    }
}

proof fn lemma_ints_injective(a: Seq<i64>, b: Seq<i64>)
    requires
        a.len() == b.len(),
        ints_bytes(a) == ints_bytes(b),
    ensures
        a == b,
    decreases a.len(),
{
    if a.len() == 0 {
        assert(a =~= b);
    } else {
        lemma_ints_length(a.drop_last());
        lemma_ints_length(b.drop_last());
        lemma_split(
            ints_bytes(a.drop_last()),
            ints_bytes(b.drop_last()),
            word(a.last() as u64),
            word(b.last() as u64),
        );
        lemma_ints_injective(a.drop_last(), b.drop_last());
        let none = Seq::<u8>::empty();
        lemma_word_injective(a.last() as u64, b.last() as u64, none, none);
        let x = a.last();
        let y = b.last();
        assert(x as u64 == y as u64 ==> x == y) by (bit_vector);
        assert(a =~= a.drop_last().push(x));
        assert(b =~= b.drop_last().push(y));
    }
}

/// Kinds of fields.
pub enum FieldKind {
    Byte,
    Word,
    Ints,
    Maybe,
}

/// The kind of a field.
pub open spec fn kind(f: Field) -> FieldKind {
    match f {
        Field::Byte(_) => FieldKind::Byte,
        Field::Word(_) => FieldKind::Word,
        Field::Ints(_) => FieldKind::Ints,
        Field::Maybe(_) => FieldKind::Maybe,
    }
}

/// The kinds of fields, one by one.
pub open spec fn kinds(fs: Seq<Field>) -> Seq<FieldKind> {
    fs.map_values(|f: Field| kind(f))
}

/// The two fields are of the same kind.
pub open spec fn same_kind(a: Field, b: Field) -> bool {
    kind(a) == kind(b)
}

/// The two lists have fields of the same kinds.
pub open spec fn same_kinds(a: Seq<Field>, b: Seq<Field>) -> bool {
    &&& a.len() == b.len()
    &&& forall|i: int| 0 <= i < a.len() ==> same_kind(#[trigger] a[i], b[i])
}

/// A list has a length of machine size.
pub open spec fn field_fits(f: Field) -> bool {
    match f {
        Field::Ints(s) => s.len() <= u64::MAX,
        _ => true,
    }
}

proof fn lemma_field_injective(a: Field, b: Field, rest_a: Seq<u8>, rest_b: Seq<u8>)
    requires
        same_kind(a, b),
        field_fits(a),
        field_fits(b),
        field_bytes(a) + rest_a == field_bytes(b) + rest_b,
    ensures
        a == b,
        rest_a == rest_b,
{
    match (a, b) {
        (Field::Byte(x), Field::Byte(y)) => {
            lemma_split(seq![x], seq![y], rest_a, rest_b);
            assert(seq![x][0] == seq![y][0]);
        },
        (Field::Word(x), Field::Word(y)) => {
            lemma_word_injective(x, y, rest_a, rest_b);
        },
        (Field::Ints(x), Field::Ints(y)) => {
            assert(field_bytes(a) + rest_a =~= word(x.len() as u64) + (ints_bytes(x) + rest_a));
            assert(field_bytes(b) + rest_b =~= word(y.len() as u64) + (ints_bytes(y) + rest_b));
            lemma_word_injective(
                x.len() as u64,
                y.len() as u64,
                ints_bytes(x) + rest_a,
                ints_bytes(y) + rest_b,
            );
            lemma_ints_length(x);
            lemma_ints_length(y);
            lemma_split(ints_bytes(x), ints_bytes(y), rest_a, rest_b);
            lemma_ints_injective(x, y);
        },
        (Field::Maybe(x), Field::Maybe(y)) => {
            let tail_a = match x {
                None => rest_a,
                Some(v) => word(v as u64) + rest_a,
            };
            let tail_b = match y {
                None => rest_b,
                Some(v) => word(v as u64) + rest_b,
            };
            let code_a: u64 = if x is Some {
                1
            } else {
                0
            };
            let code_b: u64 = if y is Some {
                1
            } else {
                0
            };
            assert(field_bytes(a) + rest_a =~= word(code_a) + tail_a);
            assert(field_bytes(b) + rest_b =~= word(code_b) + tail_b);
            lemma_word_injective(code_a, code_b, tail_a, tail_b);
            if x is Some {
                let v = x->0;
                let w = y->0;
                lemma_word_injective(v as u64, w as u64, rest_a, rest_b);
                assert(v as u64 == w as u64 ==> v == w) by (bit_vector);
            }
        },
        _ => {},
    }
}

pub(crate) proof fn lemma_fields_injective(
    a: Seq<Field>,
    b: Seq<Field>,
    rest_a: Seq<u8>,
    rest_b: Seq<u8>,
)
    requires
        same_kinds(a, b),
        forall|i: int| 0 <= i < a.len() ==> field_fits(#[trigger] a[i]),
        forall|i: int| 0 <= i < b.len() ==> field_fits(#[trigger] b[i]),
        fields_bytes(a) + rest_a == fields_bytes(b) + rest_b,
    ensures
        a == b,
        rest_a == rest_b,
    decreases a.len(),
{
    if a.len() == 0 {
        assert(a =~= b);
        assert(fields_bytes(a) + rest_a =~= rest_a);
        assert(fields_bytes(b) + rest_b =~= rest_b);
    } else {
        let tail_a = fields_bytes(a.drop_first()) + rest_a;
        let tail_b = fields_bytes(b.drop_first()) + rest_b;
        assert(fields_bytes(a) + rest_a =~= field_bytes(a[0]) + tail_a);
        assert(fields_bytes(b) + rest_b =~= field_bytes(b[0]) + tail_b);
        lemma_field_injective(a[0], b[0], tail_a, tail_b);
        assert(same_kinds(a.drop_first(), b.drop_first()));
        lemma_fields_injective(a.drop_first(), b.drop_first(), rest_a, rest_b);
        assert(a =~= seq![a[0]] + a.drop_first());
        assert(b =~= seq![b[0]] + b.drop_first());
    }
}

/// A byte is itself, a word its eight bytes; a list is its length and its integers
/// one after the other, and an optional value a word that tells whether it is
/// there, and then the value.
pub proof fn law_field_encoding(f: Field, s: Seq<i64>, last: i64)
    ensures
        match f {
            Field::Byte(b) => field_bytes(f) == seq![b],
            Field::Word(w) => field_bytes(f) == word(w),
            Field::Ints(list) => field_bytes(f) == word(list.len() as u64) + ints_bytes(list),
            Field::Maybe(None) => field_bytes(f) == word(0),
            Field::Maybe(Some(v)) => field_bytes(f) == word(1) + word(v as u64),
        },
        ints_bytes(Seq::<i64>::empty()) == Seq::<u8>::empty(),
        ints_bytes(s.push(last)) == ints_bytes(s) + word(last as u64),
{
    assert(s.push(last).drop_last() =~= s);
}

/// A word is written with the least significant byte first: its bytes are read back
/// as the word.
pub proof fn law_word_reads_back(w: u64)
    ensures
        word(w).len() == 8,
        spec_u64_from_le_bytes(word(w)) == w,
{
    lemma_auto_spec_u64_to_from_le_bytes();
}

} // verus!
