//! The plain text of the pieces that every term is made of can be read
//! back: two numbers, two variables, two lifetimes, two quantifiers or two
//! scalar types that are written the same are the same.

use vstd::prelude::*;
use crate::plain::bound_var_text;
use crate::plain::inference_var_text;
use crate::plain::lifetime_data_text;
use crate::plain::placeholder_text;
use crate::plain::quantifier_text;
use crate::plain::scalar_text;
use crate::plain::universe_text;
use crate::shapes::LifetimeData;
use crate::text::decimal;
use crate::text::digit_char;
use crate::var::BoundVar;
use crate::var::FloatTy;
use crate::var::InferenceVar;
use crate::var::IntTy;
use crate::var::PlaceholderIndex;
use crate::var::QuantifierKind;
use crate::var::Scalar;
use crate::var::UintTy;
use crate::var::UniverseIndex;

verus! {

/// One of the ten digits.
pub open spec fn is_digit(c: char) -> bool {
    c == '0' || c == '1' || c == '2' || c == '3' || c == '4' || c == '5' || c == '6' || c == '7'
        || c == '8' || c == '9'
}

/// A number in decimal has at least one character, and all of them are
/// digits.
pub proof fn lemma_decimal_is_digits(n: nat)
    ensures
        decimal(n).len() >= 1,
        n >= 10 ==> decimal(n).len() >= 2,
        forall|i: int| 0 <= i < decimal(n).len() ==> is_digit(#[trigger] decimal(n)[i]),
    decreases n,
{
    if n >= 10 {
        lemma_decimal_is_digits(n / 10);
    }
}

/// Two numbers that are written the same are the same.
pub proof fn lemma_decimal_read_back(a: nat, b: nat)
    requires
        decimal(a) == decimal(b),
    ensures
        a == b,
    decreases a,
{
    lemma_decimal_is_digits(a);
    lemma_decimal_is_digits(b);
    if a < 10 || b < 10 {
        assert(decimal(a).len() == 1);
        assert(decimal(b).len() == 1);
        assert(decimal(a)[0] == digit_char(a));
        assert(decimal(b)[0] == digit_char(b));
    } else {
        let before_a = decimal(a / 10);
        let before_b = decimal(b / 10);
        assert(decimal(a).last() == digit_char(a % 10));
        assert(decimal(b).last() == digit_char(b % 10));
        assert(before_a =~= decimal(a).drop_last());
        assert(before_b =~= decimal(b).drop_last());
        lemma_decimal_read_back(a / 10, b / 10);
    }
}

/// Where two texts agree, each a number followed by `mark` and more, and
/// `mark` is no digit, the two numbers are the same and so is what follows.
pub proof fn lemma_split_at_mark(
    a: nat,
    rest_a: Seq<char>,
    b: nat,
    rest_b: Seq<char>,
    mark: char,
)
    requires
        !is_digit(mark),
        decimal(a) + seq![mark] + rest_a == decimal(b) + seq![mark] + rest_b,
    ensures
        a == b,
        rest_a == rest_b,
{
    lemma_decimal_is_digits(a);
    lemma_decimal_is_digits(b);
    let left = decimal(a) + seq![mark] + rest_a;
    let right = decimal(b) + seq![mark] + rest_b;
    let la = decimal(a).len() as int;
    let lb = decimal(b).len() as int;
    if la < lb {
        assert(left[la] == mark);
        assert(right[la] == decimal(b)[la]);
        assert(false);
    }
    if lb < la {
        assert(right[lb] == mark);
        assert(left[lb] == decimal(a)[lb]);
        assert(false);
    }
    assert(decimal(a) =~= left.subrange(0, la));
    assert(decimal(b) =~= right.subrange(0, lb));
    lemma_decimal_read_back(a, b);
    assert(rest_a =~= left.subrange(la + 1, left.len() as int));
    assert(rest_b =~= right.subrange(lb + 1, right.len() as int));
}

/// Two bound variables that are written the same are the same.
pub proof fn lemma_bound_var_read_back(a: BoundVar, b: BoundVar)
    requires
        bound_var_text(a) == bound_var_text(b),
    ensures
        a == b,
{
    let da = decimal(a.debruijn.depth as nat);
    let db = decimal(b.debruijn.depth as nat);
    let ia = decimal(a.index as nat);
    let ib = decimal(b.index as nat);
    let ta = bound_var_text(a);
    let tb = bound_var_text(b);
    assert(da + seq!['.'] + ia =~= ta.subrange(1, ta.len() as int));
    assert(db + seq!['.'] + ib =~= tb.subrange(1, tb.len() as int));
    lemma_split_at_mark(a.debruijn.depth as nat, ia, b.debruijn.depth as nat, ib, '.');
    lemma_decimal_read_back(a.index as nat, b.index as nat);
}

/// Two inference variables that are written the same are the same.
pub proof fn lemma_inference_var_read_back(a: InferenceVar, b: InferenceVar)
    requires
        inference_var_text(a) == inference_var_text(b),
    ensures
        a == b,
{
    let ta = inference_var_text(a);
    let tb = inference_var_text(b);
    assert(decimal(a.index as nat) =~= ta.subrange(1, ta.len() as int));
    assert(decimal(b.index as nat) =~= tb.subrange(1, tb.len() as int));
    lemma_decimal_read_back(a.index as nat, b.index as nat);
}

/// Two universes that are written the same are the same.
pub proof fn lemma_universe_read_back(a: UniverseIndex, b: UniverseIndex)
    requires
        universe_text(a) == universe_text(b),
    ensures
        a == b,
{
    let ta = universe_text(a);
    let tb = universe_text(b);
    assert(decimal(a.counter as nat) =~= ta.subrange(1, ta.len() as int));
    assert(decimal(b.counter as nat) =~= tb.subrange(1, tb.len() as int));
    lemma_decimal_read_back(a.counter as nat, b.counter as nat);
}

/// Two placeholders that are written the same are the same.
pub proof fn lemma_placeholder_read_back(a: PlaceholderIndex, b: PlaceholderIndex)
    requires
        placeholder_text(a) == placeholder_text(b),
    ensures
        a == b,
{
    let ua = decimal(a.ui.counter as nat);
    let ub = decimal(b.ui.counter as nat);
    let ia = decimal(a.idx as nat);
    let ib = decimal(b.idx as nat);
    let ta = placeholder_text(a);
    let tb = placeholder_text(b);
    assert(ua + seq!['_'] + ia =~= ta.subrange(1, ta.len() as int));
    assert(ub + seq!['_'] + ib =~= tb.subrange(1, tb.len() as int));
    lemma_split_at_mark(a.ui.counter as nat, ia, b.ui.counter as nat, ib, '_');
    lemma_decimal_read_back(a.idx as nat, b.idx as nat);
}

/// The character after the tick tells which kind of lifetime is written.
pub open spec fn lifetime_mark(data: LifetimeData) -> char {
    match data {
        LifetimeData::BoundVar(_) => '^',
        LifetimeData::InferenceVar(_) => '?',
        LifetimeData::Placeholder(_) => '!',
        LifetimeData::Static => 's',
        LifetimeData::Error => '{',
    }
}

/// A written lifetime has more than one character, and the second is the
/// mark of its kind.
pub proof fn lemma_lifetime_mark(data: LifetimeData)
    ensures
        lifetime_data_text(data).len() >= 2,
        lifetime_data_text(data)[1] == lifetime_mark(data),
{
    reveal_strlit("'static");
    reveal_strlit("'{error}");
}

/// Two lifetimes that are written the same are the same.
pub proof fn lemma_lifetime_read_back(a: LifetimeData, b: LifetimeData)
    requires
        lifetime_data_text(a) == lifetime_data_text(b),
    ensures
        a == b,
{
    lemma_lifetime_mark(a);
    lemma_lifetime_mark(b);
    let ta = lifetime_data_text(a);
    let tb = lifetime_data_text(b);
    match (a, b) {
        (LifetimeData::BoundVar(x), LifetimeData::BoundVar(y)) => {
            assert(bound_var_text(x) =~= ta.subrange(1, ta.len() as int));
            assert(bound_var_text(y) =~= tb.subrange(1, tb.len() as int));
            lemma_bound_var_read_back(x, y);
        },
        (LifetimeData::InferenceVar(x), LifetimeData::InferenceVar(y)) => {
            assert(inference_var_text(x) =~= ta.subrange(1, ta.len() as int));
            assert(inference_var_text(y) =~= tb.subrange(1, tb.len() as int));
            lemma_inference_var_read_back(x, y);
        },
        (LifetimeData::Placeholder(x), LifetimeData::Placeholder(y)) => {
            assert(placeholder_text(x) =~= ta.subrange(1, ta.len() as int));
            assert(placeholder_text(y) =~= tb.subrange(1, tb.len() as int));
            lemma_placeholder_read_back(x, y);
        },
        _ => {},
    }
}

/// The two quantifiers are written differently.
pub proof fn lemma_quantifier_read_back(a: QuantifierKind, b: QuantifierKind)
    requires
        quantifier_text(a) == quantifier_text(b),
    ensures
        a == b,
{
    reveal_strlit("ForAll");
    reveal_strlit("Exists");
    assert("ForAll"@[0] == 'F');
    assert("Exists"@[0] == 'E');
}

/// What tells the scalar types apart: how long the name is, and its first
/// and last characters.
pub open spec fn scalar_mark(scalar: Scalar) -> (nat, char, char) {
    let name = scalar_text(scalar);
    (name.len(), name[0], name[name.len() - 1])
}

/// No two scalar types have the same name.
pub proof fn lemma_scalar_read_back(a: Scalar, b: Scalar)
    requires
        scalar_text(a) == scalar_text(b),
    ensures
        a == b,
{
    lemma_scalar_mark(a);
    lemma_scalar_mark(b);
}

/// The mark of each scalar type.
pub proof fn lemma_scalar_mark(scalar: Scalar)
    ensures
        scalar_mark(scalar) == match scalar {
            Scalar::Bool => (4nat, 'b', 'l'),
            Scalar::Char => (4nat, 'c', 'r'),
            Scalar::Int(IntTy::Isize) => (5nat, 'i', 'e'),
            Scalar::Int(IntTy::I8) => (2nat, 'i', '8'),
            Scalar::Int(IntTy::I16) => (3nat, 'i', '6'),
            Scalar::Int(IntTy::I32) => (3nat, 'i', '2'),
            Scalar::Int(IntTy::I64) => (3nat, 'i', '4'),
            Scalar::Int(IntTy::I128) => (4nat, 'i', '8'),
            Scalar::Uint(UintTy::Usize) => (5nat, 'u', 'e'),
            Scalar::Uint(UintTy::U8) => (2nat, 'u', '8'),
            Scalar::Uint(UintTy::U16) => (3nat, 'u', '6'),
            Scalar::Uint(UintTy::U32) => (3nat, 'u', '2'),
            Scalar::Uint(UintTy::U64) => (3nat, 'u', '4'),
            Scalar::Uint(UintTy::U128) => (4nat, 'u', '8'),
            Scalar::Float(FloatTy::F32) => (3nat, 'f', '2'),
            Scalar::Float(FloatTy::F64) => (3nat, 'f', '4'),
        },
{
    reveal_strlit("bool");
    reveal_strlit("char");
    reveal_strlit("isize");
    reveal_strlit("i8");
    reveal_strlit("i16");
    reveal_strlit("i32");
    reveal_strlit("i64");
    reveal_strlit("i128");
    reveal_strlit("usize");
    reveal_strlit("u8");
    reveal_strlit("u16");
    reveal_strlit("u32");
    reveal_strlit("u64");
    reveal_strlit("u128");
    reveal_strlit("f32");
    reveal_strlit("f64");
}

} // verus!
