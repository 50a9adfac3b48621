use vstd::prelude::*;

use crate::decimal::decimal_chars;
use crate::floatbits::unit_interval_bits;

verus! {

/// A JSON value: the input template and the synthesized payloads both live in
/// this type. Objects keep their keys in insertion order, so they are held as
/// a vector of pairs. A float leaf is held as the IEEE-754 bit pattern of the
/// 64-bit value, which keeps the tree free of floating-point arithmetic; the
/// boundary code that serializes a tree turns the bits back into a number.
#[derive(Debug, PartialEq, Eq)]
pub enum JsonValue {
    Null,
    Bool(bool),
    Int(i64),
    /// A number above the signed 64-bit range. The synthesizer recognizes no
    /// generator for it and passes it through unchanged.
    UInt(u64),
    Float(u64),
    Str(String),
    Array(Vec<JsonValue>),
    Object(Vec<(String, JsonValue)>),
}

/// The contract of the synthesizer: `v` is a legal synthesis of the template
/// `t`. Scalar leaves keep their type tag — a string leaf becomes the decimal
/// text of some 32-bit unsigned integer, a float leaf some unit-interval bit
/// pattern; an object keeps its key sequence, each value synthesized from the
/// matching template value; an empty template array stays empty, and a
/// non-empty one yields between one and four elements, each synthesized from
/// the template's first element.
pub open spec fn synthesized_from(t: JsonValue, v: JsonValue) -> bool
    decreases t,
{
    match t {
        JsonValue::Null => v is Null,
        JsonValue::Bool(_) => v is Bool,
        JsonValue::Int(_) => v is Int,
        JsonValue::UInt(u) => v == JsonValue::UInt(u),
        JsonValue::Float(_) => match v {
            JsonValue::Float(b) => unit_interval_bits(b),
            _ => false,
        },
        JsonValue::Str(_) => match v {
            JsonValue::Str(s) => exists|n: nat| n < 0x1_0000_0000 && s@ == decimal_chars(n),
            _ => false,
        },
        JsonValue::Array(ts) => match v {
            JsonValue::Array(vs) => {
                if ts@.len() == 0 {
                    vs@.len() == 0
                } else {
                    &&& 1 <= vs@.len() <= 4
                    &&& forall|i: int|
                        0 <= i < vs@.len() ==> synthesized_from(ts@[0], #[trigger] vs@[i])
                }
            },
            _ => false,
        },
        JsonValue::Object(tf) => match v {
            JsonValue::Object(vf) => {
                &&& vf@.len() == tf@.len()
                &&& forall|i: int|
                    0 <= i < tf@.len() ==> (#[trigger] vf@[i]).0@ == tf@[i].0@
                        && synthesized_from(tf@[i].1, vf@[i].1)
            },
            _ => false,
        },
    }
}

/// Two values have the same shape up to array arity: equal type tags at every
/// node, equal key sequences on objects with pairwise similar values, and
/// arrays that are empty together or non-empty together, with every element
/// of one similar to every element of the other.
pub open spec fn similar_shape(a: JsonValue, b: JsonValue) -> bool
    decreases a,
{
    match a {
        JsonValue::Null => b is Null,
        JsonValue::Bool(_) => b is Bool,
        JsonValue::Int(_) => b is Int,
        JsonValue::UInt(u) => b == JsonValue::UInt(u),
        JsonValue::Float(_) => b is Float,
        JsonValue::Str(_) => b is Str,
        JsonValue::Array(xs) => match b {
            JsonValue::Array(ys) => {
                &&& (xs@.len() == 0 <==> ys@.len() == 0)
                &&& forall|i: int, j: int|
                    0 <= i < xs@.len() && 0 <= j < ys@.len() ==> similar_shape(
                        #[trigger] xs@[i],
                        #[trigger] ys@[j],
                    )
            },
            _ => false,
        },
        JsonValue::Object(xf) => match b {
            JsonValue::Object(yf) => {
                &&& yf@.len() == xf@.len()
                &&& forall|i: int|
                    0 <= i < xf@.len() ==> (#[trigger] yf@[i]).0@ == xf@[i].0@
                        && similar_shape(xf@[i].1, yf@[i].1)
            },
            _ => false,
        },
    }
}

/// The nesting depth of a value: zero at a scalar leaf, one more than the
/// deepest element at an array or an object.
pub open spec fn depth(v: JsonValue) -> nat
    decreases v,
{
    match v {
        JsonValue::Array(vs) => 1 + depth_seq(vs@),
        JsonValue::Object(fs) => 1 + depth_fields(fs@),
        _ => 0,
    }
}

/// The deepest element of a sequence of values; zero when it is empty.
pub open spec fn depth_seq(s: Seq<JsonValue>) -> nat
    decreases s,
{
    if s.len() == 0 {
        0
    } else {
        let d0 = depth(s[0]);
        let dr = depth_seq(s.drop_first());
        if d0 > dr {
            d0
        } else {
            dr
        }
    }
}

/// The deepest value of a sequence of object fields; zero when it is empty.
pub open spec fn depth_fields(s: Seq<(String, JsonValue)>) -> nat
    decreases s,
{
    if s.len() == 0 {
        0
    } else {
        let d0 = depth(s[0].1);
        let dr = depth_fields(s.drop_first());
        if d0 > dr {
            d0
        } else {
            dr
        }
    }
}

proof fn lemma_depth_seq_const(s: Seq<JsonValue>, d: nat)
    requires
        s.len() > 0,
        forall|i: int| 0 <= i < s.len() ==> depth(#[trigger] s[i]) == d,
    ensures
        depth_seq(s) == d,
    decreases s.len(),
{
    assert(depth(s[0]) == d);
    if s.len() > 1 {
        assert forall|i: int| 0 <= i < s.drop_first().len() implies depth(
            #[trigger] s.drop_first()[i],
        ) == d by {
            assert(s.drop_first()[i] == s[i + 1]);
        }
        lemma_depth_seq_const(s.drop_first(), d);
    } else {
        assert(s.drop_first().len() == 0);
        assert(depth_seq(s.drop_first()) == 0);
    }
}

proof fn lemma_depth_fields_pointwise(x: Seq<(String, JsonValue)>, y: Seq<(String, JsonValue)>)
    requires
        x.len() == y.len(),
        forall|i: int| 0 <= i < x.len() ==> depth(#[trigger] x[i].1) == depth(#[trigger] y[i].1),
    ensures
        depth_fields(x) == depth_fields(y),
    decreases x.len(),
{
    if x.len() > 0 {
        assert forall|i: int| 0 <= i < x.drop_first().len() implies depth(
            #[trigger] x.drop_first()[i].1,
        ) == depth(#[trigger] y.drop_first()[i].1) by {
            assert(x.drop_first()[i] == x[i + 1]);
            assert(y.drop_first()[i] == y[i + 1]);
        }
        lemma_depth_fields_pointwise(x.drop_first(), y.drop_first());
    }
}

/// Values of the same shape nest equally deep. Together with
/// `lemma_syntheses_share_shape`, two syntheses of one template always have
/// the same nesting depth.
pub proof fn lemma_similar_equal_depth(a: JsonValue, b: JsonValue)
    requires
        similar_shape(a, b),
    ensures
        depth(a) == depth(b),
    decreases a,
{
    match a {
        JsonValue::Array(xs) => {
            let ys = b->Array_0;
            if xs@.len() > 0 {
                let d = depth(ys@[0]);
                assert forall|i: int| 0 <= i < xs@.len() implies depth(#[trigger] xs@[i]) == d by {
                    lemma_similar_equal_depth(xs@[i], ys@[0]);
                }
                assert forall|j: int| 0 <= j < ys@.len() implies depth(#[trigger] ys@[j]) == d by {
                    lemma_similar_equal_depth(xs@[0], ys@[j]);
                }
                lemma_depth_seq_const(xs@, d);
                lemma_depth_seq_const(ys@, d);
            }
        },
        JsonValue::Object(xf) => {
            let yf = b->Object_0;
            assert forall|i: int| 0 <= i < xf@.len() implies depth(#[trigger] xf@[i].1) == depth(
                #[trigger] yf@[i].1,
            ) by {
                lemma_similar_equal_depth(xf@[i].1, yf@[i].1);
            }
            lemma_depth_fields_pointwise(xf@, yf@);
        },
        _ => {},
    }
}

/// Every array of the value is represented by its first element: the other
/// elements nest exactly as deep. The synthesizer draws every array element
/// from the first one, so only under this condition can its output claim the
/// template's own nesting depth.
pub open spec fn arrays_first_representative(t: JsonValue) -> bool
    decreases t,
{
    match t {
        JsonValue::Array(ts) => forall|i: int|
            0 <= i < ts@.len() ==> depth(#[trigger] ts@[i]) == depth(ts@[0])
                && arrays_first_representative(ts@[i]),
        JsonValue::Object(fs) => forall|i: int|
            0 <= i < fs@.len() ==> arrays_first_representative((#[trigger] fs@[i]).1),
        _ => true,
    }
}

/// A synthesis nests exactly as deep as its template, provided every array
/// of the template is represented by its first element.
pub proof fn lemma_synthesis_keeps_depth(t: JsonValue, v: JsonValue)
    requires
        synthesized_from(t, v),
        arrays_first_representative(t),
    ensures
        depth(v) == depth(t),
    decreases t,
{
    match t {
        JsonValue::Array(ts) => {
            let vs = v->Array_0;
            if ts@.len() > 0 {
                let d = depth(ts@[0]);
                assert forall|i: int| 0 <= i < vs@.len() implies depth(#[trigger] vs@[i]) == d by {
                    lemma_synthesis_keeps_depth(ts@[0], vs@[i]);
                }
                lemma_depth_seq_const(vs@, d);
                lemma_depth_seq_const(ts@, d);
            }
        },
        JsonValue::Object(tf) => {
            let vf = v->Object_0;
            assert forall|i: int| 0 <= i < tf@.len() implies depth(#[trigger] tf@[i].1) == depth(
                #[trigger] vf@[i].1,
            ) by {
                lemma_synthesis_keeps_depth(tf@[i].1, vf@[i].1);
            }
            lemma_depth_fields_pointwise(tf@, vf@);
        },
        _ => {},
    }
}

/// Shape is a function of the template alone: any two legal syntheses of the
/// same template — in particular, the results of two successive calls of the
/// synthesizer on one template — have the same shape up to array arity.
pub proof fn lemma_syntheses_share_shape(t: JsonValue, a: JsonValue, b: JsonValue)
    requires
        synthesized_from(t, a),
        synthesized_from(t, b),
    ensures
        similar_shape(a, b),
    decreases t,
{
    match t {
        JsonValue::Array(ts) => {
            let xs = a->Array_0;
            let ys = b->Array_0;
            assert forall|i: int, j: int|
                0 <= i < xs@.len() && 0 <= j < ys@.len() implies similar_shape(
                #[trigger] xs@[i],
                #[trigger] ys@[j],
            ) by {
                lemma_syntheses_share_shape(ts@[0], xs@[i], ys@[j]);
            }
        },
        JsonValue::Object(tf) => {
            let xf = a->Object_0;
            let yf = b->Object_0;
            assert forall|i: int| 0 <= i < xf@.len() implies (#[trigger] yf@[i]).0@ == xf@[i].0@
                && similar_shape(xf@[i].1, yf@[i].1) by {
                lemma_syntheses_share_shape(tf@[i].1, xf@[i].1, yf@[i].1);
            }
        },
        _ => {},
    }
}

} // verus!
