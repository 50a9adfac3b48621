use vstd::prelude::*;

use crate::decimal::u32_decimal;
use crate::floatbits::is_finite_f64_bits;
use crate::floatbits::lemma_unit_bits_finite;
use crate::floatbits::unit_float_bits;
use crate::floatbits::unit_interval_bits;
use crate::json::synthesized_from;
use crate::json::JsonValue;

verus! {

/// Relies on rand::random, the entry to rand's thread-local generator, to
/// draw one value of a samplable type. Nothing is promised of a random value.
pub assume_specification<T>[ rand::random::<T> ]() -> (r: T)
    where
        rand::distributions::Standard: rand::distributions::Distribution<T>,
;

/// A uniformly random element count for a synthesized array: one to four
/// inclusive. The four residues of a random 32-bit value are equally likely.
fn random_array_len() -> (n: usize)
    ensures
        1 <= n <= 4,
{
    let r = rand::random::<u32>();
    ((r % 4) + 1) as usize
}

/// The bit pattern of a random 64-bit float drawn uniformly from [0, 1).
fn random_unit_float_bits() -> (b: u64)
    ensures
        unit_interval_bits(b),
{
    unit_float_bits(rand::random::<u64>())
}

/// Synthesizes a random payload from a template: the result keeps the
/// template's shape — see `synthesized_from` — while every scalar leaf is drawn
/// fresh. A string leaf becomes the decimal text of a random 32-bit integer,
/// an integer leaf a random 64-bit integer, a float leaf a random unit
/// -interval value (with a defensive fall-back to the integer zero should the
/// drawn pattern ever be non-finite), a boolean leaf a fair coin; null passes
/// through. Arrays draw one to four elements from the template's first
/// element; objects keep every key in order.
#[verifier::loop_isolation(false)]
pub fn synthesize(template: &JsonValue) -> (r: JsonValue)
    ensures
        synthesized_from(*template, r),
    decreases *template,
{
    match template {
        JsonValue::Null => JsonValue::Null,
        JsonValue::Bool(_) => JsonValue::Bool(rand::random::<bool>()),
        JsonValue::Int(_) => JsonValue::Int(rand::random::<i64>()),
        JsonValue::UInt(u) => JsonValue::UInt(*u),
        JsonValue::Float(_) => {
            let b = random_unit_float_bits();
            if is_finite_f64_bits(b) {
                JsonValue::Float(b)
            } else {
                proof {
                    lemma_unit_bits_finite(b);
                }
                JsonValue::Int(0)
            }
        },
        JsonValue::Str(_) => JsonValue::Str(u32_decimal(rand::random::<u32>())),
        JsonValue::Array(ts) => {
            let mut out: Vec<JsonValue> = Vec::new();
            if ts.len() > 0 {
                let n = random_array_len();
                let mut j: usize = 0;
                while j < n
                    invariant
                        out@.len() == j,
                        j <= n,
                        forall|i: int|
                            0 <= i < out@.len() ==> synthesized_from(ts@[0], #[trigger] out@[i]),
                    decreases n - j,
                {
                    let item = synthesize(&ts[0]);
                    out.push(item);
                    j = j + 1;
                }
            }
            JsonValue::Array(out)
        },
        JsonValue::Object(tf) => {
            let mut out: Vec<(String, JsonValue)> = Vec::new();
            let mut i: usize = 0;
            while i < tf.len()
                invariant
                    out@.len() == i,
                    i <= tf@.len(),
                    forall|j: int|
                        0 <= j < out@.len() ==> (#[trigger] out@[j]).0@ == tf@[j].0@
                            && synthesized_from(tf@[j].1, out@[j].1),
                decreases tf@.len() - i,
            {
                let pair = &tf[i];
                let key = String::from_str(pair.0.as_str());
                let val = synthesize(&pair.1);
                out.push((key, val));
                i = i + 1;
            }
            JsonValue::Object(out)
        },
    }
}

} // verus!
