//! The bytes of a native value, and of a run of native values.

use vstd::prelude::*;
use crate::encoding::{
    high_first_bytes, high_first_number, integer_bytes, lemma_high_first_number_of_bytes,
    lemma_low_first_bytes_len, lemma_low_first_number_of_bytes, low_first_bytes,
    low_first_number,
};
use crate::model::lemma_wrap_into_congruent;
use crate::native::{modular, ArrowNativeType};

verus! {

/// `u16::to_le` of the standard library: the number itself on a machine that
/// stores the least significant byte first, the number with its two bytes
/// swapped on any other.
pub assume_specification[ <u16>::to_le ](x: u16) -> (r: u16)
    ensures
        r == x || r == (x % 256) * 256 + x / 256,
;

/// The bytes of a run of values with the least significant byte of each
/// value first: the bytes of the first value, then those of the second, and
/// so on.
pub open spec fn run_low_first<T: ArrowNativeType>(values: Seq<T>) -> Seq<u8>
    decreases values.len(),
{
    if values.len() == 0 {
        Seq::empty()
    } else {
        run_low_first(values.drop_last()) + low_first_bytes(
            values.last().int_value(),
            T::byte_width(),
        )
    }
}

/// The bytes of a run of values with the most significant byte of each value
/// first: the bytes of the first value, then those of the second, and so on.
pub open spec fn run_high_first<T: ArrowNativeType>(values: Seq<T>) -> Seq<u8>
    decreases values.len(),
{
    if values.len() == 0 {
        Seq::empty()
    } else {
        run_high_first(values.drop_last()) + high_first_bytes(
            values.last().int_value(),
            T::byte_width(),
        )
    }
}

/// The value of `T` that `bytes` hold, the least significant byte first.
pub open spec fn from_low_first<T: ArrowNativeType>(bytes: Seq<u8>) -> T {
    modular::<T>(low_first_number(bytes))
}

/// The value of `T` that `bytes` hold, the most significant byte first.
pub open spec fn from_high_first<T: ArrowNativeType>(bytes: Seq<u8>) -> T {
    modular::<T>(high_first_number(bytes))
}

/// A view of a native value, or of a run of native values, as the bytes that
/// represent it in memory.
pub trait ToByteSlice {
    /// The bytes on a machine that stores the least significant byte of a
    /// value first.
    spec fn low_first_image(&self) -> Seq<u8>;

    /// The bytes on a machine that stores the most significant byte of a
    /// value first.
    spec fn high_first_image(&self) -> Seq<u8>;

    /// The bytes that represent `self` in memory, in the machine's byte
    /// order, which is one of the two.
    fn to_byte_slice(&self) -> (r: Vec<u8>)
        ensures
            r@ == self.low_first_image() || r@ == self.high_first_image(),
    ;
}

/// Whether this machine stores the least significant byte of a value first.
fn low_byte_first() -> bool {
    keeps_low_first(1u16.to_le())
}

/// What `u16::to_le` has made of the number 1 tells the machine's byte order:
/// the number comes back as it is where the least significant byte is stored
/// first, and with its two bytes swapped, as 256, where it is not.
fn keeps_low_first(probe: u16) -> (r: bool)
    ensures
        r == (probe == 1),
{
    probe == 1
}

impl<T: ArrowNativeType> ToByteSlice for [T] {
    open spec fn low_first_image(&self) -> Seq<u8> {
        run_low_first(self@)
    }

    open spec fn high_first_image(&self) -> Seq<u8> {
        run_high_first(self@)
    }

    fn to_byte_slice(&self) -> (r: Vec<u8>) {
        let low_first = low_byte_first();
        let width = std::mem::size_of::<T>();
        proof {
            T::lemma_model();
        }
        let mut out: Vec<u8> = Vec::new();
        let mut i: usize = 0;
        while i < self.len()
            invariant
                i <= self.len(),
                width == T::byte_width(),
                out@ == (if low_first {
                    run_low_first(self@.take(i as int))
                } else {
                    run_high_first(self@.take(i as int))
                }),
            decreases self.len() - i,
        {
            let mut bytes = integer_bytes(self[i].as_i128(), width, low_first);
            out.append(&mut bytes);
            proof {
                assert(self@.take(i + 1).drop_last() =~= self@.take(i as int));
            }
            i = i + 1;
        }
        assert(self@.take(self.len() as int) =~= self@);
        out
    }
}

impl<T: ArrowNativeType> ToByteSlice for T {
    open spec fn low_first_image(&self) -> Seq<u8> {
        low_first_bytes(self.int_value(), T::byte_width())
    }

    open spec fn high_first_image(&self) -> Seq<u8> {
        high_first_bytes(self.int_value(), T::byte_width())
    }

    fn to_byte_slice(&self) -> (r: Vec<u8>) {
        proof {
            T::lemma_model();
        }
        integer_bytes(self.as_i128(), std::mem::size_of::<T>(), low_byte_first())
    }
}

/// The integer that the bytes of a value spell, reduced into the range of the
/// value's type, is the integer that the value stands for.
proof fn lemma_value_of_patterns<T: ArrowNativeType>(v: T, number: int)
    requires
        number == v.int_value() % vstd::arithmetic::power::pow(256, T::byte_width()),
    ensures
        modular::<T>(number) == v,
{
    T::lemma_model();
    let n = T::max_int() - T::min_int() + 1;
    let i = v.int_value();
    vstd::arithmetic::div_mod::lemma_fundamental_div_mod(i, n);
    assert(number - i == (-(i / n)) * n) by (nonlinear_arith)
        requires
            i == n * (i / n) + number,
    ;
    vstd::arithmetic::div_mod::lemma_mod_multiples_basic(-(i / n), n);
    lemma_wrap_into_congruent(number, T::min_int(), T::max_int(), i);
}

/// The bytes of a native value are as many as the type is wide, and the value
/// that they hold, read in the order in which they were written, is the value
/// itself.
pub proof fn law_value_round_trip<T: ArrowNativeType>(v: T)
    ensures
        v.low_first_image().len() == T::byte_width(),
        v.high_first_image().len() == T::byte_width(),
        T::byte_width() == vstd::layout::size_of::<T>(),
        from_low_first::<T>(v.low_first_image()) == v,
        from_high_first::<T>(v.high_first_image()) == v,
{
    T::lemma_model();
    lemma_low_first_bytes_len(v.int_value(), T::byte_width());
    lemma_low_first_number_of_bytes(v.int_value(), T::byte_width());
    lemma_high_first_number_of_bytes(v.int_value(), T::byte_width());
    lemma_value_of_patterns(v, low_first_number(v.low_first_image()));
    lemma_value_of_patterns(v, high_first_number(v.high_first_image()));
}

/// The bytes of a run of values are the bytes of its values one after the
/// other, each as wide as the type.
proof fn lemma_run_layout<T: ArrowNativeType>(values: Seq<T>, i: int)
    requires
        0 <= i < values.len(),
    ensures
        run_low_first(values).len() == values.len() * T::byte_width(),
        run_high_first(values).len() == values.len() * T::byte_width(),
        0 <= i * T::byte_width() <= (i + 1) * T::byte_width() <= values.len() * T::byte_width(),
        run_low_first(values).subrange(i * T::byte_width(), (i + 1) * T::byte_width())
            == low_first_bytes(values[i].int_value(), T::byte_width()),
        run_high_first(values).subrange(i * T::byte_width(), (i + 1) * T::byte_width())
            == high_first_bytes(values[i].int_value(), T::byte_width()),
    decreases values.len(),
{
    let w = T::byte_width() as int;
    let n = values.len() as int;
    let front = values.drop_last();
    lemma_run_len(front);
    lemma_low_first_bytes_len(values.last().int_value(), T::byte_width());
    assert((n - 1) * w + w == n * w) by (nonlinear_arith);
    assert(0 <= i * w <= (i + 1) * w <= n * w) by (nonlinear_arith)
        requires
            0 <= i < n,
            0 <= w,
    ;
    if i == n - 1 {
        assert(run_low_first(values).subrange(i * w, (i + 1) * w) =~= low_first_bytes(
            values[i].int_value(),
            T::byte_width(),
        ));
        assert(run_high_first(values).subrange(i * w, (i + 1) * w) =~= high_first_bytes(
            values[i].int_value(),
            T::byte_width(),
        ));
    } else {
        lemma_run_layout(front, i);
        assert((i + 1) * w <= (n - 1) * w) by (nonlinear_arith)
            requires
                i + 1 <= n - 1,
                0 <= w,
        ;
        assert(run_low_first(values).subrange(i * w, (i + 1) * w) =~= run_low_first(
            front,
        ).subrange(i * w, (i + 1) * w));
        assert(run_high_first(values).subrange(i * w, (i + 1) * w) =~= run_high_first(
            front,
        ).subrange(i * w, (i + 1) * w));
    }
}

/// A run of values has as many bytes as it has values, times the width of
/// the type.
proof fn lemma_run_len<T: ArrowNativeType>(values: Seq<T>)
    ensures
        run_low_first(values).len() == values.len() * T::byte_width(),
        run_high_first(values).len() == values.len() * T::byte_width(),
    decreases values.len(),
{
    let w = T::byte_width() as int;
    let n = values.len() as int;
    if n > 0 {
        lemma_run_len(values.drop_last());
        lemma_low_first_bytes_len(values.last().int_value(), T::byte_width());
        assert((n - 1) * w + w == n * w) by (nonlinear_arith);
    } else {
        assert(0 * w == 0) by (nonlinear_arith);
    }
}

/// The bytes of a run of `n` values are `n` times the width of the type, and
/// cut into pieces of that width they hold, piece by piece and read in the
/// order in which they were written, the values of the run.
pub proof fn law_run_round_trip<T: ArrowNativeType>(values: Seq<T>)
    ensures
        run_low_first(values).len() == values.len() * T::byte_width(),
        run_high_first(values).len() == values.len() * T::byte_width(),
        T::byte_width() == vstd::layout::size_of::<T>(),
        forall|i: int|
            0 <= i < values.len() ==> from_low_first::<T>(
                #[trigger] run_low_first(values).subrange(
                    i * T::byte_width(),
                    (i + 1) * T::byte_width(),
                ),
            ) == values[i],
        forall|i: int|
            0 <= i < values.len() ==> from_high_first::<T>(
                #[trigger] run_high_first(values).subrange(
                    i * T::byte_width(),
                    (i + 1) * T::byte_width(),
                ),
            ) == values[i],
{
    T::lemma_model();
    lemma_run_len(values);
    assert forall|i: int| 0 <= i < values.len() implies from_low_first::<T>(
        #[trigger] run_low_first(values).subrange(i * T::byte_width(), (i + 1) * T::byte_width()),
    ) == values[i] by {
        lemma_run_layout(values, i);
        law_value_round_trip(values[i]);
    }
    assert forall|i: int| 0 <= i < values.len() implies from_high_first::<T>(
        #[trigger] run_high_first(values).subrange(
            i * T::byte_width(),
            (i + 1) * T::byte_width(),
        ),
    ) == values[i] by {
        lemma_run_layout(values, i);
        law_value_round_trip(values[i]);
    }
}

} // verus!
