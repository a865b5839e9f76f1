use vstd::prelude::*;
use vstd::std_specs::ops::{AddSpec, MulSpec};

verus! {

/// The distance between two integers.
pub open spec fn distance(a: int, b: int) -> int {
    if a >= b {
        a - b
    } else {
        b - a
    }
}

/// An integer scalar kind: a fixed-width integer type whose values stand for
/// mathematical integers, compared exactly.
///
/// Every signed and unsigned width of the language implements it. Its
/// arithmetic operators are those of the type itself; the proof function ties
/// them to integer arithmetic so that laws can be stated once for all kinds.
pub trait Scalar: Sized + Copy + core::ops::Add<Output = Self> + core::ops::Sub<
    Output = Self,
> + core::ops::Mul<Output = Self> + core::ops::Div<Output = Self> {
    /// The mathematical integer a value stands for.
    spec fn value(self) -> int;

    /// Whether `v` is a value of this kind.
    spec fn fits(v: int) -> bool;

    /// Values are integers of the kind's range, told apart by their integer;
    /// `+` and `*` are integer addition and multiplication, defined exactly
    /// when the result fits.
    proof fn lemma_integer(a: Self, b: Self)
        ensures
            Self::fits(a.value()),
            a.value() == b.value() <==> a == b,
            Self::obeys_add_spec(),
            a.add_req(b) <==> Self::fits(a.value() + b.value()),
            a.add_req(b) ==> a.add_spec(b).value() == a.value() + b.value(),
            Self::obeys_mul_spec(),
            a.mul_req(b) <==> Self::fits(a.value() * b.value()),
            a.mul_req(b) ==> a.mul_spec(b).value() == a.value() * b.value(),
    ;

    /// The value zero of the kind.
    fn zero() -> (r: Self)
        ensures
            r.value() == 0,
    ;

    /// The value one of the kind.
    fn one() -> (r: Self)
        ensures
            r.value() == 1,
    ;

    /// Exact comparison.
    fn same(self, other: Self) -> (r: bool)
        ensures
            r == (self.value() == other.value()),
    ;

    /// Whether `self` and `other` differ by no more than `tol`.
    fn within(self, other: Self, tol: Self) -> (r: bool)
        ensures
            r == (distance(self.value(), other.value()) <= tol.value()),
    ;
}

impl Scalar for i8 {
    open spec fn value(self) -> int {
        self as int
    }

    open spec fn fits(v: int) -> bool {
        i8::MIN <= v <= i8::MAX
    }

    proof fn lemma_integer(a: i8, b: i8) {
    }

    fn zero() -> (r: i8) {
        0
    }

    fn one() -> (r: i8) {
        1
    }

    fn same(self, other: i8) -> (r: bool) {
        self == other
    }

    fn within(self, other: i8, tol: i8) -> (r: bool) {
        let d: i128 = self as i128 - other as i128;
        let d: i128 = if d < 0 {
            -d
        } else {
            d
        };
        d <= tol as i128
    }
}

impl Scalar for u8 {
    open spec fn value(self) -> int {
        self as int
    }

    open spec fn fits(v: int) -> bool {
        u8::MIN <= v <= u8::MAX
    }

    proof fn lemma_integer(a: u8, b: u8) {
    }

    fn zero() -> (r: u8) {
        0
    }

    fn one() -> (r: u8) {
        1
    }

    fn same(self, other: u8) -> (r: bool) {
        self == other
    }

    fn within(self, other: u8, tol: u8) -> (r: bool) {
        let d: i128 = self as i128 - other as i128;
        let d: i128 = if d < 0 {
            -d
        } else {
            d
        };
        d <= tol as i128
    }
}

impl Scalar for i16 {
    open spec fn value(self) -> int {
        self as int
    }

    open spec fn fits(v: int) -> bool {
        i16::MIN <= v <= i16::MAX
    }

    proof fn lemma_integer(a: i16, b: i16) {
    }

    fn zero() -> (r: i16) {
        0
    }

    fn one() -> (r: i16) {
        1
    }

    fn same(self, other: i16) -> (r: bool) {
        self == other
    }

    fn within(self, other: i16, tol: i16) -> (r: bool) {
        let d: i128 = self as i128 - other as i128;
        let d: i128 = if d < 0 {
            -d
        } else {
            d
        };
        d <= tol as i128
    }
}

impl Scalar for u16 {
    open spec fn value(self) -> int {
        self as int
    }

    open spec fn fits(v: int) -> bool {
        u16::MIN <= v <= u16::MAX
    }

    proof fn lemma_integer(a: u16, b: u16) {
    }

    fn zero() -> (r: u16) {
        0
    }

    fn one() -> (r: u16) {
        1
    }

    fn same(self, other: u16) -> (r: bool) {
        self == other
    }

    fn within(self, other: u16, tol: u16) -> (r: bool) {
        let d: i128 = self as i128 - other as i128;
        let d: i128 = if d < 0 {
            -d
        } else {
            d
        };
        d <= tol as i128
    }
}

impl Scalar for i32 {
    open spec fn value(self) -> int {
        self as int
    }

    open spec fn fits(v: int) -> bool {
        i32::MIN <= v <= i32::MAX
    }

    proof fn lemma_integer(a: i32, b: i32) {
    }

    fn zero() -> (r: i32) {
        0
    }

    fn one() -> (r: i32) {
        1
    }

    fn same(self, other: i32) -> (r: bool) {
        self == other
    }

    fn within(self, other: i32, tol: i32) -> (r: bool) {
        let d: i128 = self as i128 - other as i128;
        let d: i128 = if d < 0 {
            -d
        } else {
            d
        };
        d <= tol as i128
    }
}

impl Scalar for u32 {
    open spec fn value(self) -> int {
        self as int
    }

    open spec fn fits(v: int) -> bool {
        u32::MIN <= v <= u32::MAX
    }

    proof fn lemma_integer(a: u32, b: u32) {
    }

    fn zero() -> (r: u32) {
        0
    }

    fn one() -> (r: u32) {
        1
    }

    fn same(self, other: u32) -> (r: bool) {
        self == other
    }

    fn within(self, other: u32, tol: u32) -> (r: bool) {
        let d: i128 = self as i128 - other as i128;
        let d: i128 = if d < 0 {
            -d
        } else {
            d
        };
        d <= tol as i128
    }
}

impl Scalar for i64 {
    open spec fn value(self) -> int {
        self as int
    }

    open spec fn fits(v: int) -> bool {
        i64::MIN <= v <= i64::MAX
    }

    proof fn lemma_integer(a: i64, b: i64) {
    }

    fn zero() -> (r: i64) {
        0
    }

    fn one() -> (r: i64) {
        1
    }

    fn same(self, other: i64) -> (r: bool) {
        self == other
    }

    fn within(self, other: i64, tol: i64) -> (r: bool) {
        let d: i128 = self as i128 - other as i128;
        let d: i128 = if d < 0 {
            -d
        } else {
            d
        };
        d <= tol as i128
    }
}

impl Scalar for u64 {
    open spec fn value(self) -> int {
        self as int
    }

    open spec fn fits(v: int) -> bool {
        u64::MIN <= v <= u64::MAX
    }

    proof fn lemma_integer(a: u64, b: u64) {
    }

    fn zero() -> (r: u64) {
        0
    }

    fn one() -> (r: u64) {
        1
    }

    fn same(self, other: u64) -> (r: bool) {
        self == other
    }

    fn within(self, other: u64, tol: u64) -> (r: bool) {
        let d: i128 = self as i128 - other as i128;
        let d: i128 = if d < 0 {
            -d
        } else {
            d
        };
        d <= tol as i128
    }
}

impl Scalar for isize {
    open spec fn value(self) -> int {
        self as int
    }

    open spec fn fits(v: int) -> bool {
        isize::MIN <= v <= isize::MAX
    }

    proof fn lemma_integer(a: isize, b: isize) {
    }

    fn zero() -> (r: isize) {
        0
    }

    fn one() -> (r: isize) {
        1
    }

    fn same(self, other: isize) -> (r: bool) {
        self == other
    }

    fn within(self, other: isize, tol: isize) -> (r: bool) {
        let d: i128 = self as i128 - other as i128;
        let d: i128 = if d < 0 {
            -d
        } else {
            d
        };
        d <= tol as i128
    }
}

impl Scalar for usize {
    open spec fn value(self) -> int {
        self as int
    }

    open spec fn fits(v: int) -> bool {
        usize::MIN <= v <= usize::MAX
    }

    proof fn lemma_integer(a: usize, b: usize) {
    }

    fn zero() -> (r: usize) {
        0
    }

    fn one() -> (r: usize) {
        1
    }

    fn same(self, other: usize) -> (r: bool) {
        self == other
    }

    fn within(self, other: usize, tol: usize) -> (r: bool) {
        let d: i128 = self as i128 - other as i128;
        let d: i128 = if d < 0 {
            -d
        } else {
            d
        };
        d <= tol as i128
    }
}

} // verus!
