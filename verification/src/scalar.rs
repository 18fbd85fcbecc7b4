//! The scalar family: a conversion capability per scalar type, the umbrella
//! capability over the closed set of kinds, and the tagged scalar itself.

use vstd::prelude::*;

verus! {

/// The view of an optional value: absent stays absent.
pub open spec fn viewed<T: View>(o: Option<T>) -> Option<T::V> {
    match o {
        Some(t) => Some(t@),
        None => None,
    }
}

/// The capability of a stored scalar to be read as a `T`.
///
/// `native` is the stored value where the stored kind is exactly `T`;
/// `coerced` is the view of what a conversion across kinds yields.
pub trait Scalar<T: View> {
    /// The stored value, present only where the stored kind is `T`.
    spec fn native(&self) -> Option<T>;

    /// The view of what coercion to `T` yields, absent where it fails.
    spec fn coerced(&self) -> Option<T::V>;

    /// Coercion extends exact extraction: a value stored as `T` coerces to
    /// itself.
    proof fn native_coerces(&self)
        ensures
            self.native().is_some() ==> self.coerced() == viewed(self.native()),
    ;

    /// Borrows the stored value, present only where the stored kind is `T`.
    fn scalar(&self) -> (r: Option<&T>)
        ensures
            r.is_some() == self.native().is_some(),
            r.is_some() ==> *r.unwrap() == self.native().unwrap(),
    ;

    /// Whether the stored kind is `T`.
    fn is_scalar(&self) -> (b: bool)
        ensures
            b == self.native().is_some(),
    {
        self.scalar().is_some()
    }

    /// Extracts the stored value, present only where the stored kind is `T`.
    fn to_scalar(&self) -> (r: Option<T>)
        ensures
            viewed(r) == viewed(self.native()),
    ;

    /// Converts the stored value to a `T`, across kinds where that is defined.
    fn as_scalar(&self) -> (r: Option<T>)
        ensures
            viewed(r) == self.coerced(),
    ;
}

/// A stored value that is exactly a `T` is also coercible to `T`, with the
/// same result; the converse need not hold.
pub proof fn exact_is_coercible<T: View, X: Scalar<T>>(x: &X)
    ensures
        x.native().is_some() ==> x.coerced().is_some() && x.coerced() == viewed(x.native()),
{
    x.native_coerces();
}

/// A double-precision number, held as its IEEE 754 bit pattern.
#[derive(Clone, Copy, Debug, PartialEq, Eq)]
pub struct FloatBits {
    pub bits: u64,
}

impl View for FloatBits {
    type V = u64;

    open spec fn view(&self) -> u64 {
        self.bits
    }
}

/// The umbrella capability over the four scalar kinds: wide signed integer,
/// double-precision number, text and byte sequence. Every accessor delegates
/// to the capability of its kind.
pub trait ScalarValue: Scalar<i128> + Scalar<FloatBits> + Scalar<String> + Scalar<Vec<u8>> {
    fn integer(&self) -> (r: Option<i128>)
        ensures
            r == Scalar::<i128>::native(self),
    {
        Scalar::<i128>::to_scalar(self)
    }

    fn is_integer(&self) -> (b: bool)
        ensures
            b == Scalar::<i128>::native(self).is_some(),
    {
        Scalar::<i128>::is_scalar(self)
    }

    fn as_integer(&self) -> (r: Option<i128>)
        ensures
            r == Scalar::<i128>::coerced(self),
    {
        Scalar::<i128>::as_scalar(self)
    }

    fn float(&self) -> (r: Option<FloatBits>)
        ensures
            r == Scalar::<FloatBits>::native(self),
    {
        Scalar::<FloatBits>::to_scalar(self)
    }

    fn is_float(&self) -> (b: bool)
        ensures
            b == Scalar::<FloatBits>::native(self).is_some(),
    {
        Scalar::<FloatBits>::is_scalar(self)
    }

    fn as_float(&self) -> (r: Option<FloatBits>)
        ensures
            viewed(r) == Scalar::<FloatBits>::coerced(self),
    {
        Scalar::<FloatBits>::as_scalar(self)
    }

    fn text(&self) -> (r: Option<&str>)
        ensures
            r.is_some() == Scalar::<String>::native(self).is_some(),
            r.is_some() ==> r.unwrap()@ == Scalar::<String>::native(self).unwrap()@,
    {
        match Scalar::<String>::scalar(self) {
            Some(s) => Some(s.as_str()),
            None => None,
        }
    }

    fn is_text(&self) -> (b: bool)
        ensures
            b == Scalar::<String>::native(self).is_some(),
    {
        Scalar::<String>::is_scalar(self)
    }

    fn as_text(&self) -> (r: Option<String>)
        ensures
            viewed(r) == Scalar::<String>::coerced(self),
    {
        Scalar::<String>::as_scalar(self)
    }

    fn binary(&self) -> (r: Option<&[u8]>)
        ensures
            r.is_some() == Scalar::<Vec<u8>>::native(self).is_some(),
            r.is_some() ==> r.unwrap()@ == Scalar::<Vec<u8>>::native(self).unwrap()@,
    {
        match Scalar::<Vec<u8>>::scalar(self) {
            Some(v) => Some(v.as_slice()),
            None => None,
        }
    }

    fn is_binary(&self) -> (b: bool)
        ensures
            b == Scalar::<Vec<u8>>::native(self).is_some(),
    {
        Scalar::<Vec<u8>>::is_scalar(self)
    }

    fn as_binary(&self) -> (r: Option<Vec<u8>>)
        ensures
            viewed(r) == Scalar::<Vec<u8>>::coerced(self),
    {
        Scalar::<Vec<u8>>::as_scalar(self)
    }
}

} // verus!
