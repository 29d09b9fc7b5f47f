use vstd::prelude::*;

use crate::numbers::Real;

verus! {

/// Column or row vector: an ordered, fixed-length sequence of real numbers, `elems()`.
///
/// An implementation verified with Verus defines `elems`; its default body only lets
/// a type implement the trait outside Verus, and says nothing of any vector.
pub trait BaseVector<T: Real>: Clone + core::fmt::Debug + Sized {
    /// The elements of the vector, in order.
    closed spec fn elems(&self) -> Seq<T> {
        vstd::pervasive::arbitrary()
    }

    /// Get an element of a vector
    /// * `i` - index of an element
    fn get(&self, i: usize) -> (r: T)
        requires
            i < self.elems().len(),
        ensures
            r == self.elems()[i as int],
    ;

    /// Set an element at `i` to `x`
    /// * `i` - index of an element
    /// * `x` - new value
    fn set(&mut self, i: usize, x: T)
        requires
            i < old(self).elems().len(),
        ensures
            final(self).elems() == old(self).elems().update(i as int, x),
    ;

    /// Get number of element in the vector
    fn len(&self) -> (r: usize)
        ensures
            r == self.elems().len(),
    ;

    /// Return true if the vector is empty.
    fn is_empty(&self) -> (r: bool)
        ensures
            r == (self.elems().len() == 0),
    {
        self.len() == 0
    }

    /// Create a new vector from a &[T]
    fn from_array(arr: &[T]) -> (r: Self)
        ensures
            r.elems() == arr@,
    {
        let n = arr.len();
        let mut v = Self::zeros(n);
        let mut i: usize = 0;
        while i < n
            invariant
                n == arr@.len(),
                i <= n,
                v.elems().len() == n,
                forall|j: int| 0 <= j < i ==> v.elems()[j] == arr@[j],
            decreases n - i,
        {
            v.set(i, arr[i]);
            i = i + 1;
        }
        assert(v.elems() =~= arr@);
        v
    }

    /// Return a vector with the elements of the one-dimensional array.
    fn to_vec(&self) -> (r: Vec<T>)
        ensures
            r@ == self.elems(),
    ;

    /// Create new vector with zeros of size `len`.
    fn zeros(len: usize) -> (r: Self)
        ensures
            r.elems() == Seq::new(len as nat, |i: int| T::spec_zero()),
    ;

    /// Create new vector with ones of size `len`.
    fn ones(len: usize) -> (r: Self)
        ensures
            r.elems() == Seq::new(len as nat, |i: int| T::spec_one()),
    ;

    /// Create new vector with `len` where each element is set to `value`.
    fn fill(len: usize, value: T) -> (r: Self)
        ensures
            r.elems() == Seq::new(len as nat, |i: int| value),
    ;

    /// Vector dot product
    fn dot(&self, other: &Self) -> (r: T)
        requires
            self.elems().len() == other.elems().len(),
    ;

    /// Return true if vectors are element-wise equal within a tolerance `eps`.
    fn approximate_eq(&self, other: &Self, eps: T) -> (r: bool)
        ensures
            self.elems().len() != other.elems().len() ==> !r,
            r ==> forall|i: int|
                0 <= i < self.elems().len() ==> !T::spec_lt(
                    eps,
                    T::spec_abs(T::spec_sub(self.elems()[i], other.elems()[i])),
                ),
    ;

    /// Return [L2 norm](https://en.wikipedia.org/wiki/Matrix_norm) of the vector.
    fn norm2(&self) -> T;

    /// Return [vectors norm](https://en.wikipedia.org/wiki/Matrix_norm) of order `p`.
    fn norm(&self, p: T) -> T;

    /// Divide single element of the vector by `x`, write result to original vector.
    fn div_element_mut(&mut self, pos: usize, x: T)
        requires
            pos < old(self).elems().len(),
        ensures
            final(self).elems() == old(self).elems().update(
                pos as int,
                T::spec_div(old(self).elems()[pos as int], x),
            ),
    ;

    /// Multiply single element of the vector by `x`, write result to original vector.
    fn mul_element_mut(&mut self, pos: usize, x: T)
        requires
            pos < old(self).elems().len(),
        ensures
            final(self).elems() == old(self).elems().update(
                pos as int,
                T::spec_mul(old(self).elems()[pos as int], x),
            ),
    ;

    /// Add single element of the vector to `x`, write result to original vector.
    fn add_element_mut(&mut self, pos: usize, x: T)
        requires
            pos < old(self).elems().len(),
        ensures
            final(self).elems() == old(self).elems().update(
                pos as int,
                T::spec_add(old(self).elems()[pos as int], x),
            ),
    ;

    /// Subtract `x` from single element of the vector, write result to the original vector.
    fn sub_element_mut(&mut self, pos: usize, x: T)
        requires
            pos < old(self).elems().len(),
        ensures
            final(self).elems() == old(self).elems().update(
                pos as int,
                T::spec_sub(old(self).elems()[pos as int], x),
            ),
    ;

    /// Add vectors, element-wise, overriding original vector with result.
    fn add_mut(&mut self, other: &Self) -> (r: &Self)
        requires
            old(self).elems().len() == other.elems().len(),
        ensures
            final(self).elems() == Seq::new(
                other.elems().len(),
                |i: int| T::spec_add(old(self).elems()[i], other.elems()[i]),
            ),
            r.elems() == final(self).elems(),
    ;

    /// Subtract vectors, element-wise, overriding original vector with result.
    fn sub_mut(&mut self, other: &Self) -> (r: &Self)
        requires
            old(self).elems().len() == other.elems().len(),
        ensures
            final(self).elems() == Seq::new(
                other.elems().len(),
                |i: int| T::spec_sub(old(self).elems()[i], other.elems()[i]),
            ),
            r.elems() == final(self).elems(),
    ;

    /// Multiply vectors, element-wise, overriding original vector with result.
    fn mul_mut(&mut self, other: &Self) -> (r: &Self)
        requires
            old(self).elems().len() == other.elems().len(),
        ensures
            final(self).elems() == Seq::new(
                other.elems().len(),
                |i: int| T::spec_mul(old(self).elems()[i], other.elems()[i]),
            ),
            r.elems() == final(self).elems(),
    ;

    /// Divide vectors, element-wise, overriding original vector with result.
    fn div_mut(&mut self, other: &Self) -> (r: &Self)
        requires
            old(self).elems().len() == other.elems().len(),
        ensures
            final(self).elems() == Seq::new(
                other.elems().len(),
                |i: int| T::spec_div(old(self).elems()[i], other.elems()[i]),
            ),
            r.elems() == final(self).elems(),
    ;

    /// Add vectors, element-wise
    fn add(&self, other: &Self) -> (r: Self)
        requires
            self.elems().len() == other.elems().len(),
        ensures
            r.elems() == Seq::new(
                self.elems().len(),
                |i: int| T::spec_add(self.elems()[i], other.elems()[i]),
            ),
    {
        // a fresh, independent copy of `self`, through its elements
        let items = self.to_vec();
        let mut r = Self::from_array(items.as_slice());
        r.add_mut(other);
        r
    }

    /// Subtract vectors, element-wise
    fn sub(&self, other: &Self) -> (r: Self)
        requires
            self.elems().len() == other.elems().len(),
        ensures
            r.elems() == Seq::new(
                self.elems().len(),
                |i: int| T::spec_sub(self.elems()[i], other.elems()[i]),
            ),
    {
        // a fresh, independent copy of `self`, through its elements
        let items = self.to_vec();
        let mut r = Self::from_array(items.as_slice());
        r.sub_mut(other);
        r
    }

    /// Multiply vectors, element-wise
    fn mul(&self, other: &Self) -> (r: Self)
        requires
            self.elems().len() == other.elems().len(),
        ensures
            r.elems() == Seq::new(
                self.elems().len(),
                |i: int| T::spec_mul(self.elems()[i], other.elems()[i]),
            ),
    {
        // a fresh, independent copy of `self`, through its elements
        let items = self.to_vec();
        let mut r = Self::from_array(items.as_slice());
        r.mul_mut(other);
        r
    }

    /// Divide vectors, element-wise
    fn div(&self, other: &Self) -> (r: Self)
        requires
            self.elems().len() == other.elems().len(),
        ensures
            r.elems() == Seq::new(
                self.elems().len(),
                |i: int| T::spec_div(self.elems()[i], other.elems()[i]),
            ),
    {
        // a fresh, independent copy of `self`, through its elements
        let items = self.to_vec();
        let mut r = Self::from_array(items.as_slice());
        r.div_mut(other);
        r
    }

    /// Calculates sum of all elements of the vector.
    fn sum(&self) -> (r: T)
        ensures
            r == sum_of(self.elems()),
    ;

    /// Returns unique values from the vector.
    fn unique(&self) -> (r: Vec<T>)
        ensures
            forall|x: T| r@.contains(x) <==> self.elems().contains(x),
            r@.no_duplicates(),
    ;

    /// Compute the arithmetic mean.
    fn mean(&self) -> (r: T)
        ensures
            r == mean_of(self.elems()),
    {
        self.sum().div(T::from_usize(self.len()))
    }

    /// Compute the variance.
    fn var(&self) -> (r: T)
        ensures
            r == var_of(self.elems()),
    {
        let n = self.len();
        let mut mu = T::zero();
        let mut sum = T::zero();
        let div = T::from_usize(n);
        let mut i: usize = 0;
        while i < n
            invariant
                n == self.elems().len(),
                i <= n,
                mu == sum_of(self.elems().subrange(0, i as int)),
                sum == sum_of_squares(self.elems().subrange(0, i as int)),
            decreases n - i,
        {
            let xi = self.get(i);
            proof {
                let s = self.elems().subrange(0, i as int + 1);
                assert(s.drop_last() =~= self.elems().subrange(0, i as int));
            }
            mu = mu.add(xi);
            sum = sum.add(xi.mul(xi));
            i = i + 1;
        }
        assert(self.elems().subrange(0, n as int) =~= self.elems());
        mu = mu.div(div);
        sum.div(div).sub(mu.mul(mu))
    }

    /// Compute the standard deviation.
    fn std_dev(&self) -> (r: T)
        ensures
            r == T::spec_sqrt(var_of(self.elems())),
    {
        self.var().sqrt()
    }
}

/// The sum of `s`, added from left to right starting at zero.
pub open spec fn sum_of<T: Real>(s: Seq<T>) -> T
    decreases s.len(),
{
    if s.len() == 0 {
        T::spec_zero()
    } else {
        T::spec_add(sum_of(s.drop_last()), s.last())
    }
}

/// The sum of the squares of `s`, added from left to right starting at zero.
pub open spec fn sum_of_squares<T: Real>(s: Seq<T>) -> T
    decreases s.len(),
{
    if s.len() == 0 {
        T::spec_zero()
    } else {
        T::spec_add(sum_of_squares(s.drop_last()), T::spec_mul(s.last(), s.last()))
    }
}

/// The inner product of `a` and `b`: the products of their elements, added from left
/// to right starting at zero.
pub open spec fn dot_of<T: Real>(a: Seq<T>, b: Seq<T>) -> T
    decreases a.len(),
{
    if a.len() == 0 || b.len() == 0 {
        T::spec_zero()
    } else {
        T::spec_add(dot_of(a.drop_last(), b.drop_last()), T::spec_mul(a.last(), b.last()))
    }
}

/// The arithmetic mean of `s`: its sum divided by its length.
pub open spec fn mean_of<T: Real>(s: Seq<T>) -> T {
    T::spec_div(sum_of(s), T::spec_of_int(s.len() as int))
}

/// The variance of `s` as the mean of the squares less the square of the mean.
pub open spec fn var_of<T: Real>(s: Seq<T>) -> T {
    let n = T::spec_of_int(s.len() as int);
    let mu = T::spec_div(sum_of(s), n);
    T::spec_sub(T::spec_div(sum_of_squares(s), n), T::spec_mul(mu, mu))
}

/// A vector rebuilt from its own elements holds the same elements, in the same order.
pub proof fn lemma_from_array_to_vec<T: Real, V: BaseVector<T>>(v: V, items: Vec<T>, w: V)
    requires
        items@ == v.elems(),
        w.elems() == items@,
    ensures
        w.elems() == v.elems(),
        w.elems().len() == v.elems().len(),
{
}

} // verus!
