use vstd::prelude::*;
use vstd::std_specs::ops::AddSpec;
use vstd::std_specs::ops::MulSpec;
use vstd::std_specs::ops::SubSpec;
use crate::engine::math::scalar::always_adds;
use crate::engine::math::scalar::always_multiplies;
use crate::engine::math::scalar::is_difference;
use crate::engine::math::scalar::is_product;
use crate::engine::math::scalar::is_sum;

verus! {

/// A grid of `R` rows and `C` columns of values of type `T`.
#[derive(PartialEq, Debug, Clone, Copy)]
pub struct Matrix<T, const R: usize, const C: usize>(pub [[T; C]; R]);

impl<T, const R: usize, const C: usize> Matrix<T, R, C> {
    /// The entry in row `i` and column `j`.
    pub open spec fn at(self, i: int, j: int) -> T {
        self.0[i][j]
    }
}

impl<T: core::ops::Add<Output = T> + Copy, const R: usize, const C: usize> Matrix<T, R, C> {
    /// Every pair of matching entries can be added.
    pub open spec fn can_add(self, rhs: Self) -> bool {
        forall|i: int, j: int|
            0 <= i < R && 0 <= j < C ==> (#[trigger] self.at(i, j)).add_req(rhs.at(i, j))
    }

    /// Every entry is what adding the matching entries of `a` and `b`
    /// gave.
    pub open spec fn is_sum_of(self, a: Self, b: Self) -> bool {
        forall|i: int, j: int|
            0 <= i < R && 0 <= j < C ==> is_sum(a.at(i, j), b.at(i, j), #[trigger] self.at(i, j))
    }
}

impl<T: core::ops::Sub<Output = T> + Copy, const R: usize, const C: usize> Matrix<T, R, C> {
    /// Every pair of matching entries can be subtracted.
    pub open spec fn can_sub(self, rhs: Self) -> bool {
        forall|i: int, j: int|
            0 <= i < R && 0 <= j < C ==> (#[trigger] self.at(i, j)).sub_req(rhs.at(i, j))
    }

    /// Every entry is what taking the matching entry of `b` away from
    /// that of `a` gave.
    pub open spec fn is_difference_of(self, a: Self, b: Self) -> bool {
        forall|i: int, j: int|
            0 <= i < R && 0 <= j < C ==> is_difference(
                a.at(i, j),
                b.at(i, j),
                #[trigger] self.at(i, j),
            )
    }
}

impl<
    T: core::ops::Add<Output = T> + core::ops::Mul<Output = T> + Copy + Default,
    const R: usize,
    const C: usize,
> Matrix<T, R, C> {
    /// The sum that starts at `seed` and adds, in order, the first `n`
    /// products of an entry of row `i` of `self` with the matching entry of
    /// column `j` of `rhs`.
    pub open spec fn row_by_column<const K: usize>(
        self,
        rhs: Matrix<T, C, K>,
        seed: T,
        i: int,
        j: int,
        n: int,
    ) -> T
        decreases n,
    {
        if n <= 0 {
            seed
        } else {
            self.row_by_column(rhs, seed, i, j, n - 1).add_spec(
                self.at(i, n - 1).mul_spec(rhs.at(n - 1, j)),
            )
        }
    }

    /// `value` is what the operators of `T` gave for the sum that starts
    /// at `seed` and adds, in order, the first `n` products of an entry of
    /// row `i` of `self` with the matching entry of column `j` of `rhs`.
    pub open spec fn is_row_by_column<const K: usize>(
        self,
        rhs: Matrix<T, C, K>,
        seed: T,
        i: int,
        j: int,
        n: int,
        value: T,
    ) -> bool
        decreases n,
    {
        if n <= 0 {
            value == seed
        } else {
            exists|before: T, term: T|
                #![trigger is_sum(before, term, value)]
                {
                    &&& self.is_row_by_column(rhs, seed, i, j, n - 1, before)
                    &&& is_product(self.at(i, n - 1), rhs.at(n - 1, j), term)
                    &&& is_sum(before, term, value)
                }
        }
    }

    /// Every product and every partial sum of the multiplication that
    /// starts its sums at `seed` can be computed.
    pub open spec fn can_mul<const K: usize>(self, rhs: Matrix<T, C, K>, seed: T) -> bool {
        forall|i: int, j: int, n: int|
            0 <= i < R && 0 <= j < K && 0 <= n < C ==> self.at(i, n).mul_req(rhs.at(n, j)) && (
            #[trigger] self.row_by_column(rhs, seed, i, j, n)).add_req(
                self.at(i, n).mul_spec(rhs.at(n, j)),
            )
    }
}

impl<
    T: core::ops::Add<Output = T> + core::ops::Mul<Output = T> + Copy + Default,
    const R: usize,
    const K: usize,
> Matrix<T, R, K> {
    /// Every entry is what the operators of `T` gave for the products of
    /// a row of `a` with a column of `b`, summed from `seed`.
    pub open spec fn is_product_of<const C: usize>(
        self,
        a: Matrix<T, R, C>,
        b: Matrix<T, C, K>,
        seed: T,
    ) -> bool {
        forall|i: int, j: int|
            0 <= i < R && 0 <= j < K ==> a.is_row_by_column(
                b,
                seed,
                i,
                j,
                C as int,
                #[trigger] self.at(i, j),
            )
    }
}

impl<T, const R: usize, const C: usize> vstd::std_specs::convert::FromSpecImpl<[[T; C]; R]>
    for Matrix<T, R, C> {
    open spec fn obeys_from_spec() -> bool {
        true
    }

    open spec fn from_spec(value: [[T; C]; R]) -> Self {
        Matrix(value)
    }
}

impl<T, const R: usize, const C: usize> From<[[T; C]; R]> for Matrix<T, R, C> {
    /// The matrix whose rows are the rows of `value`.
    fn from(value: [[T; C]; R]) -> (m: Self)
        ensures
            m.0 == value,
    {
        Self(value)
    }
}

impl<T, const R: usize, const C: usize> vstd::std_specs::core::IndexSpecImpl<(usize, usize)>
    for Matrix<T, R, C> {
    open spec fn index_req(&self, index: &(usize, usize)) -> bool {
        index.0 < R && index.1 < C
    }
}

impl<T, const R: usize, const C: usize> core::ops::Index<(usize, usize)> for Matrix<T, R, C> {
    type Output = T;

    /// The entry in row `index.0` and column `index.1`, which must lie in
    /// the matrix.
    fn index(&self, index: (usize, usize)) -> (entry: &T)
        ensures
            *entry == self.at(index.0 as int, index.1 as int),
    {
        &self.0[index.0][index.1]
    }
}

/// Two matrices can be added when each pair of matching entries can. The
/// sum is described by `is_sum_of`, not by a function of the operands.
impl<T: core::ops::Add<Output = T> + Copy, const R: usize, const C: usize>
    vstd::std_specs::ops::AddSpecImpl for Matrix<T, R, C> {
    open spec fn obeys_add_spec() -> bool {
        false
    }

    open spec fn add_req(self, rhs: Self) -> bool {
        self.can_add(rhs)
    }

    open spec fn add_spec(self, rhs: Self) -> Self {
        arbitrary()
    }
}

impl<T: core::ops::Add<Output = T> + Copy, const R: usize, const C: usize> core::ops::Add
    for Matrix<T, R, C> {
    type Output = Matrix<T, R, C>;

    /// The entry-by-entry sum of two matrices of one shape.
    fn add(self, rhs: Self) -> (sum: Matrix<T, R, C>)
        ensures
            sum.is_sum_of(self, rhs),
    {
        let mut result = self.0;
        let mut i: usize = 0;
        while i < R
            invariant
                i <= R,
                self.can_add(rhs),
                forall|p: int, q: int|
                    0 <= p < i && 0 <= q < C ==> is_sum(
                        self.at(p, q),
                        rhs.at(p, q),
                        #[trigger] result[p][q],
                    ),
                forall|p: int| i <= p < R ==> #[trigger] result[p] == self.0[p],
            decreases R - i,
        {
            let mut row = result[i];
            let mut j: usize = 0;
            while j < C
                invariant
                    j <= C,
                    i < R,
                    self.can_add(rhs),
                    forall|q: int|
                        0 <= q < j ==> is_sum(
                            self.at(i as int, q),
                            rhs.at(i as int, q),
                            #[trigger] row[q],
                        ),
                    forall|q: int| j <= q < C ==> #[trigger] row[q] == self.at(i as int, q),
                decreases C - j,
            {
                assert(self.at(i as int, j as int).add_req(rhs.at(i as int, j as int)));
                row[j] = row[j] + rhs.0[i][j];
                j += 1;
            }
            result[i] = row;
            i += 1;
        }
        Matrix(result)
    }
}

/// Two matrices can be subtracted when each pair of matching entries can.
/// The difference is described by `is_difference_of`, not by a function
/// of the operands.
impl<T: core::ops::Sub<Output = T> + Copy, const R: usize, const C: usize>
    vstd::std_specs::ops::SubSpecImpl for Matrix<T, R, C> {
    open spec fn obeys_sub_spec() -> bool {
        false
    }

    open spec fn sub_req(self, rhs: Self) -> bool {
        self.can_sub(rhs)
    }

    open spec fn sub_spec(self, rhs: Self) -> Self {
        arbitrary()
    }
}

impl<T: core::ops::Sub<Output = T> + Copy, const R: usize, const C: usize> core::ops::Sub
    for Matrix<T, R, C> {
    type Output = Matrix<T, R, C>;

    /// The entry-by-entry difference of two matrices of one shape.
    fn sub(self, rhs: Self) -> (difference: Matrix<T, R, C>)
        ensures
            difference.is_difference_of(self, rhs),
    {
        let mut result = self.0;
        let mut i: usize = 0;
        while i < R
            invariant
                i <= R,
                self.can_sub(rhs),
                forall|p: int, q: int|
                    0 <= p < i && 0 <= q < C ==> is_difference(
                        self.at(p, q),
                        rhs.at(p, q),
                        #[trigger] result[p][q],
                    ),
                forall|p: int| i <= p < R ==> #[trigger] result[p] == self.0[p],
            decreases R - i,
        {
            let mut row = result[i];
            let mut j: usize = 0;
            while j < C
                invariant
                    j <= C,
                    i < R,
                    self.can_sub(rhs),
                    forall|q: int|
                        0 <= q < j ==> is_difference(
                            self.at(i as int, q),
                            rhs.at(i as int, q),
                            #[trigger] row[q],
                        ),
                    forall|q: int| j <= q < C ==> #[trigger] row[q] == self.at(i as int, q),
                decreases C - j,
            {
                assert(self.at(i as int, j as int).sub_req(rhs.at(i as int, j as int)));
                row[j] = row[j] - rhs.0[i][j];
                j += 1;
            }
            result[i] = row;
            i += 1;
        }
        Matrix(result)
    }
}

/// Two matrices can be multiplied when `T` adds and multiplies whatever it
/// is given, or when it is exact and no product or partial sum of this
/// multiplication is refused. The product is described by
/// `is_product_of`, not by a function of the operands.
impl<
    T: core::ops::Add<Output = T> + core::ops::Mul<Output = T> + Copy + Default,
    const R: usize,
    const C: usize,
    const K: usize,
> vstd::std_specs::ops::MulSpecImpl<Matrix<T, C, K>> for Matrix<T, R, C> {
    open spec fn obeys_mul_spec() -> bool {
        false
    }

    open spec fn mul_req(self, rhs: Matrix<T, C, K>) -> bool {
        ||| always_adds::<T>() && always_multiplies::<T>()
        ||| T::obeys_add_spec() && T::obeys_mul_spec() && forall|seed: T|
            call_ensures(T::default, (), seed) ==> #[trigger] self.can_mul(rhs, seed)
    }

    open spec fn mul_spec(self, rhs: Matrix<T, C, K>) -> Matrix<T, R, K> {
        arbitrary()
    }
}

impl<
    T: core::ops::Add<Output = T> + core::ops::Mul<Output = T> + Copy + Default,
    const R: usize,
    const C: usize,
    const K: usize,
> core::ops::Mul<Matrix<T, C, K>> for Matrix<T, R, C> {
    type Output = Matrix<T, R, K>;

    /// The matrix product: each entry sums, from the default value of `T`,
    /// the products of a row of `self` with a column of `rhs`.
    fn mul(self, rhs: Matrix<T, C, K>) -> (product: Matrix<T, R, K>)
        ensures
            exists|seed: T|
                call_ensures(T::default, (), seed) && #[trigger] product.is_product_of(
                    self,
                    rhs,
                    seed,
                ),
    {
        let seed = T::default();
        let mut result = [[seed; K]; R];
        let mut i: usize = 0;
        while i < R
            invariant
                i <= R,
                (always_adds::<T>() && always_multiplies::<T>()) || (T::obeys_add_spec()
                    && T::obeys_mul_spec() && self.can_mul(rhs, seed)),
                forall|p: int, q: int|
                    0 <= p < i && 0 <= q < K ==> self.is_row_by_column(
                        rhs,
                        seed,
                        p,
                        q,
                        C as int,
                        #[trigger] result[p][q],
                    ),
            decreases R - i,
        {
            let mut row = result[i];
            let mut j: usize = 0;
            while j < K
                invariant
                    j <= K,
                    i < R,
                    (always_adds::<T>() && always_multiplies::<T>()) || (T::obeys_add_spec()
                        && T::obeys_mul_spec() && self.can_mul(rhs, seed)),
                    forall|q: int|
                        0 <= q < j ==> self.is_row_by_column(
                            rhs,
                            seed,
                            i as int,
                            q,
                            C as int,
                            #[trigger] row[q],
                        ),
                decreases K - j,
            {
                let mut sum = seed;
                let mut k: usize = 0;
                while k < C
                    invariant
                        k <= C,
                        i < R,
                        j < K,
                        (always_adds::<T>() && always_multiplies::<T>()) || (T::obeys_add_spec()
                            && T::obeys_mul_spec() && self.can_mul(rhs, seed)),
                        self.is_row_by_column(rhs, seed, i as int, j as int, k as int, sum),
                    decreases C - k,
                {
                    proof {
                        if !(always_adds::<T>() && always_multiplies::<T>()) {
                            lemma_row_by_column_is_exact(
                                self,
                                rhs,
                                seed,
                                i as int,
                                j as int,
                                k as int,
                                sum,
                            );
                            let acc = self.row_by_column(rhs, seed, i as int, j as int, k as int);
                            assert(self.at(i as int, k as int).mul_req(rhs.at(k as int, j as int))
                                && acc.add_req(
                                self.at(i as int, k as int).mul_spec(rhs.at(k as int, j as int)),
                            ));
                        }
                    }
                    let term = self.0[i][k] * rhs.0[k][j];
                    let next = sum + term;
                    assert(is_sum(sum, term, next));
                    sum = next;
                    k += 1;
                }
                row[j] = sum;
                j += 1;
            }
            result[i] = row;
            i += 1;
        }
        let product = Matrix(result);
        assert(product.is_product_of(self, rhs, seed));
        product
    }
}

/// Where addition and multiplication of `T` compute what their
/// specifications say, a value that the operators gave for a row by a
/// column is the sum of products that `row_by_column` spells out.
pub proof fn lemma_row_by_column_is_exact<
    T: core::ops::Add<Output = T> + core::ops::Mul<Output = T> + Copy + Default,
    const R: usize,
    const C: usize,
    const K: usize,
>(a: Matrix<T, R, C>, b: Matrix<T, C, K>, seed: T, i: int, j: int, n: int, value: T)
    requires
        T::obeys_add_spec(),
        T::obeys_mul_spec(),
        a.is_row_by_column(b, seed, i, j, n, value),
    ensures
        value == a.row_by_column(b, seed, i, j, n),
    decreases n,
{
    if n > 0 {
        let (before, term) = choose|before: T, term: T|
            #![trigger is_sum(before, term, value)]
            {
                &&& a.is_row_by_column(b, seed, i, j, n - 1, before)
                &&& is_product(a.at(i, n - 1), b.at(n - 1, j), term)
                &&& is_sum(before, term, value)
            };
        lemma_row_by_column_is_exact(a, b, seed, i, j, n - 1, before);
    }
}

impl<const N: usize> Matrix<i64, N, N> {
    /// The diagonal holds ones and every other entry is zero.
    pub open spec fn is_identity(self) -> bool {
        forall|i: int, j: int|
            0 <= i < N && 0 <= j < N ==> #[trigger] self.at(i, j) == (if i == j {
                1i64
            } else {
                0i64
            })
    }
}

/// Two matrices with the same entries are the same matrix.
pub proof fn lemma_equal_entries<T, const R: usize, const C: usize>(
    a: Matrix<T, R, C>,
    b: Matrix<T, R, C>,
)
    requires
        forall|i: int, j: int| 0 <= i < R && 0 <= j < C ==> a.at(i, j) == b.at(i, j),
    ensures
        a == b,
{
    assert forall|i: int| 0 <= i < R implies #[trigger] a.0[i] == b.0[i] by {
        assert forall|j: int| 0 <= j < C implies a.0[i][j] == b.0[i][j] by {
            assert(a.at(i, j) == b.at(i, j));
        }
        assert(a.0[i] =~= b.0[i]);
    }
    assert(a.0 =~= b.0);
}

/// Taking `b` away from the sum of `a` and `b` gives `a` back, where the
/// sum does not overflow: the difference can then always be computed.
pub proof fn lemma_sum_less_addend<const R: usize, const C: usize>(
    a: Matrix<i64, R, C>,
    b: Matrix<i64, R, C>,
    sum: Matrix<i64, R, C>,
    difference: Matrix<i64, R, C>,
)
    requires
        a.can_add(b),
        sum.is_sum_of(a, b),
        difference.is_difference_of(sum, b),
    ensures
        sum.can_sub(b),
        difference == a,
{
    assert forall|i: int, j: int| 0 <= i < R && 0 <= j < C implies (#[trigger] sum.at(
        i,
        j,
    )).sub_req(b.at(i, j)) && difference.at(i, j) == a.at(i, j) by {
        assert(a.at(i, j).add_req(b.at(i, j)));
        assert(is_sum(a.at(i, j), b.at(i, j), sum.at(i, j)));
        assert(is_difference(sum.at(i, j), b.at(i, j), difference.at(i, j)));
    }
    lemma_equal_entries(difference, a);
}

/// Against an identity matrix, the sum of the first `n` products of row
/// `i` and column `j` is the entry of that row in column `j` once `n`
/// has passed `j`, and zero before; no step of it overflows.
proof fn lemma_row_by_identity_column<const N: usize>(
    a: Matrix<i64, N, N>,
    identity: Matrix<i64, N, N>,
    i: int,
    j: int,
    n: int,
)
    requires
        identity.is_identity(),
        0 <= i < N,
        0 <= j < N,
        0 <= n <= N,
    ensures
        a.row_by_column(identity, 0, i, j, n) == (if j < n {
            a.at(i, j)
        } else {
            0i64
        }),
        n < N ==> a.at(i, n).mul_req(identity.at(n, j)) && a.row_by_column(
            identity,
            0,
            i,
            j,
            n,
        ).add_req(a.at(i, n).mul_spec(identity.at(n, j))),
    decreases n,
{
    if n > 0 {
        lemma_row_by_identity_column(a, identity, i, j, n - 1);
        assert(identity.at(n - 1, j) == (if n - 1 == j { 1i64 } else { 0i64 }));
    }
    if n < N {
        assert(identity.at(n, j) == (if n == j { 1i64 } else { 0i64 }));
    }
}

/// Multiplying a square matrix by the identity of its size gives the
/// matrix back, and that product can always be computed.
pub proof fn lemma_identity_is_neutral<const N: usize>(
    a: Matrix<i64, N, N>,
    identity: Matrix<i64, N, N>,
    product: Matrix<i64, N, N>,
)
    requires
        identity.is_identity(),
        product.is_product_of(a, identity, 0),
    ensures
        a.can_mul(identity, 0),
        product == a,
{
    assert forall|i: int, j: int, n: int| 0 <= i < N && 0 <= j < N && 0 <= n < N implies a.at(
        i,
        n,
    ).mul_req(identity.at(n, j)) && (#[trigger] a.row_by_column(identity, 0, i, j, n)).add_req(
        a.at(i, n).mul_spec(identity.at(n, j)),
    ) by {
        lemma_row_by_identity_column(a, identity, i, j, n);
    }
    assert forall|i: int, j: int| 0 <= i < N && 0 <= j < N implies product.at(i, j) == a.at(
        i,
        j,
    ) by {
        lemma_row_by_identity_column(a, identity, i, j, N as int);
        assert(a.is_row_by_column(identity, 0, i, j, N as int, product.at(i, j)));
        lemma_row_by_column_is_exact(a, identity, 0, i, j, N as int, product.at(i, j));
    }
    lemma_equal_entries(product, a);
}

} // verus!
