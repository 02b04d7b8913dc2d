//! Dense row-major matrices and the two fixed-size vectors built on them.

use vstd::prelude::*;

use crate::scalar::{
    difference, is_difference, is_negation, is_one, is_product, is_sum, is_truncation, is_zero, Real, Scalar,
};

verus! {

/// Row `row`, column `col` of a row-major grid `width` cells wide lies inside
/// a grid of `height` rows.
pub proof fn lemma_cell_in_grid(width: int, height: int, row: int, col: int)
    requires
        0 <= row < height,
        0 <= col < width,
    ensures
        0 <= width * row <= width * row + col < width * height,
{
    assert(width * row + col < width * height) by (nonlinear_arith)
        requires
            0 <= row < height,
            0 <= col < width,
    {
        assert(width * (row + 1) <= width * height);
    }
    assert(0 <= width * row) by (nonlinear_arith)
        requires
            0 <= row,
            0 <= width,
    ;
}

/// The operations every matrix offers.
pub trait MatrixBase<T>: Sized {
    fn get_width(&self) -> usize;

    fn get_height(&self) -> usize;

    fn combine(&self, other: &Matrix<T>, sub: bool) -> Result<Matrix<T>, ()>;

    fn dot(&self, other: &Matrix<T>) -> Result<Matrix<T>, ()>;

    fn scale(&self, other: T) -> Self;
}

/// A dense grid of scalars, stored row by row.
pub struct Matrix<T> {
    width: usize,
    height: usize,
    contents: Vec<T>,
}

impl<T> View for Matrix<T> {
    type V = Seq<T>;

    /// The cells, row by row.
    closed spec fn view(&self) -> Seq<T> {
        self.contents@
    }
}

impl<T> Matrix<T> {
    /// The number of columns.
    pub closed spec fn spec_width(&self) -> nat {
        self.width as nat
    }

    /// The number of rows.
    pub closed spec fn spec_height(&self) -> nat {
        self.height as nat
    }

    /// There is exactly one cell for each row and column.
    #[verifier::type_invariant]
    pub closed spec fn well_formed(&self) -> bool {
        self.contents.len() == self.width * self.height
    }

    /// The cell in row `row`, column `col`.
    pub open spec fn at(&self, row: int, col: int) -> T {
        self@[self.spec_width() * row + col]
    }

    /// Both matrices have the same number of rows and of columns.
    pub open spec fn same_shape(&self, other: &Matrix<T>) -> bool {
        self.spec_width() == other.spec_width() && self.spec_height() == other.spec_height()
    }

    /// `self` is `width` columns wide and `height` rows high.
    pub open spec fn has_shape(&self, width: nat, height: nat) -> bool {
        self.spec_width() == width && self.spec_height() == height && self@.len() == width * height
    }

    /// The cell in row `row`, column `col`.
    pub fn get(&self, row: usize, col: usize) -> (value: T) where T: Copy
        requires
            row < self.spec_height(),
            col < self.spec_width(),
        ensures
            value == self.at(row as int, col as int),
            self@.len() == self.spec_width() * self.spec_height(),
    {
        proof {
            use_type_invariant(self);
            lemma_cell_in_grid(self.width as int, self.height as int, row as int, col as int);
        }
        self.contents[self.width * row + col]
    }
}

impl<T> Matrix<T> {
    /// Row `row`, cell by cell.
    pub fn index(&self, row: usize) -> (cells: &[T])
        requires
            row < self.spec_height(),
        ensures
            cells@ == self@.subrange(
                self.spec_width() * row,
                self.spec_width() * row + self.spec_width(),
            ),
    {
        proof {
            use_type_invariant(self);
            assert(self.width * row + self.width <= self.width * self.height) by (nonlinear_arith)
                requires
                    row < self.height,
            {
                assert(self.width * (row + 1) <= self.width * self.height);
            }
            assert(0 <= self.width * row) by (nonlinear_arith);
        }
        vstd::slice::slice_subrange(
            self.contents.as_slice(),
            self.width * row,
            self.width * row + self.width,
        )
    }

    /// Puts `value` into the cell in row `row`, column `col`.
    pub fn set(&mut self, row: usize, col: usize, value: T)
        requires
            row < old(self).spec_height(),
            col < old(self).spec_width(),
        ensures
            final(self)@ == old(self)@.update(old(self).spec_width() * row + col, value),
            final(self).spec_width() == old(self).spec_width(),
            final(self).spec_height() == old(self).spec_height(),
            final(self).at(row as int, col as int) == value,
            final(self)@.len() == old(self)@.len(),
    {
        proof {
            use_type_invariant(&*self);
            lemma_cell_in_grid(self.width as int, self.height as int, row as int, col as int);
        }
        let at = self.width * row + col;
        self.contents[at] = value;
    }
}

impl<T: Scalar> Matrix<T> {
    /// A matrix of `width` columns and `height` rows in which every cell is zero.
    pub fn new(width: usize, height: usize) -> (m: Self)
        requires
            width * height <= usize::MAX,
        ensures
            m.has_shape(width as nat, height as nat),
            m.well_formed(),
            forall|i: int| 0 <= i < m@.len() ==> is_zero(#[trigger] m@[i]),
    {
        let cells = width * height;
        let zero = T::zero();
        let mut contents: Vec<T> = Vec::new();
        while contents.len() < cells
            invariant
                contents.len() <= cells,
                is_zero(zero),
                forall|i: int| 0 <= i < contents.len() ==> contents@[i] == zero,
            decreases cells - contents.len(),
        {
            contents.push(zero);
        }
        Matrix { width, height, contents }
    }

    /// A matrix whose first cells, row by row, are `contents`; the remaining
    /// cells are zero.
    pub fn from_vec(width: usize, height: usize, contents: Vec<T>) -> (m: Self)
        requires
            width * height <= usize::MAX,
            contents.len() <= width * height,
        ensures
            m.has_shape(width as nat, height as nat),
            m.well_formed(),
            m@.subrange(0, contents.len() as int) == contents@,
            forall|i: int| contents.len() <= i < m@.len() ==> is_zero(#[trigger] m@[i]),
    {
        let cells = width * height;
        let zero = T::zero();
        let ghost given = contents@;
        let mut contents = contents;
        while contents.len() < cells
            invariant
                given.len() <= contents.len() <= cells,
                is_zero(zero),
                contents@.subrange(0, given.len() as int) == given,
                forall|i: int| given.len() <= i < contents.len() ==> contents@[i] == zero,
            decreases cells - contents.len(),
        {
            let ghost before = contents@;
            contents.push(zero);
            assert(contents@.subrange(0, given.len() as int) =~= before.subrange(
                0,
                given.len() as int,
            ));
        }
        Matrix { width, height, contents }
    }

    /// Whether `dot` takes `other` as its left operand: a single column on
    /// the left of a wider matrix changes sides.
    pub open spec fn dot_swaps(&self, other: &Matrix<T>) -> bool {
        self.spec_width() == 1 && other.spec_width() > 1
    }

    /// The shapes admit the ordinary matrix product `left * right`.
    pub open spec fn multiplies(left: &Matrix<T>, right: &Matrix<T>) -> bool {
        left.spec_width() == right.spec_height()
    }

    /// The shapes admit scaling each row of `right` by the entry of the single
    /// column `left` in that row, and do not admit the ordinary product.
    pub open spec fn broadcasts(left: &Matrix<T>, right: &Matrix<T>) -> bool {
        !Self::multiplies(left, right) && left.spec_width() == 1 && left.spec_height()
            == right.spec_height()
    }

    /// `dot` is defined on these two matrices.
    pub open spec fn dot_defined(&self, other: &Matrix<T>) -> bool {
        if self.dot_swaps(other) {
            Self::multiplies(other, self) || Self::broadcasts(other, self)
        } else {
            Self::multiplies(self, other) || Self::broadcasts(self, other)
        }
    }

    /// `r` is a value that adding up, from zero and in order, the first `n`
    /// products of row `row` of `left` with column `col` of `right` may give.
    pub open spec fn is_partial_dot(
        left: &Matrix<T>,
        right: &Matrix<T>,
        row: int,
        col: int,
        n: nat,
        r: T,
    ) -> bool
        decreases n,
    {
        if n == 0 {
            is_zero(r)
        } else {
            exists|acc: T, p: T|
                Self::is_partial_dot(left, right, row, col, (n - 1) as nat, acc) && is_product(
                    left.at(row, n - 1),
                    right.at(n - 1, col),
                    p,
                ) && #[trigger] is_sum(acc, p, r)
        }
    }

    /// `self` is a value that the ordinary product `left * right` may give.
    pub open spec fn is_product_of(&self, left: &Matrix<T>, right: &Matrix<T>) -> bool {
        &&& self.has_shape(right.spec_width(), left.spec_height())
        &&& forall|row: int, col: int|
            0 <= row < self.spec_height() && 0 <= col < self.spec_width()
                ==> Self::is_partial_dot(
                left,
                right,
                row,
                col,
                left.spec_width(),
                #[trigger] self.at(row, col),
            )
    }

    /// `self` is a value that scaling the rows of `right` by the single column
    /// `left` may give.
    pub open spec fn is_broadcast_of(&self, left: &Matrix<T>, right: &Matrix<T>) -> bool {
        &&& self.has_shape(right.spec_width(), right.spec_height())
        &&& forall|row: int, col: int|
            0 <= row < self.spec_height() && 0 <= col < self.spec_width() ==> is_product(
                left.at(row, 0),
                right.at(row, col),
                #[trigger] self.at(row, col),
            )
    }

    /// `self` is a value that `left.dot(right)` may give, once the operands
    /// have taken their sides.
    pub open spec fn is_dot_of(&self, left: &Matrix<T>, right: &Matrix<T>) -> bool {
        if Self::multiplies(left, right) {
            self.is_product_of(left, right)
        } else {
            Self::broadcasts(left, right) && self.is_broadcast_of(left, right)
        }
    }

    /// `self` is a value that adding `right` to `left` cell by cell may give
    /// (with `sub`, subtracting it).
    pub open spec fn is_combination_of(
        &self,
        left: &Matrix<T>,
        right: &Matrix<T>,
        sub: bool,
    ) -> bool {
        &&& self.has_shape(left.spec_width(), left.spec_height())
        &&& forall|i: int|
            0 <= i < self@.len() ==> if sub {
                is_difference(left@[i], right@[i], #[trigger] self@[i])
            } else {
                is_sum(left@[i], right@[i], #[trigger] self@[i])
            }
    }

    /// `self` is a value that multiplying every cell of `source` by `factor`
    /// may give.
    pub open spec fn is_scaling_of(&self, source: &Matrix<T>, factor: T) -> bool {
        &&& self.has_shape(source.spec_width(), source.spec_height())
        &&& forall|i: int|
            0 <= i < self@.len() ==> is_product(source@[i], factor, #[trigger] self@[i])
    }

    /// Cell (`row`, `col`) of the row-major grid `cells` holds a full dot
    /// product of `left` and `right`.
    spec fn holds_dot(
        left: &Matrix<T>,
        right: &Matrix<T>,
        cells: Seq<T>,
        row: int,
        col: int,
    ) -> bool {
        let at = right.spec_width() * row + col;
        0 <= at < cells.len() && Self::is_partial_dot(
            left,
            right,
            row,
            col,
            left.spec_width(),
            cells[at],
        )
    }

    /// Cell (`row`, `col`) of the row-major grid `cells` holds the cell of
    /// `right` scaled by the entry of `left` in that row.
    spec fn holds_scaled(
        left: &Matrix<T>,
        right: &Matrix<T>,
        cells: Seq<T>,
        row: int,
        col: int,
    ) -> bool {
        let at = right.spec_width() * row + col;
        0 <= at < cells.len() && is_product(left.at(row, 0), right.at(row, col), cells[at])
    }

    /// The dot product of row `row` of `left` with column `col` of `right`.
    fn dot_cell(left: &Matrix<T>, right: &Matrix<T>, row: usize, col: usize) -> (sum: T)
        requires
            Self::multiplies(left, right),
            row < left.spec_height(),
            col < right.spec_width(),
        ensures
            Self::is_partial_dot(left, right, row as int, col as int, left.spec_width(), sum),
    {
        proof {
            use_type_invariant(left);
            use_type_invariant(right);
        }
        let depth = left.width;
        let mut column_sum = T::zero();
        let mut k: usize = 0;
        while k < depth
            invariant
                k <= depth,
                depth == left.spec_width(),
                depth == right.spec_height(),
                row < left.spec_height(),
                col < right.spec_width(),
                Self::is_partial_dot(left, right, row as int, col as int, k as nat, column_sum),
            decreases depth - k,
        {
            let term = left.get(row, k).mul(right.get(k, col));
            let next = column_sum.add(term);
            assert(Self::is_partial_dot(left, right, row as int, col as int, (k + 1) as nat, next))
                by {
                assert(Self::is_partial_dot(
                    left,
                    right,
                    row as int,
                    col as int,
                    ((k + 1) - 1) as nat,
                    column_sum,
                ));
                assert(is_sum(column_sum, term, next));
            }
            column_sum = next;
            k += 1;
        }
        column_sum
    }

    /// The ordinary product of `left` and `right`.
    fn product(left: &Matrix<T>, right: &Matrix<T>) -> (m: Matrix<T>)
        requires
            Self::multiplies(left, right),
        ensures
            m.is_product_of(left, right),
    {
        let width = right.width;
        let height = left.height;
        let mut contents: Vec<T> = Vec::new();
        let mut row: usize = 0;
        while row < height
            invariant
                row <= height,
                width == right.spec_width(),
                height == left.spec_height(),
                Self::multiplies(left, right),
                contents.len() == width * row,
                forall|r: int, c: int|
                    0 <= r < row && 0 <= c < width ==> #[trigger] Self::holds_dot(
                        left,
                        right,
                        contents@,
                        r,
                        c,
                    ),
            decreases height - row,
        {
            let mut col: usize = 0;
            while col < width
                invariant
                    row < height,
                    col <= width,
                    width == right.spec_width(),
                    height == left.spec_height(),
                    Self::multiplies(left, right),
                    contents.len() == width * row + col,
                    forall|r: int, c: int|
                        0 <= c < width && (0 <= r < row || (r == row && c < col))
                            ==> #[trigger] Self::holds_dot(left, right, contents@, r, c),
                decreases width - col,
            {
                let sum = Self::dot_cell(left, right, row, col);
                let ghost before = contents@;
                contents.push(sum);
                proof {
                    assert forall|r: int, c: int|
                        0 <= c < width && (0 <= r < row || (r == row && c < col + 1))
                        implies #[trigger] Self::holds_dot(left, right, contents@, r, c) by {
                        if r == row && c == col {
                        } else {
                            assert(Self::holds_dot(left, right, before, r, c));
                        }
                    }
                }
                col += 1;
            }
            proof {
                assert(width * (row + 1) == width * row + width) by (nonlinear_arith);
            }
            row += 1;
        }
        let m = Matrix { width, height, contents };
        proof {
            assert forall|r: int, c: int|
                0 <= r < m.spec_height() && 0 <= c < m.spec_width() implies Self::is_partial_dot(
                left,
                right,
                r,
                c,
                left.spec_width(),
                #[trigger] m.at(r, c),
            ) by {
                assert(Self::holds_dot(left, right, m@, r, c));
            }
        }
        m
    }

    /// Each row of `right` scaled by the entry of the single column `left` in
    /// that row.
    fn broadcast(left: &Matrix<T>, right: &Matrix<T>) -> (m: Matrix<T>)
        requires
            left.spec_width() == 1,
            left.spec_height() == right.spec_height(),
        ensures
            m.is_broadcast_of(left, right),
    {
        proof {
            use_type_invariant(right);
        }
        let width = right.width;
        let height = right.height;
        let mut contents: Vec<T> = Vec::new();
        let mut row: usize = 0;
        while row < height
            invariant
                row <= height,
                width == right.spec_width(),
                height == right.spec_height(),
                height == left.spec_height(),
                left.spec_width() == 1,
                contents.len() == width * row,
                forall|r: int, c: int|
                    0 <= r < row && 0 <= c < width ==> #[trigger] Self::holds_scaled(
                        left,
                        right,
                        contents@,
                        r,
                        c,
                    ),
            decreases height - row,
        {
            let mut col: usize = 0;
            while col < width
                invariant
                    row < height,
                    col <= width,
                    width == right.spec_width(),
                    height == right.spec_height(),
                    height == left.spec_height(),
                    left.spec_width() == 1,
                    contents.len() == width * row + col,
                    forall|r: int, c: int|
                        0 <= c < width && (0 <= r < row || (r == row && c < col))
                            ==> #[trigger] Self::holds_scaled(left, right, contents@, r, c),
                decreases width - col,
            {
                let value = left.get(row, 0).mul(right.get(row, col));
                let ghost before = contents@;
                contents.push(value);
                proof {
                    assert forall|r: int, c: int|
                        0 <= c < width && (0 <= r < row || (r == row && c < col + 1))
                        implies #[trigger] Self::holds_scaled(left, right, contents@, r, c) by {
                        if r == row && c == col {
                        } else {
                            assert(Self::holds_scaled(left, right, before, r, c));
                        }
                    }
                }
                col += 1;
            }
            proof {
                assert(width * (row + 1) == width * row + width) by (nonlinear_arith);
            }
            row += 1;
        }
        let m = Matrix { width, height, contents };
        proof {
            assert forall|r: int, c: int|
                0 <= r < m.spec_height() && 0 <= c < m.spec_width() implies is_product(
                left.at(r, 0),
                right.at(r, c),
                #[trigger] m.at(r, c),
            ) by {
                assert(Self::holds_scaled(left, right, m@, r, c));
            }
        }
        m
    }
}

impl<T: Scalar> MatrixBase<T> for Matrix<T> {
    fn get_width(&self) -> (width: usize)
        ensures
            width == self.spec_width(),
    {
        self.width
    }

    fn get_height(&self) -> (height: usize)
        ensures
            height == self.spec_height(),
    {
        self.height
    }

    /// The cell-by-cell sum of two matrices of one shape, or with `sub` their
    /// difference. Matrices of different shapes are refused.
    fn combine(&self, other: &Matrix<T>, sub: bool) -> (result: Result<Matrix<T>, ()>)
        ensures
            result is Ok <==> self.same_shape(other),
            result matches Ok(m) ==> m.is_combination_of(self, other, sub),
    {
        proof {
            use_type_invariant(self);
            use_type_invariant(other);
        }
        if self.width == other.width && self.height == other.height {
            let cells = self.contents.len();
            let mut contents: Vec<T> = Vec::new();
            let mut i: usize = 0;
            while i < cells
                invariant
                    i <= cells,
                    cells == self.contents.len(),
                    cells == other.contents.len(),
                    contents.len() == i,
                    forall|k: int|
                        0 <= k < i ==> if sub {
                            is_difference(self@[k], other@[k], #[trigger] contents@[k])
                        } else {
                            is_sum(self@[k], other@[k], #[trigger] contents@[k])
                        },
                decreases cells - i,
            {
                let value = if sub {
                    difference(self.contents[i], other.contents[i])
                } else {
                    self.contents[i].add(other.contents[i])
                };
                contents.push(value);
                i += 1;
            }
            Ok(Matrix { width: self.width, height: self.height, contents })
        } else {
            Err(())
        }
    }

    /// The product of two matrices. A single column on the left of a wider
    /// matrix first changes sides with it. Then, where the left width equals
    /// the right height, the result is the ordinary product; where the left is
    /// a single column as high as the right, each row of the right is scaled
    /// by the left's entry in that row; any other pair of shapes is refused.
    fn dot(&self, other: &Matrix<T>) -> (result: Result<Matrix<T>, ()>)
        ensures
            result is Ok <==> self.dot_defined(other),
            result matches Ok(m) ==> if self.dot_swaps(other) {
                m.is_dot_of(other, self)
            } else {
                m.is_dot_of(self, other)
            },
    {
        let (left, right) = if self.width == 1 && other.width > 1 {
            (other, self)
        } else {
            (self, other)
        };
        if left.width == right.height {
            Ok(Self::product(left, right))
        } else if left.width == 1 && left.height == right.height {
            Ok(Self::broadcast(left, right))
        } else {
            Err(())
        }
    }

    /// Every cell multiplied by `scaler`.
    fn scale(&self, scaler: T) -> (m: Matrix<T>)
        ensures
            m.is_scaling_of(self, scaler),
    {
        proof {
            use_type_invariant(self);
        }
        let cells = self.contents.len();
        let mut contents: Vec<T> = Vec::new();
        let mut i: usize = 0;
        while i < cells
            invariant
                i <= cells,
                cells == self.contents.len(),
                contents.len() == i,
                forall|k: int| 0 <= k < i ==> is_product(self@[k], scaler, #[trigger] contents@[k]),
            decreases cells - i,
        {
            contents.push(self.contents[i].mul(scaler));
            i += 1;
        }
        Matrix { width: self.width, height: self.height, contents }
    }
}

impl<T: Scalar> Matrix<T> {
    /// The cell-by-cell sum of two matrices of one shape.
    pub fn add(self, rhs: Matrix<T>) -> (m: Matrix<T>)
        requires
            self.same_shape(&rhs),
        ensures
            m.is_combination_of(&self, &rhs, false),
    {
        self.combine(&rhs, false).unwrap()
    }

    /// The cell-by-cell difference of two matrices of one shape.
    pub fn sub(self, rhs: Matrix<T>) -> (m: Matrix<T>)
        requires
            self.same_shape(&rhs),
        ensures
            m.is_combination_of(&self, &rhs, true),
    {
        self.combine(&rhs, true).unwrap()
    }

    /// The product of two matrices whose shapes admit one.
    pub fn mul(self, rhs: Matrix<T>) -> (m: Matrix<T>)
        requires
            self.dot_defined(&rhs),
        ensures
            if self.dot_swaps(&rhs) {
                m.is_dot_of(&rhs, &self)
            } else {
                m.is_dot_of(&self, &rhs)
            },
    {
        self.dot(&rhs).unwrap()
    }

    /// `m` is a value that the product of `self` with the column `column`
    /// may be.
    pub open spec fn is_image_of(&self, column: &Matrix<T>, m: &Matrix<T>) -> bool {
        if self.dot_swaps(column) {
            m.is_dot_of(column, self)
        } else {
            m.is_dot_of(self, column)
        }
    }

    /// The product of this matrix with a vector in space, written as a
    /// column.
    pub fn mul_vector3d(self, rhs: Vector3D<T>) -> (m: Matrix<T>)
        requires
            self.spec_width() == 3 || (self.spec_width() == 1 && self.spec_height() == 3),
        ensures
            exists|column: Matrix<T>| #[trigger]
                rhs.is_column(&column) && self.is_image_of(&column, &m),
    {
        let column = rhs.to_matrix();
        let m = self.dot(&column).unwrap();
        assert(rhs.is_column(&column) && self.is_image_of(&column, &m));
        m
    }

    /// The product of this matrix with a vector in the plane, written as a
    /// column.
    pub fn mul_vector2d(self, rhs: Vector2D<T>) -> (m: Matrix<T>)
        requires
            self.spec_width() == 2 || (self.spec_width() == 1 && self.spec_height() == 2),
        ensures
            exists|column: Matrix<T>| #[trigger]
                rhs.is_column(&column) && self.is_image_of(&column, &m),
    {
        let column = rhs.to_matrix();
        let m = self.dot(&column).unwrap();
        assert(rhs.is_column(&column) && self.is_image_of(&column, &m));
        m
    }
}

/// A point or direction in space.
#[derive(Debug)]
pub struct Vector3D<T> {
    pub x: T,
    pub y: T,
    pub z: T,
}

impl<T: Copy> Copy for Vector3D<T> {

}

impl<T: Copy> Clone for Vector3D<T> {
    fn clone(&self) -> (v: Self)
        ensures
            v == *self,
    {
        *self
    }
}

impl<T: Scalar> Vector3D<T> {
    pub fn new(x: T, y: T, z: T) -> (v: Self)
        ensures
            v.x == x,
            v.y == y,
            v.z == z,
    {
        Self { x, y, z }
    }

    /// Every component is zero.
    pub open spec fn is_zero_vector(&self) -> bool {
        is_zero(self.x) && is_zero(self.y) && is_zero(self.z)
    }

    /// Every component is one.
    pub open spec fn is_one_vector(&self) -> bool {
        is_one(self.x) && is_one(self.y) && is_one(self.z)
    }

    /// `self` is a value that adding `a` and `b` component by component may give.
    pub open spec fn is_sum_of(&self, a: Self, b: Self) -> bool {
        is_sum(a.x, b.x, self.x) && is_sum(a.y, b.y, self.y) && is_sum(a.z, b.z, self.z)
    }

    /// `self` is a value that subtracting `b` from `a` component by component
    /// may give.
    pub open spec fn is_difference_of(&self, a: Self, b: Self) -> bool {
        is_difference(a.x, b.x, self.x) && is_difference(a.y, b.y, self.y) && is_difference(
            a.z,
            b.z,
            self.z,
        )
    }

    /// `self` is a value that multiplying `a` and `b` component by component
    /// may give.
    pub open spec fn is_product_of(&self, a: Self, b: Self) -> bool {
        is_product(a.x, b.x, self.x) && is_product(a.y, b.y, self.y) && is_product(
            a.z,
            b.z,
            self.z,
        )
    }

    /// `self` is a value that multiplying every component of `a` by `factor`
    /// may give.
    pub open spec fn is_scaling_of(&self, a: Self, factor: T) -> bool {
        is_product(a.x, factor, self.x) && is_product(a.y, factor, self.y) && is_product(
            a.z,
            factor,
            self.z,
        )
    }

    /// `self` is a value that negating every component of `a` may give.
    pub open spec fn is_negation_of(&self, a: Self) -> bool {
        is_negation(a.x, self.x) && is_negation(a.y, self.y) && is_negation(a.z, self.z)
    }

    /// `m` is this vector written as a single column.
    pub open spec fn is_column(&self, m: &Matrix<T>) -> bool {
        m.has_shape(1, 3) && m@ == seq![self.x, self.y, self.z]
    }

    /// The vector that a matrix of one column and three rows holds; no other
    /// shape holds one.
    pub open spec fn spec_from_matrix(m: &Matrix<T>) -> Option<Self> {
        if m.spec_width() == 1 && m.spec_height() == 3 {
            Some(Self { x: m@[0], y: m@[1], z: m@[2] })
        } else {
            None
        }
    }

    /// The vector (0, 0, 0).
    pub fn zero() -> (v: Self)
        ensures
            v.is_zero_vector(),
    {
        Self { x: T::zero(), y: T::zero(), z: T::zero() }
    }

    /// The vector (1, 1, 1).
    pub fn one() -> (v: Self)
        ensures
            v.is_one_vector(),
    {
        Self { x: T::one(), y: T::one(), z: T::one() }
    }

    pub fn add(self, rhs: Self) -> (v: Self)
        ensures
            v.is_sum_of(self, rhs),
    {
        Self { x: self.x.add(rhs.x), y: self.y.add(rhs.y), z: self.z.add(rhs.z) }
    }

    pub fn sub(self, rhs: Self) -> (v: Self)
        ensures
            v.is_difference_of(self, rhs),
    {
        Self { x: difference(self.x, rhs.x), y: difference(self.y, rhs.y), z: difference(self.z, rhs.z) }
    }

    /// The component-wise product.
    pub fn mul(self, rhs: Self) -> (v: Self)
        ensures
            v.is_product_of(self, rhs),
    {
        Self { x: self.x.mul(rhs.x), y: self.y.mul(rhs.y), z: self.z.mul(rhs.z) }
    }

    /// Every component multiplied by `factor`.
    pub fn scale(self, factor: T) -> (v: Self)
        ensures
            v.is_scaling_of(self, factor),
    {
        Self { x: self.x.mul(factor), y: self.y.mul(factor), z: self.z.mul(factor) }
    }

    pub fn neg(self) -> (v: Self)
        ensures
            v.is_negation_of(self),
    {
        Self { x: self.x.neg(), y: self.y.neg(), z: self.z.neg() }
    }

    /// This vector as a matrix of one column and three rows.
    pub fn to_matrix(self) -> (m: Matrix<T>)
        ensures
            self.is_column(&m),
    {
        let mut contents: Vec<T> = Vec::new();
        contents.push(self.x);
        contents.push(self.y);
        contents.push(self.z);
        let m = Matrix::from_vec(1, 3, contents);
        assert(m@ =~= m@.subrange(0, 3));
        assert(m@ =~= seq![self.x, self.y, self.z]);
        m
    }

    /// The vector that `other` holds. Any matrix but one of a single column
    /// and three rows is refused.
    pub fn from_matrix(other: Matrix<T>) -> (result: Result<Self, ()>)
        ensures
            result is Ok <==> other.spec_width() == 1 && other.spec_height() == 3,
            result matches Ok(v) ==> Self::spec_from_matrix(&other) == Some(v),
    {
        if other.width != 1 || other.height != 3 {
            return Err(());
        }
        Ok(Self { x: other.get(0, 0), y: other.get(1, 0), z: other.get(2, 0) })
    }

    /// The point of the plane `z = 0` above `other`.
    pub fn from_vector2d(other: Vector2D<T>) -> (v: Self)
        ensures
            v.x == other.x,
            v.y == other.y,
            is_zero(v.z),
    {
        Self { x: other.x, y: other.y, z: T::zero() }
    }

    /// Writing a vector as a column and reading the column back gives the
    /// vector again.
    pub proof fn lemma_round_trip(v: Self, m: &Matrix<T>)
        requires
            v.is_column(m),
        ensures
            Self::spec_from_matrix(m) == Some(v),
    {
    }
}

/// A point or direction in the plane.
#[derive(Debug)]
pub struct Vector2D<T> {
    pub x: T,
    pub y: T,
}

impl<T: Copy> Copy for Vector2D<T> {

}

impl<T: Copy> Clone for Vector2D<T> {
    fn clone(&self) -> (v: Self)
        ensures
            v == *self,
    {
        *self
    }
}

impl<T: Scalar> Vector2D<T> {
    pub fn new(x: T, y: T) -> (v: Self)
        ensures
            v.x == x,
            v.y == y,
    {
        Self { x, y }
    }

    /// Every component is zero.
    pub open spec fn is_zero_vector(&self) -> bool {
        is_zero(self.x) && is_zero(self.y)
    }

    /// Every component is one.
    pub open spec fn is_one_vector(&self) -> bool {
        is_one(self.x) && is_one(self.y)
    }

    /// `self` is a value that adding `a` and `b` component by component may give.
    pub open spec fn is_sum_of(&self, a: Self, b: Self) -> bool {
        is_sum(a.x, b.x, self.x) && is_sum(a.y, b.y, self.y)
    }

    /// `self` is a value that subtracting `b` from `a` component by component
    /// may give.
    pub open spec fn is_difference_of(&self, a: Self, b: Self) -> bool {
        is_difference(a.x, b.x, self.x) && is_difference(a.y, b.y, self.y)
    }

    /// `self` is a value that multiplying `a` and `b` component by component
    /// may give.
    pub open spec fn is_product_of(&self, a: Self, b: Self) -> bool {
        is_product(a.x, b.x, self.x) && is_product(a.y, b.y, self.y)
    }

    /// `self` is a value that multiplying every component of `a` by `factor`
    /// may give.
    pub open spec fn is_scaling_of(&self, a: Self, factor: T) -> bool {
        is_product(a.x, factor, self.x) && is_product(a.y, factor, self.y)
    }

    /// `self` is a value that negating every component of `a` may give.
    pub open spec fn is_negation_of(&self, a: Self) -> bool {
        is_negation(a.x, self.x) && is_negation(a.y, self.y)
    }

    /// `m` is this vector written as a single column.
    pub open spec fn is_column(&self, m: &Matrix<T>) -> bool {
        m.has_shape(1, 2) && m@ == seq![self.x, self.y]
    }

    /// The vector that a matrix of one column and two rows holds; no other
    /// shape holds one.
    pub open spec fn spec_from_matrix(m: &Matrix<T>) -> Option<Self> {
        if m.spec_width() == 1 && m.spec_height() == 2 {
            Some(Self { x: m@[0], y: m@[1] })
        } else {
            None
        }
    }

    /// The vector (0, 0).
    pub fn zero() -> (v: Self)
        ensures
            v.is_zero_vector(),
    {
        Self { x: T::zero(), y: T::zero() }
    }

    /// The vector (1, 1).
    pub fn one() -> (v: Self)
        ensures
            v.is_one_vector(),
    {
        Self { x: T::one(), y: T::one() }
    }

    pub fn add(self, rhs: Self) -> (v: Self)
        ensures
            v.is_sum_of(self, rhs),
    {
        Self { x: self.x.add(rhs.x), y: self.y.add(rhs.y) }
    }

    pub fn sub(self, rhs: Self) -> (v: Self)
        ensures
            v.is_difference_of(self, rhs),
    {
        Self { x: difference(self.x, rhs.x), y: difference(self.y, rhs.y) }
    }

    /// The component-wise product.
    pub fn mul(self, rhs: Self) -> (v: Self)
        ensures
            v.is_product_of(self, rhs),
    {
        Self { x: self.x.mul(rhs.x), y: self.y.mul(rhs.y) }
    }

    /// Every component multiplied by `factor`.
    pub fn scale(self, factor: T) -> (v: Self)
        ensures
            v.is_scaling_of(self, factor),
    {
        Self { x: self.x.mul(factor), y: self.y.mul(factor) }
    }

    pub fn neg(self) -> (v: Self)
        ensures
            v.is_negation_of(self),
    {
        Self { x: self.x.neg(), y: self.y.neg() }
    }

    /// This vector as a matrix of one column and two rows.
    pub fn to_matrix(self) -> (m: Matrix<T>)
        ensures
            self.is_column(&m),
    {
        let mut contents: Vec<T> = Vec::new();
        contents.push(self.x);
        contents.push(self.y);
        let m = Matrix::from_vec(1, 2, contents);
        assert(m@ =~= m@.subrange(0, 2));
        assert(m@ =~= seq![self.x, self.y]);
        m
    }

    /// The vector that `other` holds. Any matrix but one of a single column
    /// and two rows is refused.
    pub fn from_matrix(other: Matrix<T>) -> (result: Result<Self, ()>)
        ensures
            result is Ok <==> other.spec_width() == 1 && other.spec_height() == 2,
            result matches Ok(v) ==> Self::spec_from_matrix(&other) == Some(v),
    {
        if other.width != 1 || other.height != 2 {
            return Err(());
        }
        Ok(Self { x: other.get(0, 0), y: other.get(1, 0) })
    }

    /// Writing a vector as a column and reading the column back gives the
    /// vector again.
    pub proof fn lemma_round_trip(v: Self, m: &Matrix<T>)
        requires
            v.is_column(m),
        ensures
            Self::spec_from_matrix(m) == Some(v),
    {
    }
}

impl<T: Real> Vector2D<T> {
    /// Both components cut to whole numbers.
    pub fn truncated(self) -> (pair: (i32, i32))
        ensures
            is_truncation(self.x, pair.0),
            is_truncation(self.y, pair.1),
    {
        (self.x.to_i32(), self.y.to_i32())
    }
}

} // verus!
