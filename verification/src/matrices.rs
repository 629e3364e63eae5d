//! Matrix types and utilities.
//!
//! Square matrices of fixed-point scalars in row-major order, with
//! determinants by cofactor expansion and inversion via the adjugate.
//! The ghost model of a matrix is the sequence of its entries.

use crate::fixed::{
    fx_abs, fx_add, fx_add_s, fx_approx, fx_approx_s, fx_div, fx_div_s, fx_mul, fx_mul_s,
    fx_neg, fx_neg_s, fx_ok, fx_sub, fx_sub_s, iabs, ApproxEq, FX_EPSILON, FX_ONE,
};
use crate::vectors::{Vector, V4};
use vstd::prelude::*;

verus! {

/// Reports a matrix whose determinant is too close to zero to invert.
#[derive(Clone, Copy, PartialEq, Eq, Structural, Debug)]
pub enum MatrixError {
    Singular,
}

/// Entries all lie in the representable band.
pub open spec fn entries_ok(s: Seq<int>) -> bool {
    forall|i: int| 0 <= i < s.len() ==> fx_ok(#[trigger] s[i])
}

/// A well-formed 4x4 matrix model.
pub open spec fn m4_ok(s: Seq<int>) -> bool {
    s.len() == 16 && entries_ok(s)
}

/// A well-formed 3x3 matrix model.
pub open spec fn m3_ok(s: Seq<int>) -> bool {
    s.len() == 9 && entries_ok(s)
}

/// A well-formed 2x2 matrix model.
pub open spec fn m2_ok(s: Seq<int>) -> bool {
    s.len() == 4 && entries_ok(s)
}

/// The 4x4 identity.
pub open spec fn identity4_s() -> Seq<int> {
    seq![
        FX_ONE as int, 0, 0, 0,
        0, FX_ONE as int, 0, 0,
        0, 0, FX_ONE as int, 0,
        0, 0, 0, FX_ONE as int,
    ]
}

/// The 3x3 identity.
pub open spec fn identity3_s() -> Seq<int> {
    seq![
        FX_ONE as int, 0, 0,
        0, FX_ONE as int, 0,
        0, 0, FX_ONE as int,
    ]
}

/// The 2x2 identity.
pub open spec fn identity2_s() -> Seq<int> {
    seq![FX_ONE as int, 0, 0, FX_ONE as int]
}

/// Transpose of a 4x4 model.
pub open spec fn transpose4_s(s: Seq<int>) -> Seq<int> {
    Seq::new(16, |k: int| s[(k % 4) * 4 + k / 4])
}

/// One entry of a 4x4 matrix product, summed left to right.
pub open spec fn mm4_entry_s(a: Seq<int>, b: Seq<int>, r: int, c: int) -> int {
    fx_add_s(
        fx_add_s(
            fx_add_s(fx_mul_s(a[r * 4 + 0], b[0 * 4 + c]), fx_mul_s(a[r * 4 + 1], b[1 * 4 + c])),
            fx_mul_s(a[r * 4 + 2], b[2 * 4 + c]),
        ),
        fx_mul_s(a[r * 4 + 3], b[3 * 4 + c]),
    )
}

/// 4x4 matrix product.
pub open spec fn mm4_s(a: Seq<int>, b: Seq<int>) -> Seq<int> {
    Seq::new(16, |k: int| mm4_entry_s(a, b, k / 4, k % 4))
}

/// Matrix-tuple product.
pub open spec fn mv4_s(m: Seq<int>, v: V4) -> V4 {
    V4 {
        x: mv4_row_s(m, v, 0),
        y: mv4_row_s(m, v, 1),
        z: mv4_row_s(m, v, 2),
        w: mv4_row_s(m, v, 3),
    }
}

/// One component of a matrix-tuple product, summed left to right.
pub open spec fn mv4_row_s(m: Seq<int>, v: V4, r: int) -> int {
    fx_add_s(
        fx_add_s(
            fx_add_s(fx_mul_s(m[r * 4 + 0], v.x), fx_mul_s(m[r * 4 + 1], v.y)),
            fx_mul_s(m[r * 4 + 2], v.z),
        ),
        fx_mul_s(m[r * 4 + 3], v.w),
    )
}

/// Maps a sub-matrix index past the removed row or column.
pub open spec fn skip_s(i: int, removed: int) -> int {
    if i < removed {
        i
    } else {
        i + 1
    }
}

/// The 3x3 model left when one row and one column of a 4x4 are removed.
pub open spec fn sub4_s(s: Seq<int>, row: int, col: int) -> Seq<int> {
    Seq::new(9, |k: int| s[skip_s(k / 3, row) * 4 + skip_s(k % 3, col)])
}

/// The 2x2 model left when one row and one column of a 3x3 are removed.
pub open spec fn sub3_s(s: Seq<int>, row: int, col: int) -> Seq<int> {
    Seq::new(4, |k: int| s[skip_s(k / 2, row) * 3 + skip_s(k % 2, col)])
}

/// Determinant of a 2x2 model.
pub open spec fn det2_s(s: Seq<int>) -> int {
    fx_sub_s(fx_mul_s(s[0], s[3]), fx_mul_s(s[1], s[2]))
}

/// Minor of a 3x3 model: the determinant with a row and column removed.
pub open spec fn minor3_s(s: Seq<int>, row: int, col: int) -> int {
    det2_s(sub3_s(s, row, col))
}

/// Cofactor of a 3x3 model: the minor with the checkerboard sign.
pub open spec fn cof3_s(s: Seq<int>, row: int, col: int) -> int {
    if (row + col) % 2 == 0 {
        minor3_s(s, row, col)
    } else {
        fx_neg_s(minor3_s(s, row, col))
    }
}

/// Determinant of a 3x3 model by cofactor expansion along the first row.
pub open spec fn det3_s(s: Seq<int>) -> int {
    fx_add_s(
        fx_add_s(fx_mul_s(s[0], cof3_s(s, 0, 0)), fx_mul_s(s[1], cof3_s(s, 0, 1))),
        fx_mul_s(s[2], cof3_s(s, 0, 2)),
    )
}

/// Minor of a 4x4 model.
pub open spec fn minor4_s(s: Seq<int>, row: int, col: int) -> int {
    det3_s(sub4_s(s, row, col))
}

/// Cofactor of a 4x4 model.
pub open spec fn cof4_s(s: Seq<int>, row: int, col: int) -> int {
    if (row + col) % 2 == 0 {
        minor4_s(s, row, col)
    } else {
        fx_neg_s(minor4_s(s, row, col))
    }
}

/// Determinant of a 4x4 model by cofactor expansion along the first row.
pub open spec fn det4_s(s: Seq<int>) -> int {
    fx_add_s(
        fx_add_s(
            fx_add_s(fx_mul_s(s[0], cof4_s(s, 0, 0)), fx_mul_s(s[1], cof4_s(s, 0, 1))),
            fx_mul_s(s[2], cof4_s(s, 0, 2)),
        ),
        fx_mul_s(s[3], cof4_s(s, 0, 3)),
    )
}

/// A 4x4 matrix counts as singular when its determinant is within the
/// comparison tolerance of zero.
pub open spec fn singular4_s(s: Seq<int>) -> bool {
    iabs(det4_s(s)) < FX_EPSILON as int
}

/// The inverse: the transposed cofactor matrix, divided by the determinant.
pub open spec fn inv4_s(s: Seq<int>) -> Seq<int> {
    Seq::new(16, |k: int| fx_div_s(cof4_s(s, k % 4, k / 4), det4_s(s)))
}

/// Law: the identity matrix is the multiplicative unit, exactly. Every
/// product against a one or a zero is exact in this arithmetic, so
/// multiplying by the identity on either side returns the matrix
/// unchanged. (Associativity of the product, by contrast, holds only up
/// to rounding; see `Matrix4x4::mul`.)
pub proof fn lemma_mul_identity(m: Seq<int>)
    requires
        m4_ok(m),
    ensures
        mm4_s(m, identity4_s()) == m,
        mm4_s(identity4_s(), m) == m,
{
    assert forall|k: int|
        0 <= k < 16 implies mm4_s(m, identity4_s())[k] == m[k] && mm4_s(identity4_s(), m)[k]
            == m[k] by {
        let r = k / 4;
        let c = k % 4;
        crate::fixed::lemma_fx_mul_one(m[4 * r + 0]);
        crate::fixed::lemma_fx_mul_zero(m[4 * r + 0]);
        crate::fixed::lemma_fx_mul_one(m[4 * r + 1]);
        crate::fixed::lemma_fx_mul_zero(m[4 * r + 1]);
        crate::fixed::lemma_fx_mul_one(m[4 * r + 2]);
        crate::fixed::lemma_fx_mul_zero(m[4 * r + 2]);
        crate::fixed::lemma_fx_mul_one(m[4 * r + 3]);
        crate::fixed::lemma_fx_mul_zero(m[4 * r + 3]);
        crate::fixed::lemma_fx_mul_one(m[c + 0]);
        crate::fixed::lemma_fx_mul_zero(m[c + 0]);
        crate::fixed::lemma_fx_mul_one(m[c + 4]);
        crate::fixed::lemma_fx_mul_zero(m[c + 4]);
        crate::fixed::lemma_fx_mul_one(m[c + 8]);
        crate::fixed::lemma_fx_mul_zero(m[c + 8]);
        crate::fixed::lemma_fx_mul_one(m[c + 12]);
        crate::fixed::lemma_fx_mul_zero(m[c + 12]);
    }
    assert(mm4_s(m, identity4_s()) =~= m);
    assert(mm4_s(identity4_s(), m) =~= m);
}

/// Entry-wise approximate equality.
pub open spec fn entries_approx_s(a: Seq<int>, b: Seq<int>) -> bool {
    a.len() == b.len() && forall|i: int| 0 <= i < a.len() ==> fx_approx_s(#[trigger] a[i], #[trigger] b[i])
}

/// A 4x4 matrix of fixed-point scalars, row-major.
#[derive(Clone, Debug)]
pub struct Matrix4x4 {
    pub e: Vec<i128>,
}

/// A 3x3 matrix of fixed-point scalars, row-major.
#[derive(Clone, Debug)]
pub struct Matrix3x3 {
    pub e: Vec<i128>,
}

/// A 2x2 matrix of fixed-point scalars, row-major.
#[derive(Clone, Debug)]
pub struct Matrix2x2 {
    pub e: Vec<i128>,
}

impl View for Matrix4x4 {
    type V = Seq<int>;

    open spec fn view(&self) -> Seq<int> {
        Seq::new(self.e@.len(), |i: int| self.e@[i] as int)
    }
}

impl View for Matrix3x3 {
    type V = Seq<int>;

    open spec fn view(&self) -> Seq<int> {
        Seq::new(self.e@.len(), |i: int| self.e@[i] as int)
    }
}

impl View for Matrix2x2 {
    type V = Seq<int>;

    open spec fn view(&self) -> Seq<int> {
        Seq::new(self.e@.len(), |i: int| self.e@[i] as int)
    }
}

impl Matrix4x4 {
    /// The model is a well-formed 4x4 matrix.
    pub open spec fn wf(&self) -> bool {
        m4_ok(self@)
    }

    /// Constructs a new matrix of zeroes.
    pub fn new() -> (r: Self)
        ensures
            r.wf(),
            r@ == Seq::new(16, |k: int| 0int),
    {
        let mut e: Vec<i128> = Vec::new();
        let mut k: usize = 0;
        while k < 16
            invariant
                k <= 16,
                e@.len() == k,
                forall|j: int| 0 <= j < k ==> e@[j] == 0i128,
            decreases 16 - k,
        {
            e.push(0);
            k = k + 1;
        }
        let r = Self { e };
        proof {
            assert(r@ =~= Seq::new(16, |k: int| 0int));
        }
        r
    }

    /// Constructs a matrix from the given sixteen elements.
    pub fn create(elements: Vec<i128>) -> (r: Self)
        requires
            elements@.len() == 16,
            forall|i: int| 0 <= i < 16 ==> fx_ok(#[trigger] elements@[i] as int),
    ensures
            r.wf(),
            r@ == Seq::new(16, |i: int| elements@[i] as int),
    {
        let r = Self { e: elements };
        proof {
            assert(r@ =~= Seq::new(16, |i: int| r.e@[i] as int));
        }
        r
    }

    /// Constructs a new 4x4 identity matrix (one along the diagonal).
    pub fn identity() -> (r: Self)
        ensures
            r.wf(),
            r@ == identity4_s(),
    {
        let mut e: Vec<i128> = Vec::new();
        let mut k: usize = 0;
        while k < 16
            invariant
                k <= 16,
                e@.len() == k,
                forall|j: int| 0 <= j < k ==> e@[j] as int == identity4_s()[j],
            decreases 16 - k,
        {
            if k % 5 == 0 {
                e.push(FX_ONE);
            } else {
                e.push(0);
            }
            k = k + 1;
        }
        let r = Self { e };
        proof {
            assert(r@ =~= identity4_s());
        }
        r
    }

    /// Reads the entry at the given row and column.
    pub fn at(&self, row: usize, col: usize) -> (r: i128)
        requires
            self.wf(),
            row < 4,
            col < 4,
        ensures
            r as int == self@[row as int * 4 + col as int],
            fx_ok(r as int),
    {
        self.e[row * 4 + col]
    }

    /// Transposes the matrix.
    pub fn transpose(&self) -> (r: Self)
        requires
            self.wf(),
        ensures
            r.wf(),
            r@ == transpose4_s(self@),
    {
        let mut e: Vec<i128> = Vec::new();
        let mut k: usize = 0;
        while k < 16
            invariant
                self.wf(),
                k <= 16,
                e@.len() == k,
                forall|j: int| 0 <= j < k ==> e@[j] as int == transpose4_s(self@)[j],
            decreases 16 - k,
        {
            e.push(self.at(k % 4, k / 4));
            k = k + 1;
        }
        let r = Self { e };
        proof {
            assert(r@ =~= transpose4_s(self@));
        }
        r
    }

    /// Multiplies two matrices together. The contract pins every entry
    /// to the exact summed-product formula; the identity is the exact
    /// multiplicative unit (`lemma_mul_identity`), while associativity
    /// holds only up to rounding in this arithmetic and is deliberately
    /// not claimed.
    pub fn mul(&self, rhs: &Matrix4x4) -> (r: Self)
        requires
            self.wf(),
            rhs.wf(),
        ensures
            r.wf(),
            r@ == mm4_s(self@, rhs@),
    {
        let mut e: Vec<i128> = Vec::new();
        let mut k: usize = 0;
        while k < 16
            invariant
                self.wf(),
                rhs.wf(),
                k <= 16,
                e@.len() == k,
                forall|j: int| 0 <= j < k ==> e@[j] as int == mm4_s(self@, rhs@)[j],
            decreases 16 - k,
        {
            let row = k / 4;
            let col = k % 4;
            let t0 = fx_mul(self.at(row, 0), rhs.at(0, col));
            let t1 = fx_mul(self.at(row, 1), rhs.at(1, col));
            let t2 = fx_mul(self.at(row, 2), rhs.at(2, col));
            let t3 = fx_mul(self.at(row, 3), rhs.at(3, col));
            e.push(fx_add(fx_add(fx_add(t0, t1), t2), t3));
            k = k + 1;
        }
        let r = Self { e };
        proof {
            assert(r@ =~= mm4_s(self@, rhs@));
        }
        r
    }

    /// Transforms a tuple by this matrix.
    pub fn mul_vec(&self, v: Vector) -> (r: Vector)
        requires
            self.wf(),
            v.wf(),
        ensures
            r.wf(),
            r@ == mv4_s(self@, v@),
    {
        let x = fx_add(
            fx_add(fx_add(fx_mul(self.at(0, 0), v.x), fx_mul(self.at(0, 1), v.y)), fx_mul(self.at(0, 2), v.z)),
            fx_mul(self.at(0, 3), v.w),
        );
        let y = fx_add(
            fx_add(fx_add(fx_mul(self.at(1, 0), v.x), fx_mul(self.at(1, 1), v.y)), fx_mul(self.at(1, 2), v.z)),
            fx_mul(self.at(1, 3), v.w),
        );
        let z = fx_add(
            fx_add(fx_add(fx_mul(self.at(2, 0), v.x), fx_mul(self.at(2, 1), v.y)), fx_mul(self.at(2, 2), v.z)),
            fx_mul(self.at(2, 3), v.w),
        );
        let w = fx_add(
            fx_add(fx_add(fx_mul(self.at(3, 0), v.x), fx_mul(self.at(3, 1), v.y)), fx_mul(self.at(3, 2), v.z)),
            fx_mul(self.at(3, 3), v.w),
        );
        Vector { x, y, z, w }
    }

    /// Computes the sub-matrix of this matrix by removing the given row
    /// and column.
    pub fn to_sub_matrix(&self, row: usize, col: usize) -> (r: Matrix3x3)
        requires
            self.wf(),
            row < 4,
            col < 4,
        ensures
            r.wf(),
            r@ == sub4_s(self@, row as int, col as int),
    {
        let mut e: Vec<i128> = Vec::new();
        let mut k: usize = 0;
        while k < 9
            invariant
                self.wf(),
                row < 4,
                col < 4,
                k <= 9,
                e@.len() == k,
                forall|j: int| 0 <= j < k ==> e@[j] as int == sub4_s(self@, row as int, col as int)[j],
            decreases 9 - k,
        {
            let i = k / 3;
            let j = k % 3;
            let y = if i < row {
                i
            } else {
                i + 1
            };
            let x = if j < col {
                j
            } else {
                j + 1
            };
            e.push(self.at(y, x));
            k = k + 1;
        }
        let r = Matrix3x3 { e };
        proof {
            assert(r@ =~= sub4_s(self@, row as int, col as int));
        }
        r
    }

    /// Computes the determinant of the sub-matrix with the given row and
    /// column removed.
    pub fn minor(&self, row: usize, col: usize) -> (r: i128)
        requires
            self.wf(),
            row < 4,
            col < 4,
        ensures
            r as int == minor4_s(self@, row as int, col as int),
            fx_ok(r as int),
    {
        self.to_sub_matrix(row, col).determinant()
    }

    /// Calculates the cofactor of the matrix with the given row and column
    /// removed.
    pub fn cofactor(&self, row: usize, col: usize) -> (r: i128)
        requires
            self.wf(),
            row < 4,
            col < 4,
        ensures
            r as int == cof4_s(self@, row as int, col as int),
            fx_ok(r as int),
    {
        let minor = self.minor(row, col);
        if (row + col) % 2 == 0 {
            minor
        } else {
            fx_neg(minor)
        }
    }

    /// Computes the determinant of the matrix.
    ///
    /// A determinant 'determines' whether a system of equations has a solution.
    pub fn determinant(&self) -> (r: i128)
        requires
            self.wf(),
        ensures
            r as int == det4_s(self@),
            fx_ok(r as int),
    {
        let t0 = fx_mul(self.at(0, 0), self.cofactor(0, 0));
        let t1 = fx_mul(self.at(0, 1), self.cofactor(0, 1));
        let t2 = fx_mul(self.at(0, 2), self.cofactor(0, 2));
        let t3 = fx_mul(self.at(0, 3), self.cofactor(0, 3));
        fx_add(fx_add(fx_add(t0, t1), t2), t3)
    }

    /// Inverts this matrix; a determinant within the comparison tolerance
    /// of zero is reported as singular rather than divided by. The
    /// determinant test is the only rejection this interface defines; it
    /// does not bound conditioning, so a well-determined but strongly
    /// shrinking matrix is accepted even though products against its
    /// inverse then amplify this arithmetic's rounding beyond the
    /// comparison tolerance. The round-trip lemmas state the bounds
    /// under which cancellation is guaranteed.
    pub fn invert(&self) -> (r: Result<Matrix4x4, MatrixError>)
        requires
            self.wf(),
        ensures
            match r {
                Ok(m) => !singular4_s(self@) && m.wf() && m@ == inv4_s(self@),
                Err(e) => singular4_s(self@) && e == MatrixError::Singular,
            },
    {
        let det = self.determinant();
        if fx_abs(det) < FX_EPSILON {
            return Err(MatrixError::Singular);
        }
        let mut e: Vec<i128> = Vec::new();
        let mut k: usize = 0;
        while k < 16
            invariant
                self.wf(),
                det as int == det4_s(self@),
                fx_ok(det as int),
                k <= 16,
                e@.len() == k,
                forall|j: int| 0 <= j < k ==> e@[j] as int == inv4_s(self@)[j],
            decreases 16 - k,
        {
            e.push(fx_div(self.cofactor(k % 4, k / 4), det));
            k = k + 1;
        }
        let r = Matrix4x4 { e };
        proof {
            assert(r@ =~= inv4_s(self@));
        }
        Ok(r)
    }
}

impl Matrix3x3 {
    /// The model is a well-formed 3x3 matrix.
    pub open spec fn wf(&self) -> bool {
        m3_ok(self@)
    }

    /// Constructs a matrix from the given nine elements.
    pub fn create(elements: Vec<i128>) -> (r: Self)
        requires
            elements@.len() == 9,
            forall|i: int| 0 <= i < 9 ==> fx_ok(#[trigger] elements@[i] as int),
        ensures
            r.wf(),
            r@ == Seq::new(9, |i: int| elements@[i] as int),
    {
        let r = Self { e: elements };
        proof {
            assert(r@ =~= Seq::new(9, |i: int| r.e@[i] as int));
        }
        r
    }

    /// Constructs a new 3x3 identity matrix (one along the diagonal).
    pub fn identity() -> (r: Self)
        ensures
            r.wf(),
            r@ == identity3_s(),
    {
        let mut e: Vec<i128> = Vec::new();
        let mut k: usize = 0;
        while k < 9
            invariant
                k <= 9,
                e@.len() == k,
                forall|j: int| 0 <= j < k ==> e@[j] as int == identity3_s()[j],
            decreases 9 - k,
        {
            if k % 4 == 0 {
                e.push(FX_ONE);
            } else {
                e.push(0);
            }
            k = k + 1;
        }
        let r = Self { e };
        proof {
            assert(r@ =~= identity3_s());
        }
        r
    }

    /// Reads the entry at the given row and column.
    pub fn at(&self, row: usize, col: usize) -> (r: i128)
        requires
            self.wf(),
            row < 3,
            col < 3,
        ensures
            r as int == self@[row as int * 3 + col as int],
            fx_ok(r as int),
    {
        self.e[row * 3 + col]
    }

    /// Computes the sub-matrix of this matrix by removing the given row
    /// and column.
    pub fn to_sub_matrix(&self, row: usize, col: usize) -> (r: Matrix2x2)
        requires
            self.wf(),
            row < 3,
            col < 3,
        ensures
            r.wf(),
            r@ == sub3_s(self@, row as int, col as int),
    {
        let mut e: Vec<i128> = Vec::new();
        let mut k: usize = 0;
        while k < 4
            invariant
                self.wf(),
                row < 3,
                col < 3,
                k <= 4,
                e@.len() == k,
                forall|j: int| 0 <= j < k ==> e@[j] as int == sub3_s(self@, row as int, col as int)[j],
            decreases 4 - k,
        {
            let i = k / 2;
            let j = k % 2;
            let y = if i < row {
                i
            } else {
                i + 1
            };
            let x = if j < col {
                j
            } else {
                j + 1
            };
            e.push(self.at(y, x));
            k = k + 1;
        }
        let r = Matrix2x2 { e };
        proof {
            assert(r@ =~= sub3_s(self@, row as int, col as int));
        }
        r
    }

    /// Computes the determinant of the sub-matrix with the given row and
    /// column removed.
    pub fn minor(&self, row: usize, col: usize) -> (r: i128)
        requires
            self.wf(),
            row < 3,
            col < 3,
        ensures
            r as int == minor3_s(self@, row as int, col as int),
            fx_ok(r as int),
    {
        self.to_sub_matrix(row, col).determinant()
    }

    /// Calculates the cofactor of the matrix with the given row and column
    /// removed.
    pub fn cofactor(&self, row: usize, col: usize) -> (r: i128)
        requires
            self.wf(),
            row < 3,
            col < 3,
        ensures
            r as int == cof3_s(self@, row as int, col as int),
            fx_ok(r as int),
    {
        let minor = self.minor(row, col);
        if (row + col) % 2 == 0 {
            minor
        } else {
            fx_neg(minor)
        }
    }

    /// Computes the determinant of the matrix.
    pub fn determinant(&self) -> (r: i128)
        requires
            self.wf(),
        ensures
            r as int == det3_s(self@),
            fx_ok(r as int),
    {
        let t0 = fx_mul(self.at(0, 0), self.cofactor(0, 0));
        let t1 = fx_mul(self.at(0, 1), self.cofactor(0, 1));
        let t2 = fx_mul(self.at(0, 2), self.cofactor(0, 2));
        fx_add(fx_add(t0, t1), t2)
    }
}

impl Matrix2x2 {
    /// The model is a well-formed 2x2 matrix.
    pub open spec fn wf(&self) -> bool {
        m2_ok(self@)
    }

    /// Constructs a matrix from the given four elements.
    pub fn create(elements: Vec<i128>) -> (r: Self)
        requires
            elements@.len() == 4,
            forall|i: int| 0 <= i < 4 ==> fx_ok(#[trigger] elements@[i] as int),
        ensures
            r.wf(),
            r@ == Seq::new(4, |i: int| elements@[i] as int),
    {
        let r = Self { e: elements };
        proof {
            assert(r@ =~= Seq::new(4, |i: int| r.e@[i] as int));
        }
        r
    }

    /// Constructs a new 2x2 identity matrix (one along the diagonal).
    pub fn identity() -> (r: Self)
        ensures
            r.wf(),
            r@ == identity2_s(),
    {
        let mut e: Vec<i128> = Vec::new();
        e.push(FX_ONE);
        e.push(0);
        e.push(0);
        e.push(FX_ONE);
        let r = Self { e };
        proof {
            assert(r@ =~= identity2_s());
        }
        r
    }

    /// Reads the entry at the given row and column.
    pub fn at(&self, row: usize, col: usize) -> (r: i128)
        requires
            self.wf(),
            row < 2,
            col < 2,
        ensures
            r as int == self@[row as int * 2 + col as int],
            fx_ok(r as int),
    {
        self.e[row * 2 + col]
    }

    /// Computes the determinant of the matrix.
    pub fn determinant(&self) -> (r: i128)
        requires
            self.wf(),
        ensures
            r as int == det2_s(self@),
            fx_ok(r as int),
    {
        let a = self.at(0, 0);
        let b = self.at(0, 1);
        let c = self.at(1, 0);
        let d = self.at(1, 1);
        fx_sub(fx_mul(a, d), fx_mul(b, c))
    }
}

impl ApproxEq for Matrix4x4 {
    open spec fn approx_req(&self, rhs: &Self) -> bool {
        self.wf() && rhs.wf()
    }

    open spec fn approx_spec(&self, rhs: &Self) -> bool {
        entries_approx_s(self@, rhs@)
    }

    fn is_approx(&self, rhs: &Self) -> (r: bool) {
        let mut k: usize = 0;
        while k < 16
            invariant
                self.wf(),
                rhs.wf(),
                k <= 16,
                forall|j: int| 0 <= j < k ==> fx_approx_s(#[trigger] self@[j], #[trigger] rhs@[j]),
            decreases 16 - k,
        {
            proof {
                assert(self@[k as int] == self.e@[k as int] as int);
                assert(rhs@[k as int] == rhs.e@[k as int] as int);
            }
            if !fx_approx(self.e[k], rhs.e[k]) {
                return false;
            }
            k = k + 1;
        }
        true
    }
}

impl ApproxEq for Matrix3x3 {
    open spec fn approx_req(&self, rhs: &Self) -> bool {
        self.wf() && rhs.wf()
    }

    open spec fn approx_spec(&self, rhs: &Self) -> bool {
        entries_approx_s(self@, rhs@)
    }

    fn is_approx(&self, rhs: &Self) -> (r: bool) {
        let mut k: usize = 0;
        while k < 9
            invariant
                self.wf(),
                rhs.wf(),
                k <= 9,
                forall|j: int| 0 <= j < k ==> fx_approx_s(#[trigger] self@[j], #[trigger] rhs@[j]),
            decreases 9 - k,
        {
            proof {
                assert(self@[k as int] == self.e@[k as int] as int);
                assert(rhs@[k as int] == rhs.e@[k as int] as int);
            }
            if !fx_approx(self.e[k], rhs.e[k]) {
                return false;
            }
            k = k + 1;
        }
        true
    }
}

impl ApproxEq for Matrix2x2 {
    open spec fn approx_req(&self, rhs: &Self) -> bool {
        self.wf() && rhs.wf()
    }

    open spec fn approx_spec(&self, rhs: &Self) -> bool {
        entries_approx_s(self@, rhs@)
    }

    fn is_approx(&self, rhs: &Self) -> (r: bool) {
        let mut k: usize = 0;
        while k < 4
            invariant
                self.wf(),
                rhs.wf(),
                k <= 4,
                forall|j: int| 0 <= j < k ==> fx_approx_s(#[trigger] self@[j], #[trigger] rhs@[j]),
            decreases 4 - k,
        {
            proof {
                assert(self@[k as int] == self.e@[k as int] as int);
                assert(rhs@[k as int] == rhs.e@[k as int] as int);
            }
            if !fx_approx(self.e[k], rhs.e[k]) {
                return false;
            }
            k = k + 1;
        }
        true
    }
}

} // verus!
