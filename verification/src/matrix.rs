use vstd::prelude::*;

use crate::vecmath::lemma_product_bound;

verus! {

/// A 4x4 matrix of fixed-point integers, row-major: entry (r, c) sits at
/// index `4 * r + c`. The entries are kept wide so that products of camera
/// basis vectors and positions never overflow.
#[derive(PartialEq, Eq, Debug)]
pub struct Mat4 {
    pub m: Vec<i128>,
}

impl View for Mat4 {
    type V = Seq<int>;

    open spec fn view(&self) -> Seq<int> {
        Seq::new(self.m@.len() as nat, |i: int| self.m@[i] as int)
    }
}

impl Mat4 {
    /// A matrix is well formed when it has exactly 16 entries.
    pub open spec fn wf(&self) -> bool {
        self.m@.len() == 16
    }

    /// An exact copy.
    pub fn duplicate(&self) -> (r: Mat4)
        requires
            self.wf(),
        ensures
            r.wf(),
            r@ == self@,
    {
        let mut m: Vec<i128> = Vec::new();
        let mut i: usize = 0;
        while i < 16
            invariant
                self.wf(),
                i <= 16,
                m@.len() == i,
                forall|k: int| 0 <= k < i ==> m@[k] == self.m@[k],
            decreases 16 - i,
        {
            m.push(self.m[i]);
            i = i + 1;
        }
        let r = Mat4 { m };
        proof {
            assert(r@ =~= self@);
        }
        r
    }
}

/// One entry of a matrix product: row `r` of `a` against column `c` of `b`.
pub open spec fn product_entry(a: Seq<int>, b: Seq<int>, r: int, c: int) -> int {
    a[4 * r] * b[c] + a[4 * r + 1] * b[4 + c] + a[4 * r + 2] * b[8 + c] + a[4 * r + 3] * b[12
        + c]
}

/// The full matrix product, row-major.
pub open spec fn mat_product(a: Seq<int>, b: Seq<int>) -> Seq<int> {
    Seq::new(16, |i: int| product_entry(a, b, i / 4, i % 4))
}

/// The identity matrix: the model transform of the quad.
pub open spec fn identity_entries() -> Seq<int> {
    seq![1, 0, 0, 0, 0, 1, 0, 0, 0, 0, 1, 0, 0, 0, 0, 1]
}

/// Builds the identity matrix.
pub fn identity() -> (r: Mat4)
    ensures
        r.wf(),
        r@ == identity_entries(),
{
    let m: Vec<i128> = vec![1, 0, 0, 0, 0, 1, 0, 0, 0, 0, 1, 0, 0, 0, 0, 1];
    let r = Mat4 { m };
    proof {
        assert(r@ =~= identity_entries());
    }
    r
}

/// Largest magnitude allowed for the left factor's entries in `multiply`.
pub const LEFT_FACTOR_BOUND: i128 = 4096;

/// Largest magnitude allowed for the right factor's entries in `multiply`.
pub const RIGHT_FACTOR_BOUND: i128 = 1_000_000_000_000_000_000_000_000_000_000;

/// All entries of `s` bounded by `m` in magnitude.
pub open spec fn entries_bounded(s: Seq<int>, m: int) -> bool {
    forall|i: int| 0 <= i < s.len() ==> -m <= #[trigger] s[i] <= m
}

/// Exact matrix product. The entry bounds are machine limits: they keep every
/// product and four-term sum inside the wide integer range.
pub fn multiply(a: &Mat4, b: &Mat4) -> (r: Mat4)
    requires
        a.wf(),
        b.wf(),
        entries_bounded(a@, LEFT_FACTOR_BOUND as int),
        entries_bounded(b@, RIGHT_FACTOR_BOUND as int),
    ensures
        r.wf(),
        r@ == mat_product(a@, b@),
{
    let mut m: Vec<i128> = Vec::new();
    let mut row: usize = 0;
    while row < 4
        invariant
            a.wf(),
            b.wf(),
            entries_bounded(a@, LEFT_FACTOR_BOUND as int),
            entries_bounded(b@, RIGHT_FACTOR_BOUND as int),
            row <= 4,
            m@.len() == 4 * row,
            forall|k: int|
                0 <= k < m@.len() ==> m@[k] as int == product_entry(a@, b@, k / 4, k % 4),
        decreases 4 - row,
    {
        let mut col: usize = 0;
        while col < 4
            invariant
                a.wf(),
                b.wf(),
                entries_bounded(a@, LEFT_FACTOR_BOUND as int),
                entries_bounded(b@, RIGHT_FACTOR_BOUND as int),
                row < 4,
                col <= 4,
                m@.len() == 4 * row + col,
                forall|k: int|
                    0 <= k < m@.len() ==> m@[k] as int == product_entry(a@, b@, k / 4, k % 4),
            decreases 4 - col,
        {
            proof {
                lemma_product_bound(
                    a@[4 * row as int],
                    b@[col as int],
                    LEFT_FACTOR_BOUND as int,
                    RIGHT_FACTOR_BOUND as int,
                );
                lemma_product_bound(
                    a@[4 * row as int + 1],
                    b@[4 + col as int],
                    LEFT_FACTOR_BOUND as int,
                    RIGHT_FACTOR_BOUND as int,
                );
                lemma_product_bound(
                    a@[4 * row as int + 2],
                    b@[8 + col as int],
                    LEFT_FACTOR_BOUND as int,
                    RIGHT_FACTOR_BOUND as int,
                );
                lemma_product_bound(
                    a@[4 * row as int + 3],
                    b@[12 + col as int],
                    LEFT_FACTOR_BOUND as int,
                    RIGHT_FACTOR_BOUND as int,
                );
            }
            let v: i128 = a.m[4 * row] * b.m[col] + a.m[4 * row + 1] * b.m[4 + col] + a.m[4 * row
                + 2] * b.m[8 + col] + a.m[4 * row + 3] * b.m[12 + col];
            m.push(v);
            proof {
                let k = 4 * row as int + col as int;
                assert(k / 4 == row as int && k % 4 == col as int);
            }
            col = col + 1;
        }
        row = row + 1;
    }
    let r = Mat4 { m };
    proof {
        assert(r@ =~= mat_product(a@, b@));
    }
    r
}

/// Multiplying on the right by the identity changes nothing: with the quad's
/// model transform fixed at the identity, `projection * view * model` is the
/// same matrix as `projection * view`.
pub proof fn lemma_identity_right(a: Seq<int>)
    requires
        a.len() == 16,
    ensures
        mat_product(a, identity_entries()) == a,
{
    let p = mat_product(a, identity_entries());
    assert forall|i: int| 0 <= i < 16 implies p[i] == a[i] by {
        let r = i / 4;
        let c = i % 4;
        assert(0 <= r < 4 && 0 <= c < 4);
        if c == 0 {
            assert(p[i] == a[4 * r] * 1 + a[4 * r + 1] * 0 + a[4 * r + 2] * 0 + a[4 * r + 3] * 0);
        } else if c == 1 {
            assert(p[i] == a[4 * r] * 0 + a[4 * r + 1] * 1 + a[4 * r + 2] * 0 + a[4 * r + 3] * 0);
        } else if c == 2 {
            assert(p[i] == a[4 * r] * 0 + a[4 * r + 1] * 0 + a[4 * r + 2] * 1 + a[4 * r + 3] * 0);
        } else {
            assert(p[i] == a[4 * r] * 0 + a[4 * r + 1] * 0 + a[4 * r + 2] * 0 + a[4 * r + 3] * 1);
        }
        assert(4 * r + c == i);
    };
    assert(mat_product(a, identity_entries()) =~= a);
}

} // verus!
