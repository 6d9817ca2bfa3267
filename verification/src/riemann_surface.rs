//! Riemann surfaces: sheets, monodromy (how the sheets are permuted when a path
//! loops around a branch point) and the topological invariants of a covering.

use vstd::prelude::*;

verus! {

/// Sheet of a Riemann surface.
#[derive(Debug, Clone)]
pub struct Sheet {
    pub index: usize,
    pub label: String,
}

/// The permutation `0, 1, ..., n - 1`.
pub open spec fn identity_perm(n: usize) -> Seq<usize> {
    Seq::new(n as nat, |k: int| k as usize)
}

/// The identity permutation of `n` sheets with the entries `i` and `j` exchanged.
pub open spec fn transposition_perm(n: usize, i: usize, j: usize) -> Seq<usize> {
    identity_perm(n).update(i as int, j).update(j as int, i)
}

/// `p` followed by `q`: entry `k` is `q[p[k]]`.
pub open spec fn composed_perm(p: Seq<usize>, q: Seq<usize>) -> Seq<usize> {
    Seq::new(p.len(), |k: int| q[p[k] as int])
}

/// Every entry of `p` indexes a sheet of a covering with `n` sheets.
pub open spec fn maps_into(p: Seq<usize>, n: nat) -> bool {
    forall|k: int| 0 <= k < p.len() ==> #[trigger] p[k] < n
}

/// `p` is a permutation of `0, ..., p.len() - 1`.
pub open spec fn is_permutation(p: Seq<usize>) -> bool {
    &&& maps_into(p, p.len())
    &&& forall|a: int, b: int|
        0 <= a < p.len() && 0 <= b < p.len() && a != b ==> #[trigger] p[a] != #[trigger] p[b]
}

/// Every sheet is sent to itself.
pub open spec fn fixes_every_sheet(p: Seq<usize>) -> bool {
    forall|k: int| 0 <= k < p.len() ==> #[trigger] p[k] == k
}

/// Monodromy: track sheet transitions when looping around branch points.
#[derive(Debug, Clone)]
pub struct Monodromy {
    /// Permutation of sheets when looping around a branch point.
    /// `permutation[i] = j` means sheet `i` transitions to sheet `j`.
    pub permutation: Vec<usize>,
}

impl Monodromy {
    pub fn new(permutation: Vec<usize>) -> (m: Self)
        ensures
            m.permutation@ == permutation@,
    {
        Self { permutation }
    }

    /// Identity monodromy (no sheet transition).
    pub fn identity(n: usize) -> (m: Self)
        ensures
            m.permutation@ == identity_perm(n),
            m.permutation@.len() == n,
            forall|k: int| 0 <= k < n ==> #[trigger] m.permutation@[k] == k,
    {
        let mut perm: Vec<usize> = Vec::new();
        let mut k: usize = 0;
        while k < n
            invariant
                k <= n,
                perm@ == identity_perm(k),
            decreases n - k,
        {
            perm.push(k);
            k = k + 1;
        }
        Self { permutation: perm }
    }

    /// Simple transposition swapping sheets `i` and `j`.
    pub fn transposition(n: usize, i: usize, j: usize) -> (m: Self)
        requires
            i < n,
            j < n,
        ensures
            m.permutation@ == transposition_perm(n, i, j),
            m.permutation@.len() == n,
            m.permutation@[i as int] == j,
            m.permutation@[j as int] == i,
            forall|k: int|
                0 <= k < n && k != i && k != j ==> #[trigger] m.permutation@[k] == k,
    {
        let mut perm = Self::identity(n).permutation;
        perm.set(i, j);
        perm.set(j, i);
        proof {
            lemma_transposition_moves_only_i_and_j(n, i, j);
        }
        Self { permutation: perm }
    }

    /// Compose two monodromy permutations: first `self`, then `other`.
    pub fn compose(&self, other: &Monodromy) -> (m: Monodromy)
        requires
            maps_into(self.permutation@, other.permutation@.len()),
        ensures
            m.permutation@ == composed_perm(self.permutation@, other.permutation@),
            m.permutation@.len() == self.permutation@.len(),
            forall|k: int|
                0 <= k < self.permutation@.len() ==> #[trigger] m.permutation@[k]
                    == other.permutation@[self.permutation@[k] as int],
    {
        let n = self.permutation.len();
        let mut result: Vec<usize> = Vec::new();
        let mut k: usize = 0;
        while k < n
            invariant
                n == self.permutation@.len(),
                k <= n,
                maps_into(self.permutation@, other.permutation@.len()),
                result@ == composed_perm(self.permutation@.take(k as int), other.permutation@),
            decreases n - k,
        {
            let s = self.permutation[k];
            result.push(other.permutation[s]);
            k = k + 1;
            assert(result@ =~= composed_perm(self.permutation@.take(k as int), other.permutation@));
        }
        assert(self.permutation@.take(n as int) =~= self.permutation@);
        Monodromy::new(result)
    }

    /// Apply monodromy to a sheet index.
    pub fn apply(&self, sheet: usize) -> (s: usize)
        requires
            sheet < self.permutation@.len(),
        ensures
            s == self.permutation@[sheet as int],
    {
        self.permutation[sheet]
    }

    /// Check if this is the identity permutation.
    pub fn is_identity(&self) -> (b: bool)
        ensures
            b == fixes_every_sheet(self.permutation@),
            b <==> (forall|k: int|
                0 <= k < self.permutation@.len() ==> #[trigger] self.permutation@[k] == k),
    {
        let n = self.permutation.len();
        let mut k: usize = 0;
        while k < n
            invariant
                n == self.permutation@.len(),
                k <= n,
                forall|a: int| 0 <= a < k ==> #[trigger] self.permutation@[a] == a,
            decreases n - k,
        {
            if self.permutation[k] != k {
                return false;
            }
            k = k + 1;
        }
        true
    }
}

/// Division by two that rounds toward zero, as Rust's `/` does.
pub open spec fn half_toward_zero(x: int) -> int {
    if x >= 0 {
        x / 2
    } else {
        -((-x) / 2)
    }
}

/// Euler characteristic of an n-sheeted covering of the sphere with b branch points:
/// χ = 2n - b.
///
/// Both counts are converted to `i64` first, as Rust's `as` converts them; a
/// count above `i64::MAX` (such as the `usize::MAX` sheets of the logarithm's
/// surface) wraps around. The arithmetic after that conversion must not
/// overflow.
pub fn euler_characteristic(n_sheets: usize, n_branch_points: usize) -> (chi: i64)
    requires
        i64::MIN <= 2 * (n_sheets as i64) <= i64::MAX,
        i64::MIN <= 2 * (n_sheets as i64) - (n_branch_points as i64) <= i64::MAX,
    ensures
        chi == 2 * (n_sheets as i64) - (n_branch_points as i64),
        n_sheets <= i64::MAX && n_branch_points <= i64::MAX ==> chi == 2 * n_sheets
            - n_branch_points,
{
    2 * n_sheets as i64 - n_branch_points as i64
}

/// Genus from Euler characteristic: g = (2 - χ) / 2.
pub fn genus(euler_char: i64) -> (g: i64)
    requires
        euler_char >= i64::MIN + 3,
    ensures
        g == half_toward_zero(2 - euler_char),
        2 - euler_char >= 0 ==> 2 * g <= 2 - euler_char <= 2 * g + 1,
        2 - euler_char < 0 ==> 2 * g - 1 <= 2 - euler_char <= 2 * g,
{
    (2 - euler_char) / 2
}

/// A transposition of `n` sheets exchanges sheets `i` and `j` and leaves every
/// other sheet where it is: it has one entry per sheet, entry `i` is `j`,
/// entry `j` is `i`, and every other entry `k` is `k`.
pub proof fn lemma_transposition_moves_only_i_and_j(n: usize, i: usize, j: usize)
    requires
        i < n,
        j < n,
    ensures
        transposition_perm(n, i, j).len() == n,
        transposition_perm(n, i, j)[i as int] == j,
        transposition_perm(n, i, j)[j as int] == i,
        forall|k: int|
            0 <= k < n && k != i && k != j ==> #[trigger] transposition_perm(n, i, j)[k] == k,
{
}

/// Applying a composed monodromy to a sheet is applying the first monodromy,
/// then the second.
pub proof fn lemma_compose_then_apply(p: Seq<usize>, q: Seq<usize>, sheet: int)
    requires
        maps_into(p, q.len()),
        0 <= sheet < p.len(),
    ensures
        composed_perm(p, q).len() == p.len(),
        composed_perm(p, q)[sheet] == q[p[sheet] as int],
{
}

/// The identity monodromy, taken first, leaves any monodromy unchanged.
pub proof fn lemma_identity_left_neutral(p: Seq<usize>)
    requires
        p.len() <= usize::MAX,
    ensures
        composed_perm(identity_perm(p.len() as usize), p) == p,
{
    assert(composed_perm(identity_perm(p.len() as usize), p) =~= p);
}

/// The identity monodromy, taken second, leaves unchanged any monodromy whose
/// sheets are among its own.
pub proof fn lemma_identity_right_neutral(p: Seq<usize>, n: usize)
    requires
        maps_into(p, n as nat),
    ensures
        composed_perm(p, identity_perm(n)) == p,
{
    assert(composed_perm(p, identity_perm(n)) =~= p);
}

/// Composition of monodromies is associative.
pub proof fn lemma_compose_associative(p: Seq<usize>, q: Seq<usize>, r: Seq<usize>)
    requires
        maps_into(p, q.len()),
        maps_into(q, r.len()),
    ensures
        composed_perm(composed_perm(p, q), r) == composed_perm(p, composed_perm(q, r)),
{
    assert(composed_perm(composed_perm(p, q), r) =~= composed_perm(p, composed_perm(q, r)));
}

/// Looping twice around a branch point that swaps two sheets brings every
/// sheet back: a transposition is its own inverse.
pub proof fn lemma_transposition_involution(n: usize, i: usize, j: usize)
    requires
        i < n,
        j < n,
    ensures
        composed_perm(transposition_perm(n, i, j), transposition_perm(n, i, j))
            == identity_perm(n),
{
    let t = transposition_perm(n, i, j);
    assert(composed_perm(t, t) =~= identity_perm(n));
}

/// The identity monodromy is a permutation of the sheets, and it fixes every sheet.
pub proof fn lemma_identity_is_permutation(n: usize)
    ensures
        identity_perm(n).len() == n,
        forall|k: int| 0 <= k < n ==> #[trigger] identity_perm(n)[k] == k,
        is_permutation(identity_perm(n)),
        fixes_every_sheet(identity_perm(n)),
{
}

/// A monodromy fixes every sheet exactly when it is the identity.
pub proof fn lemma_fixes_every_sheet_iff_identity(p: Seq<usize>)
    requires
        p.len() <= usize::MAX,
    ensures
        fixes_every_sheet(p) <==> p == identity_perm(p.len() as usize),
{
    if fixes_every_sheet(p) {
        assert(p =~= identity_perm(p.len() as usize));
    }
}

/// A transposition is a permutation of the sheets; it fixes every sheet
/// exactly when it swaps a sheet with itself.
pub proof fn lemma_transposition_is_permutation(n: usize, i: usize, j: usize)
    requires
        i < n,
        j < n,
    ensures
        is_permutation(transposition_perm(n, i, j)),
        fixes_every_sheet(transposition_perm(n, i, j)) <==> i == j,
{
    let t = transposition_perm(n, i, j);
    if i != j {
        assert(t[i as int] != i);
    }
}

/// Composing two permutations of the same sheets gives a permutation.
pub proof fn lemma_compose_preserves_permutation(p: Seq<usize>, q: Seq<usize>)
    requires
        is_permutation(p),
        is_permutation(q),
        p.len() == q.len(),
    ensures
        is_permutation(composed_perm(p, q)),
{
    let c = composed_perm(p, q);
    assert forall|a: int, b: int|
        0 <= a < c.len() && 0 <= b < c.len() && a != b implies #[trigger] c[a] != #[trigger] c[b] by {
        assert(p[a] != p[b]);
        assert(q[p[a] as int] != q[p[b] as int]);
    }
}

/// The genus recovers g from the Euler characteristic 2 - 2g of a closed
/// surface of genus g.
pub proof fn lemma_genus_inverts_euler_characteristic(g: int)
    ensures
        half_toward_zero(2 - (2 - 2 * g)) == g,
{
}

/// Halving toward zero: for x ≥ 0 the result h satisfies 2h ≤ x ≤ 2h + 1, and
/// for x < 0 it satisfies 2h - 1 ≤ x ≤ 2h, so an odd difference is rounded
/// toward zero.
pub proof fn lemma_half_toward_zero_rounds_toward_zero(x: int)
    ensures
        x >= 0 ==> 2 * half_toward_zero(x) <= x <= 2 * half_toward_zero(x) + 1,
        x < 0 ==> 2 * half_toward_zero(x) - 1 <= x <= 2 * half_toward_zero(x),
{
}

} // verus!
