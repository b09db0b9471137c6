//! How panes share the screen.

use vstd::prelude::*;

verus! {

/// Maximum number of panes on desktop.
pub const MAX_PANES_DESKTOP: usize = 6;

/// Maximum number of panes on mobile.
pub const MAX_PANES_MOBILE: usize = 4;

/// Shares of an axis are counted out of this many, which two and three divide.
pub const WHOLE: i64 = 1_200_000;

/// The least share a row or a column keeps: fifteen hundredths.
pub const MIN_SHARE: i64 = 180_000;

/// Half the width of the strip a divider is dragged by, in millionths of a
/// point.
pub const DIVIDER_HALF_WIDTH: i64 = 4_000_000;

/// A rectangle, in millionths of a point.
#[derive(Clone, Copy, Debug, PartialEq, Eq, Structural)]
pub struct Rect {
    pub left: i64,
    pub top: i64,
    pub right: i64,
    pub bottom: i64,
}

impl Rect {
    /// Whether the point lies inside; the left and top edges belong to it.
    pub open spec fn holds(self, x: int, y: int) -> bool {
        self.left <= x < self.right && self.top <= y < self.bottom
    }
}

/// The point `part` of [`WHOLE`] along the way from `a` to `b`.
pub open spec fn along(a: int, b: int, part: int) -> int {
    if b >= a {
        a + ((b - a) * part) / (WHOLE as int)
    } else {
        a - ((a - b) * part) / (WHOLE as int)
    }
}

/// The sum of the first `n` shares.
pub open spec fn shares_before(shares: Seq<i64>, n: int) -> int
    decreases n,
{
    if n <= 0 {
        0
    } else {
        shares_before(shares, n - 1) + shares[n - 1]
    }
}

/// Whether these are the shares of one whole axis, none of them too small.
pub open spec fn splits_whole(shares: Seq<i64>) -> bool {
    &&& shares.len() > 0
    &&& forall|i: int| 0 <= i < shares.len() ==> MIN_SHARE <= #[trigger] shares[i] <= WHOLE
    &&& shares_before(shares, shares.len() as int) == WHOLE
}

/// How many columns each row of a layout of `count` panes has.
pub open spec fn columns_of(count: int) -> Seq<usize> {
    if count <= 1 {
        seq![1usize]
    } else if count == 2 {
        seq![2usize]
    } else if count == 3 {
        seq![2usize, 1usize]
    } else if count == 4 {
        seq![2usize, 2usize]
    } else if count == 5 {
        seq![3usize, 2usize]
    } else {
        seq![3usize, 3usize]
    }
}

/// The sum of the first `n` row lengths.
pub open spec fn cells_before(grid: Seq<usize>, n: int) -> int
    decreases n,
{
    if n <= 0 {
        0
    } else {
        cells_before(grid, n - 1) + grid[n - 1]
    }
}

/// A pane arrangement: how many panes, and how the rows and the columns of each
/// row share their axis.
pub struct Arrangement {
    pub count: int,
    pub rows: Seq<i64>,
    pub columns: Seq<Seq<i64>>,
}

impl Arrangement {
    /// Whether the shares fit the grid of this many panes.
    pub open spec fn valid(self) -> bool {
        let grid = columns_of(self.count);
        &&& 1 <= self.count <= MAX_PANES_DESKTOP
        &&& self.rows.len() == grid.len()
        &&& splits_whole(self.rows)
        &&& self.columns.len() == grid.len()
        &&& forall|r: int|
            0 <= r < grid.len() ==> splits_whole(#[trigger] self.columns[r])
                && self.columns[r].len() == grid[r]
    }

    /// The row and the column of pane `idx`.
    pub open spec fn cell(self, idx: int) -> (int, int) {
        let first = columns_of(self.count)[0] as int;
        if idx < first {
            (0, idx)
        } else {
            (1, idx - first)
        }
    }

    /// Where pane `idx` stands inside `total`; past the last pane, `total`
    /// itself.
    pub open spec fn rect(self, idx: int, total: Rect) -> Rect {
        if 0 <= idx < self.count {
            let (row, col) = self.cell(idx);
            let cols = self.columns[row];
            Rect {
                left: along(total.left as int, total.right as int, shares_before(cols, col)) as i64,
                top: along(
                    total.top as int,
                    total.bottom as int,
                    shares_before(self.rows, row),
                ) as i64,
                right: along(
                    total.left as int,
                    total.right as int,
                    shares_before(cols, col + 1),
                ) as i64,
                bottom: along(
                    total.top as int,
                    total.bottom as int,
                    shares_before(self.rows, row + 1),
                ) as i64,
            }
        } else {
            total
        }
    }
}

impl Arrangement {
    /// This arrangement once the divider below row `row` is dragged by `delta` on
    /// an axis of length `extent`.
    pub open spec fn row_dragged(self, row: int, delta: int, extent: int) -> Arrangement {
        Arrangement { rows: divided(self.rows, row, share_of_drag(delta, extent)), ..self }
    }

    /// This arrangement once the divider behind column `col` of row `row` is
    /// dragged by `delta` on an axis of length `extent`.
    pub open spec fn column_dragged(
        self,
        row: int,
        col: int,
        delta: int,
        extent: int,
    ) -> Arrangement {
        Arrangement {
            columns: self.columns.update(
                row,
                divided(self.columns[row], col, share_of_drag(delta, extent)),
            ),
            ..self
        }
    }

    /// Where the rows `row` and the next meet.
    pub open spec fn row_edge(self, row: int, total: Rect) -> int {
        along(total.top as int, total.bottom as int, shares_before(self.rows, row + 1))
    }

    /// Where the columns `col` and the next of row `row` meet.
    pub open spec fn column_edge(self, row: int, col: int, total: Rect) -> int {
        along(
            total.left as int,
            total.right as int,
            shares_before(self.columns[row], col + 1),
        )
    }
}

/// The shares after the divider behind share `idx` moves by `moved`: the two
/// neighbours change, unless one of them would become too small.
pub open spec fn divided(shares: Seq<i64>, idx: int, moved: int) -> Seq<i64> {
    if shares[idx] + moved >= MIN_SHARE && shares[idx + 1] - moved >= MIN_SHARE {
        shares.update(idx, (shares[idx] + moved) as i64).update(
            idx + 1,
            (shares[idx + 1] - moved) as i64,
        )
    } else {
        shares
    }
}

/// The share of an axis of length `extent` that a drag of `delta` covers,
/// rounded towards zero; nothing on an axis without a length.
pub open spec fn share_of_drag(delta: int, extent: int) -> int {
    if extent == 0 {
        0
    } else {
        let n = if extent > 0 { delta * WHOLE } else { -delta * WHOLE };
        let d = if extent > 0 { extent } else { -extent };
        if n >= 0 { n / d } else { -((-n) / d) }
    }
}

proof fn lemma_shares_bounds(shares: Seq<i64>, i: int, j: int)
    requires
        forall|k: int| 0 <= k < shares.len() ==> 0 <= #[trigger] shares[k],
        0 <= i <= j <= shares.len(),
    ensures
        0 <= shares_before(shares, i) <= shares_before(shares, j),
    decreases j,
{
    if i < j {
        lemma_shares_bounds(shares, i, j - 1);
    } else if j > 0 {
        lemma_shares_bounds(shares, j - 1, j - 1);
    }
}

/// A point along the way lies between the ends, and a later part lies no
/// earlier.
proof fn lemma_along(a: int, b: int, p: int, q: int)
    requires
        0 <= p <= q <= WHOLE,
    ensures
        along(a, b, 0) == a,
        along(a, b, WHOLE as int) == b,
        a <= b ==> a <= along(a, b, p) <= along(a, b, q) <= b,
        a > b ==> b <= along(a, b, q) <= along(a, b, p) <= a,
{
    let d = if b >= a { b - a } else { a - b };
    let w = WHOLE as int;
    assert(d * 0 == 0);
    vstd::arithmetic::div_mod::lemma_div_multiples_vanish(d, w);
    vstd::arithmetic::mul::lemma_mul_is_commutative(d, w);
    vstd::arithmetic::mul::lemma_mul_inequality(p, q, d);
    vstd::arithmetic::mul::lemma_mul_inequality(q, w, d);
    vstd::arithmetic::mul::lemma_mul_inequality(0, p, d);
    vstd::arithmetic::mul::lemma_mul_is_commutative(d, p);
    vstd::arithmetic::mul::lemma_mul_is_commutative(d, q);
    vstd::arithmetic::div_mod::lemma_div_is_ordered(d * p, d * q, w);
    vstd::arithmetic::div_mod::lemma_div_is_ordered(d * q, d * w, w);
    vstd::arithmetic::div_mod::lemma_div_is_ordered(0, d * p, w);
}

/// The point `part` of [`WHOLE`] along the way from `a` to `b`.
fn cut(a: i64, b: i64, part: i64) -> (r: i64)
    requires
        0 <= part <= WHOLE,
    ensures
        r == along(a as int, b as int, part as int),
{
    proof {
        lemma_along(a as int, b as int, part as int, part as int);
    }
    let wide_a: i128 = a as i128;
    let wide_b: i128 = b as i128;
    let length: u128 = if wide_b >= wide_a {
        (wide_b - wide_a) as u128
    } else {
        (wide_a - wide_b) as u128
    };
    assert(length * part <= 0x1_0000_0000_0000_0000u128 * 1_200_000) by (nonlinear_arith)
        requires
            0 <= length <= 0x1_0000_0000_0000_0000u128,
            0 <= part <= 1_200_000,
    {}
    assert(0 <= length * part) by (nonlinear_arith)
        requires
            0 <= length,
            0 <= part,
    {}
    let step: u128 = length * (part as u128) / (WHOLE as u128);
    if wide_b >= wide_a {
        (wide_a + (step as i128)) as i64
    } else {
        (wide_a - (step as i128)) as i64
    }
}

/// The sum of the first `n` shares.
fn sum_before(shares: &Vec<i64>, n: usize) -> (r: i64)
    requires
        n <= shares@.len(),
        splits_whole(shares@),
    ensures
        r == shares_before(shares@, n as int),
        0 <= r <= WHOLE,
{
    let mut total: i64 = 0;
    let mut i: usize = 0;
    while i < n
        invariant
            i <= n <= shares@.len(),
            splits_whole(shares@),
            total == shares_before(shares@, i as int),
            0 <= total <= WHOLE,
        decreases n - i,
    {
        proof {
            lemma_shares_bounds(shares@, i + 1, shares@.len() as int);
        }
        total = total + shares[i];
        i = i + 1;
    }
    total
}

/// Defines how panes are arranged in a grid.
pub struct PaneLayout {
    pane_count: usize,
    grid: Vec<usize>,
    row_ratios: Vec<i64>,
    col_ratios: Vec<Vec<i64>>,
}

impl View for PaneLayout {
    type V = Arrangement;

    closed spec fn view(&self) -> Arrangement {
        Arrangement {
            count: self.pane_count as int,
            rows: self.row_ratios@,
            columns: self.col_ratios@.map_values(|c: Vec<i64>| c@),
        }
    }
}

impl Default for PaneLayout {
    fn default() -> (r: Self)
        ensures
            r@ == even_arrangement(1),
    {
        Self::for_count(1)
    }
}

/// Equal shares for each of `n`.
pub open spec fn even_shares(n: nat) -> Seq<i64> {
    Seq::new(n, |i: int| (WHOLE as int / n as int) as i64)
}

/// The arrangement of `count` panes with every row and column of equal size.
pub open spec fn even_arrangement(count: int) -> Arrangement {
    let grid = columns_of(count);
    Arrangement {
        count,
        rows: even_shares(grid.len()),
        columns: grid.map_values(|cols: usize| even_shares(cols as nat)),
    }
}

/// Equal shares split the whole axis for every row length that occurs.
proof fn lemma_even_shares(n: nat)
    requires
        1 <= n <= 3,
    ensures
        splits_whole(even_shares(n)),
{
    let s = even_shares(n);
    reveal_with_fuel(shares_before, 5);
    assert(WHOLE as int / 1 == 1_200_000);
    assert(WHOLE as int / 2 == 600_000);
    assert(WHOLE as int / 3 == 400_000);
}

/// Equal shares for each of `n`.
fn even(n: usize) -> (r: Vec<i64>)
    requires
        1 <= n <= 3,
    ensures
        r@ == even_shares(n as nat),
{
    let share: i64 = WHOLE / (n as i64);
    let mut shares: Vec<i64> = Vec::new();
    let mut i: usize = 0;
    while i < n
        invariant
            1 <= n <= 3,
            i <= n,
            share == WHOLE as int / n as int,
            shares@.len() == i,
            forall|k: int| 0 <= k < i ==> #[trigger] shares@[k] == share,
        decreases n - i,
    {
        shares.push(share);
        i = i + 1;
    }
    assert(shares@ =~= even_shares(n as nat));
    shares
}

impl PaneLayout {
    #[verifier::type_invariant]
    spec fn inv(self) -> bool {
        &&& self@.valid()
        &&& self.grid@ == columns_of(self.pane_count as int)
    }

    /// A layout for `count` panes, held to `1..=`[`MAX_PANES_DESKTOP`], with
    /// equal shares. The grid always has exactly as many cells as there are
    /// panes.
    pub fn for_count(count: usize) -> (r: Self)
        ensures
            r@ == even_arrangement(crate::measure::clamped(count as int, 1, 6)),
            r@.valid(),
    {
        let pane_count: usize = if count < 1 {
            1
        } else if count > MAX_PANES_DESKTOP {
            MAX_PANES_DESKTOP
        } else {
            count
        };
        let grid: Vec<usize> = match pane_count {
            1 => vec![1],
            2 => vec![2],
            3 => vec![2, 1],
            4 => vec![2, 2],
            5 => vec![3, 2],
            _ => vec![3, 3],
        };
        assert(grid@ =~= columns_of(pane_count as int));
        let row_ratios: Vec<i64> = even(grid.len());
        let mut col_ratios: Vec<Vec<i64>> = Vec::new();
        let mut row: usize = 0;
        while row < grid.len()
            invariant
                grid@ == columns_of(pane_count as int),
                1 <= pane_count <= 6,
                row <= grid@.len(),
                col_ratios@.len() == row,
                forall|k: int|
                    0 <= k < row ==> #[trigger] col_ratios@[k]@ == even_shares(grid@[k] as nat),
            decreases grid@.len() - row,
        {
            col_ratios.push(even(grid[row]));
            row = row + 1;
        }
        let ghost made = Arrangement {
            count: pane_count as int,
            rows: row_ratios@,
            columns: col_ratios@.map_values(|c: Vec<i64>| c@),
        };
        proof {
            assert(made.columns =~= even_arrangement(pane_count as int).columns);
            lemma_even_shares(1);
            lemma_even_shares(2);
            lemma_even_shares(3);
            assert forall|r: int| 0 <= r < grid@.len() implies splits_whole(
                #[trigger] made.columns[r],
            ) && made.columns[r].len() == grid@[r] by {
                assert(made.columns[r] == even_shares(grid@[r] as nat));
            }
            assert(made.valid());
        }
        PaneLayout { pane_count, grid, row_ratios, col_ratios }
    }

    /// How many panes the layout has.
    pub fn pane_count(&self) -> (r: usize)
        ensures
            r == self@.count,
            self@.valid(),
    {
        proof {
            use_type_invariant(&*self);
        }
        self.pane_count
    }

    /// The number of columns in each row.
    pub fn grid(&self) -> (r: &Vec<usize>)
        ensures
            r@ == columns_of(self@.count),
            cells_before(r@, r@.len() as int) == self@.count,
    {
        proof {
            use_type_invariant(&*self);
            reveal_with_fuel(cells_before, 3);
        }
        &self.grid
    }

    /// The rectangle of the pane at the given index within `total`.
    pub fn pane_rect(&self, pane_idx: usize, total: Rect) -> (r: Rect)
        ensures
            r == self@.rect(pane_idx as int, total),
    {
        proof {
            use_type_invariant(&*self);
        }
        if pane_idx >= self.pane_count {
            return total;
        }
        let first: usize = self.grid[0];
        let (row, col): (usize, usize) = if pane_idx < first {
            (0, pane_idx)
        } else {
            (1, pane_idx - first)
        };
        let cols: &Vec<i64> = &self.col_ratios[row];
        proof {
            assert(self@.columns[row as int] == cols@);
            assert(col < columns_of(self.pane_count as int)[row as int]);
        }
        let x0: i64 = sum_before(cols, col);
        let x1: i64 = sum_before(cols, col + 1);
        let y0: i64 = sum_before(&self.row_ratios, row);
        let y1: i64 = sum_before(&self.row_ratios, row + 1);
        Rect {
            left: cut(total.left, total.right, x0),
            top: cut(total.top, total.bottom, y0),
            right: cut(total.left, total.right, x1),
            bottom: cut(total.top, total.bottom, y1),
        }
    }
}

/// Changing two neighbouring shares by opposite amounts keeps every sum that
/// holds both or neither.
proof fn lemma_divided_sum(shares: Seq<i64>, idx: int, a: i64, b: i64, n: int)
    requires
        0 <= idx,
        idx + 1 < shares.len(),
        a + b == shares[idx] + shares[idx + 1],
        0 <= n <= shares.len(),
    ensures
        shares_before(shares.update(idx, a).update(idx + 1, b), n) == shares_before(shares, n) + (
        if n == idx + 1 {
            a - shares[idx]
        } else {
            0
        }),
    decreases n,
{
    if n > 0 {
        lemma_divided_sum(shares, idx, a, b, n - 1);
    }
}

/// Dragging a divider keeps the shares a split of the whole axis.
pub proof fn law_divider_keeps_split(shares: Seq<i64>, idx: int, moved: int)
    requires
        splits_whole(shares),
        0 <= idx,
        idx + 1 < shares.len(),
    ensures
        splits_whole(divided(shares, idx, moved)),
        divided(shares, idx, moved).len() == shares.len(),
{
    if shares[idx] + moved >= MIN_SHARE && shares[idx + 1] - moved >= MIN_SHARE {
        let n = shares.len() as int;
        lemma_shares_bounds(shares, 0, idx);
        lemma_shares_bounds(shares, idx + 2, n);
        assert(shares_before(shares, idx + 2) == shares_before(shares, idx) + shares[idx]
            + shares[idx + 1]) by {
            reveal_with_fuel(shares_before, 3);
        }
        let a = (shares[idx] + moved) as i64;
        let b = (shares[idx + 1] - moved) as i64;
        assert(a + b == shares[idx] + shares[idx + 1]);
        lemma_divided_sum(shares, idx, a, b, n);
        let after = divided(shares, idx, moved);
        assert forall|i: int| 0 <= i < after.len() implies MIN_SHARE <= #[trigger] after[i]
            <= WHOLE by {}
    }
}

/// The share of an axis of length `extent` that a drag of `delta` covers, or
/// `None` where the axis has no length or the share is past any a divider can
/// move.
fn drag_share(delta: i64, extent: i64) -> (r: Option<i64>)
    ensures
        match r {
            Some(share) => {
                &&& extent != 0
                &&& -WHOLE <= share <= WHOLE
                &&& share == share_of_drag(delta as int, extent as int)
            },
            None => extent == 0 || share_of_drag(delta as int, extent as int) > WHOLE
                || share_of_drag(delta as int, extent as int) < -WHOLE,
        },
{
    if extent == 0 {
        return None;
    }
    let flip: bool = extent < 0;
    let d: u128 = if flip {
        (-(extent as i128)) as u128
    } else {
        extent as u128
    };
    let towards: i128 = if flip {
        -(delta as i128)
    } else {
        delta as i128
    };
    let n: i128 = towards * 1_200_000;
    let size: u128 = if n >= 0 {
        n as u128
    } else {
        (-n) as u128
    };
    let quotient: u128 = size / d;
    if quotient > WHOLE as u128 {
        return None;
    }
    if n >= 0 {
        Some(quotient as i64)
    } else {
        Some(-(quotient as i64))
    }
}

/// A drag without a length, or past the whole axis, moves no divider.
proof fn lemma_drag_too_far(shares: Seq<i64>, idx: int, delta: int, extent: int)
    requires
        splits_whole(shares),
        0 <= idx,
        idx + 1 < shares.len(),
        extent == 0 || share_of_drag(delta, extent) > WHOLE || share_of_drag(delta, extent)
            < -WHOLE,
    ensures
        divided(shares, idx, share_of_drag(delta, extent)) == shares,
{
    assert(divided(shares, idx, share_of_drag(delta, extent)) =~= shares);
}

/// Move the divider behind share `idx` by `moved`, unless a neighbour would
/// become too small.
fn move_divider(shares: &mut Vec<i64>, idx: usize, moved: i64)
    requires
        splits_whole(old(shares)@),
        idx + 1 < old(shares)@.len(),
        -WHOLE <= moved <= WHOLE,
    ensures
        final(shares)@ == divided(old(shares)@, idx as int, moved as int),
{
    assert(idx + 1 < shares.len());
    let new_a: i64 = shares[idx] + moved;
    let new_b: i64 = shares[idx + 1] - moved;
    if new_a >= MIN_SHARE && new_b >= MIN_SHARE {
        shares.set(idx, new_a);
        shares.set(idx + 1, new_b);
    }
}

/// The rows with one of them replaced.
fn with_row(rows: &Vec<Vec<i64>>, row: usize, replacement: Vec<i64>) -> (r: Vec<Vec<i64>>)
    requires
        row < rows@.len(),
    ensures
        r@.len() == rows@.len(),
        forall|k: int|
            0 <= k < rows@.len() ==> #[trigger] r@[k]@ == if k == row {
                replacement@
            } else {
                rows@[k]@
            },
{
    let mut r: Vec<Vec<i64>> = Vec::new();
    let mut i: usize = 0;
    while i < rows.len()
        invariant
            i <= rows@.len(),
            r@.len() == i,
            forall|k: int|
                0 <= k < i ==> #[trigger] r@[k]@ == if k == row {
                    replacement@
                } else {
                    rows@[k]@
                },
        decreases rows@.len() - i,
    {
        if i == row {
            r.push(replacement.clone());
        } else {
            r.push(rows[i].clone());
        }
        i = i + 1;
    }
    r
}

impl PaneLayout {
    /// The strip to drag the divider below row `row` by.
    pub fn row_divider(&self, row: usize, total: Rect) -> (r: Option<Rect>)
        requires
            i64::MIN + DIVIDER_HALF_WIDTH <= total.top <= i64::MAX - DIVIDER_HALF_WIDTH,
            i64::MIN + DIVIDER_HALF_WIDTH <= total.bottom <= i64::MAX - DIVIDER_HALF_WIDTH,
        ensures
            r is Some <==> row + 1 < self@.rows.len(),
            r matches Some(strip) ==> {
                &&& strip.top == self@.row_edge(row as int, total) - DIVIDER_HALF_WIDTH
                &&& strip.bottom == self@.row_edge(row as int, total) + DIVIDER_HALF_WIDTH
            },
            r matches Some(strip) ==> {
                let y = along(
                    total.top as int,
                    total.bottom as int,
                    shares_before(self@.rows, row + 1),
                );
                &&& strip.left == total.left
                &&& strip.right == total.right
                &&& strip.top == y - DIVIDER_HALF_WIDTH
                &&& strip.bottom == y + DIVIDER_HALF_WIDTH
            },
    {
        proof {
            use_type_invariant(&*self);
        }
        if self.row_ratios.len() < 2 || row >= self.row_ratios.len() - 1 {
            return None;
        }
        let part: i64 = sum_before(&self.row_ratios, row + 1);
        proof {
            lemma_along(total.top as int, total.bottom as int, part as int, part as int);
        }
        let y: i64 = cut(total.top, total.bottom, part);
        Some(
            Rect {
                left: total.left,
                top: y - DIVIDER_HALF_WIDTH,
                right: total.right,
                bottom: y + DIVIDER_HALF_WIDTH,
            },
        )
    }

    /// The strip to drag the divider behind column `col` of row `row` by.
    pub fn column_divider(&self, row: usize, col: usize, total: Rect) -> (r: Option<Rect>)
        requires
            i64::MIN + DIVIDER_HALF_WIDTH <= total.left <= i64::MAX - DIVIDER_HALF_WIDTH,
            i64::MIN + DIVIDER_HALF_WIDTH <= total.right <= i64::MAX - DIVIDER_HALF_WIDTH,
        ensures
            r is Some <==> row < self@.rows.len() && col + 1 < self@.columns[row as int].len(),
            r matches Some(strip) ==> {
                &&& strip.left == self@.column_edge(row as int, col as int, total)
                    - DIVIDER_HALF_WIDTH
                &&& strip.right == self@.column_edge(row as int, col as int, total)
                    + DIVIDER_HALF_WIDTH
            },
            r matches Some(strip) ==> {
                let x = along(
                    total.left as int,
                    total.right as int,
                    shares_before(self@.columns[row as int], col + 1),
                );
                &&& strip.left == x - DIVIDER_HALF_WIDTH
                &&& strip.right == x + DIVIDER_HALF_WIDTH
                &&& strip.top == along(
                    total.top as int,
                    total.bottom as int,
                    shares_before(self@.rows, row as int),
                )
                &&& strip.bottom == along(
                    total.top as int,
                    total.bottom as int,
                    shares_before(self@.rows, row + 1),
                )
            },
    {
        proof {
            use_type_invariant(&*self);
        }
        if row >= self.row_ratios.len() {
            return None;
        }
        let cols: &Vec<i64> = &self.col_ratios[row];
        proof {
            assert(self@.columns[row as int] == cols@);
        }
        if cols.len() < 2 || col >= cols.len() - 1 {
            return None;
        }
        let part: i64 = sum_before(cols, col + 1);
        proof {
            lemma_along(total.left as int, total.right as int, part as int, part as int);
        }
        let x: i64 = cut(total.left, total.right, part);
        let y0: i64 = sum_before(&self.row_ratios, row);
        let y1: i64 = sum_before(&self.row_ratios, row + 1);
        Some(
            Rect {
                left: x - DIVIDER_HALF_WIDTH,
                top: cut(total.top, total.bottom, y0),
                right: x + DIVIDER_HALF_WIDTH,
                bottom: cut(total.top, total.bottom, y1),
            },
        )
    }

    /// Drag the divider below row `row` by `delta` on an axis of length
    /// `extent`.
    pub fn drag_row_divider(&mut self, row: usize, delta: i64, extent: i64)
        requires
            row + 1 < old(self)@.rows.len(),
        ensures
            final(self)@ == old(self)@.row_dragged(row as int, delta as int, extent as int),
            final(self)@ == (Arrangement {
                rows: divided(
                    old(self)@.rows,
                    row as int,
                    share_of_drag(delta as int, extent as int),
                ),
                ..old(self)@
            }),
            final(self)@.valid(),
    {
        proof {
            use_type_invariant(&*self);
            law_divider_keeps_split(
                self.row_ratios@,
                row as int,
                share_of_drag(delta as int, extent as int),
            );
        }
        match drag_share(delta, extent) {
            Some(moved) => {
                let mut rows: Vec<i64> = self.row_ratios.clone();
                move_divider(&mut rows, row, moved);
                self.row_ratios = rows;
            },
            None => {
                proof {
                    lemma_drag_too_far(self.row_ratios@, row as int, delta as int, extent as int);
                }
            },
        }
    }

    /// Drag the divider behind column `col` of row `row` by `delta` on an axis
    /// of length `extent`.
    pub fn drag_column_divider(&mut self, row: usize, col: usize, delta: i64, extent: i64)
        requires
            row < old(self)@.rows.len(),
            col + 1 < old(self)@.columns[row as int].len(),
        ensures
            final(self)@ == old(self)@.column_dragged(
                row as int,
                col as int,
                delta as int,
                extent as int,
            ),
            final(self)@ == (Arrangement {
                columns: old(self)@.columns.update(
                    row as int,
                    divided(
                        old(self)@.columns[row as int],
                        col as int,
                        share_of_drag(delta as int, extent as int),
                    ),
                ),
                ..old(self)@
            }),
            final(self)@.valid(),
    {
        proof {
            use_type_invariant(&*self);
            law_divider_keeps_split(
                self@.columns[row as int],
                col as int,
                share_of_drag(delta as int, extent as int),
            );
        }
        let ghost before = self@;
        match drag_share(delta, extent) {
            Some(moved) => {
                assert(self@.columns[row as int] == self.col_ratios@[row as int]@);
                let mut cols: Vec<i64> = self.col_ratios[row].clone();
                move_divider(&mut cols, col, moved);
                let replaced: Vec<Vec<i64>> = with_row(&self.col_ratios, row, cols);
                proof {
                    let after = Arrangement {
                        columns: replaced@.map_values(|c: Vec<i64>| c@),
                        ..before
                    };
                    assert(after.columns =~= before.columns.update(row as int, cols@));
                    assert(after.valid());
                }
                self.col_ratios = replaced;
            },
            None => {
                proof {
                    lemma_drag_too_far(
                        before.columns[row as int],
                        col as int,
                        delta as int,
                        extent as int,
                    );
                    assert(before.columns.update(row as int, before.columns[row as int])
                        =~= before.columns);
                }
            },
        }
    }
}

impl Arrangement {
    proof fn lemma_cell(self, idx: int)
        requires
            self.valid(),
            0 <= idx < self.count,
        ensures
            ({
                let (row, col) = self.cell(idx);
                0 <= row < self.rows.len() && 0 <= col < self.columns[row].len()
            }),
    {
        let (row, _) = self.cell(idx);
        assert(splits_whole(self.columns[row]));
    }

    /// Every pane stays inside the panel.
    pub proof fn law_panes_stay_inside(self, idx: int, total: Rect)
        requires
            self.valid(),
            0 <= idx < self.count,
            total.left <= total.right,
            total.top <= total.bottom,
        ensures
            ({
                let r = self.rect(idx, total);
                &&& total.left <= r.left <= r.right <= total.right
                &&& total.top <= r.top <= r.bottom <= total.bottom
            }),
    {
        self.lemma_cell(idx);
        let (row, col) = self.cell(idx);
        let cols = self.columns[row];
        lemma_shares_bounds(cols, col, col + 1);
        lemma_shares_bounds(cols, col + 1, cols.len() as int);
        lemma_shares_bounds(self.rows, row, row + 1);
        lemma_shares_bounds(self.rows, row + 1, self.rows.len() as int);
        lemma_along(
            total.left as int,
            total.right as int,
            shares_before(cols, col),
            shares_before(cols, col + 1),
        );
        lemma_along(
            total.top as int,
            total.bottom as int,
            shares_before(self.rows, row),
            shares_before(self.rows, row + 1),
        );
    }

    /// No point of the panel belongs to two panes, so a press names one pane.
    pub proof fn law_panes_do_not_overlap(self, i: int, j: int, total: Rect, x: int, y: int)
        requires
            self.valid(),
            0 <= i < self.count,
            0 <= j < self.count,
            total.left <= total.right,
            total.top <= total.bottom,
            self.rect(i, total).holds(x, y),
            self.rect(j, total).holds(x, y),
        ensures
            i == j,
    {
        if i != j {
            self.law_panes_stay_inside(i, total);
            self.law_panes_stay_inside(j, total);
            self.lemma_cell(i);
            self.lemma_cell(j);
            let (ri, ci) = self.cell(i);
            let (rj, cj) = self.cell(j);
            if ri == rj {
                let cols = self.columns[ri];
                let (near, far) = if ci < cj { (ci, cj) } else { (cj, ci) };
                lemma_shares_bounds(cols, near + 1, far);
                lemma_shares_bounds(cols, far, cols.len() as int);
                lemma_along(
                    total.left as int,
                    total.right as int,
                    shares_before(cols, near + 1),
                    shares_before(cols, far),
                );
            } else {
                let (near, far) = if ri < rj { (ri, rj) } else { (rj, ri) };
                lemma_shares_bounds(self.rows, near + 1, far);
                lemma_shares_bounds(self.rows, far, self.rows.len() as int);
                lemma_along(
                    total.top as int,
                    total.bottom as int,
                    shares_before(self.rows, near + 1),
                    shares_before(self.rows, far),
                );
            }
        }
    }

    /// Every point of the panel belongs to a pane.
    pub proof fn law_panes_fill_the_panel(self, total: Rect, x: int, y: int) -> (idx: int)
        requires
            self.valid(),
            total.holds(x, y),
        ensures
            0 <= idx < self.count,
            self.rect(idx, total).holds(x, y),
    {
        let row = lemma_split_covers(self.rows, total.top as int, total.bottom as int, y);
        let grid = columns_of(self.count);
        assert(splits_whole(self.columns[row]));
        let col = lemma_split_covers(
            self.columns[row],
            total.left as int,
            total.right as int,
            x,
        );
        let idx = if row == 0 { col } else { grid[0] + col };
        assert(self.cell(idx) == (row, col));
        self.law_panes_stay_inside(idx, total);
        lemma_shares_bounds(self.rows, row + 1, self.rows.len() as int);
        lemma_shares_bounds(self.rows, row, row + 1);
        lemma_shares_bounds(self.columns[row], col + 1, self.columns[row].len() as int);
        lemma_shares_bounds(self.columns[row], col, col + 1);
        lemma_along(
            total.top as int,
            total.bottom as int,
            shares_before(self.rows, row),
            shares_before(self.rows, row + 1),
        );
        lemma_along(
            total.left as int,
            total.right as int,
            shares_before(self.columns[row], col),
            shares_before(self.columns[row], col + 1),
        );
        idx
    }
}

/// Every place on an axis lies in one of the pieces it is split into.
proof fn lemma_split_covers(shares: Seq<i64>, a: int, b: int, x: int) -> (k: int)
    requires
        splits_whole(shares),
        a <= x < b,
    ensures
        0 <= k < shares.len(),
        along(a, b, shares_before(shares, k)) <= x < along(a, b, shares_before(shares, k + 1)),
{
    lemma_along(a, b, 0, WHOLE as int);
    lemma_split_covers_from(shares, a, b, x, shares.len() as int)
}

proof fn lemma_split_covers_from(shares: Seq<i64>, a: int, b: int, x: int, n: int) -> (k: int)
    requires
        0 < n <= shares.len(),
        along(a, b, 0) <= x < along(a, b, shares_before(shares, n)),
    ensures
        0 <= k < n,
        along(a, b, shares_before(shares, k)) <= x < along(a, b, shares_before(shares, k + 1)),
    decreases n,
{
    if along(a, b, shares_before(shares, n - 1)) <= x {
        n - 1
    } else {
        assert(n > 1);
        lemma_split_covers_from(shares, a, b, x, n - 1)
    }
}

/// Dragging a divider hands what one neighbour gains to it from the other, and
/// touches no other share; where either would fall below fifteen hundredths,
/// nothing moves.
pub proof fn law_divider_trades_between_neighbours(shares: Seq<i64>, idx: int, moved: int, k: int)
    requires
        splits_whole(shares),
        0 <= idx,
        idx + 1 < shares.len(),
        0 <= k < shares.len(),
    ensures
        ({
            let after = divided(shares, idx, moved);
            let room = shares[idx] + moved >= 180_000 && shares[idx + 1] - moved >= 180_000;
            &&& room ==> after[idx] == shares[idx] + moved && after[idx + 1] == shares[idx + 1]
                - moved
            &&& !room ==> after == shares
            &&& k != idx && k != idx + 1 ==> after[k] == shares[k]
        }),
{
}

/// A divider that could be dragged one way can be dragged back, and then every
/// share is as it was.
pub proof fn law_divider_can_be_dragged_back(shares: Seq<i64>, idx: int, moved: int)
    requires
        splits_whole(shares),
        0 <= idx,
        idx + 1 < shares.len(),
        divided(shares, idx, moved) != shares,
    ensures
        divided(divided(shares, idx, moved), idx, -moved) == shares,
{
    assert(divided(divided(shares, idx, moved), idx, -moved) =~= shares);
}

/// A drag covers the share of the axis that its length is of the axis's, rounded
/// towards zero. Turning the drag or the axis round turns the share round.
pub proof fn law_drag_is_in_proportion(delta: int, extent: int)
    requires
        delta >= 0,
        extent > 0,
    ensures
        share_of_drag(delta, extent) * extent <= delta * 1_200_000,
        delta * 1_200_000 < (share_of_drag(delta, extent) + 1) * extent,
        share_of_drag(-delta, extent) == -share_of_drag(delta, extent),
        share_of_drag(delta, -extent) == -share_of_drag(delta, extent),
        share_of_drag(-delta, -extent) == share_of_drag(delta, extent),
        share_of_drag(delta, 0) == 0,
{
    let n = delta * WHOLE;
    let q = n / extent;
    vstd::arithmetic::div_mod::lemma_fundamental_div_mod(n, extent);
    vstd::arithmetic::div_mod::lemma_mod_bound(n, extent);
    assert(q * extent <= n < (q + 1) * extent) by (nonlinear_arith)
        requires
            n == extent * q + n % extent,
            0 <= n % extent < extent,
    ;
    assert(-delta * WHOLE == -n);
    if delta == 0 {
        vstd::arithmetic::div_mod::lemma_div_basics(extent);
    }
}

/// A place along an axis divides its length in the proportion asked for, to within
/// one unit.
pub proof fn law_place_is_in_proportion(a: int, b: int, part: int)
    requires
        a <= b,
        0 <= part <= 1_200_000,
    ensures
        (along(a, b, part) - a) * 1_200_000 <= (b - a) * part,
        (b - a) * part < (along(a, b, part) - a + 1) * 1_200_000,
        along(b, a, part) == b - (along(a, b, part) - a),
{
    let n = (b - a) * part;
    vstd::arithmetic::div_mod::lemma_fundamental_div_mod(n, WHOLE as int);
    vstd::arithmetic::div_mod::lemma_mod_bound(n, WHOLE as int);
    if a == b {
        assert((b - a) * part == 0) by (nonlinear_arith)
            requires
                a == b,
        ;
    }
}

/// A layout has a cell for each of its panes, in one row up to two panes and in two
/// rows above; the upper row is as long as the lower one or one longer.
pub proof fn law_grid_has_a_cell_for_each_pane(count: int)
    requires
        1 <= count <= 6,
    ensures
        count <= 2 ==> columns_of(count).len() == 1 && columns_of(count)[0] == count,
        count > 2 ==> {
            let grid = columns_of(count);
            &&& grid.len() == 2
            &&& grid[0] + grid[1] == count
            &&& grid[1] <= grid[0] <= grid[1] + 1
        },
{
}

/// A layout that nobody has dragged gives every row the same height, and every
/// column of a row the same width.
pub proof fn law_new_layout_is_even(count: int, row: int, i: int, j: int)
    requires
        1 <= count <= 6,
        0 <= row < columns_of(count).len(),
    ensures
        even_arrangement(count).valid(),
        even_arrangement(count).count == count,
        0 <= i < even_arrangement(count).rows.len() && 0 <= j < even_arrangement(count).rows.len()
            ==> even_arrangement(count).rows[i] == even_arrangement(count).rows[j],
        0 <= i < columns_of(count)[row] && 0 <= j < columns_of(count)[row]
            ==> even_arrangement(count).columns[row][i] == even_arrangement(count).columns[row][j],
{
    lemma_even_shares(1);
    lemma_even_shares(2);
    lemma_even_shares(3);
    let grid = columns_of(count);
    let made = even_arrangement(count);
    assert forall|r: int| 0 <= r < grid.len() implies splits_whole(#[trigger] made.columns[r])
        && made.columns[r].len() == grid[r] by {
        assert(made.columns[r] == even_shares(grid[r] as nat));
    }
}

/// Panes stand in reading order: the first in the upper left corner, each next one
/// where the one before it ends or at the start of the next row, and the last in
/// the lower right corner.
pub proof fn law_panes_stand_in_reading_order(arrangement: Arrangement, idx: int, total: Rect)
    requires
        arrangement.valid(),
        0 <= idx < arrangement.count,
        total.left <= total.right,
        total.top <= total.bottom,
    ensures
        ({
            let here = arrangement.rect(idx, total);
            let next = arrangement.rect(idx + 1, total);
            &&& idx == 0 ==> here.left == total.left && here.top == total.top
            &&& idx + 1 < arrangement.count ==> {
                ||| next.left == here.right && next.top == here.top && next.bottom == here.bottom
                ||| next.left == total.left && next.top == here.bottom && here.right
                    == total.right
            }
            &&& idx + 1 == arrangement.count ==> here.right == total.right && here.bottom
                == total.bottom
        }),
{
    arrangement.lemma_cell(idx);
    let (row, col) = arrangement.cell(idx);
    let cols = arrangement.columns[row];
    lemma_along(total.left as int, total.right as int, 0, 0);
    lemma_along(total.top as int, total.bottom as int, 0, 0);
    assert(shares_before(cols, 0) == 0);
    assert(shares_before(arrangement.rows, 0) == 0);
    if idx + 1 < arrangement.count {
        arrangement.lemma_cell(idx + 1);
        let (below, _) = arrangement.cell(idx + 1);
        assert(shares_before(arrangement.columns[below], 0) == 0);
    }
    assert(splits_whole(cols));
}

/// A pane is as wide as its column's share of the panel and as high as its row's,
/// to within one unit.
pub proof fn law_pane_has_its_share(arrangement: Arrangement, idx: int, total: Rect)
    requires
        arrangement.valid(),
        0 <= idx < arrangement.count,
        total.left <= total.right,
        total.top <= total.bottom,
    ensures
        ({
            let here = arrangement.rect(idx, total);
            let (row, col) = arrangement.cell(idx);
            let width = (total.right - total.left) * arrangement.columns[row][col];
            let height = (total.bottom - total.top) * arrangement.rows[row];
            &&& -1_200_000 < (here.right - here.left) * 1_200_000 - width < 1_200_000
            &&& -1_200_000 < (here.bottom - here.top) * 1_200_000 - height < 1_200_000
        }),
{
    arrangement.lemma_cell(idx);
    let (row, col) = arrangement.cell(idx);
    let cols = arrangement.columns[row];
    assert(splits_whole(cols));
    arrangement.law_panes_stay_inside(idx, total);
    lemma_shares_bounds(cols, col, col + 1);
    lemma_shares_bounds(cols, col + 1, cols.len() as int);
    lemma_shares_bounds(arrangement.rows, row, row + 1);
    lemma_shares_bounds(arrangement.rows, row + 1, arrangement.rows.len() as int);
    lemma_piece(
        total.left as int,
        total.right as int,
        shares_before(cols, col),
        shares_before(cols, col + 1),
    );
    lemma_piece(
        total.top as int,
        total.bottom as int,
        shares_before(arrangement.rows, row),
        shares_before(arrangement.rows, row + 1),
    );
}

/// The piece between two places of an axis is in proportion.
proof fn lemma_piece(a: int, b: int, p: int, q: int)
    requires
        a <= b,
        0 <= p <= q <= WHOLE,
    ensures
        -WHOLE < (along(a, b, q) - along(a, b, p)) * WHOLE - (b - a) * (q - p) < WHOLE,
        a <= along(a, b, p) <= along(a, b, q) <= b,
{
    law_place_is_in_proportion(a, b, p);
    law_place_is_in_proportion(a, b, q);
    lemma_along(a, b, p, q);
    let d = b - a;
    assert(d * (q - p) == d * q - d * p) by (nonlinear_arith);
}

/// A divider is dragged by where two panes meet: the one between two columns lies on the
/// right edge of the pane before it and the left edge of the pane behind it, and the one
/// between the two rows on the lower edge of the upper panes and the upper edge of the
/// lower ones.
pub proof fn law_dividers_lie_between_panes(arrangement: Arrangement, idx: int, total: Rect)
    requires
        arrangement.valid(),
        0 <= idx,
        idx + 1 < arrangement.count,
        total.left <= total.right,
        total.top <= total.bottom,
    ensures
        ({
            let (row, col) = arrangement.cell(idx);
            let (next_row, _) = arrangement.cell(idx + 1);
            let here = arrangement.rect(idx, total);
            let next = arrangement.rect(idx + 1, total);
            &&& row == next_row ==> {
                &&& here.right == arrangement.column_edge(row, col, total)
                &&& next.left == arrangement.column_edge(row, col, total)
            }
            &&& row != next_row ==> {
                &&& here.bottom == arrangement.row_edge(row, total)
                &&& next.top == arrangement.row_edge(row, total)
            }
        }),
{
    arrangement.lemma_cell(idx);
    arrangement.lemma_cell(idx + 1);
    let (row, col) = arrangement.cell(idx);
    let cols = arrangement.columns[row];
    assert(splits_whole(cols));
    lemma_shares_bounds(cols, 0, col + 1);
    lemma_shares_bounds(cols, col + 1, cols.len() as int);
    lemma_shares_bounds(arrangement.rows, 0, row + 1);
    lemma_shares_bounds(arrangement.rows, row + 1, arrangement.rows.len() as int);
    lemma_along(
        total.left as int,
        total.right as int,
        shares_before(cols, col + 1),
        shares_before(cols, col + 1),
    );
    lemma_along(
        total.top as int,
        total.bottom as int,
        shares_before(arrangement.rows, row + 1),
        shares_before(arrangement.rows, row + 1),
    );
}

/// Dragging a divider towards the end of its axis gives the piece before it the share of
/// the drag and takes it from the piece behind; dragging it back takes it away. Where there
/// is no room nothing moves, and no other row or column does in any case.
pub proof fn law_dragged_divider_follows_the_pointer(
    arrangement: Arrangement,
    row: int,
    col: int,
    delta: int,
    extent: int,
    other: int,
)
    requires
        arrangement.valid(),
        0 <= row < arrangement.rows.len(),
        delta >= 0,
        extent > 0,
        0 <= other < arrangement.rows.len(),
        0 <= col,
        col + 1 < arrangement.columns[row].len(),
    ensures
        ({
            let there = arrangement.column_dragged(row, col, delta, extent);
            let back = arrangement.column_dragged(row, col, -delta, extent);
            let was = arrangement.columns[row];
            let moved = there.columns[row];
            let returned = back.columns[row];
            &&& there.count == arrangement.count
            &&& there.rows == arrangement.rows
            &&& other != row ==> there.columns[other] == arrangement.columns[other]
            &&& moved[col] + moved[col + 1] == was[col] + was[col + 1]
            &&& moved[col] >= was[col]
            &&& moved != was ==> {
                let share = moved[col] - was[col];
                share * extent <= delta * 1_200_000 && delta * 1_200_000 < (share + 1) * extent
            }
            &&& returned[col] <= was[col]
            &&& returned != was ==> {
                let share = was[col] - returned[col];
                share * extent <= delta * 1_200_000 && delta * 1_200_000 < (share + 1) * extent
            }
        }),
{
    law_drag_is_in_proportion(delta, extent);
    assert(splits_whole(arrangement.columns[row]));
    let s = share_of_drag(delta, extent);
    assert(s >= 0) by {
        if s < 0 {
            assert((s + 1) * extent <= 0) by (nonlinear_arith)
                requires
                    s + 1 <= 0,
                    extent > 0,
            ;
        }
    }
    law_divider_trades_between_neighbours(arrangement.columns[row], col, s, col);
    law_divider_trades_between_neighbours(arrangement.columns[row], col, -s, col);
}

/// A row divider moves as a column divider does: what the rows above it gain, the row below
/// it gives, and the columns stay.
pub proof fn law_dragged_row_follows_the_pointer(
    arrangement: Arrangement,
    row: int,
    delta: int,
    extent: int,
)
    requires
        arrangement.valid(),
        0 <= row,
        row + 1 < arrangement.rows.len(),
        delta >= 0,
        extent > 0,
    ensures
        ({
            let there = arrangement.row_dragged(row, delta, extent);
            let back = arrangement.row_dragged(row, -delta, extent);
            let was = arrangement.rows;
            &&& there.count == arrangement.count
            &&& there.columns == arrangement.columns
            &&& there.rows[row] + there.rows[row + 1] == was[row] + was[row + 1]
            &&& there.rows[row] >= was[row]
            &&& there.rows != was ==> {
                let share = there.rows[row] - was[row];
                share * extent <= delta * 1_200_000 && delta * 1_200_000 < (share + 1) * extent
            }
            &&& back.rows[row] <= was[row]
            &&& back.rows != was ==> {
                let share = was[row] - back.rows[row];
                share * extent <= delta * 1_200_000 && delta * 1_200_000 < (share + 1) * extent
            }
        }),
{
    law_drag_is_in_proportion(delta, extent);
    let s = share_of_drag(delta, extent);
    assert(s >= 0) by {
        if s < 0 {
            assert((s + 1) * extent <= 0) by (nonlinear_arith)
                requires
                    s + 1 <= 0,
                    extent > 0,
            ;
        }
    }
    law_divider_trades_between_neighbours(arrangement.rows, row, s, row);
    law_divider_trades_between_neighbours(arrangement.rows, row, -s, row);
}

} // verus!
