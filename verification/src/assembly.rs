use vstd::prelude::*;
use crate::constraints::base::{refs_view, Constraint, ParameterRef};
use crate::error::SolverError;
use crate::parameter_system::ParameterManager;

verus! {

/// A list of indices as mathematical integers.
pub open spec fn as_ints(v: Seq<usize>) -> Seq<int> {
    v.map_values(|c: usize| c as int)
}

/// Whether every one of the operands names a registered parameter.
pub open spec fn resolvable<S: Copy>(pm: &ParameterManager<S>, ops: Seq<(Seq<char>, int)>) -> bool {
    forall|k: int| 0 <= k < ops.len() ==> (#[trigger] pm.global_index(ops[k].0, ops[k].1)) is Some
}

/// The global index of each operand.
pub open spec fn resolved<S: Copy>(pm: &ParameterManager<S>, ops: Seq<(Seq<char>, int)>) -> Seq<int> {
    Seq::new(ops.len(), |k: int| pm.global_index(ops[k].0, ops[k].1)->Some_0)
}

/// Looks up the global index of each reference. Fails with
/// `UnknownReference` when one of them names no registered parameter.
pub fn resolve_columns<S: Copy>(pm: &ParameterManager<S>, refs: &Vec<ParameterRef>) -> (r: Result<
    Vec<usize>,
    SolverError,
>)
    requires
        pm.wf(),
    ensures
        r is Ok <==> resolvable(pm, refs_view(refs@)),
        r is Ok ==> as_ints(r->Ok_0@) == resolved(pm, refs_view(refs@)),
        r is Ok ==> forall|k: int| 0 <= k < r->Ok_0@.len() ==> #[trigger] r->Ok_0@[k] < pm.len(),
        r is Err ==> r == Err::<Vec<usize>, SolverError>(SolverError::UnknownReference),
{
    let ghost ops = refs_view(refs@);
    let mut cols: Vec<usize> = Vec::new();
    let mut k: usize = 0;
    while k < refs.len()
        invariant
            pm.wf(),
            k <= refs@.len(),
            ops == refs_view(refs@),
            cols@.len() == k,
            forall|i: int| 0 <= i < k ==> (#[trigger] pm.global_index(ops[i].0, ops[i].1)) == Some(
                cols@[i] as int,
            ),
            forall|i: int| 0 <= i < k ==> #[trigger] cols@[i] < pm.len(),
        decreases refs@.len() - k,
    {
        match pm.get_global_index(refs[k].entity.as_str(), refs[k].local) {
            Some(g) => {
                cols.push(g);
            },
            None => {
                assert(pm.global_index(ops[k as int].0, ops[k as int].1) is None);
                return Err(SolverError::UnknownReference);
            },
        }
        k += 1;
    }
    assert(as_ints(cols@) =~= resolved(pm, ops));
    Ok(cols)
}

/// The sum of the first `i` row counts.
pub open spec fn row_sum(rows: Seq<nat>, i: int) -> int
    decreases i,
{
    if i <= 0 {
        0
    } else {
        row_sum(rows, i - 1) + rows[i - 1]
    }
}

/// Row sums grow with the number of rows counted.
pub proof fn lemma_row_sum_monotone(rows: Seq<nat>, i: int, j: int)
    requires
        i <= j,
    ensures
        row_sum(rows, i) <= row_sum(rows, j),
        0 <= row_sum(rows, i),
    decreases j - i,
{
    lemma_row_sum_nonnegative(rows, i);
    if i < j {
        lemma_row_sum_monotone(rows, i, j - 1);
    }
}

/// A row sum is not negative.
pub proof fn lemma_row_sum_nonnegative(rows: Seq<nat>, i: int)
    ensures
        0 <= row_sum(rows, i),
    decreases i,
{
    if i > 0 {
        lemma_row_sum_nonnegative(rows, i - 1);
    }
}

/// Whether every operand of every constraint names a registered parameter.
pub open spec fn all_resolvable<S: Copy, C: Constraint>(pm: &ParameterManager<S>, cs: Seq<C>) -> bool {
    forall|i: int| 0 <= i < cs.len() ==> resolvable(pm, (#[trigger] cs[i]).operands())
}

/// The number of residual rows of each constraint.
pub open spec fn row_counts<C: Constraint>(cs: Seq<C>) -> Seq<nat> {
    cs.map_values(|c: C| c.residuals())
}

/// The global columns of each constraint's operands.
pub open spec fn column_lists<S: Copy, C: Constraint>(pm: &ParameterManager<S>, cs: Seq<C>) -> Seq<
    Seq<int>,
> {
    Seq::new(cs.len(), |i: int| resolved(pm, cs[i].operands()))
}

/// Where each constraint's rows and columns sit in the assembled system.
///
/// The residual vector has one row per residual of each constraint, the
/// constraints in insertion order: the rows of constraint `i` start at the
/// sum of the row counts before it. The Jacobian has the same rows and one
/// column per parameter.
pub struct SystemLayout {
    columns: Vec<Vec<usize>>,
    rows: Vec<usize>,
    offsets: Vec<usize>,
    num_rows: usize,
    num_cols: usize,
}

impl SystemLayout {
    /// The global columns of each constraint's operands.
    pub closed spec fn columns(&self) -> Seq<Seq<int>> {
        Seq::new(self.columns@.len(), |i: int| as_ints(self.columns@[i]@))
    }

    /// The number of residual rows of each constraint.
    pub closed spec fn rows(&self) -> Seq<nat> {
        self.rows@.map_values(|m: usize| m as nat)
    }

    /// The number of columns: the number of parameters.
    pub closed spec fn num_cols(&self) -> nat {
        self.num_cols as nat
    }

    /// Whether the stored offsets and totals are those of the row counts.
    pub closed spec fn consistent(&self) -> bool {
        &&& self.offsets@.len() == self.rows@.len()
        &&& self.columns@.len() == self.rows@.len()
        &&& forall|i: int| 0 <= i < self.offsets@.len() ==> #[trigger] self.offsets@[i] == row_sum(self.rows(), i)
        &&& self.num_rows == row_sum(self.rows(), self.rows().len() as int)
    }

    /// The number of constraints.
    pub open spec fn len(&self) -> nat {
        self.rows().len()
    }

    /// The total number of residual rows.
    pub open spec fn num_rows(&self) -> int {
        row_sum(self.rows(), self.rows().len() as int)
    }

    /// The first row of constraint `i`.
    pub open spec fn offset(&self, i: int) -> int {
        row_sum(self.rows(), i)
    }

    /// The layout's invariant.
    pub open spec fn wf(&self) -> bool {
        &&& self.consistent()
        &&& self.columns().len() == self.rows().len()
        &&& self.num_rows() <= usize::MAX
        &&& forall|i: int, k: int|
            0 <= i < self.columns().len() && 0 <= k < self.columns()[i].len() ==> 0 <= (
            #[trigger] self.columns()[i][k]) < self.num_cols()
    }

    /// Lays out the system of the given constraints over the registered
    /// parameters. Fails with `UnknownReference` when a constraint names a
    /// parameter that is not registered, and with `DimensionMismatch` when
    /// the rows cannot be counted in a `usize`.
    pub fn build<S: Copy, C: Constraint>(constraints: &[C], pm: &ParameterManager<S>) -> (r: Result<
        SystemLayout,
        SolverError,
    >)
        requires
            pm.wf(),
        ensures
            match r {
                Ok(layout) => {
                    &&& layout.wf()
                    &&& all_resolvable(pm, constraints@)
                    &&& layout.num_cols() == pm.len()
                    &&& layout.rows() == row_counts(constraints@)
                    &&& layout.columns() == column_lists(pm, constraints@)
                },
                Err(e) => {
                    &&& e == SolverError::UnknownReference <==> !all_resolvable(pm, constraints@)
                    &&& e == SolverError::DimensionMismatch <==> all_resolvable(pm, constraints@)
                        && row_sum(row_counts(constraints@), constraints@.len() as int) > usize::MAX
                    &&& e == SolverError::UnknownReference || e == SolverError::DimensionMismatch
                },
            },
    {
        let ghost cs = constraints@;
        let mut columns: Vec<Vec<usize>> = Vec::new();
        let mut i: usize = 0;
        while i < constraints.len()
            invariant
                pm.wf(),
                cs == constraints@,
                i <= cs.len(),
                columns@.len() == i,
                forall|j: int| 0 <= j < i ==> resolvable(pm, (#[trigger] cs[j]).operands()),
                forall|j: int|
                    0 <= j < i ==> as_ints((#[trigger] columns@[j])@) == resolved(pm, cs[j].operands()),
                forall|j: int, k: int|
                    0 <= j < i && 0 <= k < columns@[j]@.len() ==> (#[trigger] columns@[j]@[k]) < pm.len(),
            decreases cs.len() - i,
        {
            let refs = constraints[i].parameter_refs();
            match resolve_columns(pm, &refs) {
                Ok(cols) => {
                    columns.push(cols);
                },
                Err(_) => {
                    assert(!resolvable(pm, cs[i as int].operands()));
                    return Err(SolverError::UnknownReference);
                },
            }
            i += 1;
        }
        let ghost counts = row_counts(cs);
        let mut rows: Vec<usize> = Vec::new();
        let mut offsets: Vec<usize> = Vec::new();
        let mut total: usize = 0;
        let mut i: usize = 0;
        while i < constraints.len()
            invariant
                cs == constraints@,
                counts == row_counts(cs),
                all_resolvable(pm, cs),
                i <= cs.len(),
                rows@.len() == i,
                offsets@.len() == i,
                forall|j: int| 0 <= j < i ==> (#[trigger] rows@[j]) as nat == counts[j],
                forall|j: int| 0 <= j < i ==> #[trigger] offsets@[j] == row_sum(counts, j),
                total == row_sum(counts, i as int),
            decreases cs.len() - i,
        {
            let m = constraints[i].num_residuals();
            if m > usize::MAX - total {
                proof {
                    assert(counts[i as int] == m);
                    assert(row_sum(counts, i as int + 1) == total + m);
                    lemma_row_sum_monotone(counts, i as int + 1, cs.len() as int);
                }
                return Err(SolverError::DimensionMismatch);
            }
            rows.push(m);
            offsets.push(total);
            total = total + m;
            i += 1;
        }
        let layout = SystemLayout { columns, rows, offsets, num_rows: total, num_cols: pm.num_parameters() };
        proof {
            assert(layout.rows() =~= counts);
            assert(layout.columns() =~= column_lists(pm, cs));
            assert forall|j: int, k: int|
                0 <= j < layout.columns().len() && 0 <= k < layout.columns()[j].len() implies 0 <= (
            #[trigger] layout.columns()[j][k]) < layout.num_cols() by {
                assert(layout.columns@[j]@[k] < pm.len());
            }
        }
        Ok(layout)
    }

    /// The number of constraints.
    pub fn constraint_count(&self) -> (k: usize)
        requires
            self.wf(),
        ensures
            k == self.len(),
    {
        self.rows.len()
    }

    /// The total number of residual rows.
    pub fn row_count(&self) -> (m: usize)
        requires
            self.wf(),
        ensures
            m == self.num_rows(),
    {
        self.num_rows
    }

    /// The number of columns of the Jacobian.
    pub fn column_count(&self) -> (n: usize)
        ensures
            n == self.num_cols(),
    {
        self.num_cols
    }

    /// The first row of constraint `i`; `None` when there is no such constraint.
    pub fn row_offset(&self, i: usize) -> (r: Option<usize>)
        requires
            self.wf(),
        ensures
            r is Some <==> i < self.len(),
            r is Some ==> r->Some_0 == self.offset(i as int),
    {
        if i < self.offsets.len() {
            Some(self.offsets[i])
        } else {
            None
        }
    }

    /// The global columns of the operands of constraint `i`; `None` when
    /// there is no such constraint.
    pub fn constraint_columns(&self, i: usize) -> (r: Option<&[usize]>)
        requires
            self.wf(),
        ensures
            r is Some <==> i < self.len(),
            r is Some ==> as_ints(r->Some_0@) == self.columns()[i as int],
    {
        if i < self.columns.len() {
            Some(self.columns[i].as_slice())
        } else {
            None
        }
    }

    /// The values of the operands of constraint `i`, read from a parameter
    /// vector. `None` when there is no such constraint or when the vector
    /// does not have one value per column.
    pub fn gather<S: Copy>(&self, i: usize, params: &[S]) -> (r: Option<Vec<S>>)
        requires
            self.wf(),
        ensures
            r is Some <==> i < self.len() && params@.len() == self.num_cols(),
            r is Some ==> {
                let values = r->Some_0@;
                &&& values.len() == self.columns()[i as int].len()
                &&& forall|k: int|
                    0 <= k < values.len() ==> #[trigger] values[k] == params@[self.columns()[i as int][k]]
            },
    {
        if i >= self.columns.len() || params.len() != self.num_cols {
            return None;
        }
        let cols = &self.columns[i];
        let ghost want = self.columns()[i as int];
        assert(want == as_ints(cols@));
        let mut values: Vec<S> = Vec::new();
        let mut k: usize = 0;
        while k < cols.len()
            invariant
                k <= cols@.len(),
                want == as_ints(cols@),
                forall|j: int| 0 <= j < cols@.len() ==> 0 <= #[trigger] want[j] < params@.len(),
                values@.len() == k,
                forall|j: int| 0 <= j < k ==> #[trigger] values@[j] == params@[want[j]],
            decreases cols@.len() - k,
        {
            assert(want[k as int] == cols@[k as int]);
            values.push(params[cols[k]]);
            k += 1;
        }
        Some(values)
    }

    /// Whether there is one block per constraint, each with one value per
    /// residual row.
    pub open spec fn residual_blocks_fit<S>(&self, blocks: Seq<Vec<S>>) -> bool {
        &&& blocks.len() == self.len()
        &&& forall|i: int| 0 <= i < blocks.len() ==> (#[trigger] blocks[i])@.len() == self.rows()[i]
    }

    /// Whether there is one block per constraint, each with one row per
    /// residual row and, in each row, one partial derivative per operand.
    pub open spec fn jacobian_blocks_fit<S>(&self, blocks: Seq<Vec<Vec<S>>>) -> bool {
        &&& blocks.len() == self.len()
        &&& forall|i: int| 0 <= i < blocks.len() ==> (#[trigger] blocks[i])@.len() == self.rows()[i]
        &&& forall|i: int, q: int|
            0 <= i < blocks.len() && 0 <= q < blocks[i]@.len() ==> (#[trigger] blocks[i]@[q])@.len()
                == self.columns()[i].len()
    }

    /// Concatenates the constraints' residuals into the residual vector:
    /// the rows of constraint `i` start at `offset(i)`. Fails with
    /// `DimensionMismatch` when the blocks do not fit the layout.
    pub fn assemble_residual<S: Copy>(&self, blocks: &[Vec<S>]) -> (r: Result<Vec<S>, SolverError>)
        requires
            self.wf(),
        ensures
            r is Ok <==> self.residual_blocks_fit(blocks@),
            r is Err ==> r == Err::<Vec<S>, SolverError>(SolverError::DimensionMismatch),
            r is Ok ==> {
                let residual = r->Ok_0@;
                &&& residual.len() == self.num_rows()
                &&& forall|i: int, q: int|
                    0 <= i < blocks@.len() && 0 <= q < blocks@[i]@.len() ==> residual[self.offset(i) + q]
                        == #[trigger] blocks@[i]@[q]
            },
    {
        if blocks.len() != self.rows.len() {
            return Err(SolverError::DimensionMismatch);
        }
        let mut i: usize = 0;
        while i < blocks.len()
            invariant
                i <= blocks@.len(),
                blocks@.len() == self.rows@.len(),
                forall|j: int| 0 <= j < i ==> (#[trigger] blocks@[j])@.len() == self.rows()[j],
            decreases blocks@.len() - i,
        {
            if blocks[i].len() != self.rows[i] {
                assert(blocks@[i as int]@.len() != self.rows()[i as int]);
                return Err(SolverError::DimensionMismatch);
            }
            i += 1;
        }
        let mut residual: Vec<S> = Vec::new();
        let mut i: usize = 0;
        while i < blocks.len()
            invariant
                self.wf(),
                self.residual_blocks_fit(blocks@),
                i <= blocks@.len(),
                residual@.len() == self.offset(i as int),
                forall|j: int, q: int|
                    0 <= j < i && 0 <= q < blocks@[j]@.len() ==> residual@[self.offset(j) + q]
                        == #[trigger] blocks@[j]@[q],
            decreases blocks@.len() - i,
        {
            let block = &blocks[i];
            let ghost before = residual@;
            let mut q: usize = 0;
            while q < block.len()
                invariant
                    q <= block@.len(),
                    block@ == blocks@[i as int]@,
                    residual@.len() == before.len() + q,
                    before.len() == self.offset(i as int),
                    forall|g: int| 0 <= g < before.len() ==> #[trigger] residual@[g] == before[g],
                    forall|p: int| 0 <= p < q ==> #[trigger] residual@[before.len() + p] == block@[p],
                decreases block@.len() - q,
            {
                residual.push(block[q]);
                q += 1;
            }
            proof {
                assert(self.offset(i as int + 1) == self.offset(i as int) + self.rows()[i as int]);
                assert forall|j: int, p: int| 0 <= j < i + 1 && 0 <= p < blocks@[j]@.len() implies residual@[self.offset(
                    j,
                ) + p] == #[trigger] blocks@[j]@[p] by {
                    if j < i {
                        lemma_row_sum_nonnegative(self.rows(), j);
                        lemma_row_sum_monotone(self.rows(), j + 1, i as int);
                        assert(blocks@[j]@.len() == self.rows()[j]);
                        assert(self.offset(j + 1) == self.offset(j) + self.rows()[j]);
                        assert(0 <= self.offset(j) + p < before.len());
                        assert(before[self.offset(j) + p] == blocks@[j]@[p]);
                    } else {
                        assert(residual@[before.len() + p] == block@[p]);
                    }
                }
            }
            i += 1;
        }
        Ok(residual)
    }

    /// Stacks the constraints' partial derivatives into the dense Jacobian,
    /// row by row: row `offset(i) + q` holds the partial derivatives of
    /// residual `q` of constraint `i` in the columns of its operands, and
    /// `zero` in every other column. Fails with `DimensionMismatch` when the
    /// blocks do not fit the layout.
    pub fn assemble_jacobian<S: Copy>(&self, blocks: &[Vec<Vec<S>>], zero: S) -> (r: Result<
        Vec<Vec<S>>,
        SolverError,
    >)
        requires
            self.wf(),
        ensures
            r is Ok <==> self.jacobian_blocks_fit(blocks@),
            r is Err ==> r == Err::<Vec<Vec<S>>, SolverError>(SolverError::DimensionMismatch),
            r is Ok ==> {
                let jacobian = r->Ok_0@;
                &&& jacobian.len() == self.num_rows()
                &&& forall|i: int, q: int|
                    0 <= i < blocks@.len() && 0 <= q < blocks@[i]@.len() ==> jacobian[self.offset(i) + q]@
                        == scatter(self.columns()[i], (#[trigger] blocks@[i]@[q])@, self.num_cols(), zero)
            },
    {
        if blocks.len() != self.rows.len() {
            return Err(SolverError::DimensionMismatch);
        }
        let mut i: usize = 0;
        while i < blocks.len()
            invariant
                self.wf(),
                i <= blocks@.len(),
                blocks@.len() == self.rows@.len(),
                forall|j: int| 0 <= j < i ==> (#[trigger] blocks@[j])@.len() == self.rows()[j],
                forall|j: int, q: int|
                    0 <= j < i && 0 <= q < blocks@[j]@.len() ==> (#[trigger] blocks@[j]@[q])@.len()
                        == self.columns()[j].len(),
            decreases blocks@.len() - i,
        {
            if blocks[i].len() != self.rows[i] {
                assert(blocks@[i as int]@.len() != self.rows()[i as int]);
                return Err(SolverError::DimensionMismatch);
            }
            let mut q: usize = 0;
            while q < blocks[i].len()
                invariant
                    self.wf(),
                    i < blocks@.len(),
                    blocks@.len() == self.rows@.len(),
                    q <= blocks@[i as int]@.len(),
                    forall|p: int|
                        0 <= p < q ==> (#[trigger] blocks@[i as int]@[p])@.len() == self.columns()[i as int].len(),
                decreases blocks@[i as int]@.len() - q,
            {
                if blocks[i][q].len() != self.columns[i].len() {
                    assert(blocks@[i as int]@[q as int]@.len() != self.columns()[i as int].len());
                    return Err(SolverError::DimensionMismatch);
                }
                q += 1;
            }
            i += 1;
        }
        let mut jacobian: Vec<Vec<S>> = Vec::new();
        let mut i: usize = 0;
        while i < blocks.len()
            invariant
                self.wf(),
                self.jacobian_blocks_fit(blocks@),
                i <= blocks@.len(),
                jacobian@.len() == self.offset(i as int),
                forall|j: int, q: int|
                    0 <= j < i && 0 <= q < blocks@[j]@.len() ==> jacobian@[self.offset(j) + q]@ == scatter(
                        self.columns()[j],
                        (#[trigger] blocks@[j]@[q])@,
                        self.num_cols(),
                        zero,
                    ),
            decreases blocks@.len() - i,
        {
            let block = &blocks[i];
            let cols = &self.columns[i];
            let ghost before = jacobian@;
            assert(as_ints(cols@) == self.columns()[i as int]);
            assert forall|k: int| 0 <= k < cols@.len() implies #[trigger] cols@[k] < self.num_cols by {
                assert(self.columns()[i as int][k] == cols@[k]);
            }
            let mut q: usize = 0;
            while q < block.len()
                invariant
                    q <= block@.len(),
                    block@ == blocks@[i as int]@,
                    forall|p: int| 0 <= p < block@.len() ==> (#[trigger] block@[p])@.len() == cols@.len(),
                    forall|k: int| 0 <= k < cols@.len() ==> #[trigger] cols@[k] < self.num_cols,
                    jacobian@.len() == before.len() + q,
                    before.len() == self.offset(i as int),
                    forall|g: int| 0 <= g < before.len() ==> #[trigger] jacobian@[g] == before[g],
                    forall|p: int|
                        0 <= p < q ==> (#[trigger] jacobian@[before.len() + p])@ == scatter(
                            as_ints(cols@),
                            block@[p]@,
                            self.num_cols as nat,
                            zero,
                        ),
                decreases block@.len() - q,
            {
                let row = scatter_row(cols, &block[q], self.num_cols, zero);
                jacobian.push(row);
                q += 1;
            }
            proof {
                assert(self.offset(i as int + 1) == self.offset(i as int) + self.rows()[i as int]);
                assert forall|j: int, p: int| 0 <= j < i + 1 && 0 <= p < blocks@[j]@.len() implies jacobian@[self.offset(
                    j,
                ) + p]@ == scatter(
                    self.columns()[j],
                    (#[trigger] blocks@[j]@[p])@,
                    self.num_cols(),
                    zero,
                ) by {
                    if j < i {
                        lemma_row_sum_nonnegative(self.rows(), j);
                        lemma_row_sum_monotone(self.rows(), j + 1, i as int);
                        assert(blocks@[j]@.len() == self.rows()[j]);
                        assert(self.offset(j + 1) == self.offset(j) + self.rows()[j]);
                        assert(0 <= self.offset(j) + p < before.len());
                        assert(before[self.offset(j) + p]@ == scatter(
                            self.columns()[j],
                            blocks@[j]@[p]@,
                            self.num_cols(),
                            zero,
                        ));
                    } else {
                        assert(jacobian@[before.len() + p]@ == scatter(
                            as_ints(cols@),
                            block@[p]@,
                            self.num_cols as nat,
                            zero,
                        ));
                    }
                }
            }
            i += 1;
        }
        Ok(jacobian)
    }
}

/// Builds one dense row: `vals[k]` in column `cols[k]`, `zero` elsewhere.
fn scatter_row<S: Copy>(cols: &Vec<usize>, vals: &Vec<S>, n: usize, zero: S) -> (row: Vec<S>)
    requires
        cols@.len() == vals@.len(),
        forall|k: int| 0 <= k < cols@.len() ==> #[trigger] cols@[k] < n,
    ensures
        row@ == scatter(as_ints(cols@), vals@, n as nat, zero),
{
    let ghost columns = as_ints(cols@);
    let mut row: Vec<S> = Vec::new();
    let mut c: usize = 0;
    while c < n
        invariant
            c <= n,
            row@.len() == c,
            forall|g: int| 0 <= g < c ==> #[trigger] row@[g] == zero,
        decreases n - c,
    {
        row.push(zero);
        c += 1;
    }
    let mut k: usize = 0;
    while k < cols.len()
        invariant
            k <= cols@.len(),
            cols@.len() == vals@.len(),
            columns == as_ints(cols@),
            forall|j: int| 0 <= j < cols@.len() ==> #[trigger] cols@[j] < n,
            row@.len() == n,
            forall|g: int| 0 <= g < n ==> #[trigger] row@[g] == entry(columns, vals@, zero, g, k as int),
        decreases cols@.len() - k,
    {
        assert(columns[k as int] == cols@[k as int]);
        row.set(cols[k], vals[k]);
        k += 1;
    }
    assert(row@ =~= scatter(columns, vals@, n as nat, zero));
    row
}

/// The entry that the first `k` operands leave in column `c`: the value of
/// the last of them that sits in that column, or `zero` where none does.
pub open spec fn entry<S>(cols: Seq<int>, vals: Seq<S>, zero: S, c: int, k: int) -> S
    decreases k,
{
    if k <= 0 {
        zero
    } else if cols[k - 1] == c {
        vals[k - 1]
    } else {
        entry(cols, vals, zero, c, k - 1)
    }
}

/// A row of `n` entries that holds `vals[k]` in column `cols[k]` and `zero`
/// elsewhere. Where a column occurs twice, the later value stands.
pub open spec fn scatter<S>(cols: Seq<int>, vals: Seq<S>, n: nat, zero: S) -> Seq<S> {
    Seq::new(n, |c: int| entry(cols, vals, zero, c, cols.len() as int))
}

/// Outside the given columns an entry is zero.
proof fn lemma_entry_zero<S>(cols: Seq<int>, vals: Seq<S>, zero: S, c: int, k: int)
    requires
        0 <= k <= cols.len(),
        !cols.contains(c),
    ensures
        entry(cols, vals, zero, c, k) == zero,
    decreases k,
{
    if k > 0 {
        assert(cols[k - 1] != c);
        lemma_entry_zero(cols, vals, zero, c, k - 1);
    }
}

/// Where no column occurs twice, each value is the entry of its column.
proof fn lemma_entry_value<S>(cols: Seq<int>, vals: Seq<S>, zero: S, j: int, k: int)
    requires
        cols.no_duplicates(),
        0 <= j < k <= cols.len(),
    ensures
        entry(cols, vals, zero, cols[j], k) == vals[j],
    decreases k,
{
    if j < k - 1 {
        lemma_entry_value(cols, vals, zero, j, k - 1);
    }
}

/// A Jacobian row is zero in every column that is not a column of one of
/// the constraint's operands.
pub proof fn lemma_scatter_zero_elsewhere<S>(cols: Seq<int>, vals: Seq<S>, n: nat, zero: S, c: int)
    requires
        0 <= c < n,
        !cols.contains(c),
    ensures
        scatter(cols, vals, n, zero).len() == n,
        scatter(cols, vals, n, zero)[c] == zero,
{
    lemma_entry_zero(cols, vals, zero, c, cols.len() as int);
}

/// Where no two operands share a column, a Jacobian row holds each
/// partial derivative in the column of its operand.
pub proof fn lemma_scatter_holds_values<S>(cols: Seq<int>, vals: Seq<S>, n: nat, zero: S, k: int)
    requires
        cols.no_duplicates(),
        0 <= k < cols.len(),
        0 <= cols[k] < n,
    ensures
        scatter(cols, vals, n, zero)[cols[k]] == vals[k],
{
    lemma_entry_value(cols, vals, zero, k, cols.len() as int);
}

} // verus!
