//! The operation enumeration: the deterministic rule that turns a schema of
//! `n` fields into the full ordered sequence of generated operations.
//!
//! The order is fixed: for each outer field `i` in declaration order, and for
//! each inner field `j` in declaration order with `j != i`, the `GetBy` and
//! then the `Update` over the pair; after the inner pass, the `GetRecord` and
//! then the `DeleteBy` for field `i`; after the outer pass, `Insert`, then
//! `GetAll`, then `DeleteAll`. The sequence is a function of the schema
//! alone, so regenerating from an identical schema yields an identical
//! sequence.

use vstd::prelude::*;
use crate::schema::RecordSchema;

verus! {

/// One generated operation: its kind and the fields it works over, each
/// field given as its position in the schema's declaration order.
#[derive(Clone, Copy, Debug, PartialEq, Eq, Structural)]
pub enum OperationSpec {
    /// Read one field (`return_field`) of every record matching an equality
    /// filter on another field (`filter_field`).
    GetBy { return_field: usize, filter_field: usize },
    /// Read the whole records matching an equality filter on one field.
    GetRecord { filter_field: usize },
    /// Set one field (`target_field`) of the records matching an equality
    /// filter on another field (`filter_field`).
    Update { target_field: usize, filter_field: usize },
    /// Delete the records matching an equality filter on one field.
    DeleteBy { filter_field: usize },
    /// Insert one new record, supplied as the companion shape.
    Insert,
    /// Read every record.
    GetAll,
    /// Delete every record.
    DeleteAll,
}

/// The kind of an operation, without its field parameters.
#[derive(Clone, Copy, Debug, PartialEq, Eq, Structural)]
pub enum OperationKind {
    GetBy,
    GetRecord,
    Update,
    DeleteBy,
    Insert,
    GetAll,
    DeleteAll,
}

/// The kind of an operation.
pub open spec fn kind_of(op: OperationSpec) -> OperationKind {
    match op {
        OperationSpec::GetBy { .. } => OperationKind::GetBy,
        OperationSpec::GetRecord { .. } => OperationKind::GetRecord,
        OperationSpec::Update { .. } => OperationKind::Update,
        OperationSpec::DeleteBy { .. } => OperationKind::DeleteBy,
        OperationSpec::Insert => OperationKind::Insert,
        OperationSpec::GetAll => OperationKind::GetAll,
        OperationSpec::DeleteAll => OperationKind::DeleteAll,
    }
}

/// Whether an operation speaks only of fields that a schema of `n` fields
/// has, and never returns or targets the very field it filters by.
pub open spec fn op_valid(op: OperationSpec, n: usize) -> bool {
    match op {
        OperationSpec::GetBy { return_field, filter_field } => return_field < n && filter_field
            < n && return_field != filter_field,
        OperationSpec::GetRecord { filter_field } => filter_field < n,
        OperationSpec::Update { target_field, filter_field } => target_field < n && filter_field
            < n && target_field != filter_field,
        OperationSpec::DeleteBy { filter_field } => filter_field < n,
        OperationSpec::Insert => true,
        OperationSpec::GetAll => true,
        OperationSpec::DeleteAll => true,
    }
}

/// The cross-product operations for outer field `i` and inner field `j`:
/// nothing when `i == j`, else the `GetBy` and then the `Update` over the
/// pair, in that relative order.
pub open spec fn pair_ops(i: usize, j: usize) -> Seq<OperationSpec> {
    if i == j {
        seq![]
    } else {
        seq![
            OperationSpec::GetBy { return_field: i, filter_field: j },
            OperationSpec::Update { target_field: i, filter_field: j },
        ]
    }
}

/// The cross-product operations for outer field `i` and inner fields
/// `0..j`, in inner declaration order.
pub open spec fn inner_upto(i: usize, j: int) -> Seq<OperationSpec>
    decreases j,
{
    if j <= 0 {
        seq![]
    } else {
        inner_upto(i, j - 1) + pair_ops(i, (j - 1) as usize)
    }
}

/// Every operation emitted for outer field `i` of a schema of `n` fields:
/// the cross products over all inner fields, then the `GetRecord`, then the
/// `DeleteBy`.
pub open spec fn field_ops(i: usize, n: usize) -> Seq<OperationSpec> {
    inner_upto(i, n as int) + seq![
        OperationSpec::GetRecord { filter_field: i },
        OperationSpec::DeleteBy { filter_field: i },
    ]
}

/// The operations emitted for outer fields `0..i` of a schema of `n`
/// fields, in outer declaration order.
pub open spec fn outer_upto(n: usize, i: int) -> Seq<OperationSpec>
    decreases i,
{
    if i <= 0 {
        seq![]
    } else {
        outer_upto(n, i - 1) + field_ops((i - 1) as usize, n)
    }
}

/// The full operation sequence for a schema of `n` fields: the per-field
/// blocks in declaration order, then `Insert`, then `GetAll`, then
/// `DeleteAll`.
pub open spec fn op_sequence(n: usize) -> Seq<OperationSpec> {
    outer_upto(n, n as int) + seq![
        OperationSpec::Insert,
        OperationSpec::GetAll,
        OperationSpec::DeleteAll,
    ]
}

/// Enumerates every operation for the schema, in the fixed generation
/// order. The result is pinned down completely by the schema's field count,
/// which makes regeneration deterministic.
pub fn enumerate_operations(schema: &RecordSchema) -> (r: Vec<OperationSpec>)
    ensures
        r@ == op_sequence(schema.fields@.len() as usize),
{
    let n = schema.fields.len();
    let mut ops: Vec<OperationSpec> = Vec::new();
    let mut i: usize = 0;
    while i < n
        invariant
            i <= n,
            ops@ == outer_upto(n, i as int),
        decreases n - i,
    {
        let mut j: usize = 0;
        while j < n
            invariant
                j <= n,
                i < n,
                ops@ == outer_upto(n, i as int) + inner_upto(i, j as int),
            decreases n - j,
        {
            if i != j {
                ops.push(OperationSpec::GetBy { return_field: i, filter_field: j });
                ops.push(OperationSpec::Update { target_field: i, filter_field: j });
            }
            j += 1;
            assert(ops@ =~= outer_upto(n, i as int) + inner_upto(i, j as int));
        }
        ops.push(OperationSpec::GetRecord { filter_field: i });
        ops.push(OperationSpec::DeleteBy { filter_field: i });
        i += 1;
        assert(inner_upto((i - 1) as usize, n as int) + seq![
            OperationSpec::GetRecord { filter_field: (i - 1) as usize },
            OperationSpec::DeleteBy { filter_field: (i - 1) as usize },
        ] =~= field_ops((i - 1) as usize, n));
        assert(ops@ =~= outer_upto(n, i as int));
    }
    ops.push(OperationSpec::Insert);
    ops.push(OperationSpec::GetAll);
    ops.push(OperationSpec::DeleteAll);
    assert(ops@ =~= op_sequence(n));
    ops
}

/// What every element of a cross-product block for outer field `i`, inner
/// fields `0..j`, looks like.
spec fn inner_elem(op: OperationSpec, i: usize, j: int) -> bool {
    match op {
        OperationSpec::GetBy { return_field, filter_field } => return_field == i && filter_field
            < j && filter_field != i,
        OperationSpec::Update { target_field, filter_field } => target_field == i && filter_field
            < j && filter_field != i,
        _ => false,
    }
}

/// What every element of the whole block for outer field `i` of a schema of
/// `n` fields looks like.
spec fn block_elem(op: OperationSpec, i: usize, n: usize) -> bool {
    match op {
        OperationSpec::GetBy { return_field, filter_field } => return_field == i && filter_field
            < n && filter_field != i,
        OperationSpec::Update { target_field, filter_field } => target_field == i && filter_field
            < n && filter_field != i,
        OperationSpec::GetRecord { filter_field } => filter_field == i,
        OperationSpec::DeleteBy { filter_field } => filter_field == i,
        _ => false,
    }
}

/// What every element of the blocks for outer fields `0..i` looks like.
spec fn outer_elem(op: OperationSpec, i: int, n: usize) -> bool {
    match op {
        OperationSpec::GetBy { return_field, filter_field } => return_field < i && filter_field
            < n && filter_field != return_field,
        OperationSpec::Update { target_field, filter_field } => target_field < i && filter_field
            < n && filter_field != target_field,
        OperationSpec::GetRecord { filter_field } => filter_field < i,
        OperationSpec::DeleteBy { filter_field } => filter_field < i,
        _ => false,
    }
}

/// Concatenating two duplicate-free sequences with no element in common
/// yields a duplicate-free sequence.
proof fn lemma_no_dup_add(a: Seq<OperationSpec>, b: Seq<OperationSpec>)
    requires
        a.no_duplicates(),
        b.no_duplicates(),
        forall|k: int, l: int| 0 <= k < a.len() && 0 <= l < b.len() ==> #[trigger] a[k] != #[trigger] b[l],
    ensures
        (a + b).no_duplicates(),
{
    assert forall|k: int, l: int|
        0 <= k < (a + b).len() && 0 <= l < (a + b).len() && k != l implies (a + b)[k] != (a
        + b)[l] by {
        if k < a.len() && l >= a.len() {
            assert(a[k] != b[l - a.len()]);
        } else if k >= a.len() && l < a.len() {
            assert(a[l] != b[k - a.len()]);
        }
    }
}

/// The cross-product block for inner fields `0..j` holds exactly the
/// expected `GetBy`/`Update` pairs, without duplicates.
proof fn lemma_inner_upto_elems(i: usize, j: int)
    requires
        0 <= j <= usize::MAX,
    ensures
        forall|k: int|
            0 <= k < inner_upto(i, j).len() ==> inner_elem(#[trigger] inner_upto(i, j)[k], i, j),
        inner_upto(i, j).no_duplicates(),
    decreases j,
{
    if j > 0 {
        lemma_inner_upto_elems(i, j - 1);
        let prev = inner_upto(i, j - 1);
        let pair = pair_ops(i, (j - 1) as usize);
        if i != (j - 1) as usize {
            assert(pair[0] == (OperationSpec::GetBy {
                return_field: i,
                filter_field: (j - 1) as usize,
            }));
            assert(pair[1] == (OperationSpec::Update {
                target_field: i,
                filter_field: (j - 1) as usize,
            }));
        }
        assert(pair.no_duplicates());
        assert forall|k: int, l: int|
            0 <= k < prev.len() && 0 <= l < pair.len() implies #[trigger] prev[k] != #[trigger] pair[l] by {
            assert(inner_elem(prev[k], i, j - 1));
        }
        lemma_no_dup_add(prev, pair);
    }
}

/// The block for outer field `i` holds exactly the expected operations,
/// without duplicates.
proof fn lemma_field_ops_elems(i: usize, n: usize)
    ensures
        forall|k: int|
            0 <= k < field_ops(i, n).len() ==> block_elem(#[trigger] field_ops(i, n)[k], i, n),
        field_ops(i, n).no_duplicates(),
{
    lemma_inner_upto_elems(i, n as int);
    let inner = inner_upto(i, n as int);
    let tail = seq![
        OperationSpec::GetRecord { filter_field: i },
        OperationSpec::DeleteBy { filter_field: i },
    ];
    assert(tail.no_duplicates());
    assert forall|k: int, l: int|
        0 <= k < inner.len() && 0 <= l < tail.len() implies #[trigger] inner[k] != #[trigger] tail[l] by {
        assert(inner_elem(inner[k], i, n as int));
    }
    lemma_no_dup_add(inner, tail);
}

/// The blocks for outer fields `0..i` hold exactly the expected operations,
/// without duplicates.
proof fn lemma_outer_upto_elems(n: usize, i: int)
    requires
        0 <= i <= usize::MAX,
    ensures
        forall|k: int|
            0 <= k < outer_upto(n, i).len() ==> outer_elem(#[trigger] outer_upto(n, i)[k], i, n),
        outer_upto(n, i).no_duplicates(),
    decreases i,
{
    if i > 0 {
        lemma_outer_upto_elems(n, i - 1);
        lemma_field_ops_elems((i - 1) as usize, n);
        let prev = outer_upto(n, i - 1);
        let block = field_ops((i - 1) as usize, n);
        assert forall|k: int, l: int|
            0 <= k < prev.len() && 0 <= l < block.len() implies #[trigger] prev[k] != #[trigger] block[l] by {
            assert(outer_elem(prev[k], i - 1, n));
            assert(block_elem(block[l], (i - 1) as usize, n));
        }
        lemma_no_dup_add(prev, block);
    }
}

/// Every generated operation is valid for the schema's field count — it
/// names only existing fields and never filters a field by itself — and the
/// generated operation sequence holds no operation twice.
pub proof fn lemma_op_sequence_valid(n: usize)
    ensures
        forall|k: int|
            0 <= k < op_sequence(n).len() ==> op_valid(#[trigger] op_sequence(n)[k], n),
        op_sequence(n).no_duplicates(),
{
    lemma_outer_upto_elems(n, n as int);
    let prefix = outer_upto(n, n as int);
    let tail = seq![OperationSpec::Insert, OperationSpec::GetAll, OperationSpec::DeleteAll];
    assert(tail.no_duplicates());
    assert forall|k: int, l: int|
        0 <= k < prefix.len() && 0 <= l < tail.len() implies #[trigger] prefix[k] != #[trigger] tail[l] by {
        assert(outer_elem(prefix[k], n as int, n));
    }
    lemma_no_dup_add(prefix, tail);
    assert forall|k: int| 0 <= k < op_sequence(n).len() implies op_valid(
        #[trigger] op_sequence(n)[k],
        n,
    ) by {
        if k < prefix.len() {
            assert(outer_elem(prefix[k], n as int, n));
        }
    }
}

/// No generated `GetBy` returns the very field it filters by, and no
/// generated `Update` targets the very field it filters by.
pub proof fn lemma_no_self_filter(n: usize)
    ensures
        forall|k: int|
            0 <= k < op_sequence(n).len() ==> match #[trigger] op_sequence(n)[k] {
                OperationSpec::GetBy { return_field, filter_field } => return_field != filter_field,
                OperationSpec::Update { target_field, filter_field } => target_field
                    != filter_field,
                _ => true,
            },
{
    lemma_op_sequence_valid(n);
    assert forall|k: int| 0 <= k < op_sequence(n).len() implies match #[trigger] op_sequence(
        n,
    )[k] {
        OperationSpec::GetBy { return_field, filter_field } => return_field != filter_field,
        OperationSpec::Update { target_field, filter_field } => target_field != filter_field,
        _ => true,
    } by {
        assert(op_valid(op_sequence(n)[k], n));
    }
}

/// How many operations of the given kind a sequence holds.
pub open spec fn count_kind(s: Seq<OperationSpec>, kind: OperationKind) -> nat
    decreases s.len(),
{
    if s.len() == 0 {
        0
    } else {
        count_kind(s.drop_last(), kind) + if kind_of(s.last()) == kind {
            1nat
        } else {
            0nat
        }
    }
}

/// Counting by kind distributes over concatenation.
proof fn lemma_count_kind_add(a: Seq<OperationSpec>, b: Seq<OperationSpec>, kind: OperationKind)
    ensures
        count_kind(a + b, kind) == count_kind(a, kind) + count_kind(b, kind),
    decreases b.len(),
{
    if b.len() == 0 {
        assert(a + b =~= a);
        assert(count_kind(b, kind) == 0);
    } else {
        assert((a + b).drop_last() =~= a + b.drop_last());
        assert((a + b).last() == b.last());
        lemma_count_kind_add(a, b.drop_last(), kind);
        assert(count_kind(a + b, kind) == count_kind((a + b).drop_last(), kind) + if kind_of(
            (a + b).last(),
        ) == kind {
            1nat
        } else {
            0nat
        });
    }
}

/// The count of one kind in a one-element sequence.
proof fn lemma_count_kind_one(x: OperationSpec, kind: OperationKind)
    ensures
        count_kind(seq![x], kind) == if kind_of(x) == kind {
            1nat
        } else {
            0nat
        },
{
    assert(seq![x].drop_last() =~= Seq::<OperationSpec>::empty());
    assert(count_kind(seq![x].drop_last(), kind) == 0);
}

/// The count of one kind in a two-element sequence.
proof fn lemma_count_kind_two(x: OperationSpec, y: OperationSpec, kind: OperationKind)
    ensures
        count_kind(seq![x, y], kind) == (if kind_of(x) == kind {
            1int
        } else {
            0int
        }) + (if kind_of(y) == kind {
            1int
        } else {
            0int
        }),
{
    assert(seq![x, y] =~= seq![x] + seq![y]);
    lemma_count_kind_add(seq![x], seq![y], kind);
    lemma_count_kind_one(x, kind);
    lemma_count_kind_one(y, kind);
}

/// The count of one kind in a three-element sequence.
proof fn lemma_count_kind_three(
    x: OperationSpec,
    y: OperationSpec,
    z: OperationSpec,
    kind: OperationKind,
)
    ensures
        count_kind(seq![x, y, z], kind) == (if kind_of(x) == kind {
            1int
        } else {
            0int
        }) + (if kind_of(y) == kind {
            1int
        } else {
            0int
        }) + (if kind_of(z) == kind {
            1int
        } else {
            0int
        }),
{
    assert(seq![x, y, z] =~= seq![x, y] + seq![z]);
    lemma_count_kind_add(seq![x, y], seq![z], kind);
    lemma_count_kind_two(x, y, kind);
    lemma_count_kind_one(z, kind);
}

/// Counts over a cross-product block: for inner fields `0..j`, one `GetBy`
/// and one `Update` per inner field other than `i`, and nothing else.
proof fn lemma_inner_upto_counts(i: usize, j: int, kind: OperationKind)
    requires
        0 <= j <= usize::MAX,
    ensures
        kind == OperationKind::GetBy || kind == OperationKind::Update ==> count_kind(
            inner_upto(i, j),
            kind,
        ) == (if i < j {
            j - 1
        } else {
            j
        }),
        kind != OperationKind::GetBy && kind != OperationKind::Update ==> count_kind(
            inner_upto(i, j),
            kind,
        ) == 0,
        inner_upto(i, j).len() == 2 * (if i < j {
            j - 1
        } else {
            j
        }),
    decreases j,
{
    if j <= 0 {
        assert(count_kind(inner_upto(i, j), kind) == 0);
    } else {
        lemma_inner_upto_counts(i, j - 1, kind);
        let pair = pair_ops(i, (j - 1) as usize);
        lemma_count_kind_add(inner_upto(i, j - 1), pair, kind);
        if i == (j - 1) as usize {
            assert(count_kind(pair, kind) == 0);
        } else {
            lemma_count_kind_two(pair[0], pair[1], kind);
            assert(pair =~= seq![pair[0], pair[1]]);
        }
    }
}

/// Counts over the whole block of one outer field `i < n`: `n - 1` each of
/// `GetBy` and `Update`, one `GetRecord`, one `DeleteBy`, nothing else.
proof fn lemma_field_ops_counts(i: usize, n: usize, kind: OperationKind)
    requires
        i < n,
    ensures
        kind == OperationKind::GetBy || kind == OperationKind::Update ==> count_kind(
            field_ops(i, n),
            kind,
        ) == n - 1,
        kind == OperationKind::GetRecord || kind == OperationKind::DeleteBy ==> count_kind(
            field_ops(i, n),
            kind,
        ) == 1,
        (kind == OperationKind::Insert || kind == OperationKind::GetAll || kind
            == OperationKind::DeleteAll) ==> count_kind(field_ops(i, n), kind) == 0,
        field_ops(i, n).len() == 2 * (n - 1) + 2,
{
    lemma_inner_upto_counts(i, n as int, kind);
    let tail = seq![
        OperationSpec::GetRecord { filter_field: i },
        OperationSpec::DeleteBy { filter_field: i },
    ];
    lemma_count_kind_add(inner_upto(i, n as int), tail, kind);
    lemma_count_kind_two(tail[0], tail[1], kind);
    assert(tail =~= seq![tail[0], tail[1]]);
}

/// Counts over the blocks of outer fields `0..i`, for `i <= n`.
proof fn lemma_outer_upto_counts(n: usize, i: int, kind: OperationKind)
    requires
        0 <= i <= n,
    ensures
        kind == OperationKind::GetBy || kind == OperationKind::Update ==> count_kind(
            outer_upto(n, i),
            kind,
        ) == i * (n - 1),
        kind == OperationKind::GetRecord || kind == OperationKind::DeleteBy ==> count_kind(
            outer_upto(n, i),
            kind,
        ) == i,
        (kind == OperationKind::Insert || kind == OperationKind::GetAll || kind
            == OperationKind::DeleteAll) ==> count_kind(outer_upto(n, i), kind) == 0,
        outer_upto(n, i).len() == i * (2 * (n - 1) + 2),
    decreases i,
{
    if i <= 0 {
        assert(count_kind(outer_upto(n, i), kind) == 0);
        assert(outer_upto(n, i).len() == 0);
        assert(i * (2 * (n - 1) + 2) == 0) by (nonlinear_arith)
            requires i == 0;
    } else {
        lemma_outer_upto_counts(n, i - 1, kind);
        lemma_field_ops_counts((i - 1) as usize, n, kind);
        lemma_count_kind_add(outer_upto(n, i - 1), field_ops((i - 1) as usize, n), kind);
        assert((i - 1) * (n - 1) + (n - 1) == i * (n - 1)) by (nonlinear_arith);
        assert((i - 1) * (2 * (n - 1) + 2) + (2 * (n - 1) + 2) == i * (2 * (n - 1) + 2))
            by (nonlinear_arith);
        assert(outer_upto(n, i).len() == outer_upto(n, i - 1).len() + field_ops(
            (i - 1) as usize,
            n,
        ).len());
    }
}

/// For a schema of `n >= 1` fields, the generated sequence holds exactly
/// `n * (n - 1)` `GetBy` operations, `n * (n - 1)` `Update` operations, `n`
/// `GetRecord` operations, `n` `DeleteBy` operations, and one each of
/// `Insert`, `GetAll` and `DeleteAll`.
pub proof fn lemma_operation_counts(n: usize)
    requires
        n >= 1,
    ensures
        count_kind(op_sequence(n), OperationKind::GetBy) == n * (n - 1),
        count_kind(op_sequence(n), OperationKind::Update) == n * (n - 1),
        count_kind(op_sequence(n), OperationKind::GetRecord) == n,
        count_kind(op_sequence(n), OperationKind::DeleteBy) == n,
        count_kind(op_sequence(n), OperationKind::Insert) == 1,
        count_kind(op_sequence(n), OperationKind::GetAll) == 1,
        count_kind(op_sequence(n), OperationKind::DeleteAll) == 1,
        op_sequence(n).len() == 2 * n * (n - 1) + 2 * n + 3,
{
    let tail = seq![OperationSpec::Insert, OperationSpec::GetAll, OperationSpec::DeleteAll];
    assert forall|kind: OperationKind| true implies {
        &&& (kind == OperationKind::GetBy || kind == OperationKind::Update) ==> #[trigger]
            count_kind(op_sequence(n), kind) == n * (n - 1)
        &&& (kind == OperationKind::GetRecord || kind == OperationKind::DeleteBy) ==> count_kind(
            op_sequence(n),
            kind,
        ) == n
        &&& (kind == OperationKind::Insert || kind == OperationKind::GetAll || kind
            == OperationKind::DeleteAll) ==> count_kind(op_sequence(n), kind) == 1
    } by {
        lemma_outer_upto_counts(n, n as int, kind);
        lemma_count_kind_add(outer_upto(n, n as int), tail, kind);
        lemma_count_kind_three(tail[0], tail[1], tail[2], kind);
        assert(tail =~= seq![tail[0], tail[1], tail[2]]);
    }
    assert(count_kind(op_sequence(n), OperationKind::GetBy) == n * (n - 1));
    lemma_outer_upto_counts(n, n as int, OperationKind::GetBy);
    assert(n * (2 * (n - 1) + 2) == 2 * n * (n - 1) + 2 * n) by (nonlinear_arith);
}

/// A one-field schema yields no cross-product operations at all, but still
/// exactly one `GetRecord` and one `DeleteBy`.
pub proof fn lemma_single_field_counts()
    ensures
        count_kind(op_sequence(1), OperationKind::GetBy) == 0,
        count_kind(op_sequence(1), OperationKind::Update) == 0,
        count_kind(op_sequence(1), OperationKind::GetRecord) == 1,
        count_kind(op_sequence(1), OperationKind::DeleteBy) == 1,
{
    lemma_operation_counts(1);
}

/// Determinism: the generated sequence is a function of the schema's field
/// count alone, so two enumerations over identical schemas yield identical
/// ordered operation sequences.
pub proof fn lemma_enumeration_deterministic(
    first: Seq<OperationSpec>,
    second: Seq<OperationSpec>,
    n: usize,
)
    requires
        first == op_sequence(n),
        second == op_sequence(n),
    ensures
        first == second,
{
}

} // verus!
