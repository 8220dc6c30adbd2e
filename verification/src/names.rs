//! Name synthesis: the deterministic templates that map an operation to its
//! generated identifier and to its parameter names.
//!
//! The templates are: `get_<F>s_by_<G>` for a `GetBy`, `get_by_<F>` for a
//! `GetRecord`, `update_<F>s_by_<G>` for an `Update`, `delete_by_<F>` for a
//! `DeleteBy`, and the fixed `insert`, `get_all` and `delete_all`. For a
//! schema with pairwise-distinct field names that do not themselves embed
//! the `_by_` separator, the generated names are pairwise distinct; that is
//! proved in [`lemma_operation_names_injective`].

use vstd::prelude::*;
use vstd::string::*;
use crate::operations::{kind_of, lemma_op_sequence_valid, op_sequence, op_valid, OperationKind, OperationSpec};
use crate::schema::RecordSchema;

verus! {

/// The prefix of every generated read accessor name.
pub open spec fn get_prefix() -> Seq<char> {
    "get_"@
}

/// The prefix of every generated update mutator name.
pub open spec fn update_prefix() -> Seq<char> {
    "update_"@
}

/// The prefix of every generated delete mutator name.
pub open spec fn delete_prefix() -> Seq<char> {
    "delete_"@
}

/// The marker that introduces the filter field in `get_by_<F>` and
/// `delete_by_<F>`.
pub open spec fn by_marker() -> Seq<char> {
    "by_"@
}

/// The separator between the returned (or targeted) field and the filter
/// field in `get_<F>s_by_<G>` and `update_<F>s_by_<G>`.
pub open spec fn plural_by() -> Seq<char> {
    "s_by_"@
}

/// The suffix of the whole-table operation names `get_all` and
/// `delete_all`.
pub open spec fn all_suffix() -> Seq<char> {
    "all"@
}

/// The name of the insertion operation.
pub open spec fn insert_name() -> Seq<char> {
    "insert"@
}

/// The infix that a field name must not embed if the generated names are to
/// stay pairwise distinct.
pub open spec fn by_infix() -> Seq<char> {
    "_by_"@
}

/// The generated identifier of one operation, over the schema's field
/// names in declaration order.
pub open spec fn op_name(names: Seq<Seq<char>>, op: OperationSpec) -> Seq<char> {
    match op {
        OperationSpec::GetBy { return_field, filter_field } => get_prefix()
            + names[return_field as int] + plural_by() + names[filter_field as int],
        OperationSpec::GetRecord { filter_field } => get_prefix() + by_marker()
            + names[filter_field as int],
        OperationSpec::Update { target_field, filter_field } => update_prefix()
            + names[target_field as int] + plural_by() + names[filter_field as int],
        OperationSpec::DeleteBy { filter_field } => delete_prefix() + by_marker()
            + names[filter_field as int],
        OperationSpec::Insert => insert_name(),
        OperationSpec::GetAll => get_prefix() + all_suffix(),
        OperationSpec::DeleteAll => delete_prefix() + all_suffix(),
    }
}

/// Synthesizes the generated identifier of one operation of the schema.
pub fn operation_name(schema: &RecordSchema, op: &OperationSpec) -> (r: String)
    requires
        op_valid(*op, schema.fields@.len() as usize),
    ensures
        r@ == op_name(schema.field_names(), *op),
{
    proof {
        assert(forall|k: int|
            0 <= k < schema.fields@.len() ==> #[trigger] schema.field_names()[k]
                == schema.fields@[k].name@);
    }
    match op {
        OperationSpec::GetBy { return_field, filter_field } => {
            let mut s = String::from_str("get_");
            s.append(schema.fields[*return_field].name.as_str());
            s.append("s_by_");
            s.append(schema.fields[*filter_field].name.as_str());
            s
        },
        OperationSpec::GetRecord { filter_field } => {
            let mut s = String::from_str("get_");
            s.append("by_");
            s.append(schema.fields[*filter_field].name.as_str());
            s
        },
        OperationSpec::Update { target_field, filter_field } => {
            let mut s = String::from_str("update_");
            s.append(schema.fields[*target_field].name.as_str());
            s.append("s_by_");
            s.append(schema.fields[*filter_field].name.as_str());
            s
        },
        OperationSpec::DeleteBy { filter_field } => {
            let mut s = String::from_str("delete_");
            s.append("by_");
            s.append(schema.fields[*filter_field].name.as_str());
            s
        },
        OperationSpec::Insert => String::from_str("insert"),
        OperationSpec::GetAll => {
            let mut s = String::from_str("get_");
            s.append("all");
            s
        },
        OperationSpec::DeleteAll => {
            let mut s = String::from_str("delete_");
            s.append("all");
            s
        },
    }
}

/// Synthesizes the generated identifiers of all operations, in generation
/// order.
pub fn operation_names(schema: &RecordSchema, ops: &Vec<OperationSpec>) -> (r: Vec<String>)
    requires
        forall|k: int|
            0 <= k < ops@.len() ==> op_valid(#[trigger] ops@[k], schema.fields@.len() as usize),
    ensures
        r@.len() == ops@.len(),
        forall|k: int|
            0 <= k < ops@.len() ==> (#[trigger] r@[k])@ == op_name(schema.field_names(), ops@[k]),
{
    let mut r: Vec<String> = Vec::new();
    let mut k: usize = 0;
    while k < ops.len()
        invariant
            k <= ops@.len(),
            r@.len() == k,
            forall|m: int|
                0 <= m < ops@.len() ==> op_valid(#[trigger] ops@[m], schema.fields@.len() as usize),
            forall|m: int|
                0 <= m < k ==> (#[trigger] r@[m])@ == op_name(schema.field_names(), ops@[m]),
        decreases ops@.len() - k,
    {
        let name = operation_name(schema, &ops[k]);
        r.push(name);
        k += 1;
    }
    r
}


/// Whether `t` occurs somewhere in `s` as a contiguous substring.
pub open spec fn has_substring(s: Seq<char>, t: Seq<char>) -> bool {
    exists|p: int| 0 <= p && p + t.len() <= s.len() && #[trigger] s.subrange(p, p + t.len()) == t
}

/// A field name that the naming templates can always keep apart: nonempty
/// and not itself embedding the `_by_` infix that the templates insert.
pub open spec fn plain_name(s: Seq<char>) -> bool {
    s.len() >= 1 && !has_substring(s, by_infix())
}

/// Pairwise-distinct field names.
pub open spec fn distinct_names(names: Seq<Seq<char>>) -> bool {
    forall|i: int, j: int|
        0 <= i < names.len() && 0 <= j < names.len() && i != j ==> names[i] != names[j]
}

/// The characters of the fixed template pieces.
proof fn lemma_literal_chars()
    ensures
        get_prefix() == seq!['g', 'e', 't', '_'],
        update_prefix() == seq!['u', 'p', 'd', 'a', 't', 'e', '_'],
        delete_prefix() == seq!['d', 'e', 'l', 'e', 't', 'e', '_'],
        by_marker() == seq!['b', 'y', '_'],
        plural_by() == seq!['s', '_', 'b', 'y', '_'],
        all_suffix() == seq!['a', 'l', 'l'],
        insert_name() == seq!['i', 'n', 's', 'e', 'r', 't'],
        by_infix() == seq!['_', 'b', 'y', '_'],
{
    reveal_strlit("get_");
    reveal_strlit("update_");
    reveal_strlit("delete_");
    reveal_strlit("by_");
    reveal_strlit("s_by_");
    reveal_strlit("all");
    reveal_strlit("insert");
    reveal_strlit("_by_");
    assert(get_prefix() =~= seq!['g', 'e', 't', '_']);
    assert(update_prefix() =~= seq!['u', 'p', 'd', 'a', 't', 'e', '_']);
    assert(delete_prefix() =~= seq!['d', 'e', 'l', 'e', 't', 'e', '_']);
    assert(by_marker() =~= seq!['b', 'y', '_']);
    assert(plural_by() =~= seq!['s', '_', 'b', 'y', '_']);
    assert(all_suffix() =~= seq!['a', 'l', 'l']);
    assert(insert_name() =~= seq!['i', 'n', 's', 'e', 'r', 't']);
    assert(by_infix() =~= seq!['_', 'b', 'y', '_']);
}

/// Concatenation with a common prefix is injective.
proof fn lemma_prefix_cancel(p: Seq<char>, x: Seq<char>, y: Seq<char>)
    requires
        p + x == p + y,
    ensures
        x == y,
{
    let a = p + x;
    let b = p + y;
    assert(a.len() == p.len() + x.len());
    assert(b.len() == p.len() + y.len());
    assert(x.len() == y.len());
    assert forall|k: int| 0 <= k < x.len() implies x[k] == y[k] by {
        assert(a[p.len() + k] == x[k]);
        assert(b[p.len() + k] == y[k]);
        assert(a[p.len() + k] == b[p.len() + k]);
    }
    assert(x =~= y);
}

/// One direction of the separator cancellation: with the shorter (or equal)
/// first part on the left, the parts before the `s_by_` separator agree.
proof fn lemma_sep_cancel_le(f: Seq<char>, g: Seq<char>, f2: Seq<char>, g2: Seq<char>)
    requires
        plain_name(f2),
        f.len() <= f2.len(),
        f + plural_by() + g == f2 + plural_by() + g2,
    ensures
        f == f2,
{
    lemma_literal_chars();
    let x = f + plural_by() + g;
    let x2 = f2 + plural_by() + g2;
    let fl = f.len() as int;
    let f2l = f2.len() as int;
    if fl == f2l {
        assert forall|k: int| 0 <= k < fl implies f[k] == f2[k] by {
            assert(x[k] == f[k]);
            assert(x2[k] == f2[k]);
        }
        assert(f =~= f2);
    } else {
        let d = f2l - fl;
        if d >= 5 {
            // the whole separator, `_by_` included, falls inside `f2`
            assert(f2.subrange(fl + 1, fl + 1 + 4) == by_infix()) by {
                assert forall|m: int| 0 <= m < 4 implies f2.subrange(fl + 1, fl + 1 + 4)[m]
                    == by_infix()[m] by {
                    assert(x[fl + 1 + m] == plural_by()[1 + m]);
                    assert(x2[fl + 1 + m] == f2[fl + 1 + m]);
                }
                assert(f2.subrange(fl + 1, fl + 1 + 4) =~= by_infix());
            }
            assert(0 <= fl + 1 && fl + 1 + by_infix().len() <= f2.len());
            assert(f2.subrange(fl + 1, fl + 1 + by_infix().len() as int) == by_infix());
            assert(has_substring(f2, by_infix()));
            assert(false);
        } else {
            // the two separator occurrences would overlap, but `s_by_`
            // repeats no character at distances one to four
            assert(x2[f2l] == plural_by()[0]);
            assert(x[fl + d] == plural_by()[d]);
            assert(false);
        }
    }
}

/// Cancelling around the `s_by_` separator: equal separated concatenations
/// of separator-free names have equal parts.
proof fn lemma_sep_cancel(f: Seq<char>, g: Seq<char>, f2: Seq<char>, g2: Seq<char>)
    requires
        plain_name(f),
        plain_name(f2),
        f + plural_by() + g == f2 + plural_by() + g2,
    ensures
        f == f2,
        g == g2,
{
    if f.len() <= f2.len() {
        lemma_sep_cancel_le(f, g, f2, g2);
    } else {
        lemma_sep_cancel_le(f2, g2, f, g);
    }
    assert(f + plural_by() + g == f + plural_by() + g2);
    lemma_prefix_cancel(f + plural_by(), g, g2);
}

/// A separated pair never collides with a `by_`-marked single name.
proof fn lemma_sep_vs_by(f: Seq<char>, g: Seq<char>, f2: Seq<char>)
    requires
        plain_name(f),
        plain_name(f2),
    ensures
        f + plural_by() + g != by_marker() + f2,
{
    lemma_literal_chars();
    if f + plural_by() + g == by_marker() + f2 {
        let x = f + plural_by() + g;
        let x2 = by_marker() + f2;
        let fl = f.len() as int;
        assert((f + plural_by()).len() == fl + 5);
        assert(x.len() == fl + 5 + g.len());
        assert(x2.len() == 3 + f2.len());
        if fl == 1 {
            assert(x[1] == plural_by()[0]);
            assert(x2[1] == by_marker()[1]);
            assert(false);
        } else if fl == 2 {
            assert(x[2] == plural_by()[0]);
            assert(x2[2] == by_marker()[2]);
            assert(false);
        } else {
            // `f` itself starts with `by_`, so `f2` embeds `_by_`
            let p = fl - 2;
            assert(f2.subrange(p, p + 4) == by_infix()) by {
                assert forall|m: int| 0 <= m < 4 implies f2.subrange(p, p + 4)[m]
                    == by_infix()[m] by {
                    assert(x[fl + 1 + m] == (f + plural_by())[fl + 1 + m]);
                    assert((f + plural_by())[fl + 1 + m] == plural_by()[1 + m]);
                    assert(x2[3 + p + m] == f2[p + m]);
                    assert(f2.subrange(p, p + 4)[m] == f2[p + m]);
                }
                assert(f2.subrange(p, p + 4) =~= by_infix());
            }
            assert(0 <= p && p + by_infix().len() <= f2.len());
            assert(f2.subrange(p, p + by_infix().len() as int) == by_infix());
            assert(has_substring(f2, by_infix()));
            assert(false);
        }
    }
}

/// A separated pair never collides with the `all` suffix: it is longer.
proof fn lemma_sep_vs_all(f: Seq<char>, g: Seq<char>)
    ensures
        f + plural_by() + g != all_suffix(),
{
    lemma_literal_chars();
    if f + plural_by() + g == all_suffix() {
        assert((f + plural_by() + g).len() == f.len() + 5 + g.len());
        assert(false);
    }
}

/// A `by_`-marked name never collides with the `all` suffix: the first
/// characters differ.
#[verifier::rlimit(50)]
proof fn lemma_by_vs_all(f: Seq<char>)
    ensures
        by_marker() + f != all_suffix(),
{
    lemma_literal_chars();
    if by_marker() + f == all_suffix() {
        assert((by_marker() + f)[0] == by_marker()[0]);
        assert(false);
    }
}


/// The first character of every generated name, by operation kind: the
/// read accessors start with `g`, the updates with `u`, the deletes with
/// `d`, the insertion with `i`.
proof fn lemma_name_head(names: Seq<Seq<char>>, op: OperationSpec)
    ensures
        kind_of(op) == OperationKind::GetBy || kind_of(op) == OperationKind::GetRecord || kind_of(
            op,
        ) == OperationKind::GetAll ==> op_name(names, op).len() >= 1 && op_name(names, op)[0]
            == 'g',
        kind_of(op) == OperationKind::Update ==> op_name(names, op).len() >= 1 && op_name(
            names,
            op,
        )[0] == 'u',
        kind_of(op) == OperationKind::DeleteBy || kind_of(op) == OperationKind::DeleteAll
            ==> op_name(names, op).len() >= 1 && op_name(names, op)[0] == 'd',
        kind_of(op) == OperationKind::Insert ==> op_name(names, op).len() >= 1 && op_name(
            names,
            op,
        )[0] == 'i',
{
    lemma_literal_chars();
    match op {
        OperationSpec::GetBy { return_field, filter_field } => {
            let n1 = names[return_field as int];
            let n2 = names[filter_field as int];
            assert((get_prefix() + n1)[0] == get_prefix()[0]);
            assert((get_prefix() + n1 + plural_by())[0] == (get_prefix() + n1)[0]);
            assert((get_prefix() + n1 + plural_by() + n2)[0] == (get_prefix() + n1
                + plural_by())[0]);
        },
        OperationSpec::GetRecord { filter_field } => {
            let n1 = names[filter_field as int];
            assert((get_prefix() + by_marker())[0] == get_prefix()[0]);
            assert((get_prefix() + by_marker() + n1)[0] == (get_prefix() + by_marker())[0]);
        },
        OperationSpec::Update { target_field, filter_field } => {
            let n1 = names[target_field as int];
            let n2 = names[filter_field as int];
            assert((update_prefix() + n1)[0] == update_prefix()[0]);
            assert((update_prefix() + n1 + plural_by())[0] == (update_prefix() + n1)[0]);
            assert((update_prefix() + n1 + plural_by() + n2)[0] == (update_prefix() + n1
                + plural_by())[0]);
        },
        OperationSpec::DeleteBy { filter_field } => {
            let n1 = names[filter_field as int];
            assert((delete_prefix() + by_marker())[0] == delete_prefix()[0]);
            assert((delete_prefix() + by_marker() + n1)[0] == (delete_prefix() + by_marker())[0]);
        },
        OperationSpec::Insert => {
        },
        OperationSpec::GetAll => {
            assert((get_prefix() + all_suffix())[0] == get_prefix()[0]);
        },
        OperationSpec::DeleteAll => {
            assert((delete_prefix() + all_suffix())[0] == delete_prefix()[0]);
        },
    }
}

/// Distinct valid operations get distinct generated names, as long as the
/// schema's field names are pairwise distinct and separator-free.
proof fn lemma_distinct_ops_distinct_names(
    names: Seq<Seq<char>>,
    a: OperationSpec,
    b: OperationSpec,
)
    requires
        names.len() <= usize::MAX,
        forall|i: int| 0 <= i < names.len() ==> plain_name(#[trigger] names[i]),
        distinct_names(names),
        op_valid(a, names.len() as usize),
        op_valid(b, names.len() as usize),
        a != b,
    ensures
        op_name(names, a) != op_name(names, b),
{
    lemma_literal_chars();
    lemma_name_head(names, a);
    lemma_name_head(names, b);
    if op_name(names, a) == op_name(names, b) {
        match (a, b) {
            (
                OperationSpec::GetBy { return_field: i1, filter_field: j1 },
                OperationSpec::GetBy { return_field: i2, filter_field: j2 },
            ) => {
                let x = names[i1 as int] + plural_by() + names[j1 as int];
                let y = names[i2 as int] + plural_by() + names[j2 as int];
                assert(op_name(names, a) =~= get_prefix() + x);
                assert(op_name(names, b) =~= get_prefix() + y);
                lemma_prefix_cancel(get_prefix(), x, y);
                lemma_sep_cancel(
                    names[i1 as int],
                    names[j1 as int],
                    names[i2 as int],
                    names[j2 as int],
                );
                assert(i1 == i2 && j1 == j2);
                assert(false);
            },
            (
                OperationSpec::GetBy { return_field: i1, filter_field: j1 },
                OperationSpec::GetRecord { filter_field: j2 },
            ) => {
                let x = names[i1 as int] + plural_by() + names[j1 as int];
                let y = by_marker() + names[j2 as int];
                assert(op_name(names, a) =~= get_prefix() + x);
                assert(op_name(names, b) =~= get_prefix() + y);
                lemma_prefix_cancel(get_prefix(), x, y);
                lemma_sep_vs_by(names[i1 as int], names[j1 as int], names[j2 as int]);
                assert(false);
            },
            (
                OperationSpec::GetRecord { filter_field: j2 },
                OperationSpec::GetBy { return_field: i1, filter_field: j1 },
            ) => {
                let x = names[i1 as int] + plural_by() + names[j1 as int];
                let y = by_marker() + names[j2 as int];
                assert(op_name(names, b) =~= get_prefix() + x);
                assert(op_name(names, a) =~= get_prefix() + y);
                lemma_prefix_cancel(get_prefix(), x, y);
                lemma_sep_vs_by(names[i1 as int], names[j1 as int], names[j2 as int]);
                assert(false);
            },
            (
                OperationSpec::GetBy { return_field: i1, filter_field: j1 },
                OperationSpec::GetAll,
            ) => {
                let x = names[i1 as int] + plural_by() + names[j1 as int];
                assert(op_name(names, a) =~= get_prefix() + x);
                lemma_prefix_cancel(get_prefix(), x, all_suffix());
                lemma_sep_vs_all(names[i1 as int], names[j1 as int]);
                assert(false);
            },
            (
                OperationSpec::GetAll,
                OperationSpec::GetBy { return_field: i1, filter_field: j1 },
            ) => {
                let x = names[i1 as int] + plural_by() + names[j1 as int];
                assert(op_name(names, b) =~= get_prefix() + x);
                lemma_prefix_cancel(get_prefix(), x, all_suffix());
                lemma_sep_vs_all(names[i1 as int], names[j1 as int]);
                assert(false);
            },
            (
                OperationSpec::GetRecord { filter_field: j1 },
                OperationSpec::GetRecord { filter_field: j2 },
            ) => {
                lemma_prefix_cancel(
                    get_prefix() + by_marker(),
                    names[j1 as int],
                    names[j2 as int],
                );
                assert(j1 == j2);
                assert(false);
            },
            (OperationSpec::GetRecord { filter_field: j1 }, OperationSpec::GetAll) => {
                let y = by_marker() + names[j1 as int];
                assert(op_name(names, a) =~= get_prefix() + y);
                lemma_prefix_cancel(get_prefix(), y, all_suffix());
                lemma_by_vs_all(names[j1 as int]);
                assert(false);
            },
            (OperationSpec::GetAll, OperationSpec::GetRecord { filter_field: j1 }) => {
                let y = by_marker() + names[j1 as int];
                assert(op_name(names, b) =~= get_prefix() + y);
                lemma_prefix_cancel(get_prefix(), y, all_suffix());
                lemma_by_vs_all(names[j1 as int]);
                assert(false);
            },
            (
                OperationSpec::Update { target_field: i1, filter_field: j1 },
                OperationSpec::Update { target_field: i2, filter_field: j2 },
            ) => {
                let x = names[i1 as int] + plural_by() + names[j1 as int];
                let y = names[i2 as int] + plural_by() + names[j2 as int];
                assert(op_name(names, a) =~= update_prefix() + x);
                assert(op_name(names, b) =~= update_prefix() + y);
                lemma_prefix_cancel(update_prefix(), x, y);
                lemma_sep_cancel(
                    names[i1 as int],
                    names[j1 as int],
                    names[i2 as int],
                    names[j2 as int],
                );
                assert(i1 == i2 && j1 == j2);
                assert(false);
            },
            (
                OperationSpec::DeleteBy { filter_field: j1 },
                OperationSpec::DeleteBy { filter_field: j2 },
            ) => {
                lemma_prefix_cancel(
                    delete_prefix() + by_marker(),
                    names[j1 as int],
                    names[j2 as int],
                );
                assert(j1 == j2);
                assert(false);
            },
            (OperationSpec::DeleteBy { filter_field: j1 }, OperationSpec::DeleteAll) => {
                let y = by_marker() + names[j1 as int];
                assert(op_name(names, a) =~= delete_prefix() + y);
                lemma_prefix_cancel(delete_prefix(), y, all_suffix());
                lemma_by_vs_all(names[j1 as int]);
                assert(false);
            },
            (OperationSpec::DeleteAll, OperationSpec::DeleteBy { filter_field: j1 }) => {
                let y = by_marker() + names[j1 as int];
                assert(op_name(names, b) =~= delete_prefix() + y);
                lemma_prefix_cancel(delete_prefix(), y, all_suffix());
                lemma_by_vs_all(names[j1 as int]);
                assert(false);
            },
            _ => {
                assert(false);
            },
        }
    }
}

/// Name injectivity: over a schema whose field names are pairwise distinct,
/// nonempty and free of the `_by_` infix, every two distinct positions of
/// the generated operation sequence carry distinct generated names.
pub proof fn lemma_operation_names_injective(names: Seq<Seq<char>>, n: usize)
    requires
        names.len() == n,
        forall|i: int| 0 <= i < names.len() ==> plain_name(#[trigger] names[i]),
        distinct_names(names),
    ensures
        forall|k: int, l: int|
            0 <= k < op_sequence(n).len() && 0 <= l < op_sequence(n).len() && k != l ==> op_name(
                names,
                #[trigger] op_sequence(n)[k],
            ) != op_name(names, #[trigger] op_sequence(n)[l]),
{
    lemma_op_sequence_valid(n);
    assert forall|k: int, l: int|
        0 <= k < op_sequence(n).len() && 0 <= l < op_sequence(n).len() && k != l implies op_name(
        names,
        #[trigger] op_sequence(n)[k],
    ) != op_name(names, #[trigger] op_sequence(n)[l]) by {
        assert(op_sequence(n)[k] != op_sequence(n)[l]);
        assert(op_valid(op_sequence(n)[k], n));
        assert(op_valid(op_sequence(n)[l], n));
        lemma_distinct_ops_distinct_names(names, op_sequence(n)[k], op_sequence(n)[l]);
    }
}


/// One synthesized parameter of a generated operation: its name and the
/// name of its type.
pub struct Parameter {
    /// The parameter's name.
    pub name: String,
    /// The name of the parameter's type.
    pub ty: String,
}

/// Lowercasing of one character, for the ASCII range.
pub open spec fn lower_char(c: char) -> char {
    if 'A' <= c && c <= 'Z' {
        (((c as u8) + 32) as char)
    } else {
        c
    }
}

/// Character-wise ASCII lowercasing.
pub open spec fn lower_seq(s: Seq<char>) -> Seq<char> {
    s.map_values(|c: char| lower_char(c))
}

/// Relies on String::push: appends the one character to the end of the
/// string.
#[verifier::external_body]
fn push_char(s: &mut String, c: char)
    ensures
        final(s)@ == old(s)@.push(c),
{
    s.push(c);
}

/// Lowercases the ASCII uppercase characters of a string and keeps every
/// other character as it is.
pub fn ascii_lowercase(s: &str) -> (r: String)
    ensures
        r@ == lower_seq(s@),
{
    let len = s.unicode_len();
    let mut r = String::new();
    let mut k: usize = 0;
    while k < len
        invariant
            k <= len,
            len == s@.len(),
            r@ == lower_seq(s@).subrange(0, k as int),
        decreases len - k,
    {
        let c = s.get_char(k);
        let lc = if 'A' <= c && c <= 'Z' {
            ((c as u8) + 32) as char
        } else {
            c
        };
        push_char(&mut r, lc);
        k += 1;
        assert(r@ =~= lower_seq(s@).subrange(0, k as int));
    }
    assert(r@ =~= lower_seq(s@));
    r
}

/// The name of the filter-value parameter for filtering on the given
/// field.
pub open spec fn query_param_name(field: Seq<char>) -> Seq<char> {
    "query_"@ + field
}

/// The name of the new-value parameter for updating the given field.
pub open spec fn new_param_name(field: Seq<char>) -> Seq<char> {
    "new_"@ + field
}

/// The name of the companion shape that the insertion operation takes, by
/// convention `New` followed by the record's name.
pub open spec fn companion_type_name(record: Seq<char>) -> Seq<char> {
    "New"@ + record
}

/// The name of the insertion operation's parameter: `new_` followed by the
/// lowercased record name.
pub open spec fn insert_param_name(record: Seq<char>) -> Seq<char> {
    "new_"@ + lower_seq(record)
}

/// The parameters of one operation, in order, each as its name and the
/// name of its type: a filter value for every filtering operation, then
/// the new value for an update; the companion value for an insertion; and
/// nothing for the whole-table operations.
pub open spec fn op_parameters(
    names: Seq<Seq<char>>,
    types: Seq<Seq<char>>,
    record: Seq<char>,
    op: OperationSpec,
) -> Seq<(Seq<char>, Seq<char>)> {
    match op {
        OperationSpec::GetBy { return_field, filter_field } => seq![
            (query_param_name(names[filter_field as int]), types[filter_field as int]),
        ],
        OperationSpec::GetRecord { filter_field } => seq![
            (query_param_name(names[filter_field as int]), types[filter_field as int]),
        ],
        OperationSpec::Update { target_field, filter_field } => seq![
            (query_param_name(names[filter_field as int]), types[filter_field as int]),
            (new_param_name(names[target_field as int]), types[target_field as int]),
        ],
        OperationSpec::DeleteBy { filter_field } => seq![
            (query_param_name(names[filter_field as int]), types[filter_field as int]),
        ],
        OperationSpec::Insert => seq![(insert_param_name(record), companion_type_name(record))],
        OperationSpec::GetAll => seq![],
        OperationSpec::DeleteAll => seq![],
    }
}

/// Synthesizes the parameter list of one operation of the schema.
pub fn operation_parameters(schema: &RecordSchema, op: &OperationSpec) -> (r: Vec<Parameter>)
    requires
        op_valid(*op, schema.fields@.len() as usize),
    ensures
        r@.map_values(|p: Parameter| (p.name@, p.ty@)) == op_parameters(
            schema.field_names(),
            schema.field_types(),
            schema.name@,
            *op,
        ),
{
    proof {
        assert(forall|k: int|
            0 <= k < schema.fields@.len() ==> #[trigger] schema.field_names()[k]
                == schema.fields@[k].name@);
        assert(forall|k: int|
            0 <= k < schema.fields@.len() ==> #[trigger] schema.field_types()[k]
                == schema.fields@[k].ty@);
    }
    let mut r: Vec<Parameter> = Vec::new();
    match op {
        OperationSpec::GetBy { return_field: _, filter_field } => {
            let mut name = String::from_str("query_");
            name.append(schema.fields[*filter_field].name.as_str());
            r.push(Parameter { name, ty: schema.fields[*filter_field].ty.clone() });
        },
        OperationSpec::GetRecord { filter_field } => {
            let mut name = String::from_str("query_");
            name.append(schema.fields[*filter_field].name.as_str());
            r.push(Parameter { name, ty: schema.fields[*filter_field].ty.clone() });
        },
        OperationSpec::Update { target_field, filter_field } => {
            let mut name = String::from_str("query_");
            name.append(schema.fields[*filter_field].name.as_str());
            r.push(Parameter { name, ty: schema.fields[*filter_field].ty.clone() });
            let mut new_name = String::from_str("new_");
            new_name.append(schema.fields[*target_field].name.as_str());
            r.push(Parameter { name: new_name, ty: schema.fields[*target_field].ty.clone() });
        },
        OperationSpec::DeleteBy { filter_field } => {
            let mut name = String::from_str("query_");
            name.append(schema.fields[*filter_field].name.as_str());
            r.push(Parameter { name, ty: schema.fields[*filter_field].ty.clone() });
        },
        OperationSpec::Insert => {
            let mut name = String::from_str("new_");
            let lowered = ascii_lowercase(schema.name.as_str());
            name.append(lowered.as_str());
            let mut ty = String::from_str("New");
            ty.append(schema.name.as_str());
            r.push(Parameter { name, ty });
        },
        OperationSpec::GetAll => {
        },
        OperationSpec::DeleteAll => {
        },
    }
    proof {
        assert(r@.map_values(|p: Parameter| (p.name@, p.ty@)) =~= op_parameters(
            schema.field_names(),
            schema.field_types(),
            schema.name@,
            *op,
        ));
    }
    r
}

} // verus!
