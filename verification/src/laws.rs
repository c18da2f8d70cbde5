use vstd::prelude::*;

use crate::gas::GasOpKind;
use crate::gas::StorageGasUsed;

verus! {

/// One recorded charge: the gas amount and the operation kind it was
/// attributed to.
pub struct Charge {
    pub amount: u64,
    pub kind: GasOpKind,
}

/// The counter after the charges of `cs` are applied in order, starting
/// from `u`.
pub open spec fn apply_charges(u: StorageGasUsed, cs: Seq<Charge>) -> StorageGasUsed
    decreases cs.len(),
{
    if cs.len() == 0 {
        u
    } else {
        apply_charges(u, cs.drop_last()).charged(cs.last().amount as int, cs.last().kind)
    }
}

/// The sum of the gas amounts of `cs`.
pub open spec fn sum_amounts(cs: Seq<Charge>) -> int
    decreases cs.len(),
{
    if cs.len() == 0 {
        0int
    } else {
        sum_amounts(cs.drop_last()) + cs.last().amount
    }
}

/// How many charges of `cs` are attributed to `kind`.
pub open spec fn count_kind(cs: Seq<Charge>, kind: GasOpKind) -> int
    decreases cs.len(),
{
    if cs.len() == 0 {
        0int
    } else {
        count_kind(cs.drop_last(), kind) + if cs.last().kind == kind {
            1int
        } else {
            0int
        }
    }
}

/// Gas amounts are never negative, so no prefix of a charge sequence sums
/// to more than the whole.
proof fn lemma_sum_amounts_nonneg(cs: Seq<Charge>)
    ensures
        sum_amounts(cs) >= 0,
    decreases cs.len(),
{
    if cs.len() > 0 {
        lemma_sum_amounts_nonneg(cs.drop_last());
    }
}

/// Law: for any sequence of charges applied in order to a counter, `total`
/// ends at the starting total plus the sum of the amounts, each per-kind
/// tally moves up by exactly the number of charges of its kind, and, when
/// at least one charge was applied, `last` ends at the final charge's
/// amount — provided the running figures never outgrow the counter width.
pub proof fn lemma_apply_charges(u: StorageGasUsed, cs: Seq<Charge>, kind: GasOpKind)
    requires
        u.total + sum_amounts(cs) <= u64::MAX,
        u.count_of(kind) + cs.len() <= u64::MAX,
    ensures
        apply_charges(u, cs).total == u.total + sum_amounts(cs),
        apply_charges(u, cs).count_of(kind) == u.count_of(kind) + count_kind(cs, kind),
        cs.len() > 0 ==> apply_charges(u, cs).last == cs.last().amount,
        cs.len() == 0 ==> apply_charges(u, cs) == u,
    decreases cs.len(),
{
    if cs.len() > 0 {
        lemma_sum_amounts_nonneg(cs.drop_last());
        lemma_count_kind_le_len(cs.drop_last(), kind);
        lemma_apply_charges(u, cs.drop_last(), kind);
    }
}

/// One more operation extends the record by one charge: applying
/// `cs.push(c)` is applying `cs` and then charging `c`, which is exactly
/// what each storage operation's own contract states of the counter.
pub proof fn lemma_apply_charges_push(u: StorageGasUsed, cs: Seq<Charge>, c: Charge)
    ensures
        apply_charges(u, cs.push(c)) == apply_charges(u, cs).charged(c.amount as int, c.kind),
        sum_amounts(cs.push(c)) == sum_amounts(cs) + c.amount,
        count_kind(cs.push(c), c.kind) == count_kind(cs, c.kind) + 1,
{
    assert(cs.push(c).drop_last() =~= cs);
}

/// A per-kind tally over a charge sequence never exceeds its length.
proof fn lemma_count_kind_le_len(cs: Seq<Charge>, kind: GasOpKind)
    ensures
        0 <= count_kind(cs, kind) <= cs.len(),
    decreases cs.len(),
{
    if cs.len() > 0 {
        lemma_count_kind_le_len(cs.drop_last(), kind);
    }
}

/// Law: zeroing the running bill commutes with the operation history.
/// Resetting after a sequence of charges leaves exactly the counter whose
/// total is zero and whose `last` and per-kind tallies are those the
/// charges produced.
pub proof fn lemma_reset_keeps_history(u: StorageGasUsed)
    ensures
        u.reset().total == 0,
        u.reset().last == u.last,
        u.reset().read_cnt == u.read_cnt,
        u.reset().write_cnt == u.write_cnt,
        u.reset().delete_cnt == u.delete_cnt,
        u.reset().iter_next_cnt == u.iter_next_cnt,
{
}

} // verus!
