//! Z-order editing over an ordered child list.  Index 0 paints first
//! (bottom); the last index paints last and is hit-tested first.  The
//! layer and the shapes share these operations through their `Order`
//! implementations.

use vstd::prelude::*;

use crate::capability::Select;
use crate::shape::Shape;

verus! {

/// The selection predicate the reordering scans use.
pub open spec fn sel_pred() -> spec_fn(Shape) -> bool {
    |s: Shape| s.selected_spec()
}

/// Its complement.
pub open spec fn unsel_pred() -> spec_fn(Shape) -> bool {
    |s: Shape| !s.selected_spec()
}

/// The list with the neighbours at `i` and `i + 1` exchanged.
pub open spec fn swap_at(q: Seq<Shape>, i: int) -> Seq<Shape> {
    q.update(i, q[i + 1]).update(i + 1, q[i])
}

/// One step of the forward scan: a selected child directly below an
/// unselected one moves up one place.
pub open spec fn fwd_step(q: Seq<Shape>, i: int) -> Seq<Shape> {
    if 0 <= i && i + 1 < q.len() && q[i].selected_spec() && !q[i + 1].selected_spec() {
        swap_at(q, i)
    } else {
        q
    }
}

/// The forward scan applied at indices `k - 1`, `k - 2`, ..., `0`, in
/// that order, each step seeing the effect of the previous one.
pub open spec fn fwd_pass(q: Seq<Shape>, k: nat) -> Seq<Shape>
    decreases k,
{
    if k == 0 {
        q
    } else {
        fwd_pass(fwd_step(q, k - 1), (k - 1) as nat)
    }
}

/// What `move_selected_children_forward` leaves behind.
pub open spec fn move_selected_forward_spec(q: Seq<Shape>) -> Seq<Shape> {
    if q.len() < 2 {
        q
    } else {
        fwd_pass(q, (q.len() - 1) as nat)
    }
}

/// One step of the backward scan: a selected child directly above an
/// unselected one moves down one place.
pub open spec fn bwd_step(q: Seq<Shape>, i: int) -> Seq<Shape> {
    if 1 <= i && i < q.len() && q[i].selected_spec() && !q[i - 1].selected_spec() {
        swap_at(q, i - 1)
    } else {
        q
    }
}

/// The backward scan applied at indices `i`, `i + 1`, ..., `len - 1`.
pub open spec fn bwd_pass(q: Seq<Shape>, i: nat) -> Seq<Shape>
    decreases q.len() - i,
{
    if i >= q.len() {
        q
    } else {
        bwd_pass(bwd_step(q, i as int), i + 1)
    }
}

/// What `move_selected_children_backward` leaves behind.
pub open spec fn move_selected_backward_spec(q: Seq<Shape>) -> Seq<Shape> {
    if q.len() < 2 {
        q
    } else {
        bwd_pass(q, 1)
    }
}

/// Exchange the children at `index` and `index + 1`; refused at the top
/// of the list or out of bounds.
pub fn move_child_forward(children: &mut Vec<Shape>, index: usize) -> (r: bool)
    ensures
        r == (index + 1 < old(children)@.len()),
        r ==> final(children)@ == swap_at(old(children)@, index as int),
        !r ==> final(children)@ == old(children)@,
{
    let len = children.len();
    if len < 2 || index >= len - 1 {
        return false;
    }
    let shape = children.remove(index);
    children.insert(index + 1, shape);
    proof {
        assert(children@ =~= swap_at(old(children)@, index as int));
    }
    true
}

/// Exchange the children at `index` and `index - 1`; refused at the
/// bottom of the list or out of bounds.
pub fn move_child_backward(children: &mut Vec<Shape>, index: usize) -> (r: bool)
    ensures
        r == (1 <= index && index < old(children)@.len()),
        r ==> final(children)@ == swap_at(old(children)@, index - 1),
        !r ==> final(children)@ == old(children)@,
{
    let len = children.len();
    if index == 0 || index >= len {
        return false;
    }
    let shape = children.remove(index);
    children.insert(index - 1, shape);
    proof {
        assert(children@ =~= swap_at(old(children)@, index - 1));
    }
    true
}

/// Move the child at `index` to the top of the list, keeping everything
/// else in order; refused when it is already topmost or out of bounds.
pub fn move_child_to_front(children: &mut Vec<Shape>, index: usize) -> (r: bool)
    ensures
        r == (index + 1 < old(children)@.len()),
        r ==> final(children)@ == old(children)@.remove(index as int).push(old(children)@[index as int]),
        !r ==> final(children)@ == old(children)@,
{
    let len = children.len();
    if len < 2 || index >= len - 1 {
        return false;
    }
    let shape = children.remove(index);
    children.push(shape);
    true
}

/// Move the child at `index` to the bottom of the list, keeping
/// everything else in order; refused when it is already at the bottom or
/// out of bounds.
pub fn move_child_to_rear(children: &mut Vec<Shape>, index: usize) -> (r: bool)
    ensures
        r == (1 <= index && index < old(children)@.len()),
        r ==> final(children)@ == old(children)@.remove(index as int).insert(
            0,
            old(children)@[index as int],
        ),
        !r ==> final(children)@ == old(children)@,
{
    let len = children.len();
    if index == 0 || index >= len {
        return false;
    }
    let shape = children.remove(index);
    children.insert(0, shape);
    true
}

/// One forward scan over the list: every selected child directly below
/// an unselected one moves up one place, so a contiguous selected block
/// advances one step per call.
pub fn move_selected_children_forward(children: &mut Vec<Shape>)
    ensures
        final(children)@ == move_selected_forward_spec(old(children)@),
{
    let ghost orig = children@;
    let len = children.len();
    if len < 2 {
        return;
    }
    let mut i: usize = len - 1;
    while i > 0
        invariant
            children@.len() == orig.len(),
            orig.len() >= 2,
            0 <= i <= orig.len() - 1,
            fwd_pass(orig, (orig.len() - 1) as nat) == fwd_pass(children@, i as nat),
        decreases i,
    {
        i = i - 1;
        let ghost before = children@;
        let hit = {
            let lo = children[i].is_selected();
            let hi = children[i + 1].is_selected();
            lo && !hi
        };
        if hit {
            let shape = children.remove(i);
            children.insert(i + 1, shape);
            proof {
                assert(children@ =~= swap_at(before, i as int));
            }
        }
        proof {
            assert(children@ == fwd_step(before, i as int));
            assert(fwd_pass(before, (i + 1) as nat) == fwd_pass(children@, i as nat));
        }
    }
}

/// One backward scan over the list: every selected child directly above
/// an unselected one moves down one place.
pub fn move_selected_children_backward(children: &mut Vec<Shape>)
    ensures
        final(children)@ == move_selected_backward_spec(old(children)@),
{
    let ghost orig = children@;
    let len = children.len();
    if len < 2 {
        return;
    }
    let mut i: usize = 1;
    while i < children.len()
        invariant
            children@.len() == orig.len(),
            orig.len() >= 2,
            1 <= i,
            bwd_pass(orig, 1) == bwd_pass(children@, i as nat),
        decreases children@.len() - i,
    {
        let ghost before = children@;
        let hit = {
            let hi = children[i].is_selected();
            let lo = children[i - 1].is_selected();
            hi && !lo
        };
        if hit {
            let shape = children.remove(i);
            children.insert(i - 1, shape);
            proof {
                assert(children@ =~= swap_at(before, i - 1));
            }
        }
        proof {
            assert(children@ == bwd_step(before, i as int));
            assert(bwd_pass(before, i as nat) == bwd_pass(children@, (i + 1) as nat));
        }
        i = i + 1;
    }
}

/// Extract every selected child, keeping relative order, and re-append
/// the block at the top of the list.
pub fn move_selected_children_to_front(children: &mut Vec<Shape>)
    ensures
        final(children)@ == old(children)@.filter(unsel_pred()) + old(children)@.filter(sel_pred()),
{
    let ghost orig = children@;
    let mut kept: Vec<Shape> = Vec::new();
    let mut picked: Vec<Shape> = Vec::new();
    proof {
        broadcast use vstd::seq_lib::group_filter_ensures;

        assert(orig.take(0) =~= Seq::<Shape>::empty());
        assert(Seq::<Shape>::empty().filter(unsel_pred()) =~= Seq::<Shape>::empty());
        assert(Seq::<Shape>::empty().filter(sel_pred()) =~= Seq::<Shape>::empty());
    }
    let ghost mut done: int = 0;
    while children.len() > 0
        invariant
            0 <= done <= orig.len(),
            children@ =~= orig.skip(done),
            kept@ =~= orig.take(done).filter(unsel_pred()),
            picked@ =~= orig.take(done).filter(sel_pred()),
        decreases children@.len(),
    {
        let s = children.remove(0);
        let is_sel = s.is_selected();
        proof {
            assert(s == orig[done]);
            assert(orig.take(done + 1) =~= orig.take(done).push(orig[done]));
            Seq::lemma_filter_push(orig.take(done), orig[done], unsel_pred());
            Seq::lemma_filter_push(orig.take(done), orig[done], sel_pred());
        }
        if is_sel {
            picked.push(s);
        } else {
            kept.push(s);
        }
        proof {
            assert(children@ =~= orig.skip(done + 1));
            done = done + 1;
        }
    }
    proof {
        assert(orig.take(done) =~= orig);
    }
    children.append(&mut kept);
    children.append(&mut picked);
    proof {
        assert(children@ =~= orig.filter(unsel_pred()) + orig.filter(sel_pred()));
    }
}

/// Extract every selected child, keeping relative order, and re-insert
/// the block at the bottom of the list.
pub fn move_selected_children_to_rear(children: &mut Vec<Shape>)
    ensures
        final(children)@ == old(children)@.filter(sel_pred()) + old(children)@.filter(unsel_pred()),
{
    let ghost orig = children@;
    let mut kept: Vec<Shape> = Vec::new();
    let mut picked: Vec<Shape> = Vec::new();
    proof {
        broadcast use vstd::seq_lib::group_filter_ensures;

        assert(orig.take(0) =~= Seq::<Shape>::empty());
        assert(Seq::<Shape>::empty().filter(unsel_pred()) =~= Seq::<Shape>::empty());
        assert(Seq::<Shape>::empty().filter(sel_pred()) =~= Seq::<Shape>::empty());
    }
    let ghost mut done: int = 0;
    while children.len() > 0
        invariant
            0 <= done <= orig.len(),
            children@ =~= orig.skip(done),
            kept@ =~= orig.take(done).filter(unsel_pred()),
            picked@ =~= orig.take(done).filter(sel_pred()),
        decreases children@.len(),
    {
        let s = children.remove(0);
        let is_sel = s.is_selected();
        proof {
            assert(s == orig[done]);
            assert(orig.take(done + 1) =~= orig.take(done).push(orig[done]));
            Seq::lemma_filter_push(orig.take(done), orig[done], unsel_pred());
            Seq::lemma_filter_push(orig.take(done), orig[done], sel_pred());
        }
        if is_sel {
            picked.push(s);
        } else {
            kept.push(s);
        }
        proof {
            assert(children@ =~= orig.skip(done + 1));
            done = done + 1;
        }
    }
    proof {
        assert(orig.take(done) =~= orig);
    }
    children.append(&mut picked);
    children.append(&mut kept);
    proof {
        assert(children@ =~= orig.filter(sel_pred()) + orig.filter(unsel_pred()));
    }
}

/// A contiguous selected block: exactly the indices in `[lo, hi)` carry
/// the selection flag.
pub open spec fn sel_block(q: Seq<Shape>, lo: int, hi: int) -> bool {
    forall|j: int| 0 <= j < q.len() ==> (#[trigger] q[j].selected_spec() <==> lo <= j < hi)
}

/// The block advanced one place toward the top: the unselected child just
/// above it, `q[hi]`, drops below the block, and the block occupies
/// `[lo + 1, hi + 1)`.
pub open spec fn block_advanced(q: Seq<Shape>, lo: int, hi: int) -> Seq<Shape> {
    q.subrange(0, lo) + seq![q[hi]] + q.subrange(lo, hi) + q.subrange(hi + 1, q.len() as int)
}

/// The partially cascaded list after the forward scan has processed the
/// indices down to `i + 1`: everything up to `i` is untouched, the
/// unselected child `q[hi]` has sunk to position `i + 1`, and the part of
/// the block it has passed sits one place higher.
spec fn cascade(q: Seq<Shape>, hi: int, i: int) -> Seq<Shape> {
    q.subrange(0, i + 1) + seq![q[hi]] + q.subrange(i + 1, hi) + q.subrange(
        hi + 1,
        q.len() as int,
    )
}

/// Above the block nothing is selected, so the scan passes through
/// without changing anything.
proof fn lemma_fwd_pass_noop_above(q: Seq<Shape>, lo: int, hi: int, k: int)
    requires
        0 <= lo < hi < q.len(),
        sel_block(q, lo, hi),
        hi <= k <= q.len() - 1,
    ensures
        fwd_pass(q, k as nat) == fwd_pass(q, hi as nat),
    decreases k - hi,
{
    if k > hi {
        assert(!q[k - 1].selected_spec());
        assert(fwd_step(q, k - 1) == q);
        lemma_fwd_pass_noop_above(q, lo, hi, k - 1);
    }
}

/// Below the block nothing is selected either, so once the scan is past
/// the block the list no longer changes.
proof fn lemma_fwd_pass_noop_below(q: Seq<Shape>, lo: int, k: int)
    requires
        0 <= k <= lo <= q.len(),
        forall|j: int| 0 <= j < lo && j < q.len() ==> !(#[trigger] q[j].selected_spec()),
    ensures
        fwd_pass(q, k as nat) == q,
    decreases k,
{
    if k > 0 {
        assert(fwd_step(q, k - 1) == q);
        lemma_fwd_pass_noop_below(q, lo, k - 1);
    }
}

/// The cascade: at each index from `hi - 1` down to `lo` the scan swaps
/// the sinking unselected child one place further down.
proof fn lemma_fwd_cascade(q: Seq<Shape>, lo: int, hi: int, i: int)
    requires
        0 <= lo < hi < q.len(),
        sel_block(q, lo, hi),
        lo - 1 <= i <= hi - 2,
    ensures
        fwd_pass(cascade(q, hi, i), (i + 1) as nat) == cascade(q, hi, lo - 1),
    decreases i - lo + 1,
{
    let c = cascade(q, hi, i);
    assert(c.len() == q.len());
    if i < lo {
        // i == lo - 1: everything below position lo is unselected in the
        // cascaded list, so the remaining scan is a no-op.
        assert(forall|j: int| 0 <= j < lo && j < c.len() ==> !(#[trigger] c[j].selected_spec()))
            by {
            assert(forall|j: int| 0 <= j < lo ==> c[j] == q[j] && !(#[trigger] q[j].selected_spec()));
        }
        lemma_fwd_pass_noop_below(c, lo, i + 1);
    } else {
        // c[i] is still the selected child q[i]; c[i + 1] is the sinking
        // unselected child q[hi]; the step swaps them.
        assert(c[i] == q[i]);
        assert(c[i + 1] == q[hi]);
        assert(q[i].selected_spec());
        assert(!q[hi].selected_spec());
        assert(fwd_step(c, i) == swap_at(c, i));
        assert(swap_at(c, i) =~= cascade(q, hi, i - 1));
        lemma_fwd_cascade(q, lo, hi, i - 1);
        assert(fwd_pass(c, (i + 1) as nat) == fwd_pass(cascade(q, hi, i - 1), i as nat));
    }
}

/// The z-order step law: for any list with one contiguous selected block
/// that is not already topmost, one forward scan advances the block
/// exactly one position, preserving the order within the block and among
/// the unselected children.
pub proof fn lemma_move_selected_forward_block(q: Seq<Shape>, lo: int, hi: int)
    requires
        0 <= lo < hi < q.len(),
        sel_block(q, lo, hi),
    ensures
        move_selected_forward_spec(q) == block_advanced(q, lo, hi),
{
    let len = q.len() as int;
    lemma_fwd_pass_noop_above(q, lo, hi, len - 1);
    // Processing index hi - 1 performs the first swap of the cascade.
    assert(q[hi - 1].selected_spec());
    assert(!q[hi].selected_spec());
    assert(fwd_step(q, hi - 1) == swap_at(q, hi - 1));
    assert(swap_at(q, hi - 1) =~= cascade(q, hi, hi - 2));
    assert(fwd_pass(q, hi as nat) == fwd_pass(cascade(q, hi, hi - 2), (hi - 1) as nat));
    lemma_fwd_cascade(q, lo, hi, hi - 2);
    assert(cascade(q, hi, lo - 1) =~= block_advanced(q, lo, hi));
}


/// The forward scan only swaps, so it keeps the number of children.
pub proof fn lemma_fwd_pass_len(q: Seq<Shape>, k: nat)
    ensures
        fwd_pass(q, k).len() == q.len(),
    decreases k,
{
    if k != 0 {
        lemma_fwd_pass_len(fwd_step(q, k - 1), (k - 1) as nat);
    }
}

/// The backward scan only swaps, so it keeps the number of children.
pub proof fn lemma_bwd_pass_len(q: Seq<Shape>, i: nat)
    ensures
        bwd_pass(q, i).len() == q.len(),
    decreases q.len() - i,
{
    if i < q.len() {
        lemma_bwd_pass_len(bwd_step(q, i as int), i + 1);
    }
}

/// Splitting a list by the selection flag accounts for every child.
pub proof fn lemma_sel_partition_len(q: Seq<Shape>)
    ensures
        q.filter(sel_pred()).len() + q.filter(unsel_pred()).len() == q.len(),
    decreases q.len(),
{
    reveal(Seq::filter);
    if q.len() > 0 {
        lemma_sel_partition_len(q.drop_last());
    }
}


/// The block retreated one place toward the bottom: the unselected
/// child just below it, `q[lo - 1]`, rises above the block, and the
/// block occupies `[lo - 1, hi - 1)`.
pub open spec fn block_retreated(q: Seq<Shape>, lo: int, hi: int) -> Seq<Shape> {
    q.subrange(0, lo - 1) + q.subrange(lo, hi) + seq![q[lo - 1]] + q.subrange(
        hi,
        q.len() as int,
    )
}

/// The partially cascaded list after the backward scan has processed
/// the indices up to `i`: the unselected child `q[lo - 1]` has risen to
/// position `i`, and the part of the block it passed sits one lower.
spec fn cascade_down(q: Seq<Shape>, lo: int, i: int) -> Seq<Shape> {
    q.subrange(0, lo - 1) + q.subrange(lo, i + 1) + seq![q[lo - 1]] + q.subrange(
        i + 1,
        q.len() as int,
    )
}

/// Below the block nothing is selected, so the scan reaches the block
/// without changing anything.
proof fn lemma_bwd_pass_noop_before(q: Seq<Shape>, lo: int, k: int)
    requires
        1 <= k <= lo <= q.len(),
        forall|j: int| 0 <= j < lo ==> !(#[trigger] q[j].selected_spec()),
    ensures
        bwd_pass(q, k as nat) == bwd_pass(q, lo as nat),
    decreases lo - k,
{
    if k < lo {
        assert(bwd_step(q, k) == q);
        lemma_bwd_pass_noop_before(q, lo, k + 1);
    }
}

/// From `k` upward nothing is selected, so the rest of the scan is a
/// no-op.
proof fn lemma_bwd_pass_noop_after(q: Seq<Shape>, k: int)
    requires
        1 <= k,
        forall|j: int| k <= j < q.len() ==> !(#[trigger] q[j].selected_spec()),
    ensures
        bwd_pass(q, k as nat) == q,
    decreases q.len() - k,
{
    if k < q.len() {
        assert(bwd_step(q, k) == q);
        lemma_bwd_pass_noop_after(q, k + 1);
    }
}

/// The downward cascade: at each index from `lo` up to `hi - 1` the
/// scan swaps the rising unselected child one place further up.
proof fn lemma_bwd_cascade(q: Seq<Shape>, lo: int, hi: int, i: int)
    requires
        0 < lo < hi <= q.len(),
        sel_block(q, lo, hi),
        lo <= i <= hi - 1,
    ensures
        bwd_pass(cascade_down(q, lo, i), (i + 1) as nat) == cascade_down(q, lo, hi - 1),
    decreases hi - 1 - i,
{
    let c = cascade_down(q, lo, i);
    assert(c.len() == q.len());
    if i == hi - 1 {
        assert(forall|j: int|
            i + 1 <= j < c.len() ==> !(#[trigger] c[j].selected_spec()));
        lemma_bwd_pass_noop_after(c, i + 1);
    } else {
        assert(c[i + 1] == q[i + 1]);
        assert(c[i] == q[lo - 1]);
        assert(q[i + 1].selected_spec());
        assert(!q[lo - 1].selected_spec());
        assert(bwd_step(c, i + 1) == swap_at(c, i));
        assert(swap_at(c, i) =~= cascade_down(q, lo, i + 1));
        lemma_bwd_cascade(q, lo, hi, i + 1);
    }
}

/// The symmetric z-order step law: for any list with one contiguous
/// selected block that is not already at the bottom, one backward scan
/// retreats the block exactly one position, preserving the order within
/// the block and among the unselected children.
pub proof fn lemma_move_selected_backward_block(q: Seq<Shape>, lo: int, hi: int)
    requires
        0 < lo < hi <= q.len(),
        sel_block(q, lo, hi),
    ensures
        move_selected_backward_spec(q) == block_retreated(q, lo, hi),
{
    lemma_bwd_pass_noop_before(q, lo, 1);
    // Processing index lo performs the first swap of the cascade.
    assert(q[lo].selected_spec());
    assert(!q[lo - 1].selected_spec());
    assert(bwd_step(q, lo) == swap_at(q, lo - 1));
    assert(swap_at(q, lo - 1) =~= cascade_down(q, lo, lo));
    assert(bwd_pass(q, lo as nat) == bwd_pass(cascade_down(q, lo, lo), (lo + 1) as nat));
    lemma_bwd_cascade(q, lo, hi, lo);
    assert(cascade_down(q, lo, hi - 1) =~= block_retreated(q, lo, hi));
}

} // verus!
