//! Obstacle reaping: destroys obstacles once they have scrolled comfortably
//! past the visible field on the left.
use vstd::prelude::*;

use crate::consts::CULL_X;
use crate::motion::Obstacle;

verus! {

/// Whether an obstacle is still on the playing side of the culling
/// threshold; the reaper destroys exactly those strictly past it.
pub open spec fn on_field(o: Obstacle) -> bool {
    o.x >= CULL_X
}

/// An obstacle set after reaping: the obstacles on the playing side of the
/// culling threshold, in their original order.
pub open spec fn reaped(s: Seq<Obstacle>) -> Seq<Obstacle>
    decreases s.len(),
{
    if s.len() == 0 {
        Seq::empty()
    } else {
        let rest = reaped(s.drop_last());
        if on_field(s.last()) {
            rest.push(s.last())
        } else {
            rest
        }
    }
}

/// Every reaped obstacle sits at or right of the culling threshold and was
/// already present, unchanged, before reaping.
pub proof fn lemma_reaped_element(s: Seq<Obstacle>, i: int)
    requires
        0 <= i < reaped(s).len(),
    ensures
        on_field(reaped(s)[i]),
        s.contains(reaped(s)[i]),
    decreases s.len(),
{
    let e = reaped(s)[i];
    let rest = reaped(s.drop_last());
    if on_field(s.last()) && i == rest.len() {
        assert(e == s.last());
        assert(s[s.len() - 1] == e);
    } else {
        lemma_reaped_element(s.drop_last(), i);
        let j = choose|j: int| 0 <= j < s.drop_last().len() && s.drop_last()[j] == e;
        assert(s[j] == e);
    }
}

/// An obstacle on the playing side of the culling threshold survives
/// reaping.
pub proof fn lemma_reaped_keeps(s: Seq<Obstacle>, i: int)
    requires
        0 <= i < s.len(),
        on_field(s[i]),
    ensures
        reaped(s).contains(s[i]),
    decreases s.len(),
{
    if i == s.len() - 1 {
        let r = reaped(s);
        assert(r[r.len() - 1] == s[i]);
    } else {
        lemma_reaped_keeps(s.drop_last(), i);
        let rd = reaped(s.drop_last());
        let j = choose|j: int| 0 <= j < rd.len() && rd[j] == s.drop_last()[i];
        assert(s.drop_last()[i] == s[i]);
        assert(reaped(s)[j] == s[i]);
    }
}

/// Destroys every obstacle whose horizontal position has crossed the
/// culling threshold; the others survive unchanged and in order.
pub fn remove_offscreen_pipes(obstacles: &mut Vec<Obstacle>)
    ensures
        final(obstacles)@ == reaped(old(obstacles)@),
{
    let n = obstacles.len();
    let mut kept: Vec<Obstacle> = Vec::new();
    let mut i: usize = 0;
    while i < n
        invariant
            0 <= i <= n,
            n == obstacles@.len(),
            obstacles@ == old(obstacles)@,
            kept@ == reaped(old(obstacles)@.take(i as int)),
        decreases n - i,
    {
        let o = obstacles[i];
        proof {
            let pre = old(obstacles)@.take(i as int);
            let stepped = old(obstacles)@.take(i as int + 1);
            assert(stepped =~= pre.push(old(obstacles)@[i as int]));
            assert(stepped.drop_last() =~= pre);
            assert(stepped.last() == old(obstacles)@[i as int]);
            assert(reaped(stepped) == (if on_field(old(obstacles)@[i as int]) {
                reaped(pre).push(old(obstacles)@[i as int])
            } else {
                reaped(pre)
            }));
        }
        if o.x >= CULL_X {
            kept.push(o);
        }
        i = i + 1;
    }
    proof {
        assert(old(obstacles)@.take(n as int) =~= old(obstacles)@);
    }
    *obstacles = kept;
}

} // verus!
