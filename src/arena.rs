use vstd::prelude::*;
use crate::block::{after_hit, Block, BlockType};

verus! {

/// An obstacle that a ball touches, by its place in the list of its kind.
#[derive(Clone, Copy, Debug, PartialEq, Eq, Structural)]
pub enum Obstacle {
    Wall(usize),
    Bar(usize),
    Block(usize),
}

/// `i` is the first place at which `s` holds.
pub open spec fn is_first(s: Seq<bool>, i: int) -> bool {
    &&& 0 <= i < s.len()
    &&& s[i]
    &&& forall|j: int| 0 <= j < i ==> !s[j]
}

pub open spec fn none_true(s: Seq<bool>) -> bool {
    forall|j: int| 0 <= j < s.len() ==> !s[j]
}

/// The first place at which `s` holds, if any.
fn first_true(s: &Vec<bool>) -> (r: Option<usize>)
    ensures
        match r {
            Some(i) => is_first(s@, i as int),
            None => none_true(s@),
        },
{
    let mut i: usize = 0;
    while i < s.len()
        invariant
            i <= s@.len(),
            forall|j: int| 0 <= j < i ==> !s@[j],
        decreases s@.len() - i,
    {
        if s[i] {
            return Some(i);
        }
        i = i + 1;
    }
    None
}

/// The obstacle a ball bounces off, given which walls, paddles and blocks it
/// touches: walls come before paddles, paddles before blocks, and within a
/// kind the first in the list wins.
pub fn first_contact(walls: &Vec<bool>, bars: &Vec<bool>, blocks: &Vec<bool>) -> (r: Option<Obstacle>)
    ensures
        match r {
            Some(Obstacle::Wall(i)) => is_first(walls@, i as int),
            Some(Obstacle::Bar(i)) => none_true(walls@) && is_first(bars@, i as int),
            Some(Obstacle::Block(i)) => none_true(walls@) && none_true(bars@) && is_first(blocks@, i as int),
            None => none_true(walls@) && none_true(bars@) && none_true(blocks@),
        },
{
    if let Some(i) = first_true(walls) {
        return Some(Obstacle::Wall(i));
    }
    if let Some(i) = first_true(bars) {
        return Some(Obstacle::Bar(i));
    }
    match first_true(blocks) {
        Some(i) => Some(Obstacle::Block(i)),
        None => None,
    }
}

/// The items whose mark is not set, in their order.
pub open spec fn kept<T>(s: Seq<T>, marked: Seq<bool>) -> Seq<T>
    decreases s.len(),
{
    if s.len() == 0 {
        seq![]
    } else {
        let rest = kept(s.drop_first(), marked.drop_first());
        if marked[0] {
            rest
        } else {
            seq![s[0]].add(rest)
        }
    }
}

/// Takes the lost balls out of play, keeping the order of the others.
/// Returns whether no ball is left, so that a new one must be served.
pub fn remove_lost<B>(balls: &mut Vec<B>, lost: &Vec<bool>) -> (respawn: bool)
    requires
        lost@.len() == old(balls)@.len(),
    ensures
        final(balls)@ == kept(old(balls)@, lost@),
        respawn == (final(balls)@.len() == 0),
{
    let ghost original = balls@;
    let mut i: usize = balls.len();
    assert(original.skip(i as int) =~= seq![]);
    assert(original.take(i as int) =~= original);
    assert(balls@ =~= original.take(i as int).add(kept(original.skip(i as int), lost@.skip(i as int))));
    while i > 0
        invariant
            i <= original.len(),
            lost@.len() == original.len(),
            balls@ == original.take(i as int).add(kept(original.skip(i as int), lost@.skip(i as int))),
        decreases i,
    {
        let ghost rest = kept(original.skip(i as int), lost@.skip(i as int));
        assert(original.skip(i - 1).drop_first() =~= original.skip(i as int));
        assert(lost@.skip(i - 1).drop_first() =~= lost@.skip(i as int));
        assert(original.skip(i - 1)[0] == original[i - 1]);
        assert(original.take(i as int) =~= original.take(i - 1).push(original[i - 1]));
        if lost[i - 1] {
            balls.remove(i - 1);
            assert(balls@ =~= original.take(i - 1).add(rest));
        } else {
            assert(balls@ =~= original.take(i - 1).add(seq![original[i - 1]].add(rest)));
        }
        i = i - 1;
    }
    assert(original.skip(0) =~= original);
    assert(lost@.skip(0) =~= lost@);
    assert(balls@ =~= kept(original, lost@));
    balls.len() == 0
}

/// The tier a block of tier `t` is left with after `n` hits, or `None` when
/// they destroy it.
pub open spec fn after_hits(t: BlockType, n: nat) -> Option<BlockType>
    decreases n,
{
    if n == 0 {
        Some(t)
    } else {
        match after_hit(t) {
            None => None,
            Some(u) => after_hits(u, (n - 1) as nat),
        }
    }
}

proof fn lemma_immortal_stays(n: nat)
    ensures
        after_hits(BlockType::Immortal, n) == Some(BlockType::Immortal),
    decreases n,
{
    if n > 0 {
        lemma_immortal_stays((n - 1) as nat);
    }
}

/// How many hits destroy a block of tier `t`; `None` for an immortal one.
pub open spec fn durability(t: BlockType) -> Option<nat> {
    match t {
        BlockType::Basic => Some(1),
        BlockType::Basic2 => Some(2),
        BlockType::Basic3 => Some(3),
        BlockType::Immortal => None,
    }
}

/// A block survives every run of hits shorter than its durability and is
/// destroyed by the hit that reaches it; an immortal block survives any
/// number of hits, keeping its tier.
pub proof fn lemma_durability(t: BlockType, n: nat)
    ensures
        match durability(t) {
            Some(d) => (after_hits(t, n) is None) == (n >= d),
            None => after_hits(t, n) == Some(BlockType::Immortal),
        },
{
    reveal_with_fuel(after_hits, 4);
    if t == BlockType::Immortal {
        lemma_immortal_stays(n);
    }
}

/// The tier after `n` hits, computed without hitting `n` times.
fn tier_after_hits(t: BlockType, n: usize) -> (r: Option<BlockType>)
    ensures
        r == after_hits(t, n as nat),
{
    proof {
        reveal_with_fuel(after_hits, 4);
    }
    match t {
        BlockType::Immortal => {
            proof {
                lemma_immortal_stays(n as nat);
            }
            Some(BlockType::Immortal)
        },
        BlockType::Basic => if n == 0 {
            Some(BlockType::Basic)
        } else {
            None
        },
        BlockType::Basic2 => if n == 0 {
            Some(BlockType::Basic2)
        } else if n == 1 {
            Some(BlockType::Basic)
        } else {
            None
        },
        BlockType::Basic3 => if n == 0 {
            Some(BlockType::Basic3)
        } else if n == 1 {
            Some(BlockType::Basic2)
        } else if n == 2 {
            Some(BlockType::Basic)
        } else {
            None
        },
    }
}

/// How many of the balls' contacts are with the block at place `i`.
pub open spec fn count_hits(contacts: Seq<Option<Obstacle>>, i: usize) -> nat
    decreases contacts.len(),
{
    if contacts.len() == 0 {
        0
    } else {
        count_hits(contacts.drop_last(), i) + if contacts.last() == Some(Obstacle::Block(i)) {
            1nat
        } else {
            0nat
        }
    }
}

proof fn lemma_count_hits_bound(contacts: Seq<Option<Obstacle>>, i: usize)
    ensures
        count_hits(contacts, i) <= contacts.len(),
    decreases contacts.len(),
{
    if contacts.len() > 0 {
        lemma_count_hits_bound(contacts.drop_last(), i);
    }
}

/// The blocks that survive the contacts of one tick, in their order, each at
/// the tier its hits leave it with.
pub open spec fn survivors(blocks: Seq<Block>, contacts: Seq<Option<Obstacle>>) -> Seq<Block>
    decreases blocks.len(),
{
    if blocks.len() == 0 {
        seq![]
    } else {
        let i = (blocks.len() - 1) as int;
        let earlier = survivors(blocks.drop_last(), contacts);
        match after_hits(blocks[i].block_type, count_hits(contacts, i as usize)) {
            None => earlier,
            Some(t) => earlier.push(Block { index: blocks[i].index, block_type: t }),
        }
    }
}

/// Applies the hits of one tick: each contact of a ball with a block is one
/// hit on it. Destroyed blocks leave the list; the others keep their order.
pub fn hit_blocks(blocks: &mut Vec<Block>, contacts: &Vec<Option<Obstacle>>)
    ensures
        final(blocks)@ == survivors(old(blocks)@, contacts@),
{
    let n = blocks.len();
    let mut counts: Vec<usize> = Vec::new();
    let mut i: usize = 0;
    while i < n
        invariant
            i <= n,
            counts@.len() == i,
            forall|j: int| 0 <= j < i ==> counts@[j] == 0,
        decreases n - i,
    {
        counts.push(0);
        i = i + 1;
    }
    let mut k: usize = 0;
    while k < contacts.len()
        invariant
            k <= contacts@.len(),
            counts@.len() == n,
            forall|j: int| 0 <= j < n ==> counts@[j] == count_hits(contacts@.take(k as int), j as usize),
        decreases contacts@.len() - k,
    {
        proof {
            assert(contacts@.take(k + 1).drop_last() =~= contacts@.take(k as int));
            assert forall|j: int| 0 <= j < n implies counts@[j] <= k by {
                lemma_count_hits_bound(contacts@.take(k as int), j as usize);
            }
        }
        if let Some(Obstacle::Block(j)) = contacts[k] {
            if j < n {
                counts.set(j, counts[j] + 1);
            }
        }
        k = k + 1;
    }
    assert(contacts@.take(contacts@.len() as int) =~= contacts@);
    let ghost original = blocks@;
    let mut remaining: Vec<Block> = Vec::new();
    let mut i: usize = 0;
    while i < n
        invariant
            i <= n,
            n == original.len(),
            blocks@ == original,
            counts@.len() == n,
            forall|j: int| 0 <= j < n ==> counts@[j] == count_hits(contacts@, j as usize),
            remaining@ == survivors(original.take(i as int), contacts@),
        decreases n - i,
    {
        proof {
            assert(original.take(i + 1).drop_last() =~= original.take(i as int));
        }
        let b = blocks[i];
        if let Some(t) = tier_after_hits(b.block_type, counts[i]) {
            remaining.push(Block { index: b.index, block_type: t });
        }
        i = i + 1;
    }
    assert(original.take(n as int) =~= original);
    *blocks = remaining;
}

} // verus!
