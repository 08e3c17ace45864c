use vstd::prelude::*;
use crate::direction::SnakeDirection;

verus! {

/// The first heading of `pending`, newest first, that does not reverse
/// `heading`; `None` when every one of them would.
pub open spec fn resolved(pending: Seq<SnakeDirection>, heading: SnakeDirection) -> Option<
    SnakeDirection,
>
    decreases pending.len(),
{
    if pending.len() == 0 {
        None
    } else if pending.last() != heading.opposite_of() {
        Some(pending.last())
    } else {
        resolved(pending.drop_last(), heading)
    }
}

/// The heading after a tick's input resolution.
pub open spec fn next_heading(pending: Seq<SnakeDirection>, heading: SnakeDirection) -> SnakeDirection {
    match resolved(pending, heading) {
        Some(d) => d,
        None => heading,
    }
}

/// Headings the player asked for since the last tick, oldest first.
#[derive(Debug)]
pub struct PlayerInput(pub Vec<SnakeDirection>);

impl PlayerInput {
    pub fn new() -> (r: PlayerInput)
        ensures
            r.0@ == Seq::<SnakeDirection>::empty(),
    {
        PlayerInput(Vec::new())
    }

    /// Queue a heading; nothing is checked until the next tick.
    pub fn push(&mut self, d: SnakeDirection)
        ensures
            final(self).0@ == old(self).0@.push(d),
    {
        self.0.push(d);
    }

    pub fn len(&self) -> (r: usize)
        ensures
            r == self.0@.len(),
    {
        self.0.len()
    }

    pub fn clear(&mut self)
        ensures
            final(self).0@ == Seq::<SnakeDirection>::empty(),
    {
        self.0.clear();
    }

    /// Scan the queue newest first for a heading that does not reverse
    /// `heading`, then empty the queue whatever was found.
    pub fn resolve(&mut self, heading: SnakeDirection) -> (r: Option<SnakeDirection>)
        ensures
            r == resolved(old(self).0@, heading),
            final(self).0@ == Seq::<SnakeDirection>::empty(),
    {
        let mut i: usize = self.0.len();
        let mut found: Option<SnakeDirection> = None;
        assert(old(self).0@.subrange(0, i as int) =~= old(self).0@);
        while i > 0 && found.is_none()
            invariant
                i <= self.0@.len(),
                self.0@ == old(self).0@,
                found.is_none() ==> resolved(old(self).0@, heading) == resolved(
                    old(self).0@.subrange(0, i as int),
                    heading,
                ),
                found.is_some() ==> found == resolved(old(self).0@, heading),
            decreases i + (if found.is_none() { 1int } else { 0int }),
        {
            let d = self.0[i - 1];
            proof {
                let s = old(self).0@.subrange(0, i as int);
                assert(s.last() == d);
                assert(s.drop_last() =~= old(self).0@.subrange(0, i - 1));
            }
            if !heading.is_reversal(d) {
                found = Some(d);
            } else {
                i -= 1;
            }
        }
        proof {
            if found.is_none() {
                assert(old(self).0@.subrange(0, i as int) =~= Seq::<SnakeDirection>::empty());
            }
        }
        self.0.clear();
        found
    }
}

/// A reversal is never taken: the heading after a tick is never the opposite
/// of the heading before it, whatever the queue held.
pub proof fn lemma_heading_never_reverses(pending: Seq<SnakeDirection>, heading: SnakeDirection)
    ensures
        next_heading(pending, heading) != heading.opposite_of(),
    decreases pending.len(),
{
    if pending.len() > 0 && pending.last() == heading.opposite_of() {
        lemma_heading_never_reverses(pending.drop_last(), heading);
    }
}

/// The heading of the keys held down this frame, the last of up, down, left
/// and right that is held winning; `None` when none is held.
pub fn pressed_direction(up: bool, down: bool, left: bool, right: bool) -> (r: Option<
    SnakeDirection,
>)
    ensures
        r == (if right {
            Some(SnakeDirection::Right)
        } else if left {
            Some(SnakeDirection::Left)
        } else if down {
            Some(SnakeDirection::Down)
        } else if up {
            Some(SnakeDirection::Up)
        } else {
            None
        }),
{
    let mut direction: Option<SnakeDirection> = None;
    if up {
        direction = Some(SnakeDirection::Up);
    }
    if down {
        direction = Some(SnakeDirection::Down);
    }
    if left {
        direction = Some(SnakeDirection::Left);
    }
    if right {
        direction = Some(SnakeDirection::Right);
    }
    direction
}

} // verus!
