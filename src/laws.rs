use vstd::prelude::*;
use crate::input::lemma_heading_never_reverses;
use crate::logic::{framed, ticked, Collider, FrameOutcome, Game, GameEvent};

verus! {

/// After a tick, every segment that was there before stands on the tile that
/// the segment before it held before the tick, the first one on the head's
/// old tile.
pub proof fn lemma_body_follows(pre: Game, post: Game, c: Option<Collider>)
    requires
        ticked(pre, post, c),
    ensures
        post.body().len() >= pre.body().len(),
        forall|i: int|
            0 <= i < pre.body().len() ==> #[trigger] post.body()[i].position == if i == 0 {
                pre.head.position
            } else {
                pre.body()[i - 1].position
            },
{
}

/// A tick never turns the head to the exact opposite of its heading before.
pub proof fn lemma_no_reversal(pre: Game, post: Game, c: Option<Collider>)
    requires
        ticked(pre, post, c),
    ensures
        post.head.direction != pre.head.direction.opposite_of(),
{
    lemma_heading_never_reverses(pre.input.0@, pre.head.direction);
}

/// Whenever an apple is eaten, a new one is put down, inside the walls, off
/// the head and off every body segment; the tick that wins the game included.
pub proof fn lemma_new_apple_is_clear(pre: Game, post: Game, c: Option<Collider>)
    requires
        ticked(pre, post, c),
        c == Some(Collider::Apple),
    ensures
        post.apple.is_some(),
        post.grid.contains(post.apple.unwrap().position),
        post.apple.unwrap().position != post.head.position,
        forall|i: int|
            0 <= i < post.body().len() ==> #[trigger] post.body()[i].position
                != post.apple.unwrap().position,
{
    let a = post.apple.unwrap().position;
    assert(post.cells()[0] == post.head.position);
    assert forall|i: int| 0 <= i < post.body().len() implies #[trigger] post.body()[i].position
        != a by {
        assert(post.cells()[i + 1] == post.body()[i].position);
    }
}

/// The score and the body grow by exactly one on a tick that eats the apple,
/// and stay as they were on every other tick.
pub proof fn lemma_growth_only_on_apple(pre: Game, post: Game, c: Option<Collider>)
    requires
        ticked(pre, post, c),
    ensures
        c == Some(Collider::Apple) ==> post.scoreboard.value == pre.scoreboard.value + 1
            && post.body().len() == pre.body().len() + 1,
        c != Some(Collider::Apple) ==> post.scoreboard.value == pre.scoreboard.value
            && post.body().len() == pre.body().len(),
{
}

/// A running game is won on a tick exactly when that tick eats an apple and
/// the body then has one segment less than the grid has tiles.
pub proof fn lemma_won_exactly_when_full(pre: Game, post: Game, c: Option<Collider>)
    requires
        pre.wf(),
        pre.is_running(),
        ticked(pre, post, c),
    ensures
        post.event == Some(GameEvent::GameWon) <==> (c == Some(Collider::Apple)
            && post.body().len() == pre.grid.cell_count() - 1),
{
}

/// A game ends once: after its ending event, no frame changes it again.
pub proof fn lemma_ended_game_stays(pre: Game, post: Game, delta: u64, r: FrameOutcome)
    requires
        !pre.is_running(),
        framed(pre, post, delta, r),
    ensures
        r == FrameOutcome::Idle,
        post == pre,
{
}

} // verus!
