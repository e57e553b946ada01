//! The games that the bot has running, each of which lapses three minutes
//! after it began.

use vstd::prelude::*;

verus! {

/// How long a game lives, in nanoseconds: three minutes.
pub const SESSION_LIFETIME: i128 = 180_000_000_000;

/// A running game and the instant (in nanoseconds since the Unix epoch)
/// after which it has lapsed.
pub struct GameSession<G> {
    pub game: G,
    pub expiration: i128,
}

/// The games that the bot has running, oldest first.
pub struct GameSessionManager<G> {
    sessions: Vec<GameSession<G>>,
}

/// A session has lapsed at `now` when its expiration lies before `now`.
pub open spec fn lapsed<G>(s: GameSession<G>, now: int) -> bool {
    s.expiration < now
}

/// The sessions of `s` that have not lapsed at `now`, in their order.
pub open spec fn live_sessions<G>(s: Seq<GameSession<G>>, now: int) -> Seq<GameSession<G>>
    decreases s.len(),
{
    if s.len() == 0 {
        Seq::empty()
    } else if lapsed(s.last(), now) {
        live_sessions(s.drop_last(), now)
    } else {
        live_sessions(s.drop_last(), now).push(s.last())
    }
}

/// The games of the sessions of `s` that have lapsed at `now`, the latest
/// first.
pub open spec fn lapsed_games<G>(s: Seq<GameSession<G>>, now: int) -> Seq<G>
    decreases s.len(),
{
    if s.len() == 0 {
        Seq::empty()
    } else if lapsed(s.last(), now) {
        seq![s.last().game] + lapsed_games(s.drop_last(), now)
    } else {
        lapsed_games(s.drop_last(), now)
    }
}

impl<G> View for GameSessionManager<G> {
    type V = Seq<GameSession<G>>;

    closed spec fn view(&self) -> Seq<GameSession<G>> {
        self.sessions@
    }
}

impl<G> GameSessionManager<G> {
    /// A manager with no game running.
    pub fn new() -> (r: Self)
        ensures
            r@ == Seq::<GameSession<G>>::empty(),
    {
        GameSessionManager { sessions: Vec::new() }
    }

    /// The number of running games.
    pub fn len(&self) -> (r: usize)
        ensures
            r == self@.len(),
    {
        self.sessions.len()
    }

    /// Starts `game` at `now`: it lapses three minutes later.
    pub fn set_game(&mut self, game: G, now: i128)
        requires
            now <= i128::MAX - SESSION_LIFETIME,
        ensures
            final(self)@ == old(self)@.push(
                GameSession { game, expiration: (now + SESSION_LIFETIME) as i128 },
            ),
    {
        let expiration = now + SESSION_LIFETIME;
        self.sessions.push(GameSession { game, expiration });
    }

    /// The game of the `i`-th running session, to act on it.
    pub fn game_mut(&mut self, i: usize) -> (g: &mut G)
        requires
            i < old(self)@.len(),
        ensures
            *g == old(self)@[i as int].game,
            final(self)@ == old(self)@.update(
                i as int,
                GameSession { game: *final(g), expiration: old(self)@[i as int].expiration },
            ),
    {
        &mut self.sessions[i].game
    }

    /// Removes the sessions that have lapsed at `now` and hands back their
    /// games, the latest first, to be closed in that order. The others stay,
    /// in their order.
    pub fn delete_expired_sessions(&mut self, now: i128) -> (removed: Vec<G>)
        ensures
            final(self)@ == live_sessions(old(self)@, now as int),
            removed@ == lapsed_games(old(self)@, now as int),
    {
        let ghost all = self.sessions@;
        let mut removed: Vec<G> = Vec::new();
        let mut kept_rev: Vec<GameSession<G>> = Vec::new();
        while self.sessions.len() > 0
            invariant
                removed@ + lapsed_games(self.sessions@, now as int) == lapsed_games(all, now as int),
                live_sessions(self.sessions@, now as int) + kept_rev@.reverse() == live_sessions(
                    all,
                    now as int,
                ),
            decreases self.sessions.len(),
        {
            let ghost before = self.sessions@;
            let s = self.sessions.pop().unwrap();
            proof {
                assert(before.drop_last() == self.sessions@);
                assert(before.last() == s);
            }
            if s.expiration < now {
                proof {
                    assert(removed@.push(s.game) + lapsed_games(self.sessions@, now as int)
                        =~= removed@ + (seq![s.game] + lapsed_games(self.sessions@, now as int)));
                }
                removed.push(s.game);
            } else {
                let ghost old_rev = kept_rev@;
                kept_rev.push(s);
                proof {
                    assert(kept_rev@.reverse() =~= seq![s] + old_rev.reverse());
                    assert(live_sessions(self.sessions@, now as int) + kept_rev@.reverse()
                        =~= live_sessions(self.sessions@, now as int).push(s) + old_rev.reverse());
                }
            }
        }
        proof {
            assert(removed@ + lapsed_games(self.sessions@, now as int) =~= removed@);
            assert(live_sessions(self.sessions@, now as int) + kept_rev@.reverse()
                =~= kept_rev@.reverse());
        }
        while kept_rev.len() > 0
            invariant
                self.sessions@ + kept_rev@.reverse() == live_sessions(all, now as int),
            decreases kept_rev.len(),
        {
            let ghost old_rev = kept_rev@;
            let s = kept_rev.pop().unwrap();
            proof {
                assert(old_rev.reverse() =~= seq![s] + kept_rev@.reverse());
            }
            let ghost old_sessions = self.sessions@;
            self.sessions.push(s);
            proof {
                assert(self.sessions@ + kept_rev@.reverse() =~= old_sessions + old_rev.reverse());
            }
        }
        proof {
            assert(self.sessions@ + kept_rev@.reverse() =~= self.sessions@);
        }
        removed
    }
}

/// Removing the lapsed sessions keeps exactly the sessions that have not
/// lapsed, in their order, and hands back the games of the others, the
/// latest first.
pub proof fn law_delete_partitions_sessions<G>(s: Seq<GameSession<G>>, now: int)
    ensures
        live_sessions(s, now) == s.filter(|x: GameSession<G>| !lapsed(x, now)),
        lapsed_games(s, now) == s.filter(|x: GameSession<G>| lapsed(x, now)).map_values(
            |x: GameSession<G>| x.game,
        ).reverse(),
        live_sessions(s, now).len() + lapsed_games(s, now).len() == s.len(),
    decreases s.len(),
{
    reveal(Seq::filter);
    let live = |x: GameSession<G>| !lapsed(x, now);
    let dead = |x: GameSession<G>| lapsed(x, now);
    let game_of = |x: GameSession<G>| x.game;
    if s.len() > 0 {
        law_delete_partitions_sessions(s.drop_last(), now);
        let d = s.drop_last().filter(dead);
        if lapsed(s.last(), now) {
            assert(s.filter(dead) == d.push(s.last()));
            assert(d.push(s.last()).map_values(game_of) =~= d.map_values(game_of).push(s.last().game));
            assert(d.map_values(game_of).push(s.last().game).reverse() =~= seq![s.last().game]
                + d.map_values(game_of).reverse());
        } else {
            assert(s.filter(dead) == d);
        }
    } else {
        assert(s.filter(dead).map_values(game_of).reverse() =~= Seq::<G>::empty());
    }
}

/// A game lives three minutes: a game started at `start` is still running
/// after the lapsed sessions are removed at any instant up to three minutes
/// later, and is removed at any later instant; the other sessions fare as
/// they would have without it.
pub proof fn law_game_lives_three_minutes<G>(
    s: Seq<GameSession<G>>,
    game: G,
    start: i128,
    now: i128,
)
    requires
        start <= i128::MAX - SESSION_LIFETIME,
    ensures
        ({
            let started = GameSession { game, expiration: (start + SESSION_LIFETIME) as i128 };
            &&& now <= start + SESSION_LIFETIME ==> live_sessions(s.push(started), now as int)
                == live_sessions(s, now as int).push(started)
            &&& now > start + SESSION_LIFETIME ==> live_sessions(s.push(started), now as int)
                == live_sessions(s, now as int)
        }),
{
    let started = GameSession { game, expiration: (start + SESSION_LIFETIME) as i128 };
    assert(s.push(started).drop_last() == s);
}

} // verus!
