//! The guessing game: viewers guess the streamer's words-per-minute, the
//! closest guess wins the round.

use vstd::prelude::*;

verus! {

/// One viewer's guess in the current round.
#[derive(Debug)]
pub struct Guess {
    pub user: String,
    pub wpm: usize,
}

impl View for Guess {
    type V = (Seq<char>, usize);

    open spec fn view(&self) -> (Seq<char>, usize) {
        (self.user@, self.wpm)
    }
}

/// Abstract state of a round.
pub struct GameView {
    pub running: bool,
    pub guesses: Seq<(Seq<char>, usize)>,
    pub last_winner: Option<Seq<char>>,
}

/// Absolute difference of two integers.
pub open spec fn distance(a: int, b: int) -> nat {
    if a >= b {
        (a - b) as nat
    } else {
        (b - a) as nat
    }
}

/// Does some guess in `gs` belong to `user`?
pub open spec fn has_user(gs: Seq<(Seq<char>, usize)>, user: Seq<char>) -> bool {
    exists|i: int| 0 <= i < gs.len() && #[trigger] gs[i].0 == user
}

/// No user appears twice.
pub open spec fn users_unique(gs: Seq<(Seq<char>, usize)>) -> bool {
    forall|i: int, j: int|
        0 <= i < gs.len() && 0 <= j < gs.len() && i != j ==> #[trigger] gs[i].0 != #[trigger] gs[j].0
}

/// The guesses after `user` guesses `value`: an earlier guess of the same
/// user is replaced in place, otherwise the guess is appended.
pub open spec fn upsert(gs: Seq<(Seq<char>, usize)>, user: Seq<char>, value: usize) -> Seq<
    (Seq<char>, usize),
> {
    if has_user(gs, user) {
        gs.map_values(|g: (Seq<char>, usize)| if g.0 == user { (user, value) } else { g })
    } else {
        gs.push((user, value))
    }
}

/// Index `i` holds the winning guess for `target`: no guess is closer, and
/// every earlier guess is strictly farther.
pub open spec fn is_winner_index(gs: Seq<(Seq<char>, usize)>, target: int, i: int) -> bool {
    &&& 0 <= i < gs.len()
    &&& forall|j: int|
        0 <= j < gs.len() ==> distance(target, gs[i].1 as int) <= #[trigger] distance(
            target,
            gs[j].1 as int,
        )
    &&& forall|j: int|
        0 <= j < i ==> distance(target, gs[i].1 as int) < #[trigger] distance(
            target,
            gs[j].1 as int,
        )
}

/// The winning guess for `target`, if any guess was made.
pub open spec fn winner_of(gs: Seq<(Seq<char>, usize)>, target: int) -> Option<(Seq<char>, usize)> {
    if exists|i: int| is_winner_index(gs, target, i) {
        Some(gs[choose|i: int| is_winner_index(gs, target, i)])
    } else {
        None
    }
}

/// At most one index holds the winning guess.
pub proof fn lemma_winner_index_unique(gs: Seq<(Seq<char>, usize)>, target: int, a: int, b: int)
    requires
        is_winner_index(gs, target, a),
        is_winner_index(gs, target, b),
    ensures
        a == b,
{
    if a < b {
        assert(distance(target, gs[b].1 as int) < distance(target, gs[a].1 as int));
        assert(distance(target, gs[a].1 as int) <= distance(target, gs[b].1 as int));
    } else if b < a {
        assert(distance(target, gs[a].1 as int) < distance(target, gs[b].1 as int));
        assert(distance(target, gs[b].1 as int) <= distance(target, gs[a].1 as int));
    }
}

/// Only a user's latest guess counts: after guessing `first` and then
/// `second`, the round holds exactly what it would hold had the user guessed
/// only `second`, so scoring against any target gives the same winner.
pub proof fn lemma_latest_guess_counts(
    gs: Seq<(Seq<char>, usize)>,
    user: Seq<char>,
    first: usize,
    second: usize,
)
    ensures
        upsert(upsert(gs, user, first), user, second) == upsert(gs, user, second),
        forall|target: int|
            #[trigger] winner_of(upsert(upsert(gs, user, first), user, second), target)
                == winner_of(upsert(gs, user, second), target),
{
    let once = upsert(gs, user, first);
    let twice = upsert(once, user, second);
    let direct = upsert(gs, user, second);
    if has_user(gs, user) {
        let i = choose|i: int| 0 <= i < gs.len() && #[trigger] gs[i].0 == user;
        assert(once[i].0 == user);
        assert(twice =~= direct);
    } else {
        assert(once[gs.len() as int].0 == user);
        assert(twice =~= direct);
    }
}

/// The guesses after each `(user, value)` of `ops` was added in turn.
pub open spec fn apply_guesses(gs: Seq<(Seq<char>, usize)>, ops: Seq<(Seq<char>, usize)>) -> Seq<
    (Seq<char>, usize),
>
    decreases ops.len(),
{
    if ops.len() == 0 {
        gs
    } else {
        let last = ops.last();
        upsert(apply_guesses(gs, ops.drop_last()), last.0, last.1)
    }
}

/// The value `user` guessed last in `ops`, if they guessed.
pub open spec fn latest_guess(ops: Seq<(Seq<char>, usize)>, user: Seq<char>) -> Option<usize>
    decreases ops.len(),
{
    if ops.len() == 0 {
        None
    } else if ops.last().0 == user {
        Some(ops.last().1)
    } else {
        latest_guess(ops.drop_last(), user)
    }
}

/// Every guess of `user` in `gs` has value `v`, and there is one.
pub open spec fn holds_only(gs: Seq<(Seq<char>, usize)>, user: Seq<char>, v: usize) -> bool {
    &&& has_user(gs, user)
    &&& forall|i: int| 0 <= i < gs.len() && #[trigger] gs[i].0 == user ==> gs[i].1 == v
}

/// For any sequence of guesses made during a round, what the round holds
/// for a user who guessed is their latest value and nothing else, so
/// scoring sees only that value.
pub proof fn lemma_latest_guess_is_held(
    gs: Seq<(Seq<char>, usize)>,
    ops: Seq<(Seq<char>, usize)>,
    user: Seq<char>,
)
    requires
        latest_guess(ops, user) is Some,
    ensures
        holds_only(apply_guesses(gs, ops), user, latest_guess(ops, user)->Some_0),
    decreases ops.len(),
{
    let prev = apply_guesses(gs, ops.drop_last());
    let last = ops.last();
    let now = apply_guesses(gs, ops);
    if last.0 == user {
        if has_user(prev, user) {
            let i = choose|i: int| 0 <= i < prev.len() && #[trigger] prev[i].0 == user;
            assert(now[i].0 == user);
        } else {
            assert(now[prev.len() as int].0 == user);
        }
    } else {
        lemma_latest_guess_is_held(gs, ops.drop_last(), user);
        let v = latest_guess(ops, user)->Some_0;
        let i = choose|i: int| 0 <= i < prev.len() && #[trigger] prev[i].0 == user;
        if has_user(prev, last.0) {
            assert(now[i].0 == user);
            assert forall|k: int| 0 <= k < now.len() && #[trigger] now[k].0 == user implies now[k].1
                == v by {
                assert(prev[k].0 == user);
            }
        } else {
            assert(now[i].0 == user);
            assert forall|k: int| 0 <= k < now.len() && #[trigger] now[k].0 == user implies now[k].1
                == v by {
                if k < prev.len() {
                    assert(prev[k].0 == user);
                }
            }
        }
    }
}

/// The users of `ops` in order of their first guess.
pub open spec fn first_seen(ops: Seq<(Seq<char>, usize)>) -> Seq<Seq<char>>
    decreases ops.len(),
{
    if ops.len() == 0 {
        Seq::empty()
    } else {
        let prev = first_seen(ops.drop_last());
        if prev.contains(ops.last().0) {
            prev
        } else {
            prev.push(ops.last().0)
        }
    }
}

/// Each user of `ops`, in order of their first guess, with their latest
/// value.
pub open spec fn latest_per_user(ops: Seq<(Seq<char>, usize)>) -> Seq<(Seq<char>, usize)> {
    first_seen(ops).map_values(|u: Seq<char>| (u, latest_guess(ops, u)->Some_0))
}

proof fn lemma_has_user_first_seen(ops: Seq<(Seq<char>, usize)>, u: Seq<char>)
    ensures
        has_user(latest_per_user(ops), u) <==> first_seen(ops).contains(u),
{
    let l = latest_per_user(ops);
    let f = first_seen(ops);
    if has_user(l, u) {
        let i = choose|i: int| 0 <= i < l.len() && #[trigger] l[i].0 == u;
        assert(f[i] == u);
    }
    if f.contains(u) {
        let i = choose|i: int| 0 <= i < f.len() && f[i] == u;
        assert(l[i].0 == u);
    }
}

/// Only each user's latest guess counts, for any sequence of guesses made
/// in a round: the round then holds exactly the users in order of their
/// first guess, each with their latest value, so scoring it is scoring
/// those values alone and no superseded value can change the winner.
pub proof fn lemma_round_holds_latest_per_user(ops: Seq<(Seq<char>, usize)>)
    ensures
        apply_guesses(Seq::empty(), ops) == latest_per_user(ops),
        forall|target: int|
            #[trigger] winner_of(apply_guesses(Seq::empty(), ops), target) == winner_of(
                latest_per_user(ops),
                target,
            ),
    decreases ops.len(),
{
    if ops.len() == 0 {
        assert(latest_per_user(ops) =~= Seq::<(Seq<char>, usize)>::empty());
    } else {
        let rest = ops.drop_last();
        let (u, v) = ops.last();
        lemma_round_holds_latest_per_user(rest);
        let prev = latest_per_user(rest);
        let now = latest_per_user(ops);
        let fr = first_seen(rest);
        lemma_has_user_first_seen(rest, u);
        assert forall|w: Seq<char>| w != u implies latest_guess(ops, w) == latest_guess(rest, w) by {}
        assert(latest_guess(ops, u) == Some(v));
        if fr.contains(u) {
            let up = upsert(prev, u, v);
            assert(first_seen(ops) == fr);
            assert forall|k: int| 0 <= k < now.len() implies #[trigger] now[k] == up[k] by {
                if fr[k] != u {
                    assert(latest_guess(ops, fr[k]) == latest_guess(rest, fr[k]));
                }
            }
            assert(now =~= up);
        } else {
            let up = prev.push((u, v));
            assert(first_seen(ops) == fr.push(u));
            assert forall|k: int| 0 <= k < now.len() implies #[trigger] now[k] == up[k] by {
                if k < fr.len() {
                    assert(fr[k] != u);
                    assert(latest_guess(ops, fr[k]) == latest_guess(rest, fr[k]));
                }
            }
            assert(now =~= up);
        }
    }
}

/// Absolute difference of two sizes.
pub fn abs_diff(a: usize, b: usize) -> (r: usize)
    ensures
        r == distance(a as int, b as int),
{
    if a >= b {
        a - b
    } else {
        b - a
    }
}

/// Why a guess was refused.
#[derive(Debug, Clone, Copy, PartialEq, Eq, Structural)]
pub enum GameError {
    /// No round is open.
    NotRunning,
}

impl GameError {
    /// The text shown to the user who sent the guess.
    pub fn message(&self) -> (r: &'static str)
        ensures
            r@ == "there is no typing test going on at the moment"@,
    {
        "there is no typing test going on at the moment"
    }
}

/// One line of the live standings: a user, their guess, and how far the
/// guess is from the live measurement.
#[derive(Debug)]
pub struct Standing {
    pub user: String,
    pub wpm: usize,
    pub distance: usize,
}

impl View for Standing {
    type V = (Seq<char>, usize, usize);

    open spec fn view(&self) -> (Seq<char>, usize, usize) {
        (self.user@, self.wpm, self.distance)
    }
}

/// The abstract lines of a list of standings.
pub open spec fn standing_views(s: Seq<Standing>) -> Seq<(Seq<char>, usize, usize)> {
    s.map_values(|x: Standing| x@)
}

/// The standing of each guess against `live`, in order of arrival.
pub open spec fn standing_lines(gs: Seq<(Seq<char>, usize)>, live: int) -> Seq<
    (Seq<char>, usize, usize),
> {
    gs.map_values(|g: (Seq<char>, usize)| (g.0, g.1, distance(live, g.1 as int) as usize))
}

/// The lines of `s` whose distance is `d`, in their order in `s`.
pub open spec fn lines_at(s: Seq<(Seq<char>, usize, usize)>, d: int) -> Seq<
    (Seq<char>, usize, usize),
> {
    s.filter(at_distance(d))
}

/// Holds of the lines whose distance is `d`.
pub open spec fn at_distance(d: int) -> spec_fn((Seq<char>, usize, usize)) -> bool {
    |x: (Seq<char>, usize, usize)| x.2 == d
}

/// Lines are in ascending order of distance.
pub open spec fn sorted_by_distance(s: Seq<(Seq<char>, usize, usize)>) -> bool {
    forall|i: int, j: int| 0 <= i < j < s.len() ==> #[trigger] s[i].2 <= #[trigger] s[j].2
}

proof fn lemma_lines_at_single(x: (Seq<char>, usize, usize), d: int)
    ensures
        lines_at(seq![x], d) == (if x.2 == d {
            seq![x]
        } else {
            Seq::<(Seq<char>, usize, usize)>::empty()
        }),
{
    let e = Seq::<(Seq<char>, usize, usize)>::empty();
    reveal(Seq::filter);
    assert(e.filter(at_distance(d)) =~= e);
    e.lemma_filter_push(x, at_distance(d));
    assert(e.push(x) =~= seq![x]);
}

proof fn lemma_lines_at_none(s: Seq<(Seq<char>, usize, usize)>, d: int)
    requires
        forall|k: int| 0 <= k < s.len() ==> #[trigger] s[k].2 != d,
    ensures
        lines_at(s, d) == Seq::<(Seq<char>, usize, usize)>::empty(),
{
    assert(s.all(|y: (Seq<char>, usize, usize)| !at_distance(d)(y)));
    s.lemma_all_neg_filter_empty(at_distance(d));
    assert(lines_at(s, d) =~= Seq::<(Seq<char>, usize, usize)>::empty());
}

/// State of one round of the game.
#[derive(Debug)]
pub struct WpmGame {
    running: bool,
    guesses: Vec<Guess>,
    last_winner: Option<String>,
}

impl View for WpmGame {
    type V = GameView;

    closed spec fn view(&self) -> GameView {
        GameView {
            running: self.running,
            guesses: self.guesses@.map_values(|g: Guess| g@),
            last_winner: match self.last_winner {
                Some(w) => Some(w@),
                None => None,
            },
        }
    }
}

impl WpmGame {
    /// Well-formedness: each user holds at most one guess.
    pub open spec fn wf(&self) -> bool {
        users_unique(self@.guesses)
    }

    /// A game that is not running, with no guesses and no past winner.
    pub fn new() -> (r: WpmGame)
        ensures
            r.wf(),
            !r@.running,
            r@.guesses == Seq::<(Seq<char>, usize)>::empty(),
            r@.last_winner is None,
    {
        let r = WpmGame { running: false, guesses: Vec::new(), last_winner: None };
        assert(r@.guesses =~= Seq::<(Seq<char>, usize)>::empty());
        r
    }

    /// Opens a round: drops all guesses and starts accepting new ones.
    pub fn start(&mut self)
        ensures
            final(self).wf(),
            final(self)@.running,
            final(self)@.guesses == Seq::<(Seq<char>, usize)>::empty(),
            final(self)@.last_winner == old(self)@.last_winner,
    {
        self.running = true;
        self.guesses.clear();
        assert(self@.guesses =~= Seq::<(Seq<char>, usize)>::empty());
    }

    /// Is a round open?
    pub fn is_running(&self) -> (r: bool)
        ensures
            r == self@.running,
    {
        self.running
    }

    /// The guesses of the current round, in order of arrival.
    pub fn guesses(&self) -> (r: &Vec<Guess>)
        ensures
            r@.map_values(|g: Guess| g@) == self@.guesses,
    {
        &self.guesses
    }

    /// The user who won the last scored round, if any.
    pub fn last_winner(&self) -> (r: Option<String>)
        ensures
            r matches Some(w) ==> self@.last_winner == Some(w@),
            r is None ==> self@.last_winner is None,
    {
        match &self.last_winner {
            Some(w) => Some(w.clone()),
            None => None,
        }
    }
}

impl WpmGame {
    /// Records `user`'s guess. A second guess of the same user replaces the
    /// first in place, so a user keeps the position of their first guess.
    /// Refused, with no change, when no round is open.
    pub fn add_guess(&mut self, user: &str, wpm: usize) -> (r: Result<(), GameError>)
        requires
            old(self).wf(),
        ensures
            final(self).wf(),
            old(self)@.running ==> r is Ok && final(self)@ == (GameView {
                guesses: upsert(old(self)@.guesses, user@, wpm),
                ..old(self)@
            }),
            !old(self)@.running ==> r == Err::<(), GameError>(GameError::NotRunning)
                && final(self)@ == old(self)@,
    {
        if !self.running {
            return Err(GameError::NotRunning);
        }
        let ghost gs = self@.guesses;
        let name = String::from_str(user);
        let n = self.guesses.len();
        let mut i: usize = 0;
        while i < n
            invariant
                n == self.guesses.len(),
                self@ == old(self)@,
                old(self)@.guesses == gs,
                old(self)@.running,
                users_unique(gs),
                name@ == user@,
                0 <= i <= n,
                forall|k: int| 0 <= k < i ==> #[trigger] gs[k].0 != user@,
            decreases n - i,
        {
            if self.guesses[i].user == name {
                proof {
                    assert(gs[i as int].0 == user@);
                    assert(has_user(gs, user@));
                }
                self.guesses.set(i, Guess { user: name, wpm });
                proof {
                    let up = upsert(gs, user@, wpm);
                    assert forall|k: int| 0 <= k < gs.len() implies self@.guesses[k] == up[k] by {
                        if k != i {
                            assert(gs[k].0 != gs[i as int].0);
                        }
                    }
                    assert(self@.guesses =~= up);
                    assert(users_unique(self@.guesses)) by {
                        assert forall|a: int, b: int|
                            0 <= a < up.len() && 0 <= b < up.len() && a != b implies up[a].0
                            != up[b].0 by {
                            assert(gs[a].0 != gs[b].0);
                        }
                    }
                }
                return Ok(());
            }
            i = i + 1;
        }
        assert(!has_user(gs, user@));
        self.guesses.push(Guess { user: name, wpm });
        assert(self@.guesses =~= gs.push((user@, wpm)));
        assert(users_unique(self@.guesses)) by {
            let up = gs.push((user@, wpm));
            assert forall|a: int, b: int|
                0 <= a < up.len() && 0 <= b < up.len() && a != b implies up[a].0 != up[b].0 by {
                if a < gs.len() && b < gs.len() {
                    assert(gs[a].0 != gs[b].0);
                } else if a < gs.len() {
                    assert(gs[a].0 != user@);
                } else {
                    assert(gs[b].0 != user@);
                }
            }
        }
        Ok(())
    }

    /// Scores the round against the measured `wpm` and closes it. The
    /// closest guess wins; among equally close guesses the one that arrived
    /// first wins. Returns the winner and their guessed value, or `None`
    /// when nobody guessed. A winner is remembered and the guesses dropped.
    pub fn winner(&mut self, wpm: usize) -> (r: Option<(String, usize)>)
        requires
            old(self).wf(),
        ensures
            final(self).wf(),
            !final(self)@.running,
            r is None <==> old(self)@.guesses.len() == 0,
            r is None ==> winner_of(old(self)@.guesses, wpm as int) is None
                && final(self)@.guesses == old(self)@.guesses
                && final(self)@.last_winner == old(self)@.last_winner,
            r matches Some(p) ==> winner_of(old(self)@.guesses, wpm as int) == Some((p.0@, p.1))
                && final(self)@.guesses.len() == 0
                && final(self)@.last_winner == Some(p.0@),
    {
        self.running = false;
        let ghost gs = self@.guesses;
        let ghost t = wpm as int;
        let n = self.guesses.len();
        if n == 0 {
            assert(!exists|i: int| is_winner_index(gs, t, i));
            return None;
        }
        assert(self.guesses@[0]@ == gs[0]);
        let mut best: usize = 0;
        let mut best_d: usize = abs_diff(wpm, self.guesses[0].wpm);
        let mut i: usize = 1;
        while i < n
            invariant
                n == self.guesses.len(),
                gs == self@.guesses,
                1 <= i <= n,
                t == wpm as int,
                0 <= best < i,
                best_d == distance(t, gs[best as int].1 as int),
                forall|j: int| 0 <= j < i ==> best_d <= #[trigger] distance(t, gs[j].1 as int),
                forall|j: int| 0 <= j < best ==> best_d < #[trigger] distance(t, gs[j].1 as int),
            decreases n - i,
        {
            let d = abs_diff(wpm, self.guesses[i].wpm);
            assert(self.guesses@[i as int]@ == gs[i as int]);
            if d < best_d {
                best = i;
                best_d = d;
            }
            i = i + 1;
        }
        assert(is_winner_index(gs, t, best as int));
        proof {
            let c = choose|k: int| is_winner_index(gs, t, k);
            lemma_winner_index_unique(gs, t, c, best as int);
        }
        assert(self.guesses@[best as int]@ == gs[best as int]);
        let user = self.guesses[best].user.clone();
        let value = self.guesses[best].wpm;
        self.guesses.clear();
        self.last_winner = Some(user.clone());
        assert(self@.guesses =~= Seq::<(Seq<char>, usize)>::empty());
        Some((user, value))
    }

    /// The live standings against the measured value `live`: every guess
    /// with its distance, closest first. Equally close guesses keep their
    /// order of arrival.
    pub fn standings(&self, live: u8) -> (r: Vec<Standing>)
        ensures
            sorted_by_distance(standing_views(r@)),
            forall|d: int|
                #[trigger] lines_at(standing_views(r@), d) == lines_at(
                    standing_lines(self@.guesses, live as int),
                    d,
                ),
    {
        let ghost gs = self@.guesses;
        let ghost es = standing_lines(gs, live as int);
        let mut r: Vec<Standing> = Vec::new();
        let n = self.guesses.len();
        let mut i: usize = 0;
        while i < n
            invariant
                n == self.guesses.len(),
                gs == self@.guesses,
                es == standing_lines(gs, live as int),
                0 <= i <= n,
                sorted_by_distance(standing_views(r@)),
                forall|d: int|
                    #[trigger] lines_at(standing_views(r@), d) == lines_at(
                        es.subrange(0, i as int),
                        d,
                    ),
            decreases n - i,
        {
            let ghost rv = standing_views(r@);
            assert(self.guesses@[i as int]@ == gs[i as int]);
            let dist = abs_diff(live as usize, self.guesses[i].wpm);
            let line = Standing { user: self.guesses[i].user.clone(), wpm: self.guesses[i].wpm, distance: dist };
            let ghost x = line@;
            assert(x == es[i as int]);
            let mut k: usize = 0;
            while k < r.len() && r[k].distance <= dist
                invariant
                    0 <= k <= r.len(),
                    rv == standing_views(r@),
                    forall|m: int| 0 <= m < k ==> #[trigger] rv[m].2 <= dist,
                decreases r.len() - k,
            {
                k = k + 1;
            }
            r.insert(k, line);
            proof {
                let a = rv.subrange(0, k as int);
                let b = rv.subrange(k as int, rv.len() as int);
                let nv = standing_views(r@);
                assert(nv =~= a + seq![x] + b);
                assert(rv =~= a + b);
                assert forall|m: int| 0 <= m < b.len() implies #[trigger] b[m].2 > dist by {
                    assert(rv[k as int].2 > dist);
                    assert(rv[k as int].2 <= rv[k + m].2);
                }
                assert forall|p: int, q: int| 0 <= p < q < nv.len() implies #[trigger] nv[p].2
                    <= #[trigger] nv[q].2 by {
                    if q < k {
                    } else if q == k {
                    } else if p < k {
                        assert(rv[p].2 <= dist);
                        assert(b[q - k - 1].2 > dist);
                    } else if p == k {
                        assert(b[q - k - 1].2 > dist);
                    } else {
                        assert(rv[p - 1].2 <= rv[q - 1].2);
                    }
                }
                assert(es.subrange(0, i + 1) =~= es.subrange(0, i as int).push(x));
                assert forall|d: int| #[trigger] lines_at(nv, d) == lines_at(
                    es.subrange(0, i + 1),
                    d,
                ) by {
                    let pred = at_distance(d);
                    Seq::filter_distributes_over_add(a + seq![x], b, pred);
                    Seq::filter_distributes_over_add(a, seq![x], pred);
                    Seq::filter_distributes_over_add(a, b, pred);
                    lemma_lines_at_single(x, d);
                    es.subrange(0, i as int).lemma_filter_push(x, pred);
                    assert(lines_at(rv, d) == lines_at(es.subrange(0, i as int), d));
                    if x.2 == d {
                        lemma_lines_at_none(b, d);
                        assert(lines_at(nv, d) =~= lines_at(a, d).push(x));
                        assert(lines_at(rv, d) =~= lines_at(a, d));
                    } else {
                        assert(lines_at(nv, d) =~= lines_at(a, d) + lines_at(b, d));
                    }
                }
            }
            i = i + 1;
        }
        assert(es.subrange(0, n as int) =~= es);
        r
    }
}

} // verus!
