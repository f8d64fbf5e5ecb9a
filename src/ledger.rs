//! The clack ledger: accounts, the transactions that credit them, and the
//! decisions taken on each reward redemption and daily claim.

use rand::distributions::{Distribution, WeightedIndex};
use rand::rngs::{OsRng, StdRng};
use rand::SeedableRng;
use vstd::prelude::*;
use crate::types::Redemption;
use crate::text::{extract_int, push_signed_decimal, signed_decimal_text, title_amount};

verus! {

/// A community member. Times are seconds since the Unix epoch.
#[derive(Debug, Clone)]
pub struct User {
    pub id: i32,
    pub username: String,
    pub discord_id: Option<String>,
    pub discord_name: Option<String>,
    pub twitch_id: Option<String>,
    pub twitch_name: Option<String>,
    pub clacks: i32,
    pub modified_at: Option<i64>,
    pub created_at: Option<i64>,
    pub last_daily_at: Option<i64>,
}

/// A member about to be stored.
#[derive(Debug)]
pub struct NewUser {
    pub username: String,
    pub discord_id: Option<String>,
    pub discord_name: Option<String>,
    pub twitch_id: Option<String>,
    pub twitch_name: Option<String>,
}

/// A stored ledger line. Times are seconds since the Unix epoch.
#[derive(Debug, Clone)]
pub struct Transaction {
    pub id: i32,
    pub user_id: i32,
    pub description: String,
    pub clacks: i32,
    pub modified_at: Option<i64>,
    pub created_at: Option<i64>,
}

/// A ledger line about to be stored.
#[derive(Debug)]
pub struct NewTransaction {
    pub user_id: i32,
    pub description: String,
    pub clacks: i32,
}

/// What the ledger needs to know of a member to credit them: their id and
/// balance.
pub open spec fn account_of(user: Option<&User>) -> Option<(i32, i32)> {
    match user {
        Some(u) => Some((u.id, u.clacks)),
        None => None,
    }
}

/// What to do with one redemption.
#[derive(Debug, Clone, Copy, PartialEq, Eq, Structural)]
pub enum RedemptionPlan {
    /// The reward's title holds no usable number: leave the redemption
    /// alone.
    NoAmount,
    /// Nobody linked this platform account: ask the viewer to link it and
    /// leave the redemption pending.
    NotLinked,
    /// Already credited: only acknowledge it on the platform.
    AlreadyCredited,
    /// The balance would not fit: leave the redemption pending.
    BalanceOverflow,
    /// Record a transaction of `amount` for the member, whose balance
    /// becomes `new_balance`, then acknowledge the redemption.
    Credit { user_id: i32, amount: i32, new_balance: i32 },
}

/// The decision for redemption `id` of the reward titled `title` by the
/// member `account`, when the ids in `credited` were credited before.
pub open spec fn plan_of(
    credited: Seq<Seq<char>>,
    id: Seq<char>,
    title: Seq<char>,
    account: Option<(i32, i32)>,
) -> RedemptionPlan {
    match title_amount(title) {
        None => RedemptionPlan::NoAmount,
        Some(amount) => match account {
            None => RedemptionPlan::NotLinked,
            Some(acc) => if credited.contains(id) {
                RedemptionPlan::AlreadyCredited
            } else if acc.1 + amount > i32::MAX {
                RedemptionPlan::BalanceOverflow
            } else {
                RedemptionPlan::Credit {
                    user_id: acc.0,
                    amount,
                    new_balance: (acc.1 + amount) as i32,
                }
            },
        },
    }
}

/// Remembers which redemptions were credited, so that a redemption seen
/// twice (by polling and by push, or after a failed acknowledgement) is
/// credited once.
#[derive(Debug)]
pub struct Reconciler {
    credited: Vec<String>,
    notified: Vec<String>,
}

impl View for Reconciler {
    type V = Seq<Seq<char>>;

    closed spec fn view(&self) -> Seq<Seq<char>> {
        self.credited@.map_values(|s: String| s@)
    }
}

impl Reconciler {
    /// The redemptions whose viewer was already asked to link an account.
    pub closed spec fn notified_view(&self) -> Seq<Seq<char>> {
        self.notified@.map_values(|s: String| s@)
    }

    /// Each credited id is listed once.
    pub open spec fn wf(&self) -> bool {
        self@.no_duplicates()
    }

    /// Nothing credited yet.
    pub fn new() -> (r: Reconciler)
        ensures
            r.wf(),
            r@ == Seq::<Seq<char>>::empty(),
            r.notified_view() == Seq::<Seq<char>>::empty(),
    {
        let r = Reconciler { credited: Vec::new(), notified: Vec::new() };
        assert(r@ =~= Seq::<Seq<char>>::empty());
        assert(r.notified_view() =~= Seq::<Seq<char>>::empty());
        r
    }

    /// Was redemption `id` credited?
    pub fn has_credited(&self, id: &str) -> (r: bool)
        ensures
            r == self@.contains(id@),
    {
        let mut i: usize = 0;
        while i < self.credited.len()
            invariant
                0 <= i <= self.credited.len(),
                forall|k: int| 0 <= k < i ==> #[trigger] self@[k] != id@,
            decreases self.credited.len() - i,
        {
            if crate::text::str_eq(self.credited[i].as_str(), id) {
                assert(self@[i as int] == id@);
                return true;
            }
            i = i + 1;
        }
        false
    }

    /// Decides what to do with redemption `id` of the reward titled
    /// `reward_title`, claimed by `user` (`None` when no member linked the
    /// claiming account).
    pub fn plan(&self, id: &str, reward_title: &str, user: Option<&User>) -> (r: RedemptionPlan)
        ensures
            r == plan_of(self@, id@, reward_title@, account_of(user)),
    {
        let amount = match extract_int(reward_title) {
            Some(a) => a,
            None => return RedemptionPlan::NoAmount,
        };
        let u = match user {
            Some(u) => u,
            None => return RedemptionPlan::NotLinked,
        };
        if self.has_credited(id) {
            return RedemptionPlan::AlreadyCredited;
        }
        if u.clacks as i64 + amount as i64 > 2147483647 {
            return RedemptionPlan::BalanceOverflow;
        }
        RedemptionPlan::Credit { user_id: u.id, amount, new_balance: u.clacks + amount }
    }

    /// Was the viewer of redemption `id` asked to link an account?
    pub fn has_notified(&self, id: &str) -> (r: bool)
        ensures
            r == self.notified_view().contains(id@),
    {
        let mut i: usize = 0;
        while i < self.notified.len()
            invariant
                0 <= i <= self.notified.len(),
                forall|k: int| 0 <= k < i ==> #[trigger] self.notified_view()[k] != id@,
            decreases self.notified.len() - i,
        {
            if crate::text::str_eq(self.notified[i].as_str(), id) {
                assert(self.notified_view()[i as int] == id@);
                return true;
            }
            i = i + 1;
        }
        false
    }

    /// Notes that the viewer of redemption `id` was asked to link an
    /// account.
    pub fn mark_notified(&mut self, id: &str)
        ensures
            final(self)@ == old(self)@,
            final(self).notified_view().contains(id@),
            forall|x: Seq<char>|
                #[trigger] old(self).notified_view().contains(x)
                    ==> final(self).notified_view().contains(x),
    {
        if !self.has_notified(id) {
            let ghost before = self.notified_view();
            self.notified.push(String::from_str(id));
            assert(self.notified_view() =~= before.push(id@));
            assert(self.notified_view()[before.len() as int] == id@);
            assert forall|x: Seq<char>| #[trigger] before.contains(x) implies self.notified_view().contains(x) by {
                let k = choose|k: int| 0 <= k < before.len() && before[k] == x;
                assert(self.notified_view()[k] == x);
            }
        }
    }

    /// Notes that redemption `id` was credited.
    pub fn record(&mut self, id: &str)
        requires
            old(self).wf(),
        ensures
            final(self).wf(),
            final(self)@ == (if old(self)@.contains(id@) {
                old(self)@
            } else {
                old(self)@.push(id@)
            }),
    {
        if !self.has_credited(id) {
            self.credited.push(String::from_str(id));
            assert(self@ =~= old(self)@.push(id@));
            assert(self.notified_view() == old(self).notified_view());
        }
    }
}

/// The ids credited, in order, when the redemptions in `attempts` are
/// processed one after another from `credited`; each attempt is an id, a
/// reward title and the claiming member.
pub open spec fn credits_of(
    credited: Seq<Seq<char>>,
    attempts: Seq<(Seq<char>, Seq<char>, Option<(i32, i32)>)>,
) -> Seq<Seq<char>>
    decreases attempts.len(),
{
    if attempts.len() == 0 {
        Seq::empty()
    } else {
        let prev = credits_of(credited, attempts.drop_last());
        let a = attempts.last();
        if plan_of(credited + prev, a.0, a.1, a.2) is Credit {
            prev.push(a.0)
        } else {
            prev
        }
    }
}

/// Reconciliation is idempotent: however often, and in whatever order,
/// redemptions are processed, no redemption id is credited twice, and none
/// that was credited before. So the credited total is the sum over distinct
/// redemption ids, not over processing attempts.
pub proof fn lemma_credited_once(
    credited: Seq<Seq<char>>,
    attempts: Seq<(Seq<char>, Seq<char>, Option<(i32, i32)>)>,
)
    ensures
        credits_of(credited, attempts).no_duplicates(),
        forall|i: int|
            0 <= i < credits_of(credited, attempts).len() ==> !credited.contains(
                #[trigger] credits_of(credited, attempts)[i],
            ),
    decreases attempts.len(),
{
    if attempts.len() > 0 {
        let prev = credits_of(credited, attempts.drop_last());
        lemma_credited_once(credited, attempts.drop_last());
        let a = attempts.last();
        if plan_of(credited + prev, a.0, a.1, a.2) is Credit {
            let all = credited + prev;
            assert(!all.contains(a.0));
            let cur = prev.push(a.0);
            assert forall|i: int, j: int| 0 <= i < cur.len() && 0 <= j < cur.len() && i != j implies cur[i]
                != cur[j] by {
                if i < prev.len() && j < prev.len() {
                } else if i < prev.len() {
                    assert(all[credited.len() + i] == prev[i]);
                } else {
                    assert(all[credited.len() + j] == prev[j]);
                }
            }
            assert forall|i: int| 0 <= i < cur.len() implies !credited.contains(#[trigger] cur[i]) by {
                if i == prev.len() {
                    if credited.contains(a.0) {
                        let k = choose|k: int| 0 <= k < credited.len() && credited[k] == a.0;
                        assert(all[k] == a.0);
                    }
                }
            }
        }
    }
}

/// A redemption whose reward title holds no number is a no-op, not an
/// error that stops the others: wherever it stands among the attempts, the
/// same redemptions are credited as if it were not there.
pub proof fn lemma_no_amount_changes_nothing(
    credited: Seq<Seq<char>>,
    before: Seq<(Seq<char>, Seq<char>, Option<(i32, i32)>)>,
    skipped: (Seq<char>, Seq<char>, Option<(i32, i32)>),
    after: Seq<(Seq<char>, Seq<char>, Option<(i32, i32)>)>,
)
    requires
        title_amount(skipped.1) is None,
    ensures
        credits_of(credited, before.push(skipped) + after) == credits_of(credited, before + after),
    decreases after.len(),
{
    if after.len() == 0 {
        assert(before.push(skipped) + after =~= before.push(skipped));
        assert(before + after =~= before);
        assert(before.push(skipped).drop_last() =~= before);
    } else {
        lemma_no_amount_changes_nothing(credited, before, skipped, after.drop_last());
        assert((before.push(skipped) + after).drop_last() =~= before.push(skipped)
            + after.drop_last());
        assert((before + after).drop_last() =~= before + after.drop_last());
    }
}

/// Processing the same redemption a second time, once it was credited,
/// credits nothing.
pub proof fn lemma_second_attempt_credits_nothing(
    credited: Seq<Seq<char>>,
    id: Seq<char>,
    title: Seq<char>,
    account: Option<(i32, i32)>,
    later_account: Option<(i32, i32)>,
)
    requires
        plan_of(credited, id, title, account) is Credit,
    ensures
        !(plan_of(credited.push(id), id, title, later_account) is Credit),
{
    assert(credited.push(id)[credited.len() as int] == id);
}

/// The description of the ledger line for a redeemed reward.
pub open spec fn redemption_description(title: Seq<char>) -> Seq<char> {
    "Redeemed Twitch reward '"@ + title + "'"@
}

/// The ledger line for crediting `amount` to member `user_id` for the
/// reward titled `title`.
pub fn redemption_transaction(user_id: i32, title: &str, amount: i32) -> (r: NewTransaction)
    ensures
        r.user_id == user_id,
        r.description@ == redemption_description(title@),
        r.clacks == amount,
{
    let mut d = String::from_str("Redeemed Twitch reward '");
    d.append(title);
    d.append("'");
    NewTransaction { user_id, description: d, clacks: amount }
}

/// The ledger line for a daily win of `amount` by member `user_id`.
pub fn daily_transaction(user_id: i32, amount: i32) -> (r: NewTransaction)
    ensures
        r.user_id == user_id,
        r.description@ == "Daily clacks"@,
        r.clacks == amount,
{
    NewTransaction { user_id, description: String::from_str("Daily clacks"), clacks: amount }
}

/// The name a member is addressed by in chat.
pub open spec fn chat_name(user: User) -> Seq<char> {
    match user.twitch_name {
        Some(n) => n@,
        None => user.username@,
    }
}

/// The chat confirmation of a credited reward.
pub open spec fn credit_message_text(name: Seq<char>, title: Seq<char>, amount: int, balance: int) -> Seq<char> {
    name + " your \""@ + title + "\" reward has been processed! You've got credited "@
        + signed_decimal_text(amount) + " clacks, you now have "@ + signed_decimal_text(balance)
        + " clacks."@
}

/// Tells `user` in chat that the reward titled `title` was credited with
/// `amount`, leaving `balance`.
pub fn credit_message(user: &User, title: &str, amount: i32, balance: i32) -> (r: String)
    ensures
        r@ == credit_message_text(chat_name(*user), title@, amount as int, balance as int),
{
    let mut t = match &user.twitch_name {
        Some(n) => n.clone(),
        None => user.username.clone(),
    };
    t.append(" your \"");
    t.append(title);
    t.append("\" reward has been processed! You've got credited ");
    push_signed_decimal(&mut t, amount as i64);
    t.append(" clacks, you now have ");
    push_signed_decimal(&mut t, balance as i64);
    t.append(" clacks.");
    t
}

/// The chat message asking a viewer to link their account first.
pub open spec fn link_instruction_text(user_name: Seq<char>, invite: Option<Seq<char>>) -> Seq<char> {
    user_name + " you need to link your Twitch account in our Discord"@ + match invite {
        Some(i) => ": "@ + i,
        None => Seq::empty(),
    } + " using the /link command on the #bot-spam channel. Once you finish, all pending rewards will be processed automatically."@
}

/// Asks `user_name` to link their account, pointing to the community's
/// `invite` when there is one.
pub fn link_instruction(user_name: &str, invite: Option<&str>) -> (r: String)
    ensures
        r@ == link_instruction_text(
            user_name@,
            match invite {
                Some(i) => Some(i@),
                None => None,
            },
        ),
{
    let mut t = String::from_str(user_name);
    t.append(" you need to link your Twitch account in our Discord");
    match invite {
        Some(i) => {
            t.append(": ");
            t.append(i);
        },
        None => {},
    }
    t.append(" using the /link command on the #bot-spam channel. Once you finish, all pending rewards will be processed automatically.");
    assert(t@ =~= link_instruction_text(
        user_name@,
        match invite {
            Some(i) => Some(i@),
            None => None,
        },
    ));
    t
}

/// Everything to do about one redemption, in order: store the ledger line
/// (and then call `Reconciler::record`), acknowledge the redemption on the
/// platform, send the chat message.
#[derive(Debug)]
pub struct RedemptionSteps {
    pub plan: RedemptionPlan,
    pub transaction: Option<NewTransaction>,
    pub acknowledge: bool,
    pub message: Option<String>,
}

impl Reconciler {
    /// The steps for redemption `id` of the reward titled `reward_title`,
    /// claimed by the viewer `user_name`, whose member record is `user`
    /// (`None` when nobody linked that account). A viewer with no member
    /// record is asked to link one when `notify_unlinked` holds and they
    /// were not yet asked for this redemption, pointing to `invite` if
    /// given; their redemption stays pending.
    pub fn steps(
        &self,
        id: &str,
        reward_title: &str,
        user_name: &str,
        user: Option<&User>,
        notify_unlinked: bool,
        invite: Option<&str>,
    ) -> (r: RedemptionSteps)
        ensures
            r.plan == plan_of(self@, id@, reward_title@, account_of(user)),
            r.acknowledge == (r.plan is Credit || r.plan is AlreadyCredited),
            match r.plan {
                RedemptionPlan::Credit { user_id, amount, new_balance } => match (
                    r.transaction,
                    r.message,
                    user,
                ) {
                    (Some(t), Some(m), Some(u)) => t.user_id == user_id && t.clacks == amount
                        && t.description@ == redemption_description(reward_title@) && m@
                        == credit_message_text(
                        chat_name(*u),
                        reward_title@,
                        amount as int,
                        new_balance as int,
                    ),
                    _ => false,
                },
                RedemptionPlan::NotLinked => r.transaction is None && if notify_unlinked
                    && !self.notified_view().contains(id@) {
                    match r.message {
                        Some(m) => m@ == link_instruction_text(
                            user_name@,
                            match invite {
                                Some(i) => Some(i@),
                                None => None,
                            },
                        ),
                        None => false,
                    }
                } else {
                    r.message is None
                },
                _ => r.transaction is None && r.message is None,
            },
    {
        let plan = self.plan(id, reward_title, user);
        match plan {
            RedemptionPlan::Credit { user_id, amount, new_balance } => {
                let u = user.unwrap();
                RedemptionSteps {
                    plan,
                    transaction: Some(redemption_transaction(user_id, reward_title, amount)),
                    acknowledge: true,
                    message: Some(credit_message(u, reward_title, amount, new_balance)),
                }
            },
            RedemptionPlan::AlreadyCredited => RedemptionSteps {
                plan,
                transaction: None,
                acknowledge: true,
                message: None,
            },
            RedemptionPlan::NotLinked => RedemptionSteps {
                plan,
                transaction: None,
                acknowledge: false,
                message: if notify_unlinked && !self.has_notified(id) {
                    Some(link_instruction(user_name, invite))
                } else {
                    None
                },
            },
            _ => RedemptionSteps { plan, transaction: None, acknowledge: false, message: None },
        }
    }
}

impl User {
    /// The steps for this member's `redemption`, given what `reconciler`
    /// has credited so far.
    pub fn process_redemption(&self, reconciler: &Reconciler, redemption: &Redemption) -> (r: RedemptionSteps)
        ensures
            r.plan == plan_of(
                reconciler@,
                redemption.id@,
                redemption.reward.title@,
                Some((self.id, self.clacks)),
            ),
            r.acknowledge == (r.plan is Credit || r.plan is AlreadyCredited),
            !(r.plan is NotLinked),
            match r.plan {
                RedemptionPlan::Credit { user_id, amount, new_balance } => match (
                    r.transaction,
                    r.message,
                ) {
                    (Some(t), Some(m)) => t.user_id == user_id && t.clacks == amount
                        && t.description@ == redemption_description(redemption.reward.title@)
                        && m@ == credit_message_text(
                        chat_name(*self),
                        redemption.reward.title@,
                        amount as int,
                        new_balance as int,
                    ),
                    _ => false,
                },
                _ => r.transaction is None && r.message is None,
            },
    {
        reconciler.steps(
            redemption.id.as_str(),
            redemption.reward.title.as_str(),
            redemption.user_name.as_str(),
            Some(self),
            false,
            None,
        )
    }
}

/// The answer to a daily claim.
#[derive(Debug, Clone, Copy, PartialEq, Eq, Structural)]
pub enum DailyResult {
    /// This many clacks were won.
    Success(i32),
    /// Too early: this many hours are left to wait.
    AlreadyClaimed(i64),
}

/// Whole hours from `from` to `to` (seconds), rounded toward zero.
pub open spec fn hours_between(from: int, to: int) -> int {
    if to - from >= 0 {
        (to - from) / 3600
    } else {
        -((from - to) / 3600)
    }
}

/// Hours left before the next daily claim, when a claim made at `last`
/// blocks one made at `now`: claims are 24 whole hours apart.
pub open spec fn daily_wait(now: int, last: Option<i64>) -> Option<int> {
    match last {
        Some(l) => if hours_between(l as int, now) < 24 {
            Some(24 - hours_between(l as int, now))
        } else {
            None
        },
        None => None,
    }
}

/// Hours left to wait before claiming at `now`, after a claim at `last`;
/// `None` when a claim is allowed.
pub fn daily_wait_hours(now: i64, last: Option<i64>) -> (r: Option<i64>)
    ensures
        r == (match daily_wait(now as int, last) {
            Some(h) => Some(h as i64),
            None => None::<i64>,
        }),
{
    match last {
        Some(l) => {
            let d: i128 = now as i128 - l as i128;
            let hours: i128 = if d >= 0 {
                d / 3600
            } else {
                0 - ((0 - d) / 3600)
            };
            if hours < 24 {
                Some((24 - hours) as i64)
            } else {
                None
            }
        },
        None => None,
    }
}

/// The odds of the daily draw: weight of winning 1, 2, ... 10 clacks.
pub fn daily_weights() -> (r: Vec<u32>)
    ensures
        r@ == seq![1000u32, 512, 256, 128, 64, 32, 16, 8, 4, 1],
{
    let r: Vec<u32> = vec![1000, 512, 256, 128, 64, 32, 16, 8, 4, 1];
    assert(r@ =~= seq![1000u32, 512, 256, 128, 64, 32, 16, 8, 4, 1]);
    r
}

/// Sum of a list of weights.
pub open spec fn total_weight(w: Seq<u32>) -> int
    decreases w.len(),
{
    if w.len() == 0 {
        0
    } else {
        total_weight(w.drop_last()) + w.last()
    }
}

/// Relies on rand's `WeightedIndex::new` and `sample`, with a `StdRng`
/// seeded by `from_rng(OsRng)`: an index of `weights`, drawn at random, or
/// `None` when the system's random source fails. `new` fails on an empty
/// list or a zero total, and adds the weights in `u32`.
#[verifier::external_body]
fn draw_weighted(weights: &Vec<u32>) -> (r: Option<usize>)
    requires
        weights@.len() > 0,
        0 < total_weight(weights@) <= u32::MAX,
    ensures
        r matches Some(i) ==> i < weights@.len(),
{
    let dist = WeightedIndex::new(weights).unwrap();
    match StdRng::from_rng(OsRng) {
        Ok(mut rng) => Some(dist.sample(&mut rng)),
        Err(_) => None,
    }
}

/// The answer to a daily claim at `now` after a claim at `last`, where
/// `draw` is the index drawn from the daily odds.
pub fn daily_result(now: i64, last: Option<i64>, draw: usize) -> (r: DailyResult)
    requires
        draw < 10,
    ensures
        r == (match daily_wait(now as int, last) {
            Some(h) => DailyResult::AlreadyClaimed(h as i64),
            None => DailyResult::Success((draw + 1) as i32),
        }),
{
    match daily_wait_hours(now, last) {
        Some(h) => DailyResult::AlreadyClaimed(h),
        None => DailyResult::Success(draw as i32 + 1),
    }
}

/// A daily claim at `now` after a claim at `last`: either the hours left to
/// wait, or a random win of 1 to 10 clacks, smaller wins being likelier.
/// `None` when no random number could be drawn.
pub fn claim_daily(now: i64, last: Option<i64>) -> (r: Option<DailyResult>)
    ensures
        daily_wait(now as int, last) matches Some(h) ==> r == Some(
            DailyResult::AlreadyClaimed(h as i64),
        ),
        daily_wait(now as int, last) is None ==> (r matches Some(DailyResult::Success(a)) ==> 1
            <= a <= 10),
        daily_wait(now as int, last) is None ==> !(r matches Some(DailyResult::AlreadyClaimed(_))),
{
    if let Some(h) = daily_wait_hours(now, last) {
        return Some(DailyResult::AlreadyClaimed(h));
    }
    let weights = daily_weights();
    proof {
        let w = weights@;
        reveal_with_fuel(total_weight, 11);
        assert(w.drop_last() =~= seq![1000u32, 512, 256, 128, 64, 32, 16, 8, 4]);
        assert(w.drop_last().drop_last() =~= seq![1000u32, 512, 256, 128, 64, 32, 16, 8]);
        assert(w.drop_last().drop_last().drop_last() =~= seq![1000u32, 512, 256, 128, 64, 32, 16]);
        assert(w.subrange(0, 6) =~= seq![1000u32, 512, 256, 128, 64, 32]);
        assert(w.subrange(0, 5) =~= seq![1000u32, 512, 256, 128, 64]);
        assert(w.subrange(0, 4) =~= seq![1000u32, 512, 256, 128]);
        assert(w.subrange(0, 3) =~= seq![1000u32, 512, 256]);
        assert(w.subrange(0, 2) =~= seq![1000u32, 512]);
        assert(w.subrange(0, 1) =~= seq![1000u32]);
        assert(w.subrange(0, 0) =~= Seq::<u32>::empty());
        assert(total_weight(w) == 2021);
    }
    match draw_weighted(&weights) {
        Some(draw) => Some(daily_result(now, last, draw)),
        None => None,
    }
}

} // verus!
