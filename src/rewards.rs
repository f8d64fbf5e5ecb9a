//! Building custom rewards, and keeping the channel's catalog stocked with
//! the rewards this bot pays out.

use vstd::prelude::*;
use crate::types::{
    CooldownSetting, Image, RedemptionPerStreamLimitSetting, RedemptionPerUserStreamLimitSetting,
    Reward,
};

verus! {

/// Link of the platform's placeholder image at the given scale.
pub open spec fn placeholder_url(scale: int) -> Seq<char> {
    if scale == 1 {
        "https://static-cdn.jtvnw.net/custom-reward-images/default-1.png"@
    } else if scale == 2 {
        "https://static-cdn.jtvnw.net/custom-reward-images/default-2.png"@
    } else {
        "https://static-cdn.jtvnw.net/custom-reward-images/default-4.png"@
    }
}

/// `u` is the placeholder link at `scale`.
pub open spec fn is_placeholder(u: Option<String>, scale: int) -> bool {
    match u {
        Some(s) => s@ == placeholder_url(scale),
        None => false,
    }
}

/// The placeholder images at all three scales.
pub open spec fn is_placeholder_image(i: Image) -> bool {
    is_placeholder(i.url_1x, 1) && is_placeholder(i.url_2x, 2) && is_placeholder(i.url_4x, 4)
}

/// The presentation every reward of this bot gets: fixed colour,
/// placeholder images, enabled and in stock, no caps and no cooldown.
pub open spec fn has_default_presentation(r: Reward) -> bool {
    &&& r.background_color@ == "#6441A4"@
    &&& match r.image {
        Some(i) => is_placeholder_image(i),
        None => false,
    }
    &&& is_placeholder_image(r.default_image)
    &&& r.is_enabled
    &&& !r.is_user_input_required
    &&& !r.max_per_stream_setting.is_enabled
    &&& r.max_per_stream_setting.max_per_stream is None
    &&& !r.max_per_user_per_stream_setting.is_enabled
    &&& r.max_per_user_per_stream_setting.max_per_user_per_stream is None
    &&& !r.global_cooldown_setting.is_enabled
    &&& r.global_cooldown_setting.global_cooldown_seconds == 0
    &&& !r.is_paused
    &&& r.is_in_stock
    &&& !r.should_redemptions_skip_request_queue
    &&& r.redemptions_redeemed_current_stream is None
    &&& r.cooldown_expires_at is None
}

/// A reward not yet created: no id and no broadcaster.
pub open spec fn is_unregistered(r: Reward) -> bool {
    &&& r.broadcaster_id@ == Seq::<char>::empty()
    &&& r.broadcaster_login@ == Seq::<char>::empty()
    &&& r.broadcaster_name@ == Seq::<char>::empty()
    &&& r.id@ == Seq::<char>::empty()
}

fn placeholder_image() -> (r: Image)
    ensures
        is_placeholder_image(r),
{
    Image {
        url_1x: Some(String::from_str("https://static-cdn.jtvnw.net/custom-reward-images/default-1.png")),
        url_2x: Some(String::from_str("https://static-cdn.jtvnw.net/custom-reward-images/default-2.png")),
        url_4x: Some(String::from_str("https://static-cdn.jtvnw.net/custom-reward-images/default-4.png")),
    }
}

/// Collects the fields of a reward before it is created.
#[derive(Debug)]
pub struct RewardBuilder {
    title: String,
    cost: i32,
    prompt: String,
    is_enabled: bool,
    is_user_input_required: bool,
    background_color: String,
    image: Option<Image>,
    default_image: Image,
    max_per_stream_setting: RedemptionPerStreamLimitSetting,
    max_per_user_per_stream_setting: RedemptionPerUserStreamLimitSetting,
    global_cooldown_setting: CooldownSetting,
    is_paused: bool,
    is_in_stock: bool,
    should_redemptions_skip_request_queue: bool,
    redemptions_redeemed_current_stream: Option<i32>,
    cooldown_expires_at: Option<String>,
}

impl RewardBuilder {
    /// The title of the reward to be built.
    pub closed spec fn title_view(&self) -> Seq<char> {
        self.title@
    }

    /// The cost of the reward to be built.
    pub closed spec fn cost_view(&self) -> i32 {
        self.cost
    }

    /// The prompt of the reward to be built.
    pub closed spec fn prompt_view(&self) -> Seq<char> {
        self.prompt@
    }

    /// The reward to be built has the default presentation.
    pub closed spec fn keeps_defaults(&self) -> bool {
        &&& self.background_color@ == "#6441A4"@
        &&& match self.image {
            Some(i) => is_placeholder_image(i),
            None => false,
        }
        &&& is_placeholder_image(self.default_image)
        &&& self.is_enabled
        &&& !self.is_user_input_required
        &&& !self.max_per_stream_setting.is_enabled
        &&& self.max_per_stream_setting.max_per_stream is None
        &&& !self.max_per_user_per_stream_setting.is_enabled
        &&& self.max_per_user_per_stream_setting.max_per_user_per_stream is None
        &&& !self.global_cooldown_setting.is_enabled
        &&& self.global_cooldown_setting.global_cooldown_seconds == 0
        &&& !self.is_paused
        &&& self.is_in_stock
        &&& !self.should_redemptions_skip_request_queue
        &&& self.redemptions_redeemed_current_stream is None
        &&& self.cooldown_expires_at is None
    }

    /// A builder for a reward with this title and cost, an empty prompt and
    /// the default presentation.
    pub fn new(title: String, cost: i32) -> (r: Self)
        ensures
            r.title_view() == title@,
            r.cost_view() == cost,
            r.prompt_view() == Seq::<char>::empty(),
            r.keeps_defaults(),
    {
        RewardBuilder {
            title,
            cost,
            prompt: String::new(),
            is_enabled: true,
            is_user_input_required: false,
            background_color: String::from_str("#6441A4"),
            image: Some(placeholder_image()),
            default_image: placeholder_image(),
            max_per_stream_setting: RedemptionPerStreamLimitSetting {
                is_enabled: false,
                max_per_stream: None,
            },
            max_per_user_per_stream_setting: RedemptionPerUserStreamLimitSetting {
                is_enabled: false,
                max_per_user_per_stream: None,
            },
            global_cooldown_setting: CooldownSetting {
                is_enabled: false,
                global_cooldown_seconds: 0,
            },
            is_paused: false,
            is_in_stock: true,
            should_redemptions_skip_request_queue: false,
            redemptions_redeemed_current_stream: None,
            cooldown_expires_at: None,
        }
    }

    /// Sets the prompt shown to viewers.
    pub fn prompt(self, prompt: String) -> (r: Self)
        ensures
            r.title_view() == self.title_view(),
            r.cost_view() == self.cost_view(),
            r.prompt_view() == prompt@,
            r.keeps_defaults() == self.keeps_defaults(),
    {
        let mut b = self;
        b.prompt = prompt;
        b
    }

    /// The reward, not yet created on the platform.
    pub fn build(self) -> (r: Reward)
        ensures
            r.title@ == self.title_view(),
            r.cost == self.cost_view(),
            r.prompt@ == self.prompt_view(),
            is_unregistered(r),
            self.keeps_defaults() ==> has_default_presentation(r),
    {
        Reward {
            broadcaster_id: String::new(),
            broadcaster_login: String::new(),
            broadcaster_name: String::new(),
            id: String::new(),
            title: self.title,
            prompt: self.prompt,
            cost: self.cost,
            image: self.image,
            default_image: self.default_image,
            background_color: self.background_color,
            is_enabled: self.is_enabled,
            is_user_input_required: self.is_user_input_required,
            max_per_stream_setting: self.max_per_stream_setting,
            max_per_user_per_stream_setting: self.max_per_user_per_stream_setting,
            global_cooldown_setting: self.global_cooldown_setting,
            is_paused: self.is_paused,
            is_in_stock: self.is_in_stock,
            should_redemptions_skip_request_queue: self.should_redemptions_skip_request_queue,
            redemptions_redeemed_current_stream: self.redemptions_redeemed_current_stream,
            cooldown_expires_at: self.cooldown_expires_at,
        }
    }
}

impl Reward {
    /// A builder for a reward with this title and cost.
    pub fn builder(title: String, cost: i32) -> (r: RewardBuilder)
        ensures
            r.title_view() == title@,
            r.cost_view() == cost,
            r.prompt_view() == Seq::<char>::empty(),
            r.keeps_defaults(),
    {
        RewardBuilder::new(title, cost)
    }
}

/// A reward this bot wants on the channel.
#[derive(Debug)]
pub struct RewardSpec {
    pub title: String,
    pub cost: i32,
    pub prompt: String,
}

impl View for RewardSpec {
    type V = (Seq<char>, i32, Seq<char>);

    open spec fn view(&self) -> (Seq<char>, i32, Seq<char>) {
        (self.title@, self.cost, self.prompt@)
    }
}

/// The abstract form of a list of wanted rewards.
pub open spec fn spec_views(s: Seq<RewardSpec>) -> Seq<(Seq<char>, i32, Seq<char>)> {
    s.map_values(|x: RewardSpec| x@)
}

/// Title, cost and prompt of each reward.
pub open spec fn reward_views(s: Seq<Reward>) -> Seq<(Seq<char>, i32, Seq<char>)> {
    s.map_values(|x: Reward| (x.title@, x.cost, x.prompt@))
}

/// The titles of a list of rewards.
pub open spec fn reward_titles(s: Seq<Reward>) -> Seq<Seq<char>> {
    s.map_values(|x: Reward| x.title@)
}

/// Holds of a wanted reward whose title is not among `titles`.
pub open spec fn absent_from(titles: Seq<Seq<char>>) -> spec_fn((Seq<char>, i32, Seq<char>)) -> bool {
    |d: (Seq<char>, i32, Seq<char>)| !titles.contains(d.0)
}

/// The wanted rewards whose title the channel lacks, in the wanted order.
pub open spec fn missing_rewards(
    desired: Seq<(Seq<char>, i32, Seq<char>)>,
    titles: Seq<Seq<char>>,
) -> Seq<(Seq<char>, i32, Seq<char>)> {
    desired.filter(absent_from(titles))
}

/// The rewards this bot pays out: the number in each title is the amount
/// credited.
pub fn desired_rewards() -> (r: Vec<RewardSpec>)
    ensures
        spec_views(r@) == seq![
            ("3 Clacks"@, 100i32, "3 Clacks"@),
            ("10 Clacks"@, 350i32, "5 Clacks"@),
            ("20 Clacks"@, 600i32, "20 Clacks"@),
        ],
{
    let mut r: Vec<RewardSpec> = Vec::new();
    r.push(RewardSpec { title: String::from_str("3 Clacks"), cost: 100, prompt: String::from_str("3 Clacks") });
    r.push(RewardSpec { title: String::from_str("10 Clacks"), cost: 350, prompt: String::from_str("5 Clacks") });
    r.push(RewardSpec { title: String::from_str("20 Clacks"), cost: 600, prompt: String::from_str("20 Clacks") });
    assert(spec_views(r@) =~= seq![
        ("3 Clacks"@, 100i32, "3 Clacks"@),
        ("10 Clacks"@, 350i32, "5 Clacks"@),
        ("20 Clacks"@, 600i32, "20 Clacks"@),
    ]);
    r
}

/// Does some reward carry this title?
pub fn has_title(rewards: &Vec<Reward>, title: &String) -> (r: bool)
    ensures
        r == reward_titles(rewards@).contains(title@),
{
    let mut i: usize = 0;
    while i < rewards.len()
        invariant
            0 <= i <= rewards.len(),
            forall|k: int| 0 <= k < i ==> #[trigger] rewards@[k].title@ != title@,
        decreases rewards.len() - i,
    {
        if rewards[i].title == *title {
            assert(reward_titles(rewards@)[i as int] == title@);
            return true;
        }
        i = i + 1;
    }
    assert forall|k: int| 0 <= k < reward_titles(rewards@).len() implies reward_titles(
        rewards@,
    )[k] != title@ by {
        assert(rewards@[k].title@ != title@);
    }
    false
}

/// The rewards to create so that the channel offers every wanted reward:
/// one for each wanted title that no existing reward carries, with the
/// default presentation. Existing rewards are never changed or removed.
pub fn rewards_to_create(desired: &Vec<RewardSpec>, existing: &Vec<Reward>) -> (r: Vec<Reward>)
    ensures
        reward_views(r@) == missing_rewards(spec_views(desired@), reward_titles(existing@)),
        forall|i: int|
            0 <= i < r@.len() ==> has_default_presentation(#[trigger] r@[i]) && is_unregistered(
                r@[i],
            ),
{
    let ghost ds = spec_views(desired@);
    let ghost ts = reward_titles(existing@);
    let mut r: Vec<Reward> = Vec::new();
    let mut i: usize = 0;
    while i < desired.len()
        invariant
            0 <= i <= desired.len(),
            ds == spec_views(desired@),
            ts == reward_titles(existing@),
            reward_views(r@) == missing_rewards(ds.subrange(0, i as int), ts),
            forall|k: int|
                0 <= k < r@.len() ==> has_default_presentation(#[trigger] r@[k])
                    && is_unregistered(r@[k]),
        decreases desired.len() - i,
    {
        let d = &desired[i];
        let present = has_title(existing, &d.title);
        proof {
            assert(ds.subrange(0, i + 1) =~= ds.subrange(0, i as int).push(ds[i as int]));
            ds.subrange(0, i as int).lemma_filter_push(ds[i as int], absent_from(ts));
        }
        if !present {
            let reward = Reward::builder(d.title.clone(), d.cost).prompt(d.prompt.clone()).build();
            let ghost before = r@;
            r.push(reward);
            assert(reward_views(r@) =~= reward_views(before).push(ds[i as int]));
        }
        i = i + 1;
    }
    assert(ds.subrange(0, desired.len() as int) =~= ds);
    r
}

/// Stocking the catalog is idempotent: once the missing rewards have been
/// created, a second pass finds nothing left to create.
pub proof fn lemma_catalog_sync_idempotent(
    desired: Seq<(Seq<char>, i32, Seq<char>)>,
    titles: Seq<Seq<char>>,
)
    ensures
        missing_rewards(
            desired,
            titles + missing_rewards(desired, titles).map_values(
                |d: (Seq<char>, i32, Seq<char>)| d.0,
            ),
        ).len() == 0,
{
    let created = missing_rewards(desired, titles);
    let added = created.map_values(|d: (Seq<char>, i32, Seq<char>)| d.0);
    let after = titles + added;
    assert forall|k: int| 0 <= k < desired.len() implies !absent_from(after)(desired[k]) by {
        let d = desired[k];
        if titles.contains(d.0) {
            let j = choose|j: int| 0 <= j < titles.len() && titles[j] == d.0;
            assert(after[j] == d.0);
        } else {
            desired.lemma_filter_contains(absent_from(titles), k);
            let j = choose|j: int| 0 <= j < created.len() && created[j] == d;
            assert(after[titles.len() + j] == d.0);
        }
    }
    assert(desired.all(|x: (Seq<char>, i32, Seq<char>)| !absent_from(after)(x)));
    desired.lemma_all_neg_filter_empty(absent_from(after));
}

} // verus!
