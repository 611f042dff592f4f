//! Gathering a voice channel: a countdown, then a check-in that lasts until
//! everyone expected has arrived.
//!
//! Times are nanoseconds on one monotonic clock, durations are nanoseconds, and
//! users and channels are their Discord ids.

use crate::bot::MusicBotError;
use crate::text;
use crate::units::Nanos;
use std::collections::{HashMap, HashSet};
use vstd::prelude::*;

verus! {

broadcast use vstd::std_specs::hash::group_hash_axioms;

/// The countdown before a check-in, unless the command says otherwise.
pub const PREGATHER_DURATION: Nanos = 60_000_000_000;

/// The longest countdown.
pub const MAX_PREGATHER_DURATION: Nanos = 7_200_000_000_000;

/// The time between two rounds of reminders.
pub const GHOST_PING_INTERVAL: Nanos = 30_000_000_000;

/// The longest check-in.
pub const MAX_GATHER_DURATION: Nanos = 1_800_000_000_000;

/// How long a reminder stays up.
pub const GHOST_PING_LIFETIME: Nanos = 700_000_000;

/// The shortest time between two edits of the gathering message.
pub const MIN_EDIT_INTERVAL: Nanos = 5_000_000_000;

/// The longest wait between two looks at the check-in.
pub const LOOP_POLL: Nanos = 800_000_000;

/// The running countdown of a gathering.
#[derive(Clone, Copy)]
pub struct PregatherInfo {
    /// When it began.
    pub started_at: Nanos,
    /// When it began by the wall clock, in nanoseconds since the Unix epoch.
    pub started_at_wall: i128,
    /// How long it was to last, without extensions.
    pub original_duration: Nanos,
}

/// What the commands and the voice events share with a running gathering.
pub struct GatherState {
    /// The voice channel that is gathered.
    pub voice_channel_id: u64,
    /// Users who were added by hand and must check in too.
    pub extra_expected: HashSet<u64>,
    /// Users who were taken off and are still to be dropped.
    pub forgotten: HashSet<u64>,
    /// Users who joined the voice channel and are still to be checked in.
    pub auto_arrived: HashSet<u64>,
    /// Whether reminders are held back.
    pub silent: bool,
    /// The countdown, while it runs.
    pub pregather: Option<PregatherInfo>,
    /// What has been added to the countdown.
    pub pregather_extension: Nanos,
}

/// What a [`GatherState`] holds.
#[verifier::ext_equal]
pub struct GatherView {
    /// The voice channel that is gathered.
    pub voice_channel_id: u64,
    /// Users who were added by hand.
    pub extra_expected: Set<u64>,
    /// Users who are to be dropped.
    pub forgotten: Set<u64>,
    /// Users who are to be checked in.
    pub auto_arrived: Set<u64>,
    /// Whether reminders are held back.
    pub silent: bool,
    /// The countdown, while it runs.
    pub pregather: Option<PregatherInfo>,
    /// What has been added to the countdown.
    pub pregather_extension: Nanos,
}

impl View for GatherState {
    type V = GatherView;

    open spec fn view(&self) -> GatherView {
        GatherView {
            voice_channel_id: self.voice_channel_id,
            extra_expected: self.extra_expected@,
            forgotten: self.forgotten@,
            auto_arrived: self.auto_arrived@,
            silent: self.silent,
            pregather: self.pregather,
            pregather_extension: self.pregather_extension,
        }
    }
}

impl GatherView {
    /// Nobody is both to be expected and to be dropped.
    pub open spec fn consistent(self) -> bool {
        self.extra_expected.disjoint(self.forgotten)
    }
}

/// The buttons under a gathering message.
#[derive(Clone, Copy, PartialEq, Eq, Structural)]
pub enum GatherButton {
    /// Call the gathering off.
    Cancel,
    /// End the countdown at once.
    ForceStart,
    /// Take part.
    Join,
    /// Do not take part.
    Leave,
    /// Opt out of a check-in.
    NotComing,
    /// Hold reminders back, or let them out again.
    ToggleSilent,
    /// Check in.
    Here,
    /// A button that the gathering does not know.
    Other,
}

/// What a click is answered with.
pub enum Reply {
    /// A refusal that only the user sees.
    Refuse(String),
    /// A silent confirmation.
    Acknowledge,
    /// The gathering message, drawn anew.
    Refresh,
}

/// What a [`Reply`] holds.
pub enum ReplyView {
    /// A refusal that only the user sees.
    Refuse(Seq<char>),
    /// A silent confirmation.
    Acknowledge,
    /// The gathering message, drawn anew.
    Refresh,
}

impl View for Reply {
    type V = ReplyView;

    open spec fn view(&self) -> ReplyView {
        match self {
            Reply::Refuse(text) => ReplyView::Refuse(text@),
            Reply::Acknowledge => ReplyView::Acknowledge,
            Reply::Refresh => ReplyView::Refresh,
        }
    }
}

/// How a countdown ends before its time.
#[derive(Clone, Copy, PartialEq, Eq, Structural)]
pub enum PregatherEnd {
    /// The gathering is called off.
    Cancelled,
    /// The check-in begins.
    Started,
}

impl PregatherEnd {
    /// What stands under a countdown that has ended this way: nothing where the
    /// check-in takes its place.
    pub fn footer(self) -> (r: Option<String>)
        ensures
            text::text_of(r) == match self {
                PregatherEnd::Cancelled => Some("Cancelled."@),
                PregatherEnd::Started => None,
            },
    {
        match self {
            PregatherEnd::Cancelled => Some("Cancelled.".to_string()),
            PregatherEnd::Started => None,
        }
    }
}

/// How a user is addressed in a message.
pub open spec fn mention_text(id: u64) -> Seq<char> {
    "<@"@ + text::decimal(id as nat) + ">"@
}

/// Writes how a user is addressed in a message.
pub fn mention(id: u64) -> (r: String)
    ensures
        r@ == mention_text(id),
{
    let mut out = "<@".to_string();
    out.append(text::decimal_of(id).as_str());
    out.append(">");
    out
}

/// The message that addresses `ids`, in order.
pub open spec fn mentions_text(ids: Seq<u64>) -> Seq<char> {
    text::join(ids.map_values(|id: u64| mention_text(id)), " "@)
}

/// Writes the message that addresses `ids`, in order.
pub fn mentions(ids: &Vec<u64>) -> (r: String)
    ensures
        r@ == mentions_text(ids@),
{
    let mut parts: Vec<String> = Vec::new();
    for i in 0..ids.len()
        invariant
            text::texts(parts@) == ids@.take(i as int).map_values(|id: u64| mention_text(id)),
    {
        let ghost before = parts@;
        let part = mention(ids[i]);
        parts.push(part);
        assert(text::texts(parts@) =~= text::texts(before).push(mention_text(ids@[i as int])));
        assert(text::texts(parts@) =~= ids@.take(i + 1).map_values(|id: u64| mention_text(id)));
    }
    assert(ids@.take(ids.len() as int) =~= ids@);
    text::joined(&parts, " ")
}

/// How a gathering opens.
pub struct GatherOpening {
    /// The message that calls the members of the voice channel.
    pub mentions: String,
    /// Whether a countdown comes first.
    pub countdown: bool,
    /// What the gathering message says until the check-in is drawn, where no
    /// countdown comes first.
    pub placeholder: String,
}

/// Opens a gathering of `voice_members`. It is refused where nobody is in the
/// voice channel, and it begins with a countdown unless that is to last no
/// time at all.
pub fn start_gather(voice_members: &Vec<u64>, pregather_duration: Nanos) -> (r: Result<
    GatherOpening,
    MusicBotError,
>)
    ensures
        match r {
            Ok(opening) => {
                &&& voice_members@.len() > 0
                &&& opening.mentions@ == mentions_text(voice_members@)
                &&& opening.countdown == (pregather_duration > 0)
                &&& opening.placeholder@ == "Gathering starting…"@
            },
            Err(e) => {
                &&& voice_members@.len() == 0
                &&& e.is_internal("No one is in the voice channel."@)
            },
        },
{
    if voice_members.len() == 0 {
        return Err(
            MusicBotError::InternalError("No one is in the voice channel.".to_string()),
        );
    }
    Ok(
        GatherOpening {
            mentions: mentions(voice_members),
            countdown: pregather_duration > 0,
            placeholder: "Gathering starting…".to_string(),
        },
    )
}

/// What a click during the countdown leads to: the state after it, the answer,
/// and whether the countdown ends with it.
pub open spec fn pregather_after(
    g: GatherView,
    button: GatherButton,
    user: u64,
    author: u64,
) -> (GatherView, ReplyView, Option<PregatherEnd>) {
    match button {
        GatherButton::Cancel => if user != author {
            (
                g,
                ReplyView::Refuse("Only the person who started the gathering can cancel it."@),
                None,
            )
        } else {
            (g, ReplyView::Acknowledge, Some(PregatherEnd::Cancelled))
        },
        GatherButton::ForceStart => if user != author {
            (
                g,
                ReplyView::Refuse(
                    "Only the person who started the gathering can skip the countdown."@,
                ),
                None,
            )
        } else {
            (g, ReplyView::Acknowledge, Some(PregatherEnd::Started))
        },
        GatherButton::Join => (
            GatherView {
                extra_expected: g.extra_expected.insert(user),
                forgotten: g.forgotten.remove(user),
                ..g
            },
            ReplyView::Refresh,
            None,
        ),
        GatherButton::Leave => (
            GatherView {
                extra_expected: g.extra_expected.remove(user),
                forgotten: g.forgotten.insert(user),
                ..g
            },
            ReplyView::Refresh,
            None,
        ),
        _ => (g, ReplyView::Acknowledge, None),
    }
}

/// When a countdown ends, with what has been added to it so far.
pub open spec fn pregather_ends(g: GatherView, started_at: Nanos, original_duration: Nanos) -> int {
    started_at + original_duration + g.pregather_extension
}

impl GatherState {
    /// A gathering of `voice_channel_id` that nobody has touched yet.
    pub fn new(voice_channel_id: u64) -> (r: Self)
        ensures
            r@ == (GatherView {
                voice_channel_id,
                extra_expected: Set::empty(),
                forgotten: Set::empty(),
                auto_arrived: Set::empty(),
                silent: false,
                pregather: None,
                pregather_extension: 0,
            }),
    {
        GatherState {
            voice_channel_id,
            extra_expected: HashSet::new(),
            forgotten: HashSet::new(),
            auto_arrived: HashSet::new(),
            silent: false,
            pregather: None,
            pregather_extension: 0,
        }
    }

    /// Records that the countdown has begun.
    pub fn open_pregather(&mut self, started_at: Nanos, started_at_wall: i128, duration: Nanos)
        ensures
            final(self)@ == (GatherView {
                pregather: Some(
                    PregatherInfo { started_at, started_at_wall, original_duration: duration },
                ),
                ..old(self)@
            }),
    {
        self.pregather = Some(
            PregatherInfo { started_at, started_at_wall, original_duration: duration },
        );
    }

    /// Records that the countdown is over, so that it can be extended no more.
    pub fn close_pregather(&mut self)
        ensures
            final(self)@ == (GatherView { pregather: None, ..old(self)@ }),
    {
        self.pregather = None;
    }

    /// How long to wait for a click before the countdown is drawn anew, or
    /// `None` once it is over.
    pub fn pregather_wait(&self, started_at: Nanos, original_duration: Nanos, now: Nanos) -> (r:
        Option<Nanos>)
        requires
            pregather_ends(self@, started_at, original_duration) <= u128::MAX,
        ensures
            match r {
                None => now >= pregather_ends(self@, started_at, original_duration),
                Some(wait) => {
                    &&& now < pregather_ends(self@, started_at, original_duration)
                    &&& wait == vstd::math::min(
                        pregather_ends(self@, started_at, original_duration) - now,
                        MIN_EDIT_INTERVAL as int,
                    )
                },
            },
    {
        let ends_at: Nanos = started_at + original_duration + self.pregather_extension;
        if now >= ends_at {
            return None;
        }
        let left: Nanos = ends_at - now;
        if left < MIN_EDIT_INTERVAL {
            Some(left)
        } else {
            Some(MIN_EDIT_INTERVAL)
        }
    }

    /// When the countdown ends, on the monotonic clock and by the wall clock.
    pub fn pregather_end(
        &self,
        started_at: Nanos,
        started_at_wall: i128,
        original_duration: Nanos,
    ) -> (r: (Nanos, i128))
        requires
            pregather_ends(self@, started_at, original_duration) <= u128::MAX,
            started_at_wall + original_duration + self@.pregather_extension <= i128::MAX,
            original_duration + self@.pregather_extension <= i128::MAX,
        ensures
            r.0 == pregather_ends(self@, started_at, original_duration),
            r.1 == started_at_wall + original_duration + self@.pregather_extension,
    {
        let total: Nanos = original_duration + self.pregather_extension;
        (started_at + total, started_at_wall + total as i128)
    }

    /// Takes in a click during the countdown.
    pub fn pregather_click(&mut self, button: GatherButton, user: u64, author: u64) -> (r: (
        Reply,
        Option<PregatherEnd>,
    ))
        ensures
            (final(self)@, r.0@, r.1) == pregather_after(old(self)@, button, user, author),
    {
        match button {
            GatherButton::Cancel => {
                if user != author {
                    return (
                        Reply::Refuse(
                            "Only the person who started the gathering can cancel it.".to_string(),
                        ),
                        None,
                    );
                }
                (Reply::Acknowledge, Some(PregatherEnd::Cancelled))
            },
            GatherButton::ForceStart => {
                if user != author {
                    return (
                        Reply::Refuse(
                            "Only the person who started the gathering can skip the countdown.".to_string(),
                        ),
                        None,
                    );
                }
                (Reply::Acknowledge, Some(PregatherEnd::Started))
            },
            GatherButton::Join => {
                self.extra_expected.insert(user);
                self.forgotten.remove(&user);
                (Reply::Refresh, None)
            },
            GatherButton::Leave => {
                self.extra_expected.remove(&user);
                self.forgotten.insert(user);
                (Reply::Refresh, None)
            },
            _ => (Reply::Acknowledge, None),
        }
    }
}

/// Taking part and not taking part exclude each other: no click of the
/// countdown makes anyone both expected and dropped.
pub proof fn law_countdown_stays_consistent(
    g: GatherView,
    button: GatherButton,
    user: u64,
    author: u64,
)
    requires
        g.consistent(),
    ensures
        pregather_after(g, button, user, author).0.consistent(),
{
}

/// Whoever clicks to leave and then to join again is expected, whoever clicks
/// to join and then to leave is not, and nobody else is touched.
pub proof fn law_last_countdown_click_counts(g: GatherView, user: u64, author: u64)
    ensures
        ({
            let left = pregather_after(g, GatherButton::Leave, user, author).0;
            let joined = pregather_after(left, GatherButton::Join, user, author).0;
            joined == pregather_after(g, GatherButton::Join, user, author).0
        }),
        ({
            let joined = pregather_after(g, GatherButton::Join, user, author).0;
            let left = pregather_after(joined, GatherButton::Leave, user, author).0;
            left == pregather_after(g, GatherButton::Leave, user, author).0
        }),
{
    assert(g.extra_expected.remove(user).insert(user) =~= g.extra_expected.insert(user));
    assert(g.forgotten.insert(user).remove(user) =~= g.forgotten.remove(user));
    assert(g.extra_expected.insert(user).remove(user) =~= g.extra_expected.remove(user));
    assert(g.forgotten.remove(user).insert(user) =~= g.forgotten.insert(user));
}

/// Only the author ends a countdown early.
pub proof fn law_only_author_ends_countdown(
    g: GatherView,
    button: GatherButton,
    user: u64,
    author: u64,
)
    requires
        user != author,
    ensures
        pregather_after(g, button, user, author).2 is None,
{
}

/// A running check-in.
pub struct CheckIn {
    /// Who started the gathering.
    pub author_id: u64,
    /// When the check-in began.
    pub started_at: Nanos,
    /// Until when an arrival is on time.
    pub grace_ends_at: Nanos,
    /// Who is to arrive, and who has.
    pub expected: HashSet<u64>,
    /// Who has arrived, and how late.
    pub arrivals: HashMap<u64, Nanos>,
    /// Who said they would not come.
    pub opted_out: HashSet<u64>,
    /// Whether the author called the gathering off.
    pub cancelled: bool,
    /// When the gathering message was last drawn.
    pub last_edit: Nanos,
    /// When the missing were last reminded.
    pub last_ghost_ping: Nanos,
}

/// What a [`CheckIn`] holds.
#[verifier::ext_equal]
pub struct CheckInView {
    /// Who started the gathering.
    pub author_id: u64,
    /// When the check-in began.
    pub started_at: Nanos,
    /// Until when an arrival is on time.
    pub grace_ends_at: Nanos,
    /// Who is to arrive, and who has.
    pub expected: Set<u64>,
    /// Who has arrived, and how late.
    pub arrivals: Map<u64, Nanos>,
    /// Who said they would not come.
    pub opted_out: Set<u64>,
    /// Whether the author called the gathering off.
    pub cancelled: bool,
    /// When the gathering message was last drawn.
    pub last_edit: Nanos,
    /// When the missing were last reminded.
    pub last_ghost_ping: Nanos,
}

impl View for CheckIn {
    type V = CheckInView;

    open spec fn view(&self) -> CheckInView {
        CheckInView {
            author_id: self.author_id,
            started_at: self.started_at,
            grace_ends_at: self.grace_ends_at,
            expected: self.expected@,
            arrivals: self.arrivals@,
            opted_out: self.opted_out@,
            cancelled: self.cancelled,
            last_edit: self.last_edit,
            last_ghost_ping: self.last_ghost_ping,
        }
    }
}

/// The smaller of two times.
pub open spec fn earlier(a: Nanos, b: Nanos) -> Nanos {
    if a <= b {
        a
    } else {
        b
    }
}

impl CheckInView {
    /// Whoever has arrived is also expected.
    pub open spec fn wf(self) -> bool {
        self.arrivals.dom().subset_of(self.expected)
    }

    /// Whether everyone expected has arrived.
    pub open spec fn complete(self) -> bool {
        forall|id: u64| #[trigger]
            self.expected.contains(id) ==> self.arrivals.contains_key(id)
    }

    /// Who is expected and has not arrived.
    pub open spec fn missing(self) -> Set<u64> {
        self.expected.difference(self.arrivals.dom())
    }

    /// When the check-in ends at the latest.
    pub open spec fn deadline(self) -> int {
        self.started_at + MAX_GATHER_DURATION
    }

    /// How late an arrival at `now` is: not at all within the grace period,
    /// and by the whole time since the start after it.
    pub open spec fn lateness(self, now: Nanos) -> Nanos {
        if now <= self.grace_ends_at || now <= self.started_at {
            0
        } else {
            (now - self.started_at) as u128
        }
    }

    /// The check-in as it begins: the members of the voice channel, the author
    /// and whoever was added by hand are expected.
    pub open spec fn begun(
        author_id: u64,
        members: Set<u64>,
        extra: Set<u64>,
        now: Nanos,
        grace: Nanos,
    ) -> CheckInView {
        CheckInView {
            author_id,
            started_at: now,
            grace_ends_at: (now + grace) as u128,
            expected: members.insert(author_id).union(extra),
            arrivals: Map::empty(),
            opted_out: Set::empty(),
            cancelled: false,
            last_edit: now,
            last_ghost_ping: now,
        }
    }

    /// The check-in after a look at the clock: where everyone has arrived the
    /// grace period is over.
    pub open spec fn polled(self, now: Nanos) -> CheckInView {
        if now < self.deadline() && !self.cancelled && self.complete() {
            CheckInView { grace_ends_at: earlier(self.grace_ends_at, now), ..self }
        } else {
            self
        }
    }

    /// Whether the check-in is over.
    pub open spec fn over(self, now: Nanos) -> bool {
        now >= self.deadline() || self.cancelled || self.complete()
    }

    /// When the check-in needs attention next: at the end of the grace period,
    /// and after it whenever the missing are to be reminded.
    pub open spec fn next_periodic(self, now: Nanos) -> int {
        if now < self.grace_ends_at {
            self.grace_ends_at as int
        } else {
            vstd::math::min(self.last_ghost_ping + GHOST_PING_INTERVAL, self.deadline())
        }
    }

    /// What a click during the check-in leads to: the check-in and the shared
    /// state after it, and the answer.
    pub open spec fn clicked(
        self,
        g: GatherView,
        button: GatherButton,
        user: u64,
        in_voice: bool,
        now: Nanos,
    ) -> (CheckInView, GatherView, ReplyView) {
        match button {
            GatherButton::Cancel => if user != self.author_id {
                (
                    self,
                    g,
                    ReplyView::Refuse("Only the person who started the gathering can cancel it."@),
                )
            } else {
                (CheckInView { cancelled: true, ..self }, g, ReplyView::Acknowledge)
            },
            GatherButton::NotComing => if self.arrivals.contains_key(user) {
                (
                    self,
                    g,
                    ReplyView::Refuse("You've already checked in — you can't opt out now."@),
                )
            } else if self.opted_out.contains(user) {
                (self, g, ReplyView::Refuse("You've already marked yourself as not coming."@))
            } else {
                let without = CheckInView {
                    expected: self.expected.remove(user),
                    opted_out: self.opted_out.insert(user),
                    ..self
                };
                (
                    if without.complete() {
                        CheckInView { grace_ends_at: earlier(self.grace_ends_at, now), ..without }
                    } else {
                        without
                    },
                    g,
                    ReplyView::Refresh,
                )
            },
            GatherButton::ToggleSilent => if user != self.author_id {
                (
                    self,
                    g,
                    ReplyView::Refuse("Only the person who started the gathering can mute pings."@),
                )
            } else {
                (self, GatherView { silent: !g.silent, ..g }, ReplyView::Refresh)
            },
            GatherButton::Here => if !in_voice {
                (
                    self,
                    g,
                    ReplyView::Refuse("You need to be in the voice channel to check in."@),
                )
            } else if self.arrivals.contains_key(user) {
                (self, g, ReplyView::Refuse("You're already checked in."@))
            } else {
                let with = CheckInView {
                    arrivals: self.arrivals.insert(user, self.lateness(now)),
                    expected: self.expected.insert(user),
                    ..self
                };
                (
                    if with.complete() {
                        CheckInView { grace_ends_at: now, ..with }
                    } else {
                        with
                    },
                    g,
                    ReplyView::Refresh,
                )
            },
            _ => (self, g, ReplyView::Acknowledge),
        }
    }

    /// The check-in once the shared state has been taken over: whoever was
    /// added is expected, whoever was taken off and has not arrived is not,
    /// and whoever joined the voice channel and is expected has arrived.
    pub open spec fn synced(self, g: GatherView, now: Nanos) -> CheckInView {
        let expected = self.expected.union(g.extra_expected).difference(
            g.forgotten.difference(self.arrivals.dom()),
        );
        let newly = g.auto_arrived.intersect(expected).difference(self.arrivals.dom());
        let with = CheckInView {
            expected,
            arrivals: self.arrivals.union_prefer_right(
                Map::new(|id: u64| newly.contains(id), |id: u64| self.lateness(now)),
            ),
            last_edit: if g.auto_arrived.is_empty() {
                self.last_edit
            } else {
                self.started_at
            },
            ..self
        };
        if !newly.is_empty() && with.complete() {
            CheckInView { grace_ends_at: earlier(self.grace_ends_at, now), ..with }
        } else {
            with
        }
    }

    /// Whether the missing are to be reminded.
    pub open spec fn ping_due(self, silent: bool, now: Nanos) -> bool {
        !silent && now >= self.grace_ends_at && now >= self.last_ghost_ping + GHOST_PING_INTERVAL
    }

    /// The check-in after a round of its loop.
    pub open spec fn ticked(self, g: GatherView, now: Nanos) -> CheckInView {
        let with = self.synced(g, now);
        if with.ping_due(g.silent, now) {
            CheckInView { last_ghost_ping: now, ..with }
        } else {
            with
        }
    }

    /// Who is reminded in a round of the loop.
    pub open spec fn pinged(self, g: GatherView, now: Nanos) -> Set<u64> {
        let with = self.synced(g, now);
        if with.ping_due(g.silent, now) {
            with.missing()
        } else {
            Set::empty()
        }
    }

    /// What stands under a gathering message that is over.
    pub open spec fn footer_text(self, now: Nanos) -> Seq<char> {
        if self.cancelled {
            "Cancelled by initiator."@
        } else if now >= self.deadline() {
            "Gathering timed out."@
        } else {
            "All checked in. Gathering complete."@
        }
    }
}

/// One line of a check-in message.
#[derive(Clone, Copy)]
pub struct CheckInRow {
    /// Whom it is about.
    pub user_id: u64,
    /// How late they arrived, once they have.
    pub arrived: Option<Nanos>,
    /// Whether they said they would not come.
    pub opted_out: bool,
}

/// The line about someone expected.
pub open spec fn expected_row(c: CheckInView, id: u64) -> CheckInRow {
    CheckInRow {
        user_id: id,
        arrived: if c.arrivals.contains_key(id) {
            Some(c.arrivals[id])
        } else {
            None
        },
        opted_out: false,
    }
}

/// The line about someone who does not come.
pub open spec fn opted_out_row(id: u64) -> CheckInRow {
    CheckInRow { user_id: id, arrived: None, opted_out: true }
}

/// Lists a set of ids, each once. The order is the set's own.
fn ids_of(set: &HashSet<u64>) -> (r: Vec<u64>)
    ensures
        r@.no_duplicates(),
        r@.to_set() == set@,
{
    let mut out: Vec<u64> = Vec::new();
    for id in it: set.iter()
        invariant
            it.seq().no_duplicates(),
            it.seq().unref().to_set() == set@,
            out@ == it.seq().unref().take(it.index() as int),
            it.index() == it.seq().len() ==> out@ == it.seq().unref(),
    {
        out.push(*id);
        assert(out@ =~= it.seq().unref().take(it.index() + 1));
    }
    out
}

/// Puts every id of `ids` into `set`.
fn insert_all(set: &mut HashSet<u64>, ids: &Vec<u64>)
    ensures
        final(set)@ == old(set)@.union(ids@.to_set()),
{
    let ghost before = set@;
    for i in 0..ids.len()
        invariant
            set@ == before.union(ids@.take(i as int).to_set()),
    {
        set.insert(ids[i]);
        proof {
            lemma_take_one_more(ids@, i as int);
        }
        assert(set@ =~= before.union(ids@.take(i + 1).to_set()));
    }
    assert(ids@.take(ids.len() as int) =~= ids@);
}

/// A list's first elements make up the same set as one fewer and the next.
proof fn lemma_take_one_more(s: Seq<u64>, i: int)
    requires
        0 <= i < s.len(),
    ensures
        s.take(i + 1).to_set() == s.take(i).to_set().insert(s[i]),
{
    let one = s.take(i + 1);
    assert forall|x: u64| one.contains(x) implies s.take(i).contains(x) || x == s[i] by {
        let k = choose|k: int| 0 <= k < one.len() && one[k] == x;
        if k < i {
            assert(s.take(i)[k] == x);
        }
    }
    assert forall|x: u64| s.take(i).contains(x) implies one.contains(x) by {
        let k = choose|k: int| 0 <= k < i && s.take(i)[k] == x;
        assert(one[k] == x);
    }
    assert(one[i] == s[i]);
    assert(one.to_set() =~= s.take(i).to_set().insert(s[i]));
}

impl CheckIn {
    /// Begins the check-in at `now`, with a grace period of `grace`.
    pub fn begin(
        author_id: u64,
        members: &Vec<u64>,
        state: &GatherState,
        now: Nanos,
        grace: Nanos,
    ) -> (r: Self)
        requires
            now + grace <= u128::MAX,
            now + MAX_GATHER_DURATION <= u128::MAX,
        ensures
            r@ == CheckInView::begun(
                author_id,
                members@.to_set(),
                state@.extra_expected,
                now,
                grace,
            ),
            r@.wf(),
    {
        let mut expected: HashSet<u64> = HashSet::new();
        insert_all(&mut expected, members);
        expected.insert(author_id);
        insert_all(&mut expected, &ids_of(&state.extra_expected));
        assert(expected@ =~= members@.to_set().insert(author_id).union(state@.extra_expected));
        CheckIn {
            author_id,
            started_at: now,
            grace_ends_at: now + grace,
            expected,
            arrivals: HashMap::new(),
            opted_out: HashSet::new(),
            cancelled: false,
            last_edit: now,
            last_ghost_ping: now,
        }
    }

    /// Whether everyone expected has arrived.
    pub fn is_complete(&self) -> (r: bool)
        ensures
            r == self@.complete(),
    {
        let ids = ids_of(&self.expected);
        for i in 0..ids.len()
            invariant
                ids@.to_set() == self.expected@,
                forall|j: int| 0 <= j < i ==> self.arrivals@.contains_key(#[trigger] ids@[j]),
        {
            if !self.arrivals.contains_key(&ids[i]) {
                assert(ids@.to_set().contains(ids@[i as int]));
                assert(self@.expected.contains(ids@[i as int]));
                return false;
            }
        }
        assert forall|id: u64| #[trigger] self@.expected.contains(id) implies self@.arrivals.contains_key(
            id,
        ) by {
            assert(ids@.to_set().contains(id));
            let k = choose|k: int| 0 <= k < ids@.len() && ids@[k] == id;
            assert(self.arrivals@.contains_key(ids@[k]));
        }
        true
    }

    /// Ends the grace period now, unless it has ended already.
    fn end_grace(&mut self, now: Nanos)
        ensures
            final(self)@ == (CheckInView {
                grace_ends_at: earlier(old(self)@.grace_ends_at, now),
                ..old(self)@
            }),
    {
        if now < self.grace_ends_at {
            self.grace_ends_at = now;
        }
    }

    /// Looks at the clock: `None` once the check-in is over, else how long to
    /// wait for a click.
    pub fn poll(&mut self, now: Nanos) -> (r: Option<Nanos>)
        requires
            old(self)@.deadline() <= u128::MAX,
        ensures
            final(self)@ == old(self)@.polled(now),
            old(self)@.wf() ==> final(self)@.wf(),
            match r {
                None => old(self)@.over(now),
                Some(wait) => {
                    &&& !old(self)@.over(now)
                    &&& wait == vstd::math::min(
                        vstd::math::max(old(self)@.next_periodic(now) - now, 0),
                        LOOP_POLL as int,
                    )
                },
            },
    {
        let deadline: Nanos = self.started_at + MAX_GATHER_DURATION;
        if now >= deadline || self.cancelled {
            return None;
        }
        if self.is_complete() {
            self.end_grace(now);
            return None;
        }
        let next: Nanos = if now < self.grace_ends_at {
            self.grace_ends_at
        } else {
            let ping: Nanos = self.last_ghost_ping.saturating_add(GHOST_PING_INTERVAL);
            if ping < deadline {
                ping
            } else {
                deadline
            }
        };
        let left: Nanos = if next > now {
            next - now
        } else {
            0
        };
        if left < LOOP_POLL {
            Some(left)
        } else {
            Some(LOOP_POLL)
        }
    }

    /// How late an arrival at `now` is.
    fn lateness_at(&self, now: Nanos) -> (r: Nanos)
        ensures
            r == self@.lateness(now),
    {
        if now <= self.grace_ends_at || now <= self.started_at {
            0
        } else {
            now - self.started_at
        }
    }

    /// Takes in a click of `user`, who is in the gathered voice channel or not,
    /// at `now`.
    pub fn handle_interaction(
        &mut self,
        state: &mut GatherState,
        button: GatherButton,
        user: u64,
        in_voice: bool,
        now: Nanos,
    ) -> (r: Reply)
        ensures
            (final(self)@, final(state)@, r@) == old(self)@.clicked(
                old(state)@,
                button,
                user,
                in_voice,
                now,
            ),
            old(self)@.wf() ==> final(self)@.wf(),
    {
        match button {
            GatherButton::Cancel => {
                if user != self.author_id {
                    return Reply::Refuse(
                        "Only the person who started the gathering can cancel it.".to_string(),
                    );
                }
                self.cancelled = true;
                Reply::Acknowledge
            },
            GatherButton::NotComing => {
                if self.arrivals.contains_key(&user) {
                    return Reply::Refuse(
                        "You've already checked in — you can't opt out now.".to_string(),
                    );
                }
                if self.opted_out.contains(&user) {
                    return Reply::Refuse(
                        "You've already marked yourself as not coming.".to_string(),
                    );
                }
                self.expected.remove(&user);
                self.opted_out.insert(user);
                if self.is_complete() {
                    self.end_grace(now);
                }
                Reply::Refresh
            },
            GatherButton::ToggleSilent => {
                if user != self.author_id {
                    return Reply::Refuse(
                        "Only the person who started the gathering can mute pings.".to_string(),
                    );
                }
                state.silent = !state.silent;
                Reply::Refresh
            },
            GatherButton::Here => {
                if !in_voice {
                    return Reply::Refuse(
                        "You need to be in the voice channel to check in.".to_string(),
                    );
                }
                if self.arrivals.contains_key(&user) {
                    return Reply::Refuse("You're already checked in.".to_string());
                }
                let lateness = self.lateness_at(now);
                self.arrivals.insert(user, lateness);
                self.expected.insert(user);
                if self.is_complete() {
                    self.grace_ends_at = now;
                }
                Reply::Refresh
            },
            _ => Reply::Acknowledge,
        }
    }

    /// Drops whoever was taken off and has not arrived.
    fn forget(&mut self, ids: &Vec<u64>)
        ensures
            final(self)@ == (CheckInView {
                expected: old(self)@.expected.difference(
                    ids@.to_set().difference(old(self)@.arrivals.dom()),
                ),
                ..old(self)@
            }),
    {
        let ghost before = self@;
        for i in 0..ids.len()
            invariant
                self@ == (CheckInView {
                    expected: before.expected.difference(
                        ids@.take(i as int).to_set().difference(before.arrivals.dom()),
                    ),
                    ..before
                }),
        {
            proof {
                lemma_take_one_more(ids@, i as int);
            }
            if !self.arrivals.contains_key(&ids[i]) {
                self.expected.remove(&ids[i]);
            }
            assert(self.expected@ =~= before.expected.difference(
                ids@.take(i + 1).to_set().difference(before.arrivals.dom()),
            ));
        }
        assert(ids@.take(ids.len() as int) =~= ids@);
    }

    /// Checks in whoever joined the voice channel and is expected.
    fn arrive(&mut self, ids: &Vec<u64>, now: Nanos)
        ensures
            ({
                let before = old(self)@;
                let newly = ids@.to_set().intersect(before.expected).difference(
                    before.arrivals.dom(),
                );
                let with = CheckInView {
                    arrivals: before.arrivals.union_prefer_right(
                        Map::new(|id: u64| newly.contains(id), |id: u64| before.lateness(now)),
                    ),
                    ..before
                };
                final(self)@ == if !newly.is_empty() && with.complete() {
                    CheckInView { grace_ends_at: earlier(before.grace_ends_at, now), ..with }
                } else {
                    with
                }
            }),
    {
        let ghost before = self@;
        let lateness = self.lateness_at(now);
        let mut any = false;
        for i in 0..ids.len()
            invariant
                lateness == before.lateness(now),
                ({
                    let newly = ids@.take(i as int).to_set().intersect(before.expected).difference(
                        before.arrivals.dom(),
                    );
                    &&& any == !newly.is_empty()
                    &&& self@ == (CheckInView {
                        arrivals: before.arrivals.union_prefer_right(
                            Map::new(|id: u64| newly.contains(id), |id: u64| before.lateness(now)),
                        ),
                        ..before
                    })
                }),
        {
            let id = ids[i];
            proof {
                lemma_take_one_more(ids@, i as int);
            }
            let ghost was = ids@.take(i as int).to_set().intersect(before.expected).difference(
                before.arrivals.dom(),
            );
            let ghost newly = ids@.take(i + 1).to_set().intersect(before.expected).difference(
                before.arrivals.dom(),
            );
            if self.expected.contains(&id) && !self.arrivals.contains_key(&id) {
                self.arrivals.insert(id, lateness);
                any = true;
                assert(newly.contains(id));
            }
            assert(self.arrivals@ =~= before.arrivals.union_prefer_right(
                Map::new(|id: u64| newly.contains(id), |id: u64| before.lateness(now)),
            ));
            assert(any == !newly.is_empty()) by {
                if was.is_empty() && !newly.is_empty() {
                    let x = newly.choose();
                    assert(newly.contains(x));
                    assert(!was.contains(x));
                    assert(x == id);
                } else if !was.is_empty() {
                    let x = was.choose();
                    assert(was.contains(x));
                    assert(newly.contains(x));
                }
            }
        }
        assert(ids@.take(ids.len() as int) =~= ids@);
        if any && self.is_complete() {
            self.end_grace(now);
        }
    }

    /// Does a round of the loop at `now`: takes over the shared state and says
    /// who is to be reminded, in no particular order.
    pub fn tick(&mut self, state: &mut GatherState, now: Nanos) -> (r: Vec<u64>)
        ensures
            final(self)@ == old(self)@.ticked(old(state)@, now),
            final(state)@ == (GatherView {
                forgotten: Set::empty(),
                auto_arrived: Set::empty(),
                ..old(state)@
            }),
            r@.no_duplicates(),
            r@.to_set() == old(self)@.pinged(old(state)@, now),
            old(self)@.wf() ==> final(self)@.wf(),
    {
        let ghost before = self@;
        let ghost g = state@;
        insert_all(&mut self.expected, &ids_of(&state.extra_expected));
        let forgotten = ids_of(&state.forgotten);
        state.forgotten.clear();
        self.forget(&forgotten);
        let arrived = ids_of(&state.auto_arrived);
        let any_joined = !state.auto_arrived.is_empty();
        state.auto_arrived.clear();
        self.arrive(&arrived, now);
        if any_joined {
            self.last_edit = self.started_at;
        }
        assert(self@ =~= before.synced(g, now));
        if !state.silent && now >= self.grace_ends_at && now >= GHOST_PING_INTERVAL && now
            - GHOST_PING_INTERVAL >= self.last_ghost_ping {
            self.last_ghost_ping = now;
            self.missing_ids()
        } else {
            let none: Vec<u64> = Vec::new();
            assert(none@.to_set() =~= Set::empty());
            none
        }
    }

    /// Lists who is expected and has not arrived.
    fn missing_ids(&self) -> (r: Vec<u64>)
        ensures
            r@.no_duplicates(),
            r@.to_set() == self@.missing(),
    {
        let ids = ids_of(&self.expected);
        let mut out: Vec<u64> = Vec::new();
        for i in 0..ids.len()
            invariant
                ids@.no_duplicates(),
                out@.no_duplicates(),
                forall|x: u64| #[trigger]
                    out@.contains(x) <==> ids@.take(i as int).contains(x)
                        && !self.arrivals@.contains_key(x),
        {
            let ghost was = out@;
            let id = ids[i];
            assert(!ids@.take(i as int).contains(id));
            assert(!was.contains(id));
            if !self.arrivals.contains_key(&id) {
                out.push(id);
                assert(out@.last() == id);
            }
            assert forall|x: u64| #[trigger] out@.contains(x) <==> ids@.take(i + 1).contains(x)
                && !self.arrivals@.contains_key(x) by {
                lemma_take_one_more(ids@, i as int);
                assert(ids@.take(i + 1).to_set().contains(x) <==> ids@.take(i + 1).contains(x));
                assert(ids@.take(i as int).to_set().contains(x) <==> ids@.take(i as int).contains(
                    x,
                ));
                if was.contains(x) {
                    let k = choose|k: int| 0 <= k < was.len() && was[k] == x;
                    assert(out@[k] == x);
                }
                if out@.contains(x) && x != id {
                    let k = choose|k: int| 0 <= k < out@.len() && out@[k] == x;
                    assert(was[k] == x);
                }
            }
        }
        assert(ids@.take(ids.len() as int) =~= ids@);
        assert forall|x: u64| out@.to_set().contains(x) <==> self@.missing().contains(x) by {
            assert(out@.to_set().contains(x) <==> out@.contains(x));
            assert(ids@.to_set().contains(x) <==> ids@.contains(x));
        }
        assert(out@.to_set() =~= self@.missing());
        out
    }

    /// Whether the gathering message is to be drawn anew.
    pub fn edit_due(&self, now: Nanos) -> (r: bool)
        ensures
            r == (now >= self@.last_edit + MIN_EDIT_INTERVAL),
    {
        now >= MIN_EDIT_INTERVAL && now - MIN_EDIT_INTERVAL >= self.last_edit
    }

    /// Records that the gathering message was drawn at `now`.
    pub fn edited(&mut self, now: Nanos)
        ensures
            final(self)@ == (CheckInView { last_edit: now, ..old(self)@ }),
    {
        self.last_edit = now;
    }

    /// Writes what stands under the message of a check-in that ended at `now`.
    pub fn footer(&self, now: Nanos) -> (r: String)
        requires
            self@.deadline() <= u128::MAX,
        ensures
            r@ == self@.footer_text(now),
    {
        if self.cancelled {
            "Cancelled by initiator.".to_string()
        } else if now >= self.started_at + MAX_GATHER_DURATION {
            "Gathering timed out.".to_string()
        } else {
            "All checked in. Gathering complete.".to_string()
        }
    }

    /// The lines of the check-in message: first everyone expected, then
    /// everyone who does not come, each once and in no particular order.
    pub fn rows(&self) -> (r: Vec<CheckInRow>)
        ensures
            exists|expected: Seq<u64>, opted_out: Seq<u64>|
                #![trigger expected.no_duplicates(), opted_out.no_duplicates()]
                {
                    &&& expected.no_duplicates()
                    &&& expected.to_set() == self@.expected
                    &&& opted_out.no_duplicates()
                    &&& opted_out.to_set() == self@.opted_out
                    &&& r@ == expected.map_values(|id: u64| expected_row(self@, id))
                        + opted_out.map_values(|id: u64| opted_out_row(id))
                },
    {
        let expected = ids_of(&self.expected);
        let opted_out = ids_of(&self.opted_out);
        let mut out: Vec<CheckInRow> = Vec::new();
        for i in 0..expected.len()
            invariant
                out@ == expected@.take(i as int).map_values(|id: u64| expected_row(self@, id)),
        {
            let id = expected[i];
            let arrived = match self.arrivals.get(&id) {
                Some(lateness) => Some(*lateness),
                None => None,
            };
            out.push(CheckInRow { user_id: id, arrived, opted_out: false });
            assert(out@ =~= expected@.take(i + 1).map_values(|id: u64| expected_row(self@, id)));
        }
        assert(expected@.take(expected.len() as int) =~= expected@);
        let ghost first = out@;
        for i in 0..opted_out.len()
            invariant
                out@ == first + opted_out@.take(i as int).map_values(|id: u64| opted_out_row(id)),
        {
            out.push(CheckInRow { user_id: opted_out[i], arrived: None, opted_out: true });
            assert(out@ =~= first + opted_out@.take(i + 1).map_values(
                |id: u64| opted_out_row(id),
            ));
        }
        assert(opted_out@.take(opted_out.len() as int) =~= opted_out@);
        out
    }
}

/// What a user without a known nickname is called.
pub open spec fn display_text(member: Option<Seq<char>>, id: u64) -> Seq<char> {
    match member {
        Some(name) => name,
        None => "User "@ + text::decimal(id as nat),
    }
}

/// Writes what a user is called: the name of the guild member, where the guild
/// knows one.
pub fn display_name(member: Option<&str>, id: u64) -> (r: String)
    ensures
        r@ == display_text(text::str_of(member), id),
{
    match member {
        Some(name) => name.to_string(),
        None => {
            let mut out = "User ".to_string();
            out.append(text::decimal_of(id).as_str());
            out
        },
    }
}

/// Whoever has arrived stays arrived, with the lateness of that arrival,
/// whatever is clicked afterwards.
pub proof fn law_clicks_keep_arrivals(
    c: CheckInView,
    g: GatherView,
    button: GatherButton,
    user: u64,
    in_voice: bool,
    now: Nanos,
    arrived: u64,
)
    requires
        c.wf(),
        c.arrivals.contains_key(arrived),
    ensures
        ({
            let after = c.clicked(g, button, user, in_voice, now).0;
            &&& after.arrivals.contains_key(arrived)
            &&& after.arrivals[arrived] == c.arrivals[arrived]
            &&& after.expected.contains(arrived)
        }),
{
    assert(c.arrivals.dom().contains(arrived));
}

/// Whoever has arrived stays arrived and expected through a round of the loop,
/// even where they were taken off meanwhile.
pub proof fn law_rounds_keep_arrivals(c: CheckInView, g: GatherView, now: Nanos, arrived: u64)
    requires
        c.wf(),
        c.arrivals.contains_key(arrived),
    ensures
        c.ticked(g, now).arrivals.contains_key(arrived),
        c.ticked(g, now).arrivals[arrived] == c.arrivals[arrived],
        c.ticked(g, now).expected.contains(arrived),
{
    assert(c.arrivals.dom().contains(arrived));
}

/// A click of anyone but the author neither calls the gathering off nor
/// changes whether reminders are held back.
pub proof fn law_only_author_controls(
    c: CheckInView,
    g: GatherView,
    button: GatherButton,
    user: u64,
    in_voice: bool,
    now: Nanos,
)
    requires
        user != c.author_id,
    ensures
        ({
            let (after, shared, _) = c.clicked(g, button, user, in_voice, now);
            after.cancelled == c.cancelled && shared == g
        }),
{
}

/// A refused click changes nothing.
pub proof fn law_refusal_changes_nothing(
    c: CheckInView,
    g: GatherView,
    button: GatherButton,
    user: u64,
    in_voice: bool,
    now: Nanos,
)
    requires
        c.clicked(g, button, user, in_voice, now).2 is Refuse,
    ensures
        c.clicked(g, button, user, in_voice, now).0 == c,
        c.clicked(g, button, user, in_voice, now).1 == g,
{
}

/// Reminders go only to the missing, never while they are held back, never
/// within the grace period, and never sooner than their interval allows.
pub proof fn law_reminders_are_held_to_the_rules(
    c: CheckInView,
    g: GatherView,
    now: Nanos,
    pinged: u64,
)
    requires
        c.pinged(g, now).contains(pinged),
    ensures
        c.ticked(g, now).expected.contains(pinged),
        !c.ticked(g, now).arrivals.contains_key(pinged),
        !g.silent,
        now >= c.ticked(g, now).grace_ends_at,
        now >= c.last_ghost_ping + GHOST_PING_INTERVAL,
        c.ticked(g, now).last_ghost_ping == now,
{
}

/// Whoever was added by hand and not taken off is expected after the next
/// round, and has arrived where they joined the voice channel.
pub proof fn law_added_users_are_awaited(c: CheckInView, g: GatherView, now: Nanos, user: u64)
    requires
        g.extra_expected.contains(user),
        !g.forgotten.contains(user),
    ensures
        c.ticked(g, now).expected.contains(user),
        g.auto_arrived.contains(user) ==> c.ticked(g, now).arrivals.contains_key(user),
{
}

/// Whoever was taken off and has not arrived is awaited no more.
pub proof fn law_forgotten_users_are_dropped(c: CheckInView, g: GatherView, now: Nanos, user: u64)
    requires
        g.forgotten.contains(user),
        !c.arrivals.contains_key(user),
    ensures
        !c.ticked(g, now).expected.contains(user),
        !c.ticked(g, now).arrivals.contains_key(user),
{
}

/// A check-in that is not called off and not past its deadline goes on exactly
/// as long as someone is missing.
pub proof fn law_gathering_waits_for_everyone(c: CheckInView, now: Nanos)
    requires
        !c.cancelled,
        now < c.deadline(),
    ensures
        c.over(now) <==> c.missing().is_empty(),
{
    if c.missing().is_empty() {
        assert forall|id: u64| #[trigger] c.expected.contains(id) implies c.arrivals.contains_key(
            id,
        ) by {
            assert(!c.missing().contains(id));
        }
    } else {
        let id = c.missing().choose();
        assert(c.missing().contains(id));
        assert(c.expected.contains(id));
    }
}

/// What stands under a check-in that is over tells how it ended: called off, out
/// of time, or with everyone there.
pub proof fn law_footer_tells_how_it_ended(c: CheckInView, now: Nanos)
    requires
        c.over(now),
    ensures
        c.footer_text(now) == "Cancelled by initiator."@ <==> c.cancelled,
        c.footer_text(now) == "Gathering timed out."@ <==> !c.cancelled && now >= c.deadline(),
        c.footer_text(now) == "All checked in. Gathering complete."@ ==> c.missing().is_empty(),
{
    reveal_strlit("Cancelled by initiator.");
    reveal_strlit("Gathering timed out.");
    reveal_strlit("All checked in. Gathering complete.");
    assert("Cancelled by initiator."@.len() == 23);
    assert("Gathering timed out."@.len() == 20);
    assert("All checked in. Gathering complete."@.len() == 35);
    if !c.cancelled && now < c.deadline() {
        law_gathering_waits_for_everyone(c, now);
    }
}

/// Users are addressed by their id, one after the other, with a space between
/// neighbours.
pub proof fn law_mentions_follow_each_other(
    ids: Vec<u64>,
    more: Vec<u64>,
    id: u64,
    one: String,
    few: String,
    all: String,
)
    requires
        call_ensures(mention, (id,), one),
        call_ensures(mentions, (&ids,), few),
        call_ensures(mentions, (&more,), all),
        more@ == ids@.push(id),
    ensures
        one@ == "<@"@ + text::decimal(id as nat) + ">"@,
        ids@.len() == 0 ==> few@.len() == 0 && all@ == one@,
        ids@.len() > 0 ==> all@ == few@ + " "@ + one@,
{
    let parts = more@.map_values(|id: u64| mention_text(id));
    assert(parts.drop_last() =~= ids@.map_values(|id: u64| mention_text(id)));
    assert(parts.last() == mention_text(id));
}

/// A gathering opens exactly where somebody is in the voice channel. It calls
/// all of them, and a countdown comes first unless it is to last no time.
pub proof fn law_gatherings_open_for_somebody(
    voice_members: Vec<u64>,
    duration: Nanos,
    r: Result<GatherOpening, MusicBotError>,
    called: String,
)
    requires
        call_ensures(start_gather, (&voice_members, duration), r),
        call_ensures(mentions, (&voice_members,), called),
    ensures
        r is Ok <==> voice_members@.len() > 0,
        r matches Ok(opening) ==> {
            &&& opening.mentions@ == called@
            &&& opening.countdown <==> duration != 0
            &&& opening.placeholder@ == "Gathering starting…"@
        },
        r matches Err(e) ==> (e matches MusicBotError::InternalError(text) && text@
            == "No one is in the voice channel."@),
{
}

/// A new gathering knows its channel and nothing else.
pub proof fn law_gatherings_begin_untouched(channel: u64, r: GatherState)
    requires
        call_ensures(GatherState::new, (channel,), r),
    ensures
        r.voice_channel_id == channel,
        forall|id: u64| #[trigger]
            r.extra_expected@.contains(id) || #[trigger] r.forgotten@.contains(id) || #[trigger]
            r.auto_arrived@.contains(id) ==> false,
        !r.silent,
        r.pregather is None,
        r.pregather_extension == 0,
{
}

/// A countdown is known from its beginning to its end, as it began, and nothing
/// else changes with it.
pub proof fn law_countdowns_are_known_while_they_run(
    s: &mut GatherState,
    started_at: Nanos,
    started_at_wall: i128,
    duration: Nanos,
    t: &mut GatherState,
)
    requires
        call_ensures(GatherState::open_pregather, (s, started_at, started_at_wall, duration), ()),
        *old(t) == *final(s),
        call_ensures(GatherState::close_pregather, (t,), ()),
    ensures
        final(s)@.pregather matches Some(info) && info.started_at == started_at
            && info.started_at_wall == started_at_wall && info.original_duration == duration,
        final(s)@ == (GatherView { pregather: final(s)@.pregather, ..old(s)@ }),
        final(t)@ == (GatherView { pregather: None, ..old(s)@ }),
{
}

/// A countdown runs until its beginning plus its duration plus all that was added
/// to it. Until then a click is waited for, no longer than that and no longer than
/// five seconds.
pub proof fn law_countdowns_last_as_long_as_they_should(
    s: GatherState,
    started_at: Nanos,
    duration: Nanos,
    now: Nanos,
    r: Option<Nanos>,
)
    requires
        call_ensures(GatherState::pregather_wait, (&s, started_at, duration, now), r),
    ensures
        ({
            let left = started_at + duration + s.pregather_extension - now;
            &&& r is None <==> left <= 0
            &&& r matches Some(wait) ==> {
                &&& 0 < wait <= left
                &&& wait <= 5_000_000_000
                &&& wait == left || wait == 5_000_000_000
            }
        }),
{
}

/// A countdown is shown to end at the same moment by both clocks: its whole
/// length after it began.
pub proof fn law_countdowns_end_by_both_clocks(
    s: GatherState,
    started_at: Nanos,
    started_at_wall: i128,
    duration: Nanos,
    r: (Nanos, i128),
)
    requires
        call_ensures(
            GatherState::pregather_end,
            (&s, started_at, started_at_wall, duration),
            r,
        ),
    ensures
        r.0 - started_at == duration + s.pregather_extension,
        r.1 - started_at_wall == duration + s.pregather_extension,
{
}

/// During the countdown a click to join has its user expected and not dropped, a
/// click to leave has its user dropped and not expected, and nobody else is
/// touched. The author, and nobody else, calls the gathering off or starts the
/// check-in. Every other click is confirmed and changes nothing.
pub proof fn law_countdown_clicks(
    s: &mut GatherState,
    button: GatherButton,
    user: u64,
    author: u64,
    r: (Reply, Option<PregatherEnd>),
)
    requires
        call_ensures(GatherState::pregather_click, (s, button, user, author), r),
    ensures
        button == GatherButton::Join ==> {
            &&& r.0 is Refresh && r.1 is None
            &&& forall|id: u64| #[trigger]
                final(s)@.extra_expected.contains(id) <==> old(s)@.extra_expected.contains(id) || id
                    == user
            &&& forall|id: u64| #[trigger]
                final(s)@.forgotten.contains(id) <==> old(s)@.forgotten.contains(id) && id != user
        },
        button == GatherButton::Leave ==> {
            &&& r.0 is Refresh && r.1 is None
            &&& forall|id: u64| #[trigger]
                final(s)@.extra_expected.contains(id) <==> old(s)@.extra_expected.contains(id) && id
                    != user
            &&& forall|id: u64| #[trigger]
                final(s)@.forgotten.contains(id) <==> old(s)@.forgotten.contains(id) || id == user
        },
        button != GatherButton::Join && button != GatherButton::Leave ==> final(s)@ == old(s)@,
        r.1 == Some(PregatherEnd::Cancelled) <==> button == GatherButton::Cancel && user == author,
        r.1 == Some(PregatherEnd::Started) <==> button == GatherButton::ForceStart && user
            == author,
        r.0 is Refuse <==> (button == GatherButton::Cancel || button == GatherButton::ForceStart)
            && user != author,
        button == GatherButton::Cancel && user != author ==> r.0->Refuse_0@
            == "Only the person who started the gathering can cancel it."@,
        button == GatherButton::ForceStart && user != author ==> r.0->Refuse_0@
            == "Only the person who started the gathering can skip the countdown."@,
        r.0 is Refresh <==> button == GatherButton::Join || button == GatherButton::Leave,
        final(s)@ == (GatherView {
            extra_expected: final(s)@.extra_expected,
            forgotten: final(s)@.forgotten,
            ..old(s)@
        }),
{
}

/// A countdown that was called off says so; one that leads on says nothing.
pub proof fn law_ended_countdowns_say_why(end: PregatherEnd, r: Option<String>)
    requires
        call_ensures(PregatherEnd::footer, (end,), r),
    ensures
        end == PregatherEnd::Cancelled ==> (r matches Some(text) && text@ == "Cancelled."@),
        end == PregatherEnd::Started ==> r is None,
{
}

/// A check-in begins with the members of the voice channel, the author and
/// whoever was added expected, and nobody else; nobody has arrived or opted out,
/// and the grace period runs from now on.
pub proof fn law_check_ins_await_the_right_users(
    author: u64,
    members: Vec<u64>,
    state: GatherState,
    now: Nanos,
    grace: Nanos,
    r: CheckIn,
)
    requires
        now + grace <= u128::MAX,
        call_ensures(CheckIn::begin, (author, &members, &state, now, grace), r),
    ensures
        forall|id: u64| #[trigger]
            r@.expected.contains(id) <==> members@.contains(id) || id == author
                || state.extra_expected@.contains(id),
        forall|id: u64| !(#[trigger] r@.arrivals.contains_key(id)),
        forall|id: u64| !(#[trigger] r@.opted_out.contains(id)),
        r.author_id == author,
        r.started_at == now,
        r.grace_ends_at == now + grace,
        !r.cancelled,
        r.last_edit == now,
        r.last_ghost_ping == now,
{
    assert forall|id: u64| #[trigger] r@.expected.contains(id) <==> members@.contains(id) || id
        == author || state.extra_expected@.contains(id) by {
        assert(members@.to_set().contains(id) <==> members@.contains(id));
    }
}

/// A check-in is complete exactly where everyone expected has arrived.
pub proof fn law_complete_means_everyone(c: CheckIn, r: bool)
    requires
        call_ensures(CheckIn::is_complete, (&c,), r),
    ensures
        r <==> forall|id: u64| #[trigger]
            c@.expected.contains(id) ==> c@.arrivals.contains_key(id),
{
}

/// A check-in is over exactly half an hour after it began, or once it was called
/// off, or once everyone expected has arrived. Until then it is looked at again
/// when the grace period ends, after that when the next reminder is due or the
/// half hour is over, and in any case after eight tenths of a second. Looking
/// changes nothing, but that the grace period is over once everyone is there.
pub proof fn law_check_ins_last_until_everyone_is_there(
    c: &mut CheckIn,
    now: Nanos,
    r: Option<Nanos>,
)
    requires
        call_ensures(CheckIn::poll, (c, now), r),
    ensures
        ({
            let everyone = forall|id: u64| #[trigger]
                old(c)@.expected.contains(id) ==> old(c)@.arrivals.contains_key(id);
            let deadline = old(c)@.started_at + 1_800_000_000_000;
            let reminder = old(c)@.last_ghost_ping + 30_000_000_000;
            let due = if now < old(c)@.grace_ends_at {
                old(c)@.grace_ends_at as int
            } else if reminder < deadline {
                reminder
            } else {
                deadline
            };
            &&& r is None <==> now >= deadline || old(c)@.cancelled || everyone
            &&& r matches Some(wait) ==> {
                &&& due - now >= 800_000_000 ==> wait == 800_000_000
                &&& 0 <= due - now < 800_000_000 ==> wait == due - now
                &&& due < now ==> wait == 0
            }
            &&& everyone && now < deadline && !old(c)@.cancelled && now < old(c)@.grace_ends_at
                ==> final(c)@ == (CheckInView { grace_ends_at: now, ..old(c)@ })
            &&& !(everyone && now < deadline && !old(c)@.cancelled && now < old(c)@.grace_ends_at)
                ==> final(c)@ == old(c)@
        }),
{
}

/// Checking in takes being in the voice channel, and counts once. Whoever checks
/// in is expected and has arrived: on time within the grace period, and late by
/// the whole time since the start after it. Nobody else is touched, and the grace
/// period ends with the last who was missing.
pub proof fn law_checking_in_is_recorded(
    c: &mut CheckIn,
    state: &mut GatherState,
    user: u64,
    in_voice: bool,
    now: Nanos,
    r: Reply,
)
    requires
        call_ensures(
            CheckIn::handle_interaction,
            (c, state, GatherButton::Here, user, in_voice, now),
            r,
        ),
    ensures
        final(state)@ == old(state)@,
        !in_voice ==> {
            &&& r matches Reply::Refuse(text)
            &&& text@ == "You need to be in the voice channel to check in."@
            &&& final(c)@ == old(c)@
        },
        in_voice && old(c)@.arrivals.contains_key(user) ==> {
            &&& r matches Reply::Refuse(text)
            &&& text@ == "You're already checked in."@
            &&& final(c)@ == old(c)@
        },
        in_voice && !old(c)@.arrivals.contains_key(user) ==> {
            let late = final(c)@.arrivals[user];
            let everyone = forall|id: u64| #[trigger]
                final(c)@.expected.contains(id) ==> final(c)@.arrivals.contains_key(id);
            &&& r is Refresh
            &&& final(c)@.arrivals == old(c)@.arrivals.insert(user, late)
            &&& final(c)@.expected == old(c)@.expected.insert(user)
            &&& now <= old(c)@.grace_ends_at ==> late == 0
            &&& now > old(c)@.grace_ends_at && now >= old(c)@.started_at ==> late == now - old(c)@.started_at
            &&& everyone ==> final(c)@.grace_ends_at == now
            &&& !everyone ==> final(c)@.grace_ends_at == old(c)@.grace_ends_at
            &&& final(c)@ == (CheckInView {
                arrivals: final(c)@.arrivals,
                expected: final(c)@.expected,
                grace_ends_at: final(c)@.grace_ends_at,
                ..old(c)@
            })
        },
{
}

/// Whoever has arrived cannot opt out, and nobody opts out twice. Whoever opts
/// out is awaited no more, and nobody else is touched. Where nobody is missing
/// then, the grace period is over.
pub proof fn law_opting_out_is_recorded(
    c: &mut CheckIn,
    state: &mut GatherState,
    user: u64,
    in_voice: bool,
    now: Nanos,
    r: Reply,
)
    requires
        call_ensures(
            CheckIn::handle_interaction,
            (c, state, GatherButton::NotComing, user, in_voice, now),
            r,
        ),
    ensures
        final(state)@ == old(state)@,
        old(c)@.arrivals.contains_key(user) ==> {
            &&& r matches Reply::Refuse(text)
            &&& text@ == "You've already checked in — you can't opt out now."@
            &&& final(c)@ == old(c)@
        },
        !old(c)@.arrivals.contains_key(user) && old(c)@.opted_out.contains(user) ==> {
            &&& r matches Reply::Refuse(text)
            &&& text@ == "You've already marked yourself as not coming."@
            &&& final(c)@ == old(c)@
        },
        !old(c)@.arrivals.contains_key(user) && !old(c)@.opted_out.contains(user) ==> {
            let everyone = forall|id: u64| #[trigger]
                final(c)@.expected.contains(id) ==> final(c)@.arrivals.contains_key(id);
            &&& r is Refresh
            &&& final(c)@.expected == old(c)@.expected.remove(user)
            &&& final(c)@.opted_out == old(c)@.opted_out.insert(user)
            &&& everyone && now < old(c)@.grace_ends_at ==> final(c)@.grace_ends_at == now
            &&& !everyone || now >= old(c)@.grace_ends_at ==> final(c)@.grace_ends_at == old(c)@.grace_ends_at
            &&& final(c)@ == (CheckInView {
                expected: final(c)@.expected,
                opted_out: final(c)@.opted_out,
                grace_ends_at: final(c)@.grace_ends_at,
                ..old(c)@
            })
        },
{
}

/// The author, and nobody else, calls the check-in off and mutes or unmutes the
/// reminders. Buttons that belong to the countdown do nothing.
pub proof fn law_author_controls_the_check_in(
    c: &mut CheckIn,
    state: &mut GatherState,
    button: GatherButton,
    user: u64,
    in_voice: bool,
    now: Nanos,
    r: Reply,
)
    requires
        call_ensures(CheckIn::handle_interaction, (c, state, button, user, in_voice, now), r),
        button != GatherButton::Here,
        button != GatherButton::NotComing,
    ensures
        button == GatherButton::Cancel && user == old(c)@.author_id ==> {
            &&& r is Acknowledge
            &&& final(c)@ == (CheckInView { cancelled: true, ..old(c)@ })
        },
        button == GatherButton::Cancel && user != old(c)@.author_id ==> {
            &&& r matches Reply::Refuse(text)
            &&& text@ == "Only the person who started the gathering can cancel it."@
        },
        button == GatherButton::ToggleSilent && user == old(c)@.author_id ==> {
            &&& r is Refresh
            &&& final(state)@ == (GatherView { silent: !old(state)@.silent, ..old(state)@ })
        },
        button == GatherButton::ToggleSilent && user != old(c)@.author_id ==> {
            &&& r matches Reply::Refuse(text)
            &&& text@ == "Only the person who started the gathering can mute pings."@
        },
        button != GatherButton::Cancel && button != GatherButton::ToggleSilent ==> r is Acknowledge,
        !(button == GatherButton::Cancel && user == old(c)@.author_id) ==> final(c)@ == old(c)@,
        !(button == GatherButton::ToggleSilent && user == old(c)@.author_id) ==> final(state)@
            == old(state)@,
{
}

/// After a round, expected is who was expected or was added, without those who
/// were taken off and had not arrived. Arrived is who had arrived, as they had,
/// and who joined the voice channel and is expected: on time within the grace
/// period, and late by the whole time since the start after it. What was taken over
/// is gone from the shared state.
pub proof fn law_rounds_take_over_the_shared_state(
    c: &mut CheckIn,
    state: &mut GatherState,
    now: Nanos,
    r: Vec<u64>,
)
    requires
        call_ensures(CheckIn::tick, (c, state, now), r),
    ensures
        forall|id: u64| #[trigger]
            final(c)@.expected.contains(id) <==> (old(c)@.expected.contains(id) || old(state)@.extra_expected.contains(id)) && !(old(state)@.forgotten.contains(id) && !old(c)@.arrivals.contains_key(id)),
        forall|id: u64| #[trigger]
            final(c)@.arrivals.contains_key(id) <==> old(c)@.arrivals.contains_key(id) || (old(state)@.auto_arrived.contains(id) && final(c)@.expected.contains(id)),
        forall|id: u64| #[trigger]
            old(c)@.arrivals.contains_key(id) ==> final(c)@.arrivals[id] == old(c)@.arrivals[id],
        forall|id: u64| #[trigger]
            final(c)@.arrivals.contains_key(id) && !old(c)@.arrivals.contains_key(id) ==> {
                &&& now <= old(c)@.grace_ends_at ==> final(c)@.arrivals[id] == 0
                &&& now > old(c)@.grace_ends_at && now >= old(c)@.started_at
                    ==> final(c)@.arrivals[id] == now - old(c)@.started_at
            },
        forall|id: u64|
            !(#[trigger] final(state)@.forgotten.contains(id)) && !(
            #[trigger] final(state)@.auto_arrived.contains(id)),
        final(state)@ == (GatherView {
            forgotten: final(state)@.forgotten,
            auto_arrived: final(state)@.auto_arrived,
            ..old(state)@
        }),
        (forall|id: u64| !(#[trigger] old(state)@.auto_arrived.contains(id))) ==> final(c)@.last_edit == old(c)@.last_edit && final(c)@.grace_ends_at == old(c)@.grace_ends_at,
        (exists|id: u64| #[trigger] old(state)@.auto_arrived.contains(id)) ==> final(c)@.last_edit
            == old(c)@.started_at,
        final(c)@.author_id == old(c)@.author_id,
        final(c)@.started_at == old(c)@.started_at,
        final(c)@.opted_out == old(c)@.opted_out,
        final(c)@.cancelled == old(c)@.cancelled,
{
    let before = old(c)@;
    let g = old(state)@;
    let after = before.synced(g, now);
    assert(final(c)@.expected == after.expected);
    assert(final(c)@.arrivals == after.arrivals);
    if forall|id: u64| !(#[trigger] g.auto_arrived.contains(id)) {
        assert(g.auto_arrived =~= Set::empty());
        let newly = g.auto_arrived.intersect(after.expected).difference(before.arrivals.dom());
        assert(newly =~= Set::empty());
    }
    if exists|id: u64| #[trigger] g.auto_arrived.contains(id) {
        let id = choose|id: u64| #[trigger] g.auto_arrived.contains(id);
        assert(!g.auto_arrived.is_empty());
    }
}

/// The grace period ends with the last who was missing, where they arrive by
/// joining the voice channel within it. Otherwise a round leaves it alone.
pub proof fn law_rounds_end_the_grace_period(
    c: &mut CheckIn,
    state: &mut GatherState,
    now: Nanos,
    r: Vec<u64>,
    id: u64,
)
    requires
        call_ensures(CheckIn::tick, (c, state, now), r),
    ensures
        ({
            let everyone = forall|other: u64| #[trigger]
                final(c)@.expected.contains(other) ==> final(c)@.arrivals.contains_key(other);
            let newly = final(c)@.arrivals.contains_key(id) && !old(c)@.arrivals.contains_key(id);
            &&& newly && everyone && now < old(c)@.grace_ends_at ==> final(c)@.grace_ends_at == now
            &&& !everyone || now >= old(c)@.grace_ends_at ==> final(c)@.grace_ends_at == old(c)@.grace_ends_at
        }),
{
    let before = old(c)@;
    let g = old(state)@;
    let after = before.synced(g, now);
    let newly = g.auto_arrived.intersect(after.expected).difference(before.arrivals.dom());
    if final(c)@.arrivals.contains_key(id) && !before.arrivals.contains_key(id) {
        assert(newly.contains(id));
    }
}

/// Reminders are sent, and to all who are missing: wherever they are not muted,
/// the grace period is over and the last reminders went out at least half a minute
/// ago, a round names exactly those who are expected and have not arrived, each
/// once. Otherwise it names nobody, and the time of the last reminders stays.
pub proof fn law_missing_users_are_reminded(
    c: &mut CheckIn,
    state: &mut GatherState,
    now: Nanos,
    r: Vec<u64>,
)
    requires
        call_ensures(CheckIn::tick, (c, state, now), r),
    ensures
        ({
            let due = !old(state)@.silent && now >= final(c)@.grace_ends_at && now >= old(c)@.last_ghost_ping + 30_000_000_000;
            &&& due ==> forall|id: u64| #[trigger]
                r@.contains(id) <==> final(c)@.expected.contains(id)
                    && !final(c)@.arrivals.contains_key(id)
            &&& due ==> final(c)@.last_ghost_ping == now
            &&& !due ==> r@.len() == 0
            &&& !due ==> final(c)@.last_ghost_ping == old(c)@.last_ghost_ping
        }),
        r@.no_duplicates(),
{
    assert forall|id: u64| #[trigger] r@.contains(id) <==> r@.to_set().contains(id) by {}
    if r@.len() > 0 {
        assert(r@.contains(r@[0]));
        assert(r@.to_set().contains(r@[0]));
    }
}

/// Whoever is missing is among the reminded whenever reminders are due.
pub proof fn law_nobody_missing_is_left_out(c: CheckInView, g: GatherView, now: Nanos, id: u64)
    requires
        !g.silent,
        now >= c.ticked(g, now).grace_ends_at,
        now >= c.last_ghost_ping + 30_000_000_000,
        c.ticked(g, now).expected.contains(id),
        !c.ticked(g, now).arrivals.contains_key(id),
    ensures
        c.pinged(g, now).contains(id),
{
}

/// The message is drawn anew exactly where it was last drawn at least five seconds
/// ago.
pub proof fn law_edits_keep_their_distance(
    c: CheckIn,
    now: Nanos,
    r: bool,
    d: &mut CheckIn,
    drawn: Nanos,
)
    requires
        call_ensures(CheckIn::edit_due, (&c, now), r),
        call_ensures(CheckIn::edited, (d, drawn), ()),
    ensures
        r <==> now - c.last_edit >= 5_000_000_000,
        final(d)@ == (CheckInView { last_edit: drawn, ..old(d)@ }),
{
}

/// What stands under a check-in that has ended tells whether it was called off,
/// ran out of its half hour, or found everyone.
pub proof fn law_ended_check_ins_say_why(c: CheckIn, now: Nanos, r: String)
    requires
        call_ensures(CheckIn::footer, (&c, now), r),
    ensures
        c.cancelled ==> r@ == "Cancelled by initiator."@,
        !c.cancelled && now - c.started_at >= 1_800_000_000_000 ==> r@ == "Gathering timed out."@,
        !c.cancelled && now - c.started_at < 1_800_000_000_000 ==> r@
            == "All checked in. Gathering complete."@,
{
}

/// The lines of a check-in name everyone expected, with their arrival if they
/// have one, and everyone who opted out, and nobody else.
pub proof fn law_lines_name_everyone(c: CheckIn, r: Vec<CheckInRow>, id: u64)
    requires
        call_ensures(CheckIn::rows, (&c,), r),
    ensures
        c.expected@.contains(id) <==> exists|k: int|
            0 <= k < r@.len() && (#[trigger] r@[k]).user_id == id && !r@[k].opted_out,
        c.opted_out@.contains(id) <==> exists|k: int|
            0 <= k < r@.len() && (#[trigger] r@[k]).user_id == id && r@[k].opted_out,
        forall|k: int|
            0 <= k < r@.len() && !(#[trigger] r@[k]).opted_out ==> {
                &&& c.arrivals@.contains_key(r@[k].user_id) ==> r@[k].arrived == Some(
                    c.arrivals@[r@[k].user_id],
                )
                &&& !c.arrivals@.contains_key(r@[k].user_id) ==> r@[k].arrived is None
            },
        forall|k: int| 0 <= k < r@.len() && (#[trigger] r@[k]).opted_out ==> r@[k].arrived is None,
        forall|k: int, l: int|
            0 <= k < l < r@.len() && (#[trigger] r@[k]).opted_out ==> (#[trigger] r@[l]).opted_out,
        forall|k: int, l: int|
            0 <= k < l < r@.len() && (#[trigger] r@[k]).opted_out == (#[trigger] r@[l]).opted_out
                ==> r@[k].user_id != r@[l].user_id,
{
    let (expected, opted_out) = choose|expected: Seq<u64>, opted_out: Seq<u64>|
        #![trigger expected.no_duplicates(), opted_out.no_duplicates()]
        {
            &&& expected.no_duplicates()
            &&& expected.to_set() == c@.expected
            &&& opted_out.no_duplicates()
            &&& opted_out.to_set() == c@.opted_out
            &&& r@ == expected.map_values(|id: u64| expected_row(c@, id)) + opted_out.map_values(
                |id: u64| opted_out_row(id),
            )
        };
    let n = expected.len() as int;
    assert forall|k: int| 0 <= k < r@.len() implies (#[trigger] r@[k]) == if k < n {
        expected_row(c@, expected[k])
    } else {
        opted_out_row(opted_out[k - n])
    } by {}
    assert(expected.to_set().contains(id) <==> expected.contains(id));
    assert(opted_out.to_set().contains(id) <==> opted_out.contains(id));
    if expected.contains(id) {
        let k = choose|k: int| 0 <= k < expected.len() && expected[k] == id;
        assert(r@[k].user_id == id && !r@[k].opted_out);
    }
    if opted_out.contains(id) {
        let k = choose|k: int| 0 <= k < opted_out.len() && opted_out[k] == id;
        assert(r@[n + k].user_id == id && r@[n + k].opted_out);
    }
    assert forall|k: int| 0 <= k < r@.len() && (#[trigger] r@[k]).user_id == id implies if k < n {
        expected.contains(id)
    } else {
        opted_out.contains(id)
    } by {
        if k < n {
            assert(expected[k] == id);
        } else {
            assert(opted_out[k - n] == id);
        }
    }
}

/// A user is called by the name that the guild knows, and else by their id.
pub proof fn law_users_have_a_name(member: Option<&str>, id: u64, r: String)
    requires
        call_ensures(display_name, (member, id), r),
    ensures
        member matches Some(name) ==> r@ == name@,
        member is None ==> r@ == "User "@ + text::decimal(id as nat),
{
}

} // verus!
