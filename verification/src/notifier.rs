use vstd::prelude::*;

use crate::config::Settings;

verus! {

/// Nanoseconds in one second.
pub const NANOS_PER_SEC: u64 = 1_000_000_000;

/// The three kinds of resource alert, in the order in which one check raises them.
#[derive(Debug, Clone, Copy, PartialEq, Eq, Structural)]
pub enum Alert {
    CpuHigh,
    MemoryLow,
    DiskLow,
}

impl Alert {
    /// The title under which an alert of this kind is shown.
    pub open spec fn title_spec(self) -> Seq<char> {
        match self {
            Alert::CpuHigh => "CPU Usage High"@,
            Alert::MemoryLow => "Memory Low"@,
            Alert::DiskLow => "Disk Space Low"@,
        }
    }

    /// The title under which an alert of this kind is shown.
    pub fn title(&self) -> (t: &'static str)
        ensures
            t@ == self.title_spec(),
    {
        match self {
            Alert::CpuHigh => "CPU Usage High",
            Alert::MemoryLow => "Memory Low",
            Alert::DiskLow => "Disk Space Low",
        }
    }
}

/// A resource alert ready to be shown: a title naming its kind and a body
/// describing the sample that raised it.
pub struct Notification {
    pub title: String,
    pub body: String,
}

impl Notification {
    /// The notification for an alert of kind `alert`, with the given body.
    pub fn new(alert: Alert, body: String) -> (n: Notification)
        ensures
            n.title@ == alert.title_spec(),
            n.body@ == body@,
    {
        let mut title = String::new();
        title.append(alert.title());
        Notification { title, body }
    }

    /// The one-line form in which a sent notification is reported: the title, a
    /// colon and a space, and the body.
    pub fn summary(&self) -> (line: String)
        ensures
            line@ == self.title@ + ": "@ + self.body@,
    {
        let mut line = String::new();
        line.append(self.title.as_str());
        line.append(": ");
        line.append(self.body.as_str());
        line
    }
}

/// How one sample of the system compares with the configured thresholds.
///
/// The thresholds and the readings are fractional, so the comparisons are made by
/// the caller: CPU usage above its threshold, free memory (as a percentage)
/// below its threshold, free disk space (in GiB) below its threshold.
#[derive(Debug, Clone, Copy, PartialEq, Eq, Structural)]
pub struct Readings {
    pub cpu_high: bool,
    pub memory_low: bool,
    pub disk_low: bool,
}

/// The notifier's memory, as instants in nanoseconds on a monotonic clock:
/// since when the CPU has been high without a break, and when each kind of alert
/// was last raised.
#[derive(Debug, Clone, Copy)]
pub struct Timers {
    pub cpu_high_since: Option<u64>,
    pub last_cpu_alert: Option<u64>,
    pub last_memory_alert: Option<u64>,
    pub last_disk_alert: Option<u64>,
}

/// Time from `since` to `now`, zero when `now` lies before `since` (as
/// `Instant::elapsed` saturates).
pub open spec fn elapsed(since: u64, now: u64) -> nat {
    if now >= since {
        (now - since) as nat
    } else {
        0
    }
}

/// The pause that must separate two alerts of one kind, in nanoseconds.
pub open spec fn cooldown_nanos(s: Settings) -> nat {
    (s.notification_cooldown_mins * 60 * NANOS_PER_SEC) as nat
}

/// An alert last raised at `last` may be raised again at `now`.
pub open spec fn cooled_down(last: Option<u64>, now: u64, s: Settings) -> bool {
    match last {
        None => true,
        Some(t) => elapsed(t, now) >= cooldown_nanos(s),
    }
}

/// Where the current high-CPU streak started, once `r` is taken into account.
pub open spec fn streak_start(t: Timers, r: Readings, s: Settings, now: u64) -> Option<u64> {
    if !s.notify_cpu {
        t.cpu_high_since
    } else if r.cpu_high {
        match t.cpu_high_since {
            Some(start) => Some(start),
            None => Some(now),
        }
    } else {
        None
    }
}

/// A CPU alert is raised: alerts are on, the CPU is high, the streak has lasted the
/// configured number of whole seconds and the last CPU alert is a cooldown away.
pub open spec fn cpu_fires(t: Timers, r: Readings, s: Settings, now: u64) -> bool {
    &&& s.notify_cpu
    &&& r.cpu_high
    &&& elapsed(streak_start(t, r, s, now)->0, now) / (NANOS_PER_SEC as nat) >= s.cpu_sustained_secs
    &&& cooled_down(t.last_cpu_alert, now, s)
}

/// A memory alert is raised: alerts are on, memory is low and the last memory
/// alert is a cooldown away.
pub open spec fn memory_fires(t: Timers, r: Readings, s: Settings, now: u64) -> bool {
    s.notify_memory && r.memory_low && cooled_down(t.last_memory_alert, now, s)
}

/// A disk alert is raised: alerts are on, disk space is low and the last disk
/// alert is a cooldown away.
pub open spec fn disk_fires(t: Timers, r: Readings, s: Settings, now: u64) -> bool {
    s.notify_disk && r.disk_low && cooled_down(t.last_disk_alert, now, s)
}

/// The notifier's memory after a check at `now`.
pub open spec fn next_timers(t: Timers, r: Readings, s: Settings, now: u64) -> Timers {
    Timers {
        cpu_high_since: streak_start(t, r, s, now),
        last_cpu_alert: if cpu_fires(t, r, s, now) {
            Some(now)
        } else {
            t.last_cpu_alert
        },
        last_memory_alert: if memory_fires(t, r, s, now) {
            Some(now)
        } else {
            t.last_memory_alert
        },
        last_disk_alert: if disk_fires(t, r, s, now) {
            Some(now)
        } else {
            t.last_disk_alert
        },
    }
}

/// The alerts raised by a check at `now`: CPU, then memory, then disk, each when it fires.
pub open spec fn raised(t: Timers, r: Readings, s: Settings, now: u64) -> Seq<Alert> {
    (if cpu_fires(t, r, s, now) {
        seq![Alert::CpuHigh]
    } else {
        Seq::empty()
    }) + (if memory_fires(t, r, s, now) {
        seq![Alert::MemoryLow]
    } else {
        Seq::empty()
    }) + (if disk_fires(t, r, s, now) {
        seq![Alert::DiskLow]
    } else {
        Seq::empty()
    })
}

/// Decides, sample by sample, which resource alerts to raise: a CPU alert only
/// after the CPU has stayed high for a while, and no alert of one kind sooner than
/// a cooldown after the previous one.
pub struct NotifierState {
    timers: Timers,
}

impl View for NotifierState {
    type V = Timers;

    closed spec fn view(&self) -> Timers {
        self.timers
    }
}

impl NotifierState {
    /// A notifier that has seen no sample and raised no alert.
    pub fn new() -> (n: NotifierState)
        ensures
            n@.cpu_high_since is None,
            n@.last_cpu_alert is None,
            n@.last_memory_alert is None,
            n@.last_disk_alert is None,
    {
        NotifierState {
            timers: Timers {
                cpu_high_since: None,
                last_cpu_alert: None,
                last_memory_alert: None,
                last_disk_alert: None,
            },
        }
    }

    /// Takes one sample, compared with the thresholds in `readings`, at instant
    /// `now` (nanoseconds on a monotonic clock), and returns the alerts it raises.
    pub fn check(&mut self, readings: &Readings, settings: &Settings, now: u64) -> (alerts: Vec<Alert>)
        requires
            settings.notification_cooldown_mins * 60 <= u64::MAX,
        ensures
            final(self)@ == next_timers(old(self)@, *readings, *settings, now),
            alerts@ == raised(old(self)@, *readings, *settings, now),
    {
        let t = self.timers;
        let cooldown_secs: u64 = settings.notification_cooldown_mins * 60;
        assert(cooldown_secs as u128 * NANOS_PER_SEC as u128 <= u128::MAX) by (nonlinear_arith)
            requires
                cooldown_secs <= u64::MAX,
        ;
        let cooldown: u128 = cooldown_secs as u128 * NANOS_PER_SEC as u128;
        let mut alerts: Vec<Alert> = Vec::new();
        let mut next = t;

        if settings.notify_cpu {
            if readings.cpu_high {
                let start = match t.cpu_high_since {
                    Some(start) => start,
                    None => now,
                };
                next.cpu_high_since = Some(start);
                if now.saturating_sub(start) / NANOS_PER_SEC >= settings.cpu_sustained_secs {
                    let ready = match t.last_cpu_alert {
                        None => true,
                        Some(last) => now.saturating_sub(last) as u128 >= cooldown,
                    };
                    if ready {
                        alerts.push(Alert::CpuHigh);
                        next.last_cpu_alert = Some(now);
                    }
                }
            } else {
                next.cpu_high_since = None;
            }
        }
        if settings.notify_memory && readings.memory_low {
            let ready = match t.last_memory_alert {
                None => true,
                Some(last) => now.saturating_sub(last) as u128 >= cooldown,
            };
            if ready {
                alerts.push(Alert::MemoryLow);
                next.last_memory_alert = Some(now);
            }
        }
        if settings.notify_disk && readings.disk_low {
            let ready = match t.last_disk_alert {
                None => true,
                Some(last) => now.saturating_sub(last) as u128 >= cooldown,
            };
            if ready {
                alerts.push(Alert::DiskLow);
                next.last_disk_alert = Some(now);
            }
        }
        self.timers = next;
        proof {
            assert(alerts@ =~= raised(t, *readings, *settings, now));
        }
        alerts
    }
}

/// Validated settings always meet what a check requires of its settings.
pub proof fn lemma_valid_settings_can_be_checked(s: Settings)
    requires
        s.in_bounds(),
    ensures
        s.notification_cooldown_mins * 60 <= u64::MAX,
{
}

/// When an alert of kind `a` was last raised, according to `t`.
pub open spec fn last_alert(t: Timers, a: Alert) -> Option<u64> {
    match a {
        Alert::CpuHigh => t.last_cpu_alert,
        Alert::MemoryLow => t.last_memory_alert,
        Alert::DiskLow => t.last_disk_alert,
    }
}

/// A check whose readings cross no threshold raises no alert.
pub proof fn lemma_quiet_readings_raise_nothing(t: Timers, r: Readings, s: Settings, now: u64)
    requires
        !r.cpu_high,
        !r.memory_low,
        !r.disk_low,
    ensures
        raised(t, r, s, now) == Seq::<Alert>::empty(),
{
    assert(raised(t, r, s, now) =~= Seq::<Alert>::empty());
}

/// An alert kind that is switched off is never raised, and its part of the memory
/// stays as it was.
pub proof fn lemma_disabled_alerts_stay_silent(t: Timers, r: Readings, s: Settings, now: u64)
    ensures
        !s.notify_cpu ==> !raised(t, r, s, now).contains(Alert::CpuHigh) && next_timers(
            t,
            r,
            s,
            now,
        ).cpu_high_since == t.cpu_high_since && next_timers(t, r, s, now).last_cpu_alert
            == t.last_cpu_alert,
        !s.notify_memory ==> !raised(t, r, s, now).contains(Alert::MemoryLow) && next_timers(
            t,
            r,
            s,
            now,
        ).last_memory_alert == t.last_memory_alert,
        !s.notify_disk ==> !raised(t, r, s, now).contains(Alert::DiskLow) && next_timers(
            t,
            r,
            s,
            now,
        ).last_disk_alert == t.last_disk_alert,
{
    lemma_raised_shape(t, r, s, now);
}

/// One check raises each kind at most once, CPU before memory before disk, and
/// records the check's instant as the last alert of exactly the kinds it raised.
pub proof fn lemma_raised_shape(t: Timers, r: Readings, s: Settings, now: u64)
    ensures
        raised(t, r, s, now).no_duplicates(),
        raised(t, r, s, now).len() <= 3,
        forall|i: int, j: int|
            0 <= i < j < raised(t, r, s, now).len() ==> alert_rank(raised(t, r, s, now)[i])
                < alert_rank(raised(t, r, s, now)[j]),
        forall|a: Alert|
            #![trigger raised(t, r, s, now).contains(a)]
            raised(t, r, s, now).contains(a) <==> alert_fires(t, r, s, now, a),
        forall|a: Alert|
            #![trigger last_alert(next_timers(t, r, s, now), a)]
            last_alert(next_timers(t, r, s, now), a) == if raised(t, r, s, now).contains(a) {
                Some(now)
            } else {
                last_alert(t, a)
            },
{
    let c = cpu_fires(t, r, s, now);
    let m = memory_fires(t, r, s, now);
    let d = disk_fires(t, r, s, now);
    let q = raised(t, r, s, now);
    assert forall|a: Alert| q.contains(a) <==> ((a == Alert::CpuHigh && c) || (a
        == Alert::MemoryLow && m) || (a == Alert::DiskLow && d)) by {
        if q.contains(a) {
            let k = choose|k: int| 0 <= k < q.len() && q[k] == a;
            assert(q[k] == a);
        }
        if a == Alert::CpuHigh && c {
            assert(q[0] == a);
        }
        if a == Alert::MemoryLow && m {
            assert(q[if c { 1int } else { 0int }] == a);
        }
        if a == Alert::DiskLow && d {
            assert(q[q.len() - 1] == a);
        }
    }
}

/// Whether a check raises an alert of kind `a`.
pub open spec fn alert_fires(t: Timers, r: Readings, s: Settings, now: u64, a: Alert) -> bool {
    match a {
        Alert::CpuHigh => cpu_fires(t, r, s, now),
        Alert::MemoryLow => memory_fires(t, r, s, now),
        Alert::DiskLow => disk_fires(t, r, s, now),
    }
}

/// One check in a run: the readings compared with the thresholds, the settings
/// in force, and the instant (nanoseconds on a monotonic clock).
pub struct Sample {
    pub readings: Readings,
    pub settings: Settings,
    pub at: u64,
}

/// The notifier's memory after checking `samples` in order, starting from `t`.
pub open spec fn run(t: Timers, samples: Seq<Sample>) -> Timers
    decreases samples.len(),
{
    if samples.len() == 0 {
        t
    } else {
        let last = samples.last();
        next_timers(run(t, samples.drop_last()), last.readings, last.settings, last.at)
    }
}

/// The alerts raised by the check of `samples[j]`, after the samples before it.
pub open spec fn raised_at(t: Timers, samples: Seq<Sample>, j: int) -> Seq<Alert> {
    raised(run(t, samples.take(j)), samples[j].readings, samples[j].settings, samples[j].at)
}

/// The instants of `samples` never go backwards.
pub open spec fn monotone(samples: Seq<Sample>) -> bool {
    forall|i: int, j: int| 0 <= i <= j < samples.len() ==> samples[i].at <= samples[j].at
}

/// CPU alerts are switched on in every one of the first `n` samples.
pub open spec fn cpu_alerts_on(samples: Seq<Sample>, n: int) -> bool {
    forall|k: int| 0 <= k < n ==> #[trigger] samples[k].settings.notify_cpu
}

/// Index of the first sample of the run of high-CPU readings that ends the
/// sequence, if its last reading is high.
pub open spec fn high_streak_start(samples: Seq<Sample>) -> Option<int>
    decreases samples.len(),
{
    if samples.len() == 0 || !samples.last().readings.cpu_high {
        None
    } else {
        match high_streak_start(samples.drop_last()) {
            Some(i) => Some(i),
            None => Some(samples.len() - 1),
        }
    }
}

/// The memory after the first `k + 1` samples is one check past that after the first `k`.
proof fn lemma_run_step(t: Timers, samples: Seq<Sample>, k: int)
    requires
        0 <= k < samples.len(),
    ensures
        run(t, samples.take(k + 1)) == next_timers(
            run(t, samples.take(k)),
            samples[k].readings,
            samples[k].settings,
            samples[k].at,
        ),
{
    assert(samples.take(k + 1).drop_last() =~= samples.take(k));
}

/// After an alert of kind `a` at sample `i`, the recorded last alert of that kind
/// lies between the instant of sample `i` and that of the latest sample checked.
proof fn lemma_last_alert_after(t: Timers, samples: Seq<Sample>, a: Alert, i: int, k: int)
    requires
        monotone(samples),
        0 <= i < k <= samples.len(),
        raised_at(t, samples, i).contains(a),
    ensures
        last_alert(run(t, samples.take(k)), a) matches Some(m) && samples[i].at <= m
            <= samples[k - 1].at,
    decreases k - i,
{
    lemma_run_step(t, samples, k - 1);
    let before = run(t, samples.take(k - 1));
    let x = samples[k - 1];
    lemma_raised_shape(before, x.readings, x.settings, x.at);
    if k - 1 > i {
        lemma_last_alert_after(t, samples, a, i, k - 1);
    }
}

/// On a clock that never goes backwards, two alerts of the same kind raised in
/// one run of checks lie at least a cooldown apart, the cooldown in force at the
/// later check (settings may change between checks).
pub proof fn lemma_alerts_of_a_kind_are_a_cooldown_apart(
    t: Timers,
    samples: Seq<Sample>,
    a: Alert,
    i: int,
    j: int,
)
    requires
        monotone(samples),
        0 <= i < j < samples.len(),
        raised_at(t, samples, i).contains(a),
        raised_at(t, samples, j).contains(a),
    ensures
        samples[j].at - samples[i].at >= samples[j].settings.notification_cooldown_mins * 60
            * 1_000_000_000,
{
    lemma_last_alert_after(t, samples, a, i, j);
    let before = run(t, samples.take(j));
    let x = samples[j];
    lemma_raised_shape(before, x.readings, x.settings, x.at);
}

/// The start of the trailing run of high readings lies in the sequence, every
/// reading from it on is high, and the reading just before it (if any) is not.
pub proof fn lemma_high_streak_start_bounds(samples: Seq<Sample>)
    ensures
        high_streak_start(samples) matches Some(i) ==> {
            &&& 0 <= i < samples.len()
            &&& forall|k: int| i <= k < samples.len() ==> #[trigger] samples[k].readings.cpu_high
            &&& i == 0 || !samples[i - 1].readings.cpu_high
        },
        high_streak_start(samples) is None ==> samples.len() == 0
            || !samples.last().readings.cpu_high,
    decreases samples.len(),
{
    if samples.len() > 0 {
        let init = samples.drop_last();
        lemma_high_streak_start_bounds(init);
        if samples.last().readings.cpu_high {
            if let Some(i) = high_streak_start(init) {
                assert forall|k: int| i <= k < samples.len() implies #[trigger] samples[k].readings.cpu_high by {
                    if k < samples.len() - 1 {
                        assert(init[k] == samples[k]);
                    }
                }
                if i > 0 {
                    assert(init[i - 1] == samples[i - 1]);
                }
            } else {
                if samples.len() > 1 {
                    assert(init.last() == samples[samples.len() - 2]);
                }
            }
        }
    }
}

/// A run of high readings that ends the sequence and begins right after a reading
/// that is not high (or at the first sample) is the trailing run.
pub proof fn lemma_high_streak_start_unique(samples: Seq<Sample>, i: int)
    requires
        0 <= i < samples.len(),
        forall|k: int| i <= k < samples.len() ==> #[trigger] samples[k].readings.cpu_high,
        i == 0 || !samples[i - 1].readings.cpu_high,
    ensures
        high_streak_start(samples) == Some(i),
    decreases samples.len(),
{
    let init = samples.drop_last();
    assert(samples.last().readings.cpu_high);
    if i < samples.len() - 1 {
        assert forall|k: int| i <= k < init.len() implies #[trigger] init[k].readings.cpu_high by {
            assert(init[k] == samples[k]);
        }
        if i > 0 {
            assert(init[i - 1] == samples[i - 1]);
        }
        lemma_high_streak_start_unique(init, i);
    } else {
        if i > 0 {
            assert(init.last() == samples[i - 1]);
        }
    }
}

/// With CPU alerts on throughout and no streak at the start, the recorded streak
/// start after a run of checks is the instant of the first reading of the trailing
/// run of high readings, and there is none when the last reading is not high.
pub proof fn lemma_streak_tracks_high_run(t: Timers, samples: Seq<Sample>)
    requires
        cpu_alerts_on(samples, samples.len() as int),
        t.cpu_high_since is None,
    ensures
        run(t, samples).cpu_high_since == (match high_streak_start(samples) {
            Some(i) => Some(samples[i].at),
            None => None,
        }),
    decreases samples.len(),
{
    if samples.len() > 0 {
        let init = samples.drop_last();
        assert forall|k: int| 0 <= k < init.len() implies #[trigger] init[k].settings.notify_cpu by {
            assert(init[k] == samples[k]);
        }
        lemma_streak_tracks_high_run(t, init);
        lemma_high_streak_start_bounds(init);
        assert(samples[samples.len() - 1].settings.notify_cpu);
        if let Some(i) = high_streak_start(init) {
            assert(init[i] == samples[i]);
        }
    }
}

/// With CPU alerts on throughout and no streak at the start, a CPU alert at
/// sample `j` needs an unbroken run of high readings up to `j`, begun (right after
/// a reading that was not high, or at the first sample) at least the number of
/// whole seconds in force at `j` before.
pub proof fn lemma_cpu_alert_needs_sustained_streak(t: Timers, samples: Seq<Sample>, j: int)
    requires
        t.cpu_high_since is None,
        0 <= j < samples.len(),
        cpu_alerts_on(samples, j + 1),
        raised_at(t, samples, j).contains(Alert::CpuHigh),
    ensures
        exists|i: int|
            {
                &&& 0 <= i <= j
                &&& forall|k: int| i <= k <= j ==> #[trigger] samples[k].readings.cpu_high
                &&& i == 0 || !samples[i - 1].readings.cpu_high
                &&& (if samples[j].at >= samples[i].at {
                    samples[j].at - samples[i].at
                } else {
                    0
                }) / 1_000_000_000
                    >= samples[j].settings.cpu_sustained_secs
            },
{
    let pre = samples.take(j);
    let before = run(t, pre);
    let x = samples[j];
    lemma_raised_shape(before, x.readings, x.settings, x.at);
    assert forall|k: int| 0 <= k < pre.len() implies #[trigger] pre[k].settings.notify_cpu by {
        assert(pre[k] == samples[k]);
    }
    lemma_streak_tracks_high_run(t, pre);
    lemma_high_streak_start_bounds(pre);
    match high_streak_start(pre) {
        Some(i) => {
            assert(pre[i] == samples[i]);
            assert forall|k: int| i <= k <= j implies #[trigger] samples[k].readings.cpu_high by {
                if k < j {
                    assert(pre[k] == samples[k]);
                }
            }
            if i > 0 {
                assert(pre[i - 1] == samples[i - 1]);
            }
        },
        None => {
            if j > 0 {
                assert(pre.last() == samples[j - 1]);
            }
            assert forall|k: int| j <= k <= j implies #[trigger] samples[k].readings.cpu_high by {}
        },
    }
}

/// The converse: with CPU alerts on throughout and no streak at the start, a
/// check at `j` raises a CPU alert when the readings have been high without a break
/// from sample `i` (right after a reading that was not high, or the first sample)
/// through `j`, for at least the number of whole seconds in force at `j`, and the
/// last CPU alert lies a cooldown back.
pub proof fn lemma_sustained_streak_raises_cpu_alert(
    t: Timers,
    samples: Seq<Sample>,
    i: int,
    j: int,
)
    requires
        t.cpu_high_since is None,
        0 <= i <= j < samples.len(),
        cpu_alerts_on(samples, j + 1),
        forall|k: int| i <= k <= j ==> #[trigger] samples[k].readings.cpu_high,
        i == 0 || !samples[i - 1].readings.cpu_high,
        (if samples[j].at >= samples[i].at {
                    samples[j].at - samples[i].at
                } else {
                    0
                }) / 1_000_000_000
            >= samples[j].settings.cpu_sustained_secs,
        run(t, samples.take(j)).last_cpu_alert matches Some(l) ==> (if samples[j].at >= l {
            samples[j].at - l
        } else {
            0
        }) >= samples[j].settings.notification_cooldown_mins * 60 * 1_000_000_000,
    ensures
        raised_at(t, samples, j).contains(Alert::CpuHigh),
{
    let pre = samples.take(j);
    let before = run(t, pre);
    let x = samples[j];
    assert forall|k: int| 0 <= k < pre.len() implies #[trigger] pre[k].settings.notify_cpu by {
        assert(pre[k] == samples[k]);
    }
    lemma_streak_tracks_high_run(t, pre);
    lemma_high_streak_start_bounds(pre);
    if i < j {
        assert forall|k: int| i <= k < pre.len() implies #[trigger] pre[k].readings.cpu_high by {
            assert(pre[k] == samples[k]);
        }
        if i > 0 {
            assert(pre[i - 1] == samples[i - 1]);
        }
        lemma_high_streak_start_unique(pre, i);
        assert(pre[i] == samples[i]);
    } else {
        if j > 0 {
            assert(pre.last() == samples[j - 1]);
        }
    }
    assert(cpu_fires(before, x.readings, x.settings, x.at));
    lemma_raised_shape(before, x.readings, x.settings, x.at);
}

/// What each kind of alert needs, stated from the readings, the settings and the
/// memory alone: a memory (disk) alert is raised exactly when memory (disk) alerts
/// are on, the reading is low, and there was no earlier alert of that kind or it
/// lies at least the configured cooldown (minutes times 60 times 10^9
/// nanoseconds) back; the kinds do not depend on one another; a raised alert
/// records `now` as the last alert of its kind, and the others stay. A CPU alert
/// likewise needs CPU alerts on, a high reading and the same cooldown.
pub proof fn lemma_alert_conditions(t: Timers, r: Readings, s: Settings, now: u64)
    ensures
        raised(t, r, s, now).contains(Alert::MemoryLow) <==> {
            &&& s.notify_memory
            &&& r.memory_low
            &&& t.last_memory_alert matches Some(l) ==> (if now >= l {
                now - l
            } else {
                0
            }) >= s.notification_cooldown_mins * 60 * 1_000_000_000
        },
        raised(t, r, s, now).contains(Alert::DiskLow) <==> {
            &&& s.notify_disk
            &&& r.disk_low
            &&& t.last_disk_alert matches Some(l) ==> (if now >= l {
                now - l
            } else {
                0
            }) >= s.notification_cooldown_mins * 60 * 1_000_000_000
        },
        raised(t, r, s, now).contains(Alert::CpuHigh) ==> {
            &&& s.notify_cpu
            &&& r.cpu_high
            &&& t.last_cpu_alert matches Some(l) ==> (if now >= l {
                now - l
            } else {
                0
            }) >= s.notification_cooldown_mins * 60 * 1_000_000_000
        },
        next_timers(t, r, s, now).last_memory_alert == if raised(t, r, s, now).contains(
            Alert::MemoryLow,
        ) {
            Some(now)
        } else {
            t.last_memory_alert
        },
        next_timers(t, r, s, now).last_disk_alert == if raised(t, r, s, now).contains(
            Alert::DiskLow,
        ) {
            Some(now)
        } else {
            t.last_disk_alert
        },
        next_timers(t, r, s, now).last_cpu_alert == if raised(t, r, s, now).contains(
            Alert::CpuHigh,
        ) {
            Some(now)
        } else {
            t.last_cpu_alert
        },
{
    lemma_raised_shape(t, r, s, now);
    assert(last_alert(next_timers(t, r, s, now), Alert::MemoryLow) == next_timers(
        t,
        r,
        s,
        now,
    ).last_memory_alert);
    assert(last_alert(next_timers(t, r, s, now), Alert::DiskLow) == next_timers(
        t,
        r,
        s,
        now,
    ).last_disk_alert);
    assert(last_alert(next_timers(t, r, s, now), Alert::CpuHigh) == next_timers(
        t,
        r,
        s,
        now,
    ).last_cpu_alert);
}

/// The position of a kind in the order in which one check raises alerts.
pub open spec fn alert_rank(a: Alert) -> int {
    match a {
        Alert::CpuHigh => 0,
        Alert::MemoryLow => 1,
        Alert::DiskLow => 2,
    }
}

} // verus!
