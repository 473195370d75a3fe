use vstd::prelude::*;

verus! {

/// Smallest and largest accepted refresh interval, in seconds.
pub const MIN_UPDATE_INTERVAL_SECS: u64 = 1;
pub const MAX_UPDATE_INTERVAL_SECS: u64 = 60;
/// Smallest and largest accepted length of a CPU streak before it is reported, in seconds.
pub const MIN_CPU_SUSTAINED_SECS: u64 = 1;
pub const MAX_CPU_SUSTAINED_SECS: u64 = 300;
/// Smallest and largest accepted pause between two alerts of one kind, in minutes.
pub const MIN_COOLDOWN_MINS: u64 = 1;
pub const MAX_COOLDOWN_MINS: u64 = 120;

/// The whole-number and switch part of the monitor's configuration.
///
/// The alert thresholds, which are fractional percentages and gigabytes, are
/// compared against fractional readings; the application keeps them beside this
/// value and hands the outcome of those comparisons to the notifier.
#[derive(Debug, Clone, Copy, PartialEq, Eq, Structural)]
pub struct Settings {
    pub update_interval_secs: u64,
    pub cpu_sustained_secs: u64,
    pub notification_cooldown_mins: u64,
    pub notify_cpu: bool,
    pub notify_memory: bool,
    pub notify_disk: bool,
    pub autostart: bool,
}

/// `x` brought into `[lo, hi]`.
pub open spec fn clamp_spec(x: u64, lo: u64, hi: u64) -> u64 {
    if x < lo {
        lo
    } else if x > hi {
        hi
    } else {
        x
    }
}

/// `x` brought into `[lo, hi]`, as `Ord::clamp` does for integers.
pub fn clamp(x: u64, lo: u64, hi: u64) -> (r: u64)
    requires
        lo <= hi,
    ensures
        r == clamp_spec(x, lo, hi),
{
    if x < lo {
        lo
    } else if x > hi {
        hi
    } else {
        x
    }
}

impl Settings {
    /// The settings a fresh installation starts with.
    pub open spec fn default_spec() -> Settings {
        Settings {
            update_interval_secs: 3,
            cpu_sustained_secs: 10,
            notification_cooldown_mins: 15,
            notify_cpu: true,
            notify_memory: true,
            notify_disk: true,
            autostart: false,
        }
    }

    /// Every whole-number field lies in its accepted range.
    pub open spec fn in_bounds(self) -> bool {
        &&& MIN_UPDATE_INTERVAL_SECS <= self.update_interval_secs <= MAX_UPDATE_INTERVAL_SECS
        &&& MIN_CPU_SUSTAINED_SECS <= self.cpu_sustained_secs <= MAX_CPU_SUSTAINED_SECS
        &&& MIN_COOLDOWN_MINS <= self.notification_cooldown_mins <= MAX_COOLDOWN_MINS
    }

    /// Each whole-number field clamped into its range; the switches kept.
    pub open spec fn validated_spec(self) -> Settings {
        Settings {
            update_interval_secs: clamp_spec(
                self.update_interval_secs,
                MIN_UPDATE_INTERVAL_SECS,
                MAX_UPDATE_INTERVAL_SECS,
            ),
            cpu_sustained_secs: clamp_spec(
                self.cpu_sustained_secs,
                MIN_CPU_SUSTAINED_SECS,
                MAX_CPU_SUSTAINED_SECS,
            ),
            notification_cooldown_mins: clamp_spec(
                self.notification_cooldown_mins,
                MIN_COOLDOWN_MINS,
                MAX_COOLDOWN_MINS,
            ),
            ..self
        }
    }

    /// The settings a fresh installation starts with: a 3 s refresh, a 10 s CPU
    /// streak, a 15 min cooldown, every alert on and no autostart.
    pub fn default() -> (s: Settings)
        ensures
            s == Settings::default_spec(),
    {
        Settings {
            update_interval_secs: 3,
            cpu_sustained_secs: 10,
            notification_cooldown_mins: 15,
            notify_cpu: true,
            notify_memory: true,
            notify_disk: true,
            autostart: false,
        }
    }

    /// Clamps every whole-number field into its accepted range and keeps the switches.
    pub fn validated(self) -> (v: Settings)
        ensures
            v == self.validated_spec(),
            v.in_bounds(),
            v.notify_cpu == self.notify_cpu,
            v.notify_memory == self.notify_memory,
            v.notify_disk == self.notify_disk,
            v.autostart == self.autostart,
    {
        Settings {
            update_interval_secs: clamp(self.update_interval_secs, MIN_UPDATE_INTERVAL_SECS, MAX_UPDATE_INTERVAL_SECS),
            cpu_sustained_secs: clamp(self.cpu_sustained_secs, MIN_CPU_SUSTAINED_SECS, MAX_CPU_SUSTAINED_SECS),
            notification_cooldown_mins: clamp(self.notification_cooldown_mins, MIN_COOLDOWN_MINS, MAX_COOLDOWN_MINS),
            ..self
        }
    }

    /// What the autostart registration must become when `next` replaces `self`:
    /// `Some(on)` when the switch changes to `on`, `None` when it stays.
    pub fn autostart_switch(&self, next: &Settings) -> (r: Option<bool>)
        ensures
            r == (if self.autostart != next.autostart {
                Some(next.autostart)
            } else {
                None
            }),
    {
        if self.autostart != next.autostart {
            Some(next.autostart)
        } else {
            None
        }
    }
}

/// Validating settings a second time changes nothing.
pub proof fn lemma_validated_idempotent(s: Settings)
    ensures
        s.validated_spec().validated_spec() == s.validated_spec(),
{
}

/// Settings whose fields already lie in their ranges come back unchanged.
pub proof fn lemma_validated_keeps_valid(s: Settings)
    requires
        s.in_bounds(),
    ensures
        s.validated_spec() == s,
{
}

/// Validated settings are exactly the settings that validation leaves unchanged.
pub proof fn lemma_validated_fixed_points(s: Settings)
    ensures
        s.validated_spec() == s <==> s.in_bounds(),
{
}

/// The defaults lie in their ranges, so validating them keeps them.
pub proof fn lemma_default_is_valid()
    ensures
        Settings::default_spec().in_bounds(),
        Settings::default_spec().validated_spec() == Settings::default_spec(),
{
}

} // verus!
