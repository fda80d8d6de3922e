//! Whether the bot runs or halts, and until when.

use vstd::prelude::*;

use crate::clock::{Clock, Duration, Instant, NANOS_PER_MILLI, NANOS_PER_SEC};
use crate::models::{CycleRunStopMode, Settings};
use crate::text::{clock_text, to_hms, two_digits};

verus! {

/// The durations of a run/stop cycle.
#[derive(Debug, Clone, Copy, PartialEq, Eq, Structural)]
pub struct OperationConfiguration {
    pub mode: CycleRunStopMode,
    pub run_duration_millis: u64,
    pub stop_duration_millis: u64,
}

impl OperationConfiguration {
    pub open spec fn run_duration(self) -> Duration {
        Duration::spec_from_millis(self.run_duration_millis)
    }

    pub open spec fn stop_duration(self) -> Duration {
        Duration::spec_from_millis(self.stop_duration_millis)
    }
}

impl From<&Settings> for OperationConfiguration {
    fn from(settings: &Settings) -> (config: OperationConfiguration) {
        OperationConfiguration {
            mode: settings.cycle_run_stop,
            run_duration_millis: settings.cycle_run_duration_millis,
            stop_duration_millis: settings.cycle_stop_duration_millis,
        }
    }
}

impl vstd::std_specs::convert::FromSpecImpl<&Settings> for OperationConfiguration {
    open spec fn obeys_from_spec() -> bool {
        true
    }

    open spec fn from_spec(settings: &Settings) -> OperationConfiguration {
        OperationConfiguration {
            mode: settings.cycle_run_stop,
            run_duration_millis: settings.cycle_run_duration_millis,
            stop_duration_millis: settings.cycle_stop_duration_millis,
        }
    }
}

/// Current operating state of the bot.
#[derive(Debug, Clone, Copy, PartialEq, Eq, Structural)]
pub enum Operation {
    HaltUntil { instant: Instant, config: OperationConfiguration },
    TemporaryHalting { resume: Duration, config: OperationConfiguration },
    Halting,
    Running,
    RunUntil { instant: Instant, config: OperationConfiguration },
}

/// `now` lies so far from the end of time that a whole run or stop can be added to it.
pub open spec fn leaves_room(now: Instant, config: OperationConfiguration) -> bool {
    now.can_add(config.run_duration()) && now.can_add(config.stop_duration())
}

impl Operation {
    pub open spec fn is_halting(self) -> bool {
        self is Halting || self is HaltUntil || self is TemporaryHalting
    }

    pub open spec fn halted_from(now: Instant, config: OperationConfiguration) -> Operation {
        Operation::HaltUntil { instant: now.later(config.stop_duration()), config }
    }

    pub open spec fn run_from(now: Instant, config: OperationConfiguration) -> Operation {
        Operation::RunUntil { instant: now.later(config.run_duration()), config }
    }

    /// The configuration that the operation carries, if any.
    pub open spec fn configuration(self) -> Option<OperationConfiguration> {
        match self {
            Operation::HaltUntil { config, .. } => Some(config),
            Operation::TemporaryHalting { config, .. } => Some(config),
            Operation::RunUntil { config, .. } => Some(config),
            _ => None,
        }
    }

    /// The operation at `now`: a phase whose end has come gives way to the next one.
    pub open spec fn ticked(self, now: Instant) -> Operation {
        match self {
            Operation::HaltUntil { instant, config } if now.nanos >= instant.nanos =>
                Self::run_from(now, config),
            Operation::RunUntil { instant, config } if now.nanos >= instant.nanos =>
                if config.mode is Once {
                    Operation::Halting
                } else {
                    Self::halted_from(now, config)
                },
            _ => self,
        }
    }

    /// Whether the bot is halted, for now or for good.
    pub fn halting(&self) -> (halting: bool)
        ensures
            halting == self.is_halting(),
    {
        matches!(
            self,
            Operation::Halting | Operation::HaltUntil { .. } | Operation::TemporaryHalting { .. }
        )
    }

    /// A halt that starts at `now` and lasts the configured stop duration.
    pub fn halt_until_at(now: Instant, config: OperationConfiguration) -> (operation: Operation)
        requires
            now.can_add(config.stop_duration()),
        ensures
            operation == Self::halted_from(now, config),
    {
        let duration = Duration::from_millis(config.stop_duration_millis);
        Operation::HaltUntil { instant: now.after(duration), config }
    }

    /// A run that starts at `now` and lasts the configured run duration.
    pub fn run_until_at(now: Instant, config: OperationConfiguration) -> (operation: Operation)
        requires
            now.can_add(config.run_duration()),
        ensures
            operation == Self::run_from(now, config),
    {
        let duration = Duration::from_millis(config.run_duration_millis);
        Operation::RunUntil { instant: now.after(duration), config }
    }

    /// A halt that starts now.
    pub fn halt_until(clock: &Clock, config: OperationConfiguration) -> (operation: Operation)
        ensures
            exists|now: Instant| #[trigger]
                clock.shows(now) && now.is_reading() && operation == Self::halted_from(now, config),
    {
        let now = clock.now();
        proof {
            lemma_reading_leaves_room(now, config);
        }
        Operation::halt_until_at(now, config)
    }

    /// A run that starts now.
    pub fn run_until(clock: &Clock, config: OperationConfiguration) -> (operation: Operation)
        ensures
            exists|now: Instant| #[trigger]
                clock.shows(now) && now.is_reading() && operation == Self::run_from(now, config),
    {
        let now = clock.now();
        proof {
            lemma_reading_leaves_room(now, config);
        }
        Operation::run_until_at(now, config)
    }

    /// The operation at `now`.
    pub fn update_tick_at(self, now: Instant) -> (operation: Operation)
        requires
            self.configuration() matches Some(config) ==> leaves_room(now, config),
        ensures
            operation == self.ticked(now),
    {
        match self {
            Operation::HaltUntil { instant, config } => {
                if now.nanos < instant.nanos {
                    self
                } else {
                    Operation::run_until_at(now, config)
                }
            },
            Operation::RunUntil { instant, config } => {
                if now.nanos < instant.nanos {
                    self
                } else if matches!(config.mode, CycleRunStopMode::Once) {
                    Operation::Halting
                } else {
                    Operation::halt_until_at(now, config)
                }
            },
            Operation::Halting | Operation::TemporaryHalting { .. } | Operation::Running => self,
        }
    }

    /// The operation now.
    pub fn update_tick(self, clock: &Clock) -> (operation: Operation)
        ensures
            exists|now: Instant| #[trigger]
                clock.shows(now) && now.is_reading() && operation == self.ticked(now),
    {
        let now = clock.now();
        proof {
            if let Some(config) = self.configuration() {
                lemma_reading_leaves_room(now, config);
            }
        }
        self.update_tick_at(now)
    }

    /// The text that describes the operation at `now`.
    pub open spec fn description(self, now: Instant) -> Seq<char> {
        match self {
            Operation::HaltUntil { instant, .. } => "Halting for "@ + duration_text(
                instant.since(now),
            ),
            Operation::TemporaryHalting { resume, .. } => "Halting temporarily with "@
                + duration_text(resume) + " remaining"@,
            Operation::Halting => "Halting"@,
            Operation::Running => "Running"@,
            Operation::RunUntil { instant, .. } => "Running for "@ + duration_text(
                instant.since(now),
            ),
        }
    }

    /// Describes the operation as seen at `now`.
    pub fn describe_at(&self, now: Instant) -> (text: String)
        ensures
            text@ == self.description(now),
    {
        match *self {
            Operation::HaltUntil { instant, .. } => {
                let mut text = String::from_str("Halting for ");
                text.append(duration_from_instant_at(instant, now).as_str());
                text
            },
            Operation::TemporaryHalting { resume, .. } => {
                let mut text = String::from_str("Halting temporarily with ");
                text.append(duration_from(resume).as_str());
                text.append(" remaining");
                text
            },
            Operation::Halting => String::from_str("Halting"),
            Operation::Running => String::from_str("Running"),
            Operation::RunUntil { instant, .. } => {
                let mut text = String::from_str("Running for ");
                text.append(duration_from_instant_at(instant, now).as_str());
                text
            },
        }
    }

    /// Describes the operation as it stands now.
    pub fn describe(&self, clock: &Clock) -> (text: String)
        ensures
            exists|now: Instant| #[trigger]
                clock.shows(now) && now.is_reading() && text@ == self.description(now),
    {
        let now = clock.now();
        self.describe_at(now)
    }
}

/// `hh:mm:ss` of the whole seconds in `duration`.
pub open spec fn duration_text(duration: Duration) -> Seq<char> {
    clock_text((duration.nanos / NANOS_PER_SEC) as nat)
}

/// Writes `duration` as `hh:mm:ss`.
pub fn duration_from(duration: Duration) -> (text: String)
    ensures
        text@ == duration_text(duration),
{
    let total: u128 = duration.as_secs();
    let seconds: u128 = total % 60;
    let minutes: u128 = (total / 60) % 60;
    let hours: u128 = (total / 60) / 60;
    assert((total / 60) / 60 == total / 3600);
    to_hms(hours, minutes, seconds)
}

/// Writes the time left from `now` to `instant` as `hh:mm:ss`.
pub fn duration_from_instant_at(instant: Instant, now: Instant) -> (text: String)
    ensures
        text@ == duration_text(instant.since(now)),
{
    duration_from(instant.saturating_duration_since(now))
}

/// Writes the time left until `instant` as `hh:mm:ss`.
pub fn duration_from_instant(clock: &Clock, instant: Instant) -> (text: String)
    ensures
        exists|now: Instant| #[trigger]
            clock.shows(now) && now.is_reading() && text@ == duration_text(instant.since(now)),
{
    let now = clock.now();
    duration_from_instant_at(instant, now)
}

/// No clock runs long enough for a cycle to overflow.
pub proof fn lemma_reading_leaves_room(now: Instant, config: OperationConfiguration)
    requires
        now.is_reading(),
    ensures
        leaves_room(now, config),
{
    assert(config.run_duration_millis * NANOS_PER_MILLI <= 0xffff_ffff_ffff_ffff * 1_000_000);
    assert(config.stop_duration_millis * NANOS_PER_MILLI <= 0xffff_ffff_ffff_ffff * 1_000_000);
}

/// A tick never changes what has no end: a plain halt, a temporary halt or an endless run.
pub proof fn law_tick_keeps_open_ended(operation: Operation, now: Instant)
    requires
        operation is Halting || operation is TemporaryHalting || operation is Running,
    ensures
        operation.ticked(now) == operation,
{
}

/// A phase that has not reached its end stays as it is.
pub proof fn law_tick_keeps_unfinished_phase(operation: Operation, now: Instant)
    requires
        operation matches Operation::HaltUntil { instant, .. } ==> now.nanos < instant.nanos,
        operation matches Operation::RunUntil { instant, .. } ==> now.nanos < instant.nanos,
    ensures
        operation.ticked(now) == operation,
{
}

/// Ticking twice at the same time is ticking once, where runs and stops take any time at all.
pub proof fn law_tick_is_idempotent(operation: Operation, now: Instant)
    requires
        operation.configuration() matches Some(config) ==> {
            &&& leaves_room(now, config)
            &&& config.run_duration_millis > 0
            &&& config.stop_duration_millis > 0
        },
    ensures
        operation.ticked(now).ticked(now) == operation.ticked(now),
{
    if let Some(config) = operation.configuration() {
        assert(config.run_duration().nanos == config.run_duration_millis * NANOS_PER_MILLI);
        assert(config.stop_duration().nanos == config.stop_duration_millis * NANOS_PER_MILLI);
    }
}

/// A cycle that is to run once ends in a halt that no later tick undoes.
pub proof fn law_once_halts_for_good(
    instant: Instant,
    config: OperationConfiguration,
    end: Instant,
    later: Instant,
)
    requires
        config.mode is Once,
        end.nanos >= instant.nanos,
    ensures
        (Operation::RunUntil { instant, config }).ticked(end) == Operation::Halting,
        (Operation::RunUntil { instant, config }).ticked(end).ticked(later) == Operation::Halting,
{
}

/// A finished phase of a repeating cycle gives way to the other phase, in full length and with the
/// same configuration.
pub proof fn law_repeat_alternates(
    config: OperationConfiguration,
    start: Instant,
    stop: Instant,
)
    requires
        config.mode is Repeat,
        leaves_room(start, config),
        stop == start.later(config.run_duration()),
    ensures
        Operation::run_from(start, config).ticked(stop) == Operation::halted_from(stop, config),
        ({
            let resume = stop.later(config.stop_duration());
            Operation::halted_from(stop, config).ticked(resume) == Operation::run_from(
                resume,
                config,
            )
        }),
{
}

/// A phase that starts at some time ends its configured duration later, and keeps its configuration.
pub proof fn law_phases_last_as_configured(
    now: Instant,
    config: OperationConfiguration,
    run: Operation,
    halt: Operation,
)
    requires
        call_ensures(Operation::run_until_at, (now, config), run),
        call_ensures(Operation::halt_until_at, (now, config), halt),
        now.nanos + config.run_duration_millis * 1_000_000 <= u128::MAX,
        now.nanos + config.stop_duration_millis * 1_000_000 <= u128::MAX,
    ensures
        run matches Operation::RunUntil { instant, config: kept } && kept == config
            && instant.nanos - now.nanos == config.run_duration_millis * 1_000_000,
        halt matches Operation::HaltUntil { instant, config: kept } && kept == config
            && instant.nanos - now.nanos == config.stop_duration_millis * 1_000_000,
{
}

/// A tick changes nothing before the end of a phase. At its end a halt becomes a full run, and a run
/// becomes a full halt, or one for good where it was to run once.
pub proof fn law_tick(operation: Operation, now: Instant, next: Operation)
    requires
        call_ensures(Operation::update_tick_at, (operation, now), next),
        operation matches Operation::HaltUntil { config, .. } ==> now.nanos
            + config.run_duration_millis * 1_000_000 <= u128::MAX,
        operation matches Operation::RunUntil { config, .. } ==> now.nanos
            + config.stop_duration_millis * 1_000_000 <= u128::MAX,
    ensures
        operation is Halting || operation is Running || operation is TemporaryHalting ==> next
            == operation,
        operation matches Operation::HaltUntil { instant, config } ==> {
            &&& now.nanos < instant.nanos ==> next == operation
            &&& now.nanos >= instant.nanos ==> (next matches Operation::RunUntil {
                instant: end,
                config: kept,
            } && kept == config && end.nanos - now.nanos == config.run_duration_millis * 1_000_000)
        },
        operation matches Operation::RunUntil { instant, config } ==> {
            &&& now.nanos < instant.nanos ==> next == operation
            &&& now.nanos >= instant.nanos && config.mode == CycleRunStopMode::Once ==> next
                == Operation::Halting
            &&& now.nanos >= instant.nanos && config.mode != CycleRunStopMode::Once ==> (
            next matches Operation::HaltUntil { instant: end, config: kept } && kept == config
                && end.nanos - now.nanos == config.stop_duration_millis * 1_000_000)
        },
{
}

/// What is done by the clock is what is done at a time that the clock shows.
pub proof fn law_by_the_clock(
    clock: &Clock,
    operation: Operation,
    config: OperationConfiguration,
    ticked: Operation,
    run: Operation,
    halt: Operation,
)
    requires
        call_ensures(Operation::update_tick, (operation, clock), ticked),
        call_ensures(Operation::run_until, (clock, config), run),
        call_ensures(Operation::halt_until, (clock, config), halt),
    ensures
        exists|now: Instant| #[trigger] clock.shows(now) && ticked == operation.ticked(now),
        exists|now: Instant| #[trigger]
            clock.shows(now) && (run matches Operation::RunUntil { instant, config: kept } && kept
                == config && instant.nanos - now.nanos == config.run_duration_millis * 1_000_000),
        exists|now: Instant| #[trigger]
            clock.shows(now) && (halt matches Operation::HaltUntil { instant, config: kept } && kept
                == config && instant.nanos - now.nanos == config.stop_duration_millis * 1_000_000),
{
    let now = choose|now: Instant| #[trigger]
        clock.shows(now) && now.is_reading() && run == Operation::run_from(now, config);
    lemma_reading_leaves_room(now, config);
    assert(clock.shows(now));
    let then = choose|now: Instant| #[trigger]
        clock.shows(now) && now.is_reading() && halt == Operation::halted_from(now, config);
    lemma_reading_leaves_room(then, config);
    assert(clock.shows(then));
}

/// The bot is halted exactly where it does not run.
pub proof fn law_halting(operation: &Operation, halting: bool)
    requires
        call_ensures(Operation::halting, (operation,), halting),
    ensures
        halting <==> !(*operation is Running || *operation is RunUntil),
        halting == operation.is_halting(),
{
}

/// A configuration takes its mode and its two durations from the settings of the same names.
pub proof fn law_configuration_of_settings(settings: &Settings)
    ensures
        ({
            let config = <OperationConfiguration as vstd::std_specs::convert::FromSpec<
                &Settings,
            >>::from_spec(settings);
            &&& config.mode == settings.cycle_run_stop
            &&& config.run_duration_millis == settings.cycle_run_duration_millis
            &&& config.stop_duration_millis == settings.cycle_stop_duration_millis
        }),
{
}

/// A duration is written as hours, minutes and seconds, which together are its whole seconds.
pub proof fn law_duration_text(duration: Duration, text: String)
    requires
        call_ensures(duration_from, (duration,), text),
    ensures
        exists|hours: nat, minutes: nat, seconds: nat|
            #![trigger two_digits(hours), two_digits(minutes), two_digits(seconds)]
            {
                &&& minutes < 60 && seconds < 60
                &&& hours * 3600 + minutes * 60 + seconds == duration.nanos as int / 1_000_000_000
                &&& text@ =~= two_digits(hours) + seq![':'] + two_digits(minutes) + seq![':']
                    + two_digits(seconds)
            },
{
    let total = (duration.nanos / 1_000_000_000) as nat;
    assert(two_digits(total / 3600).len() >= 0);
    assert(two_digits((total / 60) % 60).len() >= 0);
    assert(two_digits(total % 60).len() >= 0);
    assert((total / 3600) * 3600 + ((total / 60) % 60) * 60 + total % 60 == total);
}

/// The description tells what goes on, and for how long: the time to the end of a phase, or what is
/// left of a halted run.
pub proof fn law_description(operation: &Operation, now: Instant, text: String)
    requires
        call_ensures(Operation::describe_at, (operation, now), text),
    ensures
        *operation == Operation::Halting ==> text@ == "Halting"@,
        *operation == Operation::Running ==> text@ == "Running"@,
        *operation matches Operation::RunUntil { instant, .. } ==> text@ == "Running for "@
            + duration_text(Duration { nanos: time_left(instant, now) }),
        *operation matches Operation::HaltUntil { instant, .. } ==> text@ == "Halting for "@
            + duration_text(Duration { nanos: time_left(instant, now) }),
        *operation matches Operation::TemporaryHalting { resume, .. } ==> text@
            == "Halting temporarily with "@ + duration_text(resume) + " remaining"@,
{
}

/// The nanoseconds from `now` to `instant`, none where it has passed.
pub open spec fn time_left(instant: Instant, now: Instant) -> u128 {
    if instant.nanos > now.nanos {
        (instant.nanos - now.nanos) as u128
    } else {
        0
    }
}

/// The text of the time to an instant is that of the nanoseconds to it, none where it has passed.
pub proof fn law_time_left_text(instant: Instant, now: Instant, text: String, left: String)
    requires
        call_ensures(duration_from_instant_at, (instant, now), text),
        call_ensures(duration_from, (Duration { nanos: time_left(instant, now) },), left),
    ensures
        text@ == left@,
        now.nanos <= instant.nanos ==> now.nanos + time_left(instant, now) == instant.nanos,
        now.nanos >= instant.nanos ==> time_left(instant, now) == 0,
{
}

/// A text that tells of the time left tells of it as at a time that the clock shows.
pub proof fn law_described_by_the_clock(
    clock: &Clock,
    operation: &Operation,
    text: String,
    instant: Instant,
    left: String,
)
    requires
        call_ensures(Operation::describe, (operation, clock), text),
        call_ensures(duration_from_instant, (clock, instant), left),
    ensures
        exists|now: Instant| #[trigger] clock.shows(now) && text@ == operation.description(now),
        exists|now: Instant| #[trigger]
            clock.shows(now) && left@ == duration_text(
                Duration { nanos: time_left(instant, now) },
            ),
{
    let now = choose|now: Instant| #[trigger]
        clock.shows(now) && now.is_reading() && left@ == duration_text(instant.since(now));
    assert(instant.since(now).nanos == time_left(instant, now));
}

} // verus!
