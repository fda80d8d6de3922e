//! Starting, halting and configuring the operation.

use vstd::prelude::*;

use crate::clock::{Clock, Duration, Instant, MAX_ELAPSED_NANOS};
use crate::models::CycleRunStopMode;
use crate::operation::{
    leaves_room, lemma_reading_leaves_room, Operation, OperationConfiguration,
};
use crate::player::{Panic, PanicTo, PlayerAction};
use crate::resources::Resources;
use crate::services::{Effect, Event, EventContext, EventHandler, FollowUp};

verus! {

/// How long a queued halt waits before it takes effect.
pub const PENDING_HALT_SECS: u64 = 12;

/// A request to halt.
#[derive(Debug, Clone, Copy, PartialEq, Eq, Structural)]
pub struct Halt {
    pub go_to_town: bool,
    pub check_for_navigation: bool,
}

#[derive(Debug, Clone, Copy, PartialEq, Eq, Structural)]
pub enum OperationEvent {
    Halt(Halt),
    Update,
    Configuration,
}

impl Event for OperationEvent {

}

/// A change of the operation that is asked for.
#[derive(Debug, Clone, Copy, PartialEq, Eq, Structural)]
pub enum OperationUpdate {
    TemporaryHalt,
    Halt,
    Run,
}

/// The operation after `update` was asked for at `now`. A temporary halt keeps the time that is left
/// of a run, and running again takes it up.
pub open spec fn updated(operation: Operation, update: OperationUpdate, now: Instant) -> Operation {
    match (update, operation) {
        (OperationUpdate::TemporaryHalt, Operation::RunUntil { instant, config }) =>
            Operation::TemporaryHalting { resume: instant.since(now), config },
        (OperationUpdate::TemporaryHalt, _) => Operation::Halting,
        (OperationUpdate::Run, Operation::TemporaryHalting { resume, config }) =>
            Operation::RunUntil { instant: now.later(resume), config },
        (OperationUpdate::Run, Operation::HaltUntil { config, .. }) => Operation::run_from(
            now,
            config,
        ),
        (OperationUpdate::Run, _) => operation,
        (OperationUpdate::Halt, _) => Operation::Halting,
    }
}

/// The operation after it was given `config` at `now`. A halt goes on undisturbed where its duration
/// does not change and the mode still asks for it, a run starts anew.
pub open spec fn configured(
    operation: Operation,
    config: OperationConfiguration,
    now: Instant,
) -> Operation {
    match operation {
        Operation::HaltUntil { instant, config: current } => if config.mode !is Repeat {
            Operation::Halting
        } else if current.stop_duration_millis == config.stop_duration_millis {
            Operation::HaltUntil { instant, config }
        } else {
            Operation::halted_from(now, config)
        },
        Operation::TemporaryHalting { resume, config: current } => if current.run_duration_millis
            != config.run_duration_millis || config.mode is Off {
            Operation::Halting
        } else {
            Operation::TemporaryHalting { resume, config }
        },
        Operation::Halting => Operation::Halting,
        Operation::Running | Operation::RunUntil { .. } => if config.mode is Off {
            Operation::Running
        } else {
            Operation::run_from(now, config)
        },
    }
}

/// What is left of a halted run can be added to any reading of a clock.
pub open spec fn can_resume(operation: Operation) -> bool {
    operation matches Operation::TemporaryHalting { resume, .. } ==> resume.nanos
        + MAX_ELAPSED_NANOS <= u128::MAX
}

/// Applies `update` at `now`.
pub fn update_operation_at(operation: Operation, update: OperationUpdate, now: Instant) -> (next:
    Operation)
    requires
        update is Run ==> (operation matches Operation::TemporaryHalting { resume, .. }
            ==> now.can_add(resume)),
        update is Run ==> (operation matches Operation::HaltUntil { config, .. } ==> now.can_add(
            config.run_duration(),
        )),
    ensures
        next == updated(operation, update, now),
{
    match update {
        OperationUpdate::TemporaryHalt => {
            if let Operation::RunUntil { instant, config } = operation {
                Operation::TemporaryHalting {
                    resume: instant.saturating_duration_since(now),
                    config,
                }
            } else {
                Operation::Halting
            }
        },
        OperationUpdate::Run => match operation {
            Operation::TemporaryHalting { resume, config } => Operation::RunUntil {
                instant: now.after(resume),
                config,
            },
            Operation::HaltUntil { config, .. } => Operation::run_until_at(now, config),
            _ => operation,
        },
        OperationUpdate::Halt => Operation::Halting,
    }
}

/// Applies `update` now.
pub fn update_operation(clock: &Clock, operation: Operation, update: OperationUpdate) -> (next:
    Operation)
    requires
        update is Run ==> can_resume(operation),
    ensures
        exists|now: Instant| #[trigger]
            clock.shows(now) && now.is_reading() && next == updated(operation, update, now),
{
    let now = clock.now();
    proof {
        if let Operation::HaltUntil { config, .. } = operation {
            lemma_reading_leaves_room(now, config);
        }
    }
    update_operation_at(operation, update, now)
}

/// Applies `config` at `now`.
pub fn config_operation_at(operation: Operation, config: OperationConfiguration, now: Instant) -> (
next: Operation)
    requires
        leaves_room(now, config),
    ensures
        next == configured(operation, config, now),
{
    match operation {
        Operation::HaltUntil { instant, config: current_config } => match config.mode {
            CycleRunStopMode::Off | CycleRunStopMode::Once => Operation::Halting,
            CycleRunStopMode::Repeat => {
                if current_config.stop_duration_millis == config.stop_duration_millis {
                    Operation::HaltUntil { instant, config }
                } else {
                    Operation::halt_until_at(now, config)
                }
            },
        },
        Operation::TemporaryHalting { resume, config: current_config } => {
            if current_config.run_duration_millis != config.run_duration_millis || matches!(
                config.mode,
                CycleRunStopMode::Off
            ) {
                Operation::Halting
            } else {
                Operation::TemporaryHalting { resume, config }
            }
        },
        Operation::Halting => Operation::Halting,
        Operation::Running | Operation::RunUntil { .. } => match config.mode {
            CycleRunStopMode::Off => Operation::Running,
            CycleRunStopMode::Once | CycleRunStopMode::Repeat => Operation::run_until_at(
                now,
                config,
            ),
        },
    }
}

/// Applies `config` now.
pub fn config_operation(clock: &Clock, operation: Operation, config: OperationConfiguration) -> (
next: Operation)
    ensures
        exists|now: Instant| #[trigger]
            clock.shows(now) && now.is_reading() && next == configured(operation, config, now),
{
    let now = clock.now();
    proof {
        lemma_reading_leaves_room(now, config);
    }
    config_operation_at(operation, config, now)
}

/// Something for the owner of the event channel to do.
#[derive(Debug, Clone, Copy, PartialEq, Eq, Structural)]
pub enum OperationCommand {
    Send(OperationEvent),
    /// Sends the event when `after` has passed, unless that is aborted before.
    SendLater { event: OperationEvent, after: Duration },
    /// Aborts the event that is to be sent later.
    AbortLater,
}

/// A service to handle operation-related incoming requests.
pub trait OperationService: Sized {
    /// The commands given so far.
    spec fn commands(&self) -> Seq<OperationCommand>;

    /// Whether a halt was queued and not aborted since.
    spec fn has_pending_halt(&self) -> bool;

    /// Applies the new `update` to `resources` and sends an [`OperationEvent::Update`] event.
    fn update(&mut self, clock: &Clock, resources: &mut Resources, update: OperationUpdate)
        requires
            update is Run ==> can_resume(old(resources).operation),
        ensures
            exists|now: Instant| #[trigger]
                clock.shows(now) && now.is_reading() && final(resources).operation == updated(
                    old(resources).operation,
                    update,
                    now,
                ),
            *final(resources) == (Resources {
                operation: final(resources).operation,
                ..*old(resources)
            }),
            final(self).commands() == old(self).commands().push(
                OperationCommand::Send(OperationEvent::Update),
            ),
            final(self).has_pending_halt() == old(self).has_pending_halt(),
    ;

    /// Applies the new `config` to `resources` and sends an [`OperationEvent::Configuration`] event.
    fn config(&mut self, clock: &Clock, resources: &mut Resources, config: OperationConfiguration)
        ensures
            exists|now: Instant| #[trigger]
                clock.shows(now) && now.is_reading() && final(resources).operation == configured(
                    old(resources).operation,
                    config,
                    now,
                ),
            *final(resources) == (Resources {
                operation: final(resources).operation,
                ..*old(resources)
            }),
            final(self).commands() == old(self).commands().push(
                OperationCommand::Send(OperationEvent::Configuration),
            ),
            final(self).has_pending_halt() == old(self).has_pending_halt(),
    ;

    /// Queues a [`OperationEvent::Halt`] event, in place of any that was queued before.
    fn queue_halt(&mut self, immediate: bool, halt: Halt)
        ensures
            final(self).commands() == old(self).commands() + aborting(old(self).has_pending_halt())
                + queueing(immediate, halt),
            final(self).has_pending_halt() == !immediate,
    ;

    /// Aborts the previous [`OperationService::queue_halt`] if possible.
    fn abort_halt(&mut self)
        ensures
            final(self).commands() == old(self).commands() + aborting(old(self).has_pending_halt()),
            !final(self).has_pending_halt(),
    ;
}

/// What aborting takes.
pub open spec fn aborting(pending: bool) -> Seq<OperationCommand> {
    if pending {
        seq![OperationCommand::AbortLater]
    } else {
        Seq::empty()
    }
}

/// What queueing takes: at once, or after a while.
pub open spec fn queueing(immediate: bool, halt: Halt) -> Seq<OperationCommand> {
    if immediate {
        seq![OperationCommand::Send(OperationEvent::Halt(halt))]
    } else {
        seq![
            OperationCommand::SendLater {
                event: OperationEvent::Halt(halt),
                after: Duration::spec_from_millis((PENDING_HALT_SECS * 1000) as u64),
            },
        ]
    }
}

#[derive(Debug)]
pub struct DefaultOperationService {
    pub pending_halt: bool,
    /// The commands that are to be carried out, in order.
    pub outbox: Vec<OperationCommand>,
}

impl Default for DefaultOperationService {
    fn default() -> (service: DefaultOperationService)
        ensures
            service.commands() == Seq::<OperationCommand>::empty(),
            !service.has_pending_halt(),
    {
        DefaultOperationService { pending_halt: false, outbox: Vec::new() }
    }
}

impl OperationService for DefaultOperationService {
    open spec fn commands(&self) -> Seq<OperationCommand> {
        self.outbox@
    }

    open spec fn has_pending_halt(&self) -> bool {
        self.pending_halt
    }

    fn update(&mut self, clock: &Clock, resources: &mut Resources, update: OperationUpdate) {
        resources.operation = update_operation(clock, resources.operation, update);
        self.outbox.push(OperationCommand::Send(OperationEvent::Update));
    }

    fn config(&mut self, clock: &Clock, resources: &mut Resources, config: OperationConfiguration) {
        resources.operation = config_operation(clock, resources.operation, config);
        self.outbox.push(OperationCommand::Send(OperationEvent::Configuration));
    }

    fn queue_halt(&mut self, immediate: bool, halt: Halt) {
        self.abort_halt();
        let event = OperationEvent::Halt(halt);
        if immediate {
            self.outbox.push(OperationCommand::Send(event));
        } else {
            let after = Duration::from_millis(PENDING_HALT_SECS * 1000);
            self.outbox.push(OperationCommand::SendLater { event, after });
            self.pending_halt = true;
        }
        proof {
            assert(self.outbox@ =~= old(self).outbox@ + aborting(old(self).pending_halt) + queueing(
                immediate,
                halt,
            ));
        }
    }

    fn abort_halt(&mut self) {
        if self.pending_halt {
            self.pending_halt = false;
            self.outbox.push(OperationCommand::AbortLater);
        }
        proof {
            assert(self.outbox@ =~= old(self).outbox@ + aborting(old(self).pending_halt));
        }
    }
}

pub struct OperationEventHandler;

/// Whether the event halts the bot, or finds it halted.
pub open spec fn stops(context: EventContext, event: OperationEvent) -> bool {
    match event {
        OperationEvent::Halt(halt) => !(halt.check_for_navigation
            && context.navigator_reached_last_point),
        _ => context.resources.operation.is_halting(),
    }
}

/// What the event makes of the rest of the bot: once it is halted nothing is left to do, except
/// going to town where that was asked for.
pub open spec fn halting_effects(context: EventContext, event: OperationEvent) -> Seq<Effect> {
    if !stops(context, event) {
        Seq::empty()
    } else if event matches OperationEvent::Halt(halt) && halt.go_to_town {
        seq![
            Effect::ResetRotatorQueue,
            Effect::ClearActionsAborted(false),
            Effect::InjectAction(PlayerAction::Panic(Panic { to: PanicTo::Town })),
        ]
    } else {
        seq![Effect::ResetRotatorQueue, Effect::ClearActionsAborted(true)]
    }
}

impl EventHandler<OperationEvent> for OperationEventHandler {
    open spec fn accepts(&self, context: EventContext, event: OperationEvent) -> bool {
        true
    }

    fn handle(&mut self, context: &mut EventContext, event: OperationEvent) -> (follow_up: Option<
        FollowUp,
    >)
        ensures
            follow_up is None,
            old(context).changes_operation(
                *final(context),
                halting_effects(*old(context), event),
            ),
            final(context).operation_service == old(context).operation_service,
            if event is Halt && stops(*old(context), event) {
                exists|now: Instant| #[trigger]
                    old(context).clock.shows(now) && now.is_reading() && final(context).resources.operation == updated(
                        old(context).resources.operation,
                        OperationUpdate::TemporaryHalt,
                        now,
                    )
            } else {
                final(context).resources.operation == old(context).resources.operation
            },
    {
        match event {
            OperationEvent::Halt(halt) => {
                if halt.check_for_navigation && context.navigator_reached_last_point {
                    return None;
                }
                context.resources.operation = update_operation(
                    &context.clock,
                    context.resources.operation,
                    OperationUpdate::TemporaryHalt,
                );
                context.effects.push(Effect::ResetRotatorQueue);
                context.effects.push(Effect::ClearActionsAborted(!halt.go_to_town));
                if halt.go_to_town {
                    context.effects.push(
                        Effect::InjectAction(PlayerAction::Panic(Panic { to: PanicTo::Town })),
                    );
                }
            },
            OperationEvent::Update | OperationEvent::Configuration => {
                if context.resources.operation.halting() {
                    context.effects.push(Effect::ResetRotatorQueue);
                    context.effects.push(Effect::ClearActionsAborted(true));
                }
            },
        }
        None
    }
}

/// No phase has longer to go at `now` than it was configured to last.
pub open spec fn within_configuration(operation: Operation, now: Instant) -> bool {
    match operation {
        Operation::HaltUntil { instant, config } => instant.nanos <= now.nanos
            + config.stop_duration().nanos,
        Operation::RunUntil { instant, config } => instant.nanos <= now.nanos
            + config.run_duration().nanos,
        Operation::TemporaryHalting { resume, config } => resume.nanos
            <= config.run_duration().nanos,
        _ => true,
    }
}

/// Whatever is asked for as time passes, no phase ever gets longer than it was configured to last,
/// and a halted run can be taken up again.
pub proof fn law_phases_stay_within_configuration(
    operation: Operation,
    seen: Instant,
    now: Instant,
    update: OperationUpdate,
    config: OperationConfiguration,
)
    requires
        within_configuration(operation, seen),
        seen.nanos <= now.nanos,
        now.is_reading(),
    ensures
        can_resume(operation),
        within_configuration(updated(operation, update, now), now),
        within_configuration(configured(operation, config, now), now),
        within_configuration(operation.ticked(now), now),
{
    lemma_reading_leaves_room(now, config);
    if let Some(current) = operation.configuration() {
        lemma_reading_leaves_room(now, current);
        assert(current.run_duration().nanos == current.run_duration_millis * 1_000_000);
        assert(current.stop_duration().nanos == current.stop_duration_millis * 1_000_000);
    }
}

/// Halting a run for a while and running again leaves exactly the time that was left, under the same
/// configuration.
pub proof fn law_pause_keeps_remaining_time(
    instant: Instant,
    config: OperationConfiguration,
    paused: Instant,
    resumed: Instant,
)
    requires
        resumed.can_add(instant.since(paused)),
    ensures
        ({
            let halted = updated(
                Operation::RunUntil { instant, config },
                OperationUpdate::TemporaryHalt,
                paused,
            );
            let running = updated(halted, OperationUpdate::Run, resumed);
            &&& halted.is_halting()
            &&& running == (Operation::RunUntil {
                instant: resumed.later(instant.since(paused)),
                config,
            })
            &&& (running->RunUntil_instant).since(resumed) == instant.since(paused)
        }),
{
}

/// Asking to halt always halts; asking to run never does.
pub proof fn law_updates_do_what_they_say(operation: Operation, now: Instant)
    ensures
        updated(operation, OperationUpdate::Halt, now) == Operation::Halting,
        updated(operation, OperationUpdate::TemporaryHalt, now).is_halting(),
        !operation.is_halting() ==> !updated(operation, OperationUpdate::Run, now).is_halting(),
        operation is HaltUntil || operation is TemporaryHalting ==> updated(
            operation,
            OperationUpdate::Run,
            now,
        ) is RunUntil,
        operation is Halting ==> updated(operation, OperationUpdate::Run, now) == operation,
{
}

/// Configuring neither starts nor stops the bot.
pub proof fn law_configuring_keeps_halting(
    operation: Operation,
    config: OperationConfiguration,
    now: Instant,
)
    ensures
        configured(operation, config, now).is_halting() == operation.is_halting(),
        configured(operation, config, now).configuration() matches Some(current) ==> current
            == config,
{
}

/// A bot that runs and is given a configuration with a cycle runs under it for exactly its run
/// duration from then on; without a cycle it runs without end.
pub proof fn law_configuring_a_run(
    operation: Operation,
    config: OperationConfiguration,
    now: Instant,
    next: Operation,
)
    requires
        call_ensures(config_operation_at, (operation, config, now), next),
        operation is Running || operation is RunUntil,
        now.nanos + config.run_duration_millis * 1_000_000 <= u128::MAX,
    ensures
        config.mode == CycleRunStopMode::Once || config.mode == CycleRunStopMode::Repeat ==> (
        next matches Operation::RunUntil { instant, config: kept } && kept == config
            && instant.nanos - now.nanos == config.run_duration_millis * 1_000_000),
        config.mode == CycleRunStopMode::Off ==> next == Operation::Running,
{
}

/// A halt between two runs goes on only where the cycle still repeats: until the same time where the
/// stop duration stays, else for the new one from now on. Otherwise the bot halts for good.
pub proof fn law_configuring_a_halt(
    instant: Instant,
    current: OperationConfiguration,
    config: OperationConfiguration,
    now: Instant,
    next: Operation,
)
    requires
        call_ensures(
            config_operation_at,
            (Operation::HaltUntil { instant, config: current }, config, now),
            next,
        ),
        now.nanos + config.stop_duration_millis * 1_000_000 <= u128::MAX,
    ensures
        config.mode != CycleRunStopMode::Repeat ==> next == Operation::Halting,
        config.mode == CycleRunStopMode::Repeat ==> (next matches Operation::HaltUntil {
            instant: end,
            config: kept,
        } && kept == config && {
            &&& current.stop_duration_millis == config.stop_duration_millis ==> end == instant
            &&& current.stop_duration_millis != config.stop_duration_millis ==> end.nanos
                - now.nanos == config.stop_duration_millis * 1_000_000
        }),
{
}

/// A halted run keeps what is left of it exactly where its run duration stays and there is a cycle;
/// a halt for good stays one.
pub proof fn law_configuring_a_pause(
    operation: Operation,
    config: OperationConfiguration,
    now: Instant,
    next: Operation,
)
    requires
        call_ensures(config_operation_at, (operation, config, now), next),
    ensures
        operation is Halting ==> next == Operation::Halting,
        operation matches Operation::TemporaryHalting { resume, config: current } ==> {
            let kept = current.run_duration_millis == config.run_duration_millis && config.mode
                != CycleRunStopMode::Off;
            &&& kept ==> next == (Operation::TemporaryHalting { resume, config })
            &&& !kept ==> next == Operation::Halting
        },
{
}

/// Halting for a while keeps what is left of a run, nothing where its end has passed; whatever else
/// goes on is halted for good.
pub proof fn law_halting_for_a_while(operation: Operation, now: Instant, next: Operation)
    requires
        call_ensures(update_operation_at, (operation, OperationUpdate::TemporaryHalt, now), next),
    ensures
        operation matches Operation::RunUntil { instant, config } ==> (
        next matches Operation::TemporaryHalting { resume, config: kept } && kept == config && {
            &&& now.nanos <= instant.nanos ==> now.nanos + resume.nanos == instant.nanos
            &&& now.nanos > instant.nanos ==> resume.nanos == 0
        }),
        operation !is RunUntil ==> next == Operation::Halting,
{
}

/// Running takes up what is left of a halted run, or a whole run after a halt of the cycle; what runs
/// or is halted for good stays as it is.
pub proof fn law_running_again(operation: Operation, now: Instant, next: Operation)
    requires
        call_ensures(update_operation_at, (operation, OperationUpdate::Run, now), next),
        operation matches Operation::TemporaryHalting { resume, .. } ==> now.nanos + resume.nanos
            <= u128::MAX,
        operation matches Operation::HaltUntil { config, .. } ==> now.nanos
            + config.run_duration_millis * 1_000_000 <= u128::MAX,
    ensures
        operation matches Operation::TemporaryHalting { resume, config } ==> (
        next matches Operation::RunUntil { instant, config: kept } && kept == config
            && instant.nanos - now.nanos == resume.nanos),
        operation matches Operation::HaltUntil { config, .. } ==> (
        next matches Operation::RunUntil { instant, config: kept } && kept == config
            && instant.nanos - now.nanos == config.run_duration_millis * 1_000_000),
        operation is Halting || operation is Running || operation is RunUntil ==> next == operation,
{
}

/// Halting is for good, whatever went on.
pub proof fn law_halting_for_good(operation: Operation, now: Instant, next: Operation)
    requires
        call_ensures(update_operation_at, (operation, OperationUpdate::Halt, now), next),
    ensures
        next == Operation::Halting,
{
}

/// What is done by the clock is what is done at a time that the clock shows.
pub proof fn law_changes_by_the_clock(
    clock: &Clock,
    operation: Operation,
    update: OperationUpdate,
    config: OperationConfiguration,
    changed: Operation,
    given: Operation,
)
    requires
        call_ensures(update_operation, (clock, operation, update), changed),
        call_ensures(config_operation, (clock, operation, config), given),
    ensures
        exists|now: Instant| #[trigger]
            clock.shows(now) && changed == updated(operation, update, now),
        exists|now: Instant| #[trigger]
            clock.shows(now) && given == configured(operation, config, now),
{
}

/// The service changes the operation in use as a change at a time that the clock shows, tells so with
/// one event, and touches nothing else.
pub proof fn law_service_updates(
    service: &mut DefaultOperationService,
    clock: &Clock,
    resources: &mut Resources,
    update: OperationUpdate,
)
    requires
        call_ensures(DefaultOperationService::update, (service, clock, resources, update), ()),
    ensures
        exists|now: Instant| #[trigger]
            clock.shows(now) && final(resources).operation == updated(
                old(resources).operation,
                update,
                now,
            ),
        final(resources).tick == old(resources).tick,
        final(resources).input == old(resources).input,
        final(resources).detector == old(resources).detector,
        final(service).outbox@ == old(service).outbox@.push(
            OperationCommand::Send(OperationEvent::Update),
        ),
        final(service).pending_halt == old(service).pending_halt,
{
}

/// The service configures the operation in use as at a time that the clock shows, tells so with one
/// event, and touches nothing else.
pub proof fn law_service_configures(
    service: &mut DefaultOperationService,
    clock: &Clock,
    resources: &mut Resources,
    config: OperationConfiguration,
)
    requires
        call_ensures(DefaultOperationService::config, (service, clock, resources, config), ()),
    ensures
        exists|now: Instant| #[trigger]
            clock.shows(now) && final(resources).operation == configured(
                old(resources).operation,
                config,
                now,
            ),
        final(resources).tick == old(resources).tick,
        final(resources).input == old(resources).input,
        final(resources).detector == old(resources).detector,
        final(service).outbox@ == old(service).outbox@.push(
            OperationCommand::Send(OperationEvent::Configuration),
        ),
        final(service).pending_halt == old(service).pending_halt,
{
}

/// Queueing a halt first aborts the one that waits, if any. An immediate one is sent at once, any
/// other twelve seconds later, and then waits.
pub proof fn law_queueing_a_halt(
    service: &mut DefaultOperationService,
    immediate: bool,
    halt: Halt,
)
    requires
        call_ensures(DefaultOperationService::queue_halt, (service, immediate, halt), ()),
    ensures
        ({
            let before = old(service).outbox@;
            let after = final(service).outbox@;
            let aborts: int = if old(service).pending_halt {
                1
            } else {
                0
            };
            &&& after.len() == before.len() + aborts + 1
            &&& forall|i: int| 0 <= i < before.len() ==> after[i] == #[trigger] before[i]
            &&& old(service).pending_halt ==> after[before.len() as int]
                == OperationCommand::AbortLater
            &&& immediate ==> after.last() == OperationCommand::Send(OperationEvent::Halt(halt))
            &&& !immediate ==> after.last() == (OperationCommand::SendLater {
                event: OperationEvent::Halt(halt),
                after: Duration { nanos: 12_000_000_000 },
            })
            &&& final(service).pending_halt <==> !immediate
        }),
{
}

/// Aborting aborts the halt that waits, once, and leaves none waiting.
pub proof fn law_aborting_a_halt(service: &mut DefaultOperationService)
    requires
        call_ensures(DefaultOperationService::abort_halt, (service,), ()),
    ensures
        old(service).pending_halt ==> final(service).outbox@ == old(service).outbox@.push(
            OperationCommand::AbortLater,
        ),
        !old(service).pending_halt ==> final(service).outbox@ == old(service).outbox@,
        !final(service).pending_halt,
{
}

/// A halt event that finds the way done does nothing. Any other halts the bot for a while, empties
/// the rotator and aborts the actions; where that was asked for the bot then flees to town. Other
/// events only see to it that a halted bot has nothing left to do.
pub proof fn law_halt_event(
    handler: &mut OperationEventHandler,
    context: &mut EventContext,
    event: OperationEvent,
    follow_up: Option<FollowUp>,
)
    requires
        call_ensures(OperationEventHandler::handle, (handler, context, event), follow_up),
    ensures
        ({
            let before = old(context).resources.operation;
            let after = final(context).resources.operation;
            let effects = old(context).effects@;
            let halted = !(before is Running || before is RunUntil);
            &&& follow_up is None
            &&& event matches OperationEvent::Halt(halt) ==> {
                let skipped = halt.check_for_navigation && old(
                    context,
                ).navigator_reached_last_point;
                &&& skipped ==> after == before && final(context).effects@ == effects
                &&& !skipped ==> exists|now: Instant| #[trigger]
                    old(context).clock.shows(now) && after == updated(
                        before,
                        OperationUpdate::TemporaryHalt,
                        now,
                    )
                &&& !skipped && !halt.go_to_town ==> final(context).effects@ == effects.push(
                    Effect::ResetRotatorQueue,
                ).push(Effect::ClearActionsAborted(true))
                &&& !skipped && halt.go_to_town ==> final(context).effects@ == effects.push(
                    Effect::ResetRotatorQueue,
                ).push(Effect::ClearActionsAborted(false)).push(
                    Effect::InjectAction(PlayerAction::Panic(Panic { to: PanicTo::Town })),
                )
            }
            &&& event !is Halt ==> {
                &&& after == before
                &&& halted ==> final(context).effects@ == effects.push(
                    Effect::ResetRotatorQueue,
                ).push(Effect::ClearActionsAborted(true))
                &&& !halted ==> final(context).effects@ == effects
            }
        }),
{
}

/// A new service has nothing to send, and no halt waits.
pub proof fn law_new_service(service: DefaultOperationService)
    requires
        call_ensures(DefaultOperationService::default, (), service),
    ensures
        service.outbox.len() == 0,
        !service.pending_halt,
{
    assert(service.commands() == service.outbox@);
}

/// A configuration is applied as at a time that the clock shows.
pub proof fn law_configured_by_the_clock(
    clock: &Clock,
    operation: Operation,
    config: OperationConfiguration,
    next: Operation,
)
    requires
        call_ensures(config_operation, (clock, operation, config), next),
    ensures
        exists|now: Instant| #[trigger]
            clock.shows(now) && next == configured(operation, config, now),
{
}

} // verus!
