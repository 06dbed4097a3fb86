//! The lifecycle controller: construction, startup, one-time setup of the
//! application data, and supervision of the maintenance task.

use vstd::prelude::*;
use crate::bridge::EventBridge;
use crate::builder::FrameworkBuilder;
use crate::cell::{offered, SetOnce};
use crate::options::{ApplicationId, FrameworkOptions};
use crate::task::{abort_task, share};

verus! {

/// Seconds between two purges of the edit-tracking cache.
pub const PURGE_INTERVAL_SECS: u64 = 60;

/// Milliseconds a reader waits before it looks at an empty data slot again.
pub const DATA_POLL_MILLIS: u64 = 100;

/// Which run operation of the client a start invokes.
#[derive(Clone, Copy, Debug, PartialEq, Eq, Structural)]
pub enum StartMode {
    /// The client's plain run operation.
    Single,
    /// The client's automatically sharded run operation.
    Autosharded,
}

/// What the dispatch entry point distinguishes about a raw event.
#[derive(Clone, Copy, Debug, PartialEq, Eq, Structural)]
pub enum EventKind {
    /// The client confirmed that the session is fully established.
    SessionReady,
    /// Any other event.
    Other,
}

/// Where a framework stands in its run.
pub enum RunState<C> {
    /// Constructed and not started: the client is still held.
    Prepared(C),
    /// Started: the client was handed out, its run loop has not returned.
    Running,
    /// The run loop returned and the maintenance task was cancelled.
    Stopped,
}

/// A client that was built, with the handle to its shard manager.
#[verifier::reject_recursive_types(M)]
pub struct BuiltClient<C, M> {
    /// The client, not yet started.
    pub client: C,
    /// The shared handle to the client's shard manager.
    pub shard_manager: std::sync::Arc<tokio::sync::Mutex<M>>,
}

/// What a successful start hands to the caller: the client to run, the run
/// operation to invoke on it, and the interval of the maintenance task to
/// spawn beside it.
pub struct Launch<C> {
    /// The client, handed out exactly once.
    pub client: C,
    /// The run operation to invoke.
    pub mode: StartMode,
    /// Seconds the maintenance task sleeps between two ticks.
    pub purge_interval_secs: u64,
}

/// Why a start was refused. It marks a broken caller contract: the caller
/// must abort, not retry.
#[derive(Clone, Copy, Debug, PartialEq, Eq, Structural)]
pub enum StartError {
    /// The client was already consumed by an earlier start.
    ClientMissing,
}

/// What a reader of the application data does next.
#[derive(Clone, Copy, Debug, PartialEq, Eq, Structural)]
pub enum DataPoll {
    /// The slot is filled: this is the application data.
    Ready(u64),
    /// The slot is empty: suspend for this long, then ask again.
    Pending {
        /// Milliseconds to suspend.
        retry_after_millis: u64,
    },
}

/// What the maintenance task does at one interval.
#[derive(Clone, Copy, Debug, PartialEq, Eq, Structural)]
pub enum Tick {
    /// Purge the edit-tracking cache under its exclusive lock, then sleep.
    Purge,
    /// Nothing to purge: sleep.
    Idle,
    /// The run loop is not active: the task must not act any more.
    Halt,
}

/// How the one-time setup of the application data ended.
pub enum SetupReport<E> {
    /// The setup succeeded and its value now fills the data slot.
    Populated,
    /// The setup succeeded, but the slot was filled before: nothing changed.
    Ignored,
    /// The setup failed. The error goes to error reporting; there is no retry.
    Failed(E),
}

/// The mathematical model of a framework.
#[verifier::reject_recursive_types(M)]
pub struct FrameworkState<C, M, S, T> {
    /// The application identifier given at construction.
    pub application_id: ApplicationId,
    /// The options given at construction.
    pub options: FrameworkOptions<T>,
    /// The shard manager handle taken from the built client.
    pub shard_manager: std::sync::Arc<tokio::sync::Mutex<M>>,
    /// The phase of the run, with the client while it is still held.
    pub run: RunState<C>,
    /// The setup callback while it has not been handed out.
    pub user_data_setup: Option<S>,
    /// The application data once the setup has produced it.
    pub user_data: Option<u64>,
}

impl<C, M, S, T> FrameworkState<C, M, S, T> {
    /// The state of a framework assembled around a built client.
    pub open spec fn assembled(
        application_id: ApplicationId,
        built: BuiltClient<C, M>,
        user_data_setup: S,
        options: FrameworkOptions<T>,
    ) -> Self {
        FrameworkState {
            application_id,
            options,
            shard_manager: built.shard_manager,
            run: RunState::Prepared(built.client),
            user_data_setup: Some(user_data_setup),
            user_data: None,
        }
    }

    /// Whether the client is still held.
    pub open spec fn holds_client(self) -> bool {
        self.run is Prepared
    }

    /// What a start in `mode` returns.
    pub open spec fn launch(self, mode: StartMode) -> Result<Launch<C>, StartError> {
        match self.run {
            RunState::Prepared(client) => Ok(
                Launch { client, mode, purge_interval_secs: PURGE_INTERVAL_SECS },
            ),
            RunState::Running => Err(StartError::ClientMissing),
            RunState::Stopped => Err(StartError::ClientMissing),
        }
    }

    /// The state after a start: a prepared framework runs, any other is unchanged.
    pub open spec fn started(self) -> Self {
        match self.run {
            RunState::Prepared(_) => FrameworkState { run: RunState::Running, ..self },
            RunState::Running => self,
            RunState::Stopped => self,
        }
    }

    /// The state after the run loop returned: a running framework is
    /// stopped, any other is unchanged.
    pub open spec fn stopped(self) -> Self {
        match self.run {
            RunState::Prepared(_) => self,
            RunState::Running => FrameworkState { run: RunState::Stopped, ..self },
            RunState::Stopped => self,
        }
    }

    /// The setup callback that `event` releases: the stored one on a session
    /// ready signal, none on any other event.
    pub open spec fn released(self, event: EventKind) -> Option<S> {
        match event {
            EventKind::SessionReady => self.user_data_setup,
            EventKind::Other => None,
        }
    }

    /// The state after `event` passed the dispatch entry point.
    pub open spec fn dispatched(self, event: EventKind) -> Self {
        match event {
            EventKind::SessionReady => FrameworkState { user_data_setup: None, ..self },
            EventKind::Other => self,
        }
    }

    /// What is reported of a setup that ended in `result`.
    pub open spec fn report<E>(self, result: Result<u64, E>) -> SetupReport<E> {
        match result {
            Ok(_) => if self.user_data is None {
                SetupReport::Populated
            } else {
                SetupReport::Ignored
            },
            Err(error) => SetupReport::Failed(error),
        }
    }

    /// The state after a setup ended in `result`: a success fills an empty
    /// data slot, anything else changes nothing.
    pub open spec fn concluded<E>(self, result: Result<u64, E>) -> Self {
        match result {
            Ok(data) => FrameworkState { user_data: offered(self.user_data, data), ..self },
            Err(_) => self,
        }
    }

    /// What a reader of the application data is told.
    pub open spec fn poll(self) -> DataPoll {
        match self.user_data {
            Some(data) => DataPoll::Ready(data),
            None => DataPoll::Pending { retry_after_millis: DATA_POLL_MILLIS },
        }
    }

    /// What the maintenance task is told at an interval.
    pub open spec fn tick(self) -> Tick {
        match self.run {
            RunState::Prepared(_) => Tick::Halt,
            RunState::Running => if self.options.edit_tracker is Some {
                Tick::Purge
            } else {
                Tick::Idle
            },
            RunState::Stopped => Tick::Halt,
        }
    }
}

/// The lifecycle controller of one bot process.
///
/// It holds the client from construction until the start hands it out, the
/// setup callback until the first session ready signal releases it, and the
/// application data from the moment the setup has produced it.
#[verifier::reject_recursive_types(M)]
pub struct Framework<C, M, S, T> {
    user_data: SetOnce,
    options: FrameworkOptions<T>,
    application_id: ApplicationId,
    run: RunState<C>,
    shard_manager: std::sync::Arc<tokio::sync::Mutex<M>>,
    user_data_setup: Option<S>,
}

impl<C, M, S, T> View for Framework<C, M, S, T> {
    type V = FrameworkState<C, M, S, T>;

    closed spec fn view(&self) -> FrameworkState<C, M, S, T> {
        FrameworkState {
            application_id: self.application_id,
            options: self.options,
            shard_manager: self.shard_manager,
            run: self.run,
            user_data_setup: self.user_data_setup,
            user_data: self.user_data@,
        }
    }
}

impl<C, M, S, T> Framework<C, M, S, T> {
    /// A builder to configure a framework step by step.
    pub fn build() -> (builder: FrameworkBuilder<S, T>)
        ensures
            builder.application_id is None,
            builder.user_data_setup is None,
            builder.options is None,
    {
        FrameworkBuilder::default()
    }

    /// Assembles a framework around the outcome of building the client, and
    /// binds `bridge` to it.
    ///
    /// `bridge` is the event receiver that the client was built with. If the
    /// build failed, its error is returned, no framework exists and the bridge
    /// stays as it was. Otherwise the framework holds the client, the setup
    /// callback and an empty data slot, and the bridge delivers to it from now
    /// on (a bridge that was bound before keeps its binding).
    pub fn new<X>(
        application_id: ApplicationId,
        client: Result<BuiltClient<C, M>, X>,
        user_data_setup: S,
        options: FrameworkOptions<T>,
        bridge: &mut EventBridge,
    ) -> (framework: Result<Self, X>)
        ensures
            match client {
                Ok(built) => framework is Ok && framework->Ok_0@ == FrameworkState::assembled(
                    application_id,
                    built,
                    user_data_setup,
                    options,
                ) && final(bridge)@ == EventBridge::bound(old(bridge)@, application_id),
                Err(error) => framework is Err && framework->Err_0 == error && final(bridge)@
                    == old(bridge)@,
            },
            framework is Ok <==> client is Ok,
            framework is Ok ==> final(bridge)@ is Some && framework->Ok_0@.holds_client(),
    {
        match client {
            Ok(built) => {
                let framework = Framework {
                    user_data: SetOnce::create(),
                    options,
                    application_id,
                    run: RunState::Prepared(built.client),
                    shard_manager: built.shard_manager,
                    user_data_setup: Some(user_data_setup),
                };
                let _ = bridge.bind(application_id);
                Ok(framework)
            },
            Err(error) => Err(error),
        }
    }

    /// Takes the client out for a run in `mode`.
    ///
    /// A prepared framework hands out its client, with the interval for the
    /// maintenance task, and is running afterwards. A framework that was
    /// started before has no client left: the start is refused and nothing
    /// changes.
    pub fn start_with(&mut self, mode: StartMode) -> (launch: Result<Launch<C>, StartError>)
        ensures
            launch == old(self)@.launch(mode),
            launch is Ok <==> old(self)@.holds_client(),
            final(self)@ == old(self)@.started(),
            !final(self)@.holds_client(),
    {
        let mut run = RunState::Running;
        core::mem::swap(&mut self.run, &mut run);
        match run {
            RunState::Prepared(client) => Ok(
                Launch { client, mode, purge_interval_secs: PURGE_INTERVAL_SECS },
            ),
            RunState::Running => Err(StartError::ClientMissing),
            RunState::Stopped => {
                self.run = RunState::Stopped;
                Err(StartError::ClientMissing)
            },
        }
    }

    /// Starts the framework with the client's plain run operation.
    pub fn start(&mut self) -> (launch: Result<Launch<C>, StartError>)
        ensures
            launch == old(self)@.launch(StartMode::Single),
            launch is Ok <==> old(self)@.holds_client(),
            final(self)@ == old(self)@.started(),
    {
        self.start_with(StartMode::Single)
    }

    /// Starts the framework with the client's automatically sharded run
    /// operation.
    pub fn start_autosharded(&mut self) -> (launch: Result<Launch<C>, StartError>)
        ensures
            launch == old(self)@.launch(StartMode::Autosharded),
            launch is Ok <==> old(self)@.holds_client(),
            final(self)@ == old(self)@.started(),
    {
        self.start_with(StartMode::Autosharded)
    }

    /// Ends a run: cancels the maintenance task and passes on what the run
    /// loop returned.
    ///
    /// The task is cancelled on every path, whether the loop ended cleanly or
    /// with an error. A running framework is stopped afterwards.
    pub fn run_finished<X>(&mut self, task: tokio::task::JoinHandle<()>, outcome: Result<(), X>) -> (result:
        Result<(), X>)
        ensures
            result == outcome,
            final(self)@ == old(self)@.stopped(),
    {
        abort_task(task);
        let mut run = RunState::Stopped;
        core::mem::swap(&mut self.run, &mut run);
        match run {
            RunState::Prepared(client) => {
                self.run = RunState::Prepared(client);
            },
            RunState::Running => {},
            RunState::Stopped => {},
        }
        outcome
    }

    /// The dispatch entry point for a raw event.
    ///
    /// The first session ready signal releases the setup callback, which the
    /// caller runs and reports with `setup_finished`. Every later signal, and
    /// every other event, releases nothing. In each case the event then goes
    /// on to the dispatch router.
    pub fn dispatch_event(&mut self, event: EventKind) -> (setup: Option<S>)
        ensures
            setup == old(self)@.released(event),
            final(self)@ == old(self)@.dispatched(event),
    {
        match event {
            EventKind::SessionReady => self.user_data_setup.take(),
            EventKind::Other => None,
        }
    }

    /// Records how the setup callback ended.
    ///
    /// A success fills the data slot, once: a slot that is filled already
    /// keeps its value. A failure leaves the slot empty and hands the error
    /// back for reporting; the setup is not run again.
    pub fn setup_finished<E>(&mut self, result: Result<u64, E>) -> (report: SetupReport<E>)
        ensures
            report == old(self)@.report(result),
            final(self)@ == old(self)@.concluded(result),
    {
        match result {
            Ok(data) => {
                if self.user_data.set(data) {
                    SetupReport::Populated
                } else {
                    SetupReport::Ignored
                }
            },
            Err(error) => SetupReport::Failed(error),
        }
    }

    /// One look at the application data: the data once the setup has
    /// produced it, else the delay after which to look again. An empty slot
    /// is never an error.
    pub fn user_data(&self) -> (poll: DataPoll)
        ensures
            poll == self@.poll(),
            self@.user_data is Some ==> poll == DataPoll::Ready(self@.user_data->Some_0),
            self@.user_data is None ==> poll == (DataPoll::Pending { retry_after_millis: 100 }),
    {
        match self.user_data.get() {
            Some(data) => DataPoll::Ready(data),
            None => DataPoll::Pending { retry_after_millis: DATA_POLL_MILLIS },
        }
    }

    /// One interval of the maintenance task.
    ///
    /// While the run loop is active the cache is purged if one is configured;
    /// without one the interval is a no-op. Before the start and after the
    /// run loop returned the task is told to halt.
    pub fn maintenance_tick(&self) -> (tick: Tick)
        ensures
            tick == self@.tick(),
            self@.options.edit_tracker is None ==> tick != Tick::Purge,
            !(self@.run is Running) ==> tick == Tick::Halt,
    {
        match &self.run {
            RunState::Prepared(_) => Tick::Halt,
            RunState::Running => {
                if self.options.edit_tracker.is_some() {
                    Tick::Purge
                } else {
                    Tick::Idle
                }
            },
            RunState::Stopped => Tick::Halt,
        }
    }

    /// The options given at construction.
    pub fn options(&self) -> (options: &FrameworkOptions<T>)
        ensures
            *options == self@.options,
    {
        &self.options
    }

    /// The application identifier given at construction.
    pub fn application_id(&self) -> (id: ApplicationId)
        ensures
            id == self@.application_id,
    {
        self.application_id
    }

    /// Another handle to the client's shard manager.
    pub fn shard_manager(&self) -> (handle: std::sync::Arc<tokio::sync::Mutex<M>>)
        ensures
            handle == self@.shard_manager,
    {
        share(&self.shard_manager)
    }
}

} // verus!
