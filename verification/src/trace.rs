//! What holds of a framework along every sequence of lifecycle steps.

use vstd::prelude::*;
use crate::framework::{
    DataPoll, EventKind, FrameworkState, Launch, StartError, StartMode, Tick, DATA_POLL_MILLIS,
};

verus! {

/// One step that changes a framework.
pub enum Step {
    /// A start in the given mode.
    Start(StartMode),
    /// The run loop returned, with whatever outcome.
    RunFinished,
    /// A raw event passed the dispatch entry point.
    Event(EventKind),
    /// The setup callback returned this application data.
    SetupSucceeded(u64),
    /// The setup callback failed.
    SetupFailed,
}

/// The time of look number `k` (the first look is number 0) of a reader whose
/// first look is at `first_look` and who suspends for one polling interval
/// after every look that finds the slot empty. Times are in milliseconds.
pub open spec fn look_time(first_look: nat, k: nat) -> nat {
    first_look + k * (DATA_POLL_MILLIS as nat)
}

/// A reader learns of the application data at most one polling interval after
/// the slot was filled: some look is made at or after `filled_at`, and it is
/// either the reader's first look or made less than 100 milliseconds after
/// `filled_at`.
pub proof fn reader_waits_at_most_one_interval(first_look: nat, filled_at: nat)
    ensures
        exists|k: nat|
            filled_at <= #[trigger] look_time(first_look, k) && (k == 0 || look_time(first_look, k)
                < filled_at + 100),
{
    if filled_at <= first_look {
        assert(look_time(first_look, 0) == first_look);
    } else {
        let gap: nat = (filled_at - first_look) as nat;
        let k: nat = if gap % 100 == 0 {
            gap / 100
        } else {
            gap / 100 + 1
        };
        assert(gap <= k * 100 && k * 100 < gap + 100) by (nonlinear_arith)
            requires
                k == if gap % 100 == 0 {
                    gap / 100
                } else {
                    gap / 100 + 1
                },
        ;
        assert(look_time(first_look, k) == first_look + k * 100);
    }
}

impl<C, M, S, T> FrameworkState<C, M, S, T> {
    /// The state after one step.
    pub open spec fn step(self, step: Step) -> Self {
        match step {
            Step::Start(_) => self.started(),
            Step::RunFinished => self.stopped(),
            Step::Event(event) => self.dispatched(event),
            Step::SetupSucceeded(data) => self.concluded(Ok::<u64, ()>(data)),
            Step::SetupFailed => self.concluded(Err::<u64, ()>(())),
        }
    }

    /// The state after a sequence of steps, taken in order.
    pub open spec fn after(self, steps: Seq<Step>) -> Self
        decreases steps.len(),
    {
        if steps.len() == 0 {
            self
        } else {
            self.after(steps.drop_last()).step(steps.last())
        }
    }

    /// How many steps of the sequence release the setup callback.
    pub open spec fn releases(self, steps: Seq<Step>) -> nat
        decreases steps.len(),
    {
        if steps.len() == 0 {
            0
        } else {
            let before = self.after(steps.drop_last());
            let earlier = self.releases(steps.drop_last());
            match steps.last() {
                Step::Event(event) => if before.released(event) is Some {
                    earlier + 1
                } else {
                    earlier
                },
                _ => earlier,
            }
        }
    }

    /// The configuration never changes: whatever steps are taken, the
    /// application identifier, the options and the shard manager handle are
    /// those given at construction.
    pub proof fn configuration_is_fixed(self, steps: Seq<Step>)
        ensures
            self.after(steps).application_id == self.application_id,
            self.after(steps).options == self.options,
            self.after(steps).shard_manager == self.shard_manager,
        decreases steps.len(),
    {
        if steps.len() > 0 {
            self.configuration_is_fixed(steps.drop_last());
        }
    }

    /// A client that was handed out never comes back: once a framework holds
    /// no client, every later start is refused, whatever happened in between.
    pub proof fn consumed_client_stays_consumed(self, steps: Seq<Step>, mode: StartMode)
        requires
            !self.holds_client(),
        ensures
            !self.after(steps).holds_client(),
            self.after(steps).launch(mode) == Err::<Launch<C>, StartError>(StartError::ClientMissing),
        decreases steps.len(),
    {
        if steps.len() > 0 {
            self.consumed_client_stays_consumed(steps.drop_last(), mode);
        }
    }

    /// A second start fails: after any start, and whatever steps follow it,
    /// a start in any mode is refused because the client is missing.
    pub proof fn second_start_is_refused(self, steps: Seq<Step>, mode: StartMode)
        ensures
            self.started().after(steps).launch(mode) == Err::<Launch<C>, StartError>(StartError::ClientMissing),
    {
        self.started().consumed_client_stays_consumed(steps, mode);
    }

    /// A released setup callback never comes back: once a framework holds no
    /// callback, no event releases one.
    pub proof fn released_setup_stays_released(self, steps: Seq<Step>, event: EventKind)
        requires
            self.user_data_setup is None,
        ensures
            self.after(steps).user_data_setup is None,
            self.after(steps).released(event) is None,
            self.releases(steps) == 0,
        decreases steps.len(),
    {
        if steps.len() > 0 {
            self.released_setup_stays_released(steps.drop_last(), event);
            self.released_setup_stays_released(steps.drop_last(), EventKind::SessionReady);
        }
    }

    /// The setup callback is released at most once, however many session
    /// ready signals arrive.
    pub proof fn setup_is_released_at_most_once(self, steps: Seq<Step>)
        ensures
            self.releases(steps) <= 1,
            self.releases(steps) == 1 ==> self.after(steps).user_data_setup is None,
        decreases steps.len(),
    {
        if steps.len() > 0 {
            let earlier = steps.drop_last();
            self.setup_is_released_at_most_once(earlier);
            if self.after(earlier).user_data_setup is None {
                self.after(earlier).released_setup_stays_released(
                    Seq::<Step>::empty(),
                    EventKind::SessionReady,
                );
            }
        }
    }

    /// The data slot is written once: application data that is in the slot
    /// stays there unchanged, whatever steps follow, and every reader is
    /// given exactly that data.
    pub proof fn data_is_never_replaced(self, steps: Seq<Step>)
        requires
            self.user_data is Some,
        ensures
            self.after(steps).user_data == self.user_data,
            self.after(steps).poll() == DataPoll::Ready(self.user_data->Some_0),
        decreases steps.len(),
    {
        if steps.len() > 0 {
            self.data_is_never_replaced(steps.drop_last());
        }
    }

    /// A reader that finds the slot empty is told to wait one polling
    /// interval; once the setup has delivered `data`, the next look returns
    /// `data`, and so does every look after any further steps.
    pub proof fn reader_gets_data_after_population(self, data: u64, steps: Seq<Step>)
        requires
            self.user_data is None,
        ensures
            self.poll() == (DataPoll::Pending { retry_after_millis: 100 }),
            self.concluded(Ok::<u64, ()>(data)).poll() == DataPoll::Ready(data),
            self.concluded(Ok::<u64, ()>(data)).after(steps).poll() == DataPoll::Ready(data),
    {
        self.concluded(Ok::<u64, ()>(data)).data_is_never_replaced(steps);
    }

    /// A stopped framework stays stopped, and its maintenance task is told
    /// to halt at every interval.
    pub proof fn stopped_is_final(self, steps: Seq<Step>)
        requires
            self.run is Stopped,
        ensures
            self.after(steps).run is Stopped,
            self.after(steps).tick() == Tick::Halt,
        decreases steps.len(),
    {
        if steps.len() > 0 {
            self.stopped_is_final(steps.drop_last());
        }
    }

    /// Once the run loop of a running framework has returned, the
    /// maintenance task never acts again, whatever steps follow.
    pub proof fn maintenance_ends_with_the_run(self, steps: Seq<Step>)
        requires
            self.run is Running,
        ensures
            self.stopped().run is Stopped,
            self.stopped().after(steps).tick() == Tick::Halt,
    {
        self.stopped().stopped_is_final(steps);
    }

    /// Without an edit-tracking cache no interval purges anything, in any
    /// phase and after any steps.
    pub proof fn no_tracker_no_purge(self, steps: Seq<Step>)
        requires
            self.options.edit_tracker is None,
        ensures
            self.after(steps).tick() != Tick::Purge,
    {
        self.configuration_is_fixed(steps);
    }
}

} // verus!
