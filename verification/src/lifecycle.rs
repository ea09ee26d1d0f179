//! The session lifecycle manager: the single slot that holds at most one
//! active session record, and the two-phase reconfiguration protocol over it.
//!
//! Reconfiguration is split into `detach` (atomically take-and-clear the
//! slot, yielding the previous record so its session can be stopped outside
//! any lock) and `install` (atomically publish the new pair). Between the
//! two, readers observe an empty slot — never a half-torn-down session. The
//! slot transitions are mirrored by the spec-level `SlotEvent`/`slot_step`
//! model, over which the lifecycle laws are stated and proved.

use vstd::prelude::*;

use crate::config::Configuration;
use crate::errors::CommandError;

verus! {

/// An opaque, copyable identifier standing for one live engine session
/// handle. The host that constructs real sessions assigns these; commands
/// hand them back so the host can resolve the handle the command ran against.
#[derive(Debug, Clone, Copy, PartialEq, Eq, Structural)]
pub struct SessionId {
    pub id: u64,
}

/// The pair installed by a successful reconfiguration: the configuration and
/// the session it produced. The two are replaced together, never
/// independently, so the stored configuration always matches the live
/// session.
#[derive(Debug)]
pub struct ActiveSessionRecord {
    pub config: Configuration,
    pub session: SessionId,
}

impl ActiveSessionRecord {
    /// An exact copy of the record.
    pub fn duplicate(&self) -> (r: Self)
        ensures
            r == *self,
    {
        ActiveSessionRecord { config: self.config.duplicate(), session: self.session }
    }
}

/// One transition of the session slot: a reconfiguration either clears it
/// (detaching the previous record) or publishes a freshly built record.
pub enum SlotEvent {
    Detach,
    Install { record: ActiveSessionRecord },
}

/// What one slot transition leaves observable.
pub open spec fn slot_step(
    slot: Option<ActiveSessionRecord>,
    event: SlotEvent,
) -> Option<ActiveSessionRecord> {
    match event {
        SlotEvent::Detach => None,
        SlotEvent::Install { record } => Some(record),
    }
}

/// What a whole sequence of slot transitions, applied in order, leaves
/// observable.
pub open spec fn slot_run(
    slot: Option<ActiveSessionRecord>,
    events: Seq<SlotEvent>,
) -> Option<ActiveSessionRecord>
    decreases events.len(),
{
    if events.len() == 0 {
        slot
    } else {
        slot_run(slot_step(slot, events[0]), events.drop_first())
    }
}

/// The lifecycle manager: the single synchronized slot holding
/// `Option<ActiveSessionRecord>`. The host serializes calls to the two
/// mutators through its lock; each method here is one short critical
/// section's worth of work, with no I/O inside.
pub struct LifecycleManager {
    slot: Option<ActiveSessionRecord>,
}

impl LifecycleManager {
    /// The record currently observable in the slot, if any.
    pub closed spec fn record(self) -> Option<ActiveSessionRecord> {
        self.slot
    }

    /// Whether a session is currently configured.
    pub open spec fn is_configured(self) -> bool {
        self.record() is Some
    }

    /// A manager for a process that has just started: unconfigured.
    pub fn new() -> (r: Self)
        ensures
            r.record() is None,
    {
        LifecycleManager { slot: None }
    }

    /// Non-blocking snapshot of the active configuration: exactly the one
    /// stored in the active record, or nothing when unconfigured.
    pub fn current_config(&self) -> (r: Option<Configuration>)
        ensures
            match self.record() {
                Some(rec) => r == Some(rec.config),
                None => r is None,
            },
    {
        match &self.slot {
            Some(rec) => Some(rec.config.duplicate()),
            None => None,
        }
    }

    /// The handle of the active session, or the distinguished
    /// `NotConfigured` failure when the slot is empty.
    pub fn api_handle(&self) -> (r: Result<SessionId, CommandError>)
        ensures
            match self.record() {
                Some(rec) => r == Ok::<SessionId, CommandError>(rec.session),
                None => r == Err::<SessionId, CommandError>(CommandError::NotConfigured),
            },
    {
        match &self.slot {
            Some(rec) => Ok(rec.session),
            None => Err(CommandError::NotConfigured),
        }
    }

    /// First phase of reconfiguration: atomically take-and-clear the slot.
    /// The previous record, if any, is handed to the caller, which stops its
    /// session outside the lock; meanwhile every reader observes an empty
    /// slot.
    pub fn detach(&mut self) -> (prev: Option<ActiveSessionRecord>)
        ensures
            prev == old(self).record(),
            final(self).record() is None,
            final(self).record() == slot_step(old(self).record(), SlotEvent::Detach),
    {
        self.slot.take()
    }

    /// Second phase of a successful reconfiguration: atomically publish the
    /// new configuration together with the session it produced. Visible to
    /// every later read.
    pub fn install(&mut self, config: Configuration, session: SessionId)
        ensures
            final(self).record() == Some(ActiveSessionRecord { config, session }),
            final(self).record() == slot_step(
                old(self).record(),
                SlotEvent::Install { record: ActiveSessionRecord { config, session } },
            ),
    {
        self.slot = Some(ActiveSessionRecord { config, session });
    }
}

/// Law: at most one active session record is observable at any instant.
/// After any sequence of slot transitions from any starting state, any two
/// records read from the slot are one and the same record — no reader ever
/// sees two simultaneously live sessions.
pub proof fn lemma_at_most_one_record(
    slot: Option<ActiveSessionRecord>,
    events: Seq<SlotEvent>,
    r1: ActiveSessionRecord,
    r2: ActiveSessionRecord,
)
    requires
        slot_run(slot, events) == Some(r1),
        slot_run(slot, events) == Some(r2),
    ensures
        r1 == r2,
{
}

/// Law: a successful reconfiguration round-trips. Once the install that a
/// `configure(c)` call performs has been published, the observable record
/// holds exactly `c` — which is what `current_config` then returns.
pub proof fn lemma_configure_round_trip(
    before: LifecycleManager,
    after: LifecycleManager,
    config: Configuration,
    session: SessionId,
)
    requires
        after.record() == slot_step(
            before.record(),
            SlotEvent::Install { record: ActiveSessionRecord { config, session } },
        ),
    ensures
        after.record() matches Some(rec) && rec.config == config,
{
}

/// Law: a reconfiguration that fails during session construction leaves the
/// system unconfigured. Such a call performs its detach and then never
/// installs, so the slot it leaves behind is the empty one — no partial
/// state is retained; the detached record itself was already handed to the
/// caller to be stopped.
pub proof fn lemma_failed_configure_leaves_unconfigured(
    before: LifecycleManager,
    after: LifecycleManager,
)
    requires
        after.record() == slot_step(before.record(), SlotEvent::Detach),
    ensures
        !after.is_configured(),
{
}

/// The finally observable state of a whole run is decided by its last
/// transition alone, applied to whatever the earlier transitions left.
pub proof fn lemma_last_event_decides(
    slot: Option<ActiveSessionRecord>,
    events: Seq<SlotEvent>,
)
    requires
        events.len() > 0,
    ensures
        slot_run(slot, events) == slot_step(
            slot_run(slot, events.drop_last()),
            events.last(),
        ),
    decreases events.len(),
{
    if events.len() == 1 {
        assert(events.drop_last() =~= Seq::<SlotEvent>::empty());
        assert(events.drop_first() =~= Seq::<SlotEvent>::empty());
        assert(slot_run(slot, events) == slot_run(
            slot_step(slot, events[0]),
            events.drop_first(),
        ));
        assert(slot_run(slot_step(slot, events[0]), Seq::<SlotEvent>::empty()) == slot_step(
            slot,
            events[0],
        ));
        assert(slot_run(slot, events.drop_last()) == slot);
        assert(events.last() == events[0]);
    } else {
        let stepped = slot_step(slot, events[0]);
        lemma_last_event_decides(stepped, events.drop_first());
        assert(slot_run(slot, events) == slot_run(stepped, events.drop_first()));
        assert(events.drop_first().drop_last() =~= events.drop_last().drop_first());
        assert(events.drop_first().last() == events.last());
        assert(events.drop_last()[0] == events[0]);
        assert(slot_run(slot, events.drop_last()) == slot_run(
            stepped,
            events.drop_last().drop_first(),
        ));
    }
}

/// Law: two reconfigurations issued back-to-back leave either the one
/// record or the other — whichever install was published last, as a whole —
/// and never a hybrid of the two. In any interleaving of the two calls'
/// transitions, the last transition is one of the two installs, and that
/// install alone decides the final state.
pub proof fn lemma_two_configures_never_hybrid(
    slot: Option<ActiveSessionRecord>,
    events: Seq<SlotEvent>,
    a: ActiveSessionRecord,
    b: ActiveSessionRecord,
)
    requires
        events.len() > 0,
        events.last() == (SlotEvent::Install { record: a }) || events.last() == (
        SlotEvent::Install { record: b }),
    ensures
        slot_run(slot, events) == Some(a) || slot_run(slot, events) == Some(b),
{
    lemma_last_event_decides(slot, events);
}

} // verus!
