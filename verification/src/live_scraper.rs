//! The synchronisation loop as a state machine. The host performs the
//! command the machine asks for (a marketplace call, a store call, a pause)
//! and hands the result back as an event; every decision is taken here.

use vstd::prelude::*;
use vstd::string::StringExecFns;
use crate::error::{AppError, ErrorKind};
use crate::listing::Listing;
use crate::reconcile::ListingAction;
use crate::settings::{AuthState, LiveScraperSettings};
use crate::stock_item::{Model, ModelView};
use crate::enums::StockStatus;
use crate::price_aggregator::competitor_prices;
use crate::reconcile::reflects;
use crate::stock_sync::{
    in_scope, is_in_scope, lemma_second_pass_is_idle, plan, planned_action, planned_record, settle,
    settled, target_listing, ModuleKind,
};

verus! {

/// Life cycle of the loop.
#[derive(Clone, Copy, Debug, PartialEq, Eq, Structural)]
pub enum LoopState {
    /// No loop is running.
    Stopped,
    /// The loop runs cycle after cycle.
    Running,
    /// A stop was requested; the loop ends at the next cycle boundary.
    Stopping,
}

/// What the machine is waiting for.
#[derive(Clone, Copy, Debug, PartialEq, Eq, Structural)]
pub enum Stage {
    /// Nothing: no loop is running.
    Idle,
    /// The removal of every remote listing of the user, at start-up.
    CleanSlate,
    /// The stock records of a pass.
    Load(ModuleKind),
    /// The market around the record under the cursor.
    Observe(ModuleKind),
    /// The result of the pending remote operation.
    Apply(ModuleKind),
    /// The result of storing the record under the cursor.
    Save(ModuleKind),
    /// The end of the pause between two cycles.
    Sleep,
}

/// What the host is to do next.
#[derive(Clone, Debug, PartialEq, Eq)]
pub enum Command {
    /// Remove every remote listing of the user.
    DeleteAllListings,
    /// Fetch the stock records for a pass of the given kind.
    LoadRecords(ModuleKind),
    /// Fetch the live listings around record `index` and the user's own
    /// listing for it.
    Observe { index: usize },
    /// Carry out `action` for record `index`.
    Apply { index: usize, action: ListingAction },
    /// Store record `index`.
    Save { index: usize },
    /// Pause.
    Sleep { seconds: u64 },
    /// Leave the loop.
    Exit,
}

/// The market around one record.
#[derive(Clone, Debug, PartialEq, Eq)]
pub struct Observation {
    /// Every live listing for the record's item.
    pub live: Vec<Listing>,
    /// The user's own listing for the record's item, if there is one.
    pub mine: Option<Listing>,
}

/// What the host reports back.
#[derive(Debug)]
pub enum Event {
    /// A command without payload ended.
    Done(Result<(), AppError>),
    /// The store answered a request for records.
    Records(Result<Vec<Model>, AppError>),
    /// The marketplace answered a request for listings.
    Observed(Result<Observation, AppError>),
}

/// A failure handed back to the host for logging, with the verdict on the
/// loop: `halted` failures ended it and are to be shown to the user.
#[derive(Clone, Debug, PartialEq, Eq)]
pub struct ErrorReport {
    pub error: AppError,
    pub halted: bool,
}

/// How the machine took an event.
#[derive(Clone, Debug, PartialEq, Eq)]
pub enum Outcome {
    /// The event was what the machine waited for and told of a success.
    Advanced,
    /// The event told of a failure.
    Failed(ErrorReport),
    /// The event was not what the machine waited for; nothing changed.
    Rejected,
}

/// The loop driver: configuration, life cycle, and the progress of the
/// current pass over the stock records.
#[derive(Clone, Debug, PartialEq, Eq)]
pub struct LiveScraperClient {
    pub log_file: String,
    pub settings: LiveScraperSettings,
    /// Name under which the user's own listings appear.
    pub user: String,
    pub state: LoopState,
    pub stage: Stage,
    /// Records of the current pass.
    pub records: Vec<Model>,
    /// Position of the record being worked on.
    pub cursor: usize,
    /// Remote operation issued for the record under the cursor.
    pub pending: ListingAction,
}

/// The pass over the records without a variant, on behalf of a driver whose
/// settings and trader name it uses.
pub struct ItemModule<'a> {
    pub client: &'a LiveScraperClient,
}

/// The pass over the records with a variant, on behalf of a driver whose
/// settings and trader name it uses.
pub struct RivenModule<'a> {
    pub client: &'a LiveScraperClient,
}

impl<'a> ItemModule<'a> {
    /// Plans the synchronisation of one plain record in front of the market
    /// seen around it.
    pub fn plan(&self, record: &mut Model, seen: &Observation, now: i64) -> (action: ListingAction)
        ensures
            action == planned_action(
                ModuleKind::Items,
                old(record)@,
                seen.live@,
                seen.mine,
                self.client.user@,
                self.client.settings.undercut,
            ),
            final(record)@ == planned_record(
                ModuleKind::Items,
                old(record)@,
                seen.live@,
                self.client.user@,
                self.client.settings.undercut,
                now,
            ),
            final(record).list_price == old(record).list_price,
            final(record).status == old(record).status,
    {
        plan(
            ModuleKind::Items,
            record,
            &seen.live,
            &seen.mine,
            &self.client.user,
            self.client.settings.undercut,
            now,
        )
    }
}

impl<'a> RivenModule<'a> {
    /// Plans the synchronisation of one variant record in front of the
    /// market seen around it. The user's listing only counts as the
    /// record's when its variant is the record's.
    pub fn plan(&self, record: &mut Model, seen: &Observation, now: i64) -> (action: ListingAction)
        ensures
            action == planned_action(
                ModuleKind::Variants,
                old(record)@,
                seen.live@,
                seen.mine,
                self.client.user@,
                self.client.settings.undercut,
            ),
            final(record)@ == planned_record(
                ModuleKind::Variants,
                old(record)@,
                seen.live@,
                self.client.user@,
                self.client.settings.undercut,
                now,
            ),
            final(record).list_price == old(record).list_price,
            final(record).status == old(record).status,
    {
        plan(
            ModuleKind::Variants,
            record,
            &seen.live,
            &seen.mine,
            &self.client.user,
            self.client.settings.undercut,
            now,
        )
    }
}

/// Mathematical content of the loop driver.
pub struct ClientView {
    pub log_file: Seq<char>,
    pub settings: LiveScraperSettings,
    pub user: Seq<char>,
    pub state: LoopState,
    pub stage: Stage,
    pub records: Seq<ModelView>,
    pub cursor: usize,
    pub pending: ListingAction,
}

/// Content of a list of stock records.
pub open spec fn record_views(records: Seq<Model>) -> Seq<ModelView> {
    records.map_values(|m: Model| m@)
}

impl View for LiveScraperClient {
    type V = ClientView;

    open spec fn view(&self) -> ClientView {
        ClientView {
            log_file: self.log_file@,
            settings: self.settings,
            user: self.user@,
            state: self.state,
            stage: self.stage,
            records: record_views(self.records@),
            cursor: self.cursor,
            pending: self.pending,
        }
    }
}

/// Position of the first record at or after `from` that a pass of the given
/// kind works on; the number of records when there is none.
pub open spec fn first_in_scope(records: Seq<ModelView>, kind: ModuleKind, from: int) -> int
    decreases records.len() - from,
{
    if from >= records.len() {
        records.len() as int
    } else if in_scope(kind, records[from]) {
        from
    } else {
        first_in_scope(records, kind, from + 1)
    }
}

/// The first record in scope lies at or after the starting point and within
/// the list (or at its end when there is none), and every record skipped on
/// the way is out of scope.
pub proof fn lemma_first_in_scope(records: Seq<ModelView>, kind: ModuleKind, from: int)
    requires
        0 <= from <= records.len(),
    ensures
        from <= first_in_scope(records, kind, from) <= records.len(),
        first_in_scope(records, kind, from) < records.len() ==> in_scope(
            kind,
            records[first_in_scope(records, kind, from)],
        ),
        forall|i: int|
            from <= i < first_in_scope(records, kind, from) ==> !in_scope(kind, #[trigger] records[i]),
    decreases records.len() - from,
{
    if from < records.len() && !in_scope(kind, records[from]) {
        lemma_first_in_scope(records, kind, from + 1);
    }
}

impl ClientView {
    /// The record under the cursor.
    pub open spec fn current(self) -> ModelView {
        self.records[self.cursor as int]
    }

    /// Whether the stage speaks of a record and the cursor points at one.
    pub open spec fn on_record(self) -> bool {
        (self.stage is Observe || self.stage is Apply || self.stage is Save) && self.cursor
            < self.records.len()
    }

    /// Whether the machine is waiting for this kind of event.
    pub open spec fn accepts(self, event: Event) -> bool {
        match self.stage {
            Stage::Idle => false,
            Stage::CleanSlate => event is Done,
            Stage::Load(_) => event is Records,
            Stage::Observe(_) => event is Observed && self.cursor < self.records.len(),
            Stage::Apply(_) => event is Done && self.cursor < self.records.len(),
            Stage::Save(_) => event is Done && self.cursor < self.records.len(),
            Stage::Sleep => event is Done,
        }
    }

    /// The machine with the loop ended.
    pub open spec fn halted(self) -> ClientView {
        ClientView { state: LoopState::Stopped, stage: Stage::Idle, ..self }
    }

    /// The machine at a cycle boundary: a running loop starts the next cycle
    /// with the pass over the variants; a loop asked to stop ends.
    pub open spec fn next_cycle(self) -> ClientView {
        if self.state is Running {
            ClientView { stage: Stage::Load(ModuleKind::Variants), ..self }
        } else {
            self.halted()
        }
    }

    /// The machine after a pass: the pass over the plain items follows the
    /// pass over the variants, the pause follows the pass over the items.
    pub open spec fn after_pass(self, kind: ModuleKind) -> ClientView {
        match kind {
            ModuleKind::Variants => ClientView { stage: Stage::Load(ModuleKind::Items), ..self },
            ModuleKind::Items => ClientView { stage: Stage::Sleep, ..self },
        }
    }

    /// The machine moved to the first record in scope at or after `from`, or
    /// past the pass when there is none.
    pub open spec fn seek(self, kind: ModuleKind, from: int) -> ClientView {
        let at = first_in_scope(self.records, kind, from);
        if at < self.records.len() {
            ClientView { stage: Stage::Observe(kind), cursor: at as usize, ..self }
        } else {
            self.after_pass(kind)
        }
    }

    /// The machine once the remote side of the current record is done: a
    /// dirty record is stored first, a clean one gives way to the next.
    pub open spec fn after_record(self, kind: ModuleKind) -> ClientView {
        if self.current().is_dirty {
            ClientView { stage: Stage::Save(kind), ..self }
        } else {
            self.seek(kind, self.cursor + 1)
        }
    }

    /// The machine with the record under the cursor replaced.
    pub open spec fn with_current(self, record: ModelView) -> ClientView {
        ClientView { records: self.records.update(self.cursor as int, record), ..self }
    }

    /// The command the machine is waiting on.
    pub open spec fn command(self) -> Command {
        match self.stage {
            Stage::Idle => Command::Exit,
            Stage::CleanSlate => Command::DeleteAllListings,
            Stage::Load(kind) => Command::LoadRecords(kind),
            Stage::Observe(_) => Command::Observe { index: self.cursor },
            Stage::Apply(_) => Command::Apply { index: self.cursor, action: self.pending },
            Stage::Save(_) => Command::Save { index: self.cursor },
            Stage::Sleep => Command::Sleep { seconds: self.settings.interval_secs },
        }
    }
}

/// How a failure moves the machine: a critical one ends the loop on the
/// spot; any other is reported and the machine goes on with `otherwise`.
pub open spec fn failing(c: ClientView, error: AppError, otherwise: ClientView) -> (
    ClientView,
    Outcome,
) {
    if error.critical() {
        (c.halted(), Outcome::Failed(ErrorReport { error, halted: true }))
    } else {
        (otherwise, Outcome::Failed(ErrorReport { error, halted: false }))
    }
}

/// The transition function of the loop. An event the machine is not waiting
/// for is rejected and changes nothing. Otherwise:
///
/// - start-up: once the listings are cleared the first cycle begins; if
///   clearing fails, the loop ends;
/// - loading: the records received become the pass's records and the
///   cursor moves to the first one in scope; a failed load skips the pass;
/// - observing: the record is planned; an operation that changes the
///   marketplace is issued, otherwise the record is done;
/// - applying: on success the record is settled; on failure it keeps its
///   list price and status; either way the record is done;
/// - saving: on success the record is clean; either way the next record
///   follows;
/// - pausing: the next cycle begins, or the loop ends if a stop was asked;
///   a failed pause counts as a pause.
///
/// Every failure is reported; a critical one ends the loop at once.
pub open spec fn step(c: ClientView, event: Event, now: i64) -> (ClientView, Outcome) {
    if !c.accepts(event) {
        (c, Outcome::Rejected)
    } else {
        match (c.stage, event) {
            (Stage::CleanSlate, Event::Done(Ok(_))) => (c.next_cycle(), Outcome::Advanced),
            (Stage::CleanSlate, Event::Done(Err(error))) => (
                c.halted(),
                Outcome::Failed(ErrorReport { error, halted: true }),
            ),
            (Stage::Load(kind), Event::Records(Ok(records))) => (
                (ClientView { records: record_views(records@), cursor: 0, ..c }).seek(kind, 0),
                Outcome::Advanced,
            ),
            (Stage::Load(kind), Event::Records(Err(error))) => failing(c, error, c.after_pass(kind)),
            (Stage::Observe(kind), Event::Observed(Ok(seen))) => {
                let action = planned_action(
                    kind,
                    c.current(),
                    seen.live@,
                    seen.mine,
                    c.user,
                    c.settings.undercut,
                );
                let noted = c.with_current(
                    planned_record(kind, c.current(), seen.live@, c.user, c.settings.undercut, now),
                );
                if action.mutates() {
                    (
                        ClientView { stage: Stage::Apply(kind), pending: action, ..noted },
                        Outcome::Advanced,
                    )
                } else {
                    (noted.after_record(kind), Outcome::Advanced)
                }
            },
            (Stage::Observe(kind), Event::Observed(Err(error))) => failing(
                c,
                error,
                c.seek(kind, c.cursor + 1),
            ),
            (Stage::Apply(kind), Event::Done(Ok(_))) => (
                (ClientView { pending: ListingAction::Nothing, ..c }).with_current(
                    settled(c.current(), c.pending, now),
                ).after_record(kind),
                Outcome::Advanced,
            ),
            (Stage::Apply(kind), Event::Done(Err(error))) => failing(
                c,
                error,
                (ClientView { pending: ListingAction::Nothing, ..c }).after_record(kind),
            ),
            (Stage::Save(kind), Event::Done(Ok(_))) => (
                c.with_current(c.current().saved()).seek(kind, c.cursor + 1),
                Outcome::Advanced,
            ),
            (Stage::Save(kind), Event::Done(Err(error))) => failing(
                c,
                error,
                c.seek(kind, c.cursor + 1),
            ),
            (Stage::Sleep, Event::Done(Ok(_))) => (c.next_cycle(), Outcome::Advanced),
            (Stage::Sleep, Event::Done(Err(error))) => failing(c, error, c.next_cycle()),
            _ => (c, Outcome::Rejected),
        }
    }
}

/// The failure an event tells of, if it tells of one.
pub open spec fn failure_of(event: Event) -> Option<AppError> {
    match event {
        Event::Done(Err(error)) => Some(error),
        Event::Records(Err(error)) => Some(error),
        Event::Observed(Err(error)) => Some(error),
        _ => None,
    }
}

impl ClientView {
    /// Whether life cycle, stage and cursor fit together: a stopped loop
    /// waits for nothing and a loop that waits for nothing is stopped, the
    /// records can be counted by a machine integer, and a stage that
    /// speaks of a record has the cursor on a record in scope of the pass.
    pub open spec fn wf(self) -> bool {
        &&& (self.state is Stopped) == (self.stage is Idle)
        &&& self.records.len() <= usize::MAX
        &&& match self.stage {
            Stage::Observe(kind) | Stage::Apply(kind) | Stage::Save(kind) => self.cursor
                < self.records.len() && in_scope(kind, self.current()),
            _ => true,
        }
    }
}

/// Every transition keeps life cycle, stage and cursor fitting together.
pub proof fn lemma_step_preserves_wf(c: ClientView, event: Event, now: i64)
    requires
        c.wf(),
    ensures
        step(c, event, now).0.wf(),
{
    match c.stage {
        Stage::Load(kind) => {
            match event {
                Event::Records(Ok(records)) => {
                    assert(records@.len() == records.len());
                    lemma_first_in_scope(record_views(records@), kind, 0);
                },
                _ => {},
            }
        },
        Stage::Observe(kind) => {
            lemma_first_in_scope(c.records, kind, c.cursor + 1);
            match event {
                Event::Observed(Ok(seen)) => {
                    let noted = c.with_current(
                        planned_record(
                            kind,
                            c.current(),
                            seen.live@,
                            c.user,
                            c.settings.undercut,
                            now,
                        ),
                    );
                    lemma_first_in_scope(noted.records, kind, c.cursor + 1);
                },
                _ => {},
            }
        },
        Stage::Apply(kind) => {
            lemma_first_in_scope(c.records, kind, c.cursor + 1);
            let done = (ClientView { pending: ListingAction::Nothing, ..c }).with_current(
                settled(c.current(), c.pending, now),
            );
            lemma_first_in_scope(done.records, kind, c.cursor + 1);
        },
        Stage::Save(kind) => {
            lemma_first_in_scope(c.records, kind, c.cursor + 1);
            lemma_first_in_scope(c.with_current(c.current().saved()).records, kind, c.cursor + 1);
        },
        _ => {},
    }
}

/// A critical failure ends the loop on the spot, whatever the machine was
/// waiting for: the loop is stopped, the next command is to leave, the
/// report says so, and not one record changed. The records worked on
/// before keep what they got, the failing one and those after it are left
/// as they were.
pub proof fn lemma_critical_failure_halts(c: ClientView, event: Event, now: i64)
    requires
        c.accepts(event),
        failure_of(event) matches Some(error) && error.critical(),
    ensures
        step(c, event, now).0 == c.halted(),
        step(c, event, now).0.state is Stopped,
        step(c, event, now).0.command() == Command::Exit,
        step(c, event, now).0.records == c.records,
        step(c, event, now).1 == Outcome::Failed(
            ErrorReport { error: failure_of(event)->0, halted: true },
        ),
{
}

/// A stopped machine stays where it is: it rejects whatever arrives and
/// works on no record until the loop is started again.
pub proof fn lemma_stopped_machine_stays_put(c: ClientView, event: Event, now: i64)
    requires
        c.stage is Idle,
    ensures
        step(c, event, now) == (c, Outcome::Rejected),
        c.command() == Command::Exit,
{
}

/// A failure that is not critical is reported and leaves every record
/// as it was; unless it struck at start-up, the loop stays alive.
pub proof fn lemma_failure_spares_records(c: ClientView, event: Event, now: i64)
    requires
        c.accepts(event),
        failure_of(event) matches Some(error) && !error.critical(),
    ensures
        step(c, event, now).0.records == c.records,
        step(c, event, now).1 is Failed,
        step(c, event, now).1->Failed_0.error == failure_of(event)->0,
        !(c.stage is CleanSlate) && !(c.stage is Sleep) ==> step(c, event, now).0.state == c.state,
        !(c.stage is CleanSlate) ==> !step(c, event, now).1->Failed_0.halted,
{
}

/// No transition changes the list price or the status of a locked record,
/// nor anything of a hidden one. Only the arrival of freshly loaded
/// records replaces the list, and then by exactly what was loaded.
pub proof fn lemma_step_respects_locks(c: ClientView, event: Event, now: i64)
    requires
        c.wf(),
    ensures
        c.stage is Load ==> (event matches Event::Records(Ok(records)) ==> step(
            c,
            event,
            now,
        ).0.records == record_views(records@)),
        !(event is Records && c.stage is Load) ==> step(c, event, now).0.records.len()
            == c.records.len(),
        !(event is Records && c.stage is Load) ==> forall|i: int|
            0 <= i < c.records.len() && (#[trigger] c.records[i]).locked ==> step(
                c,
                event,
                now,
            ).0.records[i].list_price == c.records[i].list_price && step(
                c,
                event,
                now,
            ).0.records[i].status == c.records[i].status,
        !(event is Records && c.stage is Load) ==> forall|i: int|
            0 <= i < c.records.len() && (#[trigger] c.records[i]).is_hidden ==> step(
                c,
                event,
                now,
            ).0.records[i] == c.records[i],
{
}

/// No transition lets the price history of a record outgrow its capacity:
/// a record whose history is within bounds keeps it so, and a record that
/// was planned has a history within bounds whatever it had before.
pub proof fn lemma_step_keeps_histories_bounded(c: ClientView, event: Event, now: i64)
    requires
        !(event is Records && c.stage is Load),
    ensures
        forall|i: int|
            0 <= i < c.records.len() && (#[trigger] c.records[i]).wf() ==> step(
                c,
                event,
                now,
            ).0.records[i].wf(),
{
}

/// Whether two records agree in everything the engine never writes: the
/// item's identity and variant, what was paid, the user's floor, the
/// quantity held, the hidden and locked flags, and the time of creation.
pub open spec fn same_holding(a: ModelView, b: ModelView) -> bool {
    &&& a.id == b.id
    &&& a.wfm_id == b.wfm_id
    &&& a.wfm_url == b.wfm_url
    &&& a.item_name == b.item_name
    &&& a.item_unique_name == b.item_unique_name
    &&& a.sub_type == b.sub_type
    &&& a.bought == b.bought
    &&& a.minimum_price == b.minimum_price
    &&& a.owned == b.owned
    &&& a.is_hidden == b.is_hidden
    &&& a.locked == b.locked
    &&& a.created_at == b.created_at
}

/// The engine writes nothing but its own bookkeeping: no transition changes
/// what a record says about the holding itself.
pub proof fn lemma_step_keeps_holdings(c: ClientView, event: Event, now: i64)
    requires
        !(event is Records && c.stage is Load),
    ensures
        forall|i: int|
            0 <= i < c.records.len() ==> same_holding(
                #[trigger] c.records[i],
                step(c, event, now).0.records[i],
            ),
{
}

/// A record that a transition changed in anything but its dirty flag is
/// dirty afterwards, so the flag alone tells whether the store is behind.
pub proof fn lemma_changes_mark_dirty(c: ClientView, event: Event, now: i64)
    requires
        !(event is Records && c.stage is Load),
    ensures
        forall|i: int|
            0 <= i < c.records.len() && (ModelView {
                is_dirty: true,
                ..step(c, event, now).0.records[i]
            }) != (ModelView { is_dirty: true, ..#[trigger] c.records[i] }) ==> step(
                c,
                event,
                now,
            ).0.records[i].is_dirty,
{
}

/// A record sees at most one remote operation in a pass: an operation is
/// only ever issued from the observation of the record under the cursor,
/// and once a record was observed, operated on or stored, the cursor only
/// moves forward.
pub proof fn lemma_one_operation_per_record(c: ClientView, event: Event, now: i64)
    requires
        c.wf(),
    ensures
        step(c, event, now).0.stage is Apply && step(c, event, now).0 != c ==> c.stage is Observe
            && step(c, event, now).0.cursor == c.cursor,
        step(c, event, now).0.stage is Save && step(c, event, now).0 != c ==> (c.stage is Observe
            || c.stage is Apply) && step(c, event, now).0.cursor == c.cursor,
        step(c, event, now).0.stage is Observe && step(c, event, now).0 != c && !(c.stage is Load)
            ==> step(c, event, now).0.cursor > c.cursor,
{
    match c.stage {
        Stage::Observe(kind) => {
            lemma_first_in_scope(c.records, kind, c.cursor + 1);
            match event {
                Event::Observed(Ok(seen)) => {
                    let noted = c.with_current(
                        planned_record(
                            kind,
                            c.current(),
                            seen.live@,
                            c.user,
                            c.settings.undercut,
                            now,
                        ),
                    );
                    lemma_first_in_scope(noted.records, kind, c.cursor + 1);
                },
                _ => {},
            }
        },
        Stage::Apply(kind) => {
            lemma_first_in_scope(c.records, kind, c.cursor + 1);
            let done = (ClientView { pending: ListingAction::Nothing, ..c }).with_current(
                settled(c.current(), c.pending, now),
            );
            lemma_first_in_scope(done.records, kind, c.cursor + 1);
        },
        Stage::Save(kind) => {
            lemma_first_in_scope(c.records, kind, c.cursor + 1);
            lemma_first_in_scope(c.with_current(c.current().saved()).records, kind, c.cursor + 1);
        },
        _ => {},
    }
}

/// Running a pass twice costs nothing the second time: when the record
/// under the cursor is what the previous pass left of it after its
/// operation went through, and the competition did not move, observing it
/// again issues no remote operation.
pub proof fn lemma_second_observation_is_idle(
    c: ClientView,
    kind: ModuleKind,
    record: ModelView,
    first: Observation,
    again: Observation,
    earlier: i64,
    now: i64,
)
    requires
        c.stage == Stage::Observe(kind),
        c.cursor < c.records.len(),
        c.current() == settled(
            planned_record(kind, record, first.live@, c.user, c.settings.undercut, earlier),
            planned_action(kind, record, first.live@, first.mine, c.user, c.settings.undercut),
            earlier,
        ),
        competitor_prices(again.live@, c.user) == competitor_prices(first.live@, c.user),
        reflects(
            planned_action(kind, record, first.live@, first.mine, c.user, c.settings.undercut),
            record.sub_type,
            target_listing(kind, record, first.mine),
            target_listing(kind, record, again.mine),
        ),
    ensures
        !(step(c, Event::Observed(Ok(again)), now).0.stage is Apply),
        !(step(c, Event::Observed(Ok(again)), now).0.command() is Apply),
        step(c, Event::Observed(Ok(again)), now).1 is Advanced,
{
    lemma_second_pass_is_idle(
        kind,
        record,
        first.live@,
        first.mine,
        again.live@,
        again.mine,
        c.user,
        c.settings.undercut,
        earlier,
        now,
    );
    let noted = c.with_current(
        planned_record(kind, c.current(), again.live@, c.user, c.settings.undercut, now),
    );
    if !noted.current().is_dirty {
        lemma_first_in_scope(noted.records, kind, c.cursor + 1);
    }
}

/// A record with nothing held loses its listing within the cycle: when the
/// record under the cursor is in scope, holds nothing and has a listing of
/// its own, observing it issues the withdrawal of exactly that listing,
/// and once the withdrawal went through the record carries no list price
/// and is inactive.
pub proof fn lemma_unheld_record_is_withdrawn(c: ClientView, kind: ModuleKind, seen: Observation, now: i64, later: i64)
    requires
        c.stage == Stage::Observe(kind),
        c.cursor < c.records.len(),
        in_scope(kind, c.current()),
        c.current().owned <= 0,
        target_listing(kind, c.current(), seen.mine) is Some,
    ensures
        step(c, Event::Observed(Ok(seen)), now).0.command() == (Command::Apply {
            index: c.cursor,
            action: ListingAction::Delete { listing_id: seen.mine->0.id },
        }),
        step(step(c, Event::Observed(Ok(seen)), now).0, Event::Done(Ok(())), later).0.records[c.cursor as int].list_price is None,
        step(step(c, Event::Observed(Ok(seen)), now).0, Event::Done(Ok(())), later).0.records[c.cursor as int].status
            == StockStatus::Inactive,
{
    let asked = step(c, Event::Observed(Ok(seen)), now).0;
    let done = (ClientView { pending: ListingAction::Nothing, ..asked }).with_current(
        settled(asked.current(), asked.pending, later),
    );
    if !done.current().is_dirty {
        lemma_first_in_scope(done.records, kind, c.cursor + 1);
    }
}

/// The order of a cycle is fixed: the pass over the variants opens it and
/// only starts at a cycle boundary of a running loop, the pass over the
/// plain items follows the pass over the variants, and the pause follows
/// the pass over the plain items. A request to stop is honoured at the
/// cycle boundary and nowhere else.
pub proof fn lemma_cycle_order(c: ClientView, event: Event, now: i64)
    requires
        c.wf(),
        step(c, event, now).0.stage != c.stage,
    ensures
        step(c, event, now).0.stage == Stage::Load(ModuleKind::Variants) ==> (c.stage is CleanSlate
            || c.stage is Sleep) && c.state is Running,
        step(c, event, now).0.stage == Stage::Load(ModuleKind::Items) ==> c.stage == Stage::Load(
            ModuleKind::Variants,
        ) || c.stage == Stage::Observe(ModuleKind::Variants) || c.stage == Stage::Apply(
            ModuleKind::Variants,
        ) || c.stage == Stage::Save(ModuleKind::Variants),
        step(c, event, now).0.stage is Sleep ==> c.stage == Stage::Load(ModuleKind::Items)
            || c.stage == Stage::Observe(ModuleKind::Items) || c.stage == Stage::Apply(
            ModuleKind::Items,
        ) || c.stage == Stage::Save(ModuleKind::Items),
        step(c, event, now).0.stage is Idle ==> c.stage is CleanSlate || c.stage is Sleep
            || (failure_of(event) matches Some(error) && error.critical()),
        (c.stage is Sleep || c.stage is CleanSlate) && c.state is Stopping && c.accepts(event)
            ==> step(c, event, now).0.state is Stopped,
{
}

impl LiveScraperClient {
    /// A driver at rest for the given settings and trader: no loop runs and
    /// no records are held.
    pub fn new(settings: LiveScraperSettings, auth: &AuthState) -> (r: Self)
        ensures
            r.log_file@ == "live_scraper.log"@,
            r.settings == settings,
            r.user@ == auth.ingame_name@,
            r.state is Stopped,
            r.stage is Idle,
            r.records@.len() == 0,
            r.cursor == 0,
            r.pending is Nothing,
            r@.wf(),
    {
        LiveScraperClient {
            log_file: String::from_str("live_scraper.log"),
            settings,
            user: auth.ingame_name.clone(),
            state: LoopState::Stopped,
            stage: Stage::Idle,
            records: Vec::new(),
            cursor: 0,
            pending: ListingAction::Nothing,
        }
    }

    /// Takes note of a failure: a critical one ends the loop, any other
    /// leaves the driver as it is. The report tells the host which it was.
    pub fn report_error(&mut self, error: AppError) -> (report: ErrorReport)
        ensures
            report.error == error,
            report.halted == error.critical(),
            *final(self) == if error.critical() {
                (LiveScraperClient { state: LoopState::Stopped, stage: Stage::Idle, ..*old(self) })
            } else {
                *old(self)
            },
            final(self)@ == if error.critical() {
                old(self)@.halted()
            } else {
                old(self)@
            },
            old(self)@.wf() ==> final(self)@.wf(),
    {
        let halted = error.is_critical();
        if halted {
            self.halt();
        }
        ErrorReport { error, halted }
    }

    /// Asks a running loop to end at the next cycle boundary. A loop that
    /// is not running is left as it is.
    pub fn stop_loop(&mut self)
        ensures
            *final(self) == if old(self).state is Running {
                (LiveScraperClient { state: LoopState::Stopping, ..*old(self) })
            } else {
                *old(self)
            },
            !final(self).running(),
            old(self)@.wf() ==> final(self)@.wf(),
    {
        match self.state {
            LoopState::Running => {
                self.state = LoopState::Stopping;
            },
            _ => {},
        }
    }

    /// Whether the loop runs and no stop was asked.
    pub open spec fn running(&self) -> bool {
        self.state is Running
    }

    /// Decides [`LiveScraperClient::running`].
    pub fn is_running(&self) -> (r: bool)
        ensures
            r == self.running(),
    {
        match self.state {
            LoopState::Running => true,
            _ => false,
        }
    }

    /// Starts the loop. Only a stopped driver can start: it becomes running
    /// and first asks for the removal of every remote listing. A driver
    /// that is running, or still on its way to a stop, refuses and stays as
    /// it is.
    pub fn start_loop(&mut self) -> (r: Result<(), AppError>)
        ensures
            old(self).state is Stopped ==> r is Ok && *final(self) == (LiveScraperClient {
                state: LoopState::Running,
                stage: Stage::CleanSlate,
                ..*old(self)
            }),
            !(old(self).state is Stopped) ==> *final(self) == *old(self),
            !(old(self).state is Stopped) ==> (r matches Err(e) && e.kind == ErrorKind::Precondition
                && !e.critical()),
            old(self)@.wf() ==> final(self)@.wf(),
    {
        match self.state {
            LoopState::Stopped => {
                self.state = LoopState::Running;
                self.stage = Stage::CleanSlate;
                Ok(())
            },
            _ => Err(
                AppError::new(
                    "LiveScraper",
                    "The loop is already running",
                    ErrorKind::Precondition,
                ),
            ),
        }
    }

    /// The command the host is to perform next.
    pub fn command(&self) -> (r: Command)
        ensures
            r == self@.command(),
    {
        match self.stage {
            Stage::Idle => Command::Exit,
            Stage::CleanSlate => Command::DeleteAllListings,
            Stage::Load(kind) => Command::LoadRecords(kind),
            Stage::Observe(_) => Command::Observe { index: self.cursor },
            Stage::Apply(_) => Command::Apply { index: self.cursor, action: self.pending.clone() },
            Stage::Save(_) => Command::Save { index: self.cursor },
            Stage::Sleep => Command::Sleep { seconds: self.settings.interval_secs },
        }
    }

    /// The handle for the pass over the plain items.
    pub fn item(&self) -> (r: ItemModule<'_>)
        ensures
            *r.client == *self,
    {
        ItemModule { client: self }
    }

    /// The handle for the pass over the variants.
    pub fn riven(&self) -> (r: RivenModule<'_>)
        ensures
            *r.client == *self,
    {
        RivenModule { client: self }
    }

    fn halt(&mut self)
        ensures
            *final(self) == (LiveScraperClient {
                state: LoopState::Stopped,
                stage: Stage::Idle,
                ..*old(self)
            }),
            final(self)@ == old(self)@.halted(),
    {
        self.state = LoopState::Stopped;
        self.stage = Stage::Idle;
    }

    fn begin_cycle(&mut self)
        ensures
            final(self)@ == old(self)@.next_cycle(),
    {
        match self.state {
            LoopState::Running => {
                self.stage = Stage::Load(ModuleKind::Variants);
            },
            _ => {
                self.halt();
            },
        }
    }

    fn finish_pass(&mut self, kind: ModuleKind)
        ensures
            final(self)@ == old(self)@.after_pass(kind),
    {
        match kind {
            ModuleKind::Variants => {
                self.stage = Stage::Load(ModuleKind::Items);
            },
            ModuleKind::Items => {
                self.stage = Stage::Sleep;
            },
        }
    }

    fn seek(&mut self, kind: ModuleKind, from: usize)
        requires
            from <= old(self).records.len(),
        ensures
            final(self)@ == old(self)@.seek(kind, from as int),
    {
        let ghost views = record_views(self.records@);
        let mut at = from;
        while at < self.records.len() && !is_in_scope(kind, &self.records[at])
            invariant
                from <= at <= self.records.len(),
                *self == *old(self),
                views == record_views(self.records@),
                first_in_scope(views, kind, from as int) == first_in_scope(views, kind, at as int),
            decreases self.records.len() - at,
        {
            at = at + 1;
        }
        if at < self.records.len() {
            self.stage = Stage::Observe(kind);
            self.cursor = at;
        } else {
            self.finish_pass(kind);
        }
    }

    fn finish_record(&mut self, kind: ModuleKind)
        requires
            old(self).cursor < old(self).records.len(),
        ensures
            final(self)@ == old(self)@.after_record(kind),
    {
        if self.records[self.cursor].is_dirty {
            self.stage = Stage::Save(kind);
        } else {
            self.seek(kind, self.cursor + 1);
        }
    }

    fn plan_current(&mut self, kind: ModuleKind, seen: &Observation, now: i64) -> (action:
        ListingAction)
        requires
            old(self).cursor < old(self).records.len(),
        ensures
            action == planned_action(
                kind,
                old(self)@.current(),
                seen.live@,
                seen.mine,
                old(self)@.user,
                old(self).settings.undercut,
            ),
            final(self)@ == old(self)@.with_current(
                planned_record(
                    kind,
                    old(self)@.current(),
                    seen.live@,
                    old(self)@.user,
                    old(self).settings.undercut,
                    now,
                ),
            ),
    {
        let i = self.cursor;
        let action = plan(
            kind,
            &mut self.records[i],
            &seen.live,
            &seen.mine,
            &self.user,
            self.settings.undercut,
            now,
        );
        assert(record_views(self.records@) =~= record_views(old(self).records@).update(
            i as int,
            self.records@[i as int]@,
        ));
        action
    }

    fn settle_current(&mut self, now: i64)
        requires
            old(self).cursor < old(self).records.len(),
        ensures
            final(self)@ == (ClientView { pending: ListingAction::Nothing, ..old(self)@ }).with_current(
                settled(old(self)@.current(), old(self).pending, now),
            ),
    {
        let i = self.cursor;
        settle(&mut self.records[i], &self.pending, now);
        self.pending = ListingAction::Nothing;
        assert(record_views(self.records@) =~= record_views(old(self).records@).update(
            i as int,
            self.records@[i as int]@,
        ));
    }

    fn mark_current_saved(&mut self)
        requires
            old(self).cursor < old(self).records.len(),
        ensures
            final(self)@ == old(self)@.with_current(old(self)@.current().saved()),
    {
        let i = self.cursor;
        self.records[i].mark_saved();
        assert(record_views(self.records@) =~= record_views(old(self).records@).update(
            i as int,
            self.records@[i as int]@,
        ));
    }

    /// Takes the host's answer to the last command and moves the machine on.
    pub fn handle(&mut self, event: Event, now: i64) -> (outcome: Outcome)
        ensures
            (final(self)@, outcome) == step(old(self)@, event, now),
            old(self)@.wf() ==> final(self)@.wf(),
    {
        proof {
            if self@.wf() {
                lemma_step_preserves_wf(self@, event, now);
            }
        }
        match self.stage {
            Stage::Idle => Outcome::Rejected,
            Stage::CleanSlate => match event {
                Event::Done(Ok(_)) => {
                    self.begin_cycle();
                    Outcome::Advanced
                },
                Event::Done(Err(error)) => {
                    self.halt();
                    Outcome::Failed(ErrorReport { error, halted: true })
                },
                _ => Outcome::Rejected,
            },
            Stage::Load(kind) => match event {
                Event::Records(Ok(records)) => {
                    self.records = records;
                    self.cursor = 0;
                    self.seek(kind, 0);
                    Outcome::Advanced
                },
                Event::Records(Err(error)) => {
                    let halted = error.is_critical();
                    if halted {
                        self.halt();
                    } else {
                        self.finish_pass(kind);
                    }
                    Outcome::Failed(ErrorReport { error, halted })
                },
                _ => Outcome::Rejected,
            },
            Stage::Observe(kind) => {
                if self.cursor >= self.records.len() {
                    return Outcome::Rejected;
                }
                match event {
                    Event::Observed(Ok(seen)) => {
                        let action = self.plan_current(kind, &seen, now);
                        if action.is_mutation() {
                            self.pending = action;
                            self.stage = Stage::Apply(kind);
                        } else {
                            self.finish_record(kind);
                        }
                        Outcome::Advanced
                    },
                    Event::Observed(Err(error)) => {
                        let halted = error.is_critical();
                        if halted {
                            self.halt();
                        } else {
                            self.seek(kind, self.cursor + 1);
                        }
                        Outcome::Failed(ErrorReport { error, halted })
                    },
                    _ => Outcome::Rejected,
                }
            },
            Stage::Apply(kind) => {
                if self.cursor >= self.records.len() {
                    return Outcome::Rejected;
                }
                match event {
                    Event::Done(Ok(_)) => {
                        self.settle_current(now);
                        self.finish_record(kind);
                        Outcome::Advanced
                    },
                    Event::Done(Err(error)) => {
                        let halted = error.is_critical();
                        if halted {
                            self.halt();
                        } else {
                            self.pending = ListingAction::Nothing;
                            self.finish_record(kind);
                        }
                        Outcome::Failed(ErrorReport { error, halted })
                    },
                    _ => Outcome::Rejected,
                }
            },
            Stage::Save(kind) => {
                if self.cursor >= self.records.len() {
                    return Outcome::Rejected;
                }
                match event {
                    Event::Done(Ok(_)) => {
                        self.mark_current_saved();
                        self.seek(kind, self.cursor + 1);
                        Outcome::Advanced
                    },
                    Event::Done(Err(error)) => {
                        let halted = error.is_critical();
                        if halted {
                            self.halt();
                        } else {
                            self.seek(kind, self.cursor + 1);
                        }
                        Outcome::Failed(ErrorReport { error, halted })
                    },
                    _ => Outcome::Rejected,
                }
            },
            Stage::Sleep => match event {
                Event::Done(Ok(_)) => {
                    self.begin_cycle();
                    Outcome::Advanced
                },
                Event::Done(Err(error)) => {
                    let halted = error.is_critical();
                    if halted {
                        self.halt();
                    } else {
                        self.begin_cycle();
                    }
                    Outcome::Failed(ErrorReport { error, halted })
                },
                _ => Outcome::Rejected,
            },
        }
    }
}

} // verus!
