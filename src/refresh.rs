use vstd::prelude::*;
use crate::error::ApiError;
use crate::models::{CountryApiResponse, CountryInsert};
use crate::rates::ExchangeRateApiResponse;
use crate::reconcile::{process_country, reconciled_with_some_multiplier};

verus! {

/// Where a refresh session stands. Every phase from `Lookup` to `Commit`
/// runs inside one open store transaction.
#[derive(PartialEq, Eq, Structural, Clone, Copy, Debug)]
pub enum RefreshPhase {
    /// Looking up the record with the given index by case-insensitive name.
    Lookup(usize),
    /// Writing the record with the given index; the flag tells whether a
    /// record of that name already exists.
    Write(usize, bool),
    /// Writing the refresh metadata.
    Metadata,
    /// Committing the transaction.
    Commit,
    /// Reading back the committed metadata.
    ReadBack,
    /// Rendering the summary chart, best-effort.
    Render,
    /// Rolling the transaction back after a failure.
    RollingBack,
    /// The refresh is over and succeeded.
    Succeeded,
    /// The refresh is over and failed.
    Failed,
}

/// What the caller must do next against the store.
#[derive(PartialEq, Eq, Structural, Clone, Copy, Debug)]
pub enum RefreshAction {
    /// Look up the record with this index by case-insensitive name.
    FindExisting(usize),
    /// Insert the record with this index, stamped with the current time.
    Insert(usize),
    /// Update the record with this index, stamped with the current time.
    Update(usize),
    /// Write the refresh metadata with this total and the current time.
    WriteMetadata(i32),
    /// Commit the transaction.
    Commit,
    /// Roll the transaction back.
    Rollback,
    /// Read the committed metadata.
    ReadMetadata,
    /// Read the five largest economies and render the chart.
    RenderChart,
    /// Nothing is left to do; the flag tells whether the refresh succeeded.
    Finished(bool),
}

/// What the store answered to the last action.
#[derive(PartialEq, Eq, Structural, Clone, Copy, Debug)]
pub enum StoreEvent {
    /// The looked-up record exists.
    Found,
    /// The looked-up record does not exist.
    NotFound,
    /// The action completed.
    Done,
    /// The action failed.
    Failed,
}

/// The first phase of a session over `n` records.
pub open spec fn start_phase(n: nat) -> RefreshPhase {
    if n == 0 {
        RefreshPhase::Metadata
    } else {
        RefreshPhase::Lookup(0)
    }
}

/// The action that a phase asks for, in a session over `n` records.
pub open spec fn action_of(phase: RefreshPhase, n: nat) -> RefreshAction {
    match phase {
        RefreshPhase::Lookup(i) => RefreshAction::FindExisting(i),
        RefreshPhase::Write(i, exists) => if exists {
            RefreshAction::Update(i)
        } else {
            RefreshAction::Insert(i)
        },
        RefreshPhase::Metadata => RefreshAction::WriteMetadata(n as i32),
        RefreshPhase::Commit => RefreshAction::Commit,
        RefreshPhase::ReadBack => RefreshAction::ReadMetadata,
        RefreshPhase::Render => RefreshAction::RenderChart,
        RefreshPhase::RollingBack => RefreshAction::Rollback,
        RefreshPhase::Succeeded => RefreshAction::Finished(true),
        RefreshPhase::Failed => RefreshAction::Finished(false),
    }
}

/// The phase that follows `phase` on `event`, in a session over `n` records.
/// An event that does not answer the current action leaves the phase as it is.
pub open spec fn next_phase(phase: RefreshPhase, n: nat, event: StoreEvent) -> RefreshPhase {
    match phase {
        RefreshPhase::Lookup(i) => match event {
            StoreEvent::Found => RefreshPhase::Write(i, true),
            StoreEvent::NotFound => RefreshPhase::Write(i, false),
            StoreEvent::Failed => RefreshPhase::RollingBack,
            StoreEvent::Done => phase,
        },
        RefreshPhase::Write(i, _) => match event {
            StoreEvent::Done => if i + 1 < n {
                RefreshPhase::Lookup((i + 1) as usize)
            } else {
                RefreshPhase::Metadata
            },
            StoreEvent::Failed => RefreshPhase::RollingBack,
            _ => phase,
        },
        RefreshPhase::Metadata => match event {
            StoreEvent::Done => RefreshPhase::Commit,
            StoreEvent::Failed => RefreshPhase::RollingBack,
            _ => phase,
        },
        RefreshPhase::Commit => match event {
            StoreEvent::Done => RefreshPhase::ReadBack,
            StoreEvent::Failed => RefreshPhase::RollingBack,
            _ => phase,
        },
        RefreshPhase::ReadBack => match event {
            StoreEvent::Done => RefreshPhase::Render,
            StoreEvent::Failed => RefreshPhase::Failed,
            _ => phase,
        },
        RefreshPhase::Render => RefreshPhase::Succeeded,
        RefreshPhase::RollingBack => RefreshPhase::Failed,
        RefreshPhase::Succeeded => phase,
        RefreshPhase::Failed => phase,
    }
}

/// The phase reached from `phase` after the events in order.
pub open spec fn run_events(phase: RefreshPhase, n: nat, events: Seq<StoreEvent>) -> RefreshPhase
    decreases events.len(),
{
    if events.len() == 0 {
        phase
    } else {
        run_events(next_phase(phase, n, events[0]), n, events.drop_first())
    }
}

/// A phase inside the open transaction.
pub open spec fn in_transaction(phase: RefreshPhase) -> bool {
    match phase {
        RefreshPhase::Lookup(_) | RefreshPhase::Write(_, _) | RefreshPhase::Metadata
        | RefreshPhase::Commit => true,
        _ => false,
    }
}

/// A phase whose record index, if any, is below `n`.
pub open spec fn phase_in_range(phase: RefreshPhase, n: nat) -> bool {
    match phase {
        RefreshPhase::Lookup(i) => i < n,
        RefreshPhase::Write(i, _) => i < n,
        _ => true,
    }
}

/// `session` has just been opened over the directory `countries`: one record
/// per entry, in order, each reconciled with its own multiplier in range.
pub open spec fn opened_over(
    session: RefreshSession,
    countries: Seq<CountryApiResponse>,
    rates: Map<Seq<char>, u64>,
) -> bool {
    &&& session.wf()
    &&& session.records_spec().len() == countries.len()
    &&& session.phase_spec() == start_phase(countries.len())
    &&& forall|i: int|
        0 <= i < countries.len() ==> #[trigger] reconciled_with_some_multiplier(
            session.records_spec()[i],
            countries[i],
            rates,
        )
}

/// One refresh cycle: the reconciled records and the phase reached.
pub struct RefreshSession {
    records: Vec<CountryInsert>,
    phase: RefreshPhase,
}

impl RefreshSession {
    /// The reconciled records, in the order of the directory.
    pub closed spec fn records_spec(&self) -> Seq<CountryInsert> {
        self.records@
    }

    /// The phase reached.
    pub closed spec fn phase_spec(&self) -> RefreshPhase {
        self.phase
    }

    pub open spec fn wf(&self) -> bool {
        &&& self.records_spec().len() <= i32::MAX
        &&& phase_in_range(self.phase_spec(), self.records_spec().len())
    }

    /// Reconciles every directory entry, each with its own random multiplier,
    /// and opens the session at its first phase.
    pub fn start(countries: &Vec<CountryApiResponse>, rates: &ExchangeRateApiResponse) -> (r:
        RefreshSession)
        requires
            countries.len() <= i32::MAX,
            rates.wf(),
        ensures
            opened_over(r, countries@, rates@),
    {
        let mut records: Vec<CountryInsert> = Vec::new();
        let mut i: usize = 0;
        while i < countries.len()
            invariant
                i <= countries.len(),
                records@.len() == i,
                rates.wf(),
                forall|j: int|
                    0 <= j < i ==> #[trigger] reconciled_with_some_multiplier(
                        records@[j],
                        countries@[j],
                        rates@,
                    ),
            decreases countries.len() - i,
        {
            let rec = process_country(&countries[i], rates);
            records.push(rec);
            i = i + 1;
        }
        let phase = if countries.len() == 0 {
            RefreshPhase::Metadata
        } else {
            RefreshPhase::Lookup(0)
        };
        RefreshSession { records, phase }
    }

    /// The number of records of this cycle.
    pub fn len(&self) -> (r: usize)
        ensures
            r == self.records_spec().len(),
    {
        self.records.len()
    }

    /// The record with index `i`.
    pub fn record(&self, i: usize) -> (r: &CountryInsert)
        requires
            i < self.records_spec().len(),
        ensures
            *r == self.records_spec()[i as int],
    {
        &self.records[i]
    }

    /// The phase reached.
    pub fn phase(&self) -> (r: RefreshPhase)
        ensures
            r == self.phase_spec(),
    {
        self.phase
    }

    /// What the caller must do next.
    pub fn next_action(&self) -> (r: RefreshAction)
        requires
            self.wf(),
        ensures
            r == action_of(self.phase_spec(), self.records_spec().len()),
    {
        match self.phase {
            RefreshPhase::Lookup(i) => RefreshAction::FindExisting(i),
            RefreshPhase::Write(i, exists) => if exists {
                RefreshAction::Update(i)
            } else {
                RefreshAction::Insert(i)
            },
            RefreshPhase::Metadata => RefreshAction::WriteMetadata(self.records.len() as i32),
            RefreshPhase::Commit => RefreshAction::Commit,
            RefreshPhase::ReadBack => RefreshAction::ReadMetadata,
            RefreshPhase::Render => RefreshAction::RenderChart,
            RefreshPhase::RollingBack => RefreshAction::Rollback,
            RefreshPhase::Succeeded => RefreshAction::Finished(true),
            RefreshPhase::Failed => RefreshAction::Finished(false),
        }
    }

    /// Moves the session on by the store's answer to the last action.
    pub fn on_event(&mut self, event: StoreEvent)
        requires
            old(self).wf(),
        ensures
            final(self).wf(),
            final(self).records_spec() == old(self).records_spec(),
            final(self).phase_spec() == next_phase(
                old(self).phase_spec(),
                old(self).records_spec().len(),
                event,
            ),
    {
        let n = self.records.len();
        let next = match self.phase {
            RefreshPhase::Lookup(i) => match event {
                StoreEvent::Found => RefreshPhase::Write(i, true),
                StoreEvent::NotFound => RefreshPhase::Write(i, false),
                StoreEvent::Failed => RefreshPhase::RollingBack,
                StoreEvent::Done => self.phase,
            },
            RefreshPhase::Write(i, _) => match event {
                StoreEvent::Done => if i + 1 < n {
                    RefreshPhase::Lookup(i + 1)
                } else {
                    RefreshPhase::Metadata
                },
                StoreEvent::Failed => RefreshPhase::RollingBack,
                _ => self.phase,
            },
            RefreshPhase::Metadata => match event {
                StoreEvent::Done => RefreshPhase::Commit,
                StoreEvent::Failed => RefreshPhase::RollingBack,
                _ => self.phase,
            },
            RefreshPhase::Commit => match event {
                StoreEvent::Done => RefreshPhase::ReadBack,
                StoreEvent::Failed => RefreshPhase::RollingBack,
                _ => self.phase,
            },
            RefreshPhase::ReadBack => match event {
                StoreEvent::Done => RefreshPhase::Render,
                StoreEvent::Failed => RefreshPhase::Failed,
                _ => self.phase,
            },
            RefreshPhase::Render => RefreshPhase::Succeeded,
            RefreshPhase::RollingBack => RefreshPhase::Failed,
            RefreshPhase::Succeeded => self.phase,
            RefreshPhase::Failed => self.phase,
        };
        self.phase = next;
    }
}

/// Drives refresh cycles; holds the timeout applied to both external calls.
pub struct CountryService {
    pub timeout_secs: u64,
}

impl CountryService {
    pub fn new(timeout_secs: u64) -> (r: CountryService)
        ensures
            r.timeout_secs == timeout_secs,
    {
        CountryService { timeout_secs }
    }

    /// Starts a refresh cycle over the fetched data: reconciles every entry
    /// and opens the session whose actions the caller carries out against the
    /// store. A failed fetch is handed back as it is, before any store action
    /// is asked for.
    pub fn refresh_countries(
        &self,
        fetched: Result<(Vec<CountryApiResponse>, ExchangeRateApiResponse), ApiError>,
    ) -> (r: Result<RefreshSession, ApiError>)
        requires
            fetched matches Ok(d) ==> d.0.len() <= i32::MAX && d.1.wf(),
        ensures
            match fetched {
                Ok(d) => r matches Ok(session) && opened_over(session, d.0@, d.1@),
                Err(e) => r == Err::<RefreshSession, ApiError>(e),
            },
    {
        match fetched {
            Ok((countries, rates)) => Ok(RefreshSession::start(&countries, &rates)),
            Err(e) => Err(e),
        }
    }
}

} // verus!

verus! {

/// A phase after a failure inside the transaction.
pub open spec fn aborted(phase: RefreshPhase) -> bool {
    phase == RefreshPhase::RollingBack || phase == RefreshPhase::Failed
}

/// An action that changes or commits stored data.
pub open spec fn writes_store(action: RefreshAction) -> bool {
    match action {
        RefreshAction::Insert(_) | RefreshAction::Update(_) | RefreshAction::WriteMetadata(_)
        | RefreshAction::Commit => true,
        _ => false,
    }
}

/// Once aborted, a session stays aborted whatever the store answers.
pub proof fn lemma_aborted_stays(phase: RefreshPhase, n: nat, events: Seq<StoreEvent>)
    requires
        aborted(phase),
    ensures
        aborted(run_events(phase, n, events)),
        !writes_store(action_of(run_events(phase, n, events), n)),
    decreases events.len(),
{
    if events.len() > 0 {
        lemma_aborted_stays(next_phase(phase, n, events[0]), n, events.drop_first());
    }
}

/// A failure while the transaction is open leads to a rollback, and after it
/// no write and no commit is ever asked for, whatever the store answers: the
/// data committed before the refresh stays as it was.
pub proof fn lemma_failure_never_commits(phase: RefreshPhase, n: nat, events: Seq<StoreEvent>)
    requires
        in_transaction(phase),
    ensures
        next_phase(phase, n, StoreEvent::Failed) == RefreshPhase::RollingBack,
        action_of(RefreshPhase::RollingBack, n) == RefreshAction::Rollback,
        aborted(run_events(next_phase(phase, n, StoreEvent::Failed), n, events)),
        !writes_store(
            action_of(run_events(next_phase(phase, n, StoreEvent::Failed), n, events), n),
        ),
{
    lemma_aborted_stays(RefreshPhase::RollingBack, n, events);
}

/// The metadata written by a session counts exactly the records of the cycle:
/// the metadata write carries that number, and it is asked for only once the
/// write of the last record has completed, or at once when there are none.
pub proof fn lemma_metadata_counts_records(phase: RefreshPhase, n: nat, event: StoreEvent)
    requires
        n <= i32::MAX,
        phase_in_range(phase, n),
    ensures
        action_of(RefreshPhase::Metadata, n) == RefreshAction::WriteMetadata(n as i32),
        (n as i32) as nat == n,
        start_phase(n) == RefreshPhase::Metadata <==> n == 0,
        phase != RefreshPhase::Metadata && next_phase(phase, n, event) == RefreshPhase::Metadata
            ==> event == StoreEvent::Done && n > 0 && (phase == RefreshPhase::Write(
            (n - 1) as usize,
            true,
        ) || phase == RefreshPhase::Write((n - 1) as usize, false)),
{
}

/// Each record is written only after it was looked up, and in directory
/// order: the write of record `i` follows the lookup of record `i`, and the
/// lookup of record `i + 1` follows the completed write of record `i`.
pub proof fn lemma_records_in_order(phase: RefreshPhase, n: nat, event: StoreEvent)
    requires
        n <= i32::MAX,
        phase_in_range(phase, n),
    ensures
        next_phase(phase, n, event) matches RefreshPhase::Write(i, _) ==> (phase
            == next_phase(phase, n, event) || phase == RefreshPhase::Lookup(i)),
        next_phase(phase, n, event) matches RefreshPhase::Lookup(i) ==> (phase
            == next_phase(phase, n, event) || (i > 0 && event == StoreEvent::Done && (phase
            == RefreshPhase::Write((i - 1) as usize, true) || phase == RefreshPhase::Write(
            (i - 1) as usize,
            false,
        )))),
{
}

} // verus!

verus! {

/// The indices of the records whose write completed, in the order the
/// writes completed, along the run from `phase` over `events`.
pub open spec fn written_records(phase: RefreshPhase, n: nat, events: Seq<StoreEvent>) -> Seq<int>
    decreases events.len(),
{
    if events.len() == 0 {
        Seq::empty()
    } else {
        let here: Seq<int> = match phase {
            RefreshPhase::Write(i, _) => if events[0] == StoreEvent::Done {
                seq![i as int]
            } else {
                Seq::empty()
            },
            _ => Seq::empty(),
        };
        here + written_records(next_phase(phase, n, events[0]), n, events.drop_first())
    }
}

/// The record indices still to be written from `phase` on.
pub open spec fn remaining_records(phase: RefreshPhase, n: nat) -> Seq<int> {
    match phase {
        RefreshPhase::Lookup(k) => Seq::new((n - k) as nat, |j: int| k + j),
        RefreshPhase::Write(k, _) => Seq::new((n - k) as nat, |j: int| k + j),
        _ => Seq::empty(),
    }
}

proof fn lemma_written_from(phase: RefreshPhase, n: nat, events: Seq<StoreEvent>)
    requires
        n <= i32::MAX,
        phase_in_range(phase, n),
        run_events(phase, n, events) == RefreshPhase::Succeeded,
    ensures
        written_records(phase, n, events) == remaining_records(phase, n),
    decreases events.len(),
{
    if events.len() == 0 {
        assert(written_records(phase, n, events) =~= remaining_records(phase, n));
    } else {
        let next = next_phase(phase, n, events[0]);
        let rest = events.drop_first();
        if aborted(next) {
            lemma_aborted_stays(next, n, rest);
        } else {
            lemma_written_from(next, n, rest);
            assert(written_records(phase, n, events) =~= remaining_records(phase, n));
        }
    }
}

/// Every session run that ends in success wrote each record of the cycle
/// exactly once, in directory order, before it wrote the metadata, whose
/// total is that number of records.
pub proof fn lemma_successful_run_writes_each_record(n: nat, events: Seq<StoreEvent>)
    requires
        n <= i32::MAX,
        run_events(start_phase(n), n, events) == RefreshPhase::Succeeded,
    ensures
        written_records(start_phase(n), n, events) == Seq::new(n, |i: int| i),
        action_of(RefreshPhase::Metadata, n) == RefreshAction::WriteMetadata(n as i32),
        (n as i32) as nat == n,
{
    lemma_written_from(start_phase(n), n, events);
    assert(remaining_records(start_phase(n), n) =~= Seq::new(n, |i: int| i));
}

} // verus!
