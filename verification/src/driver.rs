//! Pagination driver for one target: a state machine that consumes fetch
//! outcomes — a transport failure or a response body — and decides what to do
//! next: back off and refetch the same page, emit a page's records and
//! continue or finish, or give the target up.
//!
//! The two retry budgets are independent: one bounds transport failures, the
//! other service-reported errors, and both accumulate over the whole of one
//! target's pagination run. A malformed response body is not retried: it
//! marks a client-side fault, so the target fails at once.
use vstd::prelude::*;
use crate::decoder::{decode_page, spec_decode_page};
use crate::records::{
    ListingPage, ObjectRecord, PageView, RecordView, TargetResult, TerminalError,
    TerminalErrorView, opt_text_view,
};

verus! {

/// How many times a transport failure is retried before the target fails.
pub const MAX_TRANSPORT_RETRIES: u64 = 5;

/// How many times a service-reported error is retried before the target
/// fails.
pub const MAX_SERVICE_RETRIES: u64 = 10;

/// How long to wait, in milliseconds, before a retried fetch.
pub const BACKOFF_MILLIS: u64 = 1000;

/// What one fetch of a page came to: the transport failed, or the service
/// answered with a body.
pub enum FetchOutcome {
    TransportError,
    Response(String),
}

/// Mathematical model of `FetchOutcome`.
#[verifier::ext_equal]
pub ghost enum FetchView {
    TransportError,
    Response(Seq<char>),
}

impl View for FetchOutcome {
    type V = FetchView;

    open spec fn view(&self) -> FetchView {
        match self {
            FetchOutcome::TransportError => FetchView::TransportError,
            FetchOutcome::Response(body) => FetchView::Response(body@),
        }
    }
}

/// Where the driver stands: still fetching pages, finished, or failed.
pub enum DriverPhase {
    Running,
    Done,
    Fatal(TerminalError),
}

/// Mathematical model of `DriverPhase`.
#[verifier::ext_equal]
pub ghost enum DriverPhaseView {
    Running,
    Done,
    Fatal(TerminalErrorView),
}

impl View for DriverPhase {
    type V = DriverPhaseView;

    open spec fn view(&self) -> DriverPhaseView {
        match self {
            DriverPhase::Running => DriverPhaseView::Running,
            DriverPhase::Done => DriverPhaseView::Done,
            DriverPhase::Fatal(e) => DriverPhaseView::Fatal(e@),
        }
    }
}

/// The driver's state for one target: the marker to fetch with next, the two
/// retry budgets used so far, the records counted so far, and the phase.
pub struct DriverState {
    pub marker: Option<String>,
    pub transport_retries: u64,
    pub service_retries: u64,
    pub record_count: u64,
    pub phase: DriverPhase,
}

/// Mathematical model of `DriverState`.
#[verifier::ext_equal]
pub ghost struct DriverView {
    pub marker: Option<Seq<char>>,
    pub transport_retries: u64,
    pub service_retries: u64,
    pub record_count: u64,
    pub phase: DriverPhaseView,
}

impl View for DriverState {
    type V = DriverView;

    open spec fn view(&self) -> DriverView {
        DriverView {
            marker: opt_text_view(self.marker),
            transport_retries: self.transport_retries,
            service_retries: self.service_retries,
            record_count: self.record_count,
            phase: self.phase@,
        }
    }
}

/// What the caller must do after one step.
pub enum StepAction {
    /// Wait `BACKOFF_MILLIS` and fetch again with the driver's marker.
    Backoff,
    /// Append `records`, in order, to the target's sink; when `last` holds
    /// the target is done, otherwise fetch again with the driver's marker.
    EmitPage { records: Vec<ObjectRecord>, last: bool },
    /// The target failed; stop.
    Abort(TerminalError),
}

/// Mathematical model of `StepAction`.
#[verifier::ext_equal]
pub ghost enum ActionView {
    Backoff,
    EmitPage { records: Seq<RecordView>, last: bool },
    Abort(TerminalErrorView),
}

impl View for StepAction {
    type V = ActionView;

    open spec fn view(&self) -> ActionView {
        match self {
            StepAction::Backoff => ActionView::Backoff,
            StepAction::EmitPage { records, last } => ActionView::EmitPage {
                records: records@.map_values(|r: ObjectRecord| r@),
                last: *last,
            },
            StepAction::Abort(e) => ActionView::Abort(e@),
        }
    }
}

/// The driver's state when a target's pagination starts: no marker, both
/// retry budgets untouched, no records counted.
pub open spec fn driver_init() -> DriverView {
    DriverView {
        marker: Option::None,
        transport_retries: 0,
        service_retries: 0,
        record_count: 0,
        phase: DriverPhaseView::Running,
    }
}

/// The record count after emitting `n` more records; it saturates instead of
/// wrapping.
pub open spec fn count_after(c: u64, n: nat) -> u64 {
    if c + n <= u64::MAX {
        (c + n) as u64
    } else {
        u64::MAX
    }
}

/// One step of the driver on fetch outcome `ev`: the state after it, and the
/// action the caller owes.
pub open spec fn spec_step(st: DriverView, ev: FetchView) -> (DriverView, ActionView) {
    match ev {
        FetchView::TransportError => {
            if st.transport_retries < MAX_TRANSPORT_RETRIES {
                (
                    DriverView { transport_retries: (st.transport_retries + 1) as u64, ..st },
                    ActionView::Backoff,
                )
            } else {
                (
                    DriverView {
                        phase: DriverPhaseView::Fatal(TerminalErrorView::TransportRetriesExhausted),
                        ..st
                    },
                    ActionView::Abort(TerminalErrorView::TransportRetriesExhausted),
                )
            }
        },
        FetchView::Response(body) => {
            match spec_decode_page(body) {
                PageView::Malformed { offset } => {
                    let e = TerminalErrorView::MalformedPage { offset };
                    (
                        DriverView { phase: DriverPhaseView::Fatal(e), ..st },
                        ActionView::Abort(e),
                    )
                },
                PageView::ServiceError { code, message } => {
                    if st.service_retries < MAX_SERVICE_RETRIES {
                        (
                            DriverView { service_retries: (st.service_retries + 1) as u64, ..st },
                            ActionView::Backoff,
                        )
                    } else {
                        let e = TerminalErrorView::ServiceRetriesExhausted { code, message };
                        (
                            DriverView { phase: DriverPhaseView::Fatal(e), ..st },
                            ActionView::Abort(e),
                        )
                    }
                },
                PageView::Results { records, marker } => {
                    let cnt = count_after(st.record_count, records.len());
                    match marker {
                        Option::Some(m) => (
                            DriverView {
                                marker: Option::Some(m),
                                record_count: cnt,
                                phase: DriverPhaseView::Running,
                                ..st
                            },
                            ActionView::EmitPage { records, last: false },
                        ),
                        Option::None => (
                            DriverView {
                                marker: Option::None,
                                record_count: cnt,
                                phase: DriverPhaseView::Done,
                                ..st
                            },
                            ActionView::EmitPage { records, last: true },
                        ),
                    }
                },
            }
        },
    }
}

/// The records an action emits.
pub open spec fn emitted_of(a: ActionView) -> Seq<RecordView> {
    match a {
        ActionView::EmitPage { records, .. } => records,
        _ => Seq::empty(),
    }
}

/// What one run over a sequence of fetch outcomes comes to: the final state,
/// every record emitted, in order, and how many outcomes were consumed. The
/// run stops at the first terminal state, or when the outcomes run out.
#[verifier::ext_equal]
pub ghost struct RunTrace {
    pub state: DriverView,
    pub emitted: Seq<RecordView>,
    pub fetches: nat,
}

pub open spec fn spec_run(st: DriverView, evs: Seq<FetchView>) -> RunTrace
    decreases evs.len(),
{
    if !(st.phase is Running) || evs.len() == 0 {
        RunTrace { state: st, emitted: Seq::empty(), fetches: 0 }
    } else {
        let stepped = spec_step(st, evs[0]);
        let rest = spec_run(stepped.0, evs.drop_first());
        RunTrace {
            state: rest.state,
            emitted: emitted_of(stepped.1) + rest.emitted,
            fetches: rest.fetches + 1,
        }
    }
}

/// Whether a body decodes to a result set.
pub open spec fn decodes_to_results(b: Seq<char>) -> bool {
    spec_decode_page(b) matches PageView::Results { .. }
}

/// The records of a body's decoded page, when it decodes to a result set.
pub open spec fn page_records(b: Seq<char>) -> Seq<RecordView> {
    match spec_decode_page(b) {
        PageView::Results { records, .. } => records,
        _ => Seq::empty(),
    }
}

/// The marker of a body's decoded page, when it decodes to a result set.
pub open spec fn page_marker(b: Seq<char>) -> Option<Seq<char>> {
    match spec_decode_page(b) {
        PageView::Results { marker, .. } => marker,
        _ => Option::None,
    }
}

/// The fetch outcomes of a run in which every fetch answers with a body.
pub open spec fn body_events(bodies: Seq<Seq<char>>) -> Seq<FetchView> {
    bodies.map_values(|b: Seq<char>| FetchView::Response(b))
}

/// The records of a sequence of bodies' pages, concatenated in order.
pub open spec fn flatten_records(bodies: Seq<Seq<char>>) -> Seq<RecordView>
    decreases bodies.len(),
{
    if bodies.len() == 0 {
        Seq::empty()
    } else {
        page_records(bodies[0]) + flatten_records(bodies.drop_first())
    }
}

/// Pagination terminates, with nothing duplicated and nothing lost: when
/// every body decodes to a result set, every page but the last carries a
/// marker, and the last page carries none, a running driver fetches exactly
/// one page per body, ends `Done`, and emits exactly the records of those
/// pages, in order.
pub proof fn lemma_pagination_no_dup_no_loss(st: DriverView, bodies: Seq<Seq<char>>)
    requires
        st.phase is Running,
        bodies.len() >= 1,
        forall|i: int| 0 <= i < bodies.len() ==> decodes_to_results(#[trigger] bodies[i]),
        forall|i: int| 0 <= i < bodies.len() - 1 ==> page_marker(#[trigger] bodies[i]) is Some,
        page_marker(bodies[bodies.len() - 1]) is None,
    ensures
        spec_run(st, body_events(bodies)).state.phase is Done,
        spec_run(st, body_events(bodies)).fetches == bodies.len(),
        spec_run(st, body_events(bodies)).emitted == flatten_records(bodies),
    decreases bodies.len(),
{
    reveal_with_fuel(spec_run, 2);
    reveal_with_fuel(flatten_records, 2);
    let evs = body_events(bodies);
    assert(evs[0] == FetchView::Response(bodies[0]));
    let stepped = spec_step(st, evs[0]);
    if bodies.len() == 1 {
        assert(stepped.0.phase is Done);
        assert(spec_run(st, evs).emitted =~= flatten_records(bodies));
    } else {
        assert(page_marker(bodies[0]) is Some);
        assert(stepped.0.phase is Running);
        let rest = bodies.drop_first();
        assert(evs.drop_first() =~= body_events(rest));
        assert(forall|i: int| 0 <= i < rest.len() ==> rest[i] == bodies[i + 1]);
        lemma_pagination_no_dup_no_loss(stepped.0, rest);
        assert(spec_run(st, evs).emitted =~= flatten_records(bodies));
    }
}

/// The transport retry budget is respected: a driver fed nothing but
/// transport failures makes exactly `MAX_TRANSPORT_RETRIES + 1` fetch
/// attempts, counted from a fresh budget, emits nothing, and then fails with
/// the transport budget exhausted.
pub proof fn lemma_transport_retry_bound(st: DriverView, evs: Seq<FetchView>)
    requires
        st.phase is Running,
        st.transport_retries <= MAX_TRANSPORT_RETRIES,
        forall|i: int| 0 <= i < evs.len() ==> (#[trigger] evs[i]) is TransportError,
        st.transport_retries + evs.len() >= MAX_TRANSPORT_RETRIES + 1,
    ensures
        spec_run(st, evs).fetches == MAX_TRANSPORT_RETRIES + 1 - st.transport_retries,
        spec_run(st, evs).state.phase == DriverPhaseView::Fatal(
            TerminalErrorView::TransportRetriesExhausted,
        ),
        spec_run(st, evs).emitted == Seq::<RecordView>::empty(),
    decreases evs.len(),
{
    let stepped = spec_step(st, evs[0]);
    if st.transport_retries < MAX_TRANSPORT_RETRIES {
        lemma_transport_retry_bound(stepped.0, evs.drop_first());
        assert(spec_run(st, evs).emitted =~= Seq::<RecordView>::empty());
    } else {
        assert(spec_run(stepped.0, evs.drop_first()).fetches == 0);
        assert(spec_run(st, evs).emitted =~= Seq::<RecordView>::empty());
    }
}

/// A retried fetch re-fetches the same page: a transient failure that stays
/// within budget leaves the marker, the record count and the emitted records
/// untouched, so retries can neither duplicate nor lose records.
pub proof fn lemma_retry_keeps_marker(st: DriverView, ev: FetchView)
    requires
        st.phase is Running,
        spec_step(st, ev).1 is Backoff,
    ensures
        spec_step(st, ev).0.marker == st.marker,
        spec_step(st, ev).0.record_count == st.record_count,
        spec_step(st, ev).0.phase is Running,
        emitted_of(spec_step(st, ev).1) == Seq::<RecordView>::empty(),
{
}

/// The service retry budget is respected: a driver fed nothing but bodies
/// carrying service-reported errors makes exactly `MAX_SERVICE_RETRIES + 1`
/// fetch attempts, counted from a fresh budget, emits nothing, and then
/// fails with the service budget exhausted.
pub proof fn lemma_service_retry_bound(st: DriverView, evs: Seq<FetchView>)
    requires
        st.phase is Running,
        st.service_retries <= MAX_SERVICE_RETRIES,
        forall|i: int|
            0 <= i < evs.len() ==> match #[trigger] evs[i] {
                FetchView::Response(b) => spec_decode_page(b) matches PageView::ServiceError {
                    ..
                },
                _ => false,
            },
        st.service_retries + evs.len() >= MAX_SERVICE_RETRIES + 1,
    ensures
        spec_run(st, evs).fetches == MAX_SERVICE_RETRIES + 1 - st.service_retries,
        spec_run(st, evs).state.phase matches DriverPhaseView::Fatal(
            TerminalErrorView::ServiceRetriesExhausted { .. },
        ),
        spec_run(st, evs).emitted == Seq::<RecordView>::empty(),
    decreases evs.len(),
{
    let stepped = spec_step(st, evs[0]);
    if st.service_retries < MAX_SERVICE_RETRIES {
        lemma_service_retry_bound(stepped.0, evs.drop_first());
        assert(spec_run(st, evs).emitted =~= Seq::<RecordView>::empty());
    } else {
        assert(spec_run(stepped.0, evs.drop_first()).fetches == 0);
        assert(spec_run(st, evs).emitted =~= Seq::<RecordView>::empty());
    }
}

/// Whether a fetch outcome is a transient failure: a transport failure, or a
/// body carrying a service-reported error.
pub open spec fn is_transient(ev: FetchView) -> bool {
    match ev {
        FetchView::TransportError => true,
        FetchView::Response(b) => spec_decode_page(b) matches PageView::ServiceError { .. },
    }
}

/// How many of a run's fetch outcomes are transport failures.
pub open spec fn count_transport(evs: Seq<FetchView>) -> nat
    decreases evs.len(),
{
    if evs.len() == 0 {
        0
    } else {
        (if evs[0] is TransportError {
            1nat
        } else {
            0nat
        }) + count_transport(evs.drop_first())
    }
}

/// How many of a run's fetch outcomes carry a service-reported error.
pub open spec fn count_service(evs: Seq<FetchView>) -> nat
    decreases evs.len(),
{
    if evs.len() == 0 {
        0
    } else {
        (match evs[0] {
            FetchView::Response(b) => if spec_decode_page(b) matches PageView::ServiceError {
                ..
            } {
                1nat
            } else {
                0nat
            },
            _ => 0nat,
        }) + count_service(evs.drop_first())
    }
}

/// The two retry budgets are independent: after any interleaving of
/// transport failures and service-reported errors, each within its own
/// remaining budget, a final well-formed last page still completes the run:
/// the driver ends `Done` and emits exactly that page's records.
pub proof fn lemma_independent_retry_budgets(
    st: DriverView,
    errs: Seq<FetchView>,
    body: Seq<char>,
)
    requires
        st.phase is Running,
        forall|i: int| 0 <= i < errs.len() ==> is_transient(#[trigger] errs[i]),
        st.transport_retries + count_transport(errs) <= MAX_TRANSPORT_RETRIES,
        st.service_retries + count_service(errs) <= MAX_SERVICE_RETRIES,
        decodes_to_results(body),
        page_marker(body) is None,
    ensures
        spec_run(st, errs.push(FetchView::Response(body))).state.phase is Done,
        spec_run(st, errs.push(FetchView::Response(body))).fetches == errs.len() + 1,
        spec_run(st, errs.push(FetchView::Response(body))).emitted == page_records(body),
    decreases errs.len(),
{
    reveal_with_fuel(spec_run, 2);
    let evs = errs.push(FetchView::Response(body));
    if errs.len() == 0 {
        assert(evs[0] == FetchView::Response(body));
        let stepped = spec_step(st, evs[0]);
        assert(stepped.0.phase is Done);
        assert(spec_run(st, evs).emitted =~= page_records(body));
    } else {
        assert(evs[0] == errs[0]);
        assert(is_transient(errs[0]));
        let stepped = spec_step(st, evs[0]);
        assert(stepped.0.phase is Running);
        assert(emitted_of(stepped.1) =~= Seq::<RecordView>::empty());
        assert(evs.drop_first() =~= errs.drop_first().push(FetchView::Response(body)));
        assert(forall|i: int|
            0 <= i < errs.drop_first().len() ==> #[trigger] errs.drop_first()[i] == errs[i + 1]);
        lemma_independent_retry_budgets(stepped.0, errs.drop_first(), body);
        assert(spec_run(st, evs).emitted =~= page_records(body));
    }
}

/// What `DriverState::run_script` returns.
pub struct ScriptOutcome {
    pub state: DriverState,
    pub emitted: Vec<ObjectRecord>,
    pub fetches: usize,
}

impl DriverState {
    /// The state a target's pagination starts in.
    pub fn new() -> (r: DriverState)
        ensures
            r@ == driver_init(),
    {
        DriverState {
            marker: Option::None,
            transport_retries: 0,
            service_retries: 0,
            record_count: 0,
            phase: DriverPhase::Running,
        }
    }

    /// Whether the driver still has pages to fetch.
    pub fn is_running(&self) -> (r: bool)
        ensures
            r == (self@.phase is Running),
    {
        match &self.phase {
            DriverPhase::Running => true,
            _ => false,
        }
    }

    /// Consume one fetch outcome and say what to do next.
    pub fn step(&mut self, ev: FetchOutcome) -> (act: StepAction)
        requires
            old(self)@.phase is Running,
        ensures
            final(self)@ == spec_step(old(self)@, ev@).0,
            act@ == spec_step(old(self)@, ev@).1,
    {
        match ev {
            FetchOutcome::TransportError => {
                if self.transport_retries < MAX_TRANSPORT_RETRIES {
                    self.transport_retries = self.transport_retries + 1;
                    StepAction::Backoff
                } else {
                    self.phase = DriverPhase::Fatal(TerminalError::TransportRetriesExhausted);
                    StepAction::Abort(TerminalError::TransportRetriesExhausted)
                }
            },
            FetchOutcome::Response(body) => {
                match decode_page(body.as_str()) {
                    ListingPage::Malformed { offset } => {
                        let e = TerminalError::MalformedPage { offset };
                        self.phase = DriverPhase::Fatal(e.duplicate());
                        StepAction::Abort(e)
                    },
                    ListingPage::ServiceError { code, message } => {
                        if self.service_retries < MAX_SERVICE_RETRIES {
                            self.service_retries = self.service_retries + 1;
                            StepAction::Backoff
                        } else {
                            let e = TerminalError::ServiceRetriesExhausted { code, message };
                            self.phase = DriverPhase::Fatal(e.duplicate());
                            StepAction::Abort(e)
                        }
                    },
                    ListingPage::Results { records, marker } => {
                        let n = records.len() as u64;
                        if self.record_count <= u64::MAX - n {
                            self.record_count = self.record_count + n;
                        } else {
                            self.record_count = u64::MAX;
                        }
                        let last = marker.is_none();
                        self.marker = marker;
                        if last {
                            self.phase = DriverPhase::Done;
                        }
                        StepAction::EmitPage { records, last }
                    },
                }
            },
        }
    }

    /// What one run of this driver over the fetch outcomes in `events`
    /// comes to; see `spec_run`.
    pub fn run_script(events: Vec<FetchOutcome>) -> (r: ScriptOutcome)
        ensures
            r.state@ == spec_run(driver_init(), events@.map_values(|e: FetchOutcome| e@)).state,
            r.emitted@.map_values(|x: ObjectRecord| x@) == spec_run(
                driver_init(),
                events@.map_values(|e: FetchOutcome| e@),
            ).emitted,
            r.fetches == spec_run(driver_init(), events@.map_values(|e: FetchOutcome| e@)).fetches,
    {
        let ghost full = events@.map_values(|e: FetchOutcome| e@);
        let mut evs = events;
        let total = evs.len();
        let mut st = DriverState::new();
        let mut emitted: Vec<ObjectRecord> = Vec::new();
        let mut fetches: usize = 0;
        while st.is_running() && evs.len() > 0
            invariant
                full.len() == total,
                fetches + evs@.len() <= full.len(),
                spec_run(driver_init(), full).state == spec_run(
                    st@,
                    evs@.map_values(|e: FetchOutcome| e@),
                ).state,
                spec_run(driver_init(), full).emitted =~= emitted@.map_values(
                    |x: ObjectRecord| x@,
                ) + spec_run(st@, evs@.map_values(|e: FetchOutcome| e@)).emitted,
                spec_run(driver_init(), full).fetches == fetches + spec_run(
                    st@,
                    evs@.map_values(|e: FetchOutcome| e@),
                ).fetches,
            decreases evs@.len(),
        {
            let ghost rem = evs@.map_values(|e: FetchOutcome| e@);
            let ev = evs.remove(0);
            proof {
                assert(evs@.map_values(|e: FetchOutcome| e@) =~= rem.drop_first());
                assert(rem[0] == ev@);
            }
            let act = st.step(ev);
            match act {
                StepAction::EmitPage { mut records, .. } => {
                    proof {
                        assert((emitted@ + records@).map_values(|x: ObjectRecord| x@)
                            =~= emitted@.map_values(|x: ObjectRecord| x@) + records@.map_values(
                            |x: ObjectRecord| x@,
                        ));
                    }
                    emitted.append(&mut records);
                },
                _ => {},
            }
            fetches = fetches + 1;
        }
        proof {
            assert(spec_run(st@, evs@.map_values(|e: FetchOutcome| e@)).emitted =~= Seq::<
                RecordView,
            >::empty());
            assert(spec_run(driver_init(), full).emitted =~= emitted@.map_values(
                |x: ObjectRecord| x@,
            ));
        }
        ScriptOutcome { state: st, emitted, fetches }
    }

    /// The target's final state; defined once the driver has halted.
    pub fn result(&self) -> (r: TargetResult)
        requires
            !(self@.phase is Running),
        ensures
            r@.record_count == self@.record_count,
            (self@.phase is Done ==> r@.error is None),
            (self@.phase matches DriverPhaseView::Fatal(e) ==> r@.error == Option::Some(e)),
    {
        match &self.phase {
            DriverPhase::Done => TargetResult {
                record_count: self.record_count,
                error: Option::None,
            },
            DriverPhase::Fatal(e) => TargetResult {
                record_count: self.record_count,
                error: Option::Some(e.duplicate()),
            },
            DriverPhase::Running => TargetResult {
                record_count: self.record_count,
                error: Option::None,
            },
        }
    }
}

} // verus!
