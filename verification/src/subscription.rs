//! The subscription loop as a state machine.
//!
//! The machine holds the configuration of a run and the state of its
//! connection. The caller owns the connections: it performs each request the
//! machine makes and hands the outcome back as the next input. One batch is
//! handled at a time, from its arrival to its settlement, before the next is
//! asked for.

use vstd::prelude::*;
use crate::classifier::{first_kind, InstructionKind};
use crate::error::EventError;
use crate::filter::{reported, watches, TargetView, WatchTarget};
use crate::mint::{decode_mint, decoded_mint, AccountView, FetchedAccount, MintInfo, MintView};
use crate::pipeline::{
    batch_event, batch_plan, decoded_signature, plan_batch, settle, settled, BatchPlan, BatchView,
    Event, EventView, LogBatch, PlanView, Settlement, SettlementView,
};
use crate::signature::TxSignature;
use crate::transaction::{
    query_for, query_of, resolved, Commitment, FetchedTransaction, QueryView, TransactionQuery,
    TransactionView,
};

verus! {

/// The configuration of a run, set once at startup.
#[derive(Clone, Debug, PartialEq, Eq)]
pub struct WatchConfig {
    pub websocket_endpoint: String,
    pub rpc_endpoint: String,
    /// Address of the program whose logs are subscribed to.
    pub program_id: String,
    pub target: WatchTarget,
}

/// The mathematical form of a `WatchConfig`.
pub struct ConfigView {
    pub websocket_endpoint: Seq<char>,
    pub rpc_endpoint: Seq<char>,
    pub program_id: Seq<char>,
    pub target: TargetView,
}

impl View for WatchConfig {
    type V = ConfigView;

    open spec fn view(&self) -> ConfigView {
        ConfigView {
            websocket_endpoint: self.websocket_endpoint@,
            rpc_endpoint: self.rpc_endpoint@,
            program_id: self.program_id@,
            target: self.target@,
        }
    }
}

/// What a streaming loop is busy with.
#[derive(Clone, Copy, Debug, PartialEq, Eq)]
pub enum Work {
    /// Nothing: the next batch is awaited.
    Idle,
    /// The transaction of a planned batch is awaited.
    Resolving { kind: InstructionKind, signature: TxSignature },
    /// The account of a newly created mint is awaited.
    Enriching,
}

/// The mathematical form of `Work`.
pub enum WorkView {
    Idle,
    Resolving { kind: InstructionKind, signature: Seq<u8> },
    Enriching,
}

impl View for Work {
    type V = WorkView;

    open spec fn view(&self) -> WorkView {
        match self {
            Work::Idle => WorkView::Idle,
            Work::Resolving { kind, signature } => WorkView::Resolving {
                kind: *kind,
                signature: signature@,
            },
            Work::Enriching => WorkView::Enriching,
        }
    }
}

/// The state of the subscription loop.
#[derive(Clone, Copy, Debug, PartialEq, Eq)]
pub enum LoopState {
    /// No subscription. `failures` counts the attempts and streams that have
    /// failed since a subscription was last established.
    Disconnected { failures: u32 },
    /// A subscription has been asked for.
    Subscribing { failures: u32 },
    /// The subscription delivers batches.
    Streaming(Work),
    /// The run has ended.
    Stopped,
}

/// The mathematical form of a `LoopState`.
pub enum StateView {
    Disconnected { failures: u32 },
    Subscribing { failures: u32 },
    Streaming(WorkView),
    Stopped,
}

impl View for LoopState {
    type V = StateView;

    open spec fn view(&self) -> StateView {
        match self {
            LoopState::Disconnected { failures } => StateView::Disconnected { failures: *failures },
            LoopState::Subscribing { failures } => StateView::Subscribing { failures: *failures },
            LoopState::Streaming(work) => StateView::Streaming(work@),
            LoopState::Stopped => StateView::Stopped,
        }
    }
}

/// What the caller hands to the machine.
#[derive(Clone, Debug, PartialEq, Eq)]
pub enum LoopInput {
    /// It is time to establish the subscription.
    Connect,
    /// The subscription is established.
    Subscribed,
    /// The subscription could not be established, or its stream was lost.
    TransportFailed,
    /// The subscription delivered a batch.
    Batch(LogBatch),
    /// The transaction query was answered.
    Transaction(FetchedTransaction),
    /// The account query was answered.
    MintAccount(FetchedAccount),
    /// The run is to end.
    Shutdown,
}

/// The mathematical form of a `LoopInput`.
pub enum InputView {
    Connect,
    Subscribed,
    TransportFailed,
    Batch(BatchView),
    Transaction(TransactionView),
    MintAccount(AccountView),
    Shutdown,
}

impl View for LoopInput {
    type V = InputView;

    open spec fn view(&self) -> InputView {
        match self {
            LoopInput::Connect => InputView::Connect,
            LoopInput::Subscribed => InputView::Subscribed,
            LoopInput::TransportFailed => InputView::TransportFailed,
            LoopInput::Batch(batch) => InputView::Batch(batch@),
            LoopInput::Transaction(fetched) => InputView::Transaction(fetched@),
            LoopInput::MintAccount(fetched) => InputView::MintAccount(fetched@),
            LoopInput::Shutdown => InputView::Shutdown,
        }
    }
}

/// What the machine asks the caller to do next.
#[derive(Clone, Debug, PartialEq, Eq)]
pub enum Request {
    /// Nothing new: the input was not awaited, and what was asked for before
    /// still stands.
    Nothing,
    /// Stop: there is no connection to release.
    Halt,
    /// Wait for the delay, then hand in `Connect`.
    Reconnect { delay_secs: u64 },
    /// Subscribe to the logs that mention the program; hand in `Subscribed`
    /// or `TransportFailed`.
    Subscribe { program_id: String, commitment: Commitment },
    /// Await the next batch; hand in `Batch` or `TransportFailed`.
    NextBatch,
    /// Fetch a transaction; hand in `Transaction`.
    Transaction(TransactionQuery),
    /// Fetch the account of a mint; hand in `MintAccount`.
    MintAccount { address: String },
    /// Unsubscribe, release the connection and stop.
    Unsubscribe,
}

/// The mathematical form of a `Request`.
pub enum RequestView {
    Nothing,
    Halt,
    Reconnect { delay_secs: u64 },
    Subscribe { program_id: Seq<char>, commitment: Commitment },
    NextBatch,
    Transaction(QueryView),
    MintAccount { address: Seq<char> },
    Unsubscribe,
}

impl View for Request {
    type V = RequestView;

    open spec fn view(&self) -> RequestView {
        match self {
            Request::Nothing => RequestView::Nothing,
            Request::Halt => RequestView::Halt,
            Request::Reconnect { delay_secs } => RequestView::Reconnect { delay_secs: *delay_secs },
            Request::Subscribe { program_id, commitment } => RequestView::Subscribe {
                program_id: program_id@,
                commitment: *commitment,
            },
            Request::NextBatch => RequestView::NextBatch,
            Request::Transaction(query) => RequestView::Transaction(query@),
            Request::MintAccount { address } => RequestView::MintAccount { address: address@ },
            Request::Unsubscribe => RequestView::Unsubscribe,
        }
    }
}

/// What the machine has to tell after one input.
#[derive(Clone, Debug, PartialEq, Eq)]
pub enum Notice {
    Silent,
    /// An instruction was detected and resolved.
    Detected(Event),
    /// The mint of the creation just detected was read.
    Enriched(MintInfo),
    /// A detected instruction was dropped.
    Dropped(EventError),
    /// The mint of the creation just detected could not be read.
    EnrichmentFailed(EventError),
    /// The subscription was lost or could not be established.
    TransportLost,
}

/// The mathematical form of a `Notice`.
pub enum NoticeView {
    Silent,
    Detected(EventView),
    Enriched(MintView),
    Dropped(EventError),
    EnrichmentFailed(EventError),
    TransportLost,
}

impl View for Notice {
    type V = NoticeView;

    open spec fn view(&self) -> NoticeView {
        match self {
            Notice::Silent => NoticeView::Silent,
            Notice::Detected(event) => NoticeView::Detected(event@),
            Notice::Enriched(info) => NoticeView::Enriched(info@),
            Notice::Dropped(error) => NoticeView::Dropped(*error),
            Notice::EnrichmentFailed(error) => NoticeView::EnrichmentFailed(*error),
            Notice::TransportLost => NoticeView::TransportLost,
        }
    }
}

/// The machine's answer to one input.
#[derive(Clone, Debug, PartialEq, Eq)]
pub struct Step {
    pub notice: Notice,
    pub request: Request,
}

/// The mathematical form of a `Step`.
pub struct StepView {
    pub notice: NoticeView,
    pub request: RequestView,
}

impl View for Step {
    type V = StepView;

    open spec fn view(&self) -> StepView {
        StepView { notice: self.notice@, request: self.request@ }
    }
}

/// Longest wait before a reconnection, in seconds.
pub const MAX_RETRY_DELAY_SECS: u64 = 60;

/// The wait before reconnecting after `failures` failures in a row: one
/// second after the first, twice the previous wait after each further one,
/// and never more than `MAX_RETRY_DELAY_SECS`.
pub open spec fn retry_delay(failures: nat) -> nat
    decreases failures,
{
    if failures <= 1 {
        1
    } else if 2 * retry_delay((failures - 1) as nat) > MAX_RETRY_DELAY_SECS {
        MAX_RETRY_DELAY_SECS as nat
    } else {
        2 * retry_delay((failures - 1) as nat)
    }
}

/// The wait lies between one second and the maximum, and does not shrink as
/// failures add up.
pub proof fn lemma_retry_delay_bounded_and_monotonic(fewer: nat, more: nat)
    requires
        fewer <= more,
    ensures
        1 <= retry_delay(fewer) <= retry_delay(more) <= MAX_RETRY_DELAY_SECS,
    decreases more,
{
    if more > 1 {
        if fewer < more {
            lemma_retry_delay_bounded_and_monotonic(fewer, (more - 1) as nat);
        } else {
            lemma_retry_delay_bounded_and_monotonic((more - 1) as nat, (more - 1) as nat);
        }
    }
}

/// Computes the wait before reconnecting after `failures` failures in a row.
pub fn retry_delay_secs(failures: u32) -> (delay: u64)
    ensures
        delay == retry_delay(failures as nat),
        1 <= delay <= MAX_RETRY_DELAY_SECS,
{
    let mut delay: u64 = 1;
    let mut counted: u32 = 1;
    while counted < failures && delay < MAX_RETRY_DELAY_SECS
        invariant
            1 <= counted,
            counted <= failures || (failures == 0 && counted == 1),
            delay == retry_delay(counted as nat),
            1 <= delay <= MAX_RETRY_DELAY_SECS,
        decreases failures - counted,
    {
        counted += 1;
        delay = if delay * 2 > MAX_RETRY_DELAY_SECS {
            MAX_RETRY_DELAY_SECS
        } else {
            delay * 2
        };
    }
    proof {
        if counted < failures {
            lemma_retry_delay_bounded_and_monotonic(counted as nat, failures as nat);
        }
    }
    delay
}

/// The failure count after one more failure. It stops at the largest value
/// it can hold.
pub open spec fn one_more(failures: u32) -> u32 {
    if failures == u32::MAX {
        failures
    } else {
        (failures + 1) as u32
    }
}

/// The answer to an input that the state does not await: nothing changes.
pub open spec fn ignored(state: StateView) -> (StateView, StepView) {
    (state, StepView { notice: NoticeView::Silent, request: RequestView::Nothing })
}

/// The state after a failure that leaves `failures` failures in a row, with
/// the request to reconnect after the wait that goes with that count.
pub open spec fn disconnected(failures: u32) -> (StateView, StepView) {
    (
        StateView::Disconnected { failures },
        StepView {
            notice: NoticeView::TransportLost,
            request: RequestView::Reconnect { delay_secs: retry_delay(failures as nat) as u64 },
        },
    )
}

/// The return to an idle stream, with a notice.
pub open spec fn idle_with(notice: NoticeView) -> (StateView, StepView) {
    (StateView::Streaming(WorkView::Idle), StepView { notice, request: RequestView::NextBatch })
}

/// The answer of an idle stream to the plan for the batch that arrived: a
/// skipped batch passes in silence, a dropped one with a notice, and for a
/// batch to resolve the transaction is asked for.
pub open spec fn after_plan(plan: PlanView) -> (StateView, StepView) {
    match plan {
        PlanView::Skip => idle_with(NoticeView::Silent),
        PlanView::Drop(error) => idle_with(NoticeView::Dropped(error)),
        PlanView::Resolve { kind, signature } => (
            StateView::Streaming(WorkView::Resolving { kind, signature }),
            StepView {
                notice: NoticeView::Silent,
                request: RequestView::Transaction(query_of(signature)),
            },
        ),
    }
}

/// The answer of a resolving stream to the settlement of its batch. A
/// detected event is told. For a creation watch the account of the reported
/// mint is asked for next; in every other case the next batch is.
pub open spec fn after_settlement(target: TargetView, settlement: SettlementView) -> (
    StateView,
    StepView,
) {
    match settlement {
        SettlementView::Dropped(error) => idle_with(NoticeView::Dropped(error)),
        SettlementView::FilteredOut => idle_with(NoticeView::Silent),
        SettlementView::Detected(event) => match (target, event.mint_address) {
            (TargetView::AnyCreation, Some(address)) => (
                StateView::Streaming(WorkView::Enriching),
                StepView {
                    notice: NoticeView::Detected(event),
                    request: RequestView::MintAccount { address },
                },
            ),
            _ => idle_with(NoticeView::Detected(event)),
        },
    }
}

/// The answer of an enriching stream to the account that was fetched.
pub open spec fn after_account(fetched: AccountView) -> (StateView, StepView) {
    match decoded_mint(fetched) {
        Ok(mint) => idle_with(NoticeView::Enriched(mint)),
        Err(error) => idle_with(NoticeView::EnrichmentFailed(error)),
    }
}

/// The answer of a state to the plan for a batch that was delivered: an idle
/// stream acts on the plan, every other state ignores the batch.
pub open spec fn planned_transition(state: StateView, plan: PlanView) -> (StateView, StepView) {
    if state == StateView::Streaming(WorkView::Idle) {
        after_plan(plan)
    } else {
        ignored(state)
    }
}

/// The transition function of the subscription loop: the state that follows
/// `state` on `input`, and the machine's answer.
///
/// A stopped machine stays stopped. Shutdown stops every other state, and
/// asks for the subscription to be released where one exists or is being
/// established. A transport failure disconnects and asks for a reconnection
/// after a wait. Every other input acts in the one state that awaits it and
/// is ignored elsewhere.
pub open spec fn transition(config: ConfigView, state: StateView, input: InputView) -> (
    StateView,
    StepView,
) {
    match (state, input) {
        (StateView::Stopped, _) => (
            StateView::Stopped,
            StepView { notice: NoticeView::Silent, request: RequestView::Halt },
        ),
        (StateView::Disconnected { .. }, InputView::Shutdown) => (
            StateView::Stopped,
            StepView { notice: NoticeView::Silent, request: RequestView::Halt },
        ),
        (_, InputView::Shutdown) => (
            StateView::Stopped,
            StepView { notice: NoticeView::Silent, request: RequestView::Unsubscribe },
        ),
        (StateView::Subscribing { failures }, InputView::TransportFailed) => disconnected(
            one_more(failures),
        ),
        (StateView::Streaming(_), InputView::TransportFailed) => disconnected(1),
        (StateView::Disconnected { failures }, InputView::Connect) => (
            StateView::Subscribing { failures },
            StepView {
                notice: NoticeView::Silent,
                request: RequestView::Subscribe {
                    program_id: config.program_id,
                    commitment: Commitment::Confirmed,
                },
            },
        ),
        (StateView::Subscribing { .. }, InputView::Subscribed) => idle_with(NoticeView::Silent),
        (StateView::Streaming(WorkView::Idle), InputView::Batch(batch)) => after_plan(
            batch_plan(config.target, batch),
        ),
        (
            StateView::Streaming(WorkView::Resolving { kind, signature }),
            InputView::Transaction(fetched),
        ) => after_settlement(config.target, settled(config.target, kind, signature, fetched)),
        (StateView::Streaming(WorkView::Enriching), InputView::MintAccount(fetched)) => after_account(
            fetched,
        ),
        _ => ignored(state),
    }
}

/// What each request leaves the machine waiting for: the state after a
/// transition is the one that awaits the outcome of the request made.
pub proof fn lemma_request_matches_state(config: ConfigView, state: StateView, input: InputView)
    ensures
        ({
            let (next, step) = transition(config, state, input);
            match step.request {
                RequestView::Nothing => next == state,
                RequestView::Halt => next is Stopped,
                RequestView::Unsubscribe => next is Stopped,
                RequestView::Reconnect { delay_secs } => {
                    &&& next matches StateView::Disconnected { failures }
                    &&& failures >= 1
                    &&& delay_secs == retry_delay(failures as nat)
                },
                RequestView::Subscribe { program_id, commitment } => {
                    &&& next is Subscribing
                    &&& program_id == config.program_id
                    &&& commitment == Commitment::Confirmed
                },
                RequestView::NextBatch => next == StateView::Streaming(WorkView::Idle),
                RequestView::Transaction(query) => {
                    &&& next matches StateView::Streaming(WorkView::Resolving { kind, signature })
                    &&& query == query_of(signature)
                },
                RequestView::MintAccount { address } => {
                    &&& next == StateView::Streaming(WorkView::Enriching)
                    &&& step.notice matches NoticeView::Detected(event)
                    &&& event.mint_address == Some(address)
                },
            }
        }),
{
    if let StateView::Subscribing { failures } = state {
        lemma_retry_delay_bounded_and_monotonic(one_more(failures) as nat, one_more(failures) as nat);
    }
    lemma_retry_delay_bounded_and_monotonic(1, 1);
}

/// A transaction is asked for only when an idle stream receives a batch whose
/// first recognized kind the target watches and whose signature is valid; the
/// query then carries the decoded signature.
pub proof fn lemma_transaction_asked_for_valid_signature_only(
    config: ConfigView,
    state: StateView,
    input: InputView,
)
    ensures
        transition(config, state, input).1.request matches RequestView::Transaction(query) ==> {
            &&& state == StateView::Streaming(WorkView::Idle)
            &&& input matches InputView::Batch(batch)
            &&& watches(config.target, first_kind(batch.lines))
            &&& decoded_signature(batch.signature) == Ok::<Seq<u8>, EventError>(
                query.signature,
            )
        },
{
}

/// What goes wrong with one event stays with that event: on a batch, a
/// fetched transaction or a fetched account, a streaming loop goes on
/// streaming, whatever the input holds.
pub proof fn lemma_event_failures_are_contained(
    config: ConfigView,
    state: StateView,
    input: InputView,
)
    requires
        state is Streaming,
        input is Batch || input is Transaction || input is MintAccount,
    ensures
        transition(config, state, input).0 is Streaming,
        ({
            let request = transition(config, state, input).1.request;
            request is Nothing || request is NextBatch || request is Transaction
                || request is MintAccount
        }),
{
}

/// Only a shutdown stops the loop: whatever else is handed in, a loop that
/// was not stopped is not stopped afterwards.
pub proof fn lemma_only_shutdown_stops(config: ConfigView, state: StateView, input: InputView)
    requires
        !(state is Stopped),
        !(input is Shutdown),
    ensures
        !(transition(config, state, input).0 is Stopped),
{
}

/// An event is told only by a stream that was resolving a batch, on the
/// transaction fetched for it. It has the kind and the signature that the
/// stream was resolving, a kind that the target watches, and the address that
/// the account keys of the transaction report.
pub proof fn lemma_events_come_from_resolved_batches(
    config: ConfigView,
    state: StateView,
    input: InputView,
)
    ensures
        transition(config, state, input).1.notice matches NoticeView::Detected(event) ==> {
            &&& state matches StateView::Streaming(WorkView::Resolving { kind, signature })
            &&& input matches InputView::Transaction(fetched)
            &&& event.kind == kind
            &&& event.signature == signature
            &&& watches(config.target, kind)
            &&& resolved(fetched) matches Ok(keys)
            &&& event.mint_address == reported(keys, config.target)
            &&& event.mint_address is Some
        },
{
}

/// A transport failure never ends the run: every state but the stopped one
/// is followed by a state that is not stopped, and a loop that was
/// subscribing or streaming is asked to reconnect.
pub proof fn lemma_transport_failure_reconnects(config: ConfigView, state: StateView)
    requires
        !(state is Stopped),
    ensures
        !(transition(config, state, InputView::TransportFailed).0 is Stopped),
        state is Subscribing || state is Streaming ==> transition(
            config,
            state,
            InputView::TransportFailed,
        ).1.request is Reconnect,
{
}

/// A batch and the transaction fetched for it, handed to an idle stream one
/// after the other, tell exactly the event of that batch: nothing is told on
/// the batch itself, and the stream is idle or enriching afterwards.
pub proof fn lemma_batch_tells_its_event(
    config: ConfigView,
    batch: BatchView,
    fetched: TransactionView,
)
    ensures
        ({
            let idle = StateView::Streaming(WorkView::Idle);
            let (resolving, first) = transition(config, idle, InputView::Batch(batch));
            let (settling, second) = transition(config, resolving, InputView::Transaction(fetched));
            &&& !(first.notice is Detected)
            &&& first.request is Transaction <==> batch_plan(config.target, batch) is Resolve
            &&& first.request is Transaction ==> (match batch_event(
                config.target,
                batch,
                fetched,
            ) {
                Some(event) => second.notice == NoticeView::Detected(event),
                None => !(second.notice is Detected),
            })
            &&& !(first.request is Transaction) ==> resolving == idle && second == ignored(idle).1
            &&& settling is Streaming && !(settling->Streaming_0 is Resolving)
        }),
{
}

/// The subscription loop of one run.
pub struct SubscriptionLoop {
    config: WatchConfig,
    state: LoopState,
}

/// The mathematical form of a `SubscriptionLoop`.
pub struct LoopView {
    pub config: ConfigView,
    pub state: StateView,
}

impl View for SubscriptionLoop {
    type V = LoopView;

    closed spec fn view(&self) -> LoopView {
        LoopView { config: self.config@, state: self.state@ }
    }
}

impl SubscriptionLoop {
    /// A loop for the given configuration, not yet connected.
    pub fn new(config: WatchConfig) -> (machine: SubscriptionLoop)
        ensures
            machine@ == (LoopView {
                config: config@,
                state: StateView::Disconnected { failures: 0 },
            }),
    {
        SubscriptionLoop { config, state: LoopState::Disconnected { failures: 0 } }
    }

    /// The configuration of the run.
    pub fn config(&self) -> (config: &WatchConfig)
        ensures
            config@ == self@.config,
    {
        &self.config
    }

    /// The current state.
    pub fn state(&self) -> (state: LoopState)
        ensures
            state@ == self@.state,
    {
        self.state
    }

    /// Whether the run has ended.
    pub fn is_stopped(&self) -> (stopped: bool)
        ensures
            stopped == (self@.state is Stopped),
    {
        match self.state {
            LoopState::Stopped => true,
            _ => false,
        }
    }

    fn ignore(&self) -> (step: Step)
        ensures
            (self@.state, step@) == ignored(self@.state),
    {
        Step { notice: Notice::Silent, request: Request::Nothing }
    }

    fn disconnect(&mut self, failures: u32) -> (step: Step)
        ensures
            final(self)@.config == old(self)@.config,
            (final(self)@.state, step@) == disconnected(failures),
    {
        self.state = LoopState::Disconnected { failures };
        Step {
            notice: Notice::TransportLost,
            request: Request::Reconnect { delay_secs: retry_delay_secs(failures) },
        }
    }

    fn idle(&mut self, notice: Notice) -> (step: Step)
        ensures
            final(self)@.config == old(self)@.config,
            (final(self)@.state, step@) == idle_with(notice@),
    {
        self.state = LoopState::Streaming(Work::Idle);
        Step { notice, request: Request::NextBatch }
    }

    /// Takes the plan for a batch that the subscription delivered. An idle
    /// stream acts on it; in every other state the batch was not awaited and
    /// is ignored.
    pub fn take_plan(&mut self, plan: BatchPlan) -> (step: Step)
        ensures
            final(self)@.config == old(self)@.config,
            (final(self)@.state, step@) == planned_transition(old(self)@.state, plan@),
    {
        match self.state {
            LoopState::Streaming(Work::Idle) => {},
            _ => {
                return self.ignore();
            },
        }
        match plan {
            BatchPlan::Skip => self.idle(Notice::Silent),
            BatchPlan::Drop(error) => self.idle(Notice::Dropped(error)),
            BatchPlan::Resolve { kind, signature } => {
                self.state = LoopState::Streaming(Work::Resolving { kind, signature });
                Step { notice: Notice::Silent, request: Request::Transaction(query_for(signature)) }
            },
        }
    }

    fn take_settlement(&mut self, settlement: Settlement) -> (step: Step)
        ensures
            final(self)@.config == old(self)@.config,
            (final(self)@.state, step@) == after_settlement(old(self)@.config.target, settlement@),
    {
        match settlement {
            Settlement::Dropped(error) => self.idle(Notice::Dropped(error)),
            Settlement::FilteredOut => self.idle(Notice::Silent),
            Settlement::Detected(event) => {
                let enrich: Option<String> = match (&self.config.target, &event.mint_address) {
                    (WatchTarget::AnyCreation, Some(address)) => Some(address.clone()),
                    _ => None,
                };
                match enrich {
                    Some(address) => {
                        self.state = LoopState::Streaming(Work::Enriching);
                        Step {
                            notice: Notice::Detected(event),
                            request: Request::MintAccount { address },
                        }
                    },
                    None => self.idle(Notice::Detected(event)),
                }
            },
        }
    }

    /// Advances the loop by one input and says what to do next.
    pub fn step(&mut self, input: LoopInput) -> (step: Step)
        ensures
            final(self)@.config == old(self)@.config,
            (final(self)@.state, step@) == transition(old(self)@.config, old(self)@.state, input@),
    {
        let state = self.state;
        match (state, input) {
            (LoopState::Stopped, _) => Step { notice: Notice::Silent, request: Request::Halt },
            (LoopState::Disconnected { .. }, LoopInput::Shutdown) => {
                self.state = LoopState::Stopped;
                Step { notice: Notice::Silent, request: Request::Halt }
            },
            (_, LoopInput::Shutdown) => {
                self.state = LoopState::Stopped;
                Step { notice: Notice::Silent, request: Request::Unsubscribe }
            },
            (LoopState::Subscribing { failures }, LoopInput::TransportFailed) => {
                let count: u32 = if failures == u32::MAX {
                    failures
                } else {
                    failures + 1
                };
                self.disconnect(count)
            },
            (LoopState::Streaming(_), LoopInput::TransportFailed) => self.disconnect(1),
            (LoopState::Disconnected { failures }, LoopInput::Connect) => {
                self.state = LoopState::Subscribing { failures };
                Step {
                    notice: Notice::Silent,
                    request: Request::Subscribe {
                        program_id: self.config.program_id.clone(),
                        commitment: Commitment::Confirmed,
                    },
                }
            },
            (LoopState::Subscribing { .. }, LoopInput::Subscribed) => self.idle(Notice::Silent),
            (LoopState::Streaming(Work::Idle), LoopInput::Batch(batch)) => {
                let plan = plan_batch(&self.config.target, &batch);
                self.take_plan(plan)
            },
            (
                LoopState::Streaming(Work::Resolving { kind, signature }),
                LoopInput::Transaction(fetched),
            ) => {
                let settlement = settle(&self.config.target, kind, signature, fetched);
                self.take_settlement(settlement)
            },
            (LoopState::Streaming(Work::Enriching), LoopInput::MintAccount(fetched)) => {
                match decode_mint(&fetched) {
                    Ok(info) => self.idle(Notice::Enriched(info)),
                    Err(error) => self.idle(Notice::EnrichmentFailed(error)),
                }
            },
            _ => self.ignore(),
        }
    }
}

} // verus!
