use vstd::prelude::*;
use crate::error::{other, result_view, Error, ErrorModel};

verus! {

/// One of the two event subscriptions that a device holds.
#[derive(Clone, Copy, Debug, PartialEq, Eq, Structural)]
pub enum Subscription {
    /// Connection-status transitions of the device handle.
    ConnectionStatus,
    /// Changes of the negotiated maximum PDU size of the GATT session.
    MaxPduSize,
}

/// Where the construction of a device stands.
#[derive(Clone, Copy, Debug, PartialEq, Eq, Structural)]
pub enum SetupStage {
    /// Resolving the address to a device handle.
    Resolving,
    /// Establishing a GATT session keyed by the device's identifier.
    OpeningSession,
    /// Registering the connection-status handler.
    SubscribingStatus,
    /// Handing the current maximum PDU size to the consumer.
    ReportingPdu,
    /// Registering the maximum-PDU-size handler.
    SubscribingPdu,
    /// Releasing the connection-status handler after a later step failed.
    RollingBack,
    /// Construction succeeded.
    Ready,
    /// Resolution or session establishment failed.
    Unreachable,
    /// A handler registration failed; any handler registered before it has
    /// been unregistered, as far as the platform allowed.
    Refused(Subscription),
}

/// What the caller must do next to construct a device.
#[derive(Debug, PartialEq, Eq)]
pub enum SetupAction {
    /// Resolve the address to a device handle.
    Resolve,
    /// Establish a session for the resolved device.
    OpenSession,
    /// Register the connection-status handler on the device handle.
    SubscribeStatus,
    /// Read the session's current maximum PDU size and hand it to the
    /// consumer's callback.
    ReportInitialPdu,
    /// Register the maximum-PDU-size handler on the session.
    SubscribePdu,
    /// Unregister the connection-status handler.
    UnsubscribeStatus,
    /// Construction is over, with this result.
    Finish(Result<(), Error>),
}

/// What a `SetupAction` says, with its error seen through the error's view.
pub enum SetupActionModel {
    Resolve,
    OpenSession,
    SubscribeStatus,
    ReportInitialPdu,
    SubscribePdu,
    UnsubscribeStatus,
    Finish(Result<(), ErrorModel>),
}

impl View for SetupAction {
    type V = SetupActionModel;

    open spec fn view(&self) -> SetupActionModel {
        match self {
            SetupAction::Resolve => SetupActionModel::Resolve,
            SetupAction::OpenSession => SetupActionModel::OpenSession,
            SetupAction::SubscribeStatus => SetupActionModel::SubscribeStatus,
            SetupAction::ReportInitialPdu => SetupActionModel::ReportInitialPdu,
            SetupAction::SubscribePdu => SetupActionModel::SubscribePdu,
            SetupAction::UnsubscribeStatus => SetupActionModel::UnsubscribeStatus,
            SetupAction::Finish(r) => SetupActionModel::Finish(result_view(*r)),
        }
    }
}

/// The diagnostic of a refused handler registration.
pub open spec fn refusal_message(sub: Subscription) -> Seq<char> {
    match sub {
        Subscription::ConnectionStatus => "could not add the connection status handler"@,
        Subscription::MaxPduSize => "could not add the max PDU size changed handler"@,
    }
}

/// The stage that follows `s` when its step reported `ok`.
pub open spec fn next_stage(s: SetupStage, ok: bool) -> SetupStage {
    match s {
        SetupStage::Resolving => if ok { SetupStage::OpeningSession } else { SetupStage::Unreachable },
        SetupStage::OpeningSession => if ok { SetupStage::SubscribingStatus } else { SetupStage::Unreachable },
        SetupStage::SubscribingStatus => if ok {
            SetupStage::ReportingPdu
        } else {
            SetupStage::Refused(Subscription::ConnectionStatus)
        },
        SetupStage::ReportingPdu => SetupStage::SubscribingPdu,
        SetupStage::SubscribingPdu => if ok { SetupStage::Ready } else { SetupStage::RollingBack },
        SetupStage::RollingBack => SetupStage::Refused(Subscription::MaxPduSize),
        _ => s,
    }
}

/// The action that a stage asks for.
pub open spec fn stage_action(s: SetupStage) -> SetupActionModel {
    match s {
        SetupStage::Resolving => SetupActionModel::Resolve,
        SetupStage::OpeningSession => SetupActionModel::OpenSession,
        SetupStage::SubscribingStatus => SetupActionModel::SubscribeStatus,
        SetupStage::ReportingPdu => SetupActionModel::ReportInitialPdu,
        SetupStage::SubscribingPdu => SetupActionModel::SubscribePdu,
        SetupStage::RollingBack => SetupActionModel::UnsubscribeStatus,
        SetupStage::Ready => SetupActionModel::Finish(Ok(())),
        SetupStage::Unreachable => SetupActionModel::Finish(Err(ErrorModel::DeviceNotFound)),
        SetupStage::Refused(sub) => SetupActionModel::Finish(
            Err(ErrorModel::Other(refusal_message(sub))),
        ),
    }
}

/// The event handlers registered with the platform at a stage. A handler
/// counts as released once its unregistration has been attempted: that
/// step is best-effort, and its failure cannot be acted on.
pub open spec fn registered(s: SetupStage) -> Set<Subscription> {
    match s {
        SetupStage::ReportingPdu | SetupStage::SubscribingPdu | SetupStage::RollingBack => set![
            Subscription::ConnectionStatus,
        ],
        SetupStage::Ready => set![Subscription::ConnectionStatus, Subscription::MaxPduSize],
        _ => Set::empty(),
    }
}

/// The stage reached from the start when the steps report `outcomes` in turn.
pub open spec fn run(outcomes: Seq<bool>) -> SetupStage
    decreases outcomes.len(),
{
    if outcomes.len() == 0 {
        SetupStage::Resolving
    } else {
        next_stage(run(outcomes.drop_last()), outcomes.last())
    }
}

/// Construction of a device, one platform step at a time.
///
/// The caller performs each action that `action` or `advance` names and
/// reports with `advance` whether it succeeded.
pub struct Setup {
    stage: SetupStage,
}

impl Setup {
    pub closed spec fn stage(&self) -> SetupStage {
        self.stage
    }

    /// A construction that has not started; its first action is `Resolve`.
    pub fn new() -> (r: Setup)
        ensures
            r.stage() == SetupStage::Resolving,
    {
        Setup { stage: SetupStage::Resolving }
    }

    pub fn current_stage(&self) -> (r: SetupStage)
        ensures
            r == self.stage(),
    {
        self.stage
    }

    /// The action that the current stage asks for.
    pub fn action(&self) -> (r: SetupAction)
        ensures
            r@ == stage_action(self.stage()),
    {
        match self.stage {
            SetupStage::Resolving => SetupAction::Resolve,
            SetupStage::OpeningSession => SetupAction::OpenSession,
            SetupStage::SubscribingStatus => SetupAction::SubscribeStatus,
            SetupStage::ReportingPdu => SetupAction::ReportInitialPdu,
            SetupStage::SubscribingPdu => SetupAction::SubscribePdu,
            SetupStage::RollingBack => SetupAction::UnsubscribeStatus,
            SetupStage::Ready => SetupAction::Finish(Ok(())),
            SetupStage::Unreachable => SetupAction::Finish(Err(Error::DeviceNotFound)),
            SetupStage::Refused(Subscription::ConnectionStatus) => SetupAction::Finish(
                Err(other("could not add the connection status handler")),
            ),
            SetupStage::Refused(Subscription::MaxPduSize) => SetupAction::Finish(
                Err(other("could not add the max PDU size changed handler")),
            ),
        }
    }

    /// Records whether the last action succeeded and returns the next one.
    ///
    /// The outcome of reporting the initial PDU size and of the rollback
    /// unregistration is not looked at: neither can stop construction.
    pub fn advance(&mut self, ok: bool) -> (r: SetupAction)
        ensures
            final(self).stage() == next_stage(old(self).stage(), ok),
            r@ == stage_action(final(self).stage()),
    {
        let next = match self.stage {
            SetupStage::Resolving => if ok {
                SetupStage::OpeningSession
            } else {
                SetupStage::Unreachable
            },
            SetupStage::OpeningSession => if ok {
                SetupStage::SubscribingStatus
            } else {
                SetupStage::Unreachable
            },
            SetupStage::SubscribingStatus => if ok {
                SetupStage::ReportingPdu
            } else {
                SetupStage::Refused(Subscription::ConnectionStatus)
            },
            SetupStage::ReportingPdu => SetupStage::SubscribingPdu,
            SetupStage::SubscribingPdu => if ok {
                SetupStage::Ready
            } else {
                SetupStage::RollingBack
            },
            SetupStage::RollingBack => SetupStage::Refused(Subscription::MaxPduSize),
            other => other,
        };
        self.stage = next;
        self.action()
    }
}

/// How far construction has gone; finished stages rank highest.
pub open spec fn stage_rank(s: SetupStage) -> nat {
    match s {
        SetupStage::Resolving => 0,
        SetupStage::OpeningSession => 1,
        SetupStage::SubscribingStatus => 2,
        SetupStage::ReportingPdu => 3,
        SetupStage::SubscribingPdu => 4,
        SetupStage::RollingBack => 5,
        _ => 6,
    }
}

/// Every step that does not finish construction moves it strictly forward,
/// so no action other than `Finish` is asked for twice.
pub proof fn lemma_setup_moves_forward(s: SetupStage, ok: bool)
    ensures
        !(stage_action(s) is Finish) ==> stage_rank(next_stage(s, ok)) > stage_rank(s),
        stage_action(s) is Finish ==> next_stage(s, ok) == s,
{
}

/// The consumer receives the current maximum PDU size before the handler
/// for its changes is registered, and construction succeeds only right
/// after that registration succeeded.
pub proof fn lemma_initial_pdu_first(s: SetupStage, ok: bool)
    ensures
        next_stage(s, ok) == SetupStage::SubscribingPdu <==> s == SetupStage::ReportingPdu,
        next_stage(s, ok) == SetupStage::ReportingPdu <==> (s == SetupStage::SubscribingStatus
            && ok),
        next_stage(s, ok) == SetupStage::Ready ==> (s == SetupStage::SubscribingPdu && ok)
            || s == SetupStage::Ready,
{
}

/// The stages that construction passes through when the steps report
/// `outcomes` in turn, the starting stage first.
pub open spec fn stages(outcomes: Seq<bool>) -> Seq<SetupStage> {
    Seq::new(outcomes.len() + 1, |k: int| run(outcomes.take(k)))
}

proof fn lemma_run_step(outcomes: Seq<bool>, k: int)
    requires
        0 <= k < outcomes.len(),
    ensures
        run(outcomes.take(k + 1)) == next_stage(run(outcomes.take(k)), outcomes[k]),
{
    assert(outcomes.take(k + 1).drop_last() =~= outcomes.take(k));
    assert(outcomes.take(k + 1).last() == outcomes[k]);
}

proof fn lemma_run_rank(outcomes: Seq<bool>, i: int, j: int)
    requires
        0 <= i < j <= outcomes.len(),
    ensures
        stage_rank(run(outcomes.take(i))) < stage_rank(run(outcomes.take(j))) || (stage_action(
            run(outcomes.take(i)),
        ) is Finish && run(outcomes.take(j)) == run(outcomes.take(i))),
    decreases j - i,
{
    lemma_run_step(outcomes, j - 1);
    lemma_setup_moves_forward(run(outcomes.take(j - 1)), outcomes[j - 1]);
    if j > i + 1 {
        lemma_run_rank(outcomes, i, j - 1);
    }
}

/// A construction that succeeds has handed the initial maximum PDU size to
/// the consumer exactly once, and before it registered the handler for
/// live changes: no live notification can come first.
pub proof fn lemma_initial_pdu_once(outcomes: Seq<bool>)
    requires
        run(outcomes) == SetupStage::Ready,
    ensures
        exists|i: int, j: int|
            0 <= i < j < stages(outcomes).len() && #[trigger] stages(outcomes)[i]
                == SetupStage::ReportingPdu && #[trigger] stages(outcomes)[j]
                == SetupStage::SubscribingPdu,
        forall|i: int, j: int|
            0 <= i < stages(outcomes).len() && 0 <= j < stages(outcomes).len() && #[trigger] stages(
                outcomes,
            )[i] == SetupStage::ReportingPdu && #[trigger] stages(outcomes)[j]
                == SetupStage::ReportingPdu ==> i == j,
    decreases outcomes.len(),
{
    let st = stages(outcomes);
    let n = outcomes.len() as int;
    assert forall|i: int, j: int|
        0 <= i < st.len() && 0 <= j < st.len() && #[trigger] st[i] == SetupStage::ReportingPdu
            && #[trigger] st[j] == SetupStage::ReportingPdu implies i == j by {
        if i < j {
            lemma_run_rank(outcomes, i, j);
        } else if j < i {
            lemma_run_rank(outcomes, j, i);
        }
    }
    assert(outcomes.take(n) =~= outcomes);
    assert(n > 0);
    let rest = outcomes.drop_last();
    assert(rest =~= outcomes.take(n - 1));
    lemma_run_step(outcomes, n - 1);
    let prev = run(rest);
    lemma_initial_pdu_first(prev, outcomes[n - 1]);
    if prev == SetupStage::Ready {
        lemma_initial_pdu_once(rest);
        let sr = stages(rest);
        let (i, j) = choose|i: int, j: int|
            0 <= i < j < sr.len() && #[trigger] sr[i] == SetupStage::ReportingPdu && #[trigger] sr[j]
                == SetupStage::SubscribingPdu;
        assert(rest.take(i) =~= outcomes.take(i));
        assert(rest.take(j) =~= outcomes.take(j));
        assert(st[i] == SetupStage::ReportingPdu && st[j] == SetupStage::SubscribingPdu);
    } else {
        assert(prev == SetupStage::SubscribingPdu);
        assert(n >= 2) by {
            if n == 1 {
                assert(rest =~= Seq::<bool>::empty());
            }
        }
        lemma_run_step(outcomes, n - 2);
        lemma_initial_pdu_first(run(outcomes.take(n - 2)), outcomes[n - 2]);
        assert(st[n - 2] == SetupStage::ReportingPdu && st[n - 1] == SetupStage::SubscribingPdu);
    }
}

/// A construction that fails has unregistered every handler that it had
/// registered (best-effort), and one that succeeds holds both.
pub proof fn lemma_finish_registrations(s: SetupStage)
    requires
        stage_action(s) is Finish,
    ensures
        stage_action(s)->Finish_0 is Err ==> registered(s) == Set::<Subscription>::empty(),
        stage_action(s)->Finish_0 is Ok ==> registered(s) == set![
            Subscription::ConnectionStatus,
            Subscription::MaxPduSize,
        ],
{
}

/// When the address does not resolve, construction fails with
/// `DeviceNotFound` whatever is reported afterwards, and no event handler
/// was ever registered.
pub proof fn lemma_unresolved_address(outcomes: Seq<bool>)
    requires
        outcomes.len() > 0,
        outcomes[0] == false,
    ensures
        run(outcomes) == SetupStage::Unreachable,
        stage_action(run(outcomes)) == SetupActionModel::Finish(Err(ErrorModel::DeviceNotFound)),
        registered(run(outcomes)) == Set::<Subscription>::empty(),
    decreases outcomes.len(),
{
    if outcomes.len() > 1 {
        let rest = outcomes.drop_last();
        assert(rest[0] == outcomes[0]);
        lemma_unresolved_address(rest);
        lemma_setup_moves_forward(run(rest), outcomes.last());
    } else {
        assert(outcomes.drop_last() =~= Seq::<bool>::empty());
        assert(run(outcomes.drop_last()) == SetupStage::Resolving);
        assert(outcomes.last() == outcomes[0]);
    }
}

} // verus!
