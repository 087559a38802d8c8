use vstd::prelude::*;

use crate::action::{ChainAction, ChainEvent};
use crate::address::Address;
use crate::amount::{limit256, nats_of, Amount};
use crate::error::TransferError;
use crate::gate::{gate_check, GateOutcome};
use crate::rows::{resolve_row, row_fits, row_resolved_ok, spec_resolved_nats, sum_of, sum_row};
use crate::shape::{
    find_native, find_nonnative, first_native_from, first_nonnative_from, matrix_shaped,
    next_active_row, row_active, validate_shape,
};

verus! {

/// Where a disperse request stands in the pipeline. Every non-terminal
/// phase has exactly one pending chain action.
#[derive(Clone, Copy, Debug)]
pub enum DispersePhase {
    /// Waiting for the sender's balance in token `t`, to resolve row `t`.
    AwaitBalance { t: usize },
    /// Waiting for the sender's allowance in token `t`.
    AwaitAllowance { t: usize },
    /// Waiting for confirmation of the allowance elevation for token `t`.
    AwaitApproval { t: usize },
    /// Waiting for confirmation of the single aggregated native transfer.
    AwaitNativeTransfer,
    /// Waiting for confirmation of the batched settlement call.
    AwaitSettlement,
    /// The settlement confirmed; the request succeeded.
    Done,
    /// The pipeline stopped: the error says why.
    Aborted { error: TransferError },
}

/// The pre-flight engine for one disperse request: one sender pushes funds
/// to many recipients. Rows are resolved against the sender's balance per
/// token, each token's total is gated against balance and allowance as one
/// need, and the native legs are aggregated into a single transfer from
/// the sender.
pub struct DisperseEngine {
    pub sender: Address,
    pub recipients: Vec<Address>,
    pub tokens: Vec<Address>,
    pub amounts: Vec<Vec<Amount>>,
    pub is_percentage: bool,
    /// The resolved amount matrix, one row per token already processed.
    pub resolved: Vec<Vec<Amount>>,
    /// The sender balance each processed row was resolved against.
    pub balances: Vec<Amount>,
    /// The sum of each processed row: what the sender needs in that token.
    pub totals: Vec<Amount>,
    pub phase: DispersePhase,
}

/// Whether an event is the answer the pending action of a phase expects.
pub open spec fn disperse_expects(phase: DispersePhase, event: ChainEvent) -> bool {
    match (phase, event) {
        (DispersePhase::AwaitBalance { .. }, ChainEvent::Balance { .. }) => true,
        (DispersePhase::AwaitAllowance { .. }, ChainEvent::Allowance { .. }) => true,
        (DispersePhase::AwaitApproval { .. }, ChainEvent::Confirmed) => true,
        (DispersePhase::AwaitNativeTransfer, ChainEvent::Confirmed) => true,
        (DispersePhase::AwaitSettlement, ChainEvent::Confirmed) => true,
        _ => false,
    }
}

/// Row `i` of a disperse request has been processed: an active row is
/// resolved against the recorded balance and summed; a repeated native row
/// is carried through unchanged.
pub open spec fn disperse_row_done(
    tokens: Seq<Address>,
    amounts: Seq<Vec<Amount>>,
    is_percentage: bool,
    resolved: Seq<Vec<Amount>>,
    balances: Seq<Amount>,
    totals: Seq<Amount>,
    i: int,
) -> bool {
    if row_active(tokens, i) {
        &&& row_resolved_ok(is_percentage, balances[i].as_nat(), amounts[i]@, resolved[i]@)
        &&& totals[i].as_nat() == sum_of(nats_of(resolved[i]@))
    } else {
        &&& resolved[i]@ == amounts[i]@
        &&& balances[i].as_nat() == 0
        &&& totals[i].as_nat() == 0
    }
}

/// The first `k` rows of a disperse request are processed and nothing
/// further is.
pub open spec fn disperse_progress_ok(
    tokens: Seq<Address>,
    amounts: Seq<Vec<Amount>>,
    is_percentage: bool,
    resolved: Seq<Vec<Amount>>,
    balances: Seq<Amount>,
    totals: Seq<Amount>,
    k: int,
) -> bool {
    &&& resolved.len() == k
    &&& balances.len() == k
    &&& totals.len() == k
    &&& forall|i: int|
        0 <= i < k ==> disperse_row_done(
            tokens,
            amounts,
            is_percentage,
            resolved,
            balances,
            totals,
            i,
        )
}

/// What one balance answer `b` for row `t` does to the engine: an entry or
/// total that cannot be represented aborts with overflow; otherwise the
/// row is recorded as resolved against `b`, summed, earlier rows are kept,
/// and the engine moves to the next active row or on to authorization.
pub open spec fn disperse_balance_step_ok(
    pre: DisperseEngine,
    post: DisperseEngine,
    b: Amount,
    t: usize,
) -> bool {
    let req_row = pre.amounts@[t as int]@;
    let want = spec_resolved_nats(pre.is_percentage, b.as_nat(), req_row);
    &&& (!row_fits(pre.is_percentage, b.as_nat(), req_row) ==> post.phase
        == (DispersePhase::Aborted { error: TransferError::ArithmeticOverflow }))
    &&& (row_fits(pre.is_percentage, b.as_nat(), req_row) && sum_of(want) >= limit256()
        ==> post.phase == (DispersePhase::Aborted {
        error: TransferError::ArithmeticOverflow,
    }))
    &&& (row_fits(pre.is_percentage, b.as_nat(), req_row) && sum_of(want) < limit256() ==> {
        &&& post.balances@[t as int] == b
        &&& row_resolved_ok(pre.is_percentage, b.as_nat(), req_row, post.resolved@[t as int]@)
        &&& post.totals@[t as int].as_nat() == sum_of(want)
        &&& (forall|i: int| 0 <= i < t ==> post.resolved@[i] == pre.resolved@[i])
        &&& (forall|i: int| 0 <= i < t ==> post.balances@[i] == pre.balances@[i])
        &&& (forall|i: int| 0 <= i < t ==> post.totals@[i] == pre.totals@[i])
        &&& post.phase == match next_active_row(pre.tokens@, t as nat + 1) {
            Some(t2) => DispersePhase::AwaitBalance { t: t2 as usize },
            None => post.spec_auth_from(0),
        }
    })
}

/// What one allowance answer `al` for token `t` does to the engine: a
/// balance short of the row total aborts the request before any write; a
/// short allowance submits one elevation to exactly the total; a covering
/// allowance submits nothing and moves on. The resolved data never
/// changes here.
pub open spec fn disperse_allowance_step_ok(
    pre: DisperseEngine,
    post: DisperseEngine,
    al: Amount,
    t: usize,
) -> bool {
    let bal = pre.balances@[t as int].as_nat();
    let needed = pre.totals@[t as int].as_nat();
    &&& post.same_data(pre)
    &&& (bal < needed ==> post.phase == (DispersePhase::Aborted {
        error: TransferError::InsufficientBalance,
    }))
    &&& (bal >= needed && al.as_nat() < needed ==> post.phase == (DispersePhase::AwaitApproval {
        t,
    }))
    &&& (bal >= needed && al.as_nat() >= needed ==> post.phase == pre.spec_auth_from(t as nat + 1))
}

impl DisperseEngine {
    #[verifier::inline]
    pub open spec fn shaped(self) -> bool {
        matrix_shaped(self.tokens@.len(), self.recipients@.len(), self.amounts@)
    }

    /// Row `i` has been processed: an active row is resolved against the
    /// recorded balance and summed; a repeated native row is carried
    /// through unchanged.
    #[verifier::inline]
    pub open spec fn row_done(self, i: int) -> bool {
        disperse_row_done(
            self.tokens@,
            self.amounts@,
            self.is_percentage,
            self.resolved@,
            self.balances@,
            self.totals@,
            i,
        )
    }

    /// The first `k` rows are processed and nothing further is.
    #[verifier::inline]
    pub open spec fn progress_ok(self, k: int) -> bool {
        disperse_progress_ok(
            self.tokens@,
            self.amounts@,
            self.is_percentage,
            self.resolved@,
            self.balances@,
            self.totals@,
            k,
        )
    }

    #[verifier::inline]
    pub open spec fn resolution_done(self) -> bool {
        self.progress_ok(self.tokens@.len() as int)
    }

    pub open spec fn is_terminal(self) -> bool {
        self.phase is Done || self.phase is Aborted
    }

    /// The engine's structural invariant, by phase.
    pub open spec fn wf(self) -> bool {
        match self.phase {
            DispersePhase::AwaitBalance { t } => {
                &&& self.shaped()
                &&& t < self.tokens@.len()
                &&& row_active(self.tokens@, t as int)
                &&& self.progress_ok(t as int)
            },
            DispersePhase::AwaitAllowance { t } => {
                &&& self.shaped()
                &&& self.resolution_done()
                &&& t < self.tokens@.len()
                &&& !self.tokens@[t as int].is_native_spec()
            },
            DispersePhase::AwaitApproval { t } => {
                &&& self.shaped()
                &&& self.resolution_done()
                &&& t < self.tokens@.len()
                &&& !self.tokens@[t as int].is_native_spec()
                &&& self.balances@[t as int].as_nat() >= self.totals@[t as int].as_nat()
            },
            DispersePhase::AwaitNativeTransfer => {
                &&& self.shaped()
                &&& self.resolution_done()
                &&& first_native_from(self.tokens@, 0) is Some
                &&& self.totals@[first_native_from(self.tokens@, 0).unwrap() as int].as_nat() > 0
                &&& self.balances@[first_native_from(self.tokens@, 0).unwrap() as int].as_nat()
                    >= self.totals@[first_native_from(self.tokens@, 0).unwrap() as int].as_nat()
            },
            DispersePhase::AwaitSettlement => {
                &&& self.shaped()
                &&& self.resolution_done()
            },
            DispersePhase::Done => {
                &&& self.shaped()
                &&& self.resolution_done()
            },
            DispersePhase::Aborted { .. } => true,
        }
    }

    /// The chain action pending in the current phase.
    pub open spec fn spec_pending(self) -> ChainAction {
        match self.phase {
            DispersePhase::AwaitBalance { t } => {
                if self.tokens@[t as int].is_native_spec() {
                    ChainAction::ReadNativeBalance { holder: self.sender }
                } else {
                    ChainAction::ReadTokenBalance { token: self.tokens@[t as int], holder: self.sender }
                }
            },
            DispersePhase::AwaitAllowance { t } => ChainAction::ReadAllowance {
                token: self.tokens@[t as int],
                holder: self.sender,
            },
            DispersePhase::AwaitApproval { t } => ChainAction::SubmitApprove {
                token: self.tokens@[t as int],
                holder: self.sender,
                amount: self.totals@[t as int],
            },
            DispersePhase::AwaitNativeTransfer => ChainAction::SubmitNativeTransfer {
                from: self.sender,
                amount: self.totals@[first_native_from(self.tokens@, 0).unwrap() as int],
            },
            DispersePhase::AwaitSettlement => ChainAction::SubmitSettlement,
            DispersePhase::Done => ChainAction::Halt,
            DispersePhase::Aborted { .. } => ChainAction::Halt,
        }
    }

    /// The phase the engine reaches when it turns to the native leg: no
    /// native row or a zero total settles directly, a shortfall aborts,
    /// and otherwise the single aggregated transfer is submitted.
    pub open spec fn spec_native_phase(self) -> DispersePhase {
        match first_native_from(self.tokens@, 0) {
            Some(nt) => {
                if self.totals@[nt as int].as_nat() == 0 {
                    DispersePhase::AwaitSettlement
                } else if self.balances@[nt as int].as_nat() < self.totals@[nt as int].as_nat() {
                    DispersePhase::Aborted { error: TransferError::InsufficientBalance }
                } else {
                    DispersePhase::AwaitNativeTransfer
                }
            },
            None => DispersePhase::AwaitSettlement,
        }
    }

    /// The phase of the first authorization slot at or after token `t`,
    /// falling through to the native leg when none is left.
    pub open spec fn spec_auth_from(self, t: nat) -> DispersePhase {
        match first_nonnative_from(self.tokens@, t) {
            Some(t2) => DispersePhase::AwaitAllowance { t: t2 as usize },
            None => self.spec_native_phase(),
        }
    }

    /// The request fields are those given at construction.
    pub open spec fn same_request(self, other: DisperseEngine) -> bool {
        &&& self.sender == other.sender
        &&& self.recipients == other.recipients
        &&& self.tokens == other.tokens
        &&& self.amounts == other.amounts
        &&& self.is_percentage == other.is_percentage
    }

    pub open spec fn same_data(self, other: DisperseEngine) -> bool {
        &&& self.resolved == other.resolved
        &&& self.balances == other.balances
        &&& self.totals == other.totals
    }

    /// The pending action of the current phase, as a value.
    pub fn pending_action(&self) -> (a: ChainAction)
        requires
            self.wf(),
        ensures
            a == self.spec_pending(),
    {
        match &self.phase {
            DispersePhase::AwaitBalance { t } => {
                let tok = self.tokens[*t];
                if tok.is_native() {
                    ChainAction::ReadNativeBalance { holder: self.sender }
                } else {
                    ChainAction::ReadTokenBalance { token: tok, holder: self.sender }
                }
            },
            DispersePhase::AwaitAllowance { t } => ChainAction::ReadAllowance {
                token: self.tokens[*t],
                holder: self.sender,
            },
            DispersePhase::AwaitApproval { t } => ChainAction::SubmitApprove {
                token: self.tokens[*t],
                holder: self.sender,
                amount: self.totals[*t],
            },
            DispersePhase::AwaitNativeTransfer => {
                match find_native(&self.tokens, 0) {
                    Some(nt) => ChainAction::SubmitNativeTransfer {
                        from: self.sender,
                        amount: self.totals[nt],
                    },
                    None => {
                        // contradicts the invariant of this phase
                        assert(false);
                        ChainAction::Halt
                    },
                }
            },
            DispersePhase::AwaitSettlement => ChainAction::SubmitSettlement,
            DispersePhase::Done => ChainAction::Halt,
            DispersePhase::Aborted { .. } => ChainAction::Halt,
        }
    }

    /// Turn to the native leg of the request.
    fn enter_native_phase(&mut self) -> (a: ChainAction)
        requires
            old(self).shaped(),
            old(self).resolution_done(),
        ensures
            final(self).wf(),
            final(self).same_request(*old(self)),
            final(self).same_data(*old(self)),
            final(self).phase == old(self).spec_native_phase(),
            a == final(self).spec_pending(),
    {
        match find_native(&self.tokens, 0) {
            None => {
                self.phase = DispersePhase::AwaitSettlement;
                ChainAction::SubmitSettlement
            },
            Some(nt) => {
                let total = self.totals[nt];
                if total.is_zero() {
                    self.phase = DispersePhase::AwaitSettlement;
                    ChainAction::SubmitSettlement
                } else if self.balances[nt].lt(&total) {
                    self.phase = DispersePhase::Aborted {
                        error: TransferError::InsufficientBalance,
                    };
                    ChainAction::Halt
                } else {
                    self.phase = DispersePhase::AwaitNativeTransfer;
                    self.pending_action()
                }
            },
        }
    }

    /// Move to the first authorization slot at or after token `t`.
    fn enter_auth_from(&mut self, t: usize) -> (a: ChainAction)
        requires
            old(self).shaped(),
            old(self).resolution_done(),
            t <= old(self).tokens@.len(),
        ensures
            final(self).wf(),
            final(self).same_request(*old(self)),
            final(self).same_data(*old(self)),
            final(self).phase == old(self).spec_auth_from(t as nat),
            a == final(self).spec_pending(),
    {
        match find_nonnative(&self.tokens, t) {
            Some(t2) => {
                self.phase = DispersePhase::AwaitAllowance { t: t2 };
                self.pending_action()
            },
            None => self.enter_native_phase(),
        }
    }

    /// Process rows from `t` on: carry repeated native rows through, and
    /// stop at the next row that needs a balance read; when none is left,
    /// move on to authorization.
    fn advance_resolution(&mut self, from_t: usize) -> (a: ChainAction)
        requires
            old(self).shaped(),
            old(self).progress_ok(from_t as int),
            from_t <= old(self).tokens@.len(),
        ensures
            final(self).wf(),
            final(self).same_request(*old(self)),
            forall|i: int| 0 <= i < from_t ==> final(self).resolved@[i] == old(self).resolved@[i],
            forall|i: int| 0 <= i < from_t ==> final(self).balances@[i] == old(self).balances@[i],
            forall|i: int| 0 <= i < from_t ==> final(self).totals@[i] == old(self).totals@[i],
            final(self).phase == match next_active_row(old(self).tokens@, from_t as nat) {
                Some(t2) => DispersePhase::AwaitBalance { t: t2 as usize },
                None => final(self).spec_auth_from(0),
            },
            a == final(self).spec_pending(),
    {
        let mut t = from_t;
        while t < self.tokens.len()
            invariant
                self.shaped(),
                self.progress_ok(t as int),
                from_t <= t <= self.tokens@.len(),
                self.same_request(*old(self)),
                self.phase == old(self).phase,
                forall|i: int| 0 <= i < from_t ==> self.resolved@[i] == old(self).resolved@[i],
                forall|i: int| 0 <= i < from_t ==> self.balances@[i] == old(self).balances@[i],
                forall|i: int| 0 <= i < from_t ==> self.totals@[i] == old(self).totals@[i],
                next_active_row(self.tokens@, from_t as nat) == next_active_row(
                    self.tokens@,
                    t as nat,
                ),
            decreases self.tokens@.len() - t,
        {
            if crate::shape::row_is_active(&self.tokens, t) {
                self.phase = DispersePhase::AwaitBalance { t };
                return self.pending_action();
            }
            let ghost prev = *self;
            let row = crate::rows::copy_row(&self.amounts[t]);
            self.resolved.push(row);
            self.balances.push(Amount::zero());
            self.totals.push(Amount::zero());
            proof {
                assert forall|i: int| 0 <= i < t + 1 implies self.row_done(i) by {
                    if i < t {
                        assert(prev.row_done(i));
                        assert(self.resolved@[i] == prev.resolved@[i]);
                        assert(self.balances@[i] == prev.balances@[i]);
                        assert(self.totals@[i] == prev.totals@[i]);
                    } else {
                        assert(self.resolved@[i]@ == self.amounts@[i]@);
                    }
                }
            }
            t = t + 1;
        }
        self.enter_auth_from(0)
    }

    /// Build the engine for one disperse request and return it with its
    /// first pending action. A request whose amount matrix does not have
    /// one row per token and one entry per recipient in every row is
    /// rejected as malformed before any chain interaction.
    pub fn new(
        sender: Address,
        recipients: Vec<Address>,
        tokens: Vec<Address>,
        amounts: Vec<Vec<Amount>>,
        is_percentage: bool,
    ) -> (r: (DisperseEngine, ChainAction))
        ensures
            r.0.wf(),
            r.1 == r.0.spec_pending(),
            r.0.sender == sender,
            r.0.recipients == recipients,
            r.0.tokens == tokens,
            r.0.amounts == amounts,
            r.0.is_percentage == is_percentage,
            !matrix_shaped(tokens@.len(), recipients@.len(), amounts@) <==> r.0.phase
                == (DispersePhase::Aborted { error: TransferError::MalformedRequest }),
            matrix_shaped(tokens@.len(), recipients@.len(), amounts@) ==> r.0.phase == match next_active_row(
                tokens@,
                0,
            ) {
                Some(t) => DispersePhase::AwaitBalance { t: t as usize },
                None => DispersePhase::AwaitSettlement,
            },
    {
        let ok = validate_shape(&tokens, recipients.len(), &amounts);
        let mut engine = DisperseEngine {
            sender,
            recipients,
            tokens,
            amounts,
            is_percentage,
            resolved: Vec::new(),
            balances: Vec::new(),
            totals: Vec::new(),
            phase: DispersePhase::Aborted { error: TransferError::MalformedRequest },
        };
        if !ok {
            return (engine, ChainAction::Halt);
        }
        proof {
            if engine.tokens@.len() > 0 {
                assert(row_active(engine.tokens@, 0));
                assert(next_active_row(engine.tokens@, 0) == Some(0nat));
            }
        }
        let action = engine.advance_resolution(0);
        (engine, action)
    }

    /// Consume the answer to the pending action and return the next one.
    ///
    /// The engine resolves each active row against the sender's balance in
    /// that token, aborting on overflow of an entry or of a row total;
    /// gates every fungible token's total against the recorded balance
    /// (a shortfall aborts the whole request before any elevation or
    /// settlement) and against the reported allowance (a short allowance
    /// is raised to exactly the total, a covering one submits nothing);
    /// moves the aggregated native total in one transfer, skipping it when
    /// it is zero; and finally settles. Any infrastructural failure, and
    /// any answer of the wrong kind, aborts operationally.
    #[verifier::rlimit(60)]
    pub fn step(&mut self, event: ChainEvent) -> (action: ChainAction)
        requires
            old(self).wf(),
        ensures
            final(self).wf(),
            final(self).same_request(*old(self)),
            action == final(self).spec_pending(),
            old(self).is_terminal() ==> *final(self) == *old(self),
            !old(self).is_terminal() && !disperse_expects(old(self).phase, event) ==> final(self).phase
                == (DispersePhase::Aborted { error: TransferError::TransactionError })
                && final(self).same_data(*old(self)),
            (match (old(self).phase, event) {
                (DispersePhase::AwaitBalance { t }, ChainEvent::Balance { value }) => disperse_balance_step_ok(
                    *old(self),
                    *final(self),
                    value,
                    t,
                ),
                _ => true,
            }),
            (match (old(self).phase, event) {
                (DispersePhase::AwaitAllowance { t }, ChainEvent::Allowance { value }) => disperse_allowance_step_ok(
                    *old(self),
                    *final(self),
                    value,
                    t,
                ),
                _ => true,
            }),
            (match (old(self).phase, event) {
                (DispersePhase::AwaitApproval { t }, ChainEvent::Confirmed) => final(self).same_data(
                    *old(self),
                ) && final(self).phase == old(self).spec_auth_from(t as nat + 1),
                _ => true,
            }),
            old(self).phase is AwaitNativeTransfer && event is Confirmed ==> final(self).same_data(
                *old(self),
            ) && final(self).phase is AwaitSettlement,
            old(self).phase is AwaitSettlement && event is Confirmed ==> final(self).same_data(
                *old(self),
            ) && final(self).phase is Done,
            action matches ChainAction::SubmitNativeTransfer { from, amount } ==> amount.as_nat()
                > 0,
            action matches ChainAction::SubmitApprove { token, holder, amount } ==> !old(self).is_terminal(),
            action matches ChainAction::SubmitApprove { token, holder, amount } ==> (event
                matches ChainEvent::Allowance { value } && value.as_nat() < amount.as_nat()),
    {
        let phase = self.phase;
        match phase {
            DispersePhase::Done => ChainAction::Halt,
            DispersePhase::Aborted { .. } => ChainAction::Halt,
            DispersePhase::AwaitBalance { t } => match event {
                ChainEvent::Balance { value } => {
                    match resolve_row(self.is_percentage, &value, &self.amounts[t]) {
                        Err(e) => {
                            self.phase = DispersePhase::Aborted { error: e };
                            ChainAction::Halt
                        },
                        Ok(row) => match sum_row(&row) {
                            Err(e) => {
                                proof {
                                    assert(nats_of(row@) =~= spec_resolved_nats(
                                        self.is_percentage,
                                        value.as_nat(),
                                        self.amounts@[t as int]@,
                                    ));
                                }
                                self.phase = DispersePhase::Aborted { error: e };
                                ChainAction::Halt
                            },
                            Ok(total) => {
                                proof {
                                    assert(nats_of(row@) =~= spec_resolved_nats(
                                        self.is_percentage,
                                        value.as_nat(),
                                        self.amounts@[t as int]@,
                                    ));
                                }
                                let n = self.tokens.len();
                                assert(t < n);
                                let ghost prev = *self;
                                self.resolved.push(row);
                                self.balances.push(value);
                                self.totals.push(total);
                                proof {
                                    assert forall|i: int| 0 <= i < t + 1 implies self.row_done(
                                        i,
                                    ) by {
                                        if i < t {
                                            assert(prev.row_done(i));
                                            assert(self.resolved@[i] == prev.resolved@[i]);
                                            assert(self.balances@[i] == prev.balances@[i]);
                                            assert(self.totals@[i] == prev.totals@[i]);
                                        } else {
                                            assert(self.balances@[i] == value);
                                            assert(self.totals@[i] == total);
                                        }
                                    }
                                    assert(self.progress_ok(t as int + 1));
                                }
                                self.advance_resolution(t + 1)
                            },
                        },
                    }
                },
                _ => {
                    self.phase = DispersePhase::Aborted {
                        error: TransferError::TransactionError,
                    };
                    ChainAction::Halt
                },
            },
            DispersePhase::AwaitAllowance { t } => match event {
                ChainEvent::Allowance { value } => {
                    match gate_check(&self.balances[t], &value, &self.totals[t]) {
                        GateOutcome::Insufficient => {
                            self.phase = DispersePhase::Aborted {
                                error: TransferError::InsufficientBalance,
                            };
                            ChainAction::Halt
                        },
                        GateOutcome::Elevate { amount } => {
                            self.phase = DispersePhase::AwaitApproval { t };
                            ChainAction::SubmitApprove {
                                token: self.tokens[t],
                                holder: self.sender,
                                amount,
                            }
                        },
                        GateOutcome::Authorized => {
                            let n = self.tokens.len();
                            assert(t < n);
                            self.enter_auth_from(t + 1)
                        },
                    }
                },
                _ => {
                    self.phase = DispersePhase::Aborted {
                        error: TransferError::TransactionError,
                    };
                    ChainAction::Halt
                },
            },
            DispersePhase::AwaitApproval { t } => match event {
                ChainEvent::Confirmed => {
                    let n = self.tokens.len();
                    assert(t < n);
                    self.enter_auth_from(t + 1)
                },
                _ => {
                    self.phase = DispersePhase::Aborted {
                        error: TransferError::TransactionError,
                    };
                    ChainAction::Halt
                },
            },
            DispersePhase::AwaitNativeTransfer => match event {
                ChainEvent::Confirmed => {
                    self.phase = DispersePhase::AwaitSettlement;
                    ChainAction::SubmitSettlement
                },
                _ => {
                    self.phase = DispersePhase::Aborted {
                        error: TransferError::TransactionError,
                    };
                    ChainAction::Halt
                },
            },
            DispersePhase::AwaitSettlement => match event {
                ChainEvent::Confirmed => {
                    self.phase = DispersePhase::Done;
                    ChainAction::Halt
                },
                _ => {
                    self.phase = DispersePhase::Aborted {
                        error: TransferError::TransactionError,
                    };
                    ChainAction::Halt
                },
            },
        }
    }
}

} // verus!
