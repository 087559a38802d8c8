use vstd::prelude::*;

use crate::action::{ChainAction, ChainEvent};
use crate::address::Address;
use crate::amount::Amount;
use crate::error::TransferError;
use crate::gate::{gate_check, GateOutcome};
use crate::resolve::{resolve, resolve_fits, resolved_amount};
use crate::shape::{
    find_native, find_nonnative, first_native_from, first_nonnative_from, matrix_shaped,
    next_active_row, row_active, row_is_active, validate_shape,
};

verus! {

/// Where a collect request stands in the pipeline. Every non-terminal
/// phase has exactly one pending chain action.
#[derive(Clone, Copy, Debug)]
pub enum CollectPhase {
    /// Waiting for sender `p`'s balance in token `t`, to resolve that entry.
    AwaitBalance { t: usize, p: usize },
    /// Waiting for sender `p`'s allowance in token `t`.
    AwaitAllowance { t: usize, p: usize },
    /// Waiting for confirmation of the allowance elevation for (t, p).
    AwaitApproval { t: usize, p: usize },
    /// Waiting for confirmation of sender `p`'s native transfer.
    AwaitNativeTransfer { p: usize },
    /// Waiting for confirmation of the batched settlement call.
    AwaitSettlement,
    /// The settlement confirmed; the request succeeded.
    Done,
    /// The pipeline stopped: the error says why.
    Aborted { error: TransferError },
}

/// The pre-flight engine for one collect request: many senders push funds
/// to one recipient. Every (token, sender) entry is resolved against that
/// sender's own balance, gated against that sender's allowance, and each
/// sender's native leg is moved individually.
pub struct CollectEngine {
    pub recipient: Address,
    pub senders: Vec<Address>,
    pub tokens: Vec<Address>,
    pub amounts: Vec<Vec<Amount>>,
    pub is_percentage: bool,
    /// The resolved amount matrix, built entry by entry.
    pub resolved: Vec<Vec<Amount>>,
    /// The balance each resolved entry was computed against.
    pub balances: Vec<Vec<Amount>>,
    pub phase: CollectPhase,
}

/// Whether an event is the answer the pending action of a phase expects.
pub open spec fn collect_expects(phase: CollectPhase, event: ChainEvent) -> bool {
    match (phase, event) {
        (CollectPhase::AwaitBalance { .. }, ChainEvent::Balance { .. }) => true,
        (CollectPhase::AwaitAllowance { .. }, ChainEvent::Allowance { .. }) => true,
        (CollectPhase::AwaitApproval { .. }, ChainEvent::Confirmed) => true,
        (CollectPhase::AwaitNativeTransfer { .. }, ChainEvent::Confirmed) => true,
        (CollectPhase::AwaitSettlement, ChainEvent::Confirmed) => true,
        _ => false,
    }
}

/// The first `p` entries of a row are resolved, each against its own
/// recorded balance.
pub open spec fn collect_prefix_resolved_ok(
    is_percentage: bool,
    requested: Seq<Amount>,
    resolved: Seq<Amount>,
    balances: Seq<Amount>,
    p: int,
) -> bool {
    forall|j: int|
        0 <= j < p ==> (#[trigger] resolved[j]).as_nat() == resolved_amount(
            is_percentage,
            balances[j].as_nat(),
            requested[j].as_nat(),
        )
}

/// Row `i` of a collect request has been processed: an active row holds
/// one resolved entry and one recorded balance per sender; a repeated
/// native row is carried through unchanged.
pub open spec fn collect_row_done(
    tokens: Seq<Address>,
    amounts: Seq<Vec<Amount>>,
    is_percentage: bool,
    resolved: Seq<Vec<Amount>>,
    balances: Seq<Vec<Amount>>,
    n_parties: nat,
    i: int,
) -> bool {
    if row_active(tokens, i) {
        &&& resolved[i]@.len() == n_parties
        &&& balances[i]@.len() == n_parties
        &&& collect_prefix_resolved_ok(
            is_percentage,
            amounts[i]@,
            resolved[i]@,
            balances[i]@,
            n_parties as int,
        )
    } else {
        &&& resolved[i]@ == amounts[i]@
        &&& balances[i]@.len() == 0
    }
}

/// The first `k` rows of a collect request are processed and nothing
/// further is.
pub open spec fn collect_progress_ok(
    tokens: Seq<Address>,
    amounts: Seq<Vec<Amount>>,
    is_percentage: bool,
    resolved: Seq<Vec<Amount>>,
    balances: Seq<Vec<Amount>>,
    n_parties: nat,
    k: int,
) -> bool {
    &&& resolved.len() == k
    &&& balances.len() == k
    &&& forall|i: int|
        0 <= i < k ==> collect_row_done(
            tokens,
            amounts,
            is_percentage,
            resolved,
            balances,
            n_parties,
            i,
        )
}

/// What one balance answer `b` for entry (t, p) does to the engine: an
/// entry that cannot be represented aborts with overflow; otherwise the
/// entry is recorded as resolved against `b`, everything earlier is kept,
/// and the engine moves to the next entry, the next active row, or on to
/// authorization.
pub open spec fn collect_balance_step_ok(
    pre: CollectEngine,
    post: CollectEngine,
    b: Amount,
    t: usize,
    p: usize,
) -> bool {
    let req = pre.amounts@[t as int]@[p as int].as_nat();
    &&& (!resolve_fits(pre.is_percentage, b.as_nat(), req) ==> post.phase
        == (CollectPhase::Aborted { error: TransferError::ArithmeticOverflow }))
    &&& (resolve_fits(pre.is_percentage, b.as_nat(), req) ==> {
        &&& post.balances@[t as int]@[p as int] == b
        &&& post.resolved@[t as int]@[p as int].as_nat() == resolved_amount(
            pre.is_percentage,
            b.as_nat(),
            req,
        )
        &&& (forall|i: int| 0 <= i < t ==> post.resolved@[i] == pre.resolved@[i])
        &&& (forall|i: int| 0 <= i < t ==> post.balances@[i] == pre.balances@[i])
        &&& (forall|j: int| 0 <= j < p ==> post.resolved@[t as int]@[j] == pre.resolved@[t as int]@[j])
        &&& (forall|j: int| 0 <= j < p ==> post.balances@[t as int]@[j] == pre.balances@[t as int]@[j])
        &&& post.phase == if p as int + 1 < pre.senders@.len() {
            CollectPhase::AwaitBalance { t, p: (p + 1) as usize }
        } else {
            match next_active_row(pre.tokens@, t as nat + 1) {
                Some(t2) => CollectPhase::AwaitBalance { t: t2 as usize, p: 0 },
                None => post.spec_auth_row_from(0),
            }
        }
    })
}

/// What one allowance answer `al` for entry (t, p) does to the engine: a
/// balance short of the resolved entry aborts the request before any
/// write; a short allowance submits one elevation to exactly the entry; a
/// covering allowance submits nothing and moves on. The resolved data
/// never changes here.
pub open spec fn collect_allowance_step_ok(
    pre: CollectEngine,
    post: CollectEngine,
    al: Amount,
    t: usize,
    p: usize,
) -> bool {
    let bal = pre.balances@[t as int]@[p as int].as_nat();
    let needed = pre.resolved@[t as int]@[p as int].as_nat();
    &&& post.same_data(pre)
    &&& (bal < needed ==> post.phase == (CollectPhase::Aborted {
        error: TransferError::InsufficientBalance,
    }))
    &&& (bal >= needed && al.as_nat() < needed ==> post.phase == (CollectPhase::AwaitApproval {
        t,
        p,
    }))
    &&& (bal >= needed && al.as_nat() >= needed ==> post.phase == pre.spec_auth_succ(
        t as nat,
        p as nat,
    ))
}

/// The phase the native stage of a collect request reaches when it scans
/// senders from `q`: zero legs are skipped, a shortfall aborts, a funded
/// non-zero leg submits that sender's transfer, and exhaustion settles.
pub open spec fn collect_native_from(
    tokens: Seq<Address>,
    resolved: Seq<Vec<Amount>>,
    balances: Seq<Vec<Amount>>,
    n_parties: nat,
    q: nat,
) -> CollectPhase
    decreases n_parties - q when q <= n_parties
{
    match first_native_from(tokens, 0) {
        None => CollectPhase::AwaitSettlement,
        Some(nt) => {
            if q >= n_parties {
                CollectPhase::AwaitSettlement
            } else if resolved[nt as int]@[q as int].as_nat() == 0 {
                collect_native_from(tokens, resolved, balances, n_parties, q + 1)
            } else if balances[nt as int]@[q as int].as_nat() < resolved[nt as int]@[
                q as int
            ].as_nat() {
                CollectPhase::Aborted { error: TransferError::InsufficientBalance }
            } else {
                CollectPhase::AwaitNativeTransfer { p: q as usize }
            }
        },
    }
}

impl CollectEngine {
    #[verifier::inline]
    pub open spec fn shaped(self) -> bool {
        matrix_shaped(self.tokens@.len(), self.senders@.len(), self.amounts@)
    }

    /// Row `i` has been processed.
    #[verifier::inline]
    pub open spec fn row_done(self, i: int) -> bool {
        collect_row_done(
            self.tokens@,
            self.amounts@,
            self.is_percentage,
            self.resolved@,
            self.balances@,
            self.senders@.len(),
            i,
        )
    }

    /// The first `k` rows are processed and nothing further is.
    #[verifier::inline]
    pub open spec fn progress_ok(self, k: int) -> bool {
        collect_progress_ok(
            self.tokens@,
            self.amounts@,
            self.is_percentage,
            self.resolved@,
            self.balances@,
            self.senders@.len(),
            k,
        )
    }

    #[verifier::inline]
    pub open spec fn resolution_done(self) -> bool {
        self.progress_ok(self.tokens@.len() as int)
    }

    pub open spec fn is_terminal(self) -> bool {
        self.phase is Done || self.phase is Aborted
    }

    /// The engine's structural invariant, by phase.
    pub open spec fn wf(self) -> bool {
        match self.phase {
            CollectPhase::AwaitBalance { t, p } => {
                &&& self.shaped()
                &&& t < self.tokens@.len()
                &&& p < self.senders@.len()
                &&& row_active(self.tokens@, t as int)
                &&& (forall|i: int| 0 <= i < t ==> self.row_done(i))
                &&& self.resolved@.len() == t as int + 1
                &&& self.balances@.len() == t as int + 1
                &&& self.resolved@[t as int]@.len() == p as nat
                &&& self.balances@[t as int]@.len() == p as nat
                &&& collect_prefix_resolved_ok(
                    self.is_percentage,
                    self.amounts@[t as int]@,
                    self.resolved@[t as int]@,
                    self.balances@[t as int]@,
                    p as int,
                )
            },
            CollectPhase::AwaitAllowance { t, p } => {
                &&& self.shaped()
                &&& self.resolution_done()
                &&& t < self.tokens@.len()
                &&& p < self.senders@.len()
                &&& !self.tokens@[t as int].is_native_spec()
            },
            CollectPhase::AwaitApproval { t, p } => {
                &&& self.shaped()
                &&& self.resolution_done()
                &&& t < self.tokens@.len()
                &&& p < self.senders@.len()
                &&& !self.tokens@[t as int].is_native_spec()
                &&& self.balances@[t as int]@[p as int].as_nat() >= self.resolved@[t as int]@[
                    p as int
                ].as_nat()
            },
            CollectPhase::AwaitNativeTransfer { p } => {
                &&& self.shaped()
                &&& self.resolution_done()
                &&& p < self.senders@.len()
                &&& first_native_from(self.tokens@, 0) is Some
                &&& self.resolved@[first_native_from(self.tokens@, 0).unwrap() as int]@[
                    p as int
                ].as_nat() > 0
                &&& self.balances@[first_native_from(self.tokens@, 0).unwrap() as int]@[
                    p as int
                ].as_nat() >= self.resolved@[first_native_from(self.tokens@, 0).unwrap() as int]@[
                    p as int
                ].as_nat()
            },
            CollectPhase::AwaitSettlement => {
                &&& self.shaped()
                &&& self.resolution_done()
            },
            CollectPhase::Done => {
                &&& self.shaped()
                &&& self.resolution_done()
            },
            CollectPhase::Aborted { .. } => true,
        }
    }

    /// The chain action pending in the current phase.
    pub open spec fn spec_pending(self) -> ChainAction {
        match self.phase {
            CollectPhase::AwaitBalance { t, p } => {
                if self.tokens@[t as int].is_native_spec() {
                    ChainAction::ReadNativeBalance { holder: self.senders@[p as int] }
                } else {
                    ChainAction::ReadTokenBalance {
                        token: self.tokens@[t as int],
                        holder: self.senders@[p as int],
                    }
                }
            },
            CollectPhase::AwaitAllowance { t, p } => ChainAction::ReadAllowance {
                token: self.tokens@[t as int],
                holder: self.senders@[p as int],
            },
            CollectPhase::AwaitApproval { t, p } => ChainAction::SubmitApprove {
                token: self.tokens@[t as int],
                holder: self.senders@[p as int],
                amount: self.resolved@[t as int]@[p as int],
            },
            CollectPhase::AwaitNativeTransfer { p } => ChainAction::SubmitNativeTransfer {
                from: self.senders@[p as int],
                amount: self.resolved@[first_native_from(self.tokens@, 0).unwrap() as int]@[
                    p as int
                ],
            },
            CollectPhase::AwaitSettlement => ChainAction::SubmitSettlement,
            CollectPhase::Done => ChainAction::Halt,
            CollectPhase::Aborted { .. } => ChainAction::Halt,
        }
    }

    /// The phase the native stage reaches when it scans senders from `q`:
    /// zero legs are skipped, a shortfall aborts, a funded non-zero leg
    /// submits that sender's transfer, and exhaustion settles.
    #[verifier::inline]
    pub open spec fn spec_native_from(self, q: nat) -> CollectPhase {
        collect_native_from(self.tokens@, self.resolved@, self.balances@, self.senders@.len(), q)
    }

    /// The first authorization slot in a row at or after `t`, falling
    /// through to the native stage when none is left.
    #[verifier::inline]
    pub open spec fn spec_auth_row_from(self, t: nat) -> CollectPhase {
        if self.senders@.len() == 0 {
            self.spec_native_from(0)
        } else {
            match first_nonnative_from(self.tokens@, t) {
                Some(t2) => CollectPhase::AwaitAllowance { t: t2 as usize, p: 0 },
                None => self.spec_native_from(0),
            }
        }
    }

    /// The authorization slot after (t, p).
    #[verifier::inline]
    pub open spec fn spec_auth_succ(self, t: nat, p: nat) -> CollectPhase {
        if p + 1 < self.senders@.len() {
            CollectPhase::AwaitAllowance { t: t as usize, p: (p + 1) as usize }
        } else {
            self.spec_auth_row_from(t + 1)
        }
    }

    /// The request fields are those given at construction.
    pub open spec fn same_request(self, other: CollectEngine) -> bool {
        &&& self.recipient == other.recipient
        &&& self.senders == other.senders
        &&& self.tokens == other.tokens
        &&& self.amounts == other.amounts
        &&& self.is_percentage == other.is_percentage
    }

    pub open spec fn same_data(self, other: CollectEngine) -> bool {
        &&& self.resolved == other.resolved
        &&& self.balances == other.balances
    }

    /// The pending action of the current phase, as a value.
    pub fn pending_action(&self) -> (a: ChainAction)
        requires
            self.wf(),
        ensures
            a == self.spec_pending(),
    {
        match &self.phase {
            CollectPhase::AwaitBalance { t, p } => {
                let tok = self.tokens[*t];
                let holder = self.senders[*p];
                if tok.is_native() {
                    ChainAction::ReadNativeBalance { holder }
                } else {
                    ChainAction::ReadTokenBalance { token: tok, holder }
                }
            },
            CollectPhase::AwaitAllowance { t, p } => ChainAction::ReadAllowance {
                token: self.tokens[*t],
                holder: self.senders[*p],
            },
            CollectPhase::AwaitApproval { t, p } => {
                proof {
                    assert(self.row_done(*t as int));
                }
                ChainAction::SubmitApprove {
                    token: self.tokens[*t],
                    holder: self.senders[*p],
                    amount: self.resolved[*t][*p],
                }
            },
            CollectPhase::AwaitNativeTransfer { p } => {
                match find_native(&self.tokens, 0) {
                    Some(nt) => {
                        proof {
                            assert(self.row_done(nt as int));
                        }
                        ChainAction::SubmitNativeTransfer {
                            from: self.senders[*p],
                            amount: self.resolved[nt][*p],
                        }
                    },
                    None => {
                        // contradicts the invariant of this phase
                        assert(false);
                        ChainAction::Halt
                    },
                }
            },
            CollectPhase::AwaitSettlement => ChainAction::SubmitSettlement,
            CollectPhase::Done => ChainAction::Halt,
            CollectPhase::Aborted { .. } => ChainAction::Halt,
        }
    }

    /// Scan the native row's legs from sender `start` on.
    fn enter_native_from(&mut self, start: usize) -> (a: ChainAction)
        requires
            old(self).shaped(),
            old(self).resolution_done(),
            start <= old(self).senders@.len(),
        ensures
            final(self).wf(),
            final(self).same_request(*old(self)),
            final(self).same_data(*old(self)),
            final(self).phase == old(self).spec_native_from(start as nat),
            !(final(self).phase is AwaitApproval),
            a == final(self).spec_pending(),
    {
        let nt = match find_native(&self.tokens, 0) {
            None => {
                self.phase = CollectPhase::AwaitSettlement;
                return ChainAction::SubmitSettlement;
            },
            Some(nt) => nt,
        };
        let mut q = start;
        while q < self.senders.len()
            invariant
                *self == *old(self),
                self.shaped(),
                self.resolution_done(),
                start <= q <= self.senders@.len(),
                first_native_from(self.tokens@, 0) == Some(nt as nat),
                nt < self.tokens@.len(),
                self.spec_native_from(start as nat) == self.spec_native_from(q as nat),
            decreases self.senders@.len() - q,
        {
            proof {
                assert(self.row_done(nt as int));
            }
            let amount = self.resolved[nt][q];
            if amount.is_zero() {
                q = q + 1;
            } else if self.balances[nt][q].lt(&amount) {
                self.phase = CollectPhase::Aborted {
                    error: TransferError::InsufficientBalance,
                };
                return ChainAction::Halt;
            } else {
                self.phase = CollectPhase::AwaitNativeTransfer { p: q };
                return self.pending_action();
            }
        }
        self.phase = CollectPhase::AwaitSettlement;
        ChainAction::SubmitSettlement
    }

    /// Move to the first authorization slot in a row at or after `t`.
    fn enter_auth_row_from(&mut self, t: usize) -> (a: ChainAction)
        requires
            old(self).shaped(),
            old(self).resolution_done(),
            t <= old(self).tokens@.len(),
        ensures
            final(self).wf(),
            final(self).same_request(*old(self)),
            final(self).same_data(*old(self)),
            final(self).phase == old(self).spec_auth_row_from(t as nat),
            !(final(self).phase is AwaitApproval),
            a == final(self).spec_pending(),
    {
        if self.senders.len() == 0 {
            return self.enter_native_from(0);
        }
        match find_nonnative(&self.tokens, t) {
            Some(t2) => {
                self.phase = CollectPhase::AwaitAllowance { t: t2, p: 0 };
                self.pending_action()
            },
            None => self.enter_native_from(0),
        }
    }

    /// Move to the authorization slot after (t, p).
    fn auth_succ(&mut self, t: usize, p: usize) -> (a: ChainAction)
        requires
            old(self).shaped(),
            old(self).resolution_done(),
            t < old(self).tokens@.len(),
            p < old(self).senders@.len(),
            !old(self).tokens@[t as int].is_native_spec(),
        ensures
            final(self).wf(),
            final(self).same_request(*old(self)),
            final(self).same_data(*old(self)),
            final(self).phase == old(self).spec_auth_succ(t as nat, p as nat),
            !(final(self).phase is AwaitApproval),
            a == final(self).spec_pending(),
    {
        let n_parties = self.senders.len();
        if p + 1 < n_parties {
            self.phase = CollectPhase::AwaitAllowance { t, p: p + 1 };
            self.pending_action()
        } else {
            let n = self.tokens.len();
            assert(t < n);
            self.enter_auth_row_from(t + 1)
        }
    }

    /// Process rows from `t` on: carry repeated native rows through, and
    /// stop at the next entry that needs a balance read; when none is
    /// left, move on to authorization.
    fn advance_rows(&mut self, from_t: usize) -> (a: ChainAction)
        requires
            old(self).shaped(),
            old(self).progress_ok(from_t as int),
            from_t <= old(self).tokens@.len(),
        ensures
            final(self).wf(),
            final(self).same_request(*old(self)),
            forall|i: int| 0 <= i < from_t ==> final(self).resolved@[i] == old(self).resolved@[i],
            forall|i: int| 0 <= i < from_t ==> final(self).balances@[i] == old(self).balances@[i],
            final(self).phase == if old(self).senders@.len() > 0 {
                match next_active_row(old(self).tokens@, from_t as nat) {
                    Some(t2) => CollectPhase::AwaitBalance { t: t2 as usize, p: 0 },
                    None => final(self).spec_auth_row_from(0),
                }
            } else {
                final(self).spec_auth_row_from(0)
            },
            !(final(self).phase is AwaitApproval),
            a == final(self).spec_pending(),
    {
        let n_parties = self.senders.len();
        let mut t = from_t;
        while t < self.tokens.len()
            invariant
                self.shaped(),
                self.progress_ok(t as int),
                from_t <= t <= self.tokens@.len(),
                n_parties == self.senders@.len(),
                self.same_request(*old(self)),
                self.phase == old(self).phase,
                forall|i: int| 0 <= i < from_t ==> self.resolved@[i] == old(self).resolved@[i],
                forall|i: int| 0 <= i < from_t ==> self.balances@[i] == old(self).balances@[i],
                n_parties > 0 ==> next_active_row(self.tokens@, from_t as nat)
                    == next_active_row(self.tokens@, t as nat),
            decreases self.tokens@.len() - t,
        {
            let active = row_is_active(&self.tokens, t);
            let ghost prev = *self;
            if active && n_parties > 0 {
                self.resolved.push(Vec::new());
                self.balances.push(Vec::new());
                self.phase = CollectPhase::AwaitBalance { t, p: 0 };
                proof {
                    assert forall|i: int| 0 <= i < t implies self.row_done(i) by {
                        assert(prev.row_done(i));
                        assert(self.resolved@[i] == prev.resolved@[i]);
                        assert(self.balances@[i] == prev.balances@[i]);
                    }
                }
                return self.pending_action();
            }
            if active {
                self.resolved.push(Vec::new());
                self.balances.push(Vec::new());
            } else {
                let row = crate::rows::copy_row(&self.amounts[t]);
                self.resolved.push(row);
                self.balances.push(Vec::new());
            }
            proof {
                assert forall|i: int| 0 <= i < t + 1 implies self.row_done(i) by {
                    if i < t {
                        assert(prev.row_done(i));
                        assert(self.resolved@[i] == prev.resolved@[i]);
                        assert(self.balances@[i] == prev.balances@[i]);
                    }
                }
            }
            t = t + 1;
        }
        self.enter_auth_row_from(0)
    }

    /// Build the engine for one collect request and return it with its
    /// first pending action. A request whose amount matrix does not have
    /// one row per token and one entry per sender in every row is rejected
    /// as malformed before any chain interaction.
    pub fn new(
        recipient: Address,
        senders: Vec<Address>,
        tokens: Vec<Address>,
        amounts: Vec<Vec<Amount>>,
        is_percentage: bool,
    ) -> (r: (CollectEngine, ChainAction))
        ensures
            r.0.wf(),
            r.1 == r.0.spec_pending(),
            r.0.recipient == recipient,
            r.0.senders == senders,
            r.0.tokens == tokens,
            r.0.amounts == amounts,
            r.0.is_percentage == is_percentage,
            !matrix_shaped(tokens@.len(), senders@.len(), amounts@) <==> r.0.phase
                == (CollectPhase::Aborted { error: TransferError::MalformedRequest }),
            matrix_shaped(tokens@.len(), senders@.len(), amounts@) ==> r.0.phase == (
            if senders@.len() > 0 && tokens@.len() > 0 {
                CollectPhase::AwaitBalance { t: 0, p: 0 }
            } else {
                CollectPhase::AwaitSettlement
            }),
    {
        let ok = validate_shape(&tokens, senders.len(), &amounts);
        let mut engine = CollectEngine {
            recipient,
            senders,
            tokens,
            amounts,
            is_percentage,
            resolved: Vec::new(),
            balances: Vec::new(),
            phase: CollectPhase::Aborted { error: TransferError::MalformedRequest },
        };
        if !ok {
            return (engine, ChainAction::Halt);
        }
        proof {
            if engine.tokens@.len() > 0 {
                assert(row_active(engine.tokens@, 0));
                assert(next_active_row(engine.tokens@, 0) == Some(0nat));
            }
        }
        let action = engine.advance_rows(0);
        proof {
            if engine.senders@.len() == 0 || engine.tokens@.len() == 0 {
                assert(engine.spec_native_from(0) == CollectPhase::AwaitSettlement);
                assert(engine.phase == CollectPhase::AwaitSettlement);
            }
        }
        (engine, action)
    }

    /// Consume the answer to the pending action and return the next one.
    ///
    /// The engine resolves each (token, sender) entry against that
    /// sender's balance, aborting on overflow; gates every fungible entry
    /// against the recorded balance (a shortfall aborts the whole request
    /// before any elevation or settlement) and against the reported
    /// allowance (a short allowance is raised to exactly the resolved
    /// entry, a covering one submits nothing); moves each sender's
    /// non-zero native leg in its own transfer, skipping zero legs; and
    /// finally settles. Any infrastructural failure, and any answer of the
    /// wrong kind, aborts operationally.
    #[verifier::rlimit(60)]
    pub fn step(&mut self, event: ChainEvent) -> (action: ChainAction)
        requires
            old(self).wf(),
        ensures
            final(self).wf(),
            final(self).same_request(*old(self)),
            action == final(self).spec_pending(),
            old(self).is_terminal() ==> *final(self) == *old(self),
            !old(self).is_terminal() && !collect_expects(old(self).phase, event) ==> final(self).phase == (CollectPhase::Aborted { error: TransferError::TransactionError }) && final(self).same_data(*old(self)),
            (match (old(self).phase, event) {
                (CollectPhase::AwaitBalance { t, p }, ChainEvent::Balance { value }) => collect_balance_step_ok(
                    *old(self),
                    *final(self),
                    value,
                    t,
                    p,
                ),
                _ => true,
            }),
            (match (old(self).phase, event) {
                (CollectPhase::AwaitAllowance { t, p }, ChainEvent::Allowance { value }) => collect_allowance_step_ok(
                    *old(self),
                    *final(self),
                    value,
                    t,
                    p,
                ),
                _ => true,
            }),
            (match (old(self).phase, event) {
                (CollectPhase::AwaitApproval { t, p }, ChainEvent::Confirmed) => final(self).same_data(*old(self)) && final(self).phase == old(self).spec_auth_succ(
                    t as nat,
                    p as nat,
                ),
                _ => true,
            }),
            (match (old(self).phase, event) {
                (CollectPhase::AwaitNativeTransfer { p }, ChainEvent::Confirmed) => final(self).same_data(*old(self)) && final(self).phase == old(self).spec_native_from(
                    p as nat + 1,
                ),
                _ => true,
            }),
            old(self).phase is AwaitSettlement && event is Confirmed ==> final(self).same_data(
                *old(self),
            ) && final(self).phase is Done,
            action matches ChainAction::SubmitNativeTransfer { from, amount } ==> amount.as_nat()
                > 0,
            action matches ChainAction::SubmitApprove { token, holder, amount } ==> !old(self).is_terminal(),
            action matches ChainAction::SubmitApprove { token, holder, amount } ==> (event
                matches ChainEvent::Allowance { value } && value.as_nat() < amount.as_nat()),
    {
        let phase = self.phase;
        match phase {
            CollectPhase::Done => ChainAction::Halt,
            CollectPhase::Aborted { .. } => ChainAction::Halt,
            CollectPhase::AwaitBalance { t, p } => match event {
                ChainEvent::Balance { value } => {
                    match resolve(self.is_percentage, &value, &self.amounts[t][p]) {
                        Err(e) => {
                            self.phase = CollectPhase::Aborted { error: e };
                            ChainAction::Halt
                        },
                        Ok(entry) => {
                            let n_parties = self.senders.len();
                            let n_tokens = self.tokens.len();
                            assert(t < n_tokens && p < n_parties);
                            let ghost prev = *self;
                            let mut row = self.resolved.pop().unwrap();
                            row.push(entry);
                            self.resolved.push(row);
                            let mut brow = self.balances.pop().unwrap();
                            brow.push(value);
                            self.balances.push(brow);
                            proof {
                                assert(self.resolved@[t as int]@ =~= prev.resolved@[t as int]@.push(
                                    entry,
                                ));
                                assert(self.balances@[t as int]@ =~= prev.balances@[t as int]@.push(
                                    value,
                                ));
                                assert forall|i: int| 0 <= i < t implies self.row_done(i) by {
                                    assert(prev.row_done(i));
                                    assert(self.resolved@[i] == prev.resolved@[i]);
                                    assert(self.balances@[i] == prev.balances@[i]);
                                }
                            }
                            if p + 1 < n_parties {
                                self.phase = CollectPhase::AwaitBalance { t, p: p + 1 };
                                self.pending_action()
                            } else {
                                proof {
                                    assert(self.row_done(t as int));
                                    assert(self.progress_ok(t as int + 1));
                                }
                                self.advance_rows(t + 1)
                            }
                        },
                    }
                },
                _ => {
                    self.phase = CollectPhase::Aborted {
                        error: TransferError::TransactionError,
                    };
                    ChainAction::Halt
                },
            },
            CollectPhase::AwaitAllowance { t, p } => match event {
                ChainEvent::Allowance { value } => {
                    proof {
                        assert(self.row_done(t as int));
                    }
                    match gate_check(&self.balances[t][p], &value, &self.resolved[t][p]) {
                        GateOutcome::Insufficient => {
                            self.phase = CollectPhase::Aborted {
                                error: TransferError::InsufficientBalance,
                            };
                            ChainAction::Halt
                        },
                        GateOutcome::Elevate { amount } => {
                            self.phase = CollectPhase::AwaitApproval { t, p };
                            ChainAction::SubmitApprove {
                                token: self.tokens[t],
                                holder: self.senders[p],
                                amount,
                            }
                        },
                        GateOutcome::Authorized => self.auth_succ(t, p),
                    }
                },
                _ => {
                    self.phase = CollectPhase::Aborted {
                        error: TransferError::TransactionError,
                    };
                    ChainAction::Halt
                },
            },
            CollectPhase::AwaitApproval { t, p } => match event {
                ChainEvent::Confirmed => self.auth_succ(t, p),
                _ => {
                    self.phase = CollectPhase::Aborted {
                        error: TransferError::TransactionError,
                    };
                    ChainAction::Halt
                },
            },
            CollectPhase::AwaitNativeTransfer { p } => match event {
                ChainEvent::Confirmed => {
                    let n_parties = self.senders.len();
                    assert(p < n_parties);
                    self.enter_native_from(p + 1)
                },
                _ => {
                    self.phase = CollectPhase::Aborted {
                        error: TransferError::TransactionError,
                    };
                    ChainAction::Halt
                },
            },
            CollectPhase::AwaitSettlement => match event {
                ChainEvent::Confirmed => {
                    self.phase = CollectPhase::Done;
                    ChainAction::Halt
                },
                _ => {
                    self.phase = CollectPhase::Aborted {
                        error: TransferError::TransactionError,
                    };
                    ChainAction::Halt
                },
            },
        }
    }
}

} // verus!
