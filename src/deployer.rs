//! The resumable deployer: a state machine that walks a fixed plan, using
//! the signer's transaction count as the cursor of steps already done.
//!
//! The caller performs each action (a deployment, a call) and reports the
//! receipt back; the machine decides what comes next.
//!
//! The transaction count is trusted as proof that the slots below it were
//! deployed: a skipped slot resolves to its predicted address without a
//! query. A deployed slot is checked against its prediction.

use vstd::prelude::*;
use crate::address::{Address, predict, predicted};
use crate::paths::Artifact;

verus! {

/// Seconds in the window after which a deadline falls.
pub const DEADLINE_WINDOW_SECS: u64 = 3600;

/// A deadline one window after `now_secs`, in seconds, the chain's time
/// unit.
pub open spec fn deadline_spec(now_secs: u64) -> int {
    now_secs + DEADLINE_WINDOW_SECS
}

pub fn deadline_after_window(now_secs: u64) -> (r: u128)
    ensures
        r == deadline_spec(now_secs),
{
    now_secs as u128 + DEADLINE_WINDOW_SECS as u128
}

/// Where a constructor or call argument comes from.
#[derive(Clone, Copy, Debug, PartialEq, Eq, Structural)]
pub enum ArgSource {
    /// The signer's own address.
    Signer,
    /// The address resolved for the step at this slot.
    SlotAddress(u64),
    /// A fixed amount.
    Uint(u128),
    /// A deadline one window after the start of the run.
    Deadline,
}

/// A resolved argument.
#[derive(Clone, Copy, Debug)]
pub enum Arg {
    Addr(Address),
    Uint(u128),
}

/// The functions that a plan step may call on a deployed contract.
#[derive(Clone, Copy, Debug, PartialEq, Eq, Structural)]
pub enum CallFn {
    InitializeFactory,
    CreateExchange,
}

impl CallFn {
    pub open spec fn name_spec(self) -> Seq<char> {
        match self {
            CallFn::InitializeFactory => "initializeFactory"@,
            CallFn::CreateExchange => "createExchange"@,
        }
    }

    /// The ABI name of the function.
    pub fn name(&self) -> (r: &'static str)
        ensures
            r@ == self.name_spec(),
    {
        match self {
            CallFn::InitializeFactory => {
                proof {
                    reveal_strlit("initializeFactory");
                }
                "initializeFactory"
            },
            CallFn::CreateExchange => {
                proof {
                    reveal_strlit("createExchange");
                }
                "createExchange"
            },
        }
    }
}

/// What a step does with its nonce.
#[derive(Clone, Copy, Debug, PartialEq, Eq, Structural)]
pub enum StepKind {
    /// Create a contract from the artifact.
    Deploy(Artifact),
    /// Call a function on the contract created at slot `target`, whose ABI
    /// is in the artifact.
    Call { target: u64, artifact: Artifact, function: CallFn },
}

/// One entry of a plan: its slot is its index.
#[derive(Clone, Debug)]
pub struct Step {
    pub kind: StepKind,
    pub args: Vec<ArgSource>,
}

/// Whether `x` is the address of slot `j`: the one recorded for it where
/// the slot was passed (confirmed by its receipt, or skipped), and in any
/// case the predicted one.
pub open spec fn slot_address(x: Address, j: nat, signer: Seq<u8>, resolved: Seq<Address>) -> bool {
    &&& x@ == predicted(signer, j)
    &&& j < resolved.len() ==> x == resolved[j as int]
}

/// Whether the argument `a` is what `src` resolves to, given the addresses
/// `resolved` of the slots passed so far.
pub open spec fn resolves_to(
    a: Arg,
    src: ArgSource,
    signer: Seq<u8>,
    resolved: Seq<Address>,
    now_secs: u64,
) -> bool {
    match src {
        ArgSource::Signer => match a {
            Arg::Addr(x) => x@ == signer,
            Arg::Uint(_) => false,
        },
        ArgSource::SlotAddress(j) => match a {
            Arg::Addr(x) => slot_address(x, j as nat, signer, resolved),
            Arg::Uint(_) => false,
        },
        ArgSource::Uint(v) => a == Arg::Uint(v),
        ArgSource::Deadline => a == Arg::Uint(deadline_spec(now_secs) as u128),
    }
}

pub open spec fn all_resolve(
    args: Seq<Arg>,
    srcs: Seq<ArgSource>,
    signer: Seq<u8>,
    resolved: Seq<Address>,
    now_secs: u64,
) -> bool {
    &&& args.len() == srcs.len()
    &&& forall|i: int|
        0 <= i < srcs.len() ==> resolves_to(#[trigger] args[i], srcs[i], signer, resolved, now_secs)
}

/// Whether the step at `slot` must be executed when the signer has sent
/// `tx_count` transactions: slots below the count are already consumed.
pub open spec fn step_runs(slot: nat, tx_count: nat) -> bool {
    slot >= tx_count
}

/// The slots of a plan of `n` steps that a run executes.
pub open spec fn executed_slots(n: nat, tx_count: nat) -> Set<int> {
    Set::new(|i: int| 0 <= i < n && step_runs(i as nat, tx_count))
}

/// The slots of a plan of `n` steps that a run skips.
pub open spec fn skipped_slots(n: nat, tx_count: nat) -> Set<int> {
    Set::new(|i: int| 0 <= i < n && !step_runs(i as nat, tx_count))
}

/// A run on a plan of `n` steps, by a signer that has sent `k <= n`
/// transactions, skips exactly the first `k` slots and executes exactly the
/// remaining `n - k`.
pub proof fn resume_skips_prefix(n: nat, k: nat)
    requires
        k <= n,
    ensures
        skipped_slots(n, k) == vstd::set_lib::set_int_range(0, k as int),
        executed_slots(n, k) == vstd::set_lib::set_int_range(k as int, n as int),
        skipped_slots(n, k).len() == k,
        executed_slots(n, k).len() == n - k,
{
    assert(skipped_slots(n, k) =~= vstd::set_lib::set_int_range(0, k as int));
    assert(executed_slots(n, k) =~= vstd::set_lib::set_int_range(k as int, n as int));
    vstd::set_lib::lemma_int_range(0, k as int);
    vstd::set_lib::lemma_int_range(k as int, n as int);
}

/// Whether `r` is the action that carries out `step` at `slot`.
pub open spec fn performs(
    r: Action,
    step: Step,
    slot: nat,
    signer: Seq<u8>,
    resolved: Seq<Address>,
    now_secs: u64,
) -> bool {
    match step.kind {
        StepKind::Deploy(art) => match r {
            Action::Deploy { slot: s, artifact, args } => s == slot && artifact == art
                && all_resolve(args@, step.args@, signer, resolved, now_secs),
            _ => false,
        },
        StepKind::Call { target: t, artifact: art, function: f } => match r {
            Action::Call { slot: s, target, artifact, function, args } => s == slot
                && slot_address(target, t as nat, signer, resolved) && artifact == art && function
                == f && all_resolve(args@, step.args@, signer, resolved, now_secs),
            _ => false,
        },
    }
}

/// Whether `f` reports that the contract of `slot`, predicted at
/// `expected`, was found at `actual`.
pub open spec fn is_mismatch(f: Fault, slot: nat, expected: Seq<u8>, actual: Address) -> bool {
    match f {
        Fault::Mismatch { slot: s, predicted: p, actual: a } => s == slot && p@ == expected && a
            == actual,
        _ => false,
    }
}

/// Whether `r` skips `slot`, resolving it to `address`.
pub open spec fn skips(r: Action, slot: nat, address: Seq<u8>) -> bool {
    match r {
        Action::Skip { slot: s, address: a } => s == slot && a@ == address,
        _ => false,
    }
}

/// A fault that ends a run.
#[derive(Clone, Copy, Debug)]
pub enum Fault {
    /// The transaction of the step confirmed with a failure status.
    Rejected { slot: u64 },
    /// A deployment's receipt carries no contract address.
    NoAddress { slot: u64 },
    /// The deployed contract is not at the address predicted for its slot.
    Mismatch { slot: u64, predicted: Address, actual: Address },
}

/// The confirmed outcome of a transaction.
#[derive(Clone, Copy, Debug)]
pub struct Receipt {
    pub success: bool,
    pub contract_address: Option<Address>,
}

/// What the caller must do next.
#[derive(Clone, Debug)]
pub enum Action {
    /// The step is already on chain; it resolves to the predicted address.
    Skip { slot: u64, address: Address },
    /// Create the contract and report the receipt.
    Deploy { slot: u64, artifact: Artifact, args: Vec<Arg> },
    /// Call the function on the contract at `target` and report the receipt.
    Call { slot: u64, target: Address, artifact: Artifact, function: CallFn, args: Vec<Arg> },
    /// Every step is confirmed.
    Finish,
    /// The run has faulted; nothing more is done.
    Abort(Fault),
}

#[derive(Clone, Copy, Debug, PartialEq, Eq, Structural)]
pub enum Phase {
    Ready,
    Awaiting,
    Finished,
    Faulted,
}

/// The state of one run of a plan.
pub struct Deployer {
    plan: Vec<Step>,
    signer: Address,
    tx_count: u64,
    now_secs: u64,
    cursor: usize,
    resolved: Vec<Address>,
    phase: Phase,
    fault: Option<Fault>,
    /// For each slot passed so far, whether it was executed.
    history: Ghost<Seq<bool>>,
}

impl Deployer {
    pub closed spec fn plan_spec(&self) -> Seq<Step> {
        self.plan@
    }

    pub closed spec fn signer_spec(&self) -> Seq<u8> {
        self.signer@
    }

    pub closed spec fn tx_count_spec(&self) -> nat {
        self.tx_count as nat
    }

    pub closed spec fn now_spec(&self) -> u64 {
        self.now_secs
    }

    /// The number of slots passed: skipped or confirmed.
    pub closed spec fn cursor_spec(&self) -> nat {
        self.cursor as nat
    }

    pub closed spec fn phase_spec(&self) -> Phase {
        self.phase
    }

    pub closed spec fn fault_spec(&self) -> Option<Fault> {
        self.fault
    }

    pub closed spec fn resolved_spec(&self) -> Seq<Address> {
        self.resolved@
    }

    pub closed spec fn history_spec(&self) -> Seq<bool> {
        self.history@
    }

    pub closed spec fn wf(&self) -> bool {
        &&& self.plan@.len() < usize::MAX
        &&& self.cursor <= self.plan@.len()
        &&& self.resolved@.len() == self.cursor
        &&& forall|i: int|
            0 <= i < self.cursor ==> (#[trigger] self.resolved@[i])@ == predicted(
                self.signer@,
                i as nat,
            )
        &&& self.history@ == Seq::new(self.cursor as nat, |i: int| step_runs(i as nat, self.tx_count as nat))
        &&& (self.phase == Phase::Awaiting) ==> self.cursor < self.plan@.len() && step_runs(
            self.cursor as nat,
            self.tx_count as nat,
        )
        &&& (self.phase == Phase::Finished) ==> self.cursor == self.plan@.len()
        &&& (self.phase == Phase::Faulted) <==> self.fault.is_some()
    }

    /// Starts a run of `plan` by `signer`, whose transaction count read at
    /// the start is `tx_count`; `now_secs` is the start time, from which
    /// deadlines are taken.
    pub fn new(plan: Vec<Step>, signer: Address, tx_count: u64, now_secs: u64) -> (r: Deployer)
        requires
            plan@.len() < usize::MAX,
        ensures
            r.wf(),
            r.plan_spec() == plan@,
            r.signer_spec() == signer@,
            r.tx_count_spec() == tx_count,
            r.now_spec() == now_secs,
            r.cursor_spec() == 0,
            r.phase_spec() == Phase::Ready,
    {
        let r = Deployer {
            plan,
            signer,
            tx_count,
            now_secs,
            cursor: 0,
            resolved: Vec::new(),
            phase: Phase::Ready,
            fault: None,
            history: Ghost(Seq::empty()),
        };
        assert(r.history@ =~= Seq::new(0, |i: int| step_runs(i as nat, tx_count as nat)));
        r
    }

    /// Every slot passed so far was executed exactly when it was at or
    /// above the transaction count read at the start, and skipped otherwise.
    pub proof fn lemma_history_follows_count(&self)
        requires
            self.wf(),
        ensures
            self.history_spec().len() == self.cursor_spec(),
            forall|i: int|
                0 <= i < self.cursor_spec() ==> #[trigger] self.history_spec()[i] == step_runs(
                    i as nat,
                    self.tx_count_spec(),
                ),
    {
    }

    /// A finished run has passed every slot of the plan once, in slot order.
    /// It executed exactly the slots at or above the transaction count and
    /// skipped the others. Where the count is `k <= n`, for a plan of `n`
    /// steps, that is the last `n - k` slots executed and the first `k`
    /// skipped. Where the count reaches `n`, nothing was executed. Every
    /// slot resolved to its predicted address.
    pub proof fn lemma_finished_run(&self)
        requires
            self.wf(),
            self.phase_spec() == Phase::Finished,
        ensures
            self.cursor_spec() == self.plan_spec().len(),
            self.history_spec() == Seq::new(
                self.plan_spec().len(),
                |i: int| step_runs(i as nat, self.tx_count_spec()),
            ),
            Set::new(|i: int| 0 <= i < self.plan_spec().len() && self.history_spec()[i])
                == executed_slots(self.plan_spec().len(), self.tx_count_spec()),
            self.tx_count_spec() <= self.plan_spec().len() ==> {
                &&& executed_slots(self.plan_spec().len(), self.tx_count_spec())
                    == vstd::set_lib::set_int_range(
                    self.tx_count_spec() as int,
                    self.plan_spec().len() as int,
                )
                &&& skipped_slots(self.plan_spec().len(), self.tx_count_spec())
                    == vstd::set_lib::set_int_range(0, self.tx_count_spec() as int)
                &&& executed_slots(self.plan_spec().len(), self.tx_count_spec()).len()
                    == self.plan_spec().len() - self.tx_count_spec()
            },
            self.tx_count_spec() >= self.plan_spec().len() ==> executed_slots(
                self.plan_spec().len(),
                self.tx_count_spec(),
            ) == Set::<int>::empty(),
            self.resolved_spec().len() == self.plan_spec().len(),
            forall|i: int|
                0 <= i < self.plan_spec().len() ==> (#[trigger] self.resolved_spec()[i])@
                    == predicted(self.signer_spec(), i as nat),
    {
        let n = self.plan_spec().len();
        let k = self.tx_count_spec();
        assert(Set::new(|i: int| 0 <= i < n && self.history_spec()[i]) =~= executed_slots(n, k));
        if k <= n {
            resume_skips_prefix(n, k);
        } else {
            assert(executed_slots(n, k) =~= Set::<int>::empty());
        }
        if k == n {
            assert(executed_slots(n, k) =~= Set::<int>::empty());
        }
    }

    pub fn phase(&self) -> (r: Phase)
        ensures
            r == self.phase_spec(),
    {
        self.phase
    }

    pub fn cursor(&self) -> (r: usize)
        ensures
            r == self.cursor_spec(),
    {
        self.cursor
    }

    /// The addresses resolved so far, one per slot passed.
    pub fn resolved(&self) -> (r: &Vec<Address>)
        ensures
            r@ == self.resolved_spec(),
    {
        &self.resolved
    }

    pub fn fault(&self) -> (r: Option<Fault>)
        ensures
            r == self.fault_spec(),
    {
        self.fault
    }

    /// Decides the next action. A slot below the transaction count is
    /// skipped and resolves to its predicted address; the first slot at or
    /// above it is executed, after which the machine awaits its receipt.
    /// After a fault nothing more is executed.
    pub fn next_action(&mut self) -> (r: Action)
        requires
            old(self).wf(),
            old(self).phase_spec() != Phase::Awaiting,
        ensures
            final(self).wf(),
            final(self).plan_spec() == old(self).plan_spec(),
            final(self).signer_spec() == old(self).signer_spec(),
            final(self).tx_count_spec() == old(self).tx_count_spec(),
            final(self).now_spec() == old(self).now_spec(),
            old(self).phase_spec() == Phase::Faulted ==> {
                &&& r == Action::Abort(old(self).fault_spec().unwrap())
                &&& final(self).phase_spec() == Phase::Faulted
                &&& final(self).fault_spec() == old(self).fault_spec()
                &&& final(self).cursor_spec() == old(self).cursor_spec()
                &&& final(self).resolved_spec() == old(self).resolved_spec()
            },
            old(self).phase_spec() != Phase::Faulted && old(self).cursor_spec()
                == old(self).plan_spec().len() ==> {
                &&& r == Action::Finish
                &&& final(self).phase_spec() == Phase::Finished
                &&& final(self).cursor_spec() == old(self).cursor_spec()
                &&& final(self).resolved_spec() == old(self).resolved_spec()
            },
            old(self).phase_spec() != Phase::Faulted && old(self).cursor_spec() < old(
                self,
            ).plan_spec().len() && !step_runs(old(self).cursor_spec(), old(self).tx_count_spec())
                ==> {
                &&& skips(r, old(self).cursor_spec(), predicted(old(self).signer_spec(), old(self).cursor_spec()))
                &&& final(self).phase_spec() == Phase::Ready
                &&& final(self).cursor_spec() == old(self).cursor_spec() + 1
                &&& final(self).resolved_spec() == old(self).resolved_spec().push(r->address)
            },
            old(self).phase_spec() != Phase::Faulted && old(self).cursor_spec() < old(
                self,
            ).plan_spec().len() && step_runs(old(self).cursor_spec(), old(self).tx_count_spec())
                ==> {
                &&& performs(
                    r,
                    old(self).plan_spec()[old(self).cursor_spec() as int],
                    old(self).cursor_spec(),
                    old(self).signer_spec(),
                    old(self).resolved_spec(),
                    old(self).now_spec(),
                )
                &&& final(self).phase_spec() == Phase::Awaiting
                &&& final(self).cursor_spec() == old(self).cursor_spec()
                &&& final(self).resolved_spec() == old(self).resolved_spec()
            },
    {
        if self.phase == Phase::Faulted {
            match self.fault {
                Some(f) => Action::Abort(f),
                None => Action::Finish,
            }
        } else if self.cursor == self.plan.len() {
            self.phase = Phase::Finished;
            Action::Finish
        } else if (self.cursor as u128) < (self.tx_count as u128) {
            let slot = self.cursor as u64;
            let address = predict(&self.signer, slot);
            self.resolved.push(address);
            self.cursor = self.cursor + 1;
            self.history = Ghost(self.history@.push(false));
            self.phase = Phase::Ready;
            proof {
                assert(self.history@ =~= Seq::new(
                    self.cursor as nat,
                    |i: int| step_runs(i as nat, self.tx_count as nat),
                ));
            }
            Action::Skip { slot, address }
        } else {
            let slot = self.cursor as u64;
            let args = self.resolve_args(&self.plan[self.cursor].args);
            self.phase = Phase::Awaiting;
            match self.plan[self.cursor].kind {
                StepKind::Deploy(artifact) => Action::Deploy { slot, artifact, args },
                StepKind::Call { target, artifact, function } => {
                    let t = if (target as u128) < (self.cursor as u128) {
                        self.resolved[target as usize]
                    } else {
                        predict(&self.signer, target)
                    };
                    Action::Call { slot, target: t, artifact, function, args }
                },
            }
        }
    }

    /// Takes the receipt of the step being executed. The step is confirmed
    /// when the transaction succeeded and, for a deployment, the contract
    /// stands at the address predicted for its slot; otherwise the run
    /// faults.
    pub fn on_receipt(&mut self, receipt: Receipt) -> (r: Result<Address, Fault>)
        requires
            old(self).wf(),
            old(self).phase_spec() == Phase::Awaiting,
        ensures
            final(self).wf(),
            final(self).plan_spec() == old(self).plan_spec(),
            final(self).signer_spec() == old(self).signer_spec(),
            final(self).tx_count_spec() == old(self).tx_count_spec(),
            final(self).now_spec() == old(self).now_spec(),
            ({
                let slot = old(self).cursor_spec();
                let expected = predicted(old(self).signer_spec(), slot);
                let kind = old(self).plan_spec()[slot as int].kind;
                &&& !receipt.success ==> r == Err::<Address, Fault>(
                    Fault::Rejected { slot: slot as u64 },
                )
                &&& receipt.success && kind is Call ==> (r is Ok && r->Ok_0@ == expected)
                &&& receipt.success && kind is Deploy && receipt.contract_address is None ==> r
                    == Err::<Address, Fault>(Fault::NoAddress { slot: slot as u64 })
                &&& receipt.success && kind is Deploy && receipt.contract_address is Some
                    && receipt.contract_address->0@ == expected ==> r == Ok::<Address, Fault>(
                    receipt.contract_address->0,
                )
                &&& receipt.success && kind is Deploy && receipt.contract_address is Some
                    && receipt.contract_address->0@ != expected ==> (r is Err && is_mismatch(
                    r->Err_0,
                    slot,
                    expected,
                    receipt.contract_address->0,
                ))
                &&& r is Ok ==> {
                    &&& final(self).phase_spec() == Phase::Ready
                    &&& final(self).cursor_spec() == slot + 1
                    &&& final(self).resolved_spec() == old(self).resolved_spec().push(r->Ok_0)
                }
                &&& r is Err ==> {
                    &&& final(self).phase_spec() == Phase::Faulted
                    &&& final(self).fault_spec() == Some(r->Err_0)
                    &&& final(self).cursor_spec() == slot
                    &&& final(self).resolved_spec() == old(self).resolved_spec()
                }
            }),
    {
        let slot = self.cursor as u64;
        let expected = predict(&self.signer, slot);
        let outcome: Result<Address, Fault> = if !receipt.success {
            Err(Fault::Rejected { slot })
        } else {
            match self.plan[self.cursor].kind {
                StepKind::Call { .. } => Ok(expected),
                StepKind::Deploy(_) => match receipt.contract_address {
                    None => Err(Fault::NoAddress { slot }),
                    Some(a) => {
                        if a.same(&expected) {
                            Ok(a)
                        } else {
                            Err(Fault::Mismatch { slot, predicted: expected, actual: a })
                        }
                    },
                },
            }
        };
        match outcome {
            Ok(a) => {
                self.resolved.push(a);
                self.cursor = self.cursor + 1;
                self.history = Ghost(self.history@.push(true));
                self.phase = Phase::Ready;
                proof {
                    assert(self.history@ =~= Seq::new(
                        self.cursor as nat,
                        |i: int| step_runs(i as nat, self.tx_count as nat),
                    ));
                }
            },
            Err(f) => {
                self.fault = Some(f);
                self.phase = Phase::Faulted;
            },
        }
        outcome
    }

    fn resolve_arg(&self, src: ArgSource) -> (r: Arg)
        requires
            self.wf(),
        ensures
            resolves_to(r, src, self.signer_spec(), self.resolved_spec(), self.now_spec()),
    {
        match src {
            ArgSource::Signer => Arg::Addr(self.signer),
            ArgSource::SlotAddress(j) => {
                if (j as u128) < (self.cursor as u128) {
                    Arg::Addr(self.resolved[j as usize])
                } else {
                    Arg::Addr(predict(&self.signer, j))
                }
            },
            ArgSource::Uint(v) => Arg::Uint(v),
            ArgSource::Deadline => Arg::Uint(deadline_after_window(self.now_secs)),
        }
    }

    /// Resolves a step's arguments against the addresses known so far.
    pub fn resolve_args(&self, srcs: &Vec<ArgSource>) -> (r: Vec<Arg>)
        requires
            self.wf(),
        ensures
            all_resolve(r@, srcs@, self.signer_spec(), self.resolved_spec(), self.now_spec()),
    {
        let mut r: Vec<Arg> = Vec::new();
        let mut i: usize = 0;
        while i < srcs.len()
            invariant
                self.wf(),
                i <= srcs@.len(),
                r@.len() == i,
                forall|k: int| 0 <= k < i ==> resolves_to(#[trigger] r@[k], srcs@[k], self.signer@, self.resolved@, self.now_secs),
            decreases srcs@.len() - i,
        {
            let a = self.resolve_arg(srcs[i]);
            r.push(a);
            i = i + 1;
        }
        r
    }
}

} // verus!
