use vstd::prelude::*;
use crate::status::{RemoteError, Status, status_of_remote};

verus! {

/// Lifetime class code of a key that outlives the process.
pub const KEY_LIFETIME_PERSISTENT: u32 = 1;

/// PSA status reported when the remote side answers out of protocol.
pub const COMMUNICATION_FAILURE: i32 = -145;

/// Key attributes, each already mapped to the numeric code of the PSA interface.
#[derive(Clone, Copy, Debug, PartialEq, Eq, Structural)]
pub struct KeyAttributes {
    pub key_type: u16,
    pub bits: usize,
    pub usage_flags: u32,
    pub permitted_algorithms: u32,
}

/// Attributes as they travel in a generate-key call.
#[derive(Clone, Copy, Debug, PartialEq, Eq, Structural)]
pub struct WireKeyAttributes {
    pub key_type: u32,
    pub key_bits: u32,
    pub lifetime: u32,
    pub id: u32,
    pub usage: u32,
    pub alg: u32,
}

/// A call to the remote secure partition.
#[derive(Clone, Copy, Debug, PartialEq, Eq, Structural)]
pub enum RemoteCall {
    GenerateKey(WireKeyAttributes),
    OpenKey(u32),
    CloseKey(u32),
    DestroyKey(u32),
}

/// What the remote secure partition answered.
#[derive(Clone, Copy, Debug, PartialEq, Eq, Structural)]
pub enum RemoteReply {
    /// A handle on a generated or opened key.
    Handle(u32),
    /// A close or destroy succeeded.
    Done,
    Failed(RemoteError),
}

/// What the runner of a context does next.
#[derive(Clone, Copy, Debug, PartialEq, Eq, Structural)]
pub enum Action {
    /// Issue this call and hand its reply to the context.
    Send(RemoteCall),
    /// The operation succeeded.
    Complete,
    /// The existence probe answered.
    Answer(bool),
    /// The operation failed with this status.
    Fail(Status),
}

/// Where an operation of the remote context stands: each variant names the call
/// whose reply it waits for.
#[derive(Clone, Copy, Debug, PartialEq, Eq, Structural)]
pub enum Phase {
    Generating,
    ClosingGenerated,
    Probing,
    ClosingProbe,
    DestroyProbing,
    DestroyClosingProbe,
    Opening,
    /// Waiting on the destroy call that consumes `handle`.
    Destroying { handle: u32 },
    /// The destroy call failed with `error`; waiting on the close of its handle.
    ClosingFailedDestroy { error: RemoteError },
    Finished,
}

/// One key operation against the remote secure partition, driven call by call.
#[derive(Clone, Copy, Debug, PartialEq, Eq, Structural)]
pub struct Context {
    pub phase: Phase,
    /// The logical id of the key the operation is about.
    pub id: u32,
}

pub open spec fn fail_with(e: RemoteError) -> (Phase, Action) {
    (Phase::Finished, Action::Fail(status_of_remote(e)))
}

pub open spec fn out_of_protocol() -> (Phase, Action) {
    (Phase::Finished, Action::Fail(Status::Backend(COMMUNICATION_FAILURE)))
}

/// The transition table: from the phase and the reply to the call it waited
/// for, the next phase and what to do.
pub open spec fn step(phase: Phase, id: u32, reply: RemoteReply) -> (Phase, Action) {
    match (phase, reply) {
        (Phase::Generating, RemoteReply::Handle(h)) => (
            Phase::ClosingGenerated,
            Action::Send(RemoteCall::CloseKey(h)),
        ),
        (Phase::ClosingGenerated, RemoteReply::Done) => (Phase::Finished, Action::Complete),
        (Phase::Probing, RemoteReply::Handle(h)) => (
            Phase::ClosingProbe,
            Action::Send(RemoteCall::CloseKey(h)),
        ),
        (Phase::Probing, RemoteReply::Failed(RemoteError::DoesNotExist)) => (
            Phase::Finished,
            Action::Answer(false),
        ),
        (Phase::ClosingProbe, RemoteReply::Done) => (Phase::Finished, Action::Answer(true)),
        (Phase::DestroyProbing, RemoteReply::Handle(h)) => (
            Phase::DestroyClosingProbe,
            Action::Send(RemoteCall::CloseKey(h)),
        ),
        (Phase::DestroyClosingProbe, RemoteReply::Done) => (
            Phase::Opening,
            Action::Send(RemoteCall::OpenKey(id)),
        ),
        (Phase::Opening, RemoteReply::Handle(h)) => (
            Phase::Destroying { handle: h },
            Action::Send(RemoteCall::DestroyKey(h)),
        ),
        (Phase::Destroying { .. }, RemoteReply::Done) => (Phase::Finished, Action::Complete),
        (Phase::Destroying { handle }, RemoteReply::Failed(e)) => (
            Phase::ClosingFailedDestroy { error: e },
            Action::Send(RemoteCall::CloseKey(handle)),
        ),
        (Phase::ClosingFailedDestroy { error }, _) => fail_with(error),
        (_, RemoteReply::Failed(e)) => fail_with(e),
        _ => out_of_protocol(),
    }
}

/// The attributes of a generate-key call; `None` where the size in bits does
/// not fit the 32 bits of the wire.
pub open spec fn wire_attributes(a: KeyAttributes, id: u32) -> Option<WireKeyAttributes> {
    if a.bits <= u32::MAX {
        Some(
            WireKeyAttributes {
                key_type: a.key_type as u32,
                key_bits: a.bits as u32,
                lifetime: KEY_LIFETIME_PERSISTENT,
                id,
                usage: a.usage_flags,
                alg: a.permitted_algorithms,
            },
        )
    } else {
        None
    }
}

impl Context {
    pub open spec fn is_finished(&self) -> bool {
        self.phase == Phase::Finished
    }

    /// Starts generating a persistent key under the logical id `id`: the first
    /// call to issue, or `InvalidEncoding` where the attributes do not fit the wire.
    pub fn generate_key(key_attrs: &KeyAttributes, id: u32) -> (r: Result<(Context, RemoteCall), Status>)
        ensures
            wire_attributes(*key_attrs, id) is None <==> r == Err::<(Context, RemoteCall), Status>(
                Status::InvalidEncoding,
            ),
            wire_attributes(*key_attrs, id) matches Some(w) ==> r == Ok::<(Context, RemoteCall), Status>(
                (Context { phase: Phase::Generating, id }, RemoteCall::GenerateKey(w)),
            ),
    {
        if key_attrs.bits > u32::MAX as usize {
            return Err(Status::InvalidEncoding);
        }
        let w = WireKeyAttributes {
            key_type: key_attrs.key_type as u32,
            key_bits: key_attrs.bits as u32,
            lifetime: KEY_LIFETIME_PERSISTENT,
            id,
            usage: key_attrs.usage_flags,
            alg: key_attrs.permitted_algorithms,
        };
        Ok((Context { phase: Phase::Generating, id }, RemoteCall::GenerateKey(w)))
    }

    /// Starts destroying the key with logical id `id`: its existence is probed first.
    pub fn destroy_key(id: u32) -> (r: (Context, RemoteCall))
        ensures
            r == (Context { phase: Phase::DestroyProbing, id }, RemoteCall::OpenKey(id)),
    {
        (Context { phase: Phase::DestroyProbing, id }, RemoteCall::OpenKey(id))
    }

    /// Starts probing whether a key with logical id `id` exists.
    pub fn check_key_exists(id: u32) -> (r: (Context, RemoteCall))
        ensures
            r == (Context { phase: Phase::Probing, id }, RemoteCall::OpenKey(id)),
    {
        (Context { phase: Phase::Probing, id }, RemoteCall::OpenKey(id))
    }

    /// Takes the reply to the last call issued and says what to do next.
    pub fn next(&mut self, reply: RemoteReply) -> (a: Action)
        requires
            !old(self).is_finished(),
        ensures
            (final(self).phase, a) == step(old(self).phase, old(self).id, reply),
            final(self).id == old(self).id,
    {
        let fail = |e: RemoteError| -> (r: (Phase, Action))
            ensures
                r == fail_with(e),
            { (Phase::Finished, Action::Fail(Status::from_remote(e))) };
        let (p, a) = match (self.phase, reply) {
            (Phase::Generating, RemoteReply::Handle(h)) => (
                Phase::ClosingGenerated,
                Action::Send(RemoteCall::CloseKey(h)),
            ),
            (Phase::ClosingGenerated, RemoteReply::Done) => (Phase::Finished, Action::Complete),
            (Phase::Probing, RemoteReply::Handle(h)) => (
                Phase::ClosingProbe,
                Action::Send(RemoteCall::CloseKey(h)),
            ),
            (Phase::Probing, RemoteReply::Failed(RemoteError::DoesNotExist)) => (
                Phase::Finished,
                Action::Answer(false),
            ),
            (Phase::ClosingProbe, RemoteReply::Done) => (Phase::Finished, Action::Answer(true)),
            (Phase::DestroyProbing, RemoteReply::Handle(h)) => (
                Phase::DestroyClosingProbe,
                Action::Send(RemoteCall::CloseKey(h)),
            ),
            (Phase::DestroyClosingProbe, RemoteReply::Done) => (
                Phase::Opening,
                Action::Send(RemoteCall::OpenKey(self.id)),
            ),
            (Phase::Opening, RemoteReply::Handle(h)) => (
                Phase::Destroying { handle: h },
                Action::Send(RemoteCall::DestroyKey(h)),
            ),
            (Phase::Destroying { .. }, RemoteReply::Done) => (Phase::Finished, Action::Complete),
            (Phase::Destroying { handle }, RemoteReply::Failed(e)) => (
                Phase::ClosingFailedDestroy { error: e },
                Action::Send(RemoteCall::CloseKey(handle)),
            ),
            (Phase::ClosingFailedDestroy { error }, _) => fail(error),
            (_, RemoteReply::Failed(e)) => fail(e),
            _ => (Phase::Finished, Action::Fail(Status::Backend(COMMUNICATION_FAILURE))),
        };
        self.phase = p;
        a
    }
}

/// PSA status of a call that names a handle which is not open.
pub const INVALID_HANDLE: i32 = -136;

/// PSA status of a call that the partition does not permit.
pub const NOT_PERMITTED: i32 = -133;

/// PSA status of a call that finds no resource left.
pub const INSUFFICIENT_MEMORY: i32 = -134;

/// A faithful remote partition, as the contracts of this module see it: the
/// keys it holds, those among them whose destruction it refuses, the handles
/// open on them, the next handle it gives out and how many destroy calls it
/// has received.
pub struct PartitionModel {
    pub keys: Set<u32>,
    pub locked: Set<u32>,
    pub open: Map<u32, u32>,
    pub next: nat,
    pub destroy_calls: nat,
}

impl PartitionModel {
    /// Every open handle was given out before `next`.
    pub open spec fn wf(&self) -> bool {
        forall|h: u32| #[trigger] self.open.contains_key(h) ==> (h as nat) < self.next
    }

    /// Gives out a fresh handle on key `id`.
    pub open spec fn grant(self, id: u32) -> (PartitionModel, RemoteReply) {
        if self.next <= u32::MAX {
            let h = self.next as u32;
            (
                PartitionModel { open: self.open.insert(h, id), next: self.next + 1, ..self },
                RemoteReply::Handle(h),
            )
        } else {
            (self, RemoteReply::Failed(RemoteError::Other(INSUFFICIENT_MEMORY)))
        }
    }

    /// How the partition answers a call.
    pub open spec fn serve(self, call: RemoteCall) -> (PartitionModel, RemoteReply) {
        match call {
            RemoteCall::GenerateKey(w) => if self.keys.contains(w.id) {
                (self, RemoteReply::Failed(RemoteError::AlreadyExists))
            } else {
                let (p, r) = self.grant(w.id);
                if r is Handle {
                    (PartitionModel { keys: self.keys.insert(w.id), ..p }, r)
                } else {
                    (p, r)
                }
            },
            RemoteCall::OpenKey(id) => if self.keys.contains(id) {
                self.grant(id)
            } else {
                (self, RemoteReply::Failed(RemoteError::DoesNotExist))
            },
            RemoteCall::CloseKey(h) => if self.open.contains_key(h) {
                (PartitionModel { open: self.open.remove(h), ..self }, RemoteReply::Done)
            } else {
                (self, RemoteReply::Failed(RemoteError::Other(INVALID_HANDLE)))
            },
            RemoteCall::DestroyKey(h) => {
                let counted = PartitionModel { destroy_calls: self.destroy_calls + 1, ..self };
                if self.open.contains_key(h) && self.locked.contains(self.open[h]) {
                    (counted, RemoteReply::Failed(RemoteError::Other(NOT_PERMITTED)))
                } else if self.open.contains_key(h) {
                    (
                        PartitionModel {
                            keys: self.keys.remove(self.open[h]),
                            open: self.open.remove(h),
                            ..counted
                        },
                        RemoteReply::Done,
                    )
                } else {
                    (counted, RemoteReply::Failed(RemoteError::Other(INVALID_HANDLE)))
                }
            },
        }
    }
}

/// Runs a context whose next call is `call` against the partition, for at most
/// `fuel` further calls: the partition after it and the last action.
pub open spec fn run(p: PartitionModel, ctx: Context, call: RemoteCall, fuel: nat) -> (
    PartitionModel,
    Action,
)
    decreases fuel,
{
    let (p2, reply) = p.serve(call);
    let (phase, a) = step(ctx.phase, ctx.id, reply);
    match a {
        Action::Send(c) => if fuel > 0 {
            run(p2, Context { phase, ..ctx }, c, (fuel - 1) as nat)
        } else {
            (p2, a)
        },
        _ => (p2, a),
    }
}

/// The number of calls that bounds every operation of a context.
pub open spec fn max_calls() -> nat {
    4
}

pub open spec fn run_exists(p: PartitionModel, id: u32) -> (PartitionModel, Action) {
    run(p, Context { phase: Phase::Probing, id }, RemoteCall::OpenKey(id), max_calls())
}

pub open spec fn run_destroy(p: PartitionModel, id: u32) -> (PartitionModel, Action) {
    run(p, Context { phase: Phase::DestroyProbing, id }, RemoteCall::OpenKey(id), max_calls())
}

pub open spec fn run_generate(p: PartitionModel, w: WireKeyAttributes) -> (PartitionModel, Action) {
    run(p, Context { phase: Phase::Generating, id: w.id }, RemoteCall::GenerateKey(w), max_calls())
}

/// The existence probe leaves no handle open, whatever its outcome: the open
/// handles afterwards are those from before.
pub proof fn lemma_exists_closes_handles(p: PartitionModel, id: u32)
    requires
        p.wf(),
    ensures
        run_exists(p, id).0.open == p.open,
        run_exists(p, id).0.keys == p.keys,
        run_exists(p, id).0.wf(),
{
    reveal_with_fuel(run, 5);
    let (p1, r1) = p.serve(RemoteCall::OpenKey(id));
    if let RemoteReply::Handle(h) = r1 {
        assert(!p.open.contains_key(h));
        assert(p1.open.remove(h) =~= p.open);
    }
}

/// Two keys generated under distinct logical ids, say for two applications
/// that use the same key name, are both made and both kept.
pub proof fn lemma_two_generations(p: PartitionModel, wa: WireKeyAttributes, wb: WireKeyAttributes)
    requires
        p.wf(),
        wa.id != wb.id,
        !p.keys.contains(wa.id),
        !p.keys.contains(wb.id),
        p.next + 2 <= u32::MAX,
    ensures
        ({
            let (p1, a1) = run_generate(p, wa);
            let (p2, a2) = run_generate(p1, wb);
            &&& a1 == Action::Complete
            &&& a2 == Action::Complete
            &&& p2.keys == p.keys.insert(wa.id).insert(wb.id)
            &&& p2.open == p.open
        }),
{
    reveal_with_fuel(run, 5);
    let h0 = p.next as u32;
    let (p1, a1) = run_generate(p, wa);
    assert(!p.open.contains_key(h0));
    assert(p1.open =~= p.open);
    assert(p1.next == p.next + 1);
    let h1 = p1.next as u32;
    assert(!p1.open.contains_key(h1));
    let (p2, a2) = run_generate(p1, wb);
    assert(p2.open =~= p.open);
}

/// Generation and destruction leave no handle open either, whatever their
/// outcome: the handle each one obtains is closed or consumed before it ends.
pub proof fn lemma_key_operations_close_handles(p: PartitionModel, w: WireKeyAttributes, id: u32)
    requires
        p.wf(),
    ensures
        run_generate(p, w).0.open == p.open,
        run_destroy(p, id).0.open == p.open,
{
    reveal_with_fuel(run, 5);
    let (p1, r1) = p.serve(RemoteCall::GenerateKey(w));
    if let RemoteReply::Handle(h) = r1 {
        assert(!p.open.contains_key(h));
        assert(p1.open.remove(h) =~= p.open);
    }
    let (q1, s1) = p.serve(RemoteCall::OpenKey(id));
    if let RemoteReply::Handle(h) = s1 {
        assert(!p.open.contains_key(h));
        let q2 = q1.serve(RemoteCall::CloseKey(h)).0;
        assert(q2.open =~= p.open);
        let (q3, s3) = q2.serve(RemoteCall::OpenKey(id));
        if let RemoteReply::Handle(g) = s3 {
            assert(!q2.open.contains_key(g));
            assert(q3.open.remove(g) =~= p.open);
            let (q4, s4) = q3.serve(RemoteCall::DestroyKey(g));
            if s4 is Failed {
                assert(q4.open == q3.open);
                let q5 = q4.serve(RemoteCall::CloseKey(g)).0;
                assert(q5.open =~= p.open);
            }
        }
    }
}

/// Destroying a key that the partition does not hold fails with `KeyNotFound`
/// and sends no destroy call: the partition is left as it was.
pub proof fn lemma_destroy_absent(p: PartitionModel, id: u32)
    requires
        !p.keys.contains(id),
    ensures
        run_destroy(p, id) == (p, Action::Fail(Status::KeyNotFound)),
{
    reveal_with_fuel(run, 5);
}

/// Generate, probe, destroy, probe again, for a logical id the partition does
/// not hold yet: generation succeeds, the first probe answers true, the
/// destruction succeeds, the second probe answers false, and the partition
/// ends with the keys and handles it started with.
pub proof fn lemma_round_trip(p: PartitionModel, w: WireKeyAttributes)
    requires
        p.wf(),
        !p.keys.contains(w.id),
        !p.locked.contains(w.id),
        p.next + 3 <= u32::MAX,
    ensures
        ({
            let (p1, a1) = run_generate(p, w);
            let (p2, a2) = run_exists(p1, w.id);
            let (p3, a3) = run_destroy(p2, w.id);
            let (p4, a4) = run_exists(p3, w.id);
            &&& a1 == Action::Complete
            &&& a2 == Action::Answer(true)
            &&& a3 == Action::Complete
            &&& a4 == Action::Answer(false)
            &&& p4.keys == p.keys
            &&& p4.open == p.open
        }),
{
    reveal_with_fuel(run, 5);
    let id = w.id;
    let h0 = p.next as u32;
    let (p1, a1) = run_generate(p, w);
    assert(!p.open.contains_key(h0));
    assert(p1.keys == p.keys.insert(id));
    assert(p1.open =~= p.open);
    assert(p1.next == p.next + 1);
    let (p2, a2) = run_exists(p1, id);
    let h1 = p1.next as u32;
    assert(!p1.open.contains_key(h1));
    assert(p2.open =~= p.open);
    assert(p2.keys == p1.keys);
    assert(p2.next == p.next + 2);
    let (p3, a3) = run_destroy(p2, id);
    let h2 = p2.next as u32;
    let h3 = (p2.next + 1) as u32;
    assert(!p2.open.contains_key(h2));
    assert(p3.keys =~= p.keys);
    assert(p3.open =~= p.open);
    let (p4, a4) = run_exists(p3, id);
    assert(!p3.keys.contains(id));
}

} // verus!
