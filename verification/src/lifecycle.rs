//! The whole run as a sequence of operations, and what holds of every such
//! sequence.
//!
//! A `World` is the channel together with the supervisor. The host and the
//! supervisor's thread act on it in any order: the host sends or drops its
//! end, the thread takes a turn or drops its end. Each operation has an
//! effect; the laws below speak of the effects of arbitrary sequences.

use crate::channel::{ChannelModel, SendError};
use crate::signal::TERMINATE;
use crate::supervisor::{Phase, Reaction, SupervisorModel};
use vstd::prelude::*;

verus! {

/// One operation of the host or of the supervisor's thread.
pub enum Op {
    /// The host sends a value.
    Send(i32),
    /// The host drops the sending end.
    DropSender,
    /// The supervisor's thread takes one turn.
    Poll,
    /// The receiving end is dropped.
    DropReceiver,
}

/// What an operation brought about.
pub enum Effect {
    /// The answer to a send.
    Sent(Result<(), SendError>),
    /// The supervisor's reaction in its turn.
    Reacted(Reaction),
    /// An end was dropped.
    Dropped,
}

/// Whether the effect is a kill of the process group.
pub open spec fn is_kill(effect: Effect) -> bool {
    effect matches Effect::Reacted(Reaction::KillGroup { .. })
}

/// Whether the effect is the completion of the supervisor's one receive: a
/// kill or a fault.
pub open spec fn is_completion(effect: Effect) -> bool {
    effect matches Effect::Reacted(reaction) && (reaction is KillGroup || reaction is Fail)
}

/// The channel and the supervisor at one moment.
pub struct World {
    pub channel: ChannelModel,
    pub supervisor: SupervisorModel,
}

impl World {
    /// The moment after startup: a fresh channel and a running supervisor
    /// that owns the process group `pgid`.
    pub open spec fn initial(pgid: u32) -> World {
        World { channel: ChannelModel::fresh(), supervisor: SupervisorModel::started(pgid) }
    }

    /// The world after `op`, and the effect of `op`.
    pub open spec fn step(self, op: Op) -> (World, Effect) {
        match op {
            Op::Send(value) => {
                let (channel, answer) = self.channel.send(value);
                (World { channel, ..self }, Effect::Sent(answer))
            },
            Op::DropSender => (
                World { channel: self.channel.drop_sender(), ..self },
                Effect::Dropped,
            ),
            Op::Poll => {
                let (supervisor, channel, reaction) = self.supervisor.attempt(self.channel);
                (World { channel, supervisor }, Effect::Reacted(reaction))
            },
            Op::DropReceiver => (
                World { channel: self.channel.drop_receiver(), ..self },
                Effect::Dropped,
            ),
        }
    }

    /// The world after the first `n` operations of `ops`.
    pub open spec fn after(self, ops: Seq<Op>, n: nat) -> World
        decreases n,
    {
        if n == 0 {
            self
        } else {
            self.after(ops, (n - 1) as nat).step(ops[n - 1]).0
        }
    }

    /// The effect of the operation at index `i` of `ops`.
    pub open spec fn effect(self, ops: Seq<Op>, i: nat) -> Effect {
        self.after(ops, i).step(ops[i as int]).1
    }

    /// How many of the first `n` operations of `ops` had a kill as effect.
    pub open spec fn kills(self, ops: Seq<Op>, n: nat) -> nat
        decreases n,
    {
        if n == 0 {
            0
        } else {
            let earlier = self.kills(ops, (n - 1) as nat);
            if is_kill(self.effect(ops, (n - 1) as nat)) {
                earlier + 1
            } else {
                earlier
            }
        }
    }

    /// How many of the first `n` operations of `ops` completed the
    /// supervisor's receive.
    pub open spec fn completions(self, ops: Seq<Op>, n: nat) -> nat
        decreases n,
    {
        if n == 0 {
            0
        } else {
            let earlier = self.completions(ops, (n - 1) as nat);
            if is_completion(self.effect(ops, (n - 1) as nat)) {
                earlier + 1
            } else {
                earlier
            }
        }
    }

    /// Whether one of the first `n` operations of `ops` was an accepted send
    /// of `value`.
    pub open spec fn delivered(self, ops: Seq<Op>, n: nat, value: i32) -> bool {
        exists|j: nat|
            j < n && ops[j as int] == Op::Send(value) && #[trigger] self.effect(ops, j)
                == Effect::Sent(Ok(()))
    }
}

/// A step never revives a finished supervisor nor takes from its channel,
/// and the step that completes the receive finishes a running supervisor.
proof fn lemma_step_phase(world: World, op: Op)
    ensures
        is_kill(world.step(op).1) ==> is_completion(world.step(op).1),
        world.supervisor.phase is Terminated ==> world.step(op).0.supervisor == world.supervisor
            && !is_completion(world.step(op).1) && world.channel.queue.is_prefix_of(
            world.step(op).0.channel.queue,
        ),
        is_completion(world.step(op).1) ==> world.supervisor.phase is Running && world.step(
            op,
        ).0.supervisor.phase is Terminated,
{
}

/// The supervisor completes its receive at most once, whatever the world
/// and the operations: it takes one answer from the channel and is finished.
/// While it still runs it has completed none.
pub proof fn lemma_receive_completes_once(world: World, ops: Seq<Op>, n: nat)
    requires
        n <= ops.len(),
    ensures
        world.completions(ops, n) <= 1,
        world.kills(ops, n) <= world.completions(ops, n),
        world.after(ops, n).supervisor.phase is Running ==> world.completions(ops, n) == 0,
    decreases n,
{
    if n > 0 {
        let before = (n - 1) as nat;
        lemma_receive_completes_once(world, ops, before);
        lemma_step_phase(world.after(ops, before), ops[before as int]);
    }
}

/// The kill happens at most once: whatever the world, and however many
/// notices the operations send, at most one of them has a kill as effect.
pub proof fn lemma_at_most_one_kill(world: World, ops: Seq<Op>, n: nat)
    requires
        n <= ops.len(),
    ensures
        world.kills(ops, n) <= 1,
{
    lemma_receive_completes_once(world, ops, n);
}

/// Whatever is queued was put there by an accepted send.
proof fn lemma_queue_was_delivered(pgid: u32, ops: Seq<Op>, n: nat)
    requires
        n <= ops.len(),
    ensures
        forall|k: int|
            0 <= k < World::initial(pgid).after(ops, n).channel.queue.len()
                ==> World::initial(pgid).delivered(
                ops,
                n,
                #[trigger] World::initial(pgid).after(ops, n).channel.queue[k],
            ),
    decreases n,
{
    let start = World::initial(pgid);
    if n > 0 {
        let before = (n - 1) as nat;
        lemma_queue_was_delivered(pgid, ops, before);
        let earlier = start.after(ops, before);
        let now = start.after(ops, n);
        assert forall|k: int| 0 <= k < now.channel.queue.len() implies start.delivered(
            ops,
            n,
            #[trigger] now.channel.queue[k],
        ) by {
            let value = now.channel.queue[k];
            if k < earlier.channel.queue.len() && earlier.channel.queue[k] == value {
                assert(start.delivered(ops, before, earlier.channel.queue[k]));
                let j = choose|j: nat|
                    j < before && ops[j as int] == Op::Send(value) && #[trigger] start.effect(
                        ops,
                        j,
                    ) == Effect::Sent(Ok(()));
                assert(j < n && start.effect(ops, j) == Effect::Sent(Ok(())));
            } else if k + 1 < earlier.channel.queue.len() && earlier.channel.queue[k + 1]
                == value {
                assert(start.delivered(ops, before, earlier.channel.queue[k + 1]));
                let j = choose|j: nat|
                    j < before && ops[j as int] == Op::Send(value) && #[trigger] start.effect(
                        ops,
                        j,
                    ) == Effect::Sent(Ok(()));
                assert(j < n && start.effect(ops, j) == Effect::Sent(Ok(())));
            } else {
                assert(ops[before as int] == Op::Send(value));
                assert(start.effect(ops, before) == Effect::Sent(Ok(())));
            }
        }
    }
}

/// The supervisor never kills on its own: a kill is the effect of a turn of
/// the supervisor, it names the process group the supervisor was started
/// with, and before it the termination notice was sent and accepted.
pub proof fn lemma_kill_follows_notice(pgid: u32, ops: Seq<Op>, i: nat)
    requires
        i < ops.len(),
        is_kill(World::initial(pgid).effect(ops, i)),
    ensures
        ops[i as int] == Op::Poll,
        World::initial(pgid).effect(ops, i) == Effect::Reacted(Reaction::KillGroup { pgid }),
        World::initial(pgid).delivered(ops, i, TERMINATE),
{
    let start = World::initial(pgid);
    let world = start.after(ops, i);
    lemma_queue_was_delivered(pgid, ops, i);
    lemma_owner_is_constant(start, ops, i);
    assert(world.channel.queue.len() > 0);
    assert(world.channel.queue[0] == TERMINATE);
}

/// The supervisor owns the same process group throughout.
pub proof fn lemma_owner_is_constant(world: World, ops: Seq<Op>, n: nat)
    requires
        n <= ops.len(),
    ensures
        world.after(ops, n).supervisor.pgid == world.supervisor.pgid,
    decreases n,
{
    if n > 0 {
        lemma_owner_is_constant(world, ops, (n - 1) as nat);
    }
}

/// Without a termination notice there is no kill: if the host never sends
/// one, whatever else happens, the process group is left alone.
pub proof fn lemma_no_notice_no_kill(pgid: u32, ops: Seq<Op>, n: nat)
    requires
        n <= ops.len(),
        forall|j: int| 0 <= j < n ==> ops[j] != Op::Send(TERMINATE),
    ensures
        World::initial(pgid).kills(ops, n) == 0,
    decreases n,
{
    if n > 0 {
        let before = (n - 1) as nat;
        lemma_no_notice_no_kill(pgid, ops, before);
        if is_kill(World::initial(pgid).effect(ops, before)) {
            lemma_kill_follows_notice(pgid, ops, before);
        }
    }
}

/// An accepted notice stays in the slot until the supervisor's next turn.
proof fn lemma_notice_stays_queued(pgid: u32, ops: Seq<Op>, i: nat, m: nat)
    requires
        i < m <= ops.len(),
        ops[i as int] == Op::Send(TERMINATE),
        World::initial(pgid).effect(ops, i) == Effect::Sent(Ok(())),
        World::initial(pgid).after(ops, i).supervisor.phase is Running,
        forall|j: int| i < j < m ==> ops[j] != Op::Poll && ops[j] != Op::DropReceiver,
    ensures
        World::initial(pgid).after(ops, m).channel.queue == seq![TERMINATE],
        World::initial(pgid).after(ops, m).channel.receiver_open,
        World::initial(pgid).after(ops, m).supervisor.phase is Running,
    decreases m,
{
    let start = World::initial(pgid);
    if m == i + 1 {
        let world = start.after(ops, i);
        assert(world.channel.queue.push(TERMINATE) =~= seq![TERMINATE]);
    } else {
        lemma_notice_stays_queued(pgid, ops, i, (m - 1) as nat);
    }
}

/// An accepted notice is honoured: when the termination notice was accepted
/// while the supervisor ran, the supervisor's next turn kills the process
/// group it was started with, provided its end was not dropped in between.
pub proof fn lemma_accepted_notice_is_honoured(pgid: u32, ops: Seq<Op>, i: nat, k: nat)
    requires
        i < k < ops.len(),
        ops[i as int] == Op::Send(TERMINATE),
        World::initial(pgid).effect(ops, i) == Effect::Sent(Ok(())),
        World::initial(pgid).after(ops, i).supervisor.phase is Running,
        forall|j: int| i < j < k ==> ops[j] != Op::Poll && ops[j] != Op::DropReceiver,
        ops[k as int] == Op::Poll,
    ensures
        World::initial(pgid).effect(ops, k) == Effect::Reacted(Reaction::KillGroup { pgid }),
{
    lemma_notice_stays_queued(pgid, ops, i, k);
    lemma_owner_is_constant(World::initial(pgid), ops, k);
}

/// Once the supervisor has finished it stays finished: no later operation
/// kills, and what is sent from then on is never read, since nothing is
/// taken from the channel again.
pub proof fn lemma_late_notice_is_never_read(world: World, ops: Seq<Op>, n: nat)
    requires
        world.supervisor.phase is Terminated,
        n <= ops.len(),
    ensures
        world.after(ops, n).supervisor == world.supervisor,
        world.kills(ops, n) == 0,
        world.channel.queue.is_prefix_of(world.after(ops, n).channel.queue),
    decreases n,
{
    if n > 0 {
        let before = (n - 1) as nat;
        lemma_late_notice_is_never_read(world, ops, before);
        lemma_step_phase(world.after(ops, before), ops[before as int]);
    }
}

/// The first send has room: as long as the host has neither sent nor dropped
/// its end, and the receiving end is held, a send is accepted.
pub proof fn lemma_first_send_is_accepted(pgid: u32, ops: Seq<Op>, i: nat, value: i32)
    requires
        i < ops.len(),
        ops[i as int] == Op::Send(value),
        forall|j: int| 0 <= j < i ==> ops[j] == Op::Poll,
    ensures
        World::initial(pgid).effect(ops, i) == Effect::Sent(Ok(())),
{
    lemma_only_turns_change_nothing(pgid, ops, i);
}

/// While the supervisor only takes turns on the fresh channel, it waits and
/// the world stays as it was.
proof fn lemma_only_turns_change_nothing(pgid: u32, ops: Seq<Op>, n: nat)
    requires
        n <= ops.len(),
        forall|j: int| 0 <= j < n ==> ops[j] == Op::Poll,
    ensures
        World::initial(pgid).after(ops, n) == World::initial(pgid),
    decreases n,
{
    if n > 0 {
        lemma_only_turns_change_nothing(pgid, ops, (n - 1) as nat);
    }
}

} // verus!
