//! The membership protocol of one node: joining the replicated membership
//! state machine, the heartbeat to the current leader, group membership and
//! leaving.
use vstd::prelude::*;
use crate::ident::{ident_of, xxhash64_of_str};

verus! {

/// Milliseconds between two heartbeats.
pub const PING_INTERVAL: u64 = 100;

/// Where a member stands in its lifecycle. `Closed` is final.
#[derive(Debug, Clone, Copy, PartialEq, Eq, Structural)]
pub enum MemberPhase {
    Joining,
    Active,
    Closed,
}

/// What the heartbeat task does on one tick.
#[derive(Debug, Clone, Copy, PartialEq, Eq, Structural)]
pub enum HeartbeatAction {
    /// Send a ping carrying `member` to the leader whose server id is
    /// `leader`, then sleep `PING_INTERVAL`.
    Ping { leader: u64, member: u64 },
    /// Send nothing this tick and sleep `PING_INTERVAL`.
    Skip,
    /// End the heartbeat task.
    Stop,
}

/// A command for the group membership state machine.
pub struct GroupCommand {
    pub member: u64,
    pub group: String,
    pub join: bool,
}

/// The heartbeat's decision for a member in `phase` with id `member`, when
/// leader resolution gave `leader`.
pub open spec fn heartbeat_of(phase: MemberPhase, member: u64, leader: Option<u64>) -> HeartbeatAction {
    match phase {
        MemberPhase::Closed => HeartbeatAction::Stop,
        MemberPhase::Joining => HeartbeatAction::Skip,
        MemberPhase::Active => match leader {
            Some(l) => HeartbeatAction::Ping { leader: l, member },
            None => HeartbeatAction::Skip,
        },
    }
}

/// A node's membership: its own server id, derived from its address, its
/// phase, and whether its leave command was issued.
pub struct MemberService {
    address: String,
    id: u64,
    phase: MemberPhase,
    left: bool,
}

impl MemberService {
    pub closed spec fn server_id(&self) -> u64 {
        self.id
    }

    pub closed spec fn address_view(&self) -> Seq<char> {
        self.address@
    }

    pub closed spec fn phase(&self) -> MemberPhase {
        self.phase
    }

    /// Whether the leave command for this node was handed out.
    pub closed spec fn has_left(&self) -> bool {
        self.left
    }

    /// A member for the node listening at `server_address`, about to issue
    /// its join command.
    pub fn new(server_address: &String) -> (r: MemberService)
        ensures
            r.server_id() == ident_of(server_address@),
            r.address_view() == server_address@,
            r.phase() == MemberPhase::Joining,
            !r.has_left(),
    {
        MemberService {
            address: server_address.clone(),
            id: xxhash64_of_str(server_address.as_str()),
            phase: MemberPhase::Joining,
            left: false,
        }
    }

    /// The address that the join command carries.
    pub fn address(&self) -> (r: &String)
        ensures
            r@ == self.address_view(),
    {
        &self.address
    }

    /// Takes the answer to the join command: an acknowledged join makes a
    /// joining member active; anything else changes nothing.
    pub fn joined(&mut self, acknowledged: bool)
        ensures
            final(self).phase() == (if acknowledged && old(self).phase() == MemberPhase::Joining {
                MemberPhase::Active
            } else {
                old(self).phase()
            }),
            final(self).server_id() == old(self).server_id(),
            final(self).address_view() == old(self).address_view(),
            final(self).has_left() == old(self).has_left(),
    {
        if acknowledged && self.phase == MemberPhase::Joining {
            self.phase = MemberPhase::Active;
        }
    }

    /// One tick of the heartbeat: ping the resolved leader while active,
    /// skip the tick silently when no leader was resolved, stop once closed.
    pub fn heartbeat(&self, leader: Option<u64>) -> (r: HeartbeatAction)
        ensures
            r == heartbeat_of(self.phase(), self.server_id(), leader),
    {
        match self.phase {
            MemberPhase::Closed => HeartbeatAction::Stop,
            MemberPhase::Joining => HeartbeatAction::Skip,
            MemberPhase::Active => match leader {
                Some(l) => HeartbeatAction::Ping { leader: l, member: self.id },
                None => HeartbeatAction::Skip,
            },
        }
    }

    /// Stops the heartbeat from its next tick on.
    pub fn close(&mut self)
        ensures
            final(self).phase() == MemberPhase::Closed,
            final(self).server_id() == old(self).server_id(),
            final(self).address_view() == old(self).address_view(),
            final(self).has_left() == old(self).has_left(),
    {
        self.phase = MemberPhase::Closed;
    }

    /// Closes the member and returns the id to issue the leave command for;
    /// once that was handed out, `None`, so no second removal is issued.
    pub fn leave(&mut self) -> (r: Option<u64>)
        ensures
            (final(self).phase(), final(self).has_left(), r) == leave_of(
                old(self).has_left(),
                old(self).server_id(),
            ),
            final(self).server_id() == old(self).server_id(),
            final(self).address_view() == old(self).address_view(),
    {
        self.close();
        if self.left {
            None
        } else {
            self.left = true;
            Some(self.id)
        }
    }

    /// The command that adds this node to `group`.
    pub fn join_group(&self, group: &String) -> (r: GroupCommand)
        ensures
            r.member == self.server_id(),
            r.group@ == group@,
            r.join,
    {
        GroupCommand { member: self.id, group: group.clone(), join: true }
    }

    /// The command that removes this node from `group`.
    pub fn leave_group(&self, group: &String) -> (r: GroupCommand)
        ensures
            r.member == self.server_id(),
            r.group@ == group@,
            !r.join,
    {
        GroupCommand { member: self.id, group: group.clone(), join: false }
    }

    pub fn get_server_id(&self) -> (r: u64)
        ensures
            r == self.server_id(),
    {
        self.id
    }

    /// At teardown: the id to issue a best-effort leave command for, unless
    /// the node already left.
    pub fn pending_leave(&self) -> (r: Option<u64>)
        ensures
            r == (if self.has_left() {
                None
            } else {
                Some(self.server_id())
            }),
    {
        if self.left {
            None
        } else {
            Some(self.id)
        }
    }
}

/// The member after `leave`, as phase and left flag, and the leave command
/// it hands out.
pub open spec fn leave_of(left: bool, id: u64) -> (MemberPhase, bool, Option<u64>) {
    (MemberPhase::Closed, true, if left { None } else { Some(id) })
}

/// Leaving twice issues the leave command at most once: the second call
/// hands out nothing and leaves the member as the first left it.
pub proof fn lemma_leave_twice(left: bool, id: u64)
    ensures
        leave_of(leave_of(left, id).1, id).2 == None::<u64>,
        leave_of(leave_of(left, id).1, id).0 == leave_of(left, id).0,
        leave_of(leave_of(left, id).1, id).1 == leave_of(left, id).1,
{
}

} // verus!
