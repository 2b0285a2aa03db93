//! Finding a host by which a node answers.
use crate::errors::{HiveLibError, NetworkError};
use crate::hive::node::{Target, TargetView};
use vstd::prelude::*;

verus! {

/// Tries the hosts of the target, one after the other.
#[derive(Debug)]
pub struct Ping {
    pub target: Target,
}

/// What to do next.
#[derive(Debug)]
pub enum PingAction {
    /// Ping this host.
    Try(String),
    /// A host answered, or none is left.
    Finish(Result<(), HiveLibError>),
}

/// What an action holds.
pub ghost enum PingActionView {
    Try(Seq<char>),
    Finish(Result<(), HiveLibError>),
}

impl View for PingAction {
    type V = PingActionView;

    open spec fn view(&self) -> PingActionView {
        match *self {
            PingAction::Try(host) => PingActionView::Try(host@),
            PingAction::Finish(result) => PingActionView::Finish(result),
        }
    }
}

/// What to do about a target: try its next host, unless there is none.
pub open spec fn try_next(target: TargetView) -> PingActionView {
    if target.current_host < target.hosts.len() {
        PingActionView::Try(target.hosts[target.current_host as int])
    } else {
        PingActionView::Finish(Err(HiveLibError::NetworkError(NetworkError::HostsExhausted)))
    }
}

/// The target after the host that was tried did, or did not, answer.
pub open spec fn after_answer(target: TargetView, answered: bool) -> TargetView {
    if answered {
        target
    } else {
        TargetView { current_host: target.current_host + 1, ..target }
    }
}

impl Ping {
    /// The step as it is shown to the user.
    pub fn to_string(&self) -> (s: String)
        ensures
            s@ == "Ping"@,
    {
        "Ping".to_owned()
    }

    /// What to do first, and again after a host has failed.
    pub fn attempt(&self) -> (r: PingAction)
        ensures
            r@ == try_next(self.target@),
    {
        match self.target.get_preferred_host() {
            Ok(host) => PingAction::Try(host.clone()),
            Err(error) => PingAction::Finish(Err(error)),
        }
    }

    /// Goes on after the host that was tried did, or did not, answer.
    pub fn answer(&mut self, answered: bool) -> (r: PingAction)
        requires
            old(self).target@.current_host < old(self).target@.hosts.len(),
        ensures
            final(self).target@ == after_answer(old(self).target@, answered),
            match r@ {
                PingActionView::Finish(Ok(_)) => answered,
                action => !answered && action == try_next(final(self).target@),
            },
    {
        if answered {
            return PingAction::Finish(Ok(()));
        }
        assert(self.target@.hosts.len() == self.target.hosts.len());
        self.target.host_failed();
        self.attempt()
    }
}

/// The target after so many hosts have failed, one after the other.
pub open spec fn after_failures(target: TargetView, failures: nat) -> TargetView
    decreases failures,
{
    if failures == 0 {
        target
    } else {
        after_answer(after_failures(target, (failures - 1) as nat), false)
    }
}

/// Hosts are tried from left to right, each once: after some have failed, the next in the list is
/// tried, and when all have failed there is none left to try.
pub proof fn hosts_are_tried_in_order(target: TargetView, failures: nat)
    requires
        target.current_host + failures <= target.hosts.len(),
    ensures
        try_next(after_failures(target, failures)) == if target.current_host + failures
            < target.hosts.len() {
            PingActionView::Try(target.hosts[(target.current_host + failures) as int])
        } else {
            PingActionView::Finish(Err(HiveLibError::NetworkError(NetworkError::HostsExhausted)))
        },
{
    lemma_after_failures(target, failures);
}

proof fn lemma_after_failures(target: TargetView, failures: nat)
    ensures
        after_failures(target, failures) == (TargetView {
            current_host: target.current_host + failures,
            ..target
        }),
    decreases failures,
{
    if failures > 0 {
        lemma_after_failures(target, (failures - 1) as nat);
    }
}

} // verus!
