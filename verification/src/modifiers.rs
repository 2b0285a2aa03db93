//! Settings that a sub-command applies to everything it does.
use crate::hive::node::Name;
use std::io::IsTerminal;
use vstd::prelude::*;

verus! {

/// How ssh treats the key of a host.
#[derive(Clone, Copy, Debug, PartialEq, Eq, Structural)]
pub enum StrictHostKeyChecking {
    /// Accept every host. Dangerous!
    No,
    /// Accept hosts that were never seen before.
    AcceptNew,
}

impl Default for StrictHostKeyChecking {
    fn default() -> (r: Self)
        ensures
            r == StrictHostKeyChecking::AcceptNew,
    {
        StrictHostKeyChecking::AcceptNew
    }
}

/// The settings themselves.
#[derive(Clone, Copy, Debug, PartialEq, Eq, Structural)]
pub struct SubCommandModifiers {
    pub show_trace: bool,
    pub non_interactive: bool,
    pub ssh_accept_host: StrictHostKeyChecking,
    pub ssh_verbosity: usize,
    pub print_build_logs: bool,
    pub experimental_nix_client: bool,
}

/// `std::io::stdin().is_terminal()`: whether the standard input is a terminal. Nothing is
/// promised of it, it rests on how the process was started.
#[verifier::external_body]
fn stdin_is_terminal() -> (r: bool) {
    std::io::stdin().is_terminal()
}

impl SubCommandModifiers {
    /// The settings to start from, given whether the standard input is a terminal.
    pub open spec fn starting(terminal: bool) -> SubCommandModifiers {
        SubCommandModifiers {
            show_trace: false,
            non_interactive: !terminal,
            ssh_accept_host: StrictHostKeyChecking::AcceptNew,
            ssh_verbosity: 0,
            print_build_logs: false,
            experimental_nix_client: false,
        }
    }

    /// The settings to start from: without a terminal nothing is interactive.
    pub fn for_terminal(terminal: bool) -> (r: Self)
        ensures
            r == Self::starting(terminal),
    {
        SubCommandModifiers {
            show_trace: false,
            non_interactive: !terminal,
            ssh_accept_host: StrictHostKeyChecking::default(),
            ssh_verbosity: 0,
            print_build_logs: false,
            experimental_nix_client: false,
        }
    }
}

impl Default for SubCommandModifiers {
    fn default() -> (r: Self)
        ensures
            r == Self::starting(!r.non_interactive),
    {
        Self::for_terminal(stdin_is_terminal())
    }
}

/// What to evaluate of a hive.
pub enum EvalGoal<'a> {
    Inspect,
    Names,
    GetTopLevel(&'a Name),
}

} // verus!
