//! Carrying out a plan, step after step.
use crate::errors::HiveLibError;
use crate::hive::node::{Context, Name, Step, StepView};
use crate::status::{NodeStatus, NodeStatusView, UiMessage};
use crate::store_path::SafeStorePath;
use crate::text::{decimal, decimal_of};
use vstd::prelude::*;

verus! {

/// A plan whose steps are carried out one after the other.
#[derive(Debug)]
pub struct NodePlan {
    pub context: Context,
    pub steps: Vec<Step>,
    /// Whether the node is evaluated while the first steps are carried out.
    pub greedy_evaluate: bool,
    /// Whether a node that cannot be reached counts as done.
    pub ignore_failed_ping: bool,
}

/// Whether a plan has something to evaluate, which can be begun before its turn comes. What is known
/// already need not be evaluated.
pub fn evaluates_early(steps: &Vec<Step>) -> (r: bool)
    ensures
        r == exists|i: int|
            0 <= i < steps@.len() && (#[trigger] steps@[i])@ == (StepView::Evaluate {
                cached_evaluation: None,
            }),
{
    for i in 0..steps.len()
        invariant
            forall|k: int|
                0 <= k < i ==> (#[trigger] steps@[k])@ != (StepView::Evaluate {
                    cached_evaluation: None,
                }),
    {
        if let Step::Evaluate(step) = &steps[i] {
            if step.cached_evaluation.is_none() {
                assert(steps@[i as int]@ == (StepView::Evaluate { cached_evaluation: None }));
                return true;
            }
        }
    }
    false
}

/// A store path that one step fills in and later steps read.
#[derive(Debug)]
pub struct OutputHandle {
    inner: Option<SafeStorePath>,
}

impl View for OutputHandle {
    type V = Option<Seq<char>>;

    closed spec fn view(&self) -> Option<Seq<char>> {
        match self.inner {
            Some(path) => Some(path@),
            None => None,
        }
    }
}

impl OutputHandle {
    /// A handle whose path is not known yet.
    pub fn new() -> (r: Self)
        ensures
            r@ is None,
    {
        OutputHandle { inner: None }
    }

    /// A handle whose path is known already.
    pub fn new_known(store_path: SafeStorePath) -> (r: Self)
        ensures
            r@ == Some(store_path@),
    {
        OutputHandle { inner: Some(store_path) }
    }

    /// Fills in the path.
    pub fn set(&mut self, store_path: SafeStorePath)
        ensures
            final(self)@ == Some(store_path@),
    {
        self.inner = Some(store_path);
    }

    /// The path, where it is known.
    pub fn get(&self) -> (r: Option<SafeStorePath>)
        ensures
            match r {
                Some(path) => self@ == Some(path@),
                None => self@ is None,
            },
    {
        match &self.inner {
            Some(path) => Some(path.clone()),
            None => None,
        }
    }

    /// The path, or an error where the step that fills it in was never planned.
    pub fn require(&self) -> (r: Result<SafeStorePath, HiveLibError>)
        ensures
            match r {
                Ok(path) => self@ == Some(path@),
                Err(error) => self@ is None && error == HiveLibError::MissingStepOutput,
            },
    {
        match self.get() {
            Some(path) => Ok(path),
            None => Err(HiveLibError::MissingStepOutput),
        }
    }
}

/// An error where the program is to end.
pub fn app_shutdown_guard(should_quit: bool) -> (r: Result<(), HiveLibError>)
    ensures
        match r {
            Ok(()) => !should_quit,
            Err(error) => should_quit && error == HiveLibError::Sigint,
        },
{
    if should_quit {
        return Err(HiveLibError::Sigint);
    }
    Ok(())
}

/// What to do next.
#[allow(inconsistent_fields)]
#[derive(Debug)]
pub enum ExecutorAction {
    /// Tell the status bar, show how far the plan is, and carry out the step at this position.
    Execute { position: usize, progress: String, message: UiMessage },
    /// Tell the status bar, where there is something to tell. The plan is over.
    Finish { message: Option<UiMessage>, result: Result<(), HiveLibError> },
}

/// Whether a message sets the status of a node.
pub open spec fn sets_status(message: UiMessage, name: Name, status: NodeStatusView) -> bool {
    message matches UiMessage::SetStatus(node, value) && node == name && value@ == status
}

/// How far a plan is.
pub open spec fn progress_text(position: nat, length: nat) -> Seq<char> {
    decimal(position + 1) + "/"@ + decimal(length)
}

/// Whether `action` comes before the step at `position`: the program ends where it was asked to,
/// else the step is carried out, and after the last step the node has succeeded.
pub open spec fn comes_before(
    action: ExecutorAction,
    plan: NodePlan,
    position: int,
    should_quit: bool,
) -> bool {
    if position >= plan.steps@.len() {
        action matches ExecutorAction::Finish { message: Some(message), result } && sets_status(
            message,
            plan.context.name,
            NodeStatusView::Succeeded,
        ) && result is Ok
    } else if should_quit {
        action matches ExecutorAction::Finish { message, result } && message is None && result
            == Err::<(), HiveLibError>(HiveLibError::Sigint)
    } else {
        action matches ExecutorAction::Execute { position: at, progress, message } && at
            == position && progress@ == progress_text(position as nat, plan.steps@.len())
            && sets_status(
            message,
            plan.context.name,
            NodeStatusView::Running {
                status: plan.steps@[position]@.shown(),
                last_log: None,
            },
        )
    }
}

impl NodePlan {
    /// What to do before the step at `position`, given whether the program was asked to end.
    fn before_step(&self, position: usize, should_quit: bool) -> (r: ExecutorAction)
        requires
            position <= self.steps@.len(),
        ensures
            comes_before(r, *self, position as int, should_quit),
    {
        if position >= self.steps.len() {
            return ExecutorAction::Finish {
                message: Some(
                    UiMessage::SetStatus(self.context.name.clone(), NodeStatus::Succeeded),
                ),
                result: Ok(()),
            };
        }
        if let Err(error) = app_shutdown_guard(should_quit) {
            return ExecutorAction::Finish { message: None, result: Err(error) };
        }
        let mut progress = decimal_of(position as u64 + 1);
        progress.push_str("/");
        progress.push_str(decimal_of(self.steps.len() as u64).as_str());
        let status = NodeStatus::Running {
            status: self.steps[position].to_string(),
            last_log: None,
        };
        ExecutorAction::Execute {
            position,
            progress,
            message: UiMessage::SetStatus(self.context.name.clone(), status),
        }
    }

    /// Begins to carry out the plan. Nothing is begun where the program was asked to end.
    pub fn start(&self, should_quit: bool) -> (r: ExecutorAction)
        ensures
            if should_quit {
                r matches ExecutorAction::Finish { message, result } && message is None && result
                    == Err::<(), HiveLibError>(HiveLibError::Sigint)
            } else {
                comes_before(r, *self, 0, false)
            },
    {
        if let Err(error) = app_shutdown_guard(should_quit) {
            return ExecutorAction::Finish { message: None, result: Err(error) };
        }
        self.before_step(0, should_quit)
    }

    /// Goes on after the step at `position` has succeeded or failed, given whether the program was
    /// asked to end.
    pub fn next(
        &self,
        position: usize,
        result: Result<(), HiveLibError>,
        should_quit: bool,
    ) -> (r: ExecutorAction)
        requires
            position < self.steps.len(),
        ensures
            match result {
                Ok(()) => comes_before(r, *self, position + 1, should_quit),
                Err(error) => if self.steps@[position as int] is Ping && self.ignore_failed_ping {
                    r matches ExecutorAction::Finish { message, result } && message is None
                        && result is Ok
                } else {
                    r matches ExecutorAction::Finish { message: Some(message), result: shown }
                        && sets_status(message, self.context.name, NodeStatusView::Failed)
                        && shown == Err::<(), HiveLibError>(error)
                },
            },
    {
        match result {
            Ok(()) => self.before_step(position + 1, should_quit),
            Err(error) => {
                let is_ping: bool = match &self.steps[position] {
                    Step::Ping(_) => true,
                    _ => false,
                };
                if is_ping && self.ignore_failed_ping {
                    return ExecutorAction::Finish { message: None, result: Ok(()) };
                }
                ExecutorAction::Finish {
                    message: Some(
                        UiMessage::SetStatus(self.context.name.clone(), NodeStatus::Failed),
                    ),
                    result: Err(error),
                }
            },
        }
    }
}

/// Once the program was asked to end, no step is begun any more, and a node whose steps are not all
/// done has not succeeded.
pub proof fn interrupts_end_the_plan(action: ExecutorAction, plan: NodePlan, position: int)
    requires
        0 <= position < plan.steps@.len(),
        comes_before(action, plan, position, true),
    ensures
        action matches ExecutorAction::Finish { message, result } && message is None && result
            == Err::<(), HiveLibError>(HiveLibError::Sigint),
{
}

} // verus!
