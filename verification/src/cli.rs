//! What can be asked for on the command line.
use crate::hive::node::{ApplyGoal, HandleUnreachable, Name, SwitchToConfigurationGoal};
use crate::hive::plan::ApplyGoalArgs;
use crate::modifiers::{StrictHostKeyChecking, SubCommandModifiers};
use crate::text::{
    chars_of, decimal, find_from, number_value, parse_usize, parse_usize_error, position_from,
    same, starts_with, text_between, texts,
};
use vstd::prelude::*;
use vstd::std_specs::convert::FromSpecImpl;

verus! {

/// What a command is asked to work on.
#[derive(Debug)]
pub enum ApplyTarget {
    /// The node of this name.
    Node(Name),
    /// Every node with this tag.
    Tag(String),
    /// Whatever the standard input names.
    Stdin,
}

/// What a target holds.
#[verifier::ext_equal]
pub ghost enum ApplyTargetView {
    Node(Seq<char>),
    Tag(Seq<char>),
    Stdin,
}

impl View for ApplyTarget {
    type V = ApplyTargetView;

    open spec fn view(&self) -> ApplyTargetView {
        match *self {
            ApplyTarget::Node(name) => ApplyTargetView::Node(name@),
            ApplyTarget::Tag(tag) => ApplyTargetView::Tag(tag@),
            ApplyTarget::Stdin => ApplyTargetView::Stdin,
        }
    }
}

/// What a sequence of targets holds.
pub open spec fn target_views(v: Seq<ApplyTarget>) -> Seq<ApplyTargetView> {
    v.map_values(|target: ApplyTarget| target@)
}

/// The target that a text names.
pub open spec fn target_of(s: Seq<char>) -> ApplyTargetView {
    if s == "-"@ {
        ApplyTargetView::Stdin
    } else if s.len() > 0 && s[0] == '@' {
        ApplyTargetView::Tag(s.skip(1))
    } else {
        ApplyTargetView::Node(s)
    }
}

/// How a target is shown.
pub open spec fn target_text(target: ApplyTargetView) -> Seq<char> {
    match target {
        ApplyTargetView::Node(name) => name,
        ApplyTargetView::Tag(tag) => "@"@ + tag,
        ApplyTargetView::Stdin => "#stdin"@,
    }
}

impl ApplyTarget {
    /// The target that a text names: a literal `-`, a tag behind an `@`, or else a node.
    pub fn from(value: String) -> (r: Self)
        ensures
            r@ == target_of(value@),
    {
        if same(value.as_str(), "-") {
            return ApplyTarget::Stdin;
        }
        proof {
            reveal_strlit("-");
            reveal_strlit("@");
        }
        let chars = chars_of(value.as_str());
        if starts_with(value.as_str(), "@") {
            assert(value@.take(1)[0] == value@[0]);
            assert(value@.subrange(1, value@.len() as int) =~= value@.skip(1));
            ApplyTarget::Tag(text_between(&chars, 1, chars.len()))
        } else {
            assert(value@.len() > 0 && value@[0] == '@' ==> value@.take(1) =~= "@"@);
            ApplyTarget::Node(Name(value))
        }
    }

    /// The target as it is shown.
    pub fn to_string(&self) -> (s: String)
        ensures
            s@ == target_text(self@),
    {
        match self {
            ApplyTarget::Node(name) => name.0.clone(),
            ApplyTarget::Tag(tag) => {
                let mut s = "@".to_owned();
                s.push_str(tag.as_str());
                s
            },
            ApplyTarget::Stdin => "#stdin".to_owned(),
        }
    }
}

/// Nodes and tags are shown as they were written.
pub proof fn targets_are_shown_as_written(s: Seq<char>)
    requires
        s != "-"@,
    ensures
        target_text(target_of(s)) == s,
{
    reveal_strlit("@");
    if s.len() > 0 && s[0] == '@' {
        assert("@"@ + s.skip(1) =~= s);
    }
}

/// What is said of a number above a bound.
pub open spec fn above_text(max: nat) -> Seq<char> {
    "exceeds maximum of "@ + decimal(max)
}

/// What is said of a number below a bound.
pub open spec fn below_text(min: nat) -> Seq<char> {
    "less than minimum of "@ + decimal(min)
}

/// The number that a text writes in decimal, where it is at most `limit`.
pub open spec fn number_up_to(s: Seq<char>, limit: nat) -> Option<nat> {
    match number_value(s, 10) {
        Some(n) => if n <= limit {
            Some(n)
        } else {
            None
        },
        None => None,
    }
}

/// `clap_num::number_range::<usize>`: the number that a text writes, where it lies between two
/// bounds. Else the text of the `ParseIntError`, or which bound the number breaks.
#[verifier::external_body]
fn number_in_range(s: &str, min: usize, max: usize) -> (r: Result<usize, String>)
    requires
        min <= max,
    ensures
        match (number_up_to(s@, usize::MAX as nat), r) {
            (Some(n), Ok(value)) => value == n && min <= n <= max,
            (Some(n), Err(error)) => n > max && error@ == above_text(max as nat) || n < min
                && error@ == below_text(min as nat),
            (None, Err(error)) => error@ == parse_usize_error(s@),
            (None, Ok(_)) => false,
        },
{
    clap_num::number_range(s, min, max)
}

/// What is said of a text that is no number of type `u8`.
pub uninterp spec fn parse_u8_error(s: Seq<char>) -> Seq<char>;

/// `clap_num::number_range::<u8>`: the same for small numbers. The text of the `ParseIntError` is
/// the one that `str::parse::<u8>` gives.
#[verifier::external_body]
fn small_number_in_range(s: &str, min: u8, max: u8) -> (r: Result<u8, String>)
    requires
        min <= max,
    ensures
        match (number_up_to(s@, u8::MAX as nat), r) {
            (Some(n), Ok(value)) => value == n && min <= n <= max,
            (Some(n), Err(error)) => n > max && error@ == above_text(max as nat) || n < min
                && error@ == below_text(min as nat),
            (None, Err(error)) => error@ == parse_u8_error(s@),
            (None, Ok(_)) => false,
        },
{
    clap_num::number_range(s, min, max)
}

/// Reads a number that is not zero.
pub fn more_than_zero(s: &str) -> (r: Result<usize, String>)
    ensures
        match number_up_to(s@, usize::MAX as nat) {
            Some(n) => if n >= 1 {
                r matches Ok(value) && value == n
            } else {
                r matches Err(error) && error@ == below_text(1)
            },
            None => r matches Err(error) && error@ == parse_usize_error(s@),
        },
{
    number_in_range(s, 1, usize::MAX)
}

/// Reads how much ssh is to tell, on a scale that ends at three.
pub fn less_than_3(s: &str) -> (r: Result<u8, String>)
    ensures
        match number_up_to(s@, u8::MAX as nat) {
            Some(n) => if n <= 3 {
                r matches Ok(value) && value == n
            } else {
                r matches Err(error) && error@ == above_text(3)
            },
            None => r matches Err(error) && error@ == parse_u8_error(s@),
        },
{
    small_number_in_range(s, 0, 3)
}

/// Which of how many parts of the work is to be done.
#[derive(Clone, Copy, Debug, PartialEq, Eq, Structural)]
pub struct Partitions {
    pub current: usize,
    pub maximum: usize,
}

impl Default for Partitions {
    fn default() -> (r: Self)
        ensures
            r == (Partitions { current: 1, maximum: 1 }),
    {
        Partitions { current: 1, maximum: 1 }
    }
}

/// What stands before and after the slash of a text that has exactly one.
pub open spec fn around_slash(s: Seq<char>) -> Option<(Seq<char>, Seq<char>)> {
    let i = position_from(s, '/', 0);
    if i < s.len() && position_from(s, '/', i + 1) >= s.len() {
        Some((s.take(i), s.skip(i + 1)))
    } else {
        None
    }
}

/// Reads which of how many parts of the work is to be done, as in `1/2`.
pub fn parse_partitions(s: &str) -> (r: Result<Partitions, String>)
    ensures
        match around_slash(s@) {
            None => r matches Err(error) && error@ == "partition must contain exactly one '/'"@,
            Some((left, right)) => match (
                number_up_to(left, usize::MAX as nat),
                number_up_to(right, usize::MAX as nat),
            ) {
                (None, _) => r matches Err(error) && error@ == parse_usize_error(left),
                (_, None) => r matches Err(error) && error@ == parse_usize_error(right),
                (Some(current), Some(maximum)) => if current > maximum {
                    r matches Err(error) && error@ == "current is more than total"@
                } else if current == 0 || maximum == 0 {
                    r matches Err(error) && error@ == "partition segments cannot be 0."@
                } else {
                    r matches Ok(partitions) && partitions.current == current
                        && partitions.maximum == maximum
                },
            },
        },
{
    let chars = chars_of(s);
    let slash: usize = find_from(&chars, '/', 0);
    if slash >= chars.len() {
        return Err("partition must contain exactly one '/'".to_owned());
    }
    let other: usize = find_from(&chars, '/', slash + 1);
    if other < chars.len() {
        return Err("partition must contain exactly one '/'".to_owned());
    }
    let left = text_between(&chars, 0, slash);
    let right = text_between(&chars, slash + 1, chars.len());
    proof {
        assert(s@.subrange(0, slash as int) =~= s@.take(slash as int));
        assert(s@.subrange(slash + 1, s@.len() as int) =~= s@.skip(slash + 1));
    }
    let current: usize = match parse_usize(left.as_str()) {
        Ok(current) => current,
        Err(error) => {
            return Err(error);
        },
    };
    let maximum: usize = match parse_usize(right.as_str()) {
        Ok(maximum) => maximum,
        Err(error) => {
            return Err(error);
        },
    };
    if current > maximum {
        return Err("current is more than total".to_owned());
    }
    if current == 0 || maximum == 0 {
        return Err("partition segments cannot be 0.".to_owned());
    }
    Ok(Partitions { current, maximum })
}

/// What to do with nodes that do not answer, as it is written on the command line.
#[derive(Clone, Copy, Debug, PartialEq, Eq, Structural)]
pub enum HandleUnreachableArg {
    Ignore,
    FailNode,
}

impl HandleUnreachableArg {
    /// The choice as it is written.
    pub fn to_string(&self) -> (s: String)
        ensures
            s@ == match *self {
                HandleUnreachableArg::Ignore => "ignore"@,
                HandleUnreachableArg::FailNode => "fail-node"@,
            },
    {
        match self {
            HandleUnreachableArg::Ignore => "ignore".to_owned(),
            HandleUnreachableArg::FailNode => "fail-node".to_owned(),
        }
    }
}

impl From<HandleUnreachableArg> for HandleUnreachable {
    fn from(value: HandleUnreachableArg) -> (r: Self) {
        match value {
            HandleUnreachableArg::Ignore => HandleUnreachable::Ignore,
            HandleUnreachableArg::FailNode => HandleUnreachable::FailNode,
        }
    }
}

impl FromSpecImpl<HandleUnreachableArg> for HandleUnreachable {
    open spec fn obeys_from_spec() -> bool {
        true
    }

    open spec fn from_spec(value: HandleUnreachableArg) -> Self {
        match value {
            HandleUnreachableArg::Ignore => HandleUnreachable::Ignore,
            HandleUnreachableArg::FailNode => HandleUnreachable::FailNode,
        }
    }
}

/// What `apply` is to achieve.
#[derive(Clone, Copy, Debug, PartialEq, Eq, Structural)]
pub enum Goal {
    /// Make the configuration the boot default and activate it now.
    Switch,
    /// Build the configuration and push the results.
    Build,
    /// Copy the derivation of the system to the nodes.
    Push,
    /// Push deployment keys to the nodes.
    Keys,
    /// Activate the configuration on the next boot.
    Boot,
    /// Activate the configuration, but do not make it the boot default.
    Test,
    /// Show what would be done if the configuration were activated.
    DryActivate,
}

impl Default for Goal {
    fn default() -> (r: Self)
        ensures
            r == Goal::Switch,
    {
        Goal::Switch
    }
}

/// The name of a goal.
pub open spec fn goal_name(goal: Goal) -> Seq<char> {
    match goal {
        Goal::Switch => "Switch"@,
        Goal::Build => "Build"@,
        Goal::Push => "Push"@,
        Goal::Keys => "Keys"@,
        Goal::Boot => "Boot"@,
        Goal::Test => "Test"@,
        Goal::DryActivate => "DryActivate"@,
    }
}

impl Goal {
    /// The name of the goal.
    pub fn to_string(&self) -> (s: String)
        ensures
            s@ == goal_name(*self),
    {
        match self {
            Goal::Switch => "Switch".to_owned(),
            Goal::Build => "Build".to_owned(),
            Goal::Push => "Push".to_owned(),
            Goal::Keys => "Keys".to_owned(),
            Goal::Boot => "Boot".to_owned(),
            Goal::Test => "Test".to_owned(),
            Goal::DryActivate => "DryActivate".to_owned(),
        }
    }
}

/// The goal that the hive knows it by.
pub open spec fn hive_goal(goal: Goal) -> ApplyGoal {
    match goal {
        Goal::Build => ApplyGoal::Build,
        Goal::Push => ApplyGoal::Push,
        Goal::Boot => ApplyGoal::SwitchToConfiguration(SwitchToConfigurationGoal::Boot),
        Goal::Switch => ApplyGoal::SwitchToConfiguration(SwitchToConfigurationGoal::Switch),
        Goal::Test => ApplyGoal::SwitchToConfiguration(SwitchToConfigurationGoal::Test),
        Goal::DryActivate => ApplyGoal::SwitchToConfiguration(
            SwitchToConfigurationGoal::DryActivate,
        ),
        Goal::Keys => ApplyGoal::Keys,
    }
}

impl From<Goal> for ApplyGoal {
    fn from(value: Goal) -> (r: Self) {
        match value {
            Goal::Build => ApplyGoal::Build,
            Goal::Push => ApplyGoal::Push,
            Goal::Boot => ApplyGoal::SwitchToConfiguration(SwitchToConfigurationGoal::Boot),
            Goal::Switch => ApplyGoal::SwitchToConfiguration(SwitchToConfigurationGoal::Switch),
            Goal::Test => ApplyGoal::SwitchToConfiguration(SwitchToConfigurationGoal::Test),
            Goal::DryActivate => ApplyGoal::SwitchToConfiguration(
                SwitchToConfigurationGoal::DryActivate,
            ),
            Goal::Keys => ApplyGoal::Keys,
        }
    }
}

impl FromSpecImpl<Goal> for ApplyGoal {
    open spec fn obeys_from_spec() -> bool {
        true
    }

    open spec fn from_spec(value: Goal) -> Self {
        hive_goal(value)
    }
}

/// What `inspect` is to show.
#[derive(Clone, Copy, Debug, PartialEq, Eq, Structural)]
pub enum Inspection {
    /// All that is known of the hive.
    Full,
    /// The names of the nodes alone.
    Names,
}

impl Default for Inspection {
    fn default() -> (r: Self)
        ensures
            r == Inspection::Full,
    {
        Inspection::Full
    }
}

impl Inspection {
    /// The name of what is shown.
    pub fn to_string(&self) -> (s: String)
        ensures
            s@ == match *self {
                Inspection::Full => "Full"@,
                Inspection::Names => "Names"@,
            },
    {
        match self {
            Inspection::Full => "Full".to_owned(),
            Inspection::Names => "Names".to_owned(),
        }
    }
}

/// What commands that work on nodes share.
#[derive(Debug)]
pub struct CommonVerbArgs {
    /// Names of nodes, a literal `-`, or tags behind an `@`.
    pub on: Vec<ApplyTarget>,
    /// How many nodes are worked on at a time.
    pub parallel: usize,
    /// Whether full build logs are shown.
    pub print_build_logs: bool,
}

/// What `apply` is told.
#[derive(Debug)]
pub struct ApplyArgs {
    pub common: CommonVerbArgs,
    pub goal: Goal,
    /// Skip key uploads. Means nothing where the goal is to push keys.
    pub no_keys: bool,
    /// Nodes that are built here whatever they ask for.
    pub always_build_local: Vec<String>,
    /// Reboot the nodes after activation.
    pub reboot: bool,
    /// Let the nodes substitute what they can.
    pub substitute_on_destination: bool,
    /// What to do where a node does not answer to begin with.
    pub handle_unreachable: HandleUnreachableArg,
    /// Accept every host key.
    pub ssh_accept_host: bool,
    /// How much ssh is to tell.
    pub ssh_verbose: u8,
}

/// How a goal is to be applied to a node, given what the command line says of it.
pub open spec fn is_goal_for(
    r: ApplyGoalArgs,
    args: ApplyArgs,
    should_apply_locally: bool,
    host_platform: Seq<char>,
) -> bool {
    &&& r.goal == hive_goal(args.goal)
    &&& r.should_apply_locally == should_apply_locally
    &&& r.no_keys == (args.no_keys && args.goal != Goal::Keys)
    &&& r.substitute_on_destination == args.substitute_on_destination
    &&& r.reboot == args.reboot
    &&& r.host_platform@ == host_platform
    &&& r.handle_unreachable == match args.handle_unreachable {
        HandleUnreachableArg::Ignore => HandleUnreachable::Ignore,
        HandleUnreachableArg::FailNode => HandleUnreachable::FailNode,
    }
}

impl ApplyArgs {
    /// How the goal is to be applied to a node: where it runs, and on which platform.
    pub fn goal_for(&self, should_apply_locally: bool, host_platform: &str) -> (r: ApplyGoalArgs)
        ensures
            is_goal_for(r, *self, should_apply_locally, host_platform@),
    {
        let keys_only = match self.goal {
            Goal::Keys => true,
            _ => false,
        };
        ApplyGoalArgs {
            goal: ApplyGoal::from(self.goal),
            should_apply_locally,
            no_keys: self.no_keys && !keys_only,
            substitute_on_destination: self.substitute_on_destination,
            reboot: self.reboot,
            host_platform: host_platform.to_owned(),
            handle_unreachable: HandleUnreachable::from(self.handle_unreachable),
        }
    }
}

/// What `build` is told.
#[derive(Debug)]
pub struct BuildArgs {
    pub common: CommonVerbArgs,
    /// Which part of the nodes is built.
    pub partition: Option<Partitions>,
}

/// What can be done.
#[derive(Debug)]
pub enum Commands {
    /// Deploy nodes.
    Apply(ApplyArgs),
    /// Build nodes, without contact to any of them.
    Build(BuildArgs),
    /// Show the hive.
    Inspect { selection: Inspection, json: bool },
}

impl Commands {
    /// Which part of the nodes the command works on.
    pub open spec fn part(self) -> Partitions {
        match self {
            Commands::Build(BuildArgs { partition: Some(partition), .. }) => partition,
            _ => Partitions { current: 1, maximum: 1 },
        }
    }

    /// Which part of the nodes the command works on: all of them, unless it says otherwise.
    pub fn partition(&self) -> (r: Partitions)
        ensures
            r == self.part(),
    {
        match self {
            Commands::Build(args) => match args.partition {
                Some(partition) => partition,
                None => Partitions::default(),
            },
            _ => Partitions::default(),
        }
    }
}

/// A command and what holds of all commands.
#[derive(Debug)]
pub struct Cli {
    pub command: Commands,
    /// A path or a flake reference.
    pub path: String,
    /// Hide progress bars.
    pub no_progress: bool,
    /// Never accept user input.
    pub non_interactive: bool,
    /// Show trace logs.
    pub show_trace: bool,
    /// Talk to the nix daemon directly.
    pub experimental_nix_client: bool,
}

/// What the settings of sub-commands can be read from.
pub trait ToSubCommandModifiers {
    /// The settings.
    spec fn modifiers(&self) -> SubCommandModifiers;

    /// The settings of sub-commands.
    fn to_subcommand_modifiers(&self) -> (r: SubCommandModifiers)
        ensures
            r == self.modifiers(),
    ;
}

impl ToSubCommandModifiers for Cli {
    open spec fn modifiers(&self) -> SubCommandModifiers {
        SubCommandModifiers {
            show_trace: self.show_trace,
            non_interactive: self.non_interactive,
            experimental_nix_client: self.experimental_nix_client,
            ssh_accept_host: match self.command {
                Commands::Apply(args) => if args.ssh_accept_host {
                    StrictHostKeyChecking::No
                } else {
                    StrictHostKeyChecking::AcceptNew
                },
                _ => StrictHostKeyChecking::AcceptNew,
            },
            print_build_logs: match self.command {
                Commands::Apply(args) => args.common.print_build_logs,
                Commands::Build(args) => args.common.print_build_logs,
                Commands::Inspect { .. } => false,
            },
            ssh_verbosity: match self.command {
                Commands::Apply(args) => args.ssh_verbose as usize,
                _ => 0,
            },
        }
    }

    fn to_subcommand_modifiers(&self) -> (r: SubCommandModifiers) {
        SubCommandModifiers {
            show_trace: self.show_trace,
            non_interactive: self.non_interactive,
            experimental_nix_client: self.experimental_nix_client,
            ssh_accept_host: match &self.command {
                Commands::Apply(args) => if args.ssh_accept_host {
                    StrictHostKeyChecking::No
                } else {
                    StrictHostKeyChecking::default()
                },
                _ => StrictHostKeyChecking::default(),
            },
            print_build_logs: match &self.command {
                Commands::Apply(args) => args.common.print_build_logs,
                Commands::Build(args) => args.common.print_build_logs,
                Commands::Inspect { .. } => false,
            },
            ssh_verbosity: match &self.command {
                Commands::Apply(args) => args.ssh_verbose as usize,
                _ => 0,
            },
        }
    }
}

impl Cli {
    /// Whether progress is shown: not where the output is all there is to see.
    pub fn shows_progress(&self) -> (r: bool)
        ensures
            r == (!(self.command is Inspect) && !self.no_progress),
    {
        let inspects = match self.command {
            Commands::Inspect { .. } => true,
            _ => false,
        };
        !inspects && !self.no_progress
    }
}

/// The names that begin with a text, in their order.
pub open spec fn beginning_with(names: Seq<Seq<char>>, current: Seq<char>) -> Seq<Seq<char>> {
    names.filter(|name: Seq<char>| current.is_prefix_of(name))
}

/// What is offered for a target that was begun: the standard input where it may be meant, and, once
/// the hive was located and its nodes are known, the names that begin so. Nothing is offered for
/// tags. `current` is missing where it is no text.
pub open spec fn completions(
    current: Option<Seq<char>>,
    located: bool,
    names: Option<Seq<Seq<char>>>,
) -> Seq<Seq<char>> {
    let stdin = if current == Some(""@) || current == Some("-"@) {
        seq!["-"@]
    } else {
        Seq::empty()
    };
    match current {
        Some(current) => if !located {
            stdin
        } else if current.len() > 0 && current[0] == '@' {
            Seq::empty()
        } else {
            match names {
                Some(names) => stdin + beginning_with(names, current),
                None => stdin,
            }
        },
        None => stdin,
    }
}

/// Offers what a target may be.
pub fn node_names_completer(
    current: Option<&str>,
    located: bool,
    names: Option<&Vec<String>>,
) -> (r: Vec<String>)
    ensures
        texts(r@) == completions(
            match current {
                Some(current) => Some(current@),
                None => None,
            },
            located,
            match names {
                Some(names) => Some(texts(names@)),
                None => None,
            },
        ),
{
    let mut r: Vec<String> = Vec::new();
    let current = match current {
        Some(current) => current,
        None => {
            assert(texts(r@) =~= Seq::empty());
            return r;
        },
    };
    if same(current, "") || same(current, "-") {
        r.push("-".to_owned());
    }
    let ghost stdin = texts(r@);
    assert(stdin =~= if current@ == ""@ || current@ == "-"@ {
        seq!["-"@]
    } else {
        Seq::empty()
    });
    if !located {
        return r;
    }
    proof {
        reveal_strlit("@");
    }
    if starts_with(current, "@") {
        assert(current@.take(1)[0] == current@[0]);
        let none: Vec<String> = Vec::new();
        assert(texts(none@) =~= Seq::empty());
        return none;
    }
    assert(current@.len() > 0 && current@[0] == '@' ==> current@.take(1) =~= "@"@);
    if let Some(names) = names {
        let ghost begins = |name: Seq<char>| current@.is_prefix_of(name);
        proof {
            reveal(Seq::filter);
            assert(stdin + texts(names@).take(0).filter(begins) =~= stdin);
        }
        for i in 0..names.len()
            invariant
                begins == |name: Seq<char>| current@.is_prefix_of(name),
                texts(r@) == stdin + texts(names@).take(i as int).filter(begins),
        {
            let ghost before = texts(r@);
            let ghost name = names@[i as int]@;
            proof {
                reveal(Seq::filter);
                assert(texts(names@).take(i + 1).drop_last() =~= texts(names@).take(i as int));
                assert(texts(names@).take(i + 1).last() == name);
            }
            if starts_with(names[i].as_str(), current) {
                r.push(names[i].clone());
                assert(texts(r@) =~= before.push(name));
                assert(before.push(name) =~= stdin + texts(names@).take(i as int).filter(
                    begins,
                ).push(name));
            }
        }
        assert(texts(names@).take(names@.len() as int) =~= texts(names@));
    }
    r
}

} // verus!
