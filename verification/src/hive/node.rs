//! Nodes of a hive and how they are reached.
use crate::commands::builder::{slice_texts, with_args, CommandStringBuilder};
use crate::commands::{CommandArguments, CommandView};
use crate::errors::{CommandError, HiveLibError, NetworkError};
use crate::hive::location::HiveLocation;
use crate::hive::steps::activate::SwitchToConfiguration;
use crate::hive::steps::build_node::{Build, BuildMetadata};
use crate::hive::steps::evaluate::Evaluate;
use crate::hive::steps::keys::{key_views, Key, KeyView, Keys, PushKeyAgent};
use crate::hive::steps::ping::Ping;
use crate::hive::steps::push::{PushOutput, PushOutputKind};
use crate::modifiers::{StrictHostKeyChecking, SubCommandModifiers};
use crate::sets::{new_set, set_texts};
use crate::store_path::SafeStorePath;
use crate::text::{
    copy_texts, decimal, decimal_of, join, joined, repeat, repeated, same, texts, trimmed,
};
use vstd::prelude::*;
use vstd::std_specs::cmp::PartialEqSpecImpl;

verus! {

/// The name of a node.
#[derive(Debug)]
pub struct Name(pub String);

impl View for Name {
    type V = Seq<char>;

    open spec fn view(&self) -> Seq<char> {
        self.0@
    }
}

impl Clone for Name {
    fn clone(&self) -> (r: Self)
        ensures
            r == *self,
    {
        Name(self.0.clone())
    }
}

impl PartialEq for Name {
    fn eq(&self, other: &Self) -> (r: bool) {
        self.0 == other.0
    }
}

impl PartialEqSpecImpl for Name {
    open spec fn obeys_eq_spec() -> bool {
        true
    }

    open spec fn eq_spec(&self, other: &Self) -> bool {
        self@ == other@
    }
}

impl Eq for Name {

}

/// The hosts by which a node can be reached. `current_host` is the one to try next; it only
/// moves forward, past the end once every host has failed.
#[derive(Debug)]
pub struct Target {
    pub hosts: Vec<String>,
    pub user: String,
    pub port: u32,
    pub current_host: usize,
}

/// What a target holds.
#[verifier::ext_equal]
pub ghost struct TargetView {
    pub hosts: Seq<Seq<char>>,
    pub user: Seq<char>,
    pub port: u32,
    pub current_host: nat,
}

impl View for Target {
    type V = TargetView;

    open spec fn view(&self) -> TargetView {
        TargetView {
            hosts: texts(self.hosts@),
            user: self.user@,
            port: self.port,
            current_host: self.current_host as nat,
        }
    }
}

/// The arguments with which ssh is called to reach `user` on `port`.
pub open spec fn ssh_args(
    user: Seq<char>,
    port: u32,
    modifiers: SubCommandModifiers,
    force_quiet: bool,
) -> Seq<Seq<char>> {
    seq![
        "-l"@,
        user,
        "-p"@,
        decimal(port as nat),
        "-o"@,
        "StrictHostKeyChecking="@ + match modifiers.ssh_accept_host {
            StrictHostKeyChecking::AcceptNew => "accept-new"@,
            StrictHostKeyChecking::No => "no"@,
        },
        "-o"@,
        "BatchMode=yes"@,
    ] + if force_quiet {
        seq!["-q"@]
    } else if modifiers.ssh_verbosity > 0 {
        seq!["-"@ + repeated('v', modifiers.ssh_verbosity as nat)]
    } else {
        Seq::empty()
    }
}

/// How each host of a target is shown.
pub open spec fn shown_hosts(target: TargetView) -> Seq<Seq<char>> {
    target.hosts.map_values(
        |host: Seq<char>| target.user + "@"@ + host + ":"@ + decimal(target.port as nat),
    )
}

impl Target {
    /// The ssh arguments as one text.
    pub fn create_ssh_opts(&self, modifiers: SubCommandModifiers) -> (r: Result<String, HiveLibError>)
        ensures
            r matches Ok(s) && s@ == joined(
                ssh_args(self@.user, self@.port, modifiers, false),
                " "@,
            ),
    {
        match self.create_ssh_args(modifiers, false) {
            Ok(args) => Ok(join(&args, " ")),
            Err(error) => Err(error),
        }
    }

    /// The ssh arguments. There is no target for which they cannot be made.
    pub fn create_ssh_args(
        &self,
        modifiers: SubCommandModifiers,
        force_quiet: bool,
    ) -> (r: Result<Vec<String>, HiveLibError>)
        ensures
            r matches Ok(v) && texts(v@) == ssh_args(
                self@.user,
                self@.port,
                modifiers,
                force_quiet,
            ),
    {
        let mut checking = "StrictHostKeyChecking=".to_owned();
        checking.push_str(
            match modifiers.ssh_accept_host {
                StrictHostKeyChecking::AcceptNew => "accept-new",
                StrictHostKeyChecking::No => "no",
            },
        );

        let mut vector: Vec<String> = Vec::new();
        vector.push("-l".to_owned());
        vector.push(self.user.clone());
        vector.push("-p".to_owned());
        vector.push(decimal_of(self.port as u64));
        vector.push("-o".to_owned());
        vector.push(checking);
        vector.push("-o".to_owned());
        vector.push("BatchMode=yes".to_owned());

        if force_quiet {
            vector.push("-q".to_owned());
        } else if modifiers.ssh_verbosity > 0 {
            let mut verbosity = "-".to_owned();
            verbosity.push_str(repeat('v', modifiers.ssh_verbosity).as_str());
            vector.push(verbosity);
        }
        assert(texts(vector@) =~= ssh_args(self@.user, self@.port, modifiers, force_quiet));

        Ok(vector)
    }

    /// The command that tests the connection to the host to try next.
    pub fn ping_command(
        &self,
        modifiers: SubCommandModifiers,
    ) -> (r: Result<CommandArguments, HiveLibError>)
        ensures
            match r {
                Ok(command) => self@.current_host < self@.hosts.len() && command@ == (CommandView {
                    log_stdout: true,
                    ..CommandView::plain(
                        with_args(
                            trimmed("ssh"@),
                            seq![
                                self@.user + "@"@ + self@.hosts[self@.current_host as int],
                                joined(ssh_args(self@.user, self@.port, modifiers, false), " "@),
                                "exit"@,
                            ],
                        ),
                        modifiers,
                    )
                }),
                Err(error) => self@.current_host >= self@.hosts.len() && error
                    == HiveLibError::NetworkError(NetworkError::HostsExhausted),
            },
    {
        let host = match self.get_preferred_host() {
            Ok(host) => host,
            Err(error) => {
                return Err(error);
            },
        };
        let mut address = self.user.clone();
        address.push_str("@");
        address.push_str(host.as_str());
        let options = match self.create_ssh_opts(modifiers) {
            Ok(options) => options,
            Err(error) => {
                return Err(error);
            },
        };
        let mut command_string = CommandStringBuilder::new("ssh");
        let arguments: [&str; 3] = [address.as_str(), options.as_str(), "exit"];
        command_string.args(&arguments);
        assert(slice_texts(arguments@) =~= seq![
            address@,
            options@,
            "exit"@,
        ]);
        Ok(CommandArguments::new(command_string.as_str(), modifiers).log_stdout())
    }

    /// What a test of the connection comes to.
    pub fn conclude_ping(&self, status: Result<(), CommandError>) -> (r: Result<(), HiveLibError>)
        requires
            self@.current_host < self@.hosts.len(),
        ensures
            match (status, r) {
                (Ok(()), Ok(())) => true,
                (
                    Err(error),
                    Err(HiveLibError::NetworkError(NetworkError::HostUnreachable { host, source })),
                ) => source == error && host@ == self@.hosts[self@.current_host as int],
                _ => false,
            },
    {
        match status {
            Ok(()) => Ok(()),
            Err(source) => Err(
                HiveLibError::NetworkError(
                    NetworkError::HostUnreachable {
                        host: self.hosts[self.current_host].clone(),
                        source,
                    },
                ),
            ),
        }
    }

    /// The arguments of ssh that reach the nix daemon of the host to try next. ssh stays quiet,
    /// what it prints would be taken for words of the daemon.
    pub fn daemon_args(
        &self,
        modifiers: SubCommandModifiers,
    ) -> (r: Result<Vec<String>, HiveLibError>)
        ensures
            match r {
                Ok(args) => self@.current_host < self@.hosts.len() && texts(args@) == ssh_args(
                    self@.user,
                    self@.port,
                    modifiers,
                    true,
                ) + seq![self@.hosts[self@.current_host as int], "nix-daemon --stdio"@],
                Err(error) => self@.current_host >= self@.hosts.len() && error
                    == HiveLibError::NetworkError(NetworkError::HostsExhausted),
            },
    {
        let mut args = match self.create_ssh_args(modifiers, true) {
            Ok(args) => args,
            Err(error) => {
                return Err(error);
            },
        };
        let host = match self.get_preferred_host() {
            Ok(host) => host.clone(),
            Err(error) => {
                return Err(error);
            },
        };
        let ghost before = texts(args@);
        args.push(host);
        args.push("nix-daemon --stdio".to_owned());
        assert(texts(args@) =~= before + seq![host@, "nix-daemon --stdio"@]);
        Ok(args)
    }

    /// The target as it is shown to the user: how each host is reached.
    pub fn to_string(&self) -> (s: String)
        ensures
            s@ == joined(shown_hosts(self@), ", "@),
    {
        let mut shown: Vec<String> = Vec::new();
        for i in 0..self.hosts.len()
            invariant
                texts(shown@) == shown_hosts(self@).take(i as int),
        {
            let ghost before = texts(shown@);
            let mut host = self.user.clone();
            host.push_str("@");
            host.push_str(self.hosts[i].as_str());
            host.push_str(":");
            host.push_str(decimal_of(self.port as u64).as_str());
            shown.push(host);
            assert(texts(shown@) =~= before.push(host@));
            assert(shown_hosts(self@).take(i + 1) =~= before.push(host@));
        }
        assert(shown_hosts(self@).take(self.hosts@.len() as int) =~= shown_hosts(self@));
        join(&shown, ", ")
    }

    /// The host to try next, unless every host has failed.
    pub fn get_preferred_host(&self) -> (r: Result<&String, HiveLibError>)
        ensures
            match r {
                Ok(host) => self@.current_host < self@.hosts.len() && host@
                    == self@.hosts[self@.current_host as int],
                Err(error) => self@.current_host >= self@.hosts.len() && error
                    == HiveLibError::NetworkError(NetworkError::HostsExhausted),
            },
    {
        if self.current_host < self.hosts.len() {
            Ok(&self.hosts[self.current_host])
        } else {
            Err(HiveLibError::NetworkError(NetworkError::HostsExhausted))
        }
    }

    /// Moves on to the next host.
    pub fn host_failed(&mut self)
        requires
            old(self).current_host < usize::MAX,
        ensures
            final(self)@ == (TargetView {
                current_host: old(self)@.current_host + 1,
                ..old(self)@
            }),
    {
        self.current_host = self.current_host + 1;
    }

    /// A target with one host, reached as root on the usual port.
    pub fn from_host(host: &str) -> (r: Self)
        ensures
            r@ == (TargetView { hosts: seq![host@], user: "root"@, port: 22, current_host: 0 }),
    {
        let mut hosts: Vec<String> = Vec::new();
        hosts.push(host.to_owned());
        let r = Target { hosts, ..Target::default() };
        assert(texts(r.hosts@) =~= seq![host@]);
        r
    }
}

impl Default for Target {
    fn default() -> (r: Self)
        ensures
            r@ == (TargetView { hosts: seq!["NAME"@], user: "root"@, port: 22, current_host: 0 }),
    {
        let mut hosts: Vec<String> = Vec::new();
        hosts.push("NAME".to_owned());
        let r = Target { hosts, user: "root".to_owned(), port: 22, current_host: 0 };
        assert(texts(r.hosts@) =~= seq!["NAME"@]);
        r
    }
}

impl Clone for Target {
    fn clone(&self) -> (r: Self)
        ensures
            r@ == self@,
    {
        Target {
            hosts: copy_texts(&self.hosts),
            user: self.user.clone(),
            port: self.port,
            current_host: self.current_host,
        }
    }
}

/// A path to copy to a node.
#[derive(Debug)]
pub enum Push<'a> {
    Derivation(&'a SafeStorePath),
    Path(&'a SafeStorePath),
}

/// What every step of a plan is told.
#[derive(Debug)]
pub struct Context {
    pub hive_location: HiveLocation,
    pub modifiers: SubCommandModifiers,
    pub name: Name,
}

/// What `switch-to-configuration` is asked to do.
#[derive(Clone, Copy, Debug, PartialEq, Eq, Structural)]
pub enum SwitchToConfigurationGoal {
    Switch,
    Boot,
    Test,
    DryActivate,
}

/// What is wanted of a node.
#[derive(Clone, Copy, Debug, PartialEq, Eq, Structural)]
pub enum ApplyGoal {
    SwitchToConfiguration(SwitchToConfigurationGoal),
    Build,
    Push,
    Keys,
}

/// The name of what `switch-to-configuration` is asked to do.
pub open spec fn switch_name(goal: SwitchToConfigurationGoal) -> Seq<char> {
    match goal {
        SwitchToConfigurationGoal::Switch => "Switch"@,
        SwitchToConfigurationGoal::Boot => "Boot"@,
        SwitchToConfigurationGoal::Test => "Test"@,
        SwitchToConfigurationGoal::DryActivate => "DryActivate"@,
    }
}

impl SwitchToConfigurationGoal {
    /// The name of the goal.
    pub fn to_string(&self) -> (s: String)
        ensures
            s@ == switch_name(*self),
    {
        match self {
            SwitchToConfigurationGoal::Switch => "Switch".to_owned(),
            SwitchToConfigurationGoal::Boot => "Boot".to_owned(),
            SwitchToConfigurationGoal::Test => "Test".to_owned(),
            SwitchToConfigurationGoal::DryActivate => "DryActivate".to_owned(),
        }
    }
}

impl ApplyGoal {
    /// The name of the goal; that of an activation is how it activates.
    pub fn to_string(&self) -> (s: String)
        ensures
            s@ == match *self {
                ApplyGoal::SwitchToConfiguration(goal) => switch_name(goal),
                ApplyGoal::Build => "Build"@,
                ApplyGoal::Push => "Push"@,
                ApplyGoal::Keys => "Keys"@,
            },
    {
        match self {
            ApplyGoal::SwitchToConfiguration(goal) => goal.to_string(),
            ApplyGoal::Build => "Build".to_owned(),
            ApplyGoal::Push => "Push".to_owned(),
            ApplyGoal::Keys => "Keys".to_owned(),
        }
    }
}

/// What to do about a node that cannot be reached.
#[non_exhaustive]
#[derive(Clone, Copy, Debug, PartialEq, Eq, Structural)]
pub enum HandleUnreachable {
    Ignore,
    FailNode,
}

impl Default for HandleUnreachable {
    fn default() -> (r: Self)
        ensures
            r == HandleUnreachable::FailNode,
    {
        HandleUnreachable::FailNode
    }
}

/// A node of the hive.
#[derive(Debug)]
pub struct Node {
    pub target: Target,
    pub build_remotely: bool,
    pub allow_local_deployment: bool,
    pub tags: im::HashSet<String>,
    pub keys: Vec<Key>,
    pub host_platform: String,
    pub privilege_escalation_command: Vec<String>,
}

/// What a node holds.
#[verifier::ext_equal]
pub ghost struct NodeView {
    pub target: TargetView,
    pub build_remotely: bool,
    pub allow_local_deployment: bool,
    pub tags: Set<Seq<char>>,
    pub keys: Seq<KeyView>,
    pub host_platform: Seq<char>,
    pub privilege_escalation_command: Seq<Seq<char>>,
}

impl View for Node {
    type V = NodeView;

    open spec fn view(&self) -> NodeView {
        NodeView {
            target: self.target@,
            build_remotely: self.build_remotely,
            allow_local_deployment: self.allow_local_deployment,
            tags: set_texts(self.tags),
            keys: key_views(self.keys@),
            host_platform: self.host_platform@,
            privilege_escalation_command: texts(self.privilege_escalation_command@),
        }
    }
}

/// The node that a host stands for when nothing else is said of it.
pub open spec fn plain_node(target: TargetView) -> NodeView {
    NodeView {
        target,
        build_remotely: false,
        allow_local_deployment: true,
        tags: Set::empty(),
        keys: Seq::empty(),
        host_platform: "x86_64-linux"@,
        privilege_escalation_command: seq!["sudo"@, "--"@],
    }
}

impl Default for Node {
    fn default() -> (r: Self)
        ensures
            r@ == plain_node(
                TargetView { hosts: seq!["NAME"@], user: "root"@, port: 22, current_host: 0 },
            ),
    {
        let mut escalation: Vec<String> = Vec::new();
        escalation.push("sudo".to_owned());
        escalation.push("--".to_owned());
        let r = Node {
            target: Target::default(),
            build_remotely: false,
            allow_local_deployment: true,
            tags: new_set(),
            keys: Vec::new(),
            host_platform: "x86_64-linux".to_owned(),
            privilege_escalation_command: escalation,
        };
        assert(r@ =~= plain_node(r@.target));
        r
    }
}

impl Node {
    /// A plain node with one host.
    pub fn from_host(host: &str) -> (r: Self)
        ensures
            r@ == plain_node(
                TargetView { hosts: seq![host@], user: "root"@, port: 22, current_host: 0 },
            ),
    {
        Node { target: Target::from_host(host), ..Node::default() }
    }
}

/// `gethostname::gethostname`: the name of this machine, where it is a text. Nothing is promised of
/// it, it rests on the machine.
#[verifier::external_body]
fn host_name() -> (r: Option<String>) {
    gethostname::gethostname().into_string().ok()
}

/// Whether a node is this machine and may be deployed from it.
pub fn is_this_machine(
    allow_local_deployment: bool,
    name: &str,
    host_name: Option<String>,
) -> (r: bool)
    ensures
        r == (allow_local_deployment && (host_name matches Some(host) && host@ == name@)),
{
    match host_name {
        Some(host) => same(name, host.as_str()) && allow_local_deployment,
        None => false,
    }
}

/// Whether a node is applied without a connection: it is this machine, and it may be. A node that
/// may not be is never applied so.
pub fn should_apply_locally(allow_local_deployment: bool, name: &str) -> (r: bool)
    ensures
        r ==> allow_local_deployment,
{
    is_this_machine(allow_local_deployment, name, host_name())
}

/// A step of a plan.
#[derive(Debug)]
pub enum Step {
    Ping(Ping),
    PushKeyAgent(PushKeyAgent),
    Keys(Keys),
    Evaluate(Evaluate),
    PushOutput(PushOutput),
    Build(Build),
    SwitchToConfiguration(SwitchToConfiguration),
}

/// What a step holds.
#[verifier::ext_equal]
pub ghost enum StepView {
    Ping { target: TargetView },
    PushKeyAgent { substitute_on_destination: bool, host_platform: Seq<char> },
    Keys { keys: Seq<KeyView>, privilege_escalation_command: Seq<Seq<char>> },
    Evaluate { cached_evaluation: Option<Seq<char>> },
    PushOutput { substitute_on_destination: bool, kind: PushOutputKind },
    Build { metadata: BuildMetadata },
    SwitchToConfiguration {
        goal: SwitchToConfigurationGoal,
        reboot: bool,
        privilege_escalation_command: Seq<Seq<char>>,
    },
}

impl View for Step {
    type V = StepView;

    open spec fn view(&self) -> StepView {
        match *self {
            Step::Ping(step) => StepView::Ping { target: step.target@ },
            Step::PushKeyAgent(step) => StepView::PushKeyAgent {
                substitute_on_destination: step.substitute_on_destination,
                host_platform: step.host_platform@,
            },
            Step::Keys(step) => StepView::Keys {
                keys: key_views(step.keys@),
                privilege_escalation_command: texts(step.privilege_escalation_command@),
            },
            Step::Evaluate(step) => StepView::Evaluate {
                cached_evaluation: match step.cached_evaluation {
                    Some(path) => Some(path@),
                    None => None,
                },
            },
            Step::PushOutput(step) => StepView::PushOutput {
                substitute_on_destination: step.substitute_on_destination,
                kind: step.kind,
            },
            Step::Build(step) => StepView::Build { metadata: step.metadata },
            Step::SwitchToConfiguration(step) => StepView::SwitchToConfiguration {
                goal: step.goal,
                reboot: step.reboot,
                privilege_escalation_command: texts(step.privilege_escalation_command@),
            },
        }
    }
}

impl StepView {
    /// How the step reads to the user.
    pub open spec fn shown(self) -> Seq<char> {
        match self {
            StepView::Ping { .. } => "Ping"@,
            StepView::PushKeyAgent { .. } => "Push the key agent"@,
            StepView::Keys { .. } => "Upload key @ ??"@,
            StepView::Evaluate { .. } => "Evaluate"@,
            StepView::PushOutput { kind, substitute_on_destination } => (PushOutput {
                kind,
                substitute_on_destination,
            }).shown(),
            StepView::Build { .. } => "Build the node"@,
            StepView::SwitchToConfiguration { .. } => "Activation"@,
        }
    }
}

impl Step {
    /// The step as it is shown to the user.
    pub fn to_string(&self) -> (s: String)
        ensures
            s@ == self@.shown(),
    {
        match self {
            Step::Ping(step) => step.to_string(),
            Step::PushKeyAgent(step) => step.to_string(),
            Step::Keys(step) => step.to_string(),
            Step::Evaluate(step) => step.to_string(),
            Step::PushOutput(step) => step.to_string(),
            Step::Build(step) => step.to_string(),
            Step::SwitchToConfiguration(step) => step.to_string(),
        }
    }
}

} // verus!
