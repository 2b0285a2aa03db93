//! What the commands are that a deployment runs.
use crate::commands::builder::with_args;
use crate::commands::common::{attribute_text, copy_command, eval_command, hive_attribute};
use crate::commands::noninteractive::{
    code_text, kept_of, shell_command, the_last_messages_are_kept,
};
use crate::commands::{ChildOutputMode, CommandView};
use crate::hive::location::{FlakePrefetch, HiveLocation};
use crate::hive::node::{ssh_args, Name, Push};
use crate::hive::steps::build_node::build_command_line;
use crate::laws::text::{numbers_are_read_back, trimmed_texts_stay};
use crate::modifiers::{EvalGoal, StrictHostKeyChecking, SubCommandModifiers};
use crate::store_path::SafeStorePath;
use crate::text::{decimal, is_white_space, joined, number_value, replaced, trimmed};
use vstd::prelude::*;

verus! {

/// A command line is its words, the arguments trimmed, with one space between each two of them.
pub proof fn command_lines_are_their_words(command: Seq<char>, arguments: Seq<Seq<char>>)
    ensures
        with_args(command, arguments) == joined(
            seq![command] + arguments.map_values(|argument: Seq<char>| trimmed(argument)),
            " "@,
        ),
    decreases arguments.len(),
{
    let trim = |argument: Seq<char>| trimmed(argument);
    let words = seq![command] + arguments.map_values(trim);
    if arguments.len() == 0 {
        assert(words =~= seq![command]);
    } else {
        let front = arguments.drop_last();
        command_lines_are_their_words(command, front);
        assert(words.drop_last() =~= seq![command] + front.map_values(trim));
        assert(words.last() == trimmed(arguments.last()));
    }
}

/// Whether a text has no white space at its ends.
spec fn is_trim(s: Seq<char>) -> bool {
    s.len() > 0 && !is_white_space(s[0]) && !is_white_space(s.last())
}

proof fn lemma_words(command: Seq<char>, arguments: Seq<Seq<char>>, last: Seq<char>)
    requires
        forall|i: int| 0 <= i < arguments.len() ==> is_trim(#[trigger] arguments[i]),
    ensures
        with_args(command, arguments.push(last)) == joined(
            seq![command] + arguments + seq![trimmed(last)],
            " "@,
        ),
{
    let trim = |argument: Seq<char>| trimmed(argument);
    let all = arguments.push(last);
    command_lines_are_their_words(command, all);
    assert forall|i: int| 0 <= i < all.len() implies #[trigger] all.map_values(trim)[i] == (
    arguments + seq![trimmed(last)])[i] by {
        if i < arguments.len() {
            assert(is_trim(arguments[i]));
            trimmed_texts_stay(arguments[i]);
        }
    }
    assert(seq![command] + all.map_values(trim) =~= seq![command] + arguments + seq![
        trimmed(last),
    ]);
}

/// A flake and a `hive.nix` name the same attribute of the hive, and of a node it is the one below
/// `topLevels` that has the name of the node.
pub proof fn files_and_flakes_name_the_same_attribute(
    uri: String,
    prefetch: FlakePrefetch,
    path: String,
    goal: EvalGoal,
)
    ensures
        ({
            let attribute = match goal {
                EvalGoal::Inspect => "inspect"@,
                EvalGoal::Names => "names"@,
                EvalGoal::GetTopLevel(node) => "topLevels."@ + node@,
            };
            &&& attribute_text(HiveLocation::Flake { uri, prefetch }, goal) == uri@
                + "#wire --apply \"hive: hive."@ + attribute + "\""@
            &&& attribute_text(HiveLocation::HiveNix(path), goal) == "--file "@ + path@ + " "@
                + attribute
        }),
{
    reveal_strlit("#wire --apply \"hive: ");
    reveal_strlit("hive.");
    reveal_strlit("#wire --apply \"hive: hive.");
    assert("#wire --apply \"hive: "@ + "hive."@ =~= "#wire --apply \"hive: hive."@);
    let attribute = match goal {
        EvalGoal::Inspect => "inspect"@,
        EvalGoal::Names => "names"@,
        EvalGoal::GetTopLevel(node) => "topLevels."@ + node@,
    };
    assert(uri@ + "#wire --apply \"hive: "@ + "hive."@ =~= uri@ + ("#wire --apply \"hive: "@
        + "hive."@));
}

/// Different nodes are different attributes of a hive.
pub proof fn nodes_are_evaluated_apart(location: HiveLocation, a: &Name, b: &Name)
    ensures
        attribute_text(location, EvalGoal::GetTopLevel(a)) == attribute_text(
            location,
            EvalGoal::GetTopLevel(b),
        ) ==> a@ == b@,
{
    let x = attribute_text(location, EvalGoal::GetTopLevel(a));
    let y = attribute_text(location, EvalGoal::GetTopLevel(b));
    if x == y {
        let (before, after) = match location {
            HiveLocation::Flake { uri, .. } => (
                uri@ + "#wire --apply \"hive: "@ + "hive."@ + "topLevels."@,
                "\""@,
            ),
            HiveLocation::HiveNix(path) => ("--file "@ + path@ + " "@ + "topLevels."@, ""@),
        };
        reveal_strlit("");
        assert(x =~= before + a@ + after);
        assert(y =~= before + b@ + after);
        assert(a@ =~= x.subrange(before.len() as int, x.len() - after.len()));
        assert(b@ =~= y.subrange(before.len() as int, y.len() - after.len()));
    }
}

/// An evaluation asks nix for the attribute as JSON, with flakes at hand, and traces where that is
/// asked for.
pub proof fn evaluations_ask_for_the_attribute(attribute: Seq<char>)
    ensures
        eval_command(attribute, false) == joined(
            seq![
                "nix"@,
                "--extra-experimental-features"@,
                "nix-command"@,
                "--extra-experimental-features"@,
                "flakes"@,
                "eval"@,
                "--json"@,
                trimmed(attribute),
            ],
            " "@,
        ),
        eval_command(attribute, true) == joined(
            seq![
                "nix"@,
                "--extra-experimental-features"@,
                "nix-command"@,
                "--extra-experimental-features"@,
                "flakes"@,
                "eval"@,
                "--json"@,
                "--show-trace"@,
                trimmed(attribute),
            ],
            " "@,
        ),
{
    lemma_literals_are_trim();
    let quiet = seq![
        "--extra-experimental-features"@,
        "nix-command"@,
        "--extra-experimental-features"@,
        "flakes"@,
        "eval"@,
        "--json"@,
    ];
    lemma_words("nix"@, quiet, attribute);
    assert(quiet.push(attribute) =~= quiet + Seq::empty() + seq![attribute]);
    assert(seq!["nix"@] + quiet + seq![trimmed(attribute)] =~= seq![
        "nix"@,
        "--extra-experimental-features"@,
        "nix-command"@,
        "--extra-experimental-features"@,
        "flakes"@,
        "eval"@,
        "--json"@,
        trimmed(attribute),
    ]);
    let traced = quiet + seq!["--show-trace"@];
    lemma_words("nix"@, traced, attribute);
    assert(traced.push(attribute) =~= quiet + seq!["--show-trace"@] + seq![attribute]);
    assert(seq!["nix"@] + traced + seq![trimmed(attribute)] =~= seq![
        "nix"@,
        "--extra-experimental-features"@,
        "nix-command"@,
        "--extra-experimental-features"@,
        "flakes"@,
        "eval"@,
        "--json"@,
        "--show-trace"@,
        trimmed(attribute),
    ]);
}

proof fn lemma_literals_are_trim()
    ensures
        is_trim("--extra-experimental-features"@),
        is_trim("nix-command"@),
        is_trim("flakes"@),
        is_trim("eval"@),
        is_trim("--json"@),
        is_trim("--show-trace"@),
        is_trim("copy"@),
        is_trim("--substitute-on-destination"@),
        is_trim("--to"@),
        is_trim("build"@),
        is_trim("--no-link"@),
        is_trim("--print-out-paths"@),
        is_trim("--print-build-logs"@),
{
    reveal_strlit("--extra-experimental-features");
    reveal_strlit("nix-command");
    reveal_strlit("flakes");
    reveal_strlit("eval");
    reveal_strlit("--json");
    reveal_strlit("--show-trace");
    reveal_strlit("copy");
    reveal_strlit("--substitute-on-destination");
    reveal_strlit("--to");
    reveal_strlit("build");
    reveal_strlit("--no-link");
    reveal_strlit("--print-out-paths");
    reveal_strlit("--print-build-logs");
}

/// A copy goes to the user at the host over ssh. Of a derivation it is the derivation that is
/// copied, of anything else the path, and the node substitutes what it can where that is asked for.
pub proof fn copies_go_to_the_host(
    user: Seq<char>,
    host: Seq<char>,
    path: &SafeStorePath,
    substitutes: bool,
)
    ensures
        ({
            let words = seq!["nix"@, "--extra-experimental-features"@, "nix-command"@, "copy"@];
            let asked = if substitutes {
                words.push("--substitute-on-destination"@)
            } else {
                words
            };
            let to = asked.push("--to"@).push(trimmed("ssh://"@ + user + "@"@ + host));
            &&& copy_command(user, host, Push::Path(path), substitutes) == joined(
                to.push(trimmed(path@)),
                " "@,
            )
            &&& copy_command(user, host, Push::Derivation(path), substitutes) == joined(
                to.push(trimmed(path@ + " --derivation"@)),
                " "@,
            )
        }),
{
    lemma_copy_words(user, host, Push::Path(path), path@, substitutes);
    lemma_copy_words(user, host, Push::Derivation(path), path@ + " --derivation"@, substitutes);
}

proof fn lemma_copy_words(
    user: Seq<char>,
    host: Seq<char>,
    push: Push,
    argument: Seq<char>,
    substitutes: bool,
)
    requires
        push matches Push::Path(path) ==> argument == path@,
        push matches Push::Derivation(path) ==> argument == path@ + " --derivation"@,
    ensures
        ({
            let words = seq!["nix"@, "--extra-experimental-features"@, "nix-command"@, "copy"@];
            let asked = if substitutes {
                words.push("--substitute-on-destination"@)
            } else {
                words
            };
            let to = asked.push("--to"@).push(trimmed("ssh://"@ + user + "@"@ + host));
            copy_command(user, host, push, substitutes) == joined(to.push(trimmed(argument)), " "@)
        }),
{
    lemma_literals_are_trim();
    let trim = |argument: Seq<char>| trimmed(argument);
    let first = seq!["--extra-experimental-features"@, "nix-command"@, "copy"@];
    let substitute = if substitutes {
        seq!["--substitute-on-destination"@]
    } else {
        Seq::empty()
    };
    let address = "ssh://"@ + user + "@"@ + host;
    let arguments = first + substitute + seq!["--to"@, address, argument];
    command_lines_are_their_words("nix"@, arguments);
    trimmed_texts_stay("--extra-experimental-features"@);
    trimmed_texts_stay("nix-command"@);
    trimmed_texts_stay("copy"@);
    trimmed_texts_stay("--substitute-on-destination"@);
    trimmed_texts_stay("--to"@);
    let words = seq!["nix"@, "--extra-experimental-features"@, "nix-command"@, "copy"@];
    let asked = if substitutes {
        words.push("--substitute-on-destination"@)
    } else {
        words
    };
    let to = asked.push("--to"@).push(trimmed(address));
    assert(seq!["nix"@] + arguments.map_values(trim) =~= to.push(trimmed(argument)));
}

/// A build makes the output `out` of the derivation, links nothing, prints where it is, and logs
/// what is built where that is asked for.
pub proof fn builds_make_the_output(top_level: Seq<char>)
    ensures
        build_command_line(top_level, false) == joined(
            seq![
                "nix"@,
                "--extra-experimental-features"@,
                "nix-command"@,
                "build"@,
                "--no-link"@,
                "--print-out-paths"@,
                trimmed(top_level + "^out"@),
            ],
            " "@,
        ),
        build_command_line(top_level, true) == joined(
            seq![
                "nix"@,
                "--extra-experimental-features"@,
                "nix-command"@,
                "build"@,
                "--no-link"@,
                "--print-out-paths"@,
                "--print-build-logs"@,
                trimmed(top_level + "^out"@),
            ],
            " "@,
        ),
{
    lemma_literals_are_trim();
    let installable = top_level + "^out"@;
    let quiet = seq![
        "--extra-experimental-features"@,
        "nix-command"@,
        "build"@,
        "--no-link"@,
        "--print-out-paths"@,
    ];
    lemma_words("nix"@, quiet, installable);
    assert(quiet.push(installable) =~= quiet + Seq::empty() + seq![installable]);
    assert(seq!["nix"@] + quiet + seq![trimmed(installable)] =~= seq![
        "nix"@,
        "--extra-experimental-features"@,
        "nix-command"@,
        "build"@,
        "--no-link"@,
        "--print-out-paths"@,
        trimmed(installable),
    ]);
    let logged = quiet + seq!["--print-build-logs"@];
    lemma_words("nix"@, logged, installable);
    assert(logged.push(installable) =~= quiet + seq!["--print-build-logs"@] + seq![installable]);
    assert(seq!["nix"@] + logged + seq![trimmed(installable)] =~= seq![
        "nix"@,
        "--extra-experimental-features"@,
        "nix-command"@,
        "build"@,
        "--no-link"@,
        "--print-out-paths"@,
        "--print-build-logs"@,
        trimmed(installable),
    ]);
}

/// ssh logs in as the user on the port, never asks, accepts unknown hosts only as far as it is told
/// to, and is either quiet or as talkative as it is told to be.
pub proof fn ssh_is_called_as_told(
    user: Seq<char>,
    port: u32,
    modifiers: SubCommandModifiers,
    quiet: bool,
)
    ensures
        ({
            let args = ssh_args(user, port, modifiers, quiet);
            &&& args[0] == "-l"@ && args[1] == user
            &&& args[2] == "-p"@ && number_value(args[3], 10) == Some(port as nat)
            &&& args[4] == "-o"@ && args[5] == if modifiers.ssh_accept_host
                == StrictHostKeyChecking::No {
                "StrictHostKeyChecking=no"@
            } else {
                "StrictHostKeyChecking=accept-new"@
            }
            &&& args[6] == "-o"@ && args[7] == "BatchMode=yes"@
            &&& quiet ==> args.len() == 9 && args[8] == "-q"@
            &&& !quiet && modifiers.ssh_verbosity == 0 ==> args.len() == 8
            &&& !quiet && modifiers.ssh_verbosity > 0 ==> {
                &&& args.len() == 9
                &&& args[8].len() == 1 + modifiers.ssh_verbosity
                &&& args[8][0] == '-'
                &&& forall|k: int| 1 <= k < args[8].len() ==> args[8][k] == 'v'
            }
        }),
{
    numbers_are_read_back(port as nat);
    reveal_strlit("StrictHostKeyChecking=");
    reveal_strlit("no");
    reveal_strlit("accept-new");
    reveal_strlit("StrictHostKeyChecking=no");
    reveal_strlit("StrictHostKeyChecking=accept-new");
    reveal_strlit("-");
    assert("StrictHostKeyChecking="@ + "no"@ =~= "StrictHostKeyChecking=no"@);
    assert("StrictHostKeyChecking="@ + "accept-new"@ =~= "StrictHostKeyChecking=accept-new"@);
}

/// A shell is given the command between quotes, in which every quote is closed, written and opened
/// again. A command of nix is asked to log in a way that can be read, and a command with an
/// escalation command stands behind it.
pub proof fn shells_run_the_command(command: CommandView)
    ensures
        ({
            let asked = if command.output_mode == ChildOutputMode::Nix {
                command.command_string + " --log-format internal-json"@
            } else {
                command.command_string
            };
            let run = "bash -c '"@ + replaced(asked, '\'', "'''"@) + "'"@;
            shell_command(command) == match command.privilege_escalation_command {
                Some(escalation) => escalation + " "@ + run,
                None => run,
            }
        }),
{
    reveal_strlit("");
    reveal_strlit("'\''");
    reveal_strlit("'''");
    assert("'\''"@ =~= "'''"@);
    assert(command.command_string + ""@ =~= command.command_string);
}

/// An error of a command shows the last twenty messages, in the order in which they came.
pub proof fn errors_show_the_last_twenty_messages(messages: Seq<Seq<char>>)
    ensures
        kept_of(messages).reverse() == if messages.len() > 20 {
            messages.skip(messages.len() - 20)
        } else {
            messages
        },
{
    the_last_messages_are_kept(messages);
}

/// The code of a command is shown as a number that is read back, behind a sign where it is
/// negative; that there is none is said.
pub proof fn codes_are_shown(code: i32)
    ensures
        code_text(None) == "no exit code"@,
        code >= 0 ==> exists|digits: Seq<char>|
            code_text(Some(code)) == "code "@ + digits && #[trigger] number_value(digits, 10)
                == Some(code as nat),
        code < 0 ==> exists|digits: Seq<char>|
            code_text(Some(code)) == "code -"@ + digits && #[trigger] number_value(digits, 10)
                == Some((-code) as nat),
{
    reveal_strlit("code ");
    reveal_strlit("-");
    reveal_strlit("code -");
    if code >= 0 {
        numbers_are_read_back(code as nat);
        assert(number_value(decimal(code as nat), 10) == Some(code as nat));
    } else {
        let n = (-code) as nat;
        numbers_are_read_back(n);
        assert("code "@ + ("-"@ + decimal(n)) =~= "code -"@ + decimal(n));
        assert(number_value(decimal(n), 10) == Some(n));
    }
}

/// The system of a node is evaluated by the name of the node below `topLevels`, wherever the hive
/// is.
pub proof fn systems_are_evaluated_by_name(
    location: &HiveLocation,
    name: &Name,
    shown: String,
)
    requires
        call_ensures(hive_attribute, (location, &EvalGoal::GetTopLevel(name)), shown),
    ensures
        location matches HiveLocation::HiveNix(path) ==> shown@ == "--file "@ + path@
            + " topLevels."@ + name@,
        location matches HiveLocation::Flake { uri, .. } ==> shown@ == uri@
            + "#wire --apply \"hive: hive.topLevels."@ + name@ + "\""@,
{
    reveal_strlit(" ");
    reveal_strlit("topLevels.");
    reveal_strlit(" topLevels.");
    reveal_strlit("#wire --apply \"hive: ");
    reveal_strlit("hive.");
    reveal_strlit("#wire --apply \"hive: hive.topLevels.");
    assert(" "@ + "topLevels."@ =~= " topLevels."@);
    assert("#wire --apply \"hive: "@ + "hive."@ + "topLevels."@
        =~= "#wire --apply \"hive: hive.topLevels."@);
    match *location {
        HiveLocation::HiveNix(path) => {
            assert(shown@ =~= "--file "@ + path@ + " topLevels."@ + name@);
        },
        HiveLocation::Flake { uri, .. } => {
            assert(shown@ =~= uri@ + "#wire --apply \"hive: hive.topLevels."@ + name@ + "\""@);
        },
    }
}

} // verus!
