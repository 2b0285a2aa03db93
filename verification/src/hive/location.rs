//! Where a hive is found.
use crate::commands::builder::{slice_texts, with_args, with_args_appends, CommandStringBuilder};
use crate::commands::{ChildOutputMode, CommandArguments, CommandView};
use crate::errors::{HiveInitialisationError, HiveLibError, HiveLocationError};
use crate::modifiers::SubCommandModifiers;
use crate::store_path::SafeStorePath;
use crate::text::{file_name, join_path, name_of, path_below, same};
use vstd::prelude::*;

verus! {

/// What prefetching a flake yields.
#[derive(Debug)]
pub struct FlakePrefetch {
    pub hash: String,
    pub store_path: SafeStorePath,
}

/// The place of a hive.
#[derive(Debug)]
pub enum HiveLocation {
    /// A file that holds the hive.
    HiveNix(String),
    /// A flake that provides the hive.
    Flake { uri: String, prefetch: FlakePrefetch },
}

/// What a text is as a reference to a flake.
#[derive(Debug)]
pub enum FlakeReference {
    /// It is no URL.
    NoUrl,
    /// It refers to a path.
    Path(String),
    /// It refers to something that has to be fetched.
    Remote,
    /// It is malformed in another way.
    Malformed(String),
    /// It refers to something that hives do not come from.
    Unsupported(String),
}

/// What has to be done to find a hive.
#[derive(Debug)]
pub enum LocationAction {
    /// Look whether `file` exists, to know whether the directory at `path` is a flake.
    LookForFlake { path: String, file: String },
    /// Prefetch a flake.
    Prefetch { uri: String },
    /// The hive was found, or never will be.
    Finish(Result<HiveLocation, HiveLibError>),
}

/// Whether this is what comes next at a path whose last part is known: a file of the right name is
/// the hive, another path may be that of a flake.
pub open spec fn is_path_action(
    action: LocationAction,
    path: Seq<char>,
    name: Option<Seq<char>>,
) -> bool {
    match name {
        Some(name) => if name == "hive.nix"@ {
            action matches LocationAction::Finish(Ok(HiveLocation::HiveNix(found))) && found@
                == path
        } else {
            action matches LocationAction::LookForFlake { path: at, file } && at@ == path && file@
                == path_below(path, "flake.nix"@)
        },
        None => action matches LocationAction::Finish(
            Err(HiveLibError::HiveLocationError(HiveLocationError::MalformedPath(shown))),
        ) && shown@ == path,
    }
}

/// Says what comes next at a path whose last part is known.
pub fn path_to_location(path: String, name: Option<String>) -> (action: LocationAction)
    ensures
        is_path_action(
            action,
            path@,
            match name {
                Some(name) => Some(name@),
                None => None,
            },
        ),
{
    match name {
        Some(name) => {
            if same(name.as_str(), "hive.nix") {
                LocationAction::Finish(Ok(HiveLocation::HiveNix(path)))
            } else {
                let file = join_path(path.as_str(), "flake.nix");
                LocationAction::LookForFlake { path, file }
            }
        },
        None => LocationAction::Finish(
            Err(HiveLibError::HiveLocationError(HiveLocationError::MalformedPath(path))),
        ),
    }
}

/// Starts to look for a hive, given what the text that leads to it is as a reference to a flake.
pub fn get_hive_location(path: String, reference: FlakeReference) -> (action: LocationAction)
    ensures
        match reference {
            FlakeReference::NoUrl => is_path_action(action, path@, file_name(path@)),
            FlakeReference::Path(meant) => is_path_action(action, meant@, file_name(meant@)),
            FlakeReference::Remote => action == (LocationAction::Prefetch { uri: path }),
            FlakeReference::Malformed(error) => action == LocationAction::Finish(
                Err(HiveLibError::HiveLocationError(HiveLocationError::Malformed(error))),
            ),
            FlakeReference::Unsupported(shown) => action == LocationAction::Finish(
                Err(HiveLibError::HiveLocationError(HiveLocationError::TypeUnsupported(shown))),
            ),
        },
{
    match reference {
        FlakeReference::NoUrl => {
            let name = name_of(path.as_str());
            path_to_location(path, name)
        },
        FlakeReference::Path(meant) => {
            let name = name_of(meant.as_str());
            path_to_location(meant, name)
        },
        FlakeReference::Remote => LocationAction::Prefetch { uri: path },
        FlakeReference::Malformed(error) => LocationAction::Finish(
            Err(HiveLibError::HiveLocationError(HiveLocationError::Malformed(error))),
        ),
        FlakeReference::Unsupported(shown) => LocationAction::Finish(
            Err(HiveLibError::HiveLocationError(HiveLocationError::TypeUnsupported(shown))),
        ),
    }
}

/// Says what comes next once it is known whether a directory is a flake. A flake always comes
/// before a file in the same directory.
pub fn looked_for_flake(path: String, is_flake: bool) -> (action: LocationAction)
    ensures
        if is_flake {
            action == (LocationAction::Prefetch { uri: path })
        } else {
            action matches LocationAction::Finish(Ok(HiveLocation::HiveNix(found))) && found@
                == path_below(path@, "hive.nix"@)
        },
{
    if is_flake {
        LocationAction::Prefetch { uri: path }
    } else {
        LocationAction::Finish(
            Ok(HiveLocation::HiveNix(join_path(path.as_str(), "hive.nix"))),
        )
    }
}

/// The command line that prefetches a flake.
pub open spec fn prefetch_line(uri: Seq<char>) -> Seq<char> {
    with_args(
        "nix"@,
        seq![
            "flake"@,
            "prefetch"@,
            "--extra-experimental-features"@,
            "nix-command"@,
            "--extra-experimental-features"@,
            "flakes"@,
            "--json"@,
            uri,
        ],
    )
}

impl HiveLocation {
    /// The command that prefetches a flake.
    pub fn prefetch_command(uri: &str, modifiers: SubCommandModifiers) -> (r: CommandArguments)
        ensures
            r@ == (CommandView {
                output_mode: ChildOutputMode::Generic,
                ..CommandView::plain(prefetch_line(uri@), modifiers)
            }),
    {
        let mut command_string = CommandStringBuilder::nix();
        command_string.args(
            &[
                "flake",
                "prefetch",
                "--extra-experimental-features",
                "nix-command",
                "--extra-experimental-features",
                "flakes",
                "--json",
            ],
        );
        command_string.arg(uri);
        proof {
            let first = seq![
                "flake"@,
                "prefetch"@,
                "--extra-experimental-features"@,
                "nix-command"@,
                "--extra-experimental-features"@,
                "flakes"@,
                "--json"@,
            ];
            assert(slice_texts(
                seq![
                    "flake",
                    "prefetch",
                    "--extra-experimental-features",
                    "nix-command",
                    "--extra-experimental-features",
                    "flakes",
                    "--json",
                ],
            ) =~= first);
            with_args_appends("nix"@, first, seq![uri@]);
            assert(first + seq![uri@] =~= seq![
                "flake"@,
                "prefetch"@,
                "--extra-experimental-features"@,
                "nix-command"@,
                "--extra-experimental-features"@,
                "flakes"@,
                "--json"@,
                uri@,
            ]);
        }
        CommandArguments::new(command_string.as_str(), modifiers).mode(ChildOutputMode::Generic)
    }

    /// The location of a flake, once it was prefetched and what the command printed was read.
    pub fn get_flake(uri: String, prefetched: Result<FlakePrefetch, String>) -> (r: Result<
        HiveLocation,
        HiveLibError,
    >)
        ensures
            r == match prefetched {
                Ok(prefetch) => Ok::<HiveLocation, HiveLibError>(
                    HiveLocation::Flake { uri, prefetch },
                ),
                Err(error) => Err(
                    HiveLibError::HiveInitialisationError(
                        HiveInitialisationError::ParsePrefetchError(error),
                    ),
                ),
            },
    {
        match prefetched {
            Ok(prefetch) => Ok(HiveLocation::Flake { uri, prefetch }),
            Err(error) => Err(
                HiveLibError::HiveInitialisationError(
                    HiveInitialisationError::ParsePrefetchError(error),
                ),
            ),
        }
    }

    /// What the cache knows the hive by: flakes do not change under it, files may.
    pub fn cache_key(&self) -> (r: Option<&FlakePrefetch>)
        ensures
            r == match *self {
                HiveLocation::HiveNix(_) => None,
                HiveLocation::Flake { uri, prefetch } => Some(&prefetch),
            },
    {
        match self {
            HiveLocation::HiveNix(_) => None,
            HiveLocation::Flake { prefetch, .. } => Some(prefetch),
        }
    }
}

} // verus!
