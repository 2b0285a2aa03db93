//! Copying a path and all that it needs from one daemon to another.
use crate::commands::common::{copy_help, shows_distrust, untrusted_help};
use crate::errors::HiveLibError;
use crate::hive::node::Name;
use crate::nix_client::closure::{refers, references_come_first, Found};
use crate::nix_client::operations::{
    distinct_paths, holds_path, PathInfo, WireAddToStoreNarRequest,
};
use crate::nix_client::NixDaemonClientError;
use crate::store_path::{paths, SafeStorePath};
use crate::text::{decimal, decimal_of, without_repeats};
use vstd::prelude::*;

verus! {

/// Whether an error of a daemon shows that it does not trust the user.
pub open spec fn is_distrust(error: NixDaemonClientError) -> bool {
    error matches NixDaemonClientError::NixDaemonOperationError { msg, .. } && shows_distrust(msg@)
}

/// Help for a failed copy.
pub fn get_common_copy_path_help(error: &NixDaemonClientError) -> (r: Option<String>)
    ensures
        match r {
            Some(help) => is_distrust(*error) && help@ == untrusted_help(),
            None => !is_distrust(*error),
        },
{
    match error {
        NixDaemonClientError::NixDaemonOperationError { msg, .. } => copy_help(msg.as_str()),
        _ => None,
    }
}

/// What is still to be copied: what stands in the closure and is not on the target, in the order
/// of the closure.
pub open spec fn missing_on(closure: Seq<Seq<char>>, on_target: Seq<Seq<char>>) -> Seq<Seq<char>> {
    closure.filter(|path: Seq<char>| !on_target.contains(path))
}

/// What the user is told before a copy, where the target lacks anything: how many more paths the
/// closure has than the target.
pub fn announce(closure: &Vec<SafeStorePath>, on_target: &Vec<SafeStorePath>) -> (r: Option<String>)
    ensures
        match r {
            Some(text) => closure@.len() > without_repeats(paths(on_target@)).len() && text@
                == "pushing "@ + decimal(
                (closure@.len() - without_repeats(paths(on_target@)).len()) as nat,
            ),
            None => closure@.len() <= without_repeats(paths(on_target@)).len(),
        },
{
    let distinct = distinct_paths(on_target);
    assert(paths(distinct@).len() == distinct@.len());
    let present: usize = distinct.len();
    let total: usize = closure.len();
    if total > present {
        let mut text = "pushing ".to_owned();
        text.push_str(decimal_of((total - present) as u64).as_str());
        Some(text)
    } else {
        None
    }
}

/// A copy in progress. The paths before `done` are on the target.
#[derive(Debug)]
pub struct DaemonPush {
    pub name: Name,
    pub host: String,
    pub uploads: Vec<SafeStorePath>,
    pub done: usize,
}

/// What became of an action.
#[derive(Debug)]
pub enum PushEvent {
    /// Nothing was done yet.
    Started,
    /// What the local daemon knows of the path.
    Queried(Result<Option<PathInfo>, NixDaemonClientError>),
    /// How the upload ended.
    Uploaded(Result<(), NixDaemonClientError>),
}

/// What a copy needs to be done next.
#[derive(Debug)]
pub enum PushAction {
    /// Say what is copied, and ask the local daemon about it.
    Query { path: SafeStorePath, note: String },
    /// Send the archive of a path, of this size, from the local daemon to the other.
    Upload { path: SafeStorePath, nar_size: u64, request: WireAddToStoreNarRequest },
    /// The copy has ended.
    Finish(Result<(), HiveLibError>),
}

/// What the user is told of a path that is copied.
pub open spec fn copying_text(path: Seq<char>, host: Seq<char>) -> Seq<char> {
    "copying '"@ + path + "' to node "@ + host
}

/// What is said of a path that has gone missing.
pub open spec fn vanished_text(path: Seq<char>) -> Seq<char> {
    "selected "@ + path + " for upload does not exist in local store"@
}

/// The error of a copy that a daemon ended.
pub open spec fn is_copy_error(
    error: HiveLibError,
    name: Name,
    path: Seq<char>,
    source: NixDaemonClientError,
) -> bool {
    error matches HiveLibError::NixCopyError { name: shown, path: lost, error: cause, help }
        && shown == name && lost@ == path && cause == source && match help {
        Some(help) => is_distrust(source) && help@ == untrusted_help(),
        None => !is_distrust(source),
    }
}

/// The error of a copy of a path that the local store has no more.
pub open spec fn is_vanished_error(error: HiveLibError, name: Name, path: Seq<char>) -> bool {
    error matches HiveLibError::NixCopyError { name: shown, path: lost, error: cause, help }
        && shown == name && lost@ == path && help is None && (
    cause matches NixDaemonClientError::NixDaemonOperationFailed(text) && text@ == vanished_text(
        path,
    ))
}

impl DaemonPush {
    /// Whether there is a path that the last action was about.
    pub open spec fn accepts(self, event: PushEvent) -> bool {
        !(event is Started) ==> self.done < self.uploads.len()
    }

    /// What comes once this many paths are on the target.
    pub open spec fn is_turn(self, action: PushAction) -> bool {
        if self.done < self.uploads@.len() {
            action matches PushAction::Query { path, note } && path == self.uploads@[self.done as int]
                && note@ == copying_text(path@, self.host@)
        } else {
            action matches PushAction::Finish(result) && result is Ok
        }
    }

    /// Starts a copy of what the target lacks.
    pub fn new(
        name: &Name,
        host: String,
        closure: &Vec<SafeStorePath>,
        on_target: &Vec<SafeStorePath>,
    ) -> (r: Self)
        ensures
            r.name == *name,
            r.host == host,
            r.done == 0,
            paths(r.uploads@) == missing_on(paths(closure@), paths(on_target@)),
    {
        let mut uploads: Vec<SafeStorePath> = Vec::new();
        let ghost lacking = |path: Seq<char>| !paths(on_target@).contains(path);
        proof {
            reveal(Seq::filter);
            assert(paths(uploads@) =~= paths(closure@).take(0).filter(lacking));
        }
        for i in 0..closure.len()
            invariant
                lacking == |path: Seq<char>| !paths(on_target@).contains(path),
                paths(uploads@) == paths(closure@).take(i as int).filter(lacking),
        {
            let ghost before = paths(uploads@);
            let ghost path = closure@[i as int]@;
            proof {
                reveal(Seq::filter);
                assert(paths(closure@).take(i + 1).drop_last() =~= paths(closure@).take(i as int));
                assert(paths(closure@).take(i + 1).last() == path);
            }
            if !holds_path(on_target, &closure[i]) {
                uploads.push(closure[i].clone());
                assert(paths(uploads@) =~= before.push(path));
            }
        }
        assert(paths(closure@).take(closure@.len() as int) =~= paths(closure@));
        DaemonPush { name: name.clone(), host, uploads, done: 0 }
    }

    fn turn(&self) -> (action: PushAction)
        ensures
            self.is_turn(action),
    {
        if self.done < self.uploads.len() {
            let path = self.uploads[self.done].clone();
            let mut note = "copying '".to_owned();
            note.push_str(path.to_absolute_path().as_str());
            note.push_str("' to node ");
            note.push_str(self.host.as_str());
            PushAction::Query { path, note }
        } else {
            PushAction::Finish(Ok(()))
        }
    }

    fn failed(&self, source: NixDaemonClientError) -> (error: HiveLibError)
        requires
            self.done < self.uploads@.len(),
        ensures
            is_copy_error(error, self.name, self.uploads@[self.done as int]@, source),
    {
        let help = get_common_copy_path_help(&source);
        HiveLibError::NixCopyError {
            name: self.name.clone(),
            path: self.uploads[self.done].clone(),
            error: source,
            help,
        }
    }

    /// Takes note of what became of the last action, and says what to do next. One path after the
    /// other is asked about and uploaded; the first failure ends the copy.
    pub fn next(&mut self, event: PushEvent) -> (action: PushAction)
        requires
            old(self).accepts(event),
        ensures
            final(self).name == old(self).name,
            final(self).host == old(self).host,
            final(self).uploads == old(self).uploads,
            match event {
                PushEvent::Started => final(self).done == old(self).done && final(self).is_turn(
                    action,
                ),
                PushEvent::Uploaded(Ok(())) => final(self).done == old(self).done + 1
                    && final(self).is_turn(action),
                PushEvent::Queried(Ok(Some(info))) => final(self).done == old(self).done && {
                    let wanted = old(self).uploads@[old(self).done as int];
                    action matches PushAction::Upload { path, nar_size, request } && path == wanted
                        && nar_size == info.nar_size && request
                        == WireAddToStoreNarRequest::known_elsewhere(wanted, info)
                },
                PushEvent::Queried(Ok(None)) => final(self).done == old(self).done && (
                action matches PushAction::Finish(Err(error)) && is_vanished_error(
                    error,
                    old(self).name,
                    old(self).uploads@[old(self).done as int]@,
                )),
                PushEvent::Queried(Err(source)) => final(self).done == old(self).done && (
                action matches PushAction::Finish(Err(error)) && is_copy_error(
                    error,
                    old(self).name,
                    old(self).uploads@[old(self).done as int]@,
                    source,
                )),
                PushEvent::Uploaded(Err(source)) => final(self).done == old(self).done && (
                action matches PushAction::Finish(Err(error)) && is_copy_error(
                    error,
                    old(self).name,
                    old(self).uploads@[old(self).done as int]@,
                    source,
                )),
            },
    {
        match event {
            PushEvent::Started => self.turn(),
            PushEvent::Uploaded(Ok(())) => {
                self.done = self.done + 1;
                self.turn()
            },
            PushEvent::Queried(Ok(Some(info))) => {
                let path = self.uploads[self.done].clone();
                let nar_size: u64 = info.nar_size;
                let request = WireAddToStoreNarRequest::of_path_info(path.clone(), info);
                PushAction::Upload { path, nar_size, request }
            },
            PushEvent::Queried(Ok(None)) => {
                let path = self.uploads[self.done].clone();
                let mut text = "selected ".to_owned();
                text.push_str(path.to_absolute_path().as_str());
                text.push_str(" for upload does not exist in local store");
                PushAction::Finish(
                    Err(
                        HiveLibError::NixCopyError {
                            name: self.name.clone(),
                            path,
                            error: NixDaemonClientError::NixDaemonOperationFailed(text),
                            help: None,
                        },
                    ),
                )
            },
            PushEvent::Queried(Err(source)) => PushAction::Finish(Err(self.failed(source))),
            PushEvent::Uploaded(Err(source)) => PushAction::Finish(Err(self.failed(source))),
        }
    }
}

/// Whatever an uploaded path refers to is on the target before it: it was there, or it was uploaded
/// earlier.
pub proof fn uploads_find_their_references(
    found: Found,
    closure: Seq<Seq<char>>,
    on_target: Seq<Seq<char>>,
    p: int,
    to: Seq<char>,
)
    requires
        references_come_first(found, closure),
        0 <= p < missing_on(closure, on_target).len(),
        refers(found, missing_on(closure, on_target)[p], to),
        to != missing_on(closure, on_target)[p],
    ensures
        on_target.contains(to) || missing_on(closure, on_target).take(p).contains(to),
    decreases closure.len(),
{
    let lacking = |path: Seq<char>| !on_target.contains(path);
    let uploads = missing_on(closure, on_target);
    let front = closure.drop_last();
    let earlier = missing_on(front, on_target);
    reveal(Seq::filter);
    assert forall|q: int, other: Seq<char>|
        0 <= q < front.len() && #[trigger] refers(found, front[q], other) && other != front[q]
            implies front.take(q).contains(other) by {
        assert(refers(found, closure[q], other));
        assert(closure.take(q) =~= front.take(q));
    }
    if p < earlier.len() {
        assert(uploads[p] == earlier[p]);
        uploads_find_their_references(found, front, on_target, p, to);
        assert(uploads.take(p) =~= earlier.take(p));
    } else {
        assert(uploads[p] == closure.last());
        assert(refers(found, closure[closure.len() - 1], to));
        assert(closure.take(closure.len() - 1) =~= front);
        assert(front.contains(to));
        if !on_target.contains(to) {
            front.lemma_filter_contains_rev(lacking, to);
            assert(uploads.take(p) =~= earlier);
        }
    }
}

} // verus!
