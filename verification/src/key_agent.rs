//! The agent that writes keys on a node.
use crate::hive::steps::keys::{
    base64_decoded, base64_of, decode_base64, digest_of, sha256, KeySpec, KeySpecView,
};
use crate::text::{decimal, decimal_of, octal, octal_of};
use vstd::prelude::*;

verus! {

/// Why the agent does not write a key.
#[derive(Clone, Debug, PartialEq, Eq)]
pub enum KeyAgentError {
    /// The frame is not base64.
    NotBase64,
    /// The key is not the one that was announced: it has this digest.
    DigestMismatch(Vec<u8>),
}

/// How a key is announced.
pub open spec fn shown_spec(spec: KeySpecView) -> Seq<char> {
    spec.destination + " "@ + spec.user + ":"@ + spec.group + " "@ + octal(spec.unix_mode as nat)
}

/// The announcement of a key.
pub fn pretty_keyspec(spec: &KeySpec) -> (s: String)
    ensures
        s@ == shown_spec(spec@),
{
    let mut s = spec.destination.clone();
    s.push_str(" ");
    s.push_str(spec.user.as_str());
    s.push_str(":");
    s.push_str(spec.group.as_str());
    s.push_str(" ");
    s.push_str(octal_of(spec.unix_mode).as_str());
    s
}

/// What is said before a key is written.
pub open spec fn announcement(spec: KeySpecView, length: nat) -> Seq<char> {
    "Writing "@ + shown_spec(spec) + ", "@ + decimal(length) + " bytes of data"@
}

/// What is said before a key is written.
pub fn announce(spec: &KeySpec, contents: &[u8]) -> (s: String)
    ensures
        s@ == announcement(spec@, contents@.len()),
{
    let mut s = "Writing ".to_owned();
    s.push_str(pretty_keyspec(spec).as_str());
    s.push_str(", ");
    s.push_str(decimal_of(contents.len() as u64).as_str());
    s.push_str(" bytes of data");
    s
}

/// The bytes that a frame holds: those of a specification, or the contents of a key.
pub fn read_frame(frame: &[u8]) -> (r: Result<Vec<u8>, KeyAgentError>)
    ensures
        match r {
            Ok(bytes) => base64_decoded(frame@) == Some(bytes@),
            Err(error) => base64_decoded(frame@) is None && error == KeyAgentError::NotBase64,
        },
        forall|bytes: Seq<u8>| #[trigger]
            base64_of(bytes) == frame@ ==> r is Ok && r->Ok_0@ == bytes,
{
    match decode_base64(frame) {
        Some(bytes) => Ok(bytes),
        None => Err(KeyAgentError::NotBase64),
    }
}

/// Lets the contents of a key through where they are those that were announced.
pub fn check_key(spec: &KeySpec, contents: Vec<u8>) -> (r: Result<Vec<u8>, KeyAgentError>)
    ensures
        match r {
            Ok(passed) => passed == contents && sha256(contents@) == spec@.digest,
            Err(KeyAgentError::DigestMismatch(digest)) => digest@ == sha256(contents@) && digest@
                != spec@.digest,
            Err(KeyAgentError::NotBase64) => false,
        },
{
    let digest = digest_of(contents.as_slice());
    if same_bytes(&digest, &spec.digest) {
        Ok(contents)
    } else {
        Err(KeyAgentError::DigestMismatch(digest))
    }
}

fn same_bytes(a: &Vec<u8>, b: &Vec<u8>) -> (r: bool)
    ensures
        r == (a@ == b@),
{
    if a.len() != b.len() {
        return false;
    }
    for i in 0..a.len()
        invariant
            a@.len() == b@.len(),
            forall|k: int| 0 <= k < i ==> a@[k] == b@[k],
    {
        if a[i] != b[i] {
            return false;
        }
    }
    assert(a@ =~= b@);
    true
}

} // verus!
