//! What becomes of keys.
use crate::errors::KeyError;
use crate::hive::steps::keys::{
    agent_variable, base64_of, describes, explains, frame, key_text, length_bytes, same_key,
    sent_to_agent, sha256, too_big_text, usable, KeySpecView, KeyView, SourceView, MAX_FRAME,
    MAX_SENT,
};
use crate::key_agent::announcement;
use crate::laws::text::numbers_are_read_back;
use crate::paint::in_dim;
use crate::text::{decimal, number_value, octal, parse_octal_error, path_below, replaced};
use vstd::prelude::*;

verus! {

/// The agent is told where a key goes, whose it is, who may read it, how long it is and what it
/// digests to.
pub proof fn keys_are_described(spec: KeySpecView, key: KeyView, contents: Seq<u8>)
    requires
        describes(spec, key, contents),
        contents.len() <= i32::MAX,
    ensures
        spec.destination == path_below(key.dest_dir, key.name),
        spec.user == key.user,
        spec.group == key.group,
        number_value(key.permissions, 8) == Some(spec.unix_mode as nat),
        spec.length == contents.len(),
        spec.digest == sha256(contents),
        !spec.last,
{
}

/// A key can be used where it was read and its permissions are an octal number, and else what went
/// wrong first is said.
pub proof fn unusable_keys_are_explained(
    key: KeyView,
    read: Result<Vec<u8>, KeyError>,
    error: KeyError,
)
    ensures
        usable(key, read) <==> read is Ok && number_value(key.permissions, 8) is Some
            && number_value(key.permissions, 8)->0 <= 0xffff_ffff,
        explains(error, key, read) && read is Err ==> error == read->Err_0,
        explains(error, key, read) && read is Ok ==> (error matches KeyError::ParseKeyPermissions(
            text,
        ) && text@ == parse_octal_error(key.permissions)),
{
}

/// Keys are the same where everything about them is.
pub proof fn same_keys_are_equal(a: KeyView, b: KeyView)
    ensures
        same_key(a, b) <==> a == b,
{
}

/// The variable of an agent is its platform behind a fixed word, with every hyphen underlined.
pub proof fn agents_are_found_by_platform(platform: Seq<char>, i: int)
    ensures
        ({
            let variable = agent_variable(platform);
            &&& variable.len() == 15 + platform.len()
            &&& variable.take(15) == "WIRE_KEY_AGENT_"@
            &&& 0 <= i < platform.len() ==> variable[15 + i] == if platform[i] == '-' {
                '_'
            } else {
                platform[i]
            }
        }),
{
    reveal_strlit("WIRE_KEY_AGENT_");
    reveal_strlit("_");
    lemma_replaced(platform, i);
    assert(agent_variable(platform).take(15) =~= "WIRE_KEY_AGENT_"@);
}

proof fn lemma_replaced(s: Seq<char>, i: int)
    ensures
        replaced(s, '-', "_"@).len() == s.len(),
        0 <= i < s.len() ==> replaced(s, '-', "_"@)[i] == if s[i] == '-' {
            '_'
        } else {
            s[i]
        },
    decreases s.len(),
{
    reveal_strlit("_");
    if s.len() > 0 {
        lemma_replaced(s.drop_last(), i);
    }
}

/// The agent is sent each key right behind its specification, both in base64, in order.
pub proof fn keys_follow_their_specifications(specs: Seq<Vec<u8>>, contents: Seq<Vec<u8>>, i: int)
    requires
        specs.len() == contents.len(),
    ensures
        sent_to_agent(specs, contents).len() == 2 * specs.len(),
        0 <= i < specs.len() ==> sent_to_agent(specs, contents)[2 * i] == base64_of(specs[i]@)
            && sent_to_agent(specs, contents)[2 * i + 1] == base64_of(contents[i]@),
    decreases specs.len(),
{
    if specs.len() > 0 {
        keys_follow_their_specifications(specs.drop_last(), contents.drop_last(), i);
    }
}

/// A frame begins with its length in four bytes, the most significant first, and holds at most eight
/// megabytes, which is six megabytes in base64. A larger one is refused by name.
pub proof fn frames_say_how_long_they_are(data: Seq<u8>)
    requires
        data.len() < 0x1_0000_0000,
    ensures
        frame(data).len() == 4 + data.len(),
        frame(data).skip(4) == data,
        data.len() == 0x100_0000 * frame(data)[0] + 0x1_0000 * frame(data)[1] + 0x100 * frame(
            data,
        )[2] + frame(data)[3],
        MAX_FRAME == 8 * 1024 * 1024,
        MAX_SENT == 6 * 1024 * 1024,
        too_big_text() == "frame size too big"@,
{
    reveal(length_bytes);
    assert(frame(data).skip(4) =~= data);
    let n = data.len();
    let bytes = frame(data);
    assert(bytes[0] == n / 0x100_0000 % 0x100);
    assert(bytes[1] == n / 0x1_0000 % 0x100);
    assert(bytes[2] == n / 0x100 % 0x100);
    assert(bytes[3] == n % 0x100);
}

/// A key is shown by where it comes from, where it goes, whose it is and who may read it; what it
/// holds is not shown.
pub proof fn keys_are_shown_without_their_contents(key: KeyView, other: KeyView)
    ensures
        ({
            let rest = " "@ + path_below(key.dest_dir, key.name) + " "@ + key.user + ":"@
                + key.group + " "@ + key.permissions;
            &&& key.source is String ==> key_text(key, false) == "Literal"@ + rest
                && key_text(key, true) == in_dim("Literal"@) + rest
            &&& key.source is Path ==> key_text(key, false) == "Path"@ + rest && key_text(key, true)
                == in_dim("Path"@) + rest
            &&& key.source is Command ==> key_text(key, false) == "Command"@ + rest
                && key_text(key, true) == in_dim("Command"@) + rest
        }),
{
    let kind = match key.source {
        SourceView::String(_) => "Literal"@,
        SourceView::Path(_) => "Path"@,
        SourceView::Command(_) => "Command"@,
    };
    let rest = " "@ + path_below(key.dest_dir, key.name) + " "@ + key.user + ":"@ + key.group
        + " "@ + key.permissions;
    assert(key_text(key, false) =~= kind + rest);
    assert(key_text(key, true) =~= in_dim(kind) + rest);
}

/// A key is announced by where it goes, whose it is, who may read it, and how long it is.
pub proof fn keys_are_announced(spec: KeySpecView, length: nat)
    ensures
        announcement(spec, length) == "Writing "@ + spec.destination + " "@ + spec.user + ":"@
            + spec.group + " "@ + octal(spec.unix_mode as nat) + ", "@ + decimal(length)
            + " bytes of data"@,
        number_value(octal(spec.unix_mode as nat), 8) == Some(spec.unix_mode as nat),
{
    numbers_are_read_back(spec.unix_mode as nat);
    let shown = spec.destination + " "@ + spec.user + ":"@ + spec.group + " "@ + octal(
        spec.unix_mode as nat,
    );
    assert(announcement(spec, length) =~= "Writing "@ + spec.destination + " "@ + spec.user + ":"@
        + spec.group + " "@ + octal(spec.unix_mode as nat) + ", "@ + decimal(length)
        + " bytes of data"@);
}

} // verus!
