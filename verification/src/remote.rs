//! The mirror remote of a working copy: which commands configure it, and how
//! the outcome of each is judged.

use crate::command::{CommandOutput, OutputView};
use vstd::prelude::*;

verus! {

/// The reserved name of the remote that points at the mirror gateway.
pub const MIRROR_REMOTE: &'static str = "nju";

/// What the version-control tool says when asked to remove a remote that the
/// working copy does not have.
pub const MISSING_REMOTE_NOTICE: &'static str = "No such remote";

/// Whether `needle` occurs in `text` as a contiguous run of characters.
pub open spec fn occurs_in(needle: Seq<char>, text: Seq<char>) -> bool {
    exists|at: int| occurs_at(needle, text, at)
}

/// Whether `needle` occurs in `text` starting at position `at`.
pub open spec fn occurs_at(needle: Seq<char>, text: Seq<char>, at: int) -> bool {
    &&& 0 <= at
    &&& at + needle.len() <= text.len()
    &&& text.subrange(at, at + needle.len()) == needle
}

/// The characters of `text`.
fn chars_of(text: &str) -> (chars: Vec<char>)
    ensures
        chars@ == text@,
{
    let mut chars: Vec<char> = Vec::new();
    for c in it: text.chars()
        invariant
            chars@ == it.seq().take(it.index()),
    {
        chars.push(c);
    }
    chars
}

/// Whether `needle` stands in `text` at position `at`.
fn matches_at(text: &Vec<char>, needle: &Vec<char>, at: usize) -> (hit: bool)
    requires
        at + needle.len() <= text.len(),
    ensures
        hit == occurs_at(needle@, text@, at as int),
{
    let mut i: usize = 0;
    while i < needle.len()
        invariant
            i <= needle.len(),
            at + needle.len() <= text.len(),
            forall|k: int| 0 <= k < i ==> text@[at + k] == needle@[k],
        decreases needle.len() - i,
    {
        if text[at + i] != needle[i] {
            assert(text@.subrange(at as int, at + needle.len())[i as int] != needle@[i as int]);
            return false;
        }
        i += 1;
    }
    assert(text@.subrange(at as int, at + needle.len()) =~= needle@);
    true
}

/// Whether `needle` occurs somewhere in `text`.
pub fn contains_text(text: &str, needle: &str) -> (found: bool)
    ensures
        found == occurs_in(needle@, text@),
{
    let text_chars = chars_of(text);
    let needle_chars = chars_of(needle);
    if needle_chars.len() > text_chars.len() {
        return false;
    }
    let last: usize = text_chars.len() - needle_chars.len();
    let mut at: usize = 0;
    loop
        invariant
            at <= last,
            last == text_chars.len() - needle_chars.len(),
            text_chars@ == text@,
            needle_chars@ == needle@,
            forall|k: int| 0 <= k < at ==> !occurs_at(needle@, text@, k),
        decreases last - at,
    {
        if matches_at(&text_chars, &needle_chars, at) {
            return true;
        }
        if at == last {
            return false;
        }
        at += 1;
    }
}

/// Whether the removal of the mirror remote left the name free: the command
/// succeeded, or it failed only because there was no such remote.
pub open spec fn removal_cleared(output: OutputView) -> bool {
    output.success || occurs_in(MISSING_REMOTE_NOTICE@, output.stderr)
}

/// Judges the removal of the mirror remote. Removing a remote that is not
/// there is no failure; any other failure is one.
pub fn removal_left_name_free(output: &CommandOutput) -> (free: bool)
    ensures
        free == removal_cleared(output@),
{
    output.success || contains_text(output.stderr.as_str(), MISSING_REMOTE_NOTICE)
}

/// One remote of a working copy: its name and the URL it points at.
pub ghost struct RemoteView {
    pub name: Seq<char>,
    pub url: Seq<char>,
}

/// The remotes among `remotes` that are called `name`.
pub open spec fn named(remotes: Seq<RemoteView>, name: Seq<char>) -> Seq<RemoteView> {
    remotes.filter(|remote: RemoteView| remote.name == name)
}

/// The remotes of a working copy after the remote called `name` has been
/// removed, or has been found missing.
pub open spec fn after_removal(remotes: Seq<RemoteView>, name: Seq<char>) -> Seq<RemoteView> {
    remotes.filter(|remote: RemoteView| remote.name != name)
}

/// The remotes of a working copy after a remote called `name` that points at
/// `url` has been added.
pub open spec fn after_addition(
    remotes: Seq<RemoteView>,
    name: Seq<char>,
    url: Seq<char>,
) -> Seq<RemoteView> {
    remotes.push(RemoteView { name, url })
}

/// The remotes of a working copy after the two commands that configure the
/// remote `name`: its removal, then its addition with `url`.
pub open spec fn reconfigured(
    remotes: Seq<RemoteView>,
    name: Seq<char>,
    url: Seq<char>,
) -> Seq<RemoteView> {
    after_addition(after_removal(remotes, name), name, url)
}

/// After the removal of `name`, the remotes called `kept` are none if `kept`
/// is `name`, and otherwise those that there were before.
pub proof fn lemma_removal_takes_only_the_named(
    remotes: Seq<RemoteView>,
    name: Seq<char>,
    kept: Seq<char>,
)
    ensures
        named(after_removal(remotes, name), kept) == if kept == name {
            Seq::<RemoteView>::empty()
        } else {
            named(remotes, kept)
        },
    decreases remotes.len(),
{
    let is_kept = |remote: RemoteView| remote.name == kept;
    let is_other = |remote: RemoteView| remote.name != name;
    if remotes.len() == 0 {
        reveal(Seq::filter);
        assert(remotes.filter(is_other) =~= remotes);
        assert(remotes.filter(is_kept) =~= Seq::<RemoteView>::empty());
    } else {
        let init = remotes.drop_last();
        let last = remotes.last();
        lemma_removal_takes_only_the_named(init, name, kept);
        assert(remotes =~= init.push(last));
        init.lemma_filter_push(last, is_other);
        init.lemma_filter_push(last, is_kept);
        init.filter(is_other).lemma_filter_push(last, is_kept);
    }
}

/// Exactly one mirror remote. Whatever remotes a working copy had, after the
/// removal and the addition of the remote `name` it has exactly one remote of
/// that name, which points at `url`, and its remotes of every other name are
/// as they were.
pub proof fn law_reconfigured_remote_is_single(
    remotes: Seq<RemoteView>,
    name: Seq<char>,
    url: Seq<char>,
    other: Seq<char>,
)
    requires
        other != name,
    ensures
        named(reconfigured(remotes, name, url), name) == seq![RemoteView { name, url }],
        named(reconfigured(remotes, name, url), other) == named(remotes, other),
{
    let added = RemoteView { name, url };
    let cleared = after_removal(remotes, name);
    lemma_removal_takes_only_the_named(remotes, name, name);
    lemma_removal_takes_only_the_named(remotes, name, other);
    cleared.lemma_filter_push(added, |remote: RemoteView| remote.name == name);
    cleared.lemma_filter_push(added, |remote: RemoteView| remote.name == other);
    assert(named(reconfigured(remotes, name, url), name) =~= seq![added]);
}

/// Configuring the mirror remote twice is the same as configuring it once
/// with the address given last.
pub proof fn law_reconfiguration_is_idempotent(
    remotes: Seq<RemoteView>,
    name: Seq<char>,
    first: Seq<char>,
    second: Seq<char>,
)
    ensures
        reconfigured(reconfigured(remotes, name, first), name, second) == reconfigured(
            remotes,
            name,
            second,
        ),
{
    let is_other = |remote: RemoteView| remote.name != name;
    let cleared = after_removal(remotes, name);
    cleared.lemma_filter_push(RemoteView { name, url: first }, is_other);
    lemma_filter_is_idempotent(remotes, is_other);
}

/// Filtering twice by one predicate is filtering once.
proof fn lemma_filter_is_idempotent(remotes: Seq<RemoteView>, keep: spec_fn(RemoteView) -> bool)
    ensures
        remotes.filter(keep).filter(keep) == remotes.filter(keep),
    decreases remotes.len(),
{
    if remotes.len() == 0 {
        reveal(Seq::filter);
        assert(remotes.filter(keep) =~= remotes);
    } else {
        let init = remotes.drop_last();
        let last = remotes.last();
        lemma_filter_is_idempotent(init, keep);
        assert(remotes =~= init.push(last));
        init.lemma_filter_push(last, keep);
        init.filter(keep).lemma_filter_push(last, keep);
    }
}

} // verus!
