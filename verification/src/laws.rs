//! Properties that hold across the operations of the library.
use vstd::prelude::*;
use crate::text::{has_prefix, matches_at, occurs_in, replace_all};
use crate::xtask::{GuestView, build_order, guest_priority};
use crate::devserver::deploy_ok_reply;
use crate::server::{DeploymentError, reply_result};
use crate::text::{decimal, digit_char};
use crate::version::{SemVer, VersionParts, version_text};
use crate::xtask_release::releases_branch_text;
use crate::rc::{clean_tree_marker, rc_branch_text};
use crate::release::{is_release_candidate, offered_candidates};
use crate::xtask::{output_alias, entry_guest, EntryView};

verus! {

proof fn lemma_replace_without_occurrence(s: Seq<char>, pat: Seq<char>, rep: Seq<char>)
    requires
        pat.len() > 0,
        !occurs_in(s, pat),
    ensures
        replace_all(s, pat, rep) == s,
    decreases s.len(),
{
    if s.len() > 0 {
        assert(s.skip(0) =~= s);
        assert(!matches_at(s, 0, pat));
        assert(!has_prefix(s, pat));
        let rest = s.skip(1);
        assert forall|k: int| 0 <= k <= rest.len() implies !#[trigger] matches_at(rest, k, pat) by {
            assert(rest.skip(k) =~= s.skip(k + 1));
            assert(!matches_at(s, k + 1, pat));
        }
        lemma_replace_without_occurrence(rest, pat, rep);
        assert(seq![s[0]] + rest =~= s);
    }
}

/// Releasing the branch `release/<version>` publishes `<version>`: taking
/// `release/` out of the branch name gives back the version, as long as the
/// version does not itself contain `release/`.
pub proof fn law_release_branch_version(version: Seq<char>)
    requires
        !occurs_in(version, "release/"@),
    ensures
        replace_all("release/"@ + version, "release/"@, ""@) == version,
{
    reveal_strlit("release/");
    reveal_strlit("");
    let pat = "release/"@;
    let s = pat + version;
    assert(s.take(pat.len() as int) =~= pat);
    assert(s.skip(pat.len() as int) =~= version);
    lemma_replace_without_occurrence(version, pat, ""@);
    assert(""@ + version =~= version);
}

/// The build order holds every listed guest exactly as often as the listing
/// does: ordering guests only reorders them.
pub proof fn law_build_order_is_permutation(guests: Seq<GuestView>)
    ensures
        build_order(guests).to_multiset() == guests.to_multiset(),
    decreases guests.len(),
{
    broadcast use vstd::multiset::group_multiset_axioms;
    broadcast use vstd::seq_lib::group_to_multiset_ensures;

    let low = |g: GuestView| guest_priority(g.1) == 0;
    let high = |g: GuestView| guest_priority(g.1) == 1;
    if guests.len() == 0 {
        assert(guests.filter(low) =~= Seq::<GuestView>::empty());
        assert(guests.filter(high) =~= Seq::<GuestView>::empty());
        assert(build_order(guests) =~= Seq::<GuestView>::empty());
    } else {
        let s = guests.drop_last();
        let x = guests.last();
        assert(s.push(x) =~= guests);
        law_build_order_is_permutation(s);
        s.lemma_filter_push(x, low);
        s.lemma_filter_push(x, high);
        vstd::seq_lib::lemma_multiset_commutative(s.filter(low), s.filter(high));
        vstd::seq_lib::lemma_multiset_commutative(guests.filter(low), guests.filter(high));
        vstd::seq_lib::to_multiset_build(s, x);
        if guest_priority(x.1) == 0 {
            vstd::seq_lib::to_multiset_build(s.filter(low), x);
        } else {
            vstd::seq_lib::to_multiset_build(s.filter(high), x);
        }
        assert(build_order(guests).to_multiset() =~= guests.to_multiset());
    }
}

/// `mycelia_guest_function` is built after every other guest: in the build
/// order, nothing of the lowest priority follows a guest of the highest.
pub proof fn law_function_guest_built_last(guests: Seq<GuestView>, i: int, j: int)
    requires
        0 <= i < j < build_order(guests).len(),
        guest_priority(build_order(guests)[i].1) == 1,
    ensures
        guest_priority(build_order(guests)[j].1) == 1,
{
    let low = |g: GuestView| guest_priority(g.1) == 0;
    let high = |g: GuestView| guest_priority(g.1) == 1;
    let first = guests.filter(low);
    let last = guests.filter(high);
    if i < first.len() {
        guests.lemma_filter_pred(low, i);
        assert(build_order(guests)[i] == first[i]);
    }
    guests.lemma_filter_pred(high, j - first.len());
    assert(build_order(guests)[j] == last[j - first.len()]);
}

/// The reply with which the development server confirms a deployment is
/// the one that the command-line client counts as success, and any other
/// reply is reported as a failed deployment with that reply as its cause.
pub proof fn law_deploy_confirmation(message: Seq<char>, result: Result<(), DeploymentError>)
    requires
        reply_result(message, result),
    ensures
        message == deploy_ok_reply() ==> result is Ok,
        message != deploy_ok_reply() ==> (result matches Err(
            DeploymentError::DeploymentError { cause },
        ) && cause@ == message),
{
}


proof fn lemma_decimal_chars(n: nat)
    ensures
        decimal(n).len() >= 1,
        forall|i: int| 0 <= i < decimal(n).len() ==> {
            &&& #[trigger] decimal(n)[i] != '.'
            &&& decimal(n)[i] != '-'
            &&& decimal(n)[i] != '+'
        },
    decreases n,
{
    if n >= 10 {
        lemma_decimal_chars(n / 10);
        let d = decimal(n / 10);
        assert forall|i: int| 0 <= i < decimal(n).len() implies {
            &&& #[trigger] decimal(n)[i] != '.'
            &&& decimal(n)[i] != '-'
            &&& decimal(n)[i] != '+'
        } by {
            if i < d.len() {
                assert(decimal(n)[i] == d[i]);
            }
        }
    }
}

proof fn lemma_decimal_injective(a: nat, b: nat)
    requires
        decimal(a) == decimal(b),
    ensures
        a == b,
    decreases a,
{
    lemma_decimal_chars(a / 10);
    lemma_decimal_chars(b / 10);
    if a < 10 && b < 10 {
        assert(decimal(a)[0] == digit_char(a));
        assert(decimal(b)[0] == digit_char(b));
    } else if a < 10 {
        assert(decimal(b).len() >= 2);
    } else if b < 10 {
        assert(decimal(a).len() >= 2);
    } else {
        let da = decimal(a);
        let db = decimal(b);
        assert(da.last() == digit_char(a % 10));
        assert(db.last() == digit_char(b % 10));
        assert(a % 10 == b % 10);
        assert(da.drop_last() =~= decimal(a / 10));
        assert(db.drop_last() =~= decimal(b / 10));
        lemma_decimal_injective(a / 10, b / 10);
    }
}

/// Splitting two equal texts at the first character that `stop` holds of:
/// where neither front holds such a character and each back is empty or
/// begins with one, the fronts and the backs are equal.
proof fn lemma_split_at_stop(
    x1: Seq<char>,
    y1: Seq<char>,
    x2: Seq<char>,
    y2: Seq<char>,
    stop: spec_fn(char) -> bool,
)
    requires
        x1 + y1 == x2 + y2,
        forall|i: int| 0 <= i < x1.len() ==> !stop(#[trigger] x1[i]),
        forall|i: int| 0 <= i < x2.len() ==> !stop(#[trigger] x2[i]),
        y1.len() > 0 ==> stop(y1[0]),
        y2.len() > 0 ==> stop(y2[0]),
    ensures
        x1 == x2,
        y1 == y2,
{
    let s = x1 + y1;
    if x1.len() < x2.len() {
        assert(s[x1.len() as int] == y1[0]);
        assert((x2 + y2)[x1.len() as int] == x2[x1.len() as int]);
    } else if x2.len() < x1.len() {
        assert((x2 + y2)[x2.len() as int] == y2[0]);
        assert(s[x2.len() as int] == x1[x2.len() as int]);
    }
    assert(x1 =~= s.take(x1.len() as int));
    assert(x2 =~= (x2 + y2).take(x2.len() as int));
    assert(y1 =~= s.skip(x1.len() as int));
    assert(y2 =~= (x2 + y2).skip(x2.len() as int));
}

proof fn lemma_split_number(n1: nat, r1: Seq<char>, n2: nat, r2: Seq<char>, stop: spec_fn(char) -> bool)
    requires
        decimal(n1) + r1 == decimal(n2) + r2,
        forall|c: char| #[trigger] stop(c) ==> c == '.' || c == '-' || c == '+',
        r1.len() > 0 ==> stop(r1[0]),
        r2.len() > 0 ==> stop(r2[0]),
    ensures
        n1 == n2,
        r1 == r2,
{
    lemma_decimal_chars(n1);
    lemma_decimal_chars(n2);
    assert forall|i: int| 0 <= i < decimal(n1).len() implies !stop(#[trigger] decimal(n1)[i]) by {
        if stop(decimal(n1)[i]) {
        }
    }
    assert forall|i: int| 0 <= i < decimal(n2).len() implies !stop(#[trigger] decimal(n2)[i]) by {
        if stop(decimal(n2)[i]) {
        }
    }
    lemma_split_at_stop(decimal(n1), r1, decimal(n2), r2, stop);
    lemma_decimal_injective(n1, n2);
}

proof fn lemma_drop_dot(r1: Seq<char>, r2: Seq<char>)
    requires
        seq!['.'] + r1 == seq!['.'] + r2,
    ensures
        r1 == r2,
{
    assert(r1 =~= (seq!['.'] + r1).skip(1));
    assert(r2 =~= (seq!['.'] + r2).skip(1));
}

spec fn pre_part(pre: Seq<char>) -> Seq<char> {
    if pre.len() > 0 { seq!['-'] + pre } else { Seq::<char>::empty() }
}

spec fn build_part(build: Seq<char>) -> Seq<char> {
    if build.len() > 0 { seq!['+'] + build } else { Seq::<char>::empty() }
}

proof fn lemma_split_suffix(p1: Seq<char>, b1: Seq<char>, p2: Seq<char>, b2: Seq<char>)
    requires
        pre_part(p1) + build_part(b1) == pre_part(p2) + build_part(b2),
        !p1.contains('+'),
        !p2.contains('+'),
    ensures
        p1 == p2,
        b1 == b2,
{
    let plus = |c: char| c == '+';
    let x1 = pre_part(p1);
    let x2 = pre_part(p2);
    assert forall|i: int| 0 <= i < x1.len() implies !plus(#[trigger] x1[i]) by {
        if i > 0 {
            assert(x1[i] == p1[i - 1]);
        }
    }
    assert forall|i: int| 0 <= i < x2.len() implies !plus(#[trigger] x2[i]) by {
        if i > 0 {
            assert(x2[i] == p2[i - 1]);
        }
    }
    lemma_split_at_stop(x1, build_part(b1), x2, build_part(b2), plus);
    if p1.len() > 0 && p2.len() > 0 {
        assert(p1 =~= x1.skip(1));
        assert(p2 =~= x2.skip(1));
    }
    if b1.len() > 0 && b2.len() > 0 {
        assert(b1 =~= build_part(b1).skip(1));
        assert(b2 =~= build_part(b2).skip(1));
    }
}

spec fn suffix_part(v: VersionParts) -> Seq<char> {
    pre_part(v.3) + build_part(v.4)
}

proof fn lemma_version_text_shape(v: VersionParts)
    ensures
        version_text(v) == decimal(v.0 as nat) + (seq!['.'] + (decimal(v.1 as nat) + (seq!['.'] + (
        decimal(v.2 as nat) + suffix_part(v))))),
        suffix_part(v).len() > 0 ==> (suffix_part(v)[0] == '-' || suffix_part(v)[0] == '+'),
{
    assert(version_text(v) =~= decimal(v.0 as nat) + (seq!['.'] + (decimal(v.1 as nat) + (seq!['.']
        + (decimal(v.2 as nat) + suffix_part(v))))));
}

proof fn lemma_version_text_injective(a: VersionParts, b: VersionParts)
    requires
        version_text(a) == version_text(b),
        !a.3.contains('+'),
        !b.3.contains('+'),
    ensures
        a == b,
{
    lemma_version_text_shape(a);
    lemma_version_text_shape(b);
    let sa = suffix_part(a);
    let sb = suffix_part(b);
    let ta = seq!['.'] + (decimal(a.2 as nat) + sa);
    let tb = seq!['.'] + (decimal(b.2 as nat) + sb);
    let ma = seq!['.'] + (decimal(a.1 as nat) + ta);
    let mb = seq!['.'] + (decimal(b.1 as nat) + tb);
    let dot = |c: char| c == '.';
    lemma_split_number(a.0 as nat, ma, b.0 as nat, mb, dot);
    lemma_drop_dot(decimal(a.1 as nat) + ta, decimal(b.1 as nat) + tb);
    lemma_split_number(a.1 as nat, ta, b.1 as nat, tb, dot);
    lemma_drop_dot(decimal(a.2 as nat) + sa, decimal(b.2 as nat) + sb);
    let tail = |c: char| c == '-' || c == '+';
    lemma_split_number(a.2 as nat, sa, b.2 as nat, sb, tail);
    lemma_split_suffix(a.3, a.4, b.3, b.4);
}

/// The release branch names the whole version of its tag: it is
/// `releases/` followed by the text that `SemVer::to_text` writes for the
/// tag, pre-release and build metadata included.
pub proof fn law_releases_branch_names_whole_version(tag: SemVer)
    ensures
        releases_branch_text(tag).len() == 9 + version_text(tag@).len(),
        releases_branch_text(tag).take(9) == "releases/"@,
        releases_branch_text(tag).skip(9) == version_text(tag@),
{
    reveal_strlit("releases/");
    assert(releases_branch_text(tag).take(9) =~= "releases/"@);
    assert(releases_branch_text(tag).skip(9) =~= version_text(tag@));
}

/// Two different tags get different release branches (for tags whose
/// pre-release text holds no `+`, as semver's grammar has it).
pub proof fn law_releases_branches_differ(a: SemVer, b: SemVer)
    requires
        !a.pre@.contains('+'),
        !b.pre@.contains('+'),
        a@ != b@,
    ensures
        releases_branch_text(a) != releases_branch_text(b),
{
    if releases_branch_text(a) == releases_branch_text(b) {
        law_releases_branch_names_whole_version(a);
        law_releases_branch_names_whole_version(b);
        lemma_version_text_injective(a@, b@);
    }
}

/// The release-candidate branch of `username` names the whole version of
/// its tag: `rc/`, the user name, `_`, then the text that
/// `SemVer::to_text` writes for the tag, pre-release and build metadata
/// included.
pub proof fn law_rc_branch_names_whole_version(username: Seq<char>, tag: SemVer)
    ensures
        rc_branch_text(username, tag).len() == 4 + username.len() + version_text(tag@).len(),
        rc_branch_text(username, tag).take(3) == "rc/"@,
        rc_branch_text(username, tag).subrange(3, 3 + username.len() as int) == username,
        rc_branch_text(username, tag)[3 + username.len() as int] == '_',
        rc_branch_text(username, tag).skip(4 + username.len() as int) == version_text(tag@),
{
    reveal_strlit("rc/");
    reveal_strlit("_");
    let t = rc_branch_text(username, tag);
    assert(t =~= "rc/"@ + username + "_"@ + version_text(tag@));
    assert(t.take(3) =~= "rc/"@);
    assert(t.subrange(3, 3 + username.len() as int) =~= username);
    assert(t.skip(4 + username.len() as int) =~= version_text(tag@));
}

/// One user's candidates for two different tags get different branches
/// (for tags whose pre-release text holds no `+`, as semver's grammar has
/// it).
pub proof fn law_rc_branches_differ(username: Seq<char>, a: SemVer, b: SemVer)
    requires
        !a.pre@.contains('+'),
        !b.pre@.contains('+'),
        a@ != b@,
    ensures
        rc_branch_text(username, a) != rc_branch_text(username, b),
{
    if rc_branch_text(username, a) == rc_branch_text(username, b) {
        law_rc_branch_names_whole_version(username, a);
        law_rc_branch_names_whole_version(username, b);
        lemma_version_text_injective(a@, b@);
    }
}

/// The working tree counts as clean exactly when the output of `git
/// status` holds the whole line `nothing to commit, working tree clean`
/// somewhere.
pub proof fn law_clean_tree_needs_whole_line(output: Seq<char>)
    ensures
        occurs_in(output, clean_tree_marker()) <==> exists|k: int|
            0 <= k && k + "nothing to commit, working tree clean"@.len() <= output.len()
                && #[trigger] output.subrange(
                k,
                k + "nothing to commit, working tree clean"@.len(),
            ) == "nothing to commit, working tree clean"@,
{
    let line = "nothing to commit, working tree clean"@;
    if occurs_in(output, clean_tree_marker()) {
        let k = choose|k: int| 0 <= k <= output.len() && #[trigger] matches_at(output, k, line);
        assert(output.skip(k).take(line.len() as int) =~= output.subrange(k, k + line.len()));
    }
    if exists|k: int|
        0 <= k && k + line.len() <= output.len() && #[trigger] output.subrange(k, k + line.len())
            == line {
        let k = choose|k: int|
            0 <= k && k + line.len() <= output.len() && #[trigger] output.subrange(k, k + line.len())
                == line;
        assert(output.skip(k).take(line.len() as int) =~= output.subrange(k, k + line.len()));
        assert(matches_at(output, k, line));
    }
}

/// A branch is offered for release exactly when no release targets it yet
/// and its name begins with the eight characters `release/`, slash
/// included.
pub proof fn law_candidates_begin_with_release_slash(branch: Seq<char>, released: Seq<Seq<char>>)
    ensures
        is_release_candidate(branch, released) <==> (!released.contains(branch) && branch.len() >= 8
            && branch.subrange(0, 8) == "release/"@),
{
    reveal_strlit("release/");
    assert("release/"@.len() == 8);
}

/// What the release prompt offers, out of `branches`: every offered branch
/// is listed, unreleased and begins with `release/`, and every listed
/// branch of that kind is offered.
pub proof fn law_offered_candidates(branches: Seq<Seq<char>>, released: Seq<Seq<char>>)
    ensures
        forall|i: int|
            0 <= i < offered_candidates(branches, released).len() ==> {
                &&& branches.contains(#[trigger] offered_candidates(branches, released)[i])
                &&& !released.contains(offered_candidates(branches, released)[i])
                &&& offered_candidates(branches, released)[i].len() >= 8
                &&& offered_candidates(branches, released)[i].subrange(0, 8) == "release/"@
            },
        forall|i: int|
            0 <= i < branches.len() && !released.contains(branches[i]) && branches[i].len() >= 8
                && #[trigger] branches[i].subrange(0, 8) == "release/"@ ==> offered_candidates(
                branches,
                released,
            ).contains(branches[i]),
{
    let pred = |b: Seq<char>| is_release_candidate(b, released);
    let f = branches.filter(pred);
    assert(f == offered_candidates(branches, released));
    assert forall|i: int| 0 <= i < f.len() implies {
        &&& branches.contains(#[trigger] f[i])
        &&& !released.contains(f[i])
        &&& f[i].len() >= 8
        &&& f[i].subrange(0, 8) == "release/"@
    } by {
        branches.lemma_filter_pred(pred, i);
        law_candidates_begin_with_release_slash(f[i], released);
        assert(f.contains(f[i]));
        branches.lemma_filter_contains_rev(pred, f[i]);
    }
    assert forall|i: int|
        0 <= i < branches.len() && !released.contains(branches[i]) && branches[i].len() >= 8
            && #[trigger] branches[i].subrange(0, 8) == "release/"@ implies f.contains(branches[i]) by {
        law_candidates_begin_with_release_slash(branches[i], released);
        branches.lemma_filter_contains(pred, i);
    }
}

/// Only the guest directory `js_function` is built under another name,
/// `mycelia_guest_function`; every other guest is built under its own
/// name.
pub proof fn law_only_js_function_is_renamed(entry: EntryView)
    ensures
        output_alias(entry.1) is Some <==> entry.1 == "js_function"@,
        entry.1 == "js_function"@ ==> entry_guest(entry).2 == "mycelia_guest_function"@,
        entry.1 != "js_function"@ ==> entry_guest(entry).2 == entry.1,
{
}
} // verus!
