//! The `doctor` command: checks of the system.

use vstd::prelude::*;
use crate::cli::export::{trim, trimmed};
use crate::netlink::links_view;
use crate::network::{LinkInfo, LinkInfoModel, LinkState};
use crate::text::to_chars;

verus! {

/// The arguments of `doctor`.
#[derive(Debug, Clone, PartialEq, Eq)]
pub struct DoctorArgs {
    /// Report in detail.
    pub verbose: bool,
}

/// How many of the links are up.
pub open spec fn up_count(links: Seq<LinkInfoModel>) -> nat {
    links.filter(|link: LinkInfoModel| link.state == LinkState::Up).len()
}

/// How many of the links are up.
pub fn count_up(links: &Vec<LinkInfo>) -> (n: usize)
    ensures
        n == up_count(links_view(links@)),
{
    let ghost all = links_view(links@);
    let ghost up = |link: LinkInfoModel| link.state == LinkState::Up;
    let mut n: usize = 0;
    let mut i: usize = 0;
    assert(all.take(0) =~= Seq::<LinkInfoModel>::empty());
    while i < links.len()
        invariant
            0 <= i <= links@.len(),
            all == links_view(links@),
            up == (|link: LinkInfoModel| link.state == LinkState::Up),
            n == all.take(i as int).filter(up).len(),
            n <= i,
        decreases links@.len() - i,
    {
        assert(all[i as int] == links@[i as int]@);
        assert(all.take(i as int + 1) =~= all.take(i as int).push(links@[i as int]@));
        proof {
            all.take(i as int).lemma_filter_push(links@[i as int]@, up);
        }
        match links[i].state {
            LinkState::Up => {
                n += 1;
            },
            LinkState::Down => {},
        }
        i += 1;
    }
    assert(all.take(links@.len() as int) =~= all);
    n
}

/// True when the answer of a command, without the white space around it,
/// is the given word.
pub fn answer_is(answer: &str, word: &str) -> (same: bool)
    ensures
        same == (trimmed(answer@) == word@),
{
    let chars = to_chars(answer);
    let got = trim(&chars);
    let want = to_chars(word);
    if got.len() != want.len() {
        return false;
    }
    let mut i: usize = 0;
    while i < got.len()
        invariant
            0 <= i <= got@.len(),
            got@.len() == want@.len(),
            got@ == trimmed(answer@),
            want@ == word@,
            forall|k: int| 0 <= k < i ==> got@[k] == want@[k],
        decreases got@.len() - i,
    {
        if got[i] != want[i] {
            return false;
        }
        i += 1;
    }
    assert(got@ =~= want@);
    true
}

/// True when a service manager reports a unit as active: when its answer,
/// without the white space around it, is the word `active`.
pub fn service_is_active(answer: &str) -> (active: bool)
    ensures
        active == (trimmed(answer@) == "active"@),
{
    answer_is(answer, "active")
}

/// True when the answer to the question for the user's number is that of
/// the superuser: `0`, with or without white space around it.
pub fn is_root(answer: &str) -> (root: bool)
    ensures
        root == (trimmed(answer@) == "0"@),
{
    answer_is(answer, "0")
}

} // verus!
