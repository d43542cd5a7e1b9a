//! The `test` command: checks of connectivity.

use vstd::prelude::*;
use crate::cli::diff::text_view;
use crate::netlink::links_view;
use crate::network::{LinkInfo, LinkInfoModel, LinkState};
use crate::text::{number_text, push_number};

verus! {

/// The `test` command.
#[derive(Debug, Clone, PartialEq, Eq)]
pub struct TestCommand {
    pub command: TestSubcommand,
}

/// What to test.
#[derive(Debug, Clone, PartialEq, Eq)]
pub enum TestSubcommand {
    /// Whether the interfaces reach the network.
    Connectivity(ConnectivityArgs),
    /// Whether names are resolved.
    Dns(DnsArgs),
    /// Whether a host answers.
    Ping(PingArgs),
    /// All of these.
    All(AllArgs),
}

/// The arguments of `test connectivity`.
#[derive(Debug, Clone, PartialEq, Eq)]
pub struct ConnectivityArgs {
    /// The interface to test; all if absent.
    pub interface: Option<String>,
}

/// The arguments of `test dns`.
#[derive(Debug, Clone, PartialEq, Eq)]
pub struct DnsArgs {
    /// The name to resolve.
    pub hostname: String,
}

/// The arguments of `test ping`.
#[derive(Debug, Clone, PartialEq, Eq)]
pub struct PingArgs {
    /// The host to ping.
    pub host: String,
    /// How many packets to send.
    pub count: u32,
    /// The interface to send from; any if absent.
    pub interface: Option<String>,
}

/// The arguments of `test all`: none.
#[derive(Debug, Clone, PartialEq, Eq)]
pub struct AllArgs {}

/// The links that are tested: those of the given name, or, without a
/// name, those that are up.
pub open spec fn tested(links: Seq<LinkInfoModel>, name: Option<Seq<char>>) -> Seq<LinkInfoModel> {
    match name {
        Some(n) => links.filter(|link: LinkInfoModel| link.name == n),
        None => links.filter(|link: LinkInfoModel| link.state == LinkState::Up),
    }
}

/// True when the link is one that is tested.
pub open spec fn is_tested(link: LinkInfoModel, name: Option<Seq<char>>) -> bool {
    match name {
        Some(n) => link.name == n,
        None => link.state == LinkState::Up,
    }
}

impl ConnectivityArgs {
    /// The links that are tested.
    pub fn select(&self, links: &Vec<LinkInfo>) -> (chosen: Vec<LinkInfo>)
        ensures
            links_view(chosen@) == links_view(links@).filter(
                |link: LinkInfoModel|
                    is_tested(link, text_view(self.interface)),
            ),
    {
        let ghost all = links_view(links@);
        let ghost name = text_view(self.interface);
        let ghost keep = |link: LinkInfoModel| is_tested(link, name);
        let mut chosen: Vec<LinkInfo> = Vec::new();
        let mut i: usize = 0;
        assert(all.take(0) =~= Seq::<LinkInfoModel>::empty());
        while i < links.len()
            invariant
                0 <= i <= links@.len(),
                all == links_view(links@),
                name == text_view(self.interface),
                keep == (|link: LinkInfoModel| is_tested(link, name)),
                links_view(chosen@) == all.take(i as int).filter(keep),
            decreases links@.len() - i,
        {
            let ghost before = links_view(chosen@);
            assert(all[i as int] == links@[i as int]@);
            assert(all.take(i as int + 1) =~= all.take(i as int).push(links@[i as int]@));
            proof {
                all.take(i as int).lemma_filter_push(links@[i as int]@, keep);
            }
            let wanted = match &self.interface {
                Some(n) => links[i].name == *n,
                None => match links[i].state {
                    LinkState::Up => true,
                    LinkState::Down => false,
                },
            };
            if wanted {
                chosen.push(links[i].clone_snapshot());
                assert(links_view(chosen@) =~= before.push(links@[i as int]@));
            }
            i += 1;
        }
        assert(all.take(links@.len() as int) =~= all);
        chosen
    }
}

impl PingArgs {
    /// The arguments of the ping: `-c`, the count, the host, and, with an
    /// interface, `-I` and its name.
    pub fn command_args(&self) -> (args: Vec<String>)
        ensures
            args@.len() == if self.interface is Some {
                5int
            } else {
                3int
            },
            args@[0]@ == "-c"@,
            args@[1]@ == number_text(self.count as nat, 10),
            args@[2]@ == self.host@,
            self.interface matches Some(name) ==> args@[3]@ == "-I"@ && args@[4]@ == name@,
    {
        let mut args: Vec<String> = Vec::new();
        args.push("-c".to_owned());
        let mut count = String::new();
        push_number(&mut count, self.count as u64, 10);
        assert(count@ =~= number_text(self.count as nat, 10));
        args.push(count);
        args.push(self.host.clone());
        match &self.interface {
            Some(name) => {
                args.push("-I".to_owned());
                args.push(name.clone());
            },
            None => {},
        }
        args
    }
}

/// How a suite of tests ends.
#[derive(Debug, Clone, Copy, PartialEq, Eq, Structural)]
pub enum SuiteVerdict {
    /// Every test passed.
    AllPassed,
    /// Some tests passed and some failed.
    SomePassed,
    /// No test passed.
    AllFailed,
}

/// How a suite ends in which `passed` of `total` tests passed. A suite
/// without tests has passed.
pub open spec fn suite_verdict_of(passed: nat, total: nat) -> SuiteVerdict {
    if passed == total {
        SuiteVerdict::AllPassed
    } else if passed > 0 {
        SuiteVerdict::SomePassed
    } else {
        SuiteVerdict::AllFailed
    }
}

/// How many of the results are passes.
pub open spec fn passes(results: Seq<bool>) -> nat {
    results.filter(|r: bool| r).len()
}

impl AllArgs {
    /// How many of the tests passed, and how the suite ends.
    pub fn summary(&self, results: &Vec<bool>) -> (s: (usize, SuiteVerdict))
        ensures
            s.0 == passes(results@),
            s.1 == suite_verdict_of(passes(results@), results@.len()),
    {
        let ghost pass = |r: bool| r;
        let mut passed: usize = 0;
        let mut i: usize = 0;
        assert(results@.take(0) =~= Seq::<bool>::empty());
        while i < results.len()
            invariant
                0 <= i <= results@.len(),
                pass == (|r: bool| r),
                passed == results@.take(i as int).filter(pass).len(),
                passed <= i,
            decreases results@.len() - i,
        {
            assert(results@.take(i as int + 1) =~= results@.take(i as int).push(results@[i as int]));
            proof {
                results@.take(i as int).lemma_filter_push(results@[i as int], pass);
            }
            if results[i] {
                passed += 1;
            }
            i += 1;
        }
        assert(results@.take(results@.len() as int) =~= results@);
        let verdict = if passed == results.len() {
            SuiteVerdict::AllPassed
        } else if passed > 0 {
            SuiteVerdict::SomePassed
        } else {
            SuiteVerdict::AllFailed
        };
        (passed, verdict)
    }
}

} // verus!
