//! The capability check: the decisions of the protocol that verifies, once,
//! that the store has the cache module and each command of the catalog.
//!
//! The check is a state machine. Its caller asks [`CapabilityCheck::probe`]
//! what to query next, performs the query, and hands the reply back through
//! [`CapabilityCheck::on_module_listing`] or
//! [`CapabilityCheck::on_command_info`], until the probe says that the check
//! is finished.

use vstd::prelude::*;
use crate::catalog::{catalog, command_name, COMMAND_COUNT};
use crate::error::CaptchaError;
use crate::reply::{check_module_listing, command_missing, listing_of, listing_ok, reports_absent, Reply};

verus! {

/// Where a capability check stands.
#[derive(Debug, Clone, Copy, PartialEq, Eq, Structural)]
pub enum Stage {
    /// The module listing is to be queried.
    AwaitModules,
    /// The `i`-th command of the catalog is to be introspected.
    AwaitCommand(usize),
    /// The module and all its commands are there.
    Passed,
    /// A module listing record lacks the cache module.
    NotLoaded,
    /// The `i`-th command of the catalog is absent.
    CommandMissing(usize),
}

/// What the caller of a capability check is to do next.
#[derive(Debug, Clone, Copy)]
pub enum Probe {
    /// Query the store's module listing.
    ListModules,
    /// Query the store's introspection of the named command.
    CommandInfo(&'static str),
    /// Nothing: the check has its outcome.
    Finished,
}

/// A stage names a command of the catalog wherever it names one.
pub open spec fn stage_ok(s: Stage) -> bool {
    match s {
        Stage::AwaitCommand(i) => i < COMMAND_COUNT,
        Stage::CommandMissing(i) => i < COMMAND_COUNT,
        _ => true,
    }
}

/// The stage after the module listing came back.
pub open spec fn after_listing(listing: Seq<Seq<Seq<char>>>) -> Stage {
    if listing_ok(listing) {
        Stage::AwaitCommand(0)
    } else {
        Stage::NotLoaded
    }
}

/// The stage after the introspection of the `i`-th command came back.
pub open spec fn after_info(i: usize, reply: Reply) -> Stage {
    if reports_absent(reply) {
        Stage::CommandMissing(i)
    } else if i + 1 >= COMMAND_COUNT {
        Stage::Passed
    } else {
        Stage::AwaitCommand((i + 1) as usize)
    }
}

/// The stage reached from `s` when the introspection replies come back in
/// order; replies that come after the check is finished are not looked at.
pub open spec fn replay(s: Stage, replies: Seq<Reply>) -> Stage
    decreases replies.len(),
{
    if replies.len() == 0 {
        s
    } else {
        match s {
            Stage::AwaitCommand(i) => replay(after_info(i, replies[0]), replies.drop_first()),
            _ => s,
        }
    }
}

/// The outcome of a whole check on a module listing and the introspection
/// replies of the catalog's commands, in catalog order.
pub open spec fn verdict(listing: Seq<Seq<Seq<char>>>, replies: Seq<Reply>) -> Stage {
    replay(after_listing(listing), replies)
}

/// A capability check in progress.
pub struct CapabilityCheck {
    stage: Stage,
}

impl CapabilityCheck {
    /// The stage that the check has reached.
    pub closed spec fn stage(&self) -> Stage {
        self.stage
    }

    /// A check that has not queried anything yet.
    pub fn new() -> (r: CapabilityCheck)
        ensures
            r.stage() == Stage::AwaitModules,
    {
        CapabilityCheck { stage: Stage::AwaitModules }
    }

    /// What to query next.
    pub fn probe(&self) -> (r: Probe)
        requires
            stage_ok(self.stage()),
        ensures
            self.stage() is AwaitModules ==> r is ListModules,
            self.stage() matches Stage::AwaitCommand(i) ==> (r matches Probe::CommandInfo(name)
                && name@ == catalog()[i as int]),
            !(self.stage() is AwaitModules) && !(self.stage() is AwaitCommand) ==> r is Finished,
    {
        match self.stage {
            Stage::AwaitModules => Probe::ListModules,
            Stage::AwaitCommand(i) => Probe::CommandInfo(command_name(i)),
            _ => Probe::Finished,
        }
    }

    /// Takes in the module listing.
    pub fn on_module_listing(&mut self, listing: &Vec<Vec<String>>)
        requires
            old(self).stage() is AwaitModules,
        ensures
            final(self).stage() == after_listing(listing_of(listing@)),
            stage_ok(final(self).stage()),
    {
        match check_module_listing(listing) {
            Ok(()) => {
                self.stage = Stage::AwaitCommand(0);
            },
            Err(_) => {
                self.stage = Stage::NotLoaded;
            },
        }
    }

    /// Takes in the introspection reply of the command that the probe named.
    pub fn on_command_info(&mut self, reply: &Reply)
        requires
            old(self).stage() is AwaitCommand,
            stage_ok(old(self).stage()),
        ensures
            old(self).stage() matches Stage::AwaitCommand(i) && final(self).stage() == after_info(
                i,
                *reply,
            ),
            stage_ok(final(self).stage()),
    {
        if let Stage::AwaitCommand(i) = self.stage {
            if command_missing(reply) {
                self.stage = Stage::CommandMissing(i);
            } else if i + 1 >= COMMAND_COUNT {
                self.stage = Stage::Passed;
            } else {
                self.stage = Stage::AwaitCommand(i + 1);
            }
        }
    }

    /// Whether the check has its outcome.
    pub fn is_finished(&self) -> (r: bool)
        ensures
            r == !(self.stage() is AwaitModules || self.stage() is AwaitCommand),
    {
        match self.stage {
            Stage::AwaitModules => false,
            Stage::AwaitCommand(_) => false,
            _ => true,
        }
    }

    /// The outcome of the check, once it is finished.
    pub fn outcome(&self) -> (r: Option<Result<(), CaptchaError>>)
        requires
            stage_ok(self.stage()),
        ensures
            r is None <==> (self.stage() is AwaitModules || self.stage() is AwaitCommand),
            r matches Some(Ok(())) <==> self.stage() is Passed,
            r matches Some(Err(CaptchaError::ExtensionNotLoaded)) <==> self.stage() is NotLoaded,
            self.stage() matches Stage::CommandMissing(i) ==> (r matches Some(
                Err(CaptchaError::ExtensionCommandMissing(name)),
            ) && name@ == catalog()[i as int]),
    {
        match self.stage {
            Stage::Passed => Some(Ok(())),
            Stage::NotLoaded => Some(Err(CaptchaError::ExtensionNotLoaded)),
            Stage::CommandMissing(i) => Some(
                Err(CaptchaError::ExtensionCommandMissing(command_name(i).to_owned())),
            ),
            _ => None,
        }
    }
}

/// Runs a whole capability check on a module listing and the introspection
/// replies of the catalog's commands, in catalog order: the check passes, or
/// fails, as [`verdict`] says of them.
pub fn check_capabilities(listing: &Vec<Vec<String>>, replies: &Vec<Reply>) -> (r: Result<
    (),
    CaptchaError,
>)
    requires
        replies@.len() >= COMMAND_COUNT,
    ensures
        r is Ok <==> verdict(listing_of(listing@), replies@) is Passed,
        verdict(listing_of(listing@), replies@) is NotLoaded ==> r matches Err(
            CaptchaError::ExtensionNotLoaded,
        ),
        verdict(listing_of(listing@), replies@) matches Stage::CommandMissing(k) ==> (r matches Err(
            CaptchaError::ExtensionCommandMissing(name),
        ) && name@ == catalog()[k as int]),
{
    let mut check = CapabilityCheck::new();
    check.on_module_listing(listing);
    let mut i: usize = 0;
    assert(replies@.skip(0) =~= replies@);
    while i < replies.len() && !check.is_finished()
        invariant
            0 <= i <= replies@.len(),
            stage_ok(check.stage()),
            !(check.stage() is AwaitModules),
            check.stage() matches Stage::AwaitCommand(j) ==> j == i,
            replay(check.stage(), replies@.skip(i as int)) == verdict(
                listing_of(listing@),
                replies@,
            ),
        decreases replies@.len() - i,
    {
        let ghost rest = replies@.skip(i as int);
        assert(rest[0] == replies@[i as int]);
        assert(rest.drop_first() =~= replies@.skip(i + 1));
        check.on_command_info(&replies[i]);
        i = i + 1;
    }
    proof {
        if check.stage() is AwaitCommand {
            assert(i == replies@.len());
            assert(false);
        }
        if i == replies@.len() {
            assert(replies@.skip(i as int).len() == 0);
        }
    }
    match check.outcome() {
        Some(o) => o,
        None => Err(CaptchaError::ExtensionNotLoaded),
    }
}

/// From the `i`-th command on, the replay stops at the first command whose
/// introspection reports it absent.
proof fn lemma_replay_missing(replies: Seq<Reply>, i: int, k: int)
    requires
        0 <= i <= k < COMMAND_COUNT,
        k < replies.len(),
        reports_absent(replies[k]),
        forall|j: int| i <= j < k ==> !reports_absent(#[trigger] replies[j]),
    ensures
        replay(Stage::AwaitCommand(i as usize), replies.subrange(i, replies.len() as int))
            == Stage::CommandMissing(k as usize),
    decreases k - i,
{
    let rest = replies.subrange(i, replies.len() as int);
    assert(rest[0] == replies[i]);
    assert(rest.drop_first() =~= replies.subrange(i + 1, replies.len() as int));
    assert(replay(Stage::AwaitCommand(i as usize), rest) == replay(
        after_info(i as usize, replies[i]),
        rest.drop_first(),
    ));
    if i < k {
        lemma_replay_missing(replies, i + 1, k);
    }
}

/// From the `i`-th command on, the replay passes when no introspection
/// reports its command absent.
proof fn lemma_replay_present(replies: Seq<Reply>, i: int)
    requires
        0 <= i < COMMAND_COUNT,
        COMMAND_COUNT <= replies.len(),
        forall|j: int| i <= j < COMMAND_COUNT ==> !reports_absent(#[trigger] replies[j]),
    ensures
        replay(Stage::AwaitCommand(i as usize), replies.subrange(i, replies.len() as int))
            == Stage::Passed,
    decreases COMMAND_COUNT - i,
{
    let rest = replies.subrange(i, replies.len() as int);
    assert(rest[0] == replies[i]);
    assert(rest.drop_first() =~= replies.subrange(i + 1, replies.len() as int));
    assert(replay(Stage::AwaitCommand(i as usize), rest) == replay(
        after_info(i as usize, replies[i]),
        rest.drop_first(),
    ));
    if i + 1 < COMMAND_COUNT {
        lemma_replay_present(replies, i + 1);
    }
}

/// A check fails with the module not loaded whenever some record of the
/// module listing lacks the cache module, whatever the introspection replies.
pub proof fn lemma_check_not_loaded(listing: Seq<Seq<Seq<char>>>, replies: Seq<Reply>)
    requires
        !listing_ok(listing),
    ensures
        verdict(listing, replies) == Stage::NotLoaded,
{
}

/// With the cache module in every record of the listing, a check fails on
/// the first command of the catalog whose introspection reports it absent.
pub proof fn lemma_check_command_missing(
    listing: Seq<Seq<Seq<char>>>,
    replies: Seq<Reply>,
    k: int,
)
    requires
        listing_ok(listing),
        0 <= k < COMMAND_COUNT,
        k < replies.len(),
        reports_absent(replies[k]),
        forall|j: int| 0 <= j < k ==> !reports_absent(#[trigger] replies[j]),
    ensures
        verdict(listing, replies) == Stage::CommandMissing(k as usize),
{
    lemma_replay_missing(replies, 0, k);
    assert(replies.subrange(0, replies.len() as int) =~= replies);
}

/// With the cache module in every record of the listing and every command
/// of the catalog present, a check passes.
pub proof fn lemma_check_passes(listing: Seq<Seq<Seq<char>>>, replies: Seq<Reply>)
    requires
        listing_ok(listing),
        COMMAND_COUNT <= replies.len(),
        forall|j: int| 0 <= j < COMMAND_COUNT ==> !reports_absent(#[trigger] replies[j]),
    ensures
        verdict(listing, replies) == Stage::Passed,
{
    lemma_replay_present(replies, 0);
    assert(replies.subrange(0, replies.len() as int) =~= replies);
}

} // verus!
