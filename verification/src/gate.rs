//! The scheduler gate: the host's background-work policy as the module sees
//! it, its wire form, and the state kept between polls.

use vstd::prelude::*;
use crate::text::str_eq;

verus! {

/// Why the host paused background work.
#[derive(Debug, Clone, Copy, PartialEq, Eq, Structural)]
pub enum PauseReason {
    /// The user switched the Memory Tree off in Settings.
    UserDisabled,
    OnBattery,
    CpuPressure,
    /// No live session.
    SignedOut,
    /// The host paused for a reason this side has no name for.
    Unknown,
}

/// The host's background-work policy.
#[derive(Debug, Clone, Copy, PartialEq, Eq, Structural)]
pub enum Policy {
    Aggressive,
    Normal,
    Throttled,
    Paused { reason: PauseReason },
}

pub open spec fn pause_reason_of(policy: Policy) -> Option<PauseReason> {
    match policy {
        Policy::Paused { reason } => Some(reason),
        _ => None,
    }
}

impl Policy {
    /// The reason, when this policy is a pause.
    pub fn pause_reason(self) -> (r: Option<PauseReason>)
        ensures
            r == pause_reason_of(self),
    {
        match self {
            Policy::Paused { reason } => Some(reason),
            _ => None,
        }
    }
}

/// The policy a wire `(tier, reason)` pair denotes.
///
/// Unknown strings collapse to the safe end of their type: an unknown tier is
/// `Normal` (never a surprise pause); an unknown or absent pause reason is
/// `Unknown` (still a pause — the host said stop, only the label is unknown).
pub open spec fn policy_of_wire(tier: Seq<char>, reason: Option<Seq<char>>) -> Policy {
    if tier == "aggressive"@ {
        Policy::Aggressive
    } else if tier == "normal"@ {
        Policy::Normal
    } else if tier == "throttled"@ {
        Policy::Throttled
    } else if tier == "paused"@ {
        Policy::Paused { reason: pause_reason_of_wire(reason) }
    } else {
        Policy::Normal
    }
}

pub open spec fn pause_reason_of_wire(reason: Option<Seq<char>>) -> PauseReason {
    match reason {
        Some(r) => if r == "user_disabled"@ {
            PauseReason::UserDisabled
        } else if r == "on_battery"@ {
            PauseReason::OnBattery
        } else if r == "cpu_pressure"@ {
            PauseReason::CpuPressure
        } else if r == "signed_out"@ {
            PauseReason::SignedOut
        } else {
            PauseReason::Unknown
        },
        None => PauseReason::Unknown,
    }
}

pub open spec fn opt_str_view(o: Option<&str>) -> Option<Seq<char>> {
    match o {
        Some(s) => Some(s@),
        None => None,
    }
}

fn wire_reason(reason: Option<&str>) -> (r: PauseReason)
    ensures
        r == pause_reason_of_wire(opt_str_view(reason)),
{
    match reason {
        Some(r) => if str_eq(r, "user_disabled") {
            PauseReason::UserDisabled
        } else if str_eq(r, "on_battery") {
            PauseReason::OnBattery
        } else if str_eq(r, "cpu_pressure") {
            PauseReason::CpuPressure
        } else if str_eq(r, "signed_out") {
            PauseReason::SignedOut
        } else {
            PauseReason::Unknown
        },
        None => PauseReason::Unknown,
    }
}

/// Map the wire tier + pause-reason strings back onto the policy.
pub fn wire_to_policy(tier: &str, reason: Option<&str>) -> (r: Policy)
    ensures
        r == policy_of_wire(tier@, opt_str_view(reason)),
{
    if str_eq(tier, "aggressive") {
        Policy::Aggressive
    } else if str_eq(tier, "normal") {
        Policy::Normal
    } else if str_eq(tier, "throttled") {
        Policy::Throttled
    } else if str_eq(tier, "paused") {
        Policy::Paused { reason: wire_reason(reason) }
    } else {
        Policy::Normal
    }
}

/// What storing a freshly polled policy did.
#[derive(Debug, Clone, Copy, PartialEq, Eq, Structural)]
pub struct PolicyUpdate {
    /// The stored policy differs from the one it replaced.
    pub changed: bool,
    /// A pause just lifted: tasks parked on the resume notification must be
    /// woken now rather than at their next tick.
    pub wake_sleepers: bool,
}

/// The cached host policy that every claim reads at step zero.
pub struct PolicyCell {
    pub policy: Policy,
}

impl PolicyCell {
    /// A cell holding the pre-gate behaviour, `Normal`.
    pub fn new() -> (r: Self)
        ensures
            r.policy == Policy::Normal,
    {
        PolicyCell { policy: Policy::Normal }
    }

    pub fn current_policy(&self) -> (r: Policy)
        ensures
            r == self.policy,
    {
        self.policy
    }

    /// Store the policy a poll answered, and say whether sleepers must wake:
    /// only on a pause → not-paused transition. Same-policy stores change
    /// nothing and wake nobody.
    pub fn store_policy(&mut self, next: Policy) -> (r: PolicyUpdate)
        ensures
            final(self).policy == next,
            r.changed == (old(self).policy != next),
            r.wake_sleepers == (old(self).policy is Paused && !(next is Paused)),
    {
        let was_paused = match self.policy {
            Policy::Paused { .. } => true,
            _ => false,
        };
        let now_paused = match next {
            Policy::Paused { .. } => true,
            _ => false,
        };
        let changed = self.policy != next;
        self.policy = next;
        PolicyUpdate { changed, wake_sleepers: was_paused && !now_paused }
    }
}

/// A once-per-process report: the first consultation reports, every later
/// one stays quiet.
pub struct ReportLatch {
    pub reported: bool,
}

impl ReportLatch {
    pub fn new() -> (r: Self)
        ensures
            !r.reported,
    {
        ReportLatch { reported: false }
    }

    /// Whether this consultation is the one that reports.
    pub fn should_report(&mut self) -> (r: bool)
        ensures
            r == !old(self).reported,
            final(self).reported,
    {
        let first = !self.reported;
        self.reported = true;
        first
    }
}

/// What one poll of the host's policy did.
#[derive(Debug, Clone, Copy, PartialEq, Eq, Structural)]
pub struct PollOutcome {
    /// The host answered the poll.
    pub answered: bool,
    /// The stored policy changed.
    pub changed: bool,
    /// A pause lifted: tasks parked on the resume notification wake now.
    pub wake_sleepers: bool,
    /// This failed poll is the one the once-per-process gap report is for.
    pub report_unserved: bool,
}

impl PolicyCell {
    /// One poll. `reply` is the host's `(tier, reason)` answer, `None` when
    /// the call failed. An answer is mapped and stored; a failure keeps the
    /// last policy, and only the first failure in the process is reported.
    pub fn refresh(
        &mut self,
        reply: Option<(&str, Option<&str>)>,
        latch: &mut ReportLatch,
    ) -> (r: PollOutcome)
        ensures
            match reply {
                Some(answer) => {
                    &&& final(self).policy == policy_of_wire(answer.0@, opt_str_view(answer.1))
                    &&& r.answered
                    &&& r.changed == (old(self).policy != final(self).policy)
                    &&& r.wake_sleepers == (old(self).policy is Paused
                        && !(final(self).policy is Paused))
                    &&& !r.report_unserved
                    &&& final(latch).reported == old(latch).reported
                },
                None => {
                    &&& final(self).policy == old(self).policy
                    &&& !r.answered && !r.changed && !r.wake_sleepers
                    &&& r.report_unserved == !old(latch).reported
                    &&& final(latch).reported
                },
            },
    {
        match reply {
            Some((tier, reason)) => {
                let next = wire_to_policy(tier, reason);
                let update = self.store_policy(next);
                PollOutcome {
                    answered: true,
                    changed: update.changed,
                    wake_sleepers: update.wake_sleepers,
                    report_unserved: false,
                }
            },
            None => {
                let report = latch.should_report();
                PollOutcome {
                    answered: false,
                    changed: false,
                    wake_sleepers: false,
                    report_unserved: report,
                }
            },
        }
    }
}

/// The stand-in gate for a module with no channel to the host's live policy.
/// It answers exactly what an unwired gate answered.
pub struct UnservedSchedulerGate;

impl UnservedSchedulerGate {
    /// Always `Normal`. `latch` records the consultation; the returned flag
    /// says whether this is the one consultation that reports the gap.
    pub fn current_policy(&self, latch: &mut ReportLatch) -> (r: (Policy, bool))
        ensures
            r.0 == Policy::Normal,
            r.1 == !old(latch).reported,
            final(latch).reported,
    {
        let report = latch.should_report();
        (Policy::Normal, report)
    }
}

/// The stand-in shutdown host for a module that cannot run shutdown hooks.
pub struct UnservedShutdownHost;

impl UnservedShutdownHost {
    /// Drop `hook`: there is no moment inside the module at which it could
    /// be awaited. The returned flag says whether this is the one drop that
    /// reports the gap.
    pub fn register<H>(&self, hook: H, latch: &mut ReportLatch) -> (r: bool)
        ensures
            r == !old(latch).reported,
            final(latch).reported,
    {
        let _dropped = hook;
        latch.should_report()
    }
}

pub open spec fn owned_pairs(tags: Seq<(&str, &str)>) -> Seq<(Seq<char>, Seq<char>)> {
    tags.map_values(|t: (&str, &str)| (t.0@, t.1@))
}

pub open spec fn string_pairs(tags: Seq<(String, String)>) -> Seq<(Seq<char>, Seq<char>)> {
    tags.map_values(|t: (String, String)| (t.0@, t.1@))
}

/// Owned copies of callback tags, in the same order with the same values.
pub fn owned_tags(tags: &[(&str, &str)]) -> (r: Vec<(String, String)>)
    ensures
        string_pairs(r@) == owned_pairs(tags@),
{
    let mut out: Vec<(String, String)> = Vec::new();
    let mut i: usize = 0;
    while i < tags.len()
        invariant
            i <= tags.len(),
            string_pairs(out@) =~= owned_pairs(tags@.subrange(0, i as int)),
        decreases tags.len() - i,
    {
        let (k, v) = tags[i];
        let ghost before = out@;
        out.push((k.to_owned(), v.to_owned()));
        assert(string_pairs(out@) =~= string_pairs(before).push((k@, v@)));
        assert(tags@.subrange(0, i + 1) =~= tags@.subrange(0, i as int).push(tags@[i as int]));
        assert(owned_pairs(tags@.subrange(0, i + 1)) =~= owned_pairs(
            tags@.subrange(0, i as int),
        ).push((k@, v@)));
        i = i + 1;
    }
    assert(tags@.subrange(0, tags@.len() as int) =~= tags@);
    out
}

} // verus!
