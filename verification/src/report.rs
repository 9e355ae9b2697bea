//! What applying a profile did.

use crate::cpu::CpuControlState;
use crate::nvidia::{NvidiaControl, NvidiaControlView};
use crate::{model, text};
use vstd::prelude::*;
use vstd::string::*;

verus! {

/// What an apply did.
#[derive(Debug, Clone, PartialEq)]
pub struct Report {
    pub applied: Vec<String>,
    pub skipped: Vec<String>,
    pub failed: Vec<String>,
    pub superseded: bool,
    /// NVIDIA settings were skipped only until the dGPU is ready.
    pub nvidia_deferred: bool,
}

pub struct ReportView {
    pub applied: Seq<Seq<char>>,
    pub skipped: Seq<Seq<char>>,
    pub failed: Seq<Seq<char>>,
    pub superseded: bool,
    pub nvidia_deferred: bool,
}

impl View for Report {
    type V = ReportView;

    open spec fn view(&self) -> ReportView {
        ReportView {
            applied: text::texts(self.applied@),
            skipped: text::texts(self.skipped@),
            failed: text::texts(self.failed@),
            superseded: self.superseded,
            nvidia_deferred: self.nvidia_deferred,
        }
    }
}

impl ReportView {
    /// Nothing done yet.
    pub open spec fn empty() -> Self {
        ReportView {
            applied: seq![],
            skipped: seq![],
            failed: seq![],
            superseded: false,
            nvidia_deferred: false,
        }
    }

    pub open spec fn apply(self, what: Seq<char>) -> Self {
        ReportView { applied: self.applied.push(what), ..self }
    }

    pub open spec fn skip(self, what: Seq<char>) -> Self {
        ReportView { skipped: self.skipped.push(what), ..self }
    }

    pub open spec fn fail(self, what: Seq<char>) -> Self {
        ReportView { failed: self.failed.push(what), ..self }
    }

    /// Whether a report says all that an earlier one says.
    pub open spec fn follows(self, earlier: Self) -> bool {
        &&& earlier.applied.is_prefix_of(self.applied)
        &&& earlier.skipped.is_prefix_of(self.skipped)
        &&& earlier.failed.is_prefix_of(self.failed)
        &&& earlier.superseded ==> self.superseded
        &&& earlier.nvidia_deferred ==> self.nvidia_deferred
    }
}

impl Default for Report {
    fn default() -> (r: Self)
        ensures
            r@ == ReportView::empty(),
    {
        let r = Report {
            applied: Vec::new(),
            skipped: Vec::new(),
            failed: Vec::new(),
            superseded: false,
            nvidia_deferred: false,
        };
        assert(r@.applied =~= seq![]);
        assert(r@.skipped =~= seq![]);
        assert(r@.failed =~= seq![]);
        r
    }
}

/// What was left out, behind a summary.
pub open spec fn skipped_part(r: ReportView) -> Seq<char> {
    if r.skipped.len() == 0 {
        ""@
    } else {
        " · skipped "@ + text::joined(r.skipped, ", "@)
    }
}

/// One line on what an apply did: good unless something failed.
pub open spec fn summarized(r: ReportView, profile: Seq<char>) -> Result<Seq<char>, Seq<char>> {
    let applied = text::joined(r.applied, ", "@);
    let failed = text::joined(r.failed, "; "@);
    if r.failed.len() == 0 {
        if r.applied.len() == 0 {
            Ok(profile + ": already in place"@ + skipped_part(r))
        } else {
            Ok(profile + " applied: "@ + applied + skipped_part(r))
        }
    } else {
        if r.applied.len() == 0 {
            Err(profile + " failed: "@ + failed + skipped_part(r))
        } else {
            Err(
                profile + " partly applied ("@ + applied + "); failed: "@ + failed + skipped_part(
                    r,
                ),
            )
        }
    }
}

impl Report {
    pub fn apply(&mut self, what: String)
        ensures
            final(self)@ == old(self)@.apply(what@),
    {
        proof {
            text::texts_push(self.applied@, what);
        }
        self.applied.push(what);
    }

    pub fn skip(&mut self, what: String)
        ensures
            final(self)@ == old(self)@.skip(what@),
    {
        proof {
            text::texts_push(self.skipped@, what);
        }
        self.skipped.push(what);
    }

    pub fn fail(&mut self, what: String)
        ensures
            final(self)@ == old(self)@.fail(what@),
    {
        proof {
            text::texts_push(self.failed@, what);
        }
        self.failed.push(what);
    }

    /// One line for a toast: `Ok` unless something failed.
    pub fn summary(&self, profile: &str) -> (r: Result<String, String>)
        ensures
            match summarized(self@, profile@) {
                Ok(s) => r is Ok && r->Ok_0@ == s,
                Err(s) => r is Err && r->Err_0@ == s,
            },
    {
        assert(self@.applied.len() == self.applied@.len());
        assert(self@.skipped.len() == self.skipped@.len());
        assert(self@.failed.len() == self.failed@.len());
        let skipped = if self.skipped.len() == 0 {
            "".to_string()
        } else {
            text::cat2(" · skipped ", text::join(self.skipped.as_slice(), ", ").as_str())
        };
        let skipped = skipped.as_str();
        let applied = text::join(self.applied.as_slice(), ", ");
        let failed = text::join(self.failed.as_slice(), "; ");
        match (self.applied.len() == 0, self.failed.len() == 0) {
            (true, true) => Ok(text::cat3(profile, ": already in place", skipped)),
            (false, true) => Ok(text::cat4(profile, " applied: ", applied.as_str(), skipped)),
            (true, false) => Err(text::cat4(profile, " failed: ", failed.as_str(), skipped)),
            (false, false) => Err(
                text::cat6(
                    profile,
                    " partly applied (",
                    applied.as_str(),
                    "); failed: ",
                    failed.as_str(),
                    skipped,
                ),
            ),
        }
    }
}

pub struct CpuControlView {
    pub governor: Seq<char>,
    pub epp: Option<Seq<char>>,
    pub boost: Option<bool>,
    pub rest: Seq<char>,
}

impl View for CpuControlState {
    type V = CpuControlView;

    open spec fn view(&self) -> CpuControlView {
        CpuControlView {
            governor: self.governor@,
            epp: model::opt_text(self.epp),
            boost: self.boost,
            rest: self.rest@,
        }
    }
}

/// What differs between the processor state that was asked for and what the
/// kernel reports, if anything: the first of governor, EPP and boost that was
/// asked for and is reported otherwise.
pub open spec fn mismatch(wanted: CpuControlView, live: CpuControlView) -> Option<Seq<char>> {
    if wanted.governor.len() > 0 && live.governor != wanted.governor {
        Some("governor "@ + live.governor)
    } else if wanted.epp is Some && live.epp is Some && wanted.epp != live.epp {
        Some("EPP "@ + live.epp->0)
    } else if wanted.boost is Some && live.boost is Some && wanted.boost != live.boost {
        Some(
            if live.boost->0 {
                "boost on"@
            } else {
                "boost off"@
            },
        )
    } else {
        None
    }
}

/// What differs between the CPU state a profile asked for and what the
/// kernel reports afterwards, if anything. Only what was asked for is
/// compared: an EPP the profile leaves alone is not a mismatch.
pub fn cpu_readback_mismatch(wanted: &CpuControlState, live: &CpuControlState) -> (r: Option<String>)
    ensures
        model::opt_text(r) == mismatch(wanted@, live@),
{
    proof {
        reveal_strlit("");
        assert(wanted.governor@.len() == 0 ==> wanted.governor@ =~= ""@);
    }
    if !text::same(wanted.governor.as_str(), "") && !text::same(
        live.governor.as_str(),
        wanted.governor.as_str(),
    ) {
        return Some(text::cat2("governor ", live.governor.as_str()));
    }
    match (&wanted.epp, &live.epp) {
        (Some(w), Some(l)) => if !text::same(w.as_str(), l.as_str()) {
            return Some(text::cat2("EPP ", l.as_str()));
        },
        _ => {},
    }
    match (wanted.boost, live.boost) {
        (Some(w), Some(l)) => if w != l {
            return Some(
                if l {
                    "boost on".to_string()
                } else {
                    "boost off".to_string()
                },
            );
        },
        _ => {},
    }
    None
}

/// NVIDIA settings that put the card's stock limit back where they name none.
pub open spec fn complete(nv: NvidiaControlView) -> NvidiaControlView {
    NvidiaControlView {
        reset_power_limit: nv.reset_power_limit || nv.power_limit_w is None,
        ..nv
    }
}

/// A profile describes a complete GPU state: when it names no power limit it
/// means the card's stock limit, not "whatever the previous profile left".
/// Otherwise Quiet's 300 W would follow you into Gaming.
pub fn profile_nvidia_control(nv: &NvidiaControl) -> (r: NvidiaControl)
    ensures
        r@ == complete(nv@),
        r.rest@ == nv.rest@,
{
    NvidiaControl {
        power_limit_w: nv.power_limit_w,
        reset_power_limit: nv.reset_power_limit || nv.power_limit_w.is_none(),
        rest: nv.rest.clone(),
    }
}

/// A state matches itself, and what was not asked for is never a mismatch.
pub proof fn unasked_is_no_mismatch(wanted: CpuControlView, live: CpuControlView)
    ensures
        mismatch(wanted, wanted) is None,
        wanted.governor.len() == 0 && wanted.epp is None && wanted.boost is None ==> mismatch(
            wanted,
            live,
        ) is None,
{
}

/// A summary is an error exactly where something failed.
pub proof fn summary_fails_with_a_failure(r: ReportView, profile: Seq<char>)
    ensures
        summarized(r, profile) is Err <==> r.failed.len() > 0,
{
}

} // verus!
