//! The cycle of a shader edit: an edit waits for the validator, an accepted
//! source waits for the compiler, and a rejected one changes nothing but the
//! message shown. Validating and compiling happen outside: this module says
//! when, and with which source, and takes what came of it.

use crate::settings::CustomShaderData;
use crate::shader::{shader_source, verdict_view};
use crate::text::string_option_view;
use vstd::prelude::*;

verus! {

/// Where the cycle stands.
#[derive(Debug, Clone, Copy, PartialEq, Eq, Structural)]
pub enum Phase {
    /// Nothing to do: the active pipeline matches the last accepted source.
    Idle,
    /// The fragments were edited and wait for the validator.
    PendingRecompile,
    /// A source was accepted and waits to be compiled and swapped in.
    Recompiling,
}

/// The state of the cycle. The active source stands for the pipeline that
/// renders: the pipeline changes only when the active source does.
pub struct Recompiler {
    phase: Phase,
    active: String,
    candidate: String,
    error: Option<String>,
}

/// The state as plain values.
pub struct RecompilerView {
    pub phase: Phase,
    pub active: Seq<char>,
    pub candidate: Seq<char>,
    pub error: Option<Seq<char>>,
}

/// The state right after the first pipeline was built from `source`.
pub open spec fn started(source: Seq<char>) -> RecompilerView {
    RecompilerView { phase: Phase::Idle, active: source, candidate: source, error: None }
}

/// The state after an edit: whatever was going on, the new text waits for
/// the validator.
pub open spec fn after_edit(state: RecompilerView) -> RecompilerView {
    RecompilerView { phase: Phase::PendingRecompile, ..state }
}

/// The state after the validator's verdict on `source`. It counts only
/// while an edit is waiting. An accepted source becomes the candidate and
/// clears the message; a rejected one ends the cycle and leaves its message.
pub open spec fn after_verdict(
    state: RecompilerView,
    source: Seq<char>,
    verdict: Result<(), Seq<char>>,
) -> RecompilerView {
    if state.phase != Phase::PendingRecompile {
        state
    } else {
        match verdict {
            Ok(_) => RecompilerView {
                phase: Phase::Recompiling,
                candidate: source,
                error: None,
                ..state
            },
            Err(message) => RecompilerView { phase: Phase::Idle, error: Some(message), ..state },
        }
    }
}

/// The state after the compiler took its job: the candidate is active.
/// Without a waiting candidate nothing changes.
pub open spec fn after_swap(state: RecompilerView) -> RecompilerView {
    if state.phase == Phase::Recompiling {
        RecompilerView { phase: Phase::Idle, active: state.candidate, ..state }
    } else {
        state
    }
}

impl View for Recompiler {
    type V = RecompilerView;

    closed spec fn view(&self) -> RecompilerView {
        RecompilerView {
            phase: self.phase,
            active: self.active@,
            candidate: self.candidate@,
            error: match self.error {
                Some(message) => Some(message@),
                None => None,
            },
        }
    }
}

impl Recompiler {
    /// The state for a first pipeline built from `source`.
    pub fn new(source: String) -> (r: Self)
        ensures
            r@ == started(source@),
    {
        let candidate = source.clone();
        Recompiler { phase: Phase::Idle, active: source, candidate, error: None }
    }

    /// Starts from `source` where the validator's verdict on it is `Ok`;
    /// else hands the verdict's message back and starts nothing.
    pub fn start(source: String, verdict: Result<(), String>) -> (r: Result<Self, String>)
        ensures
            match verdict {
                Ok(_) => r matches Ok(state) && state@ == started(source@),
                Err(message) => r matches Err(given) && given@ == message@,
            },
    {
        match verdict {
            Ok(_) => Ok(Self::new(source)),
            Err(message) => Err(message),
        }
    }

    /// Where the cycle stands.
    pub fn phase(&self) -> (r: Phase)
        ensures
            r == self@.phase,
    {
        self.phase
    }

    /// The source of the pipeline in force.
    pub fn active_source(&self) -> (r: &str)
        ensures
            r@ == self@.active,
    {
        self.active.as_str()
    }

    /// The message of the last rejected edit, until an edit is accepted.
    pub fn shader_error(&self) -> (r: Option<&str>)
        ensures
            crate::text::str_option_view(r) == self@.error,
    {
        match &self.error {
            Some(message) => Some(message.as_str()),
            None => None,
        }
    }

    /// Notes that the fragments were edited.
    pub fn edited(&mut self)
        ensures
            final(self)@ == after_edit(old(self)@),
    {
        self.phase = Phase::PendingRecompile;
    }

    /// The source that waits for the validator: the fragments' full source
    /// where an edit is waiting, `None` where none is. The verdict on it
    /// goes to `validated`.
    pub fn pending_source(&self, data: &CustomShaderData) -> (r: Option<String>)
        ensures
            string_option_view(r) == if self@.phase == Phase::PendingRecompile {
                Some(shader_source(data@))
            } else {
                None
            },
    {
        if self.phase == Phase::PendingRecompile {
            Some(data.shader())
        } else {
            None
        }
    }

    /// Takes the validator's verdict on `source`.
    pub fn validated(&mut self, source: String, verdict: Result<(), String>)
        ensures
            final(self)@ == after_verdict(old(self)@, source@, verdict_view(verdict)),
    {
        if self.phase == Phase::PendingRecompile {
            match verdict {
                Ok(_) => {
                    self.candidate = source;
                    self.error = None;
                    self.phase = Phase::Recompiling;
                },
                Err(message) => {
                    self.error = Some(message);
                    self.phase = Phase::Idle;
                },
            }
        }
    }

    /// Hands the waiting candidate to the compiler and makes it the active
    /// source. `None` where no candidate waits: then nothing is compiled.
    pub fn take_compile_job(&mut self) -> (r: Option<String>)
        ensures
            final(self)@ == after_swap(old(self)@),
            string_option_view(r) == if old(self)@.phase == Phase::Recompiling {
                Some(old(self)@.candidate)
            } else {
                None
            },
    {
        if self.phase == Phase::Recompiling {
            let source = self.candidate.clone();
            self.active = self.candidate.clone();
            self.phase = Phase::Idle;
            Some(source)
        } else {
            None
        }
    }
}

/// Only an accepted source waits for the compiler: the cycle comes to wait
/// for it by an `Ok` verdict alone, and then with the source of that verdict.
pub proof fn lemma_only_accepted_sources_are_compiled(
    state: RecompilerView,
    source: Seq<char>,
    verdict: Result<(), Seq<char>>,
)
    requires
        state.phase != Phase::Recompiling,
    ensures
        after_edit(state).phase != Phase::Recompiling,
        after_swap(state).phase != Phase::Recompiling,
        after_verdict(state, source, verdict).phase == Phase::Recompiling ==> verdict is Ok
            && after_verdict(state, source, verdict).candidate == source,
{
}

/// A rejected source ends the cycle and leaves the active source, and so
/// the pipeline, as it was: no job follows until another edit is accepted.
pub proof fn lemma_rejected_edit_keeps_pipeline(
    state: RecompilerView,
    source: Seq<char>,
    message: Seq<char>,
)
    requires
        state.phase == Phase::PendingRecompile,
    ensures
        after_verdict(state, source, Err(message)).phase == Phase::Idle,
        after_verdict(state, source, Err(message)).active == state.active,
        after_verdict(state, source, Err(message)).error == Some(message),
        after_swap(after_verdict(state, source, Err(message))) == after_verdict(
            state,
            source,
            Err(message),
        ),
{
}

/// One edit is judged once: after the verdict no edit is waiting, so a second
/// verdict without a new edit changes nothing.
pub proof fn lemma_one_verdict_for_an_edit(
    state: RecompilerView,
    source: Seq<char>,
    verdict: Result<(), Seq<char>>,
    later_source: Seq<char>,
    later_verdict: Result<(), Seq<char>>,
)
    ensures
        after_verdict(after_edit(state), source, verdict).phase != Phase::PendingRecompile,
        after_verdict(
            after_verdict(after_edit(state), source, verdict),
            later_source,
            later_verdict,
        ) == after_verdict(after_edit(state), source, verdict),
{
}

/// Neither an edit nor a verdict touches the active source; only a taken
/// job does, and then the accepted candidate becomes active as a whole.
pub proof fn lemma_active_changes_only_by_swap(
    state: RecompilerView,
    source: Seq<char>,
    verdict: Result<(), Seq<char>>,
)
    ensures
        after_edit(state).active == state.active,
        after_verdict(state, source, verdict).active == state.active,
        after_swap(state).active == state.active || (state.phase == Phase::Recompiling
            && after_swap(state).active == state.candidate),
{
}

} // verus!
