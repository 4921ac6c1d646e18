//! Envelope of a command's result.

use vstd::prelude::*;
use crate::text::{opt_text, texts, views};

verus! {

/// Step of a command.
#[derive(Debug, PartialEq, Eq)]
pub struct StepResult {
    pub name: String,
    pub ok: bool,
    pub duration_ms: u64,
    pub message: Option<String>,
}

/// Mathematical value of [`StepResult`].
pub struct StepResultView {
    pub name: Seq<char>,
    pub ok: bool,
    pub duration_ms: u64,
    pub message: Option<Seq<char>>,
}

impl View for StepResult {
    type V = StepResultView;

    open spec fn view(&self) -> StepResultView {
        StepResultView {
            name: self.name@,
            ok: self.ok,
            duration_ms: self.duration_ms,
            message: opt_text(self.message),
        }
    }
}

/// Result of a command with what belongs to it.
#[derive(Debug, PartialEq, Eq)]
pub struct Envelope<T> {
    pub ok: bool,
    pub command: String,
    pub duration_ms: u64,
    pub data: T,
    pub warnings: Vec<String>,
    pub steps: Vec<StepResult>,
}

impl<T> Envelope<T> {
    /// An envelope without warnings and steps.
    pub open spec fn is_plain(
        self,
        ok: bool,
        command: Seq<char>,
        duration_ms: u64,
        data: T,
    ) -> bool {
        &&& self.ok == ok
        &&& self.command@ == command
        &&& self.duration_ms == duration_ms
        &&& self.data == data
        &&& texts(self.warnings@) == Seq::<Seq<char>>::empty()
        &&& views(self.steps@) == Seq::<StepResultView>::empty()
    }

    /// Envelope of a command that succeeded.
    pub fn ok(command: &str, duration_ms: u64, data: T) -> (r: Self)
        ensures
            r.is_plain(true, command@, duration_ms, data),
    {
        let r = Envelope {
            ok: true,
            command: command.to_owned(),
            duration_ms,
            data,
            warnings: Vec::new(),
            steps: Vec::new(),
        };
        assert(texts(r.warnings@) =~= Seq::<Seq<char>>::empty());
        assert(views(r.steps@) =~= Seq::<StepResultView>::empty());
        r
    }

    /// Envelope of a command that failed.
    pub fn err(command: &str, duration_ms: u64, data: T) -> (r: Self)
        ensures
            r.is_plain(false, command@, duration_ms, data),
    {
        let r = Envelope {
            ok: false,
            command: command.to_owned(),
            duration_ms,
            data,
            warnings: Vec::new(),
            steps: Vec::new(),
        };
        assert(texts(r.warnings@) =~= Seq::<Seq<char>>::empty());
        assert(views(r.steps@) =~= Seq::<StepResultView>::empty());
        r
    }
}

} // verus!
