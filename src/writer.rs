use vstd::prelude::*;
use vstd::utf8::encode_utf8;
use vstd::string::StrSliceExecFns;
use crate::candidates::{
    build_targets, lemma_target_views, opt_chars, target_views, targets_of, Candidate, CandidateView, Failure,
};

verus! {

/// Where the writer stands on the current target.
#[derive(PartialEq, Eq, Structural, Clone, Copy, Debug)]
pub enum Phase {
    /// Waiting to learn whether the target's parent directory exists.
    Check,
    /// Waiting for the parent directory to be created.
    Create,
    /// Waiting for the file to be written.
    Write,
    /// The file was written to the current target.
    Saved,
    /// Every target failed.
    Exhausted,
}

/// What the caller is to do next; the index names a target.
#[derive(PartialEq, Eq, Structural, Clone, Copy, Debug)]
pub enum Action {
    /// Report whether the target's parent directory exists.
    CheckParent(usize),
    /// Create the target's parent directory and its missing ancestors.
    CreateParent(usize),
    /// Write the whole content to the target, replacing any file there.
    Write(usize),
    /// Done: the file was saved at this target.
    Saved(usize),
    /// Done: no target could take the file.
    Exhausted,
}

/// What the caller observed when it performed an action.
#[derive(PartialEq, Eq, Structural, Clone, Copy, Debug)]
pub enum Event {
    /// Whether the target's parent directory exists.
    ParentExists(bool),
    /// Whether creating the parent directory worked.
    ParentCreated(bool),
    /// Whether writing the file worked.
    Written(bool),
}

/// The single error reported when no target took the file.
#[derive(PartialEq, Eq, Structural, Clone, Copy, Debug)]
pub enum SaveError {
    AllCandidatesExhausted,
}

/// The text reported for a failed save.
pub open spec fn exhausted_message() -> Seq<char> {
    "Failed to save file to any location"@
}

impl SaveError {
    /// The message shown to the caller.
    pub fn message(&self) -> (r: String)
        ensures
            r@ == exhausted_message(),
    {
        "Failed to save file to any location".to_string()
    }
}

/// The state of a save as plain values.
pub struct WriterView {
    pub targets: Seq<Result<CandidateView, Failure>>,
    pub content: Seq<u8>,
    pub index: nat,
    pub phase: Phase,
    pub failures: Seq<Failure>,
}

/// The first target at or after `i` that was resolved, or the number of targets.
pub open spec fn first_ok_from(t: Seq<Result<CandidateView, Failure>>, i: nat) -> nat
    decreases t.len() - i,
{
    if i >= t.len() || t[i as int] is Ok {
        i
    } else {
        first_ok_from(t, i + 1)
    }
}

/// The failures of the unresolved targets skipped from `i` on.
pub open spec fn skipped_from(t: Seq<Result<CandidateView, Failure>>, i: nat) -> Seq<Failure>
    decreases t.len() - i,
{
    if i >= t.len() || t[i as int] is Ok {
        seq![]
    } else {
        seq![t[i as int]->Err_0] + skipped_from(t, i + 1)
    }
}

/// Moves on to the first resolved target at or after `i`.
pub open spec fn enter(v: WriterView, i: nat) -> WriterView {
    let j = first_ok_from(v.targets, i);
    WriterView {
        index: j,
        phase: if j < v.targets.len() {
            Phase::Check
        } else {
            Phase::Exhausted
        },
        failures: v.failures + skipped_from(v.targets, i),
        ..v
    }
}

/// Records the current target's failure and moves on.
pub open spec fn fail(v: WriterView, f: Failure) -> WriterView {
    enter(WriterView { failures: v.failures.push(f), ..v }, v.index + 1)
}

/// The state after `e` is observed in `v`; an event that does not answer the
/// pending action changes nothing.
pub open spec fn next(v: WriterView, e: Event) -> WriterView {
    match (v.phase, e) {
        (Phase::Check, Event::ParentExists(true)) => WriterView { phase: Phase::Write, ..v },
        (Phase::Check, Event::ParentExists(false)) => WriterView { phase: Phase::Create, ..v },
        (Phase::Create, Event::ParentCreated(true)) => WriterView { phase: Phase::Write, ..v },
        (Phase::Create, Event::ParentCreated(false)) => fail(v, Failure::DirectoryCreateFailed),
        (Phase::Write, Event::Written(true)) => WriterView { phase: Phase::Saved, ..v },
        (Phase::Write, Event::Written(false)) => fail(v, Failure::WriteFailed),
        _ => v,
    }
}

/// The action pending in `v`.
pub open spec fn action_of(v: WriterView) -> Action {
    match v.phase {
        Phase::Check => Action::CheckParent(v.index as usize),
        Phase::Create => Action::CreateParent(v.index as usize),
        Phase::Write => Action::Write(v.index as usize),
        Phase::Saved => Action::Saved(v.index as usize),
        Phase::Exhausted => Action::Exhausted,
    }
}

/// The state in which a save of `content` under `filename` begins.
pub open spec fn start(
    filename: Seq<char>,
    content: Seq<u8>,
    cwd: Option<Seq<char>>,
    home: Option<Seq<char>>,
) -> WriterView {
    enter(
        WriterView {
            targets: targets_of(filename, cwd, home),
            content,
            index: 0,
            phase: Phase::Check,
            failures: seq![],
        },
        0,
    )
}

/// The state after the events are observed one by one.
pub open spec fn run(v: WriterView, events: Seq<Event>) -> WriterView
    decreases events.len(),
{
    if events.len() == 0 {
        v
    } else {
        run(next(v, events[0]), events.subrange(1, events.len() as int))
    }
}

/// Saves content under a filename at the first target that takes it.
pub struct FallbackWriter {
    targets: Vec<Result<Candidate, Failure>>,
    content: Vec<u8>,
    index: usize,
    phase: Phase,
    failures: Vec<Failure>,
}

impl View for FallbackWriter {
    type V = WriterView;

    closed spec fn view(&self) -> WriterView {
        WriterView {
            targets: target_views(self.targets@),
            content: self.content@,
            index: self.index as nat,
            phase: self.phase,
            failures: self.failures@,
        }
    }
}

proof fn lemma_skip(t: Seq<Result<CandidateView, Failure>>, i: nat)
    requires
        i <= t.len(),
    ensures
        i <= first_ok_from(t, i) <= t.len(),
        skipped_from(t, i).len() == first_ok_from(t, i) - i,
        first_ok_from(t, i) < t.len() ==> t[first_ok_from(t, i) as int] is Ok,
        forall|k: int| i <= k < first_ok_from(t, i) ==> t[k] is Err,
        forall|k: int|
            0 <= k < skipped_from(t, i).len() ==> skipped_from(t, i)[k] == t[i + k]->Err_0,
    decreases t.len() - i,
{
    if i < t.len() && t[i as int] is Err {
        lemma_skip(t, i + 1);
        let s = skipped_from(t, i + 1);
        assert forall|k: int| 0 <= k < skipped_from(t, i).len() implies skipped_from(t, i)[k]
            == t[i + k]->Err_0 by {
            if k > 0 {
                assert(skipped_from(t, i)[k] == s[k - 1]);
            }
        }
    }
}

impl FallbackWriter {
    /// Internal consistency: the failures recorded are those of the targets
    /// passed, and an active phase stands on a resolved target.
    pub closed spec fn wf(&self) -> bool {
        &&& self.index <= self.targets.len()
        &&& self.failures@.len() == self.index
        &&& self.targets.len() == 3
        &&& self.phase != Phase::Exhausted ==> self.index < self.targets.len()
                && self.targets@[self.index as int] is Ok
        &&& self.phase == Phase::Exhausted ==> self.index == self.targets.len()
    }

    /// Moves past unresolved targets from `i` on, recording their failures.
    fn enter_exec(&mut self, i: usize)
        requires
            i <= old(self).targets.len(),
            old(self).targets.len() == 3,
            old(self).failures@.len() == i,
        ensures
            final(self).wf(),
            final(self)@ == enter(old(self)@, i as nat),
    {
        proof {
            lemma_skip(self@.targets, i as nat);
            lemma_target_views(self.targets@);
        }
        let ghost v0 = self@;
        let mut j: usize = i;
        while j < self.targets.len() && self.targets[j].is_err()
            invariant
                i <= j <= self.targets.len(),
                self.targets.len() == 3,
                self@.targets == v0.targets,
                self@.content == v0.content,
                self.failures@.len() == j,
                self.failures@ == v0.failures + skipped_from(v0.targets, i as nat).take(j - i),
                forall|k: int| i <= k < j ==> v0.targets[k] is Err,
                self.targets@.len() == v0.targets.len(),
            decreases self.targets.len() - j,
        {
            let f = *self.targets[j].as_ref().unwrap_err();
            assert(v0.targets[j as int] == Err::<CandidateView, Failure>(f));
            proof {
                lemma_skip(v0.targets, i as nat);
            }
            let ghost first = first_ok_from(v0.targets, i as nat);
            assert(first > j) by {
                if first <= j {
                    assert(v0.targets[first as int] is Err);
                }
            }
            assert(skipped_from(v0.targets, i as nat)[j - i] == f);
            self.failures.push(f);
            j = j + 1;
            assert(self.failures@ =~= v0.failures + skipped_from(v0.targets, i as nat).take(j - i));
        }
        proof {
            lemma_skip(v0.targets, i as nat);
        }
        assert(first_ok_from(v0.targets, i as nat) == j);
        assert(skipped_from(v0.targets, i as nat).take(j - i) =~= skipped_from(v0.targets, i as nat));
        self.index = j;
        if j < self.targets.len() {
            self.phase = Phase::Check;
        } else {
            self.phase = Phase::Exhausted;
        }
    }

    /// Begins a save of `content` under `filename`, with the working directory
    /// and home directory as resolved (or not) by the caller.
    pub fn new(filename: String, content: Vec<u8>, cwd: Option<String>, home: Option<String>) -> (w:
        FallbackWriter)
        ensures
            w.wf(),
            w@ == start(filename@, content@, opt_chars(cwd), opt_chars(home)),
    {
        let targets = build_targets(&filename, &cwd, &home);
        proof {
            lemma_target_views(targets@);
        }
        let mut w = FallbackWriter {
            targets,
            content,
            index: 0,
            phase: Phase::Check,
            failures: Vec::new(),
        };
        w.enter_exec(0);
        w
    }

    /// Begins a save of the UTF-8 encoding of `text`.
    pub fn new_text(filename: String, text: String, cwd: Option<String>, home: Option<String>) -> (w:
        FallbackWriter)
        ensures
            w.wf(),
            w@ == start(filename@, encode_utf8(text@), opt_chars(cwd), opt_chars(home)),
    {
        let bytes = text.as_str().as_bytes_vec();
        FallbackWriter::new(filename, bytes, cwd, home)
    }

    /// The action the caller is to perform now.
    pub fn pending(&self) -> (a: Action)
        requires
            self.wf(),
        ensures
            a == action_of(self@),
    {
        match self.phase {
            Phase::Check => Action::CheckParent(self.index),
            Phase::Create => Action::CreateParent(self.index),
            Phase::Write => Action::Write(self.index),
            Phase::Saved => Action::Saved(self.index),
            Phase::Exhausted => Action::Exhausted,
        }
    }

    /// Takes in what the caller observed and returns the next action.
    pub fn step(&mut self, e: Event) -> (a: Action)
        requires
            old(self).wf(),
        ensures
            final(self).wf(),
            final(self)@ == next(old(self)@, e),
            a == action_of(final(self)@),
    {
        match (self.phase, e) {
            (Phase::Check, Event::ParentExists(true)) => {
                self.phase = Phase::Write;
            },
            (Phase::Check, Event::ParentExists(false)) => {
                self.phase = Phase::Create;
            },
            (Phase::Create, Event::ParentCreated(true)) => {
                self.phase = Phase::Write;
            },
            (Phase::Create, Event::ParentCreated(false)) => {
                self.fail_exec(Failure::DirectoryCreateFailed);
            },
            (Phase::Write, Event::Written(true)) => {
                self.phase = Phase::Saved;
            },
            (Phase::Write, Event::Written(false)) => {
                self.fail_exec(Failure::WriteFailed);
            },
            _ => {},
        }
        self.pending()
    }

    fn fail_exec(&mut self, f: Failure)
        requires
            old(self).wf(),
            old(self).phase != Phase::Exhausted,
        ensures
            final(self).wf(),
            final(self)@ == fail(old(self)@, f),
    {
        self.failures.push(f);
        let i = self.index + 1;
        self.enter_exec(i);
    }

    /// The target at `i`, when it was resolved.
    pub fn candidate(&self, i: usize) -> (r: Option<Candidate>)
        ensures
            match r {
                Some(c) => i < self@.targets.len() && self@.targets[i as int] == Ok::<
                    CandidateView,
                    Failure,
                >(c@),
                None => i >= self@.targets.len() || self@.targets[i as int] is Err,
            },
    {
        proof {
            lemma_target_views(self.targets@);
        }
        if i < self.targets.len() {
            match &self.targets[i] {
                Ok(c) => Some(c.duplicate()),
                Err(_) => None,
            }
        } else {
            None
        }
    }

    /// The bytes to be written.
    pub fn content(&self) -> (r: &Vec<u8>)
        ensures
            r@ == self@.content,
    {
        &self.content
    }

    /// The failure of each target passed so far, in order.
    pub fn failures(&self) -> (r: &Vec<Failure>)
        ensures
            r@ == self@.failures,
    {
        &self.failures
    }

    /// The result once the save is over: the target saved to, or the error.
    pub fn outcome(&self) -> (r: Option<Result<Candidate, SaveError>>)
        requires
            self.wf(),
        ensures
            match r {
                None => self@.phase != Phase::Saved && self@.phase != Phase::Exhausted,
                Some(Ok(c)) => self@.phase == Phase::Saved && self@.targets[self@.index as int]
                    == Ok::<CandidateView, Failure>(c@),
                Some(Err(e)) => self@.phase == Phase::Exhausted && e
                    == SaveError::AllCandidatesExhausted,
            },
    {
        match self.phase {
            Phase::Saved => {
                proof {
                    lemma_target_views(self.targets@);
                }
                match self.candidate(self.index) {
                    Some(c) => Some(Ok(c)),
                    None => None,
                }
            },
            Phase::Exhausted => Some(Err(SaveError::AllCandidatesExhausted)),
            _ => None,
        }
    }
}

} // verus!
