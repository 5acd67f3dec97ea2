use vstd::prelude::*;
use vstd::utf8::encode_utf8;
use crate::candidates::{CandidateView, Failure, Location};
use crate::writer::{
    action_of, fail, first_ok_from, next, run, skipped_from, start, Action, Event, Phase, WriterView,
};

verus! {

/// The events of one attempt on a target: whether its parent directory
/// existed, whether creating it worked (asked only when it did not exist),
/// and whether the write worked (asked only once the directory is there).
pub open spec fn attempt_events(parent_exists: bool, created: bool, written: bool) -> Seq<Event> {
    if parent_exists {
        seq![Event::ParentExists(true), Event::Written(written)]
    } else if created {
        seq![Event::ParentExists(false), Event::ParentCreated(true), Event::Written(written)]
    } else {
        seq![Event::ParentExists(false), Event::ParentCreated(false)]
    }
}

/// Whether such an attempt saves the file.
pub open spec fn attempt_succeeds(parent_exists: bool, created: bool, written: bool) -> bool {
    (parent_exists || created) && written
}

/// The failure that such an attempt records when it does not save the file.
pub open spec fn attempt_failure(parent_exists: bool, created: bool, written: bool) -> Failure {
    if parent_exists || created {
        Failure::WriteFailed
    } else {
        Failure::DirectoryCreateFailed
    }
}

proof fn lemma_run_concat(v: WriterView, a: Seq<Event>, b: Seq<Event>)
    ensures
        run(v, a + b) == run(run(v, a), b),
    decreases a.len(),
{
    if a.len() > 0 {
        assert((a + b).subrange(1, (a + b).len() as int) =~= a.subrange(1, a.len() as int) + b);
        assert((a + b)[0] == a[0]);
        lemma_run_concat(next(v, a[0]), a.subrange(1, a.len() as int), b);
    } else {
        assert(a + b =~= b);
    }
}

proof fn lemma_run_two(v: WriterView, e0: Event, e1: Event)
    ensures
        run(v, seq![e0, e1]) == next(next(v, e0), e1),
{
    let s = seq![e0, e1];
    assert(s.subrange(1, 2) =~= seq![e1]);
    assert(seq![e1].subrange(1, 1) =~= Seq::<Event>::empty());
    reveal_with_fuel(run, 3);
}

proof fn lemma_run_three(v: WriterView, e0: Event, e1: Event, e2: Event)
    ensures
        run(v, seq![e0, e1, e2]) == next(next(next(v, e0), e1), e2),
{
    let s = seq![e0, e1, e2];
    assert(s.subrange(1, 3) =~= seq![e1, e2]);
    lemma_run_two(next(v, e0), e1, e2);
}

/// One attempt on a target whose parent directory is being checked either
/// saves the file there or records its failure and moves on.
pub proof fn lemma_attempt(v: WriterView, parent_exists: bool, created: bool, written: bool)
    requires
        v.phase == Phase::Check,
    ensures
        run(v, attempt_events(parent_exists, created, written)) == if attempt_succeeds(
            parent_exists,
            created,
            written,
        ) {
            WriterView { phase: Phase::Saved, ..v }
        } else {
            fail(v, attempt_failure(parent_exists, created, written))
        },
{
    if parent_exists {
        lemma_run_two(v, Event::ParentExists(true), Event::Written(written));
    } else if created {
        lemma_run_three(
            v,
            Event::ParentExists(false),
            Event::ParentCreated(true),
            Event::Written(written),
        );
    } else {
        lemma_run_two(v, Event::ParentExists(false), Event::ParentCreated(false));
    }
}

/// When the working directory is known and the attempt there succeeds, the
/// file is saved there first, with the content exactly as given.
pub proof fn law_working_dir_first(
    filename: Seq<char>,
    content: Seq<u8>,
    cwd: Seq<char>,
    home: Option<Seq<char>>,
    parent_exists: bool,
    created: bool,
    written: bool,
)
    requires
        attempt_succeeds(parent_exists, created, written),
    ensures
        action_of(start(filename, content, Some(cwd), home)) == Action::CheckParent(0),
        ({
            let w = run(
                start(filename, content, Some(cwd), home),
                attempt_events(parent_exists, created, written),
            );
            &&& w.phase == Phase::Saved
            &&& w.index == 0
            &&& w.targets[0] == Ok::<CandidateView, Failure>(
                CandidateView { location: Location::WorkingDir, root: cwd, filename },
            )
            &&& w.content == content
            &&& action_of(w) == Action::Saved(0)
        }),
{
    let s = start(filename, content, Some(cwd), home);
    reveal_with_fuel(first_ok_from, 2);
    reveal_with_fuel(skipped_from, 2);
    assert(s.phase == Phase::Check);
    lemma_attempt(s, parent_exists, created, written);
}

/// When the working directory fails (or is unknown) and the Desktop attempt
/// succeeds, the file is saved under Desktop and not in the working directory.
pub proof fn law_desktop_second(
    filename: Seq<char>,
    content: Seq<u8>,
    cwd: Option<Seq<char>>,
    home: Seq<char>,
    exists0: bool,
    created0: bool,
    written0: bool,
    exists1: bool,
    created1: bool,
    written1: bool,
)
    requires
        !attempt_succeeds(exists0, created0, written0),
        attempt_succeeds(exists1, created1, written1),
    ensures
        ({
            let first = if cwd is Some {
                attempt_events(exists0, created0, written0)
            } else {
                seq![]
            };
            let w = run(
                start(filename, content, cwd, Some(home)),
                first + attempt_events(exists1, created1, written1),
            );
            &&& w.phase == Phase::Saved
            &&& w.index == 1
            &&& w.targets[1] == Ok::<CandidateView, Failure>(
                CandidateView { location: Location::Desktop, root: home, filename },
            )
            &&& w.content == content
            &&& action_of(w) == Action::Saved(1)
        }),
{
    let s = start(filename, content, cwd, Some(home));
    reveal_with_fuel(first_ok_from, 3);
    reveal_with_fuel(skipped_from, 3);
    let first = if cwd is Some {
        attempt_events(exists0, created0, written0)
    } else {
        seq![]
    };
    let second = attempt_events(exists1, created1, written1);
    lemma_run_concat(s, first, second);
    let m = run(s, first);
    if cwd is Some {
        lemma_attempt(s, exists0, created0, written0);
    } else {
        assert(m == s);
    }
    assert(m.phase == Phase::Check && m.index == 1);
    lemma_attempt(m, exists1, created1, written1);
}

/// When every target is known and every attempt fails, the save ends in the
/// single aggregate failure, having recorded each target's failure in order.
pub proof fn law_all_fail(
    filename: Seq<char>,
    content: Seq<u8>,
    cwd: Seq<char>,
    home: Seq<char>,
    exists0: bool,
    created0: bool,
    written0: bool,
    exists1: bool,
    created1: bool,
    written1: bool,
    exists2: bool,
    created2: bool,
    written2: bool,
)
    requires
        !attempt_succeeds(exists0, created0, written0),
        !attempt_succeeds(exists1, created1, written1),
        !attempt_succeeds(exists2, created2, written2),
    ensures
        ({
            let w = run(
                start(filename, content, Some(cwd), Some(home)),
                attempt_events(exists0, created0, written0) + attempt_events(
                    exists1,
                    created1,
                    written1,
                ) + attempt_events(exists2, created2, written2),
            );
            &&& w.phase == Phase::Exhausted
            &&& action_of(w) == Action::Exhausted
            &&& w.failures == seq![
                attempt_failure(exists0, created0, written0),
                attempt_failure(exists1, created1, written1),
                attempt_failure(exists2, created2, written2),
            ]
        }),
{
    let s = start(filename, content, Some(cwd), Some(home));
    reveal_with_fuel(first_ok_from, 3);
    reveal_with_fuel(skipped_from, 3);
    let e0 = attempt_events(exists0, created0, written0);
    let e1 = attempt_events(exists1, created1, written1);
    let e2 = attempt_events(exists2, created2, written2);
    lemma_run_concat(s, e0 + e1, e2);
    lemma_run_concat(s, e0, e1);
    lemma_attempt(s, exists0, created0, written0);
    let m0 = run(s, e0);
    assert(m0.phase == Phase::Check && m0.index == 1);
    lemma_attempt(m0, exists1, created1, written1);
    let m1 = run(m0, e1);
    assert(m1.phase == Phase::Check && m1.index == 2);
    lemma_attempt(m1, exists2, created2, written2);
    let w = run(m1, e2);
    assert(w.failures =~= seq![
        attempt_failure(exists0, created0, written0),
        attempt_failure(exists1, created1, written1),
        attempt_failure(exists2, created2, written2),
    ]);
}

/// Without a home directory the working directory is still tried, and may
/// still take the file; only Desktop and Downloads are skipped, each recorded
/// as an unresolved home directory.
pub proof fn law_no_home(
    filename: Seq<char>,
    content: Seq<u8>,
    cwd: Seq<char>,
    parent_exists: bool,
    created: bool,
    written: bool,
)
    ensures
        ({
            let s = start(filename, content, Some(cwd), None);
            let w = run(s, attempt_events(parent_exists, created, written));
            &&& action_of(s) == Action::CheckParent(0)
            &&& s.targets[1] == Err::<CandidateView, Failure>(Failure::HomeDirectoryUnresolved)
            &&& s.targets[2] == Err::<CandidateView, Failure>(Failure::HomeDirectoryUnresolved)
            &&& attempt_succeeds(parent_exists, created, written) ==> w.phase == Phase::Saved
                && w.index == 0
            &&& !attempt_succeeds(parent_exists, created, written) ==> w.phase
                == Phase::Exhausted && w.failures == seq![
                attempt_failure(parent_exists, created, written),
                Failure::HomeDirectoryUnresolved,
                Failure::HomeDirectoryUnresolved,
            ]
        }),
{
    let s = start(filename, content, Some(cwd), None);
    reveal_with_fuel(first_ok_from, 4);
    reveal_with_fuel(skipped_from, 4);
    assert(s.phase == Phase::Check && s.index == 0);
    lemma_attempt(s, parent_exists, created, written);
    let w = run(s, attempt_events(parent_exists, created, written));
    if !attempt_succeeds(parent_exists, created, written) {
        assert(w.failures =~= seq![
            attempt_failure(parent_exists, created, written),
            Failure::HomeDirectoryUnresolved,
            Failure::HomeDirectoryUnresolved,
        ]);
    }
}

/// Saving text is saving its UTF-8 bytes: for the same outcomes the two
/// saves act alike and hand the same bytes to the write.
pub proof fn law_text_is_bytes(
    filename: Seq<char>,
    text: Seq<char>,
    bytes: Seq<u8>,
    cwd: Option<Seq<char>>,
    home: Option<Seq<char>>,
    events: Seq<Event>,
)
    requires
        bytes == encode_utf8(text),
    ensures
        run(start(filename, encode_utf8(text), cwd, home), events) == run(
            start(filename, bytes, cwd, home),
            events,
        ),
{
}

/// The same state with other content.
pub open spec fn with_content(v: WriterView, c: Seq<u8>) -> WriterView {
    WriterView { content: c, ..v }
}

proof fn lemma_run_ignores_content(v: WriterView, c: Seq<u8>, events: Seq<Event>)
    ensures
        run(with_content(v, c), events) == with_content(run(v, events), c),
    decreases events.len(),
{
    if events.len() > 0 {
        let e = events[0];
        assert(next(with_content(v, c), e) == with_content(next(v, e), c));
        lemma_run_ignores_content(next(v, e), c, events.subrange(1, events.len() as int));
    }
}

/// Saving twice under one filename with the same outcomes reaches the same
/// target, so the second save overwrites the first: what it writes is its
/// own content.
pub proof fn law_second_save_overwrites(
    filename: Seq<char>,
    first: Seq<u8>,
    second: Seq<u8>,
    cwd: Option<Seq<char>>,
    home: Option<Seq<char>>,
    events: Seq<Event>,
)
    ensures
        ({
            let w1 = run(start(filename, first, cwd, home), events);
            let w2 = run(start(filename, second, cwd, home), events);
            &&& w1.targets == w2.targets
            &&& w1.index == w2.index
            &&& w1.phase == w2.phase
            &&& w1.failures == w2.failures
            &&& action_of(w1) == action_of(w2)
            &&& w2.content == second
        }),
{
    let s1 = start(filename, first, cwd, home);
    assert(start(filename, second, cwd, home) == with_content(s1, second));
    lemma_run_ignores_content(s1, second, events);
}

} // verus!
