//! Whole runs: what the sink holds after a sequence of reports, and the laws
//! that hold of it.

use crate::entry::{EntryKind, SpecEntry};
use crate::framing::{opening_text, record_text, sentinel_line};
use crate::pattern::excludes;
use crate::pipeline::{initial_state, Failure, SpecAction, SpecEvent, SpecPhase, SpecSerializer};
use vstd::prelude::*;

verus! {

/// One record: the path it is written under and the contents of the file.
pub struct SpecRecord {
    pub path: Seq<char>,
    pub contents: Seq<char>,
}

/// The records of a stream written one after the other, in order.
pub open spec fn frames(records: Seq<SpecRecord>) -> Seq<char>
    decreases records.len(),
{
    if records.len() == 0 {
        Seq::empty()
    } else {
        frames(records.drop_last()) + record_text(records.last().path, records.last().contents)
    }
}

/// A run as seen from outside: the state of the machine, all the text it has
/// handed out for the sink, and the records among that text.
pub struct SpecRun {
    pub state: SpecSerializer,
    pub output: Seq<char>,
    pub records: Seq<SpecRecord>,
}

/// A run that has just been started: only the opening block is handed out.
pub open spec fn begin(ignore_list: Seq<Seq<char>>, preamble: Option<Seq<char>>) -> SpecRun {
    SpecRun {
        state: initial_state(ignore_list, preamble),
        output: opening_text(preamble),
        records: Seq::empty(),
    }
}

/// The run after one more report. A report that the machine refuses changes
/// nothing.
pub open spec fn after(run: SpecRun, event: SpecEvent) -> SpecRun {
    match run.state.transition(event) {
        None => run,
        Some(step) => SpecRun {
            state: step.state,
            output: match step.action {
                SpecAction::Write(text) => run.output + text,
                _ => run.output,
            },
            records: match (run.state.phase, event) {
                (SpecPhase::Reading { path }, SpecEvent::Contents(contents)) => run.records.push(
                    SpecRecord { path, contents },
                ),
                _ => run.records,
            },
        },
    }
}

/// The run after a sequence of reports, taken in order.
pub open spec fn replay(run: SpecRun, events: Seq<SpecEvent>) -> SpecRun
    decreases events.len(),
{
    if events.len() == 0 {
        run
    } else {
        after(replay(run, events.drop_last()), events.last())
    }
}

/// One stop of a walk: the entry found, and the text of the file where the
/// entry is one that is read.
pub struct Visit {
    pub entry: SpecEntry,
    pub contents: Seq<char>,
}

/// The record that a visit is written as.
pub open spec fn record_of(visit: Visit) -> SpecRecord {
    SpecRecord { path: visit.entry.relative_path().display, contents: visit.contents }
}

/// The visits of a walk that are written out under `ignore_list`: the
/// regular files that the list does not ignore, each once, in the order of
/// the walk.
pub open spec fn written(ignore_list: Seq<Seq<char>>, walk: Seq<Visit>) -> Seq<Visit> {
    walk.filter(|visit: Visit| visit.entry.is_candidate(ignore_list))
}

/// The regular files of a walk, each once, in the order of the walk.
pub open spec fn regular_files(walk: Seq<Visit>) -> Seq<Visit> {
    walk.filter(|visit: Visit| visit.entry.kind == EntryKind::File)
}

/// The records of a sequence of visits.
pub open spec fn records_of(visits: Seq<Visit>) -> Seq<SpecRecord> {
    visits.map_values(|visit: Visit| record_of(visit))
}

/// The reports that one visit causes when nothing fails: the entry, and for
/// an entry that is written out its text and the success of the write.
pub open spec fn visit_events(ignore_list: Seq<Seq<char>>, visit: Visit) -> Seq<SpecEvent> {
    if visit.entry.is_candidate(ignore_list) {
        seq![
            SpecEvent::Found(visit.entry),
            SpecEvent::Contents(visit.contents),
            SpecEvent::Written,
        ]
    } else {
        seq![SpecEvent::Found(visit.entry)]
    }
}

/// The reports that a walk causes when nothing fails, visit by visit.
pub open spec fn walk_events(ignore_list: Seq<Seq<char>>, walk: Seq<Visit>) -> Seq<SpecEvent>
    decreases walk.len(),
{
    if walk.len() == 0 {
        Seq::empty()
    } else {
        walk_events(ignore_list, walk.drop_last()) + visit_events(ignore_list, walk.last())
    }
}

/// All reports of a run over `walk` in which nothing fails: the opening block
/// is written, the walk is gone through, and the closing line is written.
pub open spec fn transcript(ignore_list: Seq<Seq<char>>, walk: Seq<Visit>) -> Seq<SpecEvent> {
    seq![SpecEvent::Written] + walk_events(ignore_list, walk) + seq![
        SpecEvent::Exhausted,
        SpecEvent::Written,
    ]
}

/// The whole text of a run over `walk` without a supplied preamble: the
/// default opening block, the records of the visits that are written out,
/// and the closing line.
pub open spec fn rendered(ignore_list: Seq<Seq<char>>, walk: Seq<Visit>) -> Seq<char> {
    opening_text(None) + frames(records_of(written(ignore_list, walk))) + sentinel_line()
}

/// Replaying one more report is one more step.
pub proof fn lemma_replay_push(run: SpecRun, events: Seq<SpecEvent>, event: SpecEvent)
    ensures
        replay(run, events.push(event)) == after(replay(run, events), event),
{
    assert(events.push(event).drop_last() =~= events);
}

/// Replaying two sequences of reports one after the other is replaying
/// their concatenation.
pub proof fn lemma_replay_concat(run: SpecRun, first: Seq<SpecEvent>, second: Seq<SpecEvent>)
    ensures
        replay(run, first + second) == replay(replay(run, first), second),
    decreases second.len(),
{
    if second.len() > 0 {
        lemma_replay_concat(run, first, second.drop_last());
        assert((first + second).drop_last() =~= first + second.drop_last());
    }
}

/// The visits written out of a walk with one more visit are those written
/// out so far, and the new one where it is a candidate.
pub proof fn lemma_written_push(ignore_list: Seq<Seq<char>>, walk: Seq<Visit>, visit: Visit)
    ensures
        written(ignore_list, walk.push(visit)) == if visit.entry.is_candidate(ignore_list) {
            written(ignore_list, walk).push(visit)
        } else {
            written(ignore_list, walk)
        },
{
    reveal(Seq::filter);
    assert(walk.push(visit).drop_last() =~= walk);
}

/// Framing one more record appends its text.
pub proof fn lemma_frames_push(records: Seq<SpecRecord>, record: SpecRecord)
    ensures
        frames(records.push(record)) == frames(records) + record_text(
            record.path,
            record.contents,
        ),
{
    assert(records.push(record).drop_last() =~= records);
}

/// After the opening block and the reports of a walk in which nothing
/// fails, the machine waits for the next entry and has handed out exactly
/// the records of the visits that are written out.
pub proof fn lemma_walk_replay(ignore_list: Seq<Seq<char>>, walk: Seq<Visit>)
    ensures
        replay(
            begin(ignore_list, None),
            seq![SpecEvent::Written] + walk_events(ignore_list, walk),
        ) == (SpecRun {
            state: initial_state(ignore_list, None).at(SpecPhase::Walking),
            output: opening_text(None) + frames(records_of(written(ignore_list, walk))),
            records: records_of(written(ignore_list, walk)),
        }),
    decreases walk.len(),
{
    let start = begin(ignore_list, None);
    let opened = seq![SpecEvent::Written];
    if walk.len() == 0 {
        reveal(Seq::filter);
        lemma_replay_push(start, Seq::empty(), SpecEvent::Written);
        assert(records_of(written(ignore_list, walk)) =~= Seq::<SpecRecord>::empty());
    } else {
        let before = walk.drop_last();
        let visit = walk.last();
        assert(walk =~= before.push(visit));
        lemma_walk_replay(ignore_list, before);
        lemma_written_push(ignore_list, before, visit);
        let head = opened + walk_events(ignore_list, before);
        let tail = visit_events(ignore_list, visit);
        assert(opened + walk_events(ignore_list, walk) =~= head + tail);
        lemma_replay_concat(start, head, tail);
        let reached = replay(start, head);
        let kept = records_of(written(ignore_list, before));
        if visit.entry.is_candidate(ignore_list) {
            let found = SpecEvent::Found(visit.entry);
            let read = SpecEvent::Contents(visit.contents);
            assert(tail =~= Seq::<SpecEvent>::empty().push(found).push(read).push(
                SpecEvent::Written,
            ));
            lemma_replay_push(reached, Seq::empty(), found);
            lemma_replay_push(reached, Seq::empty().push(found), read);
            lemma_replay_push(reached, Seq::empty().push(found).push(read), SpecEvent::Written);
            assert(records_of(written(ignore_list, before).push(visit)) =~= kept.push(
                record_of(visit),
            ));
            lemma_frames_push(kept, record_of(visit));
            assert(opening_text(None) + (frames(kept) + record_text(
                record_of(visit).path,
                record_of(visit).contents,
            )) =~= opening_text(None) + frames(kept) + record_text(
                record_of(visit).path,
                record_of(visit).contents,
            ));
        } else {
            let found = SpecEvent::Found(visit.entry);
            lemma_replay_push(reached, Seq::empty(), found);
        }
    }
}

/// A run in which nothing fails, over any walk and under any ignore list,
/// ends complete; its text is the default opening block, then one record
/// for each visit that is written out, in the order of the walk, then the
/// closing line.
pub proof fn lemma_run_renders_walk(ignore_list: Seq<Seq<char>>, walk: Seq<Visit>)
    ensures
        replay(begin(ignore_list, None), transcript(ignore_list, walk)) == (SpecRun {
            state: initial_state(ignore_list, None).at(SpecPhase::Done),
            output: rendered(ignore_list, walk),
            records: records_of(written(ignore_list, walk)),
        }),
{
    let start = begin(ignore_list, None);
    let head = seq![SpecEvent::Written] + walk_events(ignore_list, walk);
    lemma_walk_replay(ignore_list, walk);
    assert(transcript(ignore_list, walk) =~= head.push(SpecEvent::Exhausted).push(
        SpecEvent::Written,
    ));
    lemma_replay_push(start, head, SpecEvent::Exhausted);
    lemma_replay_push(start, head.push(SpecEvent::Exhausted), SpecEvent::Written);
}

/// Under the empty ignore list every regular file of the walk is written
/// out: the records of the run are those of the regular files, each once,
/// in the order in which the walk found them.
pub proof fn lemma_no_rules_writes_every_file(walk: Seq<Visit>)
    ensures
        written(Seq::empty(), walk) == regular_files(walk),
        replay(begin(Seq::empty(), None), transcript(Seq::empty(), walk)).records == records_of(
            regular_files(walk),
        ),
        replay(begin(Seq::empty(), None), transcript(Seq::empty(), walk)).output == opening_text(
            None,
        ) + frames(records_of(regular_files(walk))) + sentinel_line(),
{
    let none = Seq::<Seq<char>>::empty();
    let kept = |visit: Visit| visit.entry.is_candidate(none);
    let files = |visit: Visit| visit.entry.kind == EntryKind::File;
    assert forall|visit: Visit| #[trigger] kept(visit) == files(visit) by {}
    assert(kept =~= files);
    lemma_run_renders_walk(none, walk);
}

/// A visit is written out exactly when it is part of the walk and is a
/// regular file that no pattern of the list excludes. So a file that some
/// rule matches gets no record, and a file that no rule matches gets one.
pub proof fn lemma_written_are_the_candidates(ignore_list: Seq<Seq<char>>, walk: Seq<Visit>)
    ensures
        forall|visit: Visit| #[trigger]
            written(ignore_list, walk).contains(visit) <==> walk.contains(visit)
                && visit.entry.is_candidate(ignore_list),
{
    let kept = |visit: Visit| visit.entry.is_candidate(ignore_list);
    walk.filter_lemma(kept);
    assert forall|visit: Visit| #[trigger]
        written(ignore_list, walk).contains(visit) implies walk.contains(visit)
        && visit.entry.is_candidate(ignore_list) by {
        walk.lemma_filter_contains_rev(kept, visit);
    }
}

/// Under a list of one rule the visits written out are the regular files
/// whose relative path that rule does not exclude, in the order of the walk.
pub proof fn lemma_single_rule(rule: Seq<char>, walk: Seq<Visit>)
    ensures
        written(seq![rule], walk) == walk.filter(
            |visit: Visit|
                visit.entry.kind == EntryKind::File && !excludes(
                    rule,
                    visit.entry.relative_path().match_key(),
                ),
        ),
{
    let list = seq![rule];
    let kept = |visit: Visit| visit.entry.is_candidate(list);
    let passed = |visit: Visit|
        visit.entry.kind == EntryKind::File && !excludes(
            rule,
            visit.entry.relative_path().match_key(),
        );
    assert forall|visit: Visit| #[trigger] kept(visit) == passed(visit) by {
        let key = visit.entry.relative_path().match_key();
        if excludes(rule, key) {
            assert(excludes(list[0], key));
        }
    }
    assert(kept =~= passed);
}

/// One rule, two regular files: where the rule excludes the second and not
/// the first, the text of the run holds the record of the first and nothing
/// of the second.
pub proof fn lemma_matched_file_is_left_out(rule: Seq<char>, kept: Visit, left_out: Visit)
    requires
        kept.entry.kind == EntryKind::File,
        left_out.entry.kind == EntryKind::File,
        !excludes(rule, kept.entry.relative_path().match_key()),
        excludes(rule, left_out.entry.relative_path().match_key()),
    ensures
        rendered(seq![rule], seq![kept, left_out]) == opening_text(None) + record_text(
            kept.entry.relative_path().display,
            kept.contents,
        ) + sentinel_line(),
        rendered(seq![rule], seq![left_out, kept]) == rendered(seq![rule], seq![kept, left_out]),
{
    let list = seq![rule];
    let none = Seq::<Visit>::empty();
    assert(excludes(list[0], left_out.entry.relative_path().match_key()));
    assert(written(list, none) =~= none) by {
        reveal(Seq::filter);
    }
    lemma_written_push(list, none, kept);
    lemma_written_push(list, none.push(kept), left_out);
    lemma_written_push(list, none, left_out);
    lemma_written_push(list, none.push(left_out), kept);
    assert(seq![kept, left_out] =~= none.push(kept).push(left_out));
    assert(seq![left_out, kept] =~= none.push(left_out).push(kept));
    assert(records_of(none.push(kept)) =~= Seq::<SpecRecord>::empty().push(record_of(kept)));
    lemma_frames_push(Seq::empty(), record_of(kept));
}

/// A run is a function of its inputs: over the same walk and under the same
/// ignore list, two runs end in the same state with the same text.
pub proof fn lemma_same_inputs_same_output(
    first_list: Seq<Seq<char>>,
    second_list: Seq<Seq<char>>,
    first_walk: Seq<Visit>,
    second_walk: Seq<Visit>,
)
    requires
        first_list == second_list,
        first_walk == second_walk,
    ensures
        rendered(first_list, first_walk) == rendered(second_list, second_walk),
        replay(begin(first_list, None), transcript(first_list, first_walk)) == replay(
            begin(second_list, None),
            transcript(second_list, second_walk),
        ),
{
}

/// The text of a run without a supplied preamble that has not handed out
/// the closing line: the opening block and whole records, nothing else.
pub open spec fn open_text(run: SpecRun) -> Seq<char> {
    opening_text(None) + frames(run.records)
}

/// What a run without a supplied preamble has handed out, by phase.
///
/// - Until the walk has ended: the opening block and the records so far.
/// - Once the walk has ended: the same, and then the closing line.
/// - Given up on the walk or on reading a file: the opening block and the
///   whole records that came before the failure, and no closing line.
/// - Given up on the sink: all of the above up to and including the text
///   that the sink did not take, which may be the closing line.
pub open spec fn in_step(run: SpecRun) -> bool {
    match run.state.phase {
        SpecPhase::Opening { walk } => walk && run.output == open_text(run),
        SpecPhase::Walking | SpecPhase::Reading { .. } | SpecPhase::Writing => run.output
            == open_text(run),
        SpecPhase::Closing | SpecPhase::Done => run.output == open_text(run) + sentinel_line(),
        SpecPhase::Failed(Failure::Traversal) | SpecPhase::Failed(Failure::FileRead) => run.output
            == open_text(run),
        SpecPhase::Failed(Failure::OutputWrite) => run.output == open_text(run) || run.output
            == open_text(run) + sentinel_line(),
    }
}

/// One report keeps a run in step.
pub proof fn lemma_after_keeps_in_step(run: SpecRun, event: SpecEvent)
    requires
        in_step(run),
    ensures
        in_step(after(run, event)),
{
    match (run.state.phase, event) {
        (SpecPhase::Reading { path }, SpecEvent::Contents(contents)) => {
            let record = SpecRecord { path, contents };
            lemma_frames_push(run.records, record);
            assert(opening_text(None) + (frames(run.records) + record_text(path, contents))
                =~= opening_text(None) + frames(run.records) + record_text(path, contents));
        },
        _ => {},
    }
}

/// Whatever is reported, in whatever order, of a run without a supplied
/// preamble:
///
/// - a run that is complete has handed out the opening block, its records
///   and then the closing line, once and last, however many records there
///   are;
/// - a run that was given up because the walk failed or a file could not be
///   read has handed out the opening block and whole records only, and no
///   closing line.
pub proof fn lemma_complete_run_ends_with_sentinel(
    ignore_list: Seq<Seq<char>>,
    events: Seq<SpecEvent>,
)
    ensures
        ({
            let run = replay(begin(ignore_list, None), events);
            &&& in_step(run)
            &&& run.state.phase is Done ==> run.output == opening_text(None) + frames(run.records)
                + sentinel_line()
            &&& run.state.phase == SpecPhase::Failed(Failure::Traversal) || run.state.phase
                == SpecPhase::Failed(Failure::FileRead) ==> run.output == opening_text(None)
                + frames(run.records)
        }),
    decreases events.len(),
{
    if events.len() > 0 {
        lemma_complete_run_ends_with_sentinel(ignore_list, events.drop_last());
        lemma_after_keeps_in_step(
            replay(begin(ignore_list, None), events.drop_last()),
            events.last(),
        );
    }
}

/// Whatever is reported, in whatever order: a run with a supplied preamble
/// hands out that preamble as a line and nothing else. It walks nothing,
/// writes no record and no closing line.
pub proof fn lemma_preamble_run_writes_only_preamble(
    ignore_list: Seq<Seq<char>>,
    preamble: Seq<char>,
    events: Seq<SpecEvent>,
)
    ensures
        ({
            let run = replay(begin(ignore_list, Some(preamble)), events);
            &&& run.output == opening_text(Some(preamble))
            &&& run.records.len() == 0
            &&& run.state.phase == (SpecPhase::Opening { walk: false }) || run.state.phase
                is Done || run.state.phase == SpecPhase::Failed(Failure::OutputWrite)
        }),
    decreases events.len(),
{
    if events.len() > 0 {
        lemma_preamble_run_writes_only_preamble(ignore_list, preamble, events.drop_last());
    }
}

/// The ignore list of a run never changes.
pub proof fn lemma_ignore_list_is_fixed(run: SpecRun, events: Seq<SpecEvent>)
    ensures
        replay(run, events).state.ignore_list == run.state.ignore_list,
    decreases events.len(),
{
    if events.len() > 0 {
        lemma_ignore_list_is_fixed(run, events.drop_last());
    }
}

} // verus!
