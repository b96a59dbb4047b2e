//! What holds of an edit whatever the outside world answers.
use crate::haproxy::edit::{ActionView, ConfigEditView, EventView, StageView};
use crate::haproxy::config::ConfigErrorView;
use crate::haproxy::laws;
use vstd::prelude::*;

verus! {

/// An edit after a run of events.
pub open spec fn run(edit: ConfigEditView, events: Seq<EventView>) -> ConfigEditView
    decreases events.len(),
{
    if events.len() == 0 {
        edit
    } else {
        run(edit, events.drop_last()).after(events.last())
    }
}

/// Whether the file was read in a run of events, and held this text.
pub open spec fn was_read(events: Seq<EventView>, content: Seq<char>) -> bool {
    events.contains(EventView::Read(Ok(content)))
}

/// What an edit has seen by the time it reaches a stage.
spec fn seen(start: ConfigEditView, events: Seq<EventView>) -> bool {
    let now = run(start, events);
    &&& now.service == start.service
    &&& now.domain == start.domain
    &&& match now.stage {
        StageView::Reading => true,
        StageView::Writing { before, after } => was_read(events, before) && start.change(before)
            == Some(Ok::<Seq<char>, ConfigErrorView>(after)),
        StageView::Validating { before } => was_read(events, before) && start.change(before)
            is Some && events.contains(EventView::Wrote(Ok(()))),
        StageView::Restoring { before, cause } => was_read(events, before) && start.change(before)
            is Some && events.contains(EventView::Validated(Err(cause))),
        StageView::Reloading => events.contains(EventView::Wrote(Ok(()))) && events.contains(
            EventView::Validated(Ok(())),
        ),
        StageView::Settling => events.contains(EventView::Wrote(Ok(()))) && events.contains(
            EventView::Validated(Ok(())),
        ) && events.contains(EventView::Reloaded(Ok(()))),
        StageView::Done(Ok(_)) => {
            ||| exists|content: Seq<char>|
                #[trigger] was_read(events, content) && start.change(content) is None
            ||| events.contains(EventView::Wrote(Ok(()))) && events.contains(
                EventView::Validated(Ok(())),
            ) && events.contains(EventView::Reloaded(Ok(()))) && events.contains(EventView::Slept)
        },
        StageView::Done(Err(_)) => true,
    }
}

proof fn lemma_seen(start: ConfigEditView, events: Seq<EventView>)
    requires
        start.stage is Reading,
    ensures
        seen(start, events),
    decreases events.len(),
{
    if events.len() > 0 {
        let before = events.drop_last();
        let event = events.last();
        lemma_seen(start, before);
        assert forall|e: EventView| before.contains(e) implies #[trigger] events.contains(e) by {
            let i = choose|i: int| 0 <= i < before.len() && before[i] == e;
            assert(events[i] == e);
        }
        assert(events[events.len() - 1] == event);
        assert(events.contains(event));
        assert forall|content: Seq<char>| was_read(before, content) implies #[trigger] was_read(
            events,
            content,
        ) by {}
        let was = run(start, before);
        let now = run(start, events);
        assert(now == was.after(event));
        match (was.stage, event) {
            (StageView::Reading, EventView::Read(Ok(content))) => {
                assert(was_read(events, content));
                assert(was.change(content) == start.change(content));
            },
            (_, EventView::Wrote(Ok(unit))) => {
                assert(unit == ());
                assert(event == EventView::Wrote(Ok(())));
            },
            (_, EventView::Validated(Ok(unit))) => {
                assert(unit == ());
                assert(event == EventView::Validated(Ok(())));
            },
            (_, EventView::Reloaded(Ok(unit))) => {
                assert(unit == ());
                assert(event == EventView::Reloaded(Ok(())));
            },
            _ => {},
        }
        if was.stage is Done {
            if exists|content: Seq<char>|
                #[trigger] was_read(before, content) && start.change(content) is None {
                let content = choose|content: Seq<char>|
                    #[trigger] was_read(before, content) && start.change(content) is None;
                assert(was_read(events, content));
            }
        }
    }
}

/// Whatever happens, only two texts are ever written: what the file is to hold,
/// and what it held.
pub proof fn only_old_or_new_text_is_written(
    start: ConfigEditView,
    events: Seq<EventView>,
    written: Seq<char>,
)
    requires
        start.stage is Reading,
        run(start, events).action() == ActionView::Write(written),
    ensures
        exists|content: Seq<char>| #[trigger]
            was_read(events, content) && (written == content || start.change(content) == Some(
                Ok::<Seq<char>, ConfigErrorView>(written),
            )),
{
    lemma_seen(start, events);
}

/// HAProxy is told to reload only after it accepted a text that was written.
pub proof fn reload_follows_validation(start: ConfigEditView, events: Seq<EventView>)
    requires
        start.stage is Reading,
        run(start, events).action() is Reload,
    ensures
        events.contains(EventView::Wrote(Ok(()))),
        events.contains(EventView::Validated(Ok(()))),
{
    lemma_seen(start, events);
}

/// An edit succeeds only where the file was as it should be, or where the new text
/// was written, accepted, loaded and given its time to settle.
pub proof fn success_is_earned(start: ConfigEditView, events: Seq<EventView>)
    requires
        start.stage is Reading,
        run(start, events).stage == StageView::Done(Ok(())),
    ensures
        (exists|content: Seq<char>| #[trigger]
            was_read(events, content) && start.change(content) is None) || (events.contains(
            EventView::Wrote(Ok(())),
        ) && events.contains(EventView::Validated(Ok(()))) && events.contains(
            EventView::Reloaded(Ok(())),
        ) && events.contains(EventView::Slept)),
{
    lemma_seen(start, events);
}

/// A text that HAProxy rejects is replaced by the one from before, and the edit
/// fails with the reason for the rejection.
pub proof fn rejected_text_is_replaced(
    start: ConfigEditView,
    content: Seq<char>,
    after: Seq<char>,
    cause: ConfigErrorView,
)
    requires
        start.stage is Reading,
        start.change(content) == Some(Ok::<Seq<char>, ConfigErrorView>(after)),
    ensures
        ({
            let events = seq![
                EventView::Read(Ok(content)),
                EventView::Wrote(Ok(())),
                EventView::Validated(Err(cause)),
            ];
            &&& run(start, events).action() == ActionView::Write(content)
            &&& run(start, events.push(EventView::Wrote(Ok(())))).stage == StageView::Done(
                Err(cause),
            )
        }),
{
    let events = seq![
        EventView::Read(Ok(content)),
        EventView::Wrote(Ok(())),
        EventView::Validated(Err(cause)),
    ];
    assert(events.push(EventView::Wrote(Ok(()))).drop_last() =~= events);
    assert(events.drop_last() =~= seq![EventView::Read(Ok(content)), EventView::Wrote(Ok(()))]);
    assert(events.drop_last().drop_last() =~= seq![EventView::Read(Ok(content))]);
    assert(events.drop_last().drop_last().drop_last() =~= Seq::empty());
    reveal_with_fuel(run, 5);
}

/// Where the file is already as it should be, nothing is written.
pub proof fn nothing_to_do_writes_nothing(start: ConfigEditView, content: Seq<char>)
    requires
        start.stage is Reading,
        start.change(content) is None,
    ensures
        start.after(EventView::Read(Ok(content))).stage == StageView::Done(Ok(())),
{
}

/// Adding a service twice is adding it once: an edit finds nothing to do in the text
/// that it made.
pub proof fn adding_again_changes_nothing(
    edit: ConfigEditView,
    content: Seq<char>,
    after: Seq<char>,
)
    requires
        edit.domain is Some,
        laws::one_line(edit.service),
        edit.change(content) == Some(Ok::<Seq<char>, ConfigErrorView>(after)),
    ensures
        edit.change(after) is None,
{
    laws::added_service_exists(content, edit.service, edit.domain->0);
}

/// Removing a service twice is removing it once.
pub proof fn removing_again_changes_nothing(
    edit: ConfigEditView,
    content: Seq<char>,
    after: Seq<char>,
)
    requires
        edit.domain is None,
        edit.change(content) == Some(Ok::<Seq<char>, ConfigErrorView>(after)),
    ensures
        edit.change(after) is None,
{
    laws::removed_service_is_gone(content, edit.service);
}

} // verus!
