//! What holds of sessions, channels and coordinators whatever happens to
//! them, proved from the definitions of their steps.

use vstd::prelude::*;
use crate::channel::{
    after_receive, after_reports, channel_run, channel_step, drained, emitted, is_terminal,
    item_of, live, valid, ChannelOp, ChannelView, IncomingView, StreamItemView,
};
use crate::conversation::{extend_at, shows, well_formed};
use crate::coordinator::{
    advance, coherent, proceed, refusal, start, Command, CoordinatorView,
};
use crate::message::{MessageView, Origin, user_message};
use crate::session::{accepts, consistent, initial, run, step, Event, Phase, SessionView};

verus! {

/// The transcript `later` continues `earlier`: it has the messages of
/// `earlier` in the same places, each of the same origin and with a text
/// that starts with the text it had; a message that was frozen is unchanged,
/// and no message has been reopened.
pub open spec fn continues(later: Seq<MessageView>, earlier: Seq<MessageView>) -> bool {
    &&& earlier.len() <= later.len()
    &&& forall|i: int|
        0 <= i < earlier.len() ==> {
            &&& (#[trigger] later[i]).origin == earlier[i].origin
            &&& earlier[i].text.is_prefix_of(later[i].text)
            &&& !earlier[i].open ==> later[i] == earlier[i]
        }
}

/// The events by which an answer arrives: its fragments in order, then the
/// marker that ends the stream.
pub open spec fn answer(fragments: Seq<Seq<char>>, marker: StreamItemView) -> Seq<Event> {
    fragments.map_values(|f: Seq<char>| Event::Item(StreamItemView::Fragment(f))).push(
        Event::Item(marker),
    )
}

/// In a well-formed transcript at most one message is open, and it is the
/// last message and an assistant's.
pub proof fn lemma_open_message_is_last(t: Seq<MessageView>, i: int, j: int)
    requires
        well_formed(t),
        0 <= i < t.len(),
        0 <= j < t.len(),
        t[i].open,
        t[j].open,
    ensures
        i == j,
        i == t.len() - 1,
        t[i].origin == Origin::Assistant,
{
}

/// An event that the session does not take leaves the session as it is. In
/// particular a prompt submitted while a send is pending changes nothing.
pub proof fn lemma_refused_event_changes_nothing(s: SessionView, e: Event)
    requires
        !accepts(s, e),
    ensures
        step(s, e) == s,
{
}

/// Every event leaves a session in order.
pub proof fn lemma_step_keeps_consistent(s: SessionView, e: Event)
    requires
        consistent(s),
    ensures
        consistent(step(s, e)),
{
}

/// Every run of events leaves a session in order.
pub proof fn lemma_run_keeps_consistent(s: SessionView, events: Seq<Event>)
    requires
        consistent(s),
    ensures
        consistent(run(s, events)),
    decreases events.len(),
{
    if events.len() > 0 {
        lemma_run_keeps_consistent(s, events.drop_last());
        lemma_step_keeps_consistent(run(s, events.drop_last()), events.last());
    }
}

/// Whatever run of events a new session has taken, at most one message of
/// its transcript is open: no two answers are ever written at once.
pub proof fn lemma_at_most_one_open(events: Seq<Event>, i: int, j: int)
    requires
        0 <= i < run(initial(), events).transcript.len(),
        0 <= j < run(initial(), events).transcript.len(),
        run(initial(), events).transcript[i].open,
        run(initial(), events).transcript[j].open,
    ensures
        i == j,
{
    lemma_run_keeps_consistent(initial(), events);
}

/// Whatever run of events a new session has taken, every user message of
/// its transcript is followed at once by an assistant message, its answer,
/// and by no second one: what follows the answer, if anything, is the next
/// user message.
pub proof fn lemma_every_prompt_has_its_answer(events: Seq<Event>, i: int)
    requires
        0 <= i < run(initial(), events).transcript.len(),
        run(initial(), events).transcript[i].origin == Origin::User,
    ensures
        i + 1 < run(initial(), events).transcript.len(),
        run(initial(), events).transcript[i + 1].origin == Origin::Assistant,
        i + 2 < run(initial(), events).transcript.len() ==> run(
            initial(),
            events,
        ).transcript[i + 2].origin == Origin::User,
{
    lemma_run_keeps_consistent(initial(), events);
    let t = run(initial(), events).transcript;
    assert(t[t.len() - 1].origin == Origin::Assistant);
}

/// An event only adds to the transcript: messages keep their place and
/// origin, text is added at the end of a message and never taken away or
/// rewritten, and a frozen message stays as it is.
pub proof fn lemma_step_continues_transcript(s: SessionView, e: Event)
    requires
        consistent(s),
    ensures
        continues(step(s, e).transcript, s.transcript),
{
}

/// A run of events only adds to the transcript.
pub proof fn lemma_run_continues_transcript(s: SessionView, events: Seq<Event>)
    requires
        consistent(s),
    ensures
        continues(run(s, events).transcript, s.transcript),
    decreases events.len(),
{
    if events.len() > 0 {
        lemma_run_continues_transcript(s, events.drop_last());
        lemma_run_keeps_consistent(s, events.drop_last());
        lemma_step_continues_transcript(run(s, events.drop_last()), events.last());
    }
}

/// Fragments that arrive while a send is pending, followed by either marker
/// of the stream's end, leave the answer frozen with the text it had before,
/// followed by the fragments joined in order with nothing between them. No
/// other message changes, and the session is idle.
pub proof fn lemma_answer_is_concatenation(
    s: SessionView,
    fragments: Seq<Seq<char>>,
    marker: StreamItemView,
)
    requires
        consistent(s),
        s.phase != Phase::Idle,
        is_terminal(marker),
    ensures
        run(s, answer(fragments, marker)).phase == Phase::Idle,
        run(s, answer(fragments, marker)).transcript == s.transcript.update(
            s.transcript.len() - 1,
            MessageView {
                origin: Origin::Assistant,
                text: s.transcript.last().text + fragments.flatten(),
                open: false,
            },
        ),
{
    let pieces = fragments.map_values(|f: Seq<char>| Event::Item(StreamItemView::Fragment(f)));
    assert(answer(fragments, marker).drop_last() =~= pieces);
    lemma_fragments_accumulate(s, fragments);
}

/// Fragments that arrive while a send is pending are added to the answer in
/// order, and the answer stays open.
pub proof fn lemma_fragments_accumulate(s: SessionView, fragments: Seq<Seq<char>>)
    requires
        consistent(s),
        s.phase != Phase::Idle,
    ensures
        run(
            s,
            fragments.map_values(|f: Seq<char>| Event::Item(StreamItemView::Fragment(f))),
        ).phase != Phase::Idle,
        run(
            s,
            fragments.map_values(|f: Seq<char>| Event::Item(StreamItemView::Fragment(f))),
        ).transcript == extend_at(s.transcript, s.transcript.len() - 1, fragments.flatten()),
    decreases fragments.len(),
{
    if fragments.len() > 0 {
        let wrap = |f: Seq<char>| Event::Item(StreamItemView::Fragment(f));
        let shorter = fragments.drop_last();
        let had = s.transcript.last().text;
        lemma_fragments_accumulate(s, shorter);
        assert(fragments.map_values(wrap).drop_last() =~= shorter.map_values(wrap));
        assert(fragments =~= shorter.push(fragments.last()));
        shorter.lemma_flatten_push(fragments.last());
        assert((had + shorter.flatten()) + fragments.last() =~= had + (shorter.flatten()
            + fragments.last()));
    }
}

/// A prompt submitted to an idle session, answered by fragments and either
/// marker of the stream's end, adds exactly two messages: the user's, and
/// the frozen answer whose text is the fragments joined in order. The
/// session is idle again, so the next prompt is taken at once.
pub proof fn lemma_exchange(
    s: SessionView,
    prompt: Seq<char>,
    fragments: Seq<Seq<char>>,
    marker: StreamItemView,
    next: Seq<char>,
)
    requires
        consistent(s),
        s.phase == Phase::Idle,
        is_terminal(marker),
    ensures
        run(step(s, Event::Submit(prompt)), answer(fragments, marker)).phase == Phase::Idle,
        run(step(s, Event::Submit(prompt)), answer(fragments, marker)).transcript
            == s.transcript.push(user_message(prompt)).push(
            MessageView { origin: Origin::Assistant, text: fragments.flatten(), open: false },
        ),
        accepts(
            run(step(s, Event::Submit(prompt)), answer(fragments, marker)),
            Event::Submit(next),
        ),
{
    lemma_step_keeps_consistent(s, Event::Submit(prompt));
    lemma_answer_is_concatenation(step(s, Event::Submit(prompt)), fragments, marker);
}

/// Every operation leaves a channel in order.
pub proof fn lemma_channel_step_keeps_valid(c: ChannelView, op: ChannelOp)
    requires
        valid(c),
    ensures
        valid(channel_step(c, op)),
{
}

/// A connection whose handle is not live, and is not of a connection still
/// to come, never becomes live again: the next connection that is ready has
/// a handle of its own.
pub proof fn lemma_spent_handle_stays_spent(c: ChannelView, handle: nat, ops: Seq<ChannelOp>)
    requires
        valid(c),
        handle <= c.serial,
        !live(c, handle),
    ensures
        valid(channel_run(c, ops)),
        handle <= channel_run(c, ops).serial,
        !live(channel_run(c, ops), handle),
    decreases ops.len(),
{
    if ops.len() > 0 {
        lemma_spent_handle_stays_spent(c, handle, ops.drop_last());
    }
}

/// Once the channel has handed on the marker that ends a connection's
/// stream, it hands on nothing more for that connection, whatever happens to
/// the channel afterwards.
pub proof fn lemma_nothing_follows_the_marker(
    c: ChannelView,
    handle: nat,
    event: IncomingView,
    ops: Seq<ChannelOp>,
    later: IncomingView,
)
    requires
        valid(c),
        live(c, handle),
        is_terminal(item_of(event)),
    ensures
        emitted(c, handle, event) == Some(item_of(event)),
        emitted(channel_run(after_receive(c, handle, event), ops), handle, later) is None,
{
    lemma_spent_handle_stays_spent(after_receive(c, handle, event), handle, ops);
}

/// While only text is reported on a live connection, the channel hands on
/// each report as a fragment, in the order of the reports, and the
/// connection stays live.
pub proof fn lemma_text_is_handed_on_in_order(
    c: ChannelView,
    handle: nat,
    events: Seq<IncomingView>,
)
    requires
        valid(c),
        live(c, handle),
        forall|i: int| 0 <= i < events.len() ==> !is_terminal(item_of(#[trigger] events[i])),
    ensures
        after_reports(c, handle, events) == c,
        drained(c, handle, events) == events.map_values(|e: IncomingView| item_of(e)),
    decreases events.len(),
{
    if events.len() > 0 {
        lemma_text_is_handed_on_in_order(c, handle, events.drop_last());
    }
}

/// Of a run of reports on a live connection the channel hands on, in order,
/// every report up to and including the first that ends the stream, and
/// none of those behind it.
pub proof fn lemma_stream_stops_at_first_marker(
    c: ChannelView,
    handle: nat,
    events: Seq<IncomingView>,
    first: int,
)
    requires
        valid(c),
        live(c, handle),
        0 <= first < events.len(),
        is_terminal(item_of(events[first])),
        forall|i: int| 0 <= i < first ==> !is_terminal(item_of(#[trigger] events[i])),
    ensures
        !live(after_reports(c, handle, events), handle),
        drained(c, handle, events) == events.take(first + 1).map_values(
            |e: IncomingView| item_of(e),
        ),
    decreases events.len(),
{
    if first == events.len() - 1 {
        lemma_text_is_handed_on_in_order(c, handle, events.drop_last());
    } else {
        lemma_stream_stops_at_first_marker(c, handle, events.drop_last(), first);
    }
}

/// Every command leaves a coordinator in order. In particular a send is
/// never left pending on a connection that is gone.
pub proof fn lemma_advance_keeps_coherent(v: CoordinatorView, command: Command)
    requires
        coherent(v),
    ensures
        coherent(advance(v, command)),
{
    match command {
        Command::Submit(text) => {
            lemma_step_keeps_consistent(v.session, Event::Submit(text));
        },
        Command::Transmitted(_) => {
            lemma_step_keeps_consistent(v.session, Event::Acknowledged);
        },
        Command::TransmitFailed(handle) => {
            if live(v.channel, handle) {
                lemma_step_keeps_consistent(
                    v.session,
                    Event::Item(item_of(IncomingView::Failed)),
                );
            }
        },
        Command::Receive(handle, event) => {
            if live(v.channel, handle) {
                lemma_step_keeps_consistent(v.session, Event::Item(item_of(event)));
            }
        },
        Command::Reset => {
            lemma_step_keeps_consistent(v.session, Event::Reset);
        },
        _ => {},
    }
}

/// Every run of commands leaves a coordinator in order.
pub proof fn lemma_proceed_keeps_coherent(v: CoordinatorView, commands: Seq<Command>)
    requires
        coherent(v),
    ensures
        coherent(proceed(v, commands)),
    decreases commands.len(),
{
    if commands.len() > 0 {
        lemma_proceed_keeps_coherent(v, commands.drop_last());
        lemma_advance_keeps_coherent(proceed(v, commands.drop_last()), commands.last());
    }
}

/// Whatever commands a new coordinator has been given, at most one message
/// of its transcript is open.
pub proof fn lemma_single_writer(commands: Seq<Command>, i: int, j: int)
    requires
        0 <= i < proceed(start(), commands).session.transcript.len(),
        0 <= j < proceed(start(), commands).session.transcript.len(),
        proceed(start(), commands).session.transcript[i].open,
        proceed(start(), commands).session.transcript[j].open,
    ensures
        i == j,
{
    lemma_proceed_keeps_coherent(start(), commands);
}

/// A prompt that the coordinator does not take changes nothing, neither in
/// the transcript nor in the state of session and connection.
pub proof fn lemma_refused_prompt_changes_nothing(v: CoordinatorView, text: Seq<char>)
    requires
        refusal(v) is Some,
    ensures
        advance(v, Command::Submit(text)) == v,
{
}

/// A command only adds to the transcript, see [`continues`].
pub proof fn lemma_advance_continues_transcript(v: CoordinatorView, command: Command)
    requires
        coherent(v),
    ensures
        continues(advance(v, command).session.transcript, v.session.transcript),
{
    match command {
        Command::Submit(text) => {
            lemma_step_continues_transcript(v.session, Event::Submit(text));
        },
        Command::Transmitted(_) => {
            lemma_step_continues_transcript(v.session, Event::Acknowledged);
        },
        Command::TransmitFailed(handle) => {
            if live(v.channel, handle) {
                lemma_step_continues_transcript(
                    v.session,
                    Event::Item(item_of(IncomingView::Failed)),
                );
            }
        },
        Command::Receive(handle, event) => {
            if live(v.channel, handle) {
                lemma_step_continues_transcript(v.session, Event::Item(item_of(event)));
            }
        },
        Command::Reset => {
            lemma_step_continues_transcript(v.session, Event::Reset);
        },
        _ => {},
    }
}

/// The commands by which an answer arrives on the connection `handle`: the
/// reports of its fragments in order, then the report that ends the stream.
pub open spec fn reports(handle: nat, fragments: Seq<Seq<char>>, closing: IncomingView) -> Seq<
    Command,
> {
    fragments.map_values(|f: Seq<char>| Command::Receive(handle, IncomingView::Text(f))).push(
        Command::Receive(handle, closing),
    )
}

/// While a send is pending on the live connection `handle`, reports of text
/// on it reach the session as fragments, in order, and leave the channel as
/// it is.
pub proof fn lemma_text_reports_reach_session(
    v: CoordinatorView,
    handle: nat,
    fragments: Seq<Seq<char>>,
)
    requires
        coherent(v),
        v.session.phase != Phase::Idle,
        live(v.channel, handle),
    ensures
        proceed(
            v,
            fragments.map_values(
                |f: Seq<char>| Command::Receive(handle, IncomingView::Text(f)),
            ),
        ) == (CoordinatorView {
            session: run(
                v.session,
                fragments.map_values(|f: Seq<char>| Event::Item(StreamItemView::Fragment(f))),
            ),
            channel: v.channel,
        }),
    decreases fragments.len(),
{
    if fragments.len() > 0 {
        let report = |f: Seq<char>| Command::Receive(handle, IncomingView::Text(f));
        let piece = |f: Seq<char>| Event::Item(StreamItemView::Fragment(f));
        let shorter = fragments.drop_last();
        lemma_text_reports_reach_session(v, handle, shorter);
        assert(fragments.map_values(report).drop_last() =~= shorter.map_values(report));
        assert(fragments.map_values(piece).drop_last() =~= shorter.map_values(piece));
    }
}

/// One whole exchange through the coordinator. A prompt submitted while the
/// session is idle and the connection `handle` is live, then answered on
/// that connection by fragments and a report that ends the stream, adds
/// exactly two messages to the transcript: the user's, and the frozen answer
/// whose text is the fragments joined in order. Afterwards the session is
/// idle and the connection is over.
pub proof fn lemma_exchange_through_coordinator(
    v: CoordinatorView,
    handle: nat,
    prompt: Seq<char>,
    fragments: Seq<Seq<char>>,
    closing: IncomingView,
)
    requires
        coherent(v),
        refusal(v) is None,
        live(v.channel, handle),
        is_terminal(item_of(closing)),
    ensures
        proceed(
            advance(v, Command::Submit(prompt)),
            reports(handle, fragments, closing),
        ).session == (SessionView {
            phase: Phase::Idle,
            transcript: v.session.transcript.push(user_message(prompt)).push(
                MessageView { origin: Origin::Assistant, text: fragments.flatten(), open: false },
            ),
        }),
        proceed(
            advance(v, Command::Submit(prompt)),
            reports(handle, fragments, closing),
        ).channel == after_receive(v.channel, handle, closing),
        !live(after_receive(v.channel, handle, closing), handle),
{
    let sent = advance(v, Command::Submit(prompt));
    let report = |f: Seq<char>| Command::Receive(handle, IncomingView::Text(f));
    lemma_advance_keeps_coherent(v, Command::Submit(prompt));
    lemma_text_reports_reach_session(sent, handle, fragments);
    assert(reports(handle, fragments, closing).drop_last() =~= fragments.map_values(report));
    lemma_exchange(v.session, prompt, fragments, item_of(closing), prompt);
    assert(answer(fragments, item_of(closing)).drop_last() =~= fragments.map_values(
        |f: Seq<char>| Event::Item(StreamItemView::Fragment(f)),
    ));
}

/// In a coordinator, too, a connection that is over stays over: whatever
/// commands follow, its handle is never live again.
pub proof fn lemma_spent_handle_stays_spent_in_coordinator(
    v: CoordinatorView,
    handle: nat,
    commands: Seq<Command>,
)
    requires
        coherent(v),
        handle <= v.channel.serial,
        !live(v.channel, handle),
    ensures
        handle <= proceed(v, commands).channel.serial,
        !live(proceed(v, commands).channel, handle),
    decreases commands.len(),
{
    if commands.len() > 0 {
        lemma_spent_handle_stays_spent_in_coordinator(v, handle, commands.drop_last());
    }
}

/// After a reset, whatever the abandoned connection still reports changes
/// nothing, however much has happened in between: the task that reads it
/// can no longer write to the transcript.
pub proof fn lemma_reset_silences_connection(
    v: CoordinatorView,
    handle: nat,
    commands: Seq<Command>,
    event: IncomingView,
)
    requires
        coherent(v),
        handle <= v.channel.serial,
    ensures
        advance(
            proceed(advance(v, Command::Reset), commands),
            Command::Receive(handle, event),
        ) == proceed(advance(v, Command::Reset), commands),
{
    lemma_advance_keeps_coherent(v, Command::Reset);
    lemma_spent_handle_stays_spent_in_coordinator(advance(v, Command::Reset), handle, commands);
}

/// Two readings of the same transcript agree row by row. As reading changes
/// nothing, two snapshots with no taken event between them are the same.
pub proof fn lemma_snapshots_agree(
    first: Seq<(Origin, String)>,
    second: Seq<(Origin, String)>,
    t: Seq<MessageView>,
)
    requires
        shows(first, t),
        shows(second, t),
    ensures
        first.len() == second.len(),
        forall|i: int|
            0 <= i < first.len() ==> (#[trigger] first[i]).0 == second[i].0 && first[i].1@
                == second[i].1@,
{
}

} // verus!
