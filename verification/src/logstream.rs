//! The pod log stream protocol: a header first, then one event per non-empty
//! log line; a read failure or a failure to open ends the stream with one
//! error; every stream ends with exactly one `ended` event.
use vstd::prelude::*;

use crate::dto::LogEvent;
use crate::text::cat;

verus! {

broadcast use vstd::string::group_string_axioms;

/// What reading the log source gave.
#[derive(Debug, Clone)]
pub enum LogRead {
    /// One log line.
    Line(String),
    /// Reading a line failed with this message.
    ReadFailed(String),
    /// The log could not be opened, with this message.
    OpenFailed(String),
    /// The source has no more lines.
    Done,
}

/// A log event by its kind and line text.
pub open spec fn event_view(e: LogEvent) -> (Seq<char>, Seq<char>) {
    (e.kind@, e.line@)
}

/// The final event of every stream.
pub open spec fn ended_view() -> (Seq<char>, Seq<char>) {
    ("ended"@, Seq::empty())
}

/// The events emitted for one read, and whether reading goes on: a non-empty
/// line is passed on, an empty one skipped; a failure is reported once and
/// ends the stream; the end of the source ends it.
pub open spec fn step_spec(read: LogRead) -> (Seq<(Seq<char>, Seq<char>)>, bool) {
    match read {
        LogRead::Line(l) => if l@.len() == 0 {
            (Seq::empty(), true)
        } else {
            (seq![("line"@, l@)], true)
        },
        LogRead::ReadFailed(e) => (
            seq![("error"@, "Error reading log line: "@ + e@), ended_view()],
            false,
        ),
        LogRead::OpenFailed(e) => (
            seq![("error"@, "Failed to open log stream: "@ + e@), ended_view()],
            false,
        ),
        LogRead::Done => (seq![ended_view()], false),
    }
}

/// The events emitted after `read`, and whether to read on.
pub fn log_step(read: LogRead) -> (r: (Vec<LogEvent>, bool))
    ensures
        r.0@.map_values(|e: LogEvent| event_view(e)) == step_spec(read).0,
        r.1 == step_spec(read).1,
{
    proof {
        reveal_strlit("");
    }
    let mut out: Vec<LogEvent> = Vec::new();
    let go_on = match &read {
        LogRead::Line(l) => {
            if l.as_str().is_empty() {
                assert(out@.map_values(|e: LogEvent| event_view(e)) =~= step_spec(read).0);
            } else {
                out.push(LogEvent::line(l.as_str()));
                assert(out@.map_values(|e: LogEvent| event_view(e)) =~= step_spec(read).0);
            }
            true
        },
        LogRead::ReadFailed(e) => {
            let m = cat("Error reading log line: ", e.as_str());
            out.push(LogEvent::error(m.as_str()));
            let end = LogEvent::ended();
            assert(end.line@ =~= Seq::<char>::empty());
            out.push(end);
            assert(out@.map_values(|e: LogEvent| event_view(e)) =~= step_spec(read).0);
            false
        },
        LogRead::OpenFailed(e) => {
            let m = cat("Failed to open log stream: ", e.as_str());
            out.push(LogEvent::error(m.as_str()));
            let end = LogEvent::ended();
            assert(end.line@ =~= Seq::<char>::empty());
            out.push(end);
            assert(out@.map_values(|e: LogEvent| event_view(e)) =~= step_spec(read).0);
            false
        },
        LogRead::Done => {
            let end = LogEvent::ended();
            assert(end.line@ =~= Seq::<char>::empty());
            out.push(end);
            assert(out@.map_values(|e: LogEvent| event_view(e)) =~= step_spec(read).0);
            false
        },
    };
    (out, go_on)
}

/// The events after the header for a run of reads: each read's events until
/// one ends the stream; a source that runs out ends it as `Done` does.
pub open spec fn run_spec(reads: Seq<LogRead>) -> Seq<(Seq<char>, Seq<char>)>
    decreases reads.len(),
{
    if reads.len() == 0 {
        step_spec(LogRead::Done).0
    } else if step_spec(reads[0]).1 {
        step_spec(reads[0]).0 + run_spec(reads.drop_first())
    } else {
        step_spec(reads[0]).0
    }
}

/// The number of `ended` events in `s`.
pub open spec fn ended_count(s: Seq<(Seq<char>, Seq<char>)>) -> nat
    decreases s.len(),
{
    if s.len() == 0 {
        0
    } else {
        (if s[0].0 == "ended"@ {
            1nat
        } else {
            0nat
        }) + ended_count(s.drop_first())
    }
}

proof fn lemma_ended_count_concat(a: Seq<(Seq<char>, Seq<char>)>, b: Seq<(Seq<char>, Seq<char>)>)
    ensures
        ended_count(a + b) == ended_count(a) + ended_count(b),
    decreases a.len(),
{
    if a.len() > 0 {
        assert((a + b).drop_first() =~= a.drop_first() + b);
        lemma_ended_count_concat(a.drop_first(), b);
    } else {
        assert(a + b =~= b);
    }
}

proof fn lemma_step_ended(read: LogRead)
    ensures
        step_spec(read).1 ==> ended_count(step_spec(read).0) == 0,
        !step_spec(read).1 ==> ended_count(step_spec(read).0) == 1,
        !step_spec(read).1 ==> step_spec(read).0.len() > 0,
        !step_spec(read).1 ==> step_spec(read).0.last() == ended_view(),
{
    reveal_strlit("ended");
    reveal_strlit("line");
    reveal_strlit("error");
    assert("line"@.len() != "ended"@.len());
    assert("error"@[1] != "ended"@[1]);
    assert("error"@ != "ended"@);
    let s = step_spec(read).0;
    match read {
        LogRead::Line(l) => {
            if l@.len() > 0 {
                assert(s =~= seq![("line"@, l@)]);
                assert(s.drop_first() =~= Seq::<(Seq<char>, Seq<char>)>::empty());
                assert(ended_count(s.drop_first()) == 0);
                assert(s[0].0 != "ended"@);
            } else {
                assert(s.len() == 0);
            }
            assert(ended_count(s) == 0);
            assert(step_spec(read).1);
        },
        LogRead::Done => {
            assert(s =~= seq![ended_view()]);
            assert(s.drop_first() =~= Seq::<(Seq<char>, Seq<char>)>::empty());
            assert(ended_count(s.drop_first()) == 0);
            assert(s[0].0 == "ended"@);
            assert(ended_count(s) == 1);
        },
        LogRead::ReadFailed(e) => {
            assert(s.drop_first() =~= seq![ended_view()]);
            assert(s.drop_first().drop_first() =~= Seq::<(Seq<char>, Seq<char>)>::empty());
            assert(ended_count(s.drop_first().drop_first()) == 0);
            assert(s[0].0 != "ended"@);
            assert(s.drop_first()[0].0 == "ended"@);
            assert(ended_count(s.drop_first()) == 1);
            assert(ended_count(s) == 1);
        },
        LogRead::OpenFailed(e) => {
            assert(s.drop_first() =~= seq![ended_view()]);
            assert(s.drop_first().drop_first() =~= Seq::<(Seq<char>, Seq<char>)>::empty());
            assert(ended_count(s.drop_first().drop_first()) == 0);
            assert(s[0].0 != "ended"@);
            assert(s.drop_first()[0].0 == "ended"@);
            assert(ended_count(s.drop_first()) == 1);
            assert(ended_count(s) == 1);
        },
    }
}

/// Whatever the log source gives, a stream emits exactly one `ended` event,
/// and emits it last.
pub proof fn law_stream_ends_once(reads: Seq<LogRead>)
    ensures
        ended_count(run_spec(reads)) == 1,
        run_spec(reads).len() > 0,
        run_spec(reads).last() == ended_view(),
    decreases reads.len(),
{
    if reads.len() == 0 {
        lemma_step_ended(LogRead::Done);
    } else {
        lemma_step_ended(reads[0]);
        if step_spec(reads[0]).1 {
            law_stream_ends_once(reads.drop_first());
            lemma_ended_count_concat(step_spec(reads[0]).0, run_spec(reads.drop_first()));
        }
    }
}

} // verus!
