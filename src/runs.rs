//! Runs of the install state machine over sequences of events, and the laws
//! that hold of every run.

use vstd::prelude::*;
use crate::install::{begin, next, Action, Event, Installer, Notice, Phase};

verus! {

/// The state reached and the actions asked for, event after event.
pub open spec fn run(s: Installer, evs: Seq<Event>) -> (Installer, Seq<Action>)
    decreases evs.len(),
{
    if evs.len() == 0 {
        (s, seq![])
    } else {
        let (t, a) = run(s, evs.drop_last());
        let (u, b) = next(t, evs.last());
        (u, a + b)
    }
}

/// The progress reports among the actions, as (bytes downloaded, total bytes).
pub open spec fn progress(acts: Seq<Action>) -> Seq<(u64, u64)>
    decreases acts.len(),
{
    if acts.len() == 0 {
        seq![]
    } else {
        let p = progress(acts.drop_last());
        match acts.last() {
            Action::Emit(Notice::Percent { downloaded, total }) => p.push((downloaded, total)),
            _ => p,
        }
    }
}

/// Each report has the same total as the others and no fewer bytes than those before it.
pub open spec fn rising(p: Seq<(u64, u64)>) -> bool {
    forall|i: int, j: int| 0 <= i < j < p.len() ==> p[i].0 <= p[j].0 && p[i].1 == p[j].1
}

/// The notice that ends a run.
pub open spec fn is_final_notice(a: Action) -> bool {
    match a {
        Action::Emit(Notice::Ready { .. }) | Action::Emit(Notice::Failed { .. }) => true,
        _ => false,
    }
}

/// One chunk event for each chunk length.
pub open spec fn chunk_events(chunks: Seq<u64>) -> Seq<Event> {
    chunks.map_values(|c: u64| Event::Chunk { len: c })
}

/// The bytes in all chunks together.
pub open spec fn sum_of(chunks: Seq<u64>) -> int
    decreases chunks.len(),
{
    if chunks.len() == 0 {
        0
    } else {
        sum_of(chunks.drop_last()) + chunks.last()
    }
}

/// A transfer that succeeds: the archive left on disk is known partial, the
/// server answers with its length, every chunk arrives and the archive unpacks.
pub open spec fn clean_transfer(total: u64, chunks: Seq<u64>) -> Seq<Event> {
    seq![
        Event::Probed { installed: false, archive_exists: true },
        Event::Responded { success: true, content_length: Some(total) },
        Event::CacheOpened,
    ] + chunk_events(chunks) + seq![Event::StreamEnded, Event::Extracted { ok: true }]
}

proof fn lemma_run_push(s: Installer, evs: Seq<Event>, e: Event)
    ensures
        run(s, evs.push(e)) == ({
            let (t, a) = run(s, evs);
            let (u, b) = next(t, e);
            (u, a + b)
        }),
{
    assert(evs.push(e).drop_last() =~= evs);
}

proof fn lemma_run_append(s: Installer, a: Seq<Event>, b: Seq<Event>)
    ensures
        run(s, a + b) == ({
            let (t, x) = run(s, a);
            let (u, y) = run(t, b);
            (u, x + y)
        }),
    decreases b.len(),
{
    if b.len() == 0 {
        assert(a + b =~= a);
        assert(run(s, a).1 + seq![] =~= run(s, a).1);
    } else {
        lemma_run_append(s, a, b.drop_last());
        assert((a + b).drop_last() =~= a + b.drop_last());
        assert((a + b).last() == b.last());
        let (t, x) = run(s, a);
        let (u, y) = run(t, b.drop_last());
        let (v, z) = next(u, b.last());
        assert(x + y + z =~= x + (y + z));
    }
}

proof fn lemma_progress_append(a: Seq<Action>, b: Seq<Action>)
    ensures
        progress(a + b) == progress(a) + progress(b),
    decreases b.len(),
{
    if b.len() == 0 {
        assert(a + b =~= a);
        assert(progress(a) + seq![] =~= progress(a));
    } else {
        lemma_progress_append(a, b.drop_last());
        assert((a + b).drop_last() =~= a + b.drop_last());
        assert((a + b).last() == b.last());
        let p = progress(a);
        let q = progress(b.drop_last());
        match b.last() {
            Action::Emit(Notice::Percent { downloaded, total }) => {
                assert(p + q.push((downloaded, total)) =~= (p + q).push((downloaded, total)));
            },
            _ => {},
        }
    }
}

proof fn lemma_progress_one(a: Action)
    ensures
        progress(seq![a]) == match a {
            Action::Emit(Notice::Percent { downloaded, total }) => seq![(downloaded, total)],
            _ => Seq::<(u64, u64)>::empty(),
        },
{
    assert(seq![a].drop_last() =~= Seq::<Action>::empty());
    assert(seq![a].last() == a);
    assert(progress(Seq::<Action>::empty()) =~= Seq::<(u64, u64)>::empty());
    match a {
        Action::Emit(Notice::Percent { downloaded, total }) => {
            assert(Seq::<(u64, u64)>::empty().push((downloaded, total)) =~= seq![(downloaded, total)]);
        },
        _ => {},
    }
}

proof fn lemma_progress_two(a: Action, b: Action)
    ensures
        progress(seq![a, b]) == progress(seq![a]) + progress(seq![b]),
{
    assert(seq![a, b] =~= seq![a] + seq![b]);
    lemma_progress_append(seq![a], seq![b]);
}

/// What holds after each prefix of a run that started by probing.
spec fn run_inv(t: Installer, acts: Seq<Action>) -> bool {
    let p = progress(acts);
    &&& rising(p)
    &&& p.len() > 0 ==> p.last() == (t.downloaded, t.total)
    &&& t.downloaded > 0 ==> p.len() > 0
    &&& (t.phase == Phase::Probing || t.phase == Phase::Requesting || t.phase == Phase::Opening)
        ==> p.len() == 0 && t.downloaded == 0
    &&& (t.phase == Phase::Ready || t.phase == Phase::Failed) ==> acts.len() > 0
        && is_final_notice(acts.last())
}

proof fn lemma_run_inv(s: Installer, evs: Seq<Event>)
    requires
        s.phase == Phase::Probing,
        s.downloaded == 0,
    ensures
        run_inv(run(s, evs).0, run(s, evs).1),
    decreases evs.len(),
{
    if evs.len() == 0 {
        assert(progress(Seq::<Action>::empty()) =~= Seq::<(u64, u64)>::empty());
    } else {
        lemma_run_inv(s, evs.drop_last());
        let (t, a) = run(s, evs.drop_last());
        let (u, b) = next(t, evs.last());
        lemma_progress_append(a, b);
        let p = progress(a);
        if b.len() == 1 {
            assert(b =~= seq![b[0]]);
            lemma_progress_one(b[0]);
        } else if b.len() == 2 {
            assert(b =~= seq![b[0], b[1]]);
            lemma_progress_two(b[0], b[1]);
            lemma_progress_one(b[0]);
            lemma_progress_one(b[1]);
        } else {
            assert(b =~= Seq::<Action>::empty());
            assert(progress(b) =~= Seq::<(u64, u64)>::empty());
        }
        if b.len() > 0 {
            assert((a + b).last() == b.last());
        } else {
            assert(a + b =~= a);
        }
        if p.len() > 0 {
            // Every earlier report is bounded by the last one, which is the current count.
            assert forall|i: int| 0 <= i < p.len() implies p[i].0 <= t.downloaded && p[i].1
                == t.total by {
                if i < p.len() - 1 {
                    assert(p[i].0 <= p[p.len() - 1].0);
                }
            };
        }
        let q = progress(a + b);
        if let Event::Chunk { len } = evs.last() {
            if t.phase == Phase::Streaming && t.downloaded + len <= u64::MAX {
                assert(q =~= p.push((u.downloaded, u.total)));
                assert forall|i: int, j: int| 0 <= i < j < q.len() implies q[i].0 <= q[j].0
                    && q[i].1 == q[j].1 by {
                    if j < q.len() - 1 {
                        assert(q[i] == p[i] && q[j] == p[j]);
                    } else {
                        assert(q[i] == p[i]);
                    }
                };
            }
        }
    }
}

/// Asking for an artifact that is already installed only looks at the disk
/// and reports it ready once: no request is sent and no file is written.
pub proof fn lemma_installed_short_circuit(s: Installer, archive_exists: bool)
    requires
        !s.phase.is_busy(),
    ensures
        ({
            let (t, acts) = run(begin(s).0, seq![Event::Probed { installed: true, archive_exists }]);
            &&& begin(s).1 + acts == seq![
                Action::Probe {
                    installed_path: s.target.installed_path,
                    archive_path: s.target.archive_path,
                },
                Action::Emit(Notice::Ready { path: s.target.installed_path }),
            ]
            &&& t.phase == Phase::Ready
            &&& t.installed
        }),
{
    let e = Event::Probed { installed: true, archive_exists };
    lemma_run_push(begin(s).0, Seq::<Event>::empty(), e);
    assert(Seq::<Event>::empty().push(e) =~= seq![e]);
    let acts = run(begin(s).0, seq![e]).1;
    assert(Seq::<Action>::empty() + next(begin(s).0, e).1 =~= next(begin(s).0, e).1);
    assert(begin(s).1 + acts =~= seq![
        Action::Probe {
            installed_path: s.target.installed_path,
            archive_path: s.target.archive_path,
        },
        Action::Emit(Notice::Ready { path: s.target.installed_path }),
    ]);
}

/// Within one run the progress reports never go back and all share one
/// total; the last one gives the bytes received so far, so a download that
/// received its whole declared length ends its reports at 100 percent; a
/// run that ended says so in its last action.
pub proof fn lemma_progress_rises(s: Installer, evs: Seq<Event>)
    requires
        !s.phase.is_busy(),
    ensures
        ({
            let (t, acts) = run(begin(s).0, evs);
            let p = progress(acts);
            &&& rising(p)
            &&& t.downloaded > 0 ==> p.len() > 0 && p.last() == (t.downloaded, t.total)
            &&& t.downloaded == t.total && t.total > 0 ==> p.last() == (t.total, t.total)
            &&& (t.phase == Phase::Ready || t.phase == Phase::Failed) ==> acts.len() > 0
                && is_final_notice(acts.last())
        }),
{
    lemma_run_inv(begin(s).0, evs);
}


/// Whether the action reports progress.
pub open spec fn is_percent(a: Action) -> bool {
    match a {
        Action::Emit(Notice::Percent { .. }) => true,
        _ => false,
    }
}

proof fn lemma_no_progress(acts: Seq<Action>)
    requires
        forall|i: int| 0 <= i < acts.len() ==> !is_percent(#[trigger] acts[i]),
    ensures
        progress(acts) == Seq::<(u64, u64)>::empty(),
    decreases acts.len(),
{
    if acts.len() == 0 {
        assert(progress(acts) =~= Seq::<(u64, u64)>::empty());
    } else {
        assert(!is_percent(acts[acts.len() - 1]));
        lemma_no_progress(acts.drop_last());
    }
}

proof fn lemma_sum_of_nonneg(chunks: Seq<u64>)
    ensures
        sum_of(chunks) >= 0,
    decreases chunks.len(),
{
    if chunks.len() > 0 {
        lemma_sum_of_nonneg(chunks.drop_last());
    }
}

/// The running count after each chunk, with the total beside it.
pub open spec fn running_counts(start: int, chunks: Seq<u64>, total: u64) -> Seq<(u64, u64)> {
    Seq::new(chunks.len(), |i: int| ((start + sum_of(chunks.take(i + 1))) as u64, total))
}

proof fn lemma_stream_chunks(st: Installer, chunks: Seq<u64>)
    requires
        st.phase == Phase::Streaming,
        st.downloaded + sum_of(chunks) <= u64::MAX,
    ensures
        run(st, chunk_events(chunks)).0 == (Installer {
            downloaded: (st.downloaded + sum_of(chunks)) as u64,
            ..st
        }),
        progress(run(st, chunk_events(chunks)).1) == running_counts(
            st.downloaded as int,
            chunks,
            st.total,
        ),
    decreases chunks.len(),
{
    if chunks.len() == 0 {
        assert(chunk_events(chunks) =~= Seq::<Event>::empty());
        assert(progress(Seq::<Action>::empty()) =~= Seq::<(u64, u64)>::empty());
        assert(running_counts(st.downloaded as int, chunks, st.total) =~= Seq::<(u64, u64)>::empty());
    } else {
        let c = chunks.drop_last();
        let x = chunks.last();
        lemma_sum_of_nonneg(c);
        lemma_stream_chunks(st, c);
        assert(chunk_events(chunks) =~= chunk_events(c).push(Event::Chunk { len: x }));
        lemma_run_push(st, chunk_events(c), Event::Chunk { len: x });
        let (t, a) = run(st, chunk_events(c));
        let (u, b) = next(t, Event::Chunk { len: x });
        let d = (st.downloaded + sum_of(chunks)) as u64;
        assert(b == seq![
            Action::Emit(Notice::Percent { downloaded: d, total: st.total }),
            Action::ReadChunk,
        ]);
        lemma_progress_append(a, b);
        lemma_progress_two(b[0], b[1]);
        lemma_progress_one(b[0]);
        lemma_progress_one(b[1]);
        let r = running_counts(st.downloaded as int, chunks, st.total);
        let r0 = running_counts(st.downloaded as int, c, st.total);
        assert forall|i: int| 0 <= i < c.len() implies #[trigger] r[i] == r0[i] by {
            assert(chunks.take(i + 1) =~= c.take(i + 1));
        };
        assert(chunks.take(chunks.len() as int) =~= chunks);
        assert(progress(a + b) =~= r);
    }
}

/// A download that broke after writing part of the archive leaves the cache
/// file marked incomplete; the next `ensure` downloads the archive again from
/// its first byte, and reaches ready once the transfer and unpacking succeed.
pub proof fn lemma_retry_restarts(s: Installer, total: u64, chunks: Seq<u64>)
    requires
        s.wf(),
        s.phase == Phase::Streaming,
        sum_of(chunks) == total,
    ensures
        ({
            let broken = next(s, Event::Broken).0;
            let (t, acts) = run(begin(broken).0, clean_transfer(total, chunks));
            &&& broken.phase == Phase::Failed
            &&& broken.partial
            &&& !broken.downloading
            &&& acts[1] == Action::Request { url: s.target.source_url }
            &&& acts[2] == Action::OpenCache { path: s.target.archive_path }
            &&& progress(acts) == running_counts(0, chunks, total)
            &&& t.phase == Phase::Ready
            &&& t.installed
            &&& !t.partial
            &&& !t.downloading
            &&& t.downloaded == total
            &&& acts.last() == Action::Emit(Notice::Ready { path: s.target.installed_path })
        }),
{
    let broken = next(s, Event::Broken).0;
    let s0 = begin(broken).0;
    let e1 = Event::Probed { installed: false, archive_exists: true };
    let e2 = Event::Responded { success: true, content_length: Some(total) };
    let e3 = Event::CacheOpened;
    let pre = seq![e1, e2, e3];
    let mid = chunk_events(chunks);
    let post = seq![Event::StreamEnded, Event::Extracted { ok: true }];
    assert(pre =~= Seq::<Event>::empty().push(e1).push(e2).push(e3));
    lemma_run_push(s0, Seq::<Event>::empty(), e1);
    lemma_run_push(s0, Seq::<Event>::empty().push(e1), e2);
    lemma_run_push(s0, Seq::<Event>::empty().push(e1).push(e2), e3);
    let (t1, x1) = run(s0, pre);
    assert(t1.phase == Phase::Streaming && t1.downloaded == 0 && t1.total == total);
    lemma_sum_of_nonneg(chunks);
    lemma_stream_chunks(t1, chunks);
    let (t2, x2) = run(t1, mid);
    assert(post =~= Seq::<Event>::empty().push(Event::StreamEnded).push(Event::Extracted { ok: true }));
    lemma_run_push(t2, Seq::<Event>::empty(), Event::StreamEnded);
    lemma_run_push(t2, Seq::<Event>::empty().push(Event::StreamEnded), Event::Extracted { ok: true });
    let (t3, x3) = run(t2, post);
    lemma_run_append(s0, pre, mid);
    lemma_run_append(s0, pre + mid, post);
    assert(clean_transfer(total, chunks) == pre + mid + post);
    let acts = x1 + x2 + x3;
    assert(forall|i: int| 0 <= i < x1.len() ==> !is_percent(#[trigger] x1[i]));
    assert(forall|i: int| 0 <= i < x3.len() ==> !is_percent(#[trigger] x3[i]));
    lemma_no_progress(x1);
    lemma_no_progress(x3);
    lemma_progress_append(x1, x2);
    lemma_progress_append(x1 + x2, x3);
    assert(progress(acts) =~= progress(x2));
    assert(acts[1] == x1[1]);
    assert(acts[2] == x1[2]);
    assert(acts.last() == x3.last());
}

} // verus!
