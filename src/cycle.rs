use vstd::prelude::*;
use crate::codec::{dmx_block, PACKET_CAPACITY, UNIVERSE_CAPACITY};
use crate::sender::{chunk, next_seq, write_chunk, SenderView, BUFFER_LEN, MAX_OWNERS};
use crate::utils::lemma_num_true_prefix;

verus! {

/// Every submission names a registered owner and carries a payload that fits.
pub open spec fn valid_submissions(v: SenderView, ops: Seq<(nat, Seq<u8>)>) -> bool {
    forall|j: int|
        0 <= j < ops.len() ==> (#[trigger] ops[j]).0 < v.owners && ops[j].1.len() <= PACKET_CAPACITY
}

/// The state after the submissions `ops`, in order.
pub open spec fn run(v: SenderView, ops: Seq<(nat, Seq<u8>)>) -> SenderView
    decreases ops.len(),
{
    if ops.len() == 0 {
        v
    } else {
        run(v, ops.drop_last()).submitted(ops.last().0, ops.last().1)
    }
}

/// How many flushes the submissions `ops` cause.
pub open spec fn flush_count(v: SenderView, ops: Seq<(nat, Seq<u8>)>) -> nat
    decreases ops.len(),
{
    if ops.len() == 0 {
        0
    } else {
        flush_count(v, ops.drop_last()) + if run(v, ops.drop_last()).written(
            ops.last().0,
            ops.last().1,
        ).flush_due() {
            1nat
        } else {
            0nat
        }
    }
}

/// Whether owner `o` is among the submitters of `ops`.
pub open spec fn submitted_by(ops: Seq<(nat, Seq<u8>)>, o: nat) -> bool {
    exists|j: int| 0 <= j < ops.len() && (#[trigger] ops[j]).0 == o
}

/// A valid submission keeps the aggregator's invariant, its owners, name and
/// source identifier.
pub proof fn lemma_submit_wf(v: SenderView, o: nat, d: Seq<u8>)
    requires
        v.wf(),
        o < v.owners,
        d.len() <= PACKET_CAPACITY,
    ensures
        v.submitted(o, d).wf(),
        v.submitted(o, d).owners == v.owners,
        v.submitted(o, d).name == v.name,
        v.submitted(o, d).cid == v.cid,
        v.submitted(o, d).buffer == v.written(o, d).buffer,
{
    let w = v.written(o, d);
    assert forall|i: int| 0 <= i < MAX_OWNERS implies (#[trigger] chunk(w.buffer, i))[0] == 0 by {
        assert(chunk(w.buffer, i)[0] == w.buffer[i * UNIVERSE_CAPACITY]);
        assert(chunk(v.buffer, i)[0] == v.buffer[i * UNIVERSE_CAPACITY]);
    }
    lemma_num_true_prefix(w.complete, w.owners as int);
    if w.flush_due() {
        let f = w.flushed();
        lemma_num_true_prefix(f.complete, 0);
    }
}

/// Submissions keep the invariant, the owners, name and source identifier.
pub proof fn lemma_run_wf(v: SenderView, ops: Seq<(nat, Seq<u8>)>)
    requires
        v.wf(),
        valid_submissions(v, ops),
    ensures
        run(v, ops).wf(),
        run(v, ops).owners == v.owners,
        run(v, ops).name == v.name,
        run(v, ops).cid == v.cid,
    decreases ops.len(),
{
    if ops.len() > 0 {
        let p = ops.drop_last();
        assert forall|j: int| 0 <= j < p.len() implies (#[trigger] p[j]).0 < v.owners && p[j].1.len()
            <= PACKET_CAPACITY by {
            assert(p[j] == ops[j]);
        }
        lemma_run_wf(v, p);
        assert(ops[ops.len() - 1] == ops.last());
        lemma_submit_wf(run(v, p), ops.last().0, ops.last().1);
    }
}

/// Inside a cycle that starts with no owner complete and in which some
/// registered owner has not submitted yet, no flush happens, and the owners
/// marked complete are exactly those that submitted.
pub proof fn lemma_cycle_completions(v: SenderView, ops: Seq<(nat, Seq<u8>)>)
    requires
        v.wf(),
        forall|i: int| 0 <= i < MAX_OWNERS ==> !v.complete[i],
        valid_submissions(v, ops),
        exists|o: nat| o < v.owners && !submitted_by(ops, o),
    ensures
        forall|i: nat| i < MAX_OWNERS ==> run(v, ops).complete[i as int] == submitted_by(ops, i),
        flush_count(v, ops) == 0,
    decreases ops.len(),
{
    lemma_run_wf(v, ops);
    if ops.len() == 0 {
    } else {
        let p = ops.drop_last();
        let last = ops.last();
        assert(ops[ops.len() - 1] == last);
        assert forall|j: int| 0 <= j < p.len() implies (#[trigger] p[j]).0 < v.owners && p[j].1.len()
            <= PACKET_CAPACITY by {
            assert(p[j] == ops[j]);
        }
        let o = choose|o: nat| o < v.owners && !submitted_by(ops, o);
        assert(!submitted_by(p, o)) by {
            if submitted_by(p, o) {
                let j = choose|j: int| 0 <= j < p.len() && (#[trigger] p[j]).0 == o;
                assert(ops[j] == p[j]);
            }
        }
        lemma_cycle_completions(v, p);
        lemma_run_wf(v, p);
        let w = run(v, p).written(last.0, last.1);
        assert forall|i: nat| i < MAX_OWNERS implies w.complete[i as int] == submitted_by(ops, i) by {
            if submitted_by(ops, i) && i != last.0 {
                let j = choose|j: int| 0 <= j < ops.len() && (#[trigger] ops[j]).0 == i;
                assert(p[j] == ops[j]);
            }
            if submitted_by(p, i) {
                let j = choose|j: int| 0 <= j < p.len() && (#[trigger] p[j]).0 == i;
                assert(p[j] == ops[j]);
            }
        }
        lemma_num_true_prefix(w.complete, w.owners as int);
        assert(!w.complete[o as int]);
        assert(!w.flush_due());
    }
}

/// Quorum: in a cycle that starts with no owner complete, as long as some
/// registered owner has not submitted no flush happens; the submission after
/// that flushes exactly when every registered owner has then submitted, and
/// a flush leaves no owner complete.
pub proof fn lemma_quorum(v: SenderView, ops: Seq<(nat, Seq<u8>)>)
    requires
        v.wf(),
        forall|i: int| 0 <= i < MAX_OWNERS ==> !v.complete[i],
        valid_submissions(v, ops),
        ops.len() > 0,
        exists|o: nat| o < v.owners && !submitted_by(ops.drop_last(), o),
    ensures
        flush_count(v, ops.drop_last()) == 0,
        run(v, ops.drop_last()).written(ops.last().0, ops.last().1).flush_due() <==> forall|o: nat|
            o < v.owners ==> submitted_by(ops, o),
        flush_count(v, ops) == if (forall|o: nat| o < v.owners ==> submitted_by(ops, o)) {
            1nat
        } else {
            0nat
        },
        (forall|o: nat| o < v.owners ==> submitted_by(ops, o)) ==> forall|i: int|
            0 <= i < MAX_OWNERS ==> !run(v, ops).complete[i],
{
    let p = ops.drop_last();
    let last = ops.last();
    assert(ops[ops.len() - 1] == last);
    assert forall|j: int| 0 <= j < p.len() implies (#[trigger] p[j]).0 < v.owners && p[j].1.len()
        <= PACKET_CAPACITY by {
        assert(p[j] == ops[j]);
    }
    lemma_cycle_completions(v, p);
    lemma_run_wf(v, p);
    let w = run(v, p).written(last.0, last.1);
    assert forall|i: nat| i < MAX_OWNERS implies w.complete[i as int] == submitted_by(ops, i) by {
        if submitted_by(ops, i) && i != last.0 {
            let j = choose|j: int| 0 <= j < ops.len() && (#[trigger] ops[j]).0 == i;
            assert(p[j] == ops[j]);
        }
        if submitted_by(p, i) {
            let j = choose|j: int| 0 <= j < p.len() && (#[trigger] p[j]).0 == i;
            assert(p[j] == ops[j]);
        }
    }
    lemma_num_true_prefix(w.complete, w.owners as int);
    assert((forall|i: int| 0 <= i < w.owners ==> w.complete[i]) <==> (forall|o: nat|
        o < v.owners ==> submitted_by(ops, o))) by {
        if forall|i: int| 0 <= i < w.owners ==> w.complete[i] {
            assert forall|o: nat| o < v.owners implies submitted_by(ops, o) by {
                assert(w.complete[o as int]);
            }
        }
        if forall|o: nat| o < v.owners ==> submitted_by(ops, o) {
            assert forall|i: int| 0 <= i < w.owners implies w.complete[i] by {
                assert(submitted_by(ops, i as nat));
            }
        }
    }
}

/// Sequence numbers: one submission advances every registered universe's
/// sequence number by one modulo 256 when it flushes, and leaves all of them
/// unchanged otherwise; each universe's new number depends on its own old
/// number alone.
pub proof fn lemma_sequence_step(v: SenderView, o: nat, d: Seq<u8>)
    requires
        v.wf(),
        o < v.owners,
        d.len() <= PACKET_CAPACITY,
    ensures
        forall|u: int|
            0 <= u < v.owners ==> #[trigger] v.submitted(o, d).sequences[u] == if v.written(
                o,
                d,
            ).flush_due() {
                ((v.sequences[u] + 1) % 256) as u8
            } else {
                v.sequences[u]
            },
{
    assert forall|u: int| 0 <= u < v.owners implies next_seq(v.sequences[u]) == ((v.sequences[u] + 1)
        % 256) as u8 by {}
}

/// Over any run of submissions, every registered universe's sequence number
/// has advanced by the number of flushes, modulo 256.
pub proof fn lemma_sequences_count_flushes(v: SenderView, ops: Seq<(nat, Seq<u8>)>)
    requires
        v.wf(),
        valid_submissions(v, ops),
    ensures
        forall|u: int|
            0 <= u < v.owners ==> #[trigger] run(v, ops).sequences[u] == ((v.sequences[u] + flush_count(
                v,
                ops,
            )) % 256) as u8,
    decreases ops.len(),
{
    if ops.len() > 0 {
        let p = ops.drop_last();
        let last = ops.last();
        assert(ops[ops.len() - 1] == last);
        assert forall|j: int| 0 <= j < p.len() implies (#[trigger] p[j]).0 < v.owners && p[j].1.len()
            <= PACKET_CAPACITY by {
            assert(p[j] == ops[j]);
        }
        lemma_sequences_count_flushes(v, p);
        lemma_run_wf(v, p);
        lemma_sequence_step(run(v, p), last.0, last.1);
        assert forall|u: int| 0 <= u < v.owners implies #[trigger] run(v, ops).sequences[u] == ((
        v.sequences[u] + flush_count(v, ops)) % 256) as u8 by {
            assert(run(v, p).sequences[u] == ((v.sequences[u] + flush_count(v, p)) % 256) as u8);
        }
    }
}

/// A write by one owner leaves every other owner's block as it was.
pub proof fn lemma_write_keeps_others(buffer: Seq<u8>, o: int, d: Seq<u8>, u: int)
    requires
        buffer.len() == BUFFER_LEN,
        0 <= o < MAX_OWNERS,
        0 <= u < MAX_OWNERS,
        o != u,
        d.len() <= PACKET_CAPACITY,
    ensures
        chunk(write_chunk(buffer, o, d), u) == chunk(buffer, u),
{
    assert(chunk(write_chunk(buffer, o, d), u) =~= chunk(buffer, u));
}

/// No interleaving: after any run of submissions, each owner's block is
/// start code 0, the latest payload that owner submitted, then zeros; the
/// flush at the last submission, if any, encodes exactly that buffer.
pub proof fn lemma_latest_payload(v: SenderView, ops: Seq<(nat, Seq<u8>)>, j: int)
    requires
        v.wf(),
        valid_submissions(v, ops),
        0 <= j < ops.len(),
        forall|k: int| j < k < ops.len() ==> (#[trigger] ops[k]).0 != ops[j].0,
    ensures
        chunk(run(v, ops).buffer, ops[j].0 as int) == dmx_block(ops[j].1),
        run(v, ops.drop_last()).written(ops.last().0, ops.last().1).buffer == run(v, ops).buffer,
    decreases ops.len(),
{
    let p = ops.drop_last();
    let last = ops.last();
    let u = ops[j].0 as int;
    assert(ops[ops.len() - 1] == last);
    assert forall|k: int| 0 <= k < p.len() implies (#[trigger] p[k]).0 < v.owners && p[k].1.len()
        <= PACKET_CAPACITY by {
        assert(p[k] == ops[k]);
    }
    lemma_run_wf(v, p);
    lemma_run_wf(v, ops);
    lemma_submit_wf(run(v, p), last.0, last.1);
    let b = run(v, p).buffer;
    if j == ops.len() - 1 {
        assert(chunk(write_chunk(b, u, ops[j].1), u) =~= dmx_block(ops[j].1));
    } else {
        assert forall|k: int| j < k < p.len() implies (#[trigger] p[k]).0 != p[j].0 by {
            assert(p[k] == ops[k]);
            assert(ops[k].0 != ops[j].0);
        }
        assert(p[j] == ops[j]);
        lemma_latest_payload(v, p, j);
        assert(ops[ops.len() - 1].0 != ops[j].0);
        lemma_write_keeps_others(b, last.0 as int, last.1, u);
    }
}

} // verus!
