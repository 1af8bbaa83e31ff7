use vstd::prelude::*;

use crate::record::FileRecord;

verus! {

/// The sequence of record sequences held by a sequence of batches.
pub open spec fn batch_seqs(batches: Seq<Vec<FileRecord>>) -> Seq<Seq<FileRecord>> {
    batches.map_values(|b: Vec<FileRecord>| b@)
}

/// How many batches a record count fills at a given batch size: the count
/// divided by the size, rounded up.
pub open spec fn num_batches(n_records: int, batch_size: int) -> int {
    (n_records + batch_size - 1) / batch_size
}

/// Groups the records into consecutive batches of at most `batch_size`
/// records each. Concatenating the batches in order gives back exactly the
/// input sequence: no record is lost or duplicated. Every batch but the
/// last is full, and no batch is empty.
pub fn make_batches(records: &Vec<FileRecord>, batch_size: usize) -> (batches: Vec<
    Vec<FileRecord>,
>)
    requires
        batch_size >= 1,
    ensures
        batch_seqs(batches@).flatten() == records@,
        forall|i: int|
            0 <= i < batches@.len() ==> 1 <= #[trigger] batches@[i]@.len() <= batch_size,
        forall|i: int| 0 <= i < batches@.len() - 1 ==> #[trigger] batches@[i]@.len() == batch_size,
        batches@.len() == num_batches(records@.len() as int, batch_size as int),
{
    broadcast use vstd::seq_lib::group_seq_properties;

    let mut batches: Vec<Vec<FileRecord>> = Vec::new();
    let mut cur: Vec<FileRecord> = Vec::new();
    let mut i: usize = 0;
    proof {
        assert(batch_seqs(batches@).flatten() + cur@ =~= records@.take(0));
    }
    while i < records.len()
        invariant
            batch_size >= 1,
            i <= records@.len(),
            cur@.len() < batch_size,
            i == batches@.len() * batch_size + cur@.len(),
            batch_seqs(batches@).flatten() + cur@ == records@.take(i as int),
            forall|j: int|
                0 <= j < batches@.len() ==> #[trigger] batches@[j]@.len() == batch_size,
        decreases records@.len() - i,
    {
        let ghost old_batches = batches@;
        let ghost old_cur = cur@;
        cur.push(records[i].clone());
        i = i + 1;
        proof {
            let k = (i - 1) as int;
            assert(cur@ == old_cur.push(records@[k]));
            assert(records@.take(i as int) =~= records@.take(k).push(records@[k]));
            assert(batch_seqs(old_batches).flatten() + cur@ =~= (batch_seqs(old_batches).flatten()
                + old_cur).push(records@[k]));
            assert(batch_seqs(old_batches).flatten() + cur@ =~= records@.take(i as int));
        }
        if cur.len() == batch_size {
            let full = cur;
            cur = Vec::new();
            batches.push(full);
            proof {
                assert((old_batches.len() + 1) * batch_size == old_batches.len() * batch_size
                    + batch_size) by (nonlinear_arith);
                assert(batch_seqs(batches@) =~= batch_seqs(old_batches).push(full@));
                batch_seqs(old_batches).lemma_flatten_push(full@);
                assert(batch_seqs(batches@).flatten() + cur@ =~= records@.take(i as int));
            }
        }
    }
    proof {
        assert(records@.take(i as int) =~= records@);
    }
    if cur.len() > 0 {
        let ghost old_batches = batches@;
        let last = cur;
        batches.push(last);
        proof {
            assert(batch_seqs(batches@) =~= batch_seqs(old_batches).push(last@));
            batch_seqs(old_batches).lemma_flatten_push(last@);
            assert(batch_seqs(batches@).flatten() =~= records@);
            lemma_num_batches_partial(
                records@.len() as int,
                batch_size as int,
                old_batches.len() as int,
                last@.len() as int,
            );
        }
    } else {
        proof {
            assert(batch_seqs(batches@).flatten() =~= records@);
            lemma_num_batches_exact(records@.len() as int, batch_size as int, batches@.len() as int);
        }
    }
    batches
}

/// A record count that fills whole batches exactly needs exactly that many
/// batches.
proof fn lemma_num_batches_exact(n: int, s: int, b: int)
    requires
        s >= 1,
        n == b * s,
    ensures
        num_batches(n, s) == b,
{
    assert((b * s + s - 1) / s == b) by (nonlinear_arith)
        requires
            s >= 1,
    ;
}

/// A record count of some whole batches plus a short remainder needs one
/// batch more than the whole ones.
proof fn lemma_num_batches_partial(n: int, s: int, b: int, r: int)
    requires
        s >= 1,
        1 <= r < s,
        n == b * s + r,
    ensures
        num_batches(n, s) == b + 1,
{
    assert((b * s + r + s - 1) / s == b + 1) by (nonlinear_arith)
        requires
            s >= 1 && 1 <= r < s,
    ;
}

} // verus!
