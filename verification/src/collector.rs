//! Resilient result collector: turns a fully drained cursor into typed
//! records, tolerating per-record conversion failures without aborting the
//! batch.
//!
//! A failure of the stream itself is fatal and yields no partial result; a
//! failure of one record only increments the drop count and, when the raw
//! record exposed an identifier, records that identifier.

use vstd::prelude::*;
use crate::errors::AxumErrors;

verus! {

/// One raw record as handed over by the store glue: the typed value when the
/// record converted, and the record's stringified identifier when the raw
/// document exposed one.
#[derive(Clone, Debug, PartialEq)]
pub struct RawRecord<T> {
    pub parsed: Option<T>,
    pub record_id: Option<String>,
}

/// Accounting result of collecting one batch.
#[derive(Clone, Debug, PartialEq)]
pub struct CollectCusrorResult<T> {
    pub successfully_deserialized: Vec<T>,
    pub failed_deserialized: Vec<String>,
    pub dropped: u64,
}

/// The converted values of the records that converted, in order.
pub open spec fn spec_successes<T>(records: Seq<RawRecord<T>>) -> Seq<T>
    decreases records.len(),
{
    if records.len() == 0 {
        Seq::empty()
    } else {
        let rest = spec_successes(records.drop_last());
        match records.last().parsed {
            Some(t) => rest.push(t),
            None => rest,
        }
    }
}

/// The identifiers of the records that failed to convert and exposed an
/// identifier, in order.
pub open spec fn spec_failed_ids<T>(records: Seq<RawRecord<T>>) -> Seq<String>
    decreases records.len(),
{
    if records.len() == 0 {
        Seq::empty()
    } else {
        let rest = spec_failed_ids(records.drop_last());
        match records.last().parsed {
            Some(_) => rest,
            None => match records.last().record_id {
                Some(id) => rest.push(id),
                None => rest,
            },
        }
    }
}

/// How many records failed to convert.
pub open spec fn spec_dropped<T>(records: Seq<RawRecord<T>>) -> nat
    decreases records.len(),
{
    if records.len() == 0 {
        0
    } else {
        spec_dropped(records.drop_last()) + if records.last().parsed is Some {
            0nat
        } else {
            1nat
        }
    }
}

/// Accounting invariant of a collected batch: every record either converted
/// or was dropped, and each recorded identifier names a record that failed
/// to convert while exposing that identifier.
pub proof fn lemma_collection_invariant<T>(records: Seq<RawRecord<T>>)
    ensures
        spec_successes(records).len() + spec_dropped(records) == records.len(),
        spec_failed_ids(records).len() <= spec_dropped(records),
        forall|k: int|
            0 <= k < spec_failed_ids(records).len() ==> exists|i: int|
                {
                    &&& 0 <= i < records.len()
                    &&& records[i].parsed is None
                    &&& records[i].record_id == Some(#[trigger] spec_failed_ids(records)[k])
                },
    decreases records.len(),
{
    if records.len() > 0 {
        let rest = records.drop_last();
        lemma_collection_invariant(rest);
        assert forall|k: int| 0 <= k < spec_failed_ids(records).len() implies exists|i: int|
            {
                &&& 0 <= i < records.len()
                &&& records[i].parsed is None
                &&& records[i].record_id == Some(#[trigger] spec_failed_ids(records)[k])
            } by {
            if k < spec_failed_ids(rest).len() {
                let i = choose|i: int|
                    {
                        &&& 0 <= i < rest.len()
                        &&& rest[i].parsed is None
                        &&& rest[i].record_id == Some(spec_failed_ids(rest)[k])
                    };
                assert(records[i] == rest[i]);
            } else {
                let i = records.len() - 1;
                assert(records[i].parsed is None && records[i].record_id == Some(
                    spec_failed_ids(records)[k],
                ));
            }
        }
    }
}

impl<T> CollectCusrorResult<T> {
    /// The result accounts exactly for the given record batch.
    pub open spec fn spec_collects(self, records: Seq<RawRecord<T>>) -> bool {
        &&& self.successfully_deserialized@ == spec_successes(records)
        &&& self.failed_deserialized@ == spec_failed_ids(records)
        &&& self.dropped == spec_dropped(records)
    }
}

impl<T: Clone> CollectCusrorResult<T> {
    /// Copies of the three accounting parts.  The identifier list and the
    /// drop count come back exactly; the successes come back as clones.
    pub fn get_results(&self) -> (r: (Vec<T>, Vec<String>, u64))
        ensures
            r.0.len() == self.successfully_deserialized.len(),
            forall|i: int|
                0 <= i < r.0.len() ==> cloned::<T>(self.successfully_deserialized[i], r.0@[i]),
            r.1@ == self.failed_deserialized@,
            r.2 == self.dropped,
    {
        let ids = self.failed_deserialized.clone();
        proof {
            assert forall|i: int| 0 <= i < ids@.len() implies self.failed_deserialized@[i]
                == ids@[i] by {
                assert(cloned::<String>(self.failed_deserialized[i], ids@[i]));
            }
            assert(self.failed_deserialized@ =~= ids@);
        }
        (self.successfully_deserialized.clone(), ids, self.dropped)
    }
}

/// Collects one fully drained batch: converted records are kept in order,
/// failed records are counted, and a failed record that exposed an
/// identifier has it recorded.  Never aborts on a bad record.
pub fn collect_records<T>(records: Vec<RawRecord<T>>) -> (r: CollectCusrorResult<T>)
    ensures
        r.spec_collects(records@),
{
    let ghost all = records@;
    proof {
        assert(records.len() <= usize::MAX);
    }
    let mut successfully_deserialized: Vec<T> = Vec::new();
    let mut failed_deserialized: Vec<String> = Vec::new();
    let mut dropped: u64 = 0;
    for rec in it: records.into_iter()
        invariant
            it.seq() == all,
            successfully_deserialized@ == spec_successes(all.take(it.index() as int)),
            failed_deserialized@ == spec_failed_ids(all.take(it.index() as int)),
            dropped == spec_dropped(all.take(it.index() as int)),
            dropped <= it.index(),
            all.len() <= usize::MAX,
    {
        proof {
            assert(all.take(it.index() + 1).drop_last() =~= all.take(it.index() as int));
            assert(all.take(it.index() + 1).last() == rec);
        }
        match rec.parsed {
            Some(t) => successfully_deserialized.push(t),
            None => {
                proof {
                    assert(it.index() < all.len());
                    assert(dropped < u64::MAX);
                }
                dropped = dropped + 1;
                match rec.record_id {
                    Some(id) => failed_deserialized.push(id),
                    None => (),
                }
            },
        }
    }
    proof {
        assert(all.take(all.len() as int) =~= all);
    }
    CollectCusrorResult { successfully_deserialized, failed_deserialized, dropped }
}

/// Collection entry point mirroring the whole cursor walk: `drained` is the
/// outcome of draining the underlying stream in full.  A stream failure is
/// fatal — the batch yields no partial result, only the decode error.
pub fn collect_cursor<T>(drained: Result<Vec<RawRecord<T>>, ()>) -> (r: Result<
    CollectCusrorResult<T>,
    AxumErrors,
>)
    ensures
        drained is Err ==> r == Err::<CollectCusrorResult<T>, AxumErrors>(
            AxumErrors::BsonDeserializeError,
        ),
        drained matches Ok(records) ==> r matches Ok(c) && c.spec_collects(records@),
{
    match drained {
        Ok(records) => Ok(collect_records(records)),
        Err(_) => Err(AxumErrors::BsonDeserializeError),
    }
}

} // verus!
