//! The diagnostic stack: records in the order they were pushed, each with an
//! id that is never given twice, drained newest first.

use vstd::prelude::*;

use crate::record::{DiagnosticRecord, DiagnosticRecordDraft, DiagnosticRecordError, RecordErrorModel, RecordModel};

verus! {

/// The id of a record within its stack.
#[derive(Clone, Copy, Debug, PartialEq, Eq, Structural, Hash)]
pub struct DiagnosticId(u64);

impl View for DiagnosticId {
    type V = u64;

    closed spec fn view(&self) -> u64 {
        self.0
    }
}

/// Two ids are the same exactly when their numbers are.
pub proof fn lemma_id_view_injective(a: DiagnosticId, b: DiagnosticId)
    ensures
        (a@ == b@) == (a == b),
{
}

impl DiagnosticId {
    pub fn get(self) -> (r: u64)
        ensures
            r == self@,
    {
        self.0
    }
}

/// A position in a stack, taken by `mark` and used by `drain_after`.
#[derive(Clone, Copy, Debug, PartialEq, Eq, Structural, Hash)]
pub struct DiagnosticMark {
    index: usize,
}

impl View for DiagnosticMark {
    type V = usize;

    closed spec fn view(&self) -> usize {
        self.index
    }
}

/// The stack as the model sees it: its records, oldest first, and the
/// number the next push will use as its id.
pub struct StackModel {
    pub records: Seq<RecordModel>,
    pub next_id: u64,
}

pub open spec fn records_view(v: Seq<DiagnosticRecord>) -> Seq<RecordModel> {
    v.map_values(|r: DiagnosticRecord| r@)
}

/// The index of the record with this id, if the stack holds one.
pub open spec fn index_of_id(records: Seq<RecordModel>, id: DiagnosticId) -> Option<int> {
    if exists|i: int| 0 <= i < records.len() && (#[trigger] records[i]).id == id {
        Some(choose|i: int| 0 <= i < records.len() && (#[trigger] records[i]).id == id)
    } else {
        None
    }
}

/// Ids grow with the position in the stack and stay below the next id.
pub open spec fn ids_ordered(records: Seq<RecordModel>, next_id: u64) -> bool {
    &&& forall|i: int, j: int| 0 <= i < j < records.len() ==> (#[trigger] records[i]).id@ < (#[trigger] records[j]).id@
    &&& forall|i: int| 0 <= i < records.len() ==> (#[trigger] records[i]).id@ < next_id
}

/// What one push does to the stack model: the next id is used up; the
/// draft becomes the newest record under that id when it passes its checks,
/// else its error comes back and the records stay.
pub open spec fn push_step(
    before: StackModel,
    draft: DiagnosticRecordDraft,
    after: StackModel,
    r: Result<DiagnosticId, RecordErrorModel>,
) -> bool {
    &&& after.next_id == before.next_id + 1
    &&& match r {
        Ok(id) => {
            &&& id@ == before.next_id
            &&& draft.draft_error() is None
            &&& after.records == before.records.push(RecordModel { id, content: draft })
        },
        Err(e) => {
            &&& draft.draft_error() == Some(e)
            &&& after.records == before.records
        },
    }
}

/// A push's result as the model sees it.
pub open spec fn push_result(r: Result<DiagnosticId, DiagnosticRecordError>) -> Result<DiagnosticId, RecordErrorModel> {
    match r {
        Ok(id) => Ok(id),
        Err(e) => Err(e@),
    }
}

/// A stack of diagnostic records.
#[derive(Debug)]
pub struct DiagnosticStack {
    records: Vec<DiagnosticRecord>,
    next_id: u64,
}

impl View for DiagnosticStack {
    type V = StackModel;

    closed spec fn view(&self) -> StackModel {
        StackModel { records: records_view(self.records@), next_id: self.next_id }
    }
}

impl DiagnosticStack {
    #[verifier::type_invariant]
    closed spec fn well_formed(self) -> bool {
        ids_ordered(records_view(self.records@), self.next_id)
    }

    pub fn new() -> (r: Self)
        ensures
            r@.records.len() == 0,
            r@.next_id == 0,
    {
        let r = DiagnosticStack { records: Vec::new(), next_id: 0 };
        assert(records_view(r.records@) =~= Seq::<RecordModel>::empty());
        r
    }

    /// Gives the draft the next id and keeps it as the newest record when it
    /// passes its checks. The id is used up either way.
    pub fn push(&mut self, draft: DiagnosticRecordDraft) -> (r: Result<DiagnosticId, DiagnosticRecordError>)
        requires
            old(self)@.next_id < u64::MAX,
        ensures
            final(self)@.next_id == old(self)@.next_id + 1,
            match r {
                Ok(id) => {
                    &&& id@ == old(self)@.next_id
                    &&& draft.draft_error() is None
                    &&& final(self)@.records == old(self)@.records.push(RecordModel { id, content: draft })
                },
                Err(e) => {
                    &&& draft.draft_error() == Some(e@)
                    &&& final(self)@.records == old(self)@.records
                },
            },
            push_step(old(self)@, draft, final(self)@, push_result(r)),
    {
        proof {
            use_type_invariant(&*self);
        }
        let id = DiagnosticId(self.next_id);
        self.next_id = self.next_id + 1;
        match draft.into_record(id) {
            Err(e) => Err(e),
            Ok(record) => {
                let mut records: Vec<DiagnosticRecord> = Vec::new();
                std::mem::swap(&mut records, &mut self.records);
                let ghost old_records = records@;
                records.push(record);
                assert(records_view(records@) =~= records_view(old_records).push(record@));
                self.records = records;
                Ok(id)
            },
        }
    }

    /// The record with this id, if the stack holds it.
    pub fn get(&self, id: DiagnosticId) -> (r: Option<&DiagnosticRecord>)
        ensures
            match r {
                Some(rec) => index_of_id(self@.records, id) matches Some(i) && self@.records[i] == rec@,
                None => index_of_id(self@.records, id) is None,
            },
    {
        let mut i: usize = 0;
        while i < self.records.len()
            invariant
                i <= self.records@.len(),
                forall|j: int| 0 <= j < i ==> (#[trigger] self.records@[j])@.id != id,
            decreases self.records.len() - i,
        {
            if self.records[i].id() == id {
                proof {
                    use_type_invariant(self);
                    self.lemma_unique_ids(i as int, id);
                }
                return Some(&self.records[i]);
            }
            i = i + 1;
        }
        proof {
            assert forall|j: int| 0 <= j < self@.records.len() implies (#[trigger] self@.records[j]).id != id by {
                assert(self@.records[j] == self.records@[j]@);
            }
        }
        None
    }

    /// When record `i` has this id, `index_of_id` finds it.
    proof fn lemma_unique_ids(&self, i: int, id: DiagnosticId)
        requires
            0 <= i < self.records@.len(),
            self.records@[i]@.id == id,
            ids_ordered(self@.records, self@.next_id),
        ensures
            index_of_id(self@.records, id) == Some(i),
    {
        let rs = self@.records;
        assert(rs[i] == self.records@[i]@);
        let k = choose|k: int| 0 <= k < rs.len() && (#[trigger] rs[k]).id == id;
        if k != i {
            if k < i {
                assert(rs[k].id@ < rs[i].id@);
            } else {
                assert(rs[i].id@ < rs[k].id@);
            }
        }
    }

    /// A mark at the current top of the stack.
    pub fn mark(&self) -> (r: DiagnosticMark)
        ensures
            r@ == self@.records.len(),
    {
        DiagnosticMark { index: self.records.len() }
    }

    /// The newest record, if any.
    pub fn peek_recent(&self) -> (r: Option<&DiagnosticRecord>)
        ensures
            match r {
                Some(rec) => self@.records.len() > 0 && rec@ == self@.records.last(),
                None => self@.records.len() == 0,
            },
    {
        if self.records.len() == 0 {
            None
        } else {
            let last = self.records.len() - 1;
            Some(&self.records[last])
        }
    }

    /// Removes and returns the newest record, if any.
    pub fn pop_recent(&mut self) -> (r: Option<DiagnosticRecord>)
        ensures
            final(self)@.next_id == old(self)@.next_id,
            match r {
                Some(rec) => {
                    &&& old(self)@.records.len() > 0
                    &&& rec@ == old(self)@.records.last()
                    &&& final(self)@.records == old(self)@.records.drop_last()
                },
                None => old(self)@.records.len() == 0 && final(self)@.records == old(self)@.records,
            },
    {
        proof {
            use_type_invariant(&*self);
        }
        let mut records: Vec<DiagnosticRecord> = Vec::new();
        std::mem::swap(&mut records, &mut self.records);
        let ghost old_records = records@;
        let r = records.pop();
        proof {
            if old_records.len() > 0 {
                assert(records_view(records@) =~= records_view(old_records).drop_last());
            }
        }
        self.records = records;
        r
    }

    /// Removes the records from position `start` up and returns them newest
    /// first.
    fn drain_from(&mut self, start: usize) -> (r: Vec<DiagnosticRecord>)
        requires
            start <= old(self)@.records.len(),
        ensures
            final(self)@.next_id == old(self)@.next_id,
            final(self)@.records == old(self)@.records.take(start as int),
            records_view(r@) == old(self)@.records.skip(start as int).reverse(),
    {
        proof {
            use_type_invariant(&*self);
        }
        let ghost all = self@.records;
        let mut records: Vec<DiagnosticRecord> = Vec::new();
        std::mem::swap(&mut records, &mut self.records);
        let mut out: Vec<DiagnosticRecord> = Vec::new();
        while records.len() > start
            invariant
                start <= records@.len() <= all.len(),
                records_view(records@) == all.take(records@.len() as int),
                records_view(out@) == all.skip(records@.len() as int).reverse(),
            decreases records.len(),
        {
            let ghost n: int = records@.len() as int;
            let ghost before = records@;
            let rec = records.pop().unwrap();
            proof {
                assert(before =~= records@.push(rec));
                assert(records_view(records@) =~= records_view(before).take(n - 1));
                assert(records_view(records@) =~= all.take(n - 1));
            }
            let ghost out_before = out@;
            out.push(rec);
            proof {
                assert(records_view(before)[n - 1] == rec@);
                assert(all[n - 1] == rec@);
                assert(records_view(out@) =~= records_view(out_before).push(rec@));
                assert(all.skip(n - 1).reverse() =~= all.skip(n).reverse().push(all[n - 1]));
            }
        }
        self.records = records;
        out
    }

    /// Removes the records pushed since `mark` was taken and returns them,
    /// newest first. A mark past the top drains nothing.
    pub fn drain_after(&mut self, mark: DiagnosticMark) -> (r: Vec<DiagnosticRecord>)
        ensures
            final(self)@.next_id == old(self)@.next_id,
            final(self)@.records == old(self)@.records.take(drain_start(mark@ as int, old(self)@.records.len() as int)),
            records_view(r@) == old(self)@.records.skip(drain_start(mark@ as int, old(self)@.records.len() as int)).reverse(),
    {
        let len = self.records.len();
        let start = if mark.index < len { mark.index } else { len };
        self.drain_from(start)
    }

    /// Removes the records pushed after the one with this id, and that record
    /// too when `include_anchor` holds, and returns them newest first. An id
    /// that the stack does not hold drains nothing.
    pub fn drain_after_event(&mut self, id: DiagnosticId, include_anchor: bool) -> (r: Vec<DiagnosticRecord>)
        ensures
            final(self)@.next_id == old(self)@.next_id,
            match index_of_id(old(self)@.records, id) {
                None => r@.len() == 0 && final(self)@.records == old(self)@.records,
                Some(k) => {
                    let start = if include_anchor { k } else { k + 1 };
                    &&& final(self)@.records == old(self)@.records.take(start)
                    &&& records_view(r@) == old(self)@.records.skip(start).reverse()
                },
            },
    {
        let mut i: usize = 0;
        while i < self.records.len()
            invariant
                *self == *old(self),
                i <= self.records@.len(),
                forall|j: int| 0 <= j < i ==> (#[trigger] self.records@[j])@.id != id,
            decreases self.records.len() - i,
        {
            if self.records[i].id() == id {
                proof {
                    use_type_invariant(&*self);
                    self.lemma_unique_ids(i as int, id);
                }
                let start = if include_anchor { i } else { i + 1 };
                return self.drain_from(start);
            }
            i = i + 1;
        }
        proof {
            assert forall|j: int| 0 <= j < self@.records.len() implies (#[trigger] self@.records[j]).id != id by {
                assert(self@.records[j] == self.records@[j]@);
            }
        }
        Vec::new()
    }

    /// The records, newest first.
    pub fn snapshot(&self) -> (r: Vec<&DiagnosticRecord>)
        ensures
            r@.len() == self@.records.len(),
            forall|i: int| 0 <= i < r@.len() ==> (#[trigger] r@[i])@ == self@.records.reverse()[i],
    {
        let mut out: Vec<&DiagnosticRecord> = Vec::new();
        let mut i: usize = self.records.len();
        while i > 0
            invariant
                i <= self.records@.len(),
                out@.len() == self.records@.len() - i,
                forall|j: int| 0 <= j < out@.len() ==> (#[trigger] out@[j])@ == self.records@[self.records@.len() - 1 - j]@,
            decreases i,
        {
            i = i - 1;
            out.push(&self.records[i]);
        }
        out
    }

    /// The number of records; their ids grow with their position and stay
    /// below the next id.
    pub fn len(&self) -> (r: usize)
        ensures
            r == self@.records.len(),
            ids_ordered(self@.records, self@.next_id),
    {
        proof {
            use_type_invariant(self);
        }
        self.records.len()
    }

    pub fn is_empty(&self) -> (r: bool)
        ensures
            r == (self@.records.len() == 0),
    {
        self.records.len() == 0
    }
}

/// Where `drain_after` starts: the mark, or the top when the mark is past it.
pub open spec fn drain_start(mark: int, len: int) -> int {
    if mark < len {
        mark
    } else {
        len
    }
}

/// A record pushed with the next id is found by that id at the top of the
/// stack, and every other id is found where it was before.
pub proof fn law_get_after_push(records: Seq<RecordModel>, next_id: u64, record: RecordModel, other: DiagnosticId)
    requires
        ids_ordered(records, next_id),
        record.id@ == next_id,
    ensures
        index_of_id(records.push(record), record.id) == Some(records.len() as int),
        other != record.id ==> index_of_id(records.push(record), other) == index_of_id(records, other),
{
    let pushed = records.push(record);
    assert(pushed[records.len() as int].id == record.id);
    let k = choose|i: int| 0 <= i < pushed.len() && (#[trigger] pushed[i]).id == record.id;
    if k < records.len() {
        assert(pushed[k] == records[k]);
        assert(records[k].id@ < next_id);
    }
    if other != record.id {
        if exists|i: int| 0 <= i < records.len() && (#[trigger] records[i]).id == other {
            let i0 = choose|i: int| 0 <= i < records.len() && (#[trigger] records[i]).id == other;
            assert(pushed[i0] == records[i0]);
            let a = choose|i: int| 0 <= i < pushed.len() && (#[trigger] pushed[i]).id == other;
            let b = choose|i: int| 0 <= i < records.len() && (#[trigger] records[i]).id == other;
            if a != b {
                if a < b {
                    assert(records[a].id@ < records[b].id@);
                } else {
                    assert(pushed[a] == records[a]);
                    assert(records[b].id@ < records[a].id@);
                }
            }
        } else {
            assert forall|i: int| 0 <= i < pushed.len() implies (#[trigger] pushed[i]).id != other by {
                if i < records.len() {
                    assert(pushed[i] == records[i]);
                }
            }
        }
    }
}

/// No two records of a stack share an id.
pub proof fn law_ids_unique(records: Seq<RecordModel>, next_id: u64, i: int, j: int)
    requires
        ids_ordered(records, next_id),
        0 <= i < records.len(),
        0 <= j < records.len(),
        i != j,
    ensures
        records[i].id != records[j].id,
{
    if i < j {
        assert(records[i].id@ < records[j].id@);
    } else {
        assert(records[j].id@ < records[i].id@);
    }
}

/// Draining after a mark taken when the stack held `before` returns what was
/// pushed since, newest first, and leaves `before`.
pub proof fn law_drain_after_mark(before: Seq<RecordModel>, pushed: Seq<RecordModel>)
    ensures
        (before + pushed).take(drain_start(before.len() as int, (before + pushed).len() as int)) == before,
        (before + pushed).skip(drain_start(before.len() as int, (before + pushed).len() as int)).reverse() == pushed.reverse(),
{
    assert((before + pushed).take(before.len() as int) =~= before);
    assert((before + pushed).skip(before.len() as int) =~= pushed);
}

proof fn lemma_next_id_counts(states: Seq<StackModel>, drafts: Seq<DiagnosticRecordDraft>, results: Seq<Result<DiagnosticId, RecordErrorModel>>, i: int)
    requires
        states.len() == drafts.len() + 1,
        results.len() == drafts.len(),
        states[0].next_id == 0,
        forall|j: int| 0 <= j < drafts.len() ==> push_step(#[trigger] states[j], drafts[j], states[j + 1], results[j]),
        0 <= i < states.len(),
    ensures
        states[i].next_id == i,
    decreases i,
{
    if i > 0 {
        lemma_next_id_counts(states, drafts, results, i - 1);
        assert(push_step(states[i - 1], drafts[i - 1], states[i], results[i - 1]));
    }
}

/// After `new` and `k` pushes, successful or not, the next id is `k`: a push
/// that succeeds as the `i`-th push since `new` gets id `i`, so the ids of
/// successful pushes grow in push order and are never given twice.
pub proof fn law_push_ids_count_pushes(
    states: Seq<StackModel>,
    drafts: Seq<DiagnosticRecordDraft>,
    results: Seq<Result<DiagnosticId, RecordErrorModel>>,
)
    requires
        states.len() == drafts.len() + 1,
        results.len() == drafts.len(),
        states[0].records.len() == 0,
        states[0].next_id == 0,
        forall|j: int| 0 <= j < drafts.len() ==> push_step(#[trigger] states[j], drafts[j], states[j + 1], results[j]),
    ensures
        states.last().next_id == drafts.len(),
        forall|i: int| 0 <= i < results.len() ==> (#[trigger] results[i] matches Ok(id) ==> id@ == i),
        forall|i: int, j: int|
            0 <= i < j < results.len() && results[i] is Ok && results[j] is Ok ==> (#[trigger] results[i])->Ok_0@ < (#[trigger] results[j])->Ok_0@,
{
    lemma_next_id_counts(states, drafts, results, drafts.len() as int);
    assert forall|i: int| 0 <= i < results.len() implies (#[trigger] results[i] matches Ok(id) ==> id@ == i) by {
        lemma_next_id_counts(states, drafts, results, i);
        assert(push_step(states[i], drafts[i], states[i + 1], results[i]));
    }
    assert forall|i: int, j: int|
        0 <= i < j < results.len() && results[i] is Ok && results[j] is Ok implies (#[trigger] results[i])->Ok_0@ < (#[trigger] results[j])->Ok_0@ by {
        lemma_next_id_counts(states, drafts, results, i);
        lemma_next_id_counts(states, drafts, results, j);
        assert(push_step(states[i], drafts[i], states[i + 1], results[i]));
        assert(push_step(states[j], drafts[j], states[j + 1], results[j]));
    }
}

} // verus!
