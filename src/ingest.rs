use vstd::prelude::*;
use vstd::arithmetic::div_mod::lemma_fundamental_div_mod_converse;
use vstd::string::StringExecFns;

use crate::record::views;
use crate::store::{
    opt_upsert_view, upsert_of, upsert_views, upserts_of, TableKind, Upsert,
};
use crate::{crew, episodes, names, principals, titles};

verus! {

/// The records that ingestion reads and writes in batches of this many.
pub const INGEST_BATCH_SIZE: usize = 100000;

/// The decoded records of a list, field by field.
pub open spec fn records_view(rs: Seq<Vec<String>>) -> Seq<Seq<Seq<char>>> {
    rs.map_values(|r: Vec<String>| views(r@))
}

/// The source files, each with the table its records go to, in the order they
/// are ingested.
pub fn source_files() -> (r: Vec<(String, TableKind)>)
    ensures
        r.len() == 6,
        r[0].0@ == "data/name.basics.tsv"@ && r[0].1 == TableKind::Names,
        r[1].0@ == "data/title.akas.tsv"@ && r[1].1 == TableKind::TitleAkas,
        r[2].0@ == "data/title.basics.tsv"@ && r[2].1 == TableKind::Titles,
        r[3].0@ == "data/title.episode.tsv"@ && r[3].1 == TableKind::Episodes,
        r[4].0@ == "data/title.principals.tsv"@ && r[4].1 == TableKind::Principals,
        r[5].0@ == "data/title.crew.tsv"@ && r[5].1 == TableKind::Crew,
{
    let mut r: Vec<(String, TableKind)> = Vec::new();
    r.push((String::from_str("data/name.basics.tsv"), TableKind::Names));
    r.push((String::from_str("data/title.akas.tsv"), TableKind::TitleAkas));
    r.push((String::from_str("data/title.basics.tsv"), TableKind::Titles));
    r.push((String::from_str("data/title.episode.tsv"), TableKind::Episodes));
    r.push((String::from_str("data/title.principals.tsv"), TableKind::Principals));
    r.push((String::from_str("data/title.crew.tsv"), TableKind::Crew));
    r
}

/// The write for one record of the given table.
pub fn ingest_record(kind: TableKind, record: &Vec<String>) -> (r: Option<Upsert>)
    ensures
        opt_upsert_view(r) == upsert_of(kind, views(record@)),
{
    match kind {
        TableKind::Names => names::ingest(record),
        TableKind::TitleAkas => titles::ingest_aka(record),
        TableKind::Titles => titles::ingest(record),
        TableKind::Episodes => episodes::ingest(record),
        TableKind::Principals => principals::ingest(record),
        TableKind::Crew => crew::ingest(record),
    }
}

/// The writes for a batch of records, in order; malformed records give none.
pub fn ingest_batch(kind: TableKind, batch: &Vec<Vec<String>>) -> (r: Vec<Upsert>)
    ensures
        upsert_views(r@) == upserts_of(kind, records_view(batch@)),
{
    let mut out: Vec<Upsert> = Vec::new();
    let mut i: usize = 0;
    while i < batch.len()
        invariant
            i <= batch.len(),
            upsert_views(out@) == upserts_of(kind, records_view(batch@).take(i as int)),
        decreases batch.len() - i,
    {
        let ghost before = records_view(batch@).take(i as int);
        let ghost after = records_view(batch@).take(i as int + 1);
        proof {
            assert(after.drop_last() =~= before);
            assert(after.last() == views(batch@[i as int]@));
        }
        match ingest_record(kind, &batch[i]) {
            Some(u) => {
                out.push(u);
                proof {
                    assert(upsert_views(out@) =~= upserts_of(kind, before).push(u@));
                }
            },
            None => {},
        }
        i = i + 1;
    }
    proof {
        assert(records_view(batch@).take(batch.len() as int) =~= records_view(batch@));
    }
    out
}

/// Writes of two runs of records are the writes of the whole, in order.
pub proof fn lemma_upserts_concat(
    kind: TableKind,
    a: Seq<Seq<Seq<char>>>,
    b: Seq<Seq<Seq<char>>>,
)
    ensures
        upserts_of(kind, a + b) == upserts_of(kind, a) + upserts_of(kind, b),
    decreases b.len(),
{
    if b.len() == 0 {
        assert(a + b =~= a);
        assert(upserts_of(kind, a) + upserts_of(kind, b) =~= upserts_of(kind, a));
    } else {
        assert((a + b).drop_last() =~= a + b.drop_last());
        assert((a + b).last() == b.last());
        lemma_upserts_concat(kind, a, b.drop_last());
        match upsert_of(kind, b.last()) {
            Some(u) => {
                assert(upserts_of(kind, a) + upserts_of(kind, b) =~= (upserts_of(kind, a)
                    + upserts_of(kind, b.drop_last())).push(u));
            },
            None => {},
        }
    }
}

/// Gathers records into batches of a fixed capacity. A full batch is handed
/// out as soon as it fills; what is left at the end of the input is handed
/// out by `finish`.
pub struct Batcher {
    buffer: Vec<Vec<String>>,
    capacity: usize,
    committed: usize,
    flushes: usize,
    seen: Ghost<Seq<Seq<Seq<char>>>>,
    flushed: Ghost<Seq<Seq<Seq<char>>>>,
}

impl Batcher {
    /// Every record pushed so far, in order.
    pub closed spec fn seen(&self) -> Seq<Seq<Seq<char>>> {
        self.seen@
    }

    /// The records handed out in full batches so far, in order.
    pub closed spec fn flushed(&self) -> Seq<Seq<Seq<char>>> {
        self.flushed@
    }

    /// The records waiting in the buffer.
    pub closed spec fn pending(&self) -> Seq<Seq<Seq<char>>> {
        records_view(self.buffer@)
    }

    pub closed spec fn spec_capacity(&self) -> nat {
        self.capacity as nat
    }

    /// The number of full batches handed out so far.
    pub closed spec fn spec_flushes(&self) -> nat {
        self.flushes as nat
    }

    pub closed spec fn wf(&self) -> bool {
        &&& self.capacity > 0
        &&& self.buffer.len() < self.capacity
        &&& self.committed == self.flushes * self.capacity
        &&& self.flushed@.len() == self.committed
        &&& self.seen@ == self.flushed@ + records_view(self.buffer@)
        &&& self.seen@.len() <= usize::MAX
    }

    pub fn new(capacity: usize) -> (r: Self)
        requires
            capacity > 0,
        ensures
            r.wf(),
            r.spec_capacity() == capacity,
            r.seen().len() == 0,
            r.flushed().len() == 0,
            r.pending().len() == 0,
            r.spec_flushes() == 0,
    {
        let r = Batcher {
            buffer: Vec::new(),
            capacity,
            committed: 0,
            flushes: 0,
            seen: Ghost(Seq::empty()),
            flushed: Ghost(Seq::empty()),
        };
        assert(r.seen@ =~= r.flushed@ + records_view(r.buffer@));
        r
    }

    /// The number of records handed out in full batches so far.
    pub fn committed(&self) -> (r: usize)
        requires
            self.wf(),
        ensures
            r == self.flushed().len(),
    {
        self.committed
    }

    /// The number of records taken so far.
    pub fn records(&self) -> (r: usize)
        requires
            self.wf(),
        ensures
            r == self.seen().len(),
    {
        self.committed + self.buffer.len()
    }

    /// The number of full batches handed out so far.
    pub fn flushes(&self) -> (r: usize)
        requires
            self.wf(),
        ensures
            r == self.spec_flushes(),
    {
        self.flushes
    }

    /// Takes one record; hands out the batch when this record fills it.
    pub fn push(&mut self, record: Vec<String>) -> (r: Option<Vec<Vec<String>>>)
        requires
            old(self).wf(),
            old(self).seen().len() < usize::MAX,
        ensures
            final(self).wf(),
            final(self).spec_capacity() == old(self).spec_capacity(),
            final(self).seen() == old(self).seen().push(views(record@)),
            r is Some <==> old(self).pending().len() + 1 == old(self).spec_capacity(),
            match r {
                Some(b) => {
                    &&& records_view(b@) == old(self).pending().push(views(record@))
                    &&& final(self).spec_flushes() == old(self).spec_flushes() + 1
                    &&& final(self).pending().len() == 0
                },
                None => {
                    &&& final(self).spec_flushes() == old(self).spec_flushes()
                    &&& final(self).pending() == old(self).pending().push(views(record@))
                },
            },
    {
        let ghost rv = views(record@);
        let ghost old_pending = records_view(self.buffer@);
        self.buffer.push(record);
        proof {
            assert(records_view(self.buffer@) =~= old_pending.push(rv));
            self.seen@ = self.seen@.push(rv);
            assert(self.seen@ =~= self.flushed@ + records_view(self.buffer@));
        }
        let ghost c0 = self.committed as int;
        let ghost f0 = self.flushes as int;
        if self.buffer.len() == self.capacity {
            proof {
                let c = self.capacity as int;
                assert(f0 <= c0) by (nonlinear_arith)
                    requires
                        c0 == f0 * c,
                        c >= 1,
                        f0 >= 0,
                ;
            }
            let mut batch: Vec<Vec<String>> = Vec::new();
            core::mem::swap(&mut self.buffer, &mut batch);
            self.committed = self.committed + self.capacity;
            self.flushes = self.flushes + 1;
            proof {
                self.flushed@ = self.flushed@ + records_view(batch@);
                let c = self.capacity as int;
                assert(c0 + c == (f0 + 1) * c) by (nonlinear_arith)
                    requires
                        c0 == f0 * c,
                ;
                assert(records_view(self.buffer@) =~= Seq::<Seq<Seq<char>>>::empty());
                assert(self.seen@ =~= self.flushed@ + records_view(self.buffer@));
            }
            Some(batch)
        } else {
            None
        }
    }

    /// Ends the input: hands out what is left, if anything.
    pub fn finish(self) -> (r: Option<Vec<Vec<String>>>)
        requires
            self.wf(),
        ensures
            r is Some <==> self.pending().len() > 0,
            r matches Some(b) ==> records_view(b@) == self.pending(),
    {
        if self.buffer.len() > 0 {
            Some(self.buffer)
        } else {
            None
        }
    }
}

/// Batch completeness: the full batches and the final partial one together
/// number the ceiling of (records / capacity), hold every record in order, and
/// so give exactly the writes of the whole input.
pub proof fn lemma_batch_completeness(b: Batcher, kind: TableKind)
    requires
        b.wf(),
    ensures
        b.spec_flushes() + (if b.pending().len() > 0 {
            1nat
        } else {
            0nat
        }) == (b.seen().len() + b.spec_capacity() - 1) as nat / b.spec_capacity(),
        b.flushed().len() == b.spec_flushes() * b.spec_capacity(),
        b.flushed() + b.pending() == b.seen(),
        upserts_of(kind, b.flushed()) + upserts_of(kind, b.pending()) == upserts_of(
            kind,
            b.seen(),
        ),
{
    reveal(Batcher::wf);
    let n = b.seen().len() as int;
    let c = b.spec_capacity() as int;
    let f = b.spec_flushes() as int;
    let p = b.pending().len() as int;
    assert(n == f * c + p);
    if p > 0 {
        assert(n + c - 1 == (f + 1) * c + (p - 1)) by (nonlinear_arith)
            requires
                n == f * c + p,
        ;
        lemma_fundamental_div_mod_converse(n + c - 1, c, f + 1, p - 1);
    } else {
        lemma_fundamental_div_mod_converse(n + c - 1, c, f, c - 1);
    }
    lemma_upserts_concat(kind, b.flushed(), b.pending());
}

} // verus!
