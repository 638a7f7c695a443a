//! The append-only ledger of measurement records: full scans, scans filtered
//! by workload kind, and a grouping of the measurements by kind.

use vstd::prelude::*;
use crate::records::{GasInfo, TransactionRecord};

verus! {

/// The append-only in-process store of completed measurement records, in
/// insertion order. Records are never changed or removed once appended.
pub struct Ledger {
    records: Vec<TransactionRecord>,
}

impl View for Ledger {
    type V = Seq<TransactionRecord>;

    closed spec fn view(&self) -> Seq<TransactionRecord> {
        self.records@
    }
}

/// Whether a record carries exactly the given kind discriminator.
pub open spec fn has_kind(t: TransactionRecord, kind: Seq<char>) -> bool {
    t.kind@ == kind
}

/// The records of `l` whose kind is exactly `kind`, in insertion order.
pub open spec fn of_kind(l: Seq<TransactionRecord>, kind: Seq<char>) -> Seq<TransactionRecord> {
    l.filter(|t: TransactionRecord| has_kind(t, kind))
}

/// The measurements of the records of `l` whose kind is exactly `kind`, in
/// insertion order.
pub open spec fn gas_of_kind(l: Seq<TransactionRecord>, kind: Seq<char>) -> Seq<GasInfo> {
    of_kind(l, kind).map_values(|t: TransactionRecord| t.gas_info)
}

/// Whether some record of `l` carries exactly the kind `kind`.
pub open spec fn kind_recorded(l: Seq<TransactionRecord>, kind: Seq<char>) -> bool {
    exists|k: int| 0 <= k < l.len() && has_kind(#[trigger] l[k], kind)
}

/// Whether some key of `keys` reads exactly like `kind`.
pub open spec fn key_listed(keys: Seq<String>, kind: Seq<char>) -> bool {
    exists|p: int| 0 <= p < keys.len() && (#[trigger] keys[p])@ == kind
}

/// Whether some pair of the grouping `r` carries exactly the kind `kind`.
pub open spec fn kind_grouped(r: Seq<(String, Vec<GasInfo>)>, kind: Seq<char>) -> bool {
    exists|p: int| 0 <= p < r.len() && (#[trigger] r[p]).0@ == kind
}

/// Filtering a sequence extended by one element keeps the old result and
/// appends the element exactly when it satisfies the predicate.
pub proof fn lemma_filter_push<A>(s: Seq<A>, pred: spec_fn(A) -> bool, x: A)
    ensures
        s.push(x).filter(pred) == if pred(x) {
            s.filter(pred).push(x)
        } else {
            s.filter(pred)
        },
{
    reveal(Seq::filter);
    assert(s.push(x).drop_last() =~= s);
}

/// A sequence none of whose records carry `kind` filters down to nothing.
pub proof fn lemma_of_kind_absent(l: Seq<TransactionRecord>, kind: Seq<char>)
    requires
        forall|k: int| 0 <= k < l.len() ==> !has_kind(#[trigger] l[k], kind),
    ensures
        of_kind(l, kind) == Seq::<TransactionRecord>::empty(),
    decreases l.len(),
{
    reveal(Seq::filter);
    if l.len() > 0 {
        lemma_of_kind_absent(l.drop_last(), kind);
    }
    assert(of_kind(l, kind) =~= Seq::<TransactionRecord>::empty());
}

impl Ledger {
    /// An empty ledger.
    pub fn new() -> (l: Self)
        ensures
            l@ == Seq::<TransactionRecord>::empty(),
    {
        let l = Ledger { records: Vec::new() };
        proof {
            assert(l@ =~= Seq::<TransactionRecord>::empty());
        }
        l
    }

    /// Appends one record at the end. Nothing is validated and nothing can
    /// fail: every append grows the ledger by exactly one record.
    pub fn append(&mut self, record: TransactionRecord)
        ensures
            final(self)@ == old(self)@.push(record),
    {
        self.records.push(record);
    }

    /// How many records the ledger holds.
    pub fn len(&self) -> (n: usize)
        ensures
            n == self@.len(),
    {
        self.records.len()
    }

    /// A full copy of the ledger in insertion order.
    pub fn all(&self) -> (r: Vec<TransactionRecord>)
        ensures
            r@ == self@,
    {
        let mut out: Vec<TransactionRecord> = Vec::new();
        let mut i: usize = 0;
        while i < self.records.len()
            invariant
                i <= self.records.len(),
                out@ == self@.take(i as int),
            decreases self.records.len() - i,
        {
            out.push(self.records[i].clone());
            proof {
                assert(self@.take(i + 1) =~= self@.take(i as int).push(self@[i as int]));
            }
            i = i + 1;
        }
        proof {
            assert(self@.take(self@.len() as int) =~= self@);
        }
        out
    }

    /// A copy of the records whose kind equals `kind` exactly, insertion order
    /// preserved; a kind never recorded yields an empty vector, not an error.
    pub fn by_kind(&self, kind: &String) -> (r: Vec<TransactionRecord>)
        ensures
            r@ == of_kind(self@, kind@),
    {
        let mut out: Vec<TransactionRecord> = Vec::new();
        let mut i: usize = 0;
        while i < self.records.len()
            invariant
                i <= self.records.len(),
                out@ == of_kind(self@.take(i as int), kind@),
            decreases self.records.len() - i,
        {
            if self.records[i].kind == *kind {
                out.push(self.records[i].clone());
            }
            proof {
                lemma_filter_push(
                    self@.take(i as int),
                    |t: TransactionRecord| has_kind(t, kind@),
                    self@[i as int],
                );
                assert(self@.take(i + 1) =~= self@.take(i as int).push(self@[i as int]));
            }
            i = i + 1;
        }
        proof {
            assert(self@.take(self@.len() as int) =~= self@);
        }
        out
    }

    /// The measurements of the records whose kind equals `kind`, in insertion
    /// order.
    fn gas_by_kind(&self, kind: &String) -> (g: Vec<GasInfo>)
        ensures
            g@ == gas_of_kind(self@, kind@),
    {
        let mut out: Vec<GasInfo> = Vec::new();
        let mut i: usize = 0;
        while i < self.records.len()
            invariant
                i <= self.records.len(),
                out@ == gas_of_kind(self@.take(i as int), kind@),
            decreases self.records.len() - i,
        {
            if self.records[i].kind == *kind {
                out.push(self.records[i].gas_info);
            }
            proof {
                lemma_filter_push(
                    self@.take(i as int),
                    |t: TransactionRecord| has_kind(t, kind@),
                    self@[i as int],
                );
                assert(self@.take(i + 1) =~= self@.take(i as int).push(self@[i as int]));
                assert(gas_of_kind(self@.take(i + 1), kind@) =~= if has_kind(
                    self@[i as int],
                    kind@,
                ) {
                    gas_of_kind(self@.take(i as int), kind@).push(self@[i as int].gas_info)
                } else {
                    gas_of_kind(self@.take(i as int), kind@)
                });
            }
            i = i + 1;
        }
        proof {
            assert(self@.take(self@.len() as int) =~= self@);
        }
        out
    }

    /// Whether some key in `keys` reads exactly like `kind`.
    fn contains_kind(keys: &Vec<String>, kind: &String) -> (b: bool)
        ensures
            b == key_listed(keys@, kind@),
    {
        let mut p: usize = 0;
        while p < keys.len()
            invariant
                p <= keys@.len(),
                forall|q: int| 0 <= q < p ==> (#[trigger] keys@[q])@ != kind@,
            decreases keys@.len() - p,
        {
            if keys[p] == *kind {
                return true;
            }
            p = p + 1;
        }
        false
    }

    /// The derived grouping view: one pair per kind that was ever recorded,
    /// carrying that kind's measurements in insertion order. Kinds never
    /// recorded get no pair, and no kind appears twice.
    pub fn grouped(&self) -> (r: Vec<(String, Vec<GasInfo>)>)
        ensures
            forall|p: int|
                0 <= p < r@.len() ==> (#[trigger] r@[p]).1@ == gas_of_kind(self@, r@[p].0@),
            forall|p: int, q: int| 0 <= p < q < r@.len() ==> r@[p].0@ != r@[q].0@,
            forall|p: int| 0 <= p < r@.len() ==> kind_recorded(self@, (#[trigger] r@[p]).0@),
            forall|k: int|
                0 <= k < self@.len() ==> kind_grouped(r@, (#[trigger] self@[k]).kind@),
    {
        let mut keys: Vec<String> = Vec::new();
        let mut i: usize = 0;
        while i < self.records.len()
            invariant
                i <= self.records.len(),
                forall|p: int, q: int| 0 <= p < q < keys@.len() ==> keys@[p]@ != keys@[q]@,
                forall|p: int|
                    0 <= p < keys@.len() ==> kind_recorded(
                        self@.take(i as int),
                        (#[trigger] keys@[p])@,
                    ),
                forall|k: int|
                    0 <= k < i ==> key_listed(keys@, (#[trigger] self@[k]).kind@),
            decreases self.records.len() - i,
        {
            let ghost keys_before = keys@;
            let ghost prefix = self@.take(i as int);
            let ghost prefix1 = self@.take(i + 1);
            let contained = Self::contains_kind(&keys, &self.records[i].kind);
            if !contained {
                keys.push(self.records[i].kind.clone());
            }
            proof {
                assert(prefix1 =~= prefix.push(self@[i as int]));
                assert(prefix1[i as int] == self@[i as int]);
                assert forall|p: int| 0 <= p < keys@.len() implies kind_recorded(
                    prefix1,
                    (#[trigger] keys@[p])@,
                ) by {
                    if p < keys_before.len() {
                        assert(keys@[p] == keys_before[p]);
                        let k0 = choose|k: int|
                            0 <= k < prefix.len() && has_kind(#[trigger] prefix[k], keys@[p]@);
                        assert(has_kind(prefix1[k0], keys@[p]@));
                    } else {
                        assert(keys@[p]@ == self@[i as int].kind@);
                        assert(has_kind(prefix1[i as int], keys@[p]@));
                    }
                }
                assert forall|k: int| 0 <= k < i + 1 implies key_listed(
                    keys@,
                    (#[trigger] self@[k]).kind@,
                ) by {
                    if k < i {
                        let p0 = choose|p: int|
                            0 <= p < keys_before.len() && (#[trigger] keys_before[p])@
                                == self@[k].kind@;
                        assert(keys@[p0] == keys_before[p0]);
                        assert(keys@[p0]@ == self@[k].kind@);
                    } else if contained {
                        let p0 = choose|p: int|
                            0 <= p < keys_before.len() && (#[trigger] keys_before[p])@
                                == self@[i as int].kind@;
                        assert(keys@[p0] == keys_before[p0]);
                        assert(keys@[p0]@ == self@[k].kind@);
                    } else {
                        assert(keys@[keys_before.len() as int]@ == self@[k].kind@);
                    }
                }
                assert forall|p: int, q: int| 0 <= p < q < keys@.len() implies keys@[p]@
                    != keys@[q]@ by {
                    assert(keys@[p] == keys_before[p]);
                    if q < keys_before.len() {
                        assert(keys@[q] == keys_before[q]);
                    } else {
                        assert(keys@[q]@ == self@[i as int].kind@);
                    }
                }
            }
            i = i + 1;
        }
        proof {
            assert(self@.take(self@.len() as int) =~= self@);
        }

        let mut out: Vec<(String, Vec<GasInfo>)> = Vec::new();
        let mut p: usize = 0;
        while p < keys.len()
            invariant
                p <= keys@.len(),
                out@.len() == p,
                forall|q: int| 0 <= q < p ==> (#[trigger] out@[q]).0@ == keys@[q]@,
                forall|q: int|
                    0 <= q < p ==> (#[trigger] out@[q]).1@ == gas_of_kind(self@, keys@[q]@),
            decreases keys@.len() - p,
        {
            let gas = self.gas_by_kind(&keys[p]);
            out.push((keys[p].clone(), gas));
            p = p + 1;
        }
        proof {
            assert forall|p: int| 0 <= p < out@.len() implies kind_recorded(
                self@,
                (#[trigger] out@[p]).0@,
            ) by {
                assert(out@[p].0@ == keys@[p]@);
            }
            assert forall|k: int| 0 <= k < self@.len() implies kind_grouped(
                out@,
                (#[trigger] self@[k]).kind@,
            ) by {
                let p0 = choose|p: int|
                    0 <= p < keys@.len() && (#[trigger] keys@[p])@ == self@[k].kind@;
                assert((out@[p0]).0@ == self@[k].kind@);
            }
        }
        out
    }
}

} // verus!
