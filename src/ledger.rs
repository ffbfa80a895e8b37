//! The deduplication ledger: which screened records a job reports, and which
//! identifiers it has recorded afterwards.
use vstd::prelude::*;
use crate::rules::Finding;

verus! {

/// Records of one poll, each reduced to its identifier and its findings.
pub type Screened = Seq<(i32, Seq<Finding>)>;

/// The ledger after a poll: every record with findings has its identifier
/// recorded.
pub open spec fn ledger_after(ledger: Set<i32>, s: Screened) -> Set<i32>
    decreases s.len(),
{
    if s.len() == 0 {
        ledger
    } else {
        let prev = ledger_after(ledger, s.drop_last());
        if s.last().1.len() > 0 {
            prev.insert(s.last().0)
        } else {
            prev
        }
    }
}

/// Positions of the records that a poll reports, in order: those with findings
/// whose identifier was not yet recorded when the poll reached them.
pub open spec fn reported(ledger: Set<i32>, s: Screened) -> Seq<int>
    decreases s.len(),
{
    if s.len() == 0 {
        seq![]
    } else {
        let p = s.drop_last();
        let prev = reported(ledger, p);
        if s.last().1.len() > 0 && !ledger_after(ledger, p).contains(s.last().0) {
            prev.push(s.len() - 1)
        } else {
            prev
        }
    }
}

/// A poll only ever adds to the ledger.
pub proof fn lemma_ledger_grows(ledger: Set<i32>, s: Screened)
    ensures
        ledger.subset_of(ledger_after(ledger, s)),
    decreases s.len(),
{
    if s.len() > 0 {
        lemma_ledger_grows(ledger, s.drop_last());
    }
}

/// Every reported record has findings, was not in the ledger before the poll,
/// is in the ledger after it, and no identifier is reported twice in one poll.
pub proof fn lemma_reported_records(ledger: Set<i32>, s: Screened)
    ensures
        forall|j: int|
            #![trigger reported(ledger, s)[j]]
            0 <= j < reported(ledger, s).len() ==> {
                let k = reported(ledger, s)[j];
                &&& 0 <= k < s.len()
                &&& s[k].1.len() > 0
                &&& !ledger.contains(s[k].0)
                &&& ledger_after(ledger, s).contains(s[k].0)
            },
        forall|j1: int, j2: int|
            0 <= j1 < j2 < reported(ledger, s).len() ==> s[#[trigger] reported(ledger, s)[j1]].0
                != s[#[trigger] reported(ledger, s)[j2]].0,
    decreases s.len(),
{
    if s.len() > 0 {
        let p = s.drop_last();
        lemma_reported_records(ledger, p);
        lemma_ledger_grows(ledger, p);
        let rp = reported(ledger, p);
        assert forall|j: int| 0 <= j < rp.len() implies s[rp[j]] == p[rp[j]] by {}
        if s.last().1.len() > 0 && !ledger_after(ledger, p).contains(s.last().0) {
            assert(s[s.len() - 1] == s.last());
        }
    }
}

/// Once a poll has reported a record, a later poll of the same job, which
/// starts from the ledger the first one left, never reports its identifier
/// again, whatever the records it sees.
pub proof fn lemma_recorded_never_reported_again(ledger: Set<i32>, first: Screened, later: Screened)
    ensures
        forall|j: int, k: int|
            0 <= j < reported(ledger, first).len() && 0 <= k < reported(
                ledger_after(ledger, first),
                later,
            ).len() ==> first[#[trigger] reported(ledger, first)[j]].0 != later[
                #[trigger] reported(ledger_after(ledger, first), later)[k]].0,
{
    lemma_reported_records(ledger, first);
    lemma_reported_records(ledger_after(ledger, first), later);
}

} // verus!
