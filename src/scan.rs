use vstd::prelude::*;
use crate::address::Address;
use crate::failure::RemoteError;

verus! {

/// Bytes before the distribution address in a claim record: the account
/// discriminator and one 8-byte field.
pub const CLAIM_DATA_DISTRIBUTION_OFFSET: usize = 16;

/// Bytes before the registrar address in a voter record: the account
/// discriminator and the voter's authority.
pub const VOTER_REGISTRAR_OFFSET: usize = 40;

/// A server-side equality predicate on a byte range of an account's data.
#[derive(Debug, Clone, PartialEq, Eq)]
pub struct MemcmpFilter {
    pub offset: usize,
    pub bytes: Vec<u8>,
}

/// Whether `data` holds `key` at `offset`.
pub open spec fn range_equals(data: Seq<u8>, offset: nat, key: Seq<u8>) -> bool {
    &&& offset + key.len() <= data.len()
    &&& data.subrange(offset as int, (offset + key.len()) as int) == key
}

/// One account as listed by a filtered scan: its address, its raw data and
/// what that data decodes to.
#[derive(Debug, Clone)]
pub struct ScannedAccount<T> {
    pub address: Address,
    pub data: Vec<u8>,
    pub account: T,
}

impl MemcmpFilter {
    pub open spec fn accepts(&self, data: Seq<u8>) -> bool {
        range_equals(data, self.offset as nat, self.bytes@)
    }

    /// Whether the account data holds this filter's bytes at its offset.
    pub fn matches(&self, data: &Vec<u8>) -> (r: bool)
        ensures
            r == self.accepts(data@),
    {
        let n = self.bytes.len();
        if self.offset > data.len() || n > data.len() - self.offset {
            return false;
        }
        let mut i: usize = 0;
        while i < n
            invariant
                i <= n,
                n == self.bytes@.len(),
                self.offset + n <= data.len(),
                forall|j: int| 0 <= j < i ==> data@[self.offset + j] == self.bytes@[j],
            decreases n - i,
        {
            if data[self.offset + i] != self.bytes[i] {
                assert(data@.subrange(self.offset as int, self.offset + n)[i as int] != self.bytes@[i as int]);
                return false;
            }
            i = i + 1;
        }
        assert(data@.subrange(self.offset as int, self.offset + n) =~= self.bytes@);
        true
    }
}

/// The filter that selects the claim records of a distribution.
pub fn claim_data_filter(distribution: &Address) -> (r: MemcmpFilter)
    ensures
        r.offset == CLAIM_DATA_DISTRIBUTION_OFFSET,
        r.bytes@ == distribution@,
{
    MemcmpFilter { offset: CLAIM_DATA_DISTRIBUTION_OFFSET, bytes: distribution.to_vec() }
}

/// The filter that selects the voter records of a registrar.
pub fn voter_filter(registrar: &Address) -> (r: MemcmpFilter)
    ensures
        r.offset == VOTER_REGISTRAR_OFFSET,
        r.bytes@ == registrar@,
{
    MemcmpFilter { offset: VOTER_REGISTRAR_OFFSET, bytes: registrar.to_vec() }
}

/// What a scan amounts to: the entries that the filter accepts, in order,
/// with vanished accounts dropped, or the first error that is not a vanished
/// account.
pub open spec fn scan_result<T>(filter: MemcmpFilter, entries: Seq<Result<ScannedAccount<T>, RemoteError>>)
    -> Result<Seq<ScannedAccount<T>>, RemoteError>
    decreases entries.len(),
{
    if entries.len() == 0 {
        Ok(Seq::empty())
    } else {
        match scan_result(filter, entries.drop_last()) {
            Err(e) => Err(e),
            Ok(kept) => match entries.last() {
                Err(RemoteError::AccountNotFound) => Ok(kept),
                Err(e) => Err(e),
                Ok(a) => if filter.accepts(a.data@) {
                    Ok(kept.push(a))
                } else {
                    Ok(kept)
                },
            },
        }
    }
}

/// Collects the entries of a filtered scan: an account that vanished between
/// listing and fetching is dropped, an entry whose data does not hold the
/// filter's key is never yielded, and any other error ends the scan.
pub fn collect_scan<T>(filter: &MemcmpFilter, entries: Vec<Result<ScannedAccount<T>, RemoteError>>)
    -> (r: Result<Vec<ScannedAccount<T>>, RemoteError>)
    ensures
        match scan_result(*filter, entries@) {
            Ok(kept) => r matches Ok(v) && v@ == kept,
            Err(e) => r == Err::<Vec<ScannedAccount<T>>, RemoteError>(e),
        },
{
    let mut kept: Vec<ScannedAccount<T>> = Vec::new();
    let mut rest = entries;
    let ghost all = rest@;
    let total: usize = rest.len();
    let ghost n = all.len();
    let mut i: usize = 0;
    while rest.len() > 0
        invariant
            all == entries@,
            n == all.len(),
            n == total,
            i + rest@.len() == n,
            rest@ == all.subrange(i as int, n as int),
            scan_result(*filter, all.subrange(0, i as int)) == Ok::<Seq<ScannedAccount<T>>, RemoteError>(kept@),
        decreases rest@.len(),
    {
        let entry = rest.remove(0);
        assert(all.subrange(0, i + 1).drop_last() == all.subrange(0, i as int));
        assert(entry == all[i as int]);
        assert(all.subrange(0, i + 1).last() == entry);
        match entry {
            Err(RemoteError::AccountNotFound) => {},
            Err(e) => {
                proof {
                    let pre = all.subrange(0, i + 1);
                    assert(pre.drop_last() == all.subrange(0, i as int));
                    assert(scan_result(*filter, pre) == Err::<Seq<ScannedAccount<T>>, RemoteError>(e));
                    lemma_scan_error_stays(*filter, all, i as int + 1, e);
                }
                return Err(e);
            },
            Ok(a) => {
                if filter.matches(&a.data) {
                    kept.push(a);
                }
            },
        }
        i = i + 1;
    }
    assert(all.subrange(0, n as int) == all);
    Ok(kept)
}

/// A scan that has failed on a prefix of the entries fails with the same error
/// on all of them.
proof fn lemma_scan_error_stays<T>(
    filter: MemcmpFilter,
    entries: Seq<Result<ScannedAccount<T>, RemoteError>>,
    k: int,
    e: RemoteError,
)
    requires
        0 <= k <= entries.len(),
        scan_result(filter, entries.subrange(0, k)) == Err::<Seq<ScannedAccount<T>>, RemoteError>(e),
    ensures
        scan_result(filter, entries) == Err::<Seq<ScannedAccount<T>>, RemoteError>(e),
    decreases entries.len() - k,
{
    if k < entries.len() {
        assert(entries.subrange(0, k + 1).drop_last() == entries.subrange(0, k));
        lemma_scan_error_stays(filter, entries, k + 1, e);
    } else {
        assert(entries.subrange(0, k) == entries);
    }
}

/// Every account that a successful scan yields holds the filter's key at the
/// filter's offset.
pub proof fn lemma_scan_yields_only_matches<T>(
    filter: MemcmpFilter,
    entries: Seq<Result<ScannedAccount<T>, RemoteError>>,
)
    requires
        scan_result(filter, entries) is Ok,
    ensures
        forall|i: int| 0 <= i < scan_result(filter, entries)->Ok_0.len()
            ==> filter.accepts(#[trigger] scan_result(filter, entries)->Ok_0[i].data@),
    decreases entries.len(),
{
    if entries.len() > 0 {
        lemma_scan_yields_only_matches(filter, entries.drop_last());
        let kept = scan_result(filter, entries.drop_last())->Ok_0;
        let now = scan_result(filter, entries)->Ok_0;
        assert forall|i: int| 0 <= i < now.len() implies filter.accepts(#[trigger] now[i].data@) by {
            if i < kept.len() {
                assert(now[i] == kept[i]);
            }
        }
    }
}

} // verus!
