//! The scan of the inception lane: what it does to one request, and what it
//! does to the bus as a whole.

use vstd::prelude::*;
use crate::fault::Fatal;
use crate::permission::Permission;
use crate::signal::{Lane, Transport};
use crate::wiring::InBus;
use crate::word::{index_of_word, word_of_index, Word};

verus! {

/// The bus identifier of the peer at `index`, or `PeerOverflow` where the
/// word type has no identifier that large.
pub fn bus_id<W: Word>(index: usize) -> (r: Result<W, Fatal>)
    ensures
        r == match word_of_index::<W>(index as nat) {
            Some(id) => Ok::<W, Fatal>(id),
            None => Err::<W, Fatal>(Fatal::PeerOverflow),
        },
{
    match W::from_index(index) {
        Some(id) => Ok(id),
        None => Err(Fatal::PeerOverflow),
    }
}

/// What becomes of a request that slot `index` of the inception lane yielded,
/// given the sender's permission and whether the core permits it.
///
/// A request from a slot that has no bus identifier is a wiring fault,
/// whoever sent it. Otherwise the request comes back with its slot's
/// identifier where the core permits it, and is dropped where it does not.
pub open spec fn screened<W: Word>(
    index: nat,
    permission: Permission<W>,
    permitted: bool,
) -> Result<Option<(W, Permission<W>)>, Fatal> {
    match word_of_index::<W>(index) {
        None => Err(Fatal::PeerOverflow),
        Some(id) => if permitted {
            Ok(Some((id, permission)))
        } else {
            Ok(None)
        },
    }
}

/// Screens a request that slot `index` of the inception lane yielded.
pub fn screen_inception<W: Word>(
    index: usize,
    permission: Permission<W>,
    permitted: bool,
) -> (r: Result<Option<(W, Permission<W>)>, Fatal>)
    ensures
        r == screened(index as nat, permission, permitted),
{
    match bus_id::<W>(index) {
        Err(fault) => Err(fault),
        Ok(id) => if permitted {
            Ok(Some((id, permission)))
        } else {
            Ok(None)
        },
    }
}

/// Whether the account `is` of a channel is the account `was` with one more
/// signal taken. That signal is `is.last()`.
pub open spec fn took_one<T>(was: Seq<T>, is: Seq<T>) -> bool {
    &&& is.len() == was.len() + 1
    &&& is.drop_last() == was
}

/// Whether a scan may have taken the account of inception slot `slot` from
/// `was` to `is` and gone on: it took nothing, or the slot has a bus
/// identifier and it took one request that the core does not admit.
pub open spec fn passed<W: Word>(
    admits: spec_fn(Permission<W>) -> bool,
    slot: int,
    was: Seq<Transport<W>>,
    is: Seq<Transport<W>>,
) -> bool {
    ||| is == was
    ||| {
        &&& slot <= W::limit()
        &&& took_one(was, is)
        &&& !admits(is.last().permission)
    }
}

/// Whether a scan that took the bus from `before` to `after` may have come
/// as far as slot `stop`: it has passed every slot before `stop` and has
/// touched none after it.
pub open spec fn passed_until<W: Word>(
    admits: spec_fn(Permission<W>) -> bool,
    before: InBus<W>,
    after: InBus<W>,
    stop: int,
) -> bool {
    &&& forall|p: int|
        0 <= p < stop && p < before.peers() ==> passed(
            admits,
            p,
            #[trigger] before.taken(Lane::Inception, p),
            after.taken(Lane::Inception, p),
        )
    &&& forall|p: int|
        stop < p < before.peers() ==> #[trigger] after.taken(Lane::Inception, p) == before.taken(
            Lane::Inception,
            p,
        )
}

/// Whether a scan may have ended at slot `stop` with the request of
/// `permission` under the identifier `id`: `id` names the slot, the request
/// is the one the scan took off it, and the core admits it.
pub open spec fn found_at<W: Word>(
    admits: spec_fn(Permission<W>) -> bool,
    before: InBus<W>,
    after: InBus<W>,
    stop: int,
    id: W,
    permission: Permission<W>,
) -> bool {
    &&& 0 <= stop < before.peers()
    &&& word_of_index::<W>(stop as nat) == Some(id)
    &&& took_one(before.taken(Lane::Inception, stop), after.taken(Lane::Inception, stop))
    &&& after.taken(Lane::Inception, stop).last().permission == permission
    &&& admits(permission)
    &&& passed_until(admits, before, after, stop)
}

/// Whether a scan may have failed at slot `stop`: the slot lies beyond the
/// range of the word and the scan took a request off it.
pub open spec fn faulted_at<W: Word>(
    admits: spec_fn(Permission<W>) -> bool,
    before: InBus<W>,
    after: InBus<W>,
    stop: int,
) -> bool {
    &&& W::limit() < stop < before.peers()
    &&& took_one(before.taken(Lane::Inception, stop), after.taken(Lane::Inception, stop))
    &&& passed_until(admits, before, after, stop)
}

/// What every scan of the inception lane does, whatever is pending.
///
/// The scan takes the bus from `before` to `after` and ends in `r`, for a
/// core whose policy is `admits`. It visits the slots in index order and
/// takes at most one request off each. It leaves the other lanes alone.
///
/// - It ends with a request only at the slot that the returned identifier
///   names, with the request it took off that slot, which the core admits.
/// - It fails only at a slot beyond the range of the word, off which it took
///   a request.
/// - Either way it has passed every slot before that one and touched none
///   after it. Where it ends with nothing it has passed every slot.
pub open spec fn scanned<W: Word>(
    admits: spec_fn(Permission<W>) -> bool,
    before: InBus<W>,
    after: InBus<W>,
    r: Result<Option<(W, Permission<W>)>, Fatal>,
) -> bool {
    &&& after.peers() == before.peers()
    &&& forall|lane: Lane, p: int|
        0 <= p < before.peers() && lane != Lane::Inception ==> #[trigger] after.taken(lane, p)
            == before.taken(lane, p)
    &&& match r {
        Ok(None) => passed_until(admits, before, after, before.peers() as int),
        Ok(Some((id, permission))) => found_at(
            admits,
            before,
            after,
            id.bits() as int,
            id,
            permission,
        ),
        Err(fault) => {
            &&& fault == Fatal::PeerOverflow
            &&& exists|stop: int| faulted_at(admits, before, after, stop)
        },
    }
}

/// Screening hands back only what the core permitted, unchanged, and under
/// the identifier that names the very slot the request came from. It fails
/// exactly where the slot has no identifier.
pub proof fn lemma_screened_request<W: Word>(
    index: usize,
    permission: Permission<W>,
    permitted: bool,
)
    ensures
        screened(index as nat, permission, permitted) matches Ok(Some((id, accepted))) ==> {
            &&& permitted
            &&& accepted == permission
            &&& index_of_word(id) == Some(index)
        },
        !permitted ==> !(screened(index as nat, permission, permitted) matches Ok(Some(_))),
        index > W::limit() <==> screened(index as nat, permission, permitted) is Err,
{
    if index <= W::limit() {
        W::lemma_bits_of_word(index as nat);
    }
}

/// What a scan's result alone tells, whatever was pending: a request that
/// comes back is one the core admits, under an identifier that names a slot
/// of the lane; the scan fails only where the lane has slots beyond the range
/// of the word; and a lane without slots yields nothing.
pub proof fn lemma_scanned_result<W: Word>(
    admits: spec_fn(Permission<W>) -> bool,
    before: InBus<W>,
    after: InBus<W>,
    r: Result<Option<(W, Permission<W>)>, Fatal>,
)
    requires
        scanned(admits, before, after, r),
    ensures
        r matches Ok(Some((id, permission))) ==> {
            &&& admits(permission)
            &&& index_of_word(id) matches Some(index) && index < before.peers()
        },
        r is Err ==> r == Err::<Option<(W, Permission<W>)>, Fatal>(Fatal::PeerOverflow)
            && before.peers() > W::limit() + 1,
        before.peers() == 0 ==> r == Ok::<Option<(W, Permission<W>)>, Fatal>(None),
{
    before.lemma_peers_fit();
}

/// What a scan took off the channels decides how it ended: two scans that
/// take a bus from the same accounts to the same accounts end in the same
/// result.
pub proof fn lemma_scan_deterministic<W: Word>(
    admits: spec_fn(Permission<W>) -> bool,
    before: InBus<W>,
    after: InBus<W>,
    first: Result<Option<(W, Permission<W>)>, Fatal>,
    second: Result<Option<(W, Permission<W>)>, Fatal>,
)
    requires
        scanned(admits, before, after, first),
        scanned(admits, before, after, second),
    ensures
        first == second,
{
    let a = stop_of(admits, before, after, first);
    let b = stop_of(admits, before, after, second);
    lemma_stop_of(admits, before, after, first);
    lemma_stop_of(admits, before, after, second);
    if a < b {
        assert(passed(
            admits,
            a,
            before.taken(Lane::Inception, a),
            after.taken(Lane::Inception, a),
        ));
    } else if b < a {
        assert(passed(
            admits,
            b,
            before.taken(Lane::Inception, b),
            after.taken(Lane::Inception, b),
        ));
    }
}

/// A scan gives nothing back and takes little: the account of every
/// inception channel after the scan is the account before it, with at most
/// one request added at its end. A request that one scan took is therefore
/// never taken, and never returned, by a later one.
pub proof fn lemma_scan_takes_once<W: Word>(
    admits: spec_fn(Permission<W>) -> bool,
    before: InBus<W>,
    after: InBus<W>,
    r: Result<Option<(W, Permission<W>)>, Fatal>,
    slot: int,
)
    requires
        scanned(admits, before, after, r),
        0 <= slot < before.peers(),
    ensures
        ({
            let was = before.taken(Lane::Inception, slot);
            let is = after.taken(Lane::Inception, slot);
            is == was || took_one(was, is)
        }),
{
    let stop = stop_of(admits, before, after, r);
    lemma_stop_of(admits, before, after, r);
    if slot < stop {
        assert(passed(
            admits,
            slot,
            before.taken(Lane::Inception, slot),
            after.taken(Lane::Inception, slot),
        ));
    }
}

/// The slot at which a scan that ended in `r` stopped: the slot of the
/// request or of the fault, and the end of the lane where it found nothing.
spec fn stop_of<W: Word>(
    admits: spec_fn(Permission<W>) -> bool,
    before: InBus<W>,
    after: InBus<W>,
    r: Result<Option<(W, Permission<W>)>, Fatal>,
) -> int {
    match r {
        Ok(None) => before.peers() as int,
        Ok(Some((id, _))) => id.bits() as int,
        Err(_) => choose|stop: int| faulted_at(admits, before, after, stop),
    }
}

/// A scan passed every slot before the one it stopped at and touched none
/// after it; where it did not run to the end of the lane, it took one request
/// off the slot it stopped at, and the result tells which kind of slot that
/// is.
proof fn lemma_stop_of<W: Word>(
    admits: spec_fn(Permission<W>) -> bool,
    before: InBus<W>,
    after: InBus<W>,
    r: Result<Option<(W, Permission<W>)>, Fatal>,
)
    requires
        scanned(admits, before, after, r),
    ensures
        ({
            let stop = stop_of(admits, before, after, r);
            let was = before.taken(Lane::Inception, stop);
            let is = after.taken(Lane::Inception, stop);
            &&& 0 <= stop <= before.peers()
            &&& passed_until(admits, before, after, stop)
            &&& r is Err <==> W::limit() < stop < before.peers()
            &&& r == Ok::<Option<(W, Permission<W>)>, Fatal>(None) <==> stop == before.peers()
            &&& stop < before.peers() ==> took_one(was, is)
            &&& r matches Ok(Some((id, permission))) ==> {
                &&& word_of_index::<W>(stop as nat) == Some(id)
                &&& is.last().permission == permission
                &&& admits(permission)
            }
        }),
{
    match r {
        Ok(Some((id, _))) => {
            id.lemma_bits_bounded();
        },
        _ => {},
    }
}

} // verus!
