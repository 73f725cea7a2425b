//! The contract of a core.

use vstd::prelude::*;
use crate::fault::Fatal;
use crate::permission::Permission;
use crate::scan::{faulted_at, passed, scanned, screen_inception};
use crate::signal::Lane;
use crate::wiring::{InBus, OutBus};
use crate::word::Word;

verus! {

/// A simulated core that can be wired to other cores over the bus.
pub trait Uarc {
    /// The word of this core's buses.
    type Word: Word;

    /// The permission that `permission` reports. A core that declares none
    /// has no privileges and no identity.
    open spec fn identity(&self) -> Permission<Self::Word> {
        Permission { ownership: Self::Word::word(0), network: Self::Word::word(0) }
    }

    /// The access policy that `permit` decides by: whether `candidate` may
    /// issue control signals to this core. A core that declares no policy of
    /// its own admits whom its permission is privileged over.
    open spec fn admits(&self, candidate: Permission<Self::Word>) -> bool {
        self.identity().privileged_over(candidate)
    }

    /// This core's own capability descriptor.
    fn permission(&self) -> (p: Permission<Self::Word>)
        ensures
            p == self.identity(),
    ;

    /// Whether `candidate` may issue control signals to this core.
    ///
    /// A core with no policy of its own answers with `permit_by_privilege`.
    fn permit(&self, candidate: Permission<Self::Word>) -> (ok: bool)
        ensures
            ok == self.admits(candidate),
    ;

    /// The answer of a core that adds no policy of its own: `candidate` is
    /// permitted where the core's own permission is privileged over it.
    fn permit_by_privilege(&self, candidate: Permission<Self::Word>) -> (ok: bool)
        ensures
            ok == self.identity().privileged_over(candidate),
    {
        self.permission().has_privilege(candidate)
    }

    /// Runs the core for one scheduling quantum, on buses that are wired
    /// peer for peer. The core reads and writes through the endpoints it is
    /// given and leaves the wiring as it found it.
    fn operate(&mut self, input: &mut InBus<Self::Word>, output: &mut OutBus<Self::Word>)
        requires
            old(input).peers() == old(output).peers(),
        ensures
            final(input).peers() == old(input).peers(),
            final(output).peers() == old(output).peers(),
    ;

    /// Looks through the inception lane in index order, without waiting, for
    /// the first pending request that this core permits.
    ///
    /// A slot with nothing pending is passed over. A pending request is taken
    /// off its channel, put to `permit` and screened as `screen_inception`
    /// says: it ends the scan where it is permitted or where its slot has no
    /// bus identifier, and is dropped where it is not permitted.
    ///
    /// What is pending is the channels' matter, so the result is held to what
    /// every scan does, as `scanned` states it.
    fn poll_inception(&self, input: &mut InBus<Self::Word>) -> (r: Result<
        Option<(Self::Word, Permission<Self::Word>)>,
        Fatal,
    >)
        ensures
            scanned(
                |candidate: Permission<Self::Word>| self.admits(candidate),
                *old(input),
                *final(input),
                r,
            ),
    {
        let n = input.peer_count();
        let ghost admits = |candidate: Permission<Self::Word>| self.admits(candidate);
        let mut i: usize = 0;
        while i < n
            invariant
                i <= n,
                n == old(input).peers(),
                input.peers() == n,
                admits == |candidate: Permission<Self::Word>| self.admits(candidate),
                forall|lane: Lane, p: int|
                    0 <= p < n && lane != Lane::Inception ==> #[trigger] input.taken(lane, p)
                        == old(input).taken(lane, p),
                forall|p: int|
                    0 <= p < i ==> passed(
                        admits,
                        p,
                        #[trigger] old(input).taken(Lane::Inception, p),
                        input.taken(Lane::Inception, p),
                    ),
                forall|p: int|
                    i <= p < n ==> #[trigger] input.taken(Lane::Inception, p) == old(input).taken(
                        Lane::Inception,
                        p,
                    ),
            decreases n - i,
        {
            let ghost was = input.taken(Lane::Inception, i as int);
            match input.poll(Lane::Inception, i) {
                None => {},
                Some(request) => {
                    let permitted = self.permit(request.permission);
                    proof {
                        assert(was.push(request).drop_last() =~= was);
                    }
                    match screen_inception(i, request.permission, permitted) {
                        Ok(None) => {},
                        Ok(Some(accepted)) => {
                            proof {
                                Self::Word::lemma_bits_of_word(i as nat);
                            }
                            return Ok(Some(accepted));
                        },
                        Err(fault) => {
                            assert(faulted_at(admits, *old(input), *input, i as int));
                            return Err(fault);
                        },
                    }
                },
            }
            i += 1;
        }
        Ok(None)
    }
}

} // verus!
