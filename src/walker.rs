use vstd::prelude::*;
use crate::bytes::bytes32_to_vec;
use crate::codec::{
    encode_hint_query, encode_preimage_query, hint_payload, preimage_payload, GIODomain, GIOHash,
    GIOHint, GIOQuery,
};
use crate::error::{GIOError, ProtocolError};

verus! {

/// What an RLP block header says of the chain: its number and its parent's
/// hash, or `None` if the bytes are not a block header.
pub uninterp spec fn header_link(b: Seq<u8>) -> Option<(u64, Seq<u8>)>;

/// The number of a block header and the hash of its parent.
#[derive(Debug, Clone, Copy, PartialEq, Eq)]
pub struct HeaderLink {
    pub number: u64,
    pub parent_hash: [u8; 32],
}

#[verifier::external_type_specification]
#[verifier::external_body]
pub struct ExRlpError(alloy_rlp::Error);

/// Relies on alloy_consensus::Header's alloy_rlp::Decodable::decode, which reads
/// an RLP header from the front of the bytes; only its `number` and
/// `parent_hash` are kept.
#[verifier::external_body]
fn decode_header(b: &Vec<u8>) -> (r: Result<HeaderLink, alloy_rlp::Error>)
    ensures
        match r {
            Ok(l) => header_link(b@) == Some((l.number, l.parent_hash@)),
            Err(_) => header_link(b@) is None,
        },
{
    let mut buf = b.as_slice();
    let h = <alloy_consensus::Header as alloy_rlp::Decodable>::decode(&mut buf)?;
    Ok(HeaderLink { number: h.number, parent_hash: h.parent_hash.0 })
}

/// A walk from a known block hash back through parent links towards the block
/// of a given number.
pub struct BlockWalk {
    target: u64,
    current: [u8; 32],
    above: Option<u64>,
    /// Hashes visited so far, from the start hash to the current one.
    path: Ghost<Seq<Seq<u8>>>,
    /// Number and parent hash of each header passed over.
    links: Ghost<Seq<(u64, Seq<u8>)>>,
}

/// The outcome of one round of a block walk.
pub enum WalkStep {
    /// The header just fetched has the target number: this is its hash.
    Found([u8; 32]),
    /// Fetch the header of the walk's new current hash next.
    Next(BlockWalk),
    /// The walk cannot succeed.
    Failed(GIOError),
}

impl BlockWalk {
    pub closed spec fn target_spec(self) -> u64 {
        self.target
    }

    pub closed spec fn current_spec(self) -> Seq<u8> {
        self.current@
    }

    /// Number of the last header passed over, if any.
    pub closed spec fn above_spec(self) -> Option<u64> {
        self.above
    }

    /// Hashes visited, from the start hash to the current hash.
    pub closed spec fn path(self) -> Seq<Seq<u8>> {
        self.path@
    }

    /// Number and parent hash of each header passed over, in order.
    pub closed spec fn links(self) -> Seq<(u64, Seq<u8>)> {
        self.links@
    }

    /// The hash the walk started from.
    pub open spec fn start(self) -> Seq<u8> {
        self.path()[0]
    }

    /// An upper bound on the rounds the walk can still take.
    pub open spec fn rounds_left(self) -> nat {
        match self.above_spec() {
            Some(a) => (a - self.target_spec()) as nat,
            None => 0x1_0000_0000_0000_0001,
        }
    }

    /// The current hash is reached from the start hash by following the parent
    /// link of each header passed over; those headers carry strictly
    /// decreasing numbers, all above the target.
    pub open spec fn wf(self) -> bool {
        let p = self.path();
        let l = self.links();
        &&& p.len() == l.len() + 1
        &&& p.last() == self.current_spec()
        &&& forall|i: int| 0 <= i < l.len() ==> #[trigger] l[i].1 == p[i + 1]
        &&& forall|i: int| 0 <= i < l.len() ==> #[trigger] l[i].0 > self.target_spec()
        &&& forall|i: int| 0 <= i < l.len() - 1 ==> (#[trigger] l[i]).0 > l[i + 1].0
        &&& l.len() == 0 <==> self.above_spec() is None
        &&& l.len() > 0 ==> self.above_spec() == Some(l.last().0)
    }

    /// A walk from `start` towards the block numbered `target`.
    pub fn new(start: [u8; 32], target: u64) -> (r: BlockWalk)
        ensures
            r.wf(),
            r.target_spec() == target,
            r.current_spec() == start@,
            r.above_spec() is None,
            r.path() == seq![start@],
    {
        let ghost path = seq![start@];
        let ghost links = Seq::<(u64, Seq<u8>)>::empty();
        BlockWalk { target, current: start, above: None, path: Ghost(path), links: Ghost(links) }
    }

    /// The block number the walk looks for.
    pub fn target(&self) -> (r: u64)
        ensures
            r == self.target_spec(),
    {
        self.target
    }

    /// The hash whose header the walk fetches next.
    pub fn current(&self) -> (r: [u8; 32])
        ensures
            r@ == self.current_spec(),
    {
        self.current
    }

    /// The queries of one round, in order: the hint announcing the current
    /// block's preimage, then the fetch of that preimage.
    pub fn requests(&self) -> (r: Vec<GIOQuery>)
        ensures
            r@.len() == 2,
            r@[0].domain == GIODomain::PreimageHint,
            r@[0].payload@ == hint_payload(GIOHint::EthBlockPreimage, self.current_spec()),
            r@[1].domain == GIODomain::GetImage,
            r@[1].payload@ == preimage_payload(GIOHash::Keccak256, self.current_spec()),
    {
        let hint = GIOQuery {
            domain: GIODomain::PreimageHint,
            payload: encode_hint_query(GIOHint::EthBlockPreimage, &bytes32_to_vec(&self.current)),
        };
        let fetch = GIOQuery {
            domain: GIODomain::GetImage,
            payload: encode_preimage_query(GIOHash::Keccak256, &self.current),
        };
        let mut r: Vec<GIOQuery> = Vec::new();
        r.push(hint);
        r.push(fetch);
        r
    }

    /// A header numbered `n` keeps the numbers strictly decreasing along the walk.
    pub open spec fn descends_to(self, n: u64) -> bool {
        match self.above_spec() {
            Some(a) => n < a,
            None => true,
        }
    }

    /// `r` is the outcome of the round in which the current hash's header has
    /// number `n` and parent hash `parent`.
    pub open spec fn round_outcome(self, n: u64, parent: Seq<u8>, r: WalkStep) -> bool {
        if !self.descends_to(n) {
            r == WalkStep::Failed(GIOError::BadResponseData(ProtocolError::BrokenChain))
        } else if n < self.target_spec() {
            r == WalkStep::Failed(GIOError::BlockNotFound { number: self.target_spec() })
        } else if n == self.target_spec() {
            r is Found && r->Found_0@ == self.current_spec()
        } else {
            &&& r is Next
            &&& r->Next_0.wf()
            &&& r->Next_0.target_spec() == self.target_spec()
            &&& r->Next_0.current_spec() == parent
            &&& r->Next_0.above_spec() == Some(n)
            &&& r->Next_0.path() == self.path().push(parent)
            &&& r->Next_0.links() == self.links().push((n, parent))
            &&& r->Next_0.rounds_left() < self.rounds_left()
        }
    }

    /// One round of the walk, given the number and parent hash of the header
    /// fetched for the current hash.
    pub fn on_header_link(self, link: HeaderLink) -> (r: WalkStep)
        requires
            self.wf(),
        ensures
            self.round_outcome(link.number, link.parent_hash@, r),
    {
        let n = link.number;
        let descends = match self.above {
            Some(a) => n < a,
            None => true,
        };
        if !descends {
            WalkStep::Failed(GIOError::BadResponseData(ProtocolError::BrokenChain))
        } else if n < self.target {
            WalkStep::Failed(GIOError::BlockNotFound { number: self.target })
        } else if n == self.target {
            WalkStep::Found(self.current)
        } else {
            let ghost path = self.path@.push(link.parent_hash@);
            let ghost links = self.links@.push((n, link.parent_hash@));
            let next = BlockWalk {
                target: self.target,
                current: link.parent_hash,
                above: Some(n),
                path: Ghost(path),
                links: Ghost(links),
            };
            proof {
                let l = links;
                let p = path;
                assert forall|i: int| 0 <= i < l.len() - 1 implies (#[trigger] l[i]).0 > l[i + 1].0 by {
                    if i < l.len() - 2 {
                        assert(self.links@[i] == l[i]);
                        assert(self.links@[i + 1] == l[i + 1]);
                    } else {
                        assert(self.links@.last() == l[i]);
                    }
                }
                assert forall|i: int| 0 <= i < l.len() implies #[trigger] l[i].1 == p[i + 1] by {
                    if i < l.len() - 1 {
                        assert(self.links@[i] == l[i]);
                        assert(self.path@[i + 1] == p[i + 1]);
                    }
                }
                assert forall|i: int| 0 <= i < l.len() implies #[trigger] l[i].0 > next.target by {
                    if i < l.len() - 1 {
                        assert(self.links@[i] == l[i]);
                    }
                }
            }
            WalkStep::Next(next)
        }
    }

    /// One round of the walk, given the bytes of the header fetched for the
    /// current hash.
    pub fn on_header(self, header: &Vec<u8>) -> (r: WalkStep)
        requires
            self.wf(),
        ensures
            match header_link(header@) {
                Some((n, parent)) => self.round_outcome(n, parent, r),
                None => r == WalkStep::Failed(
                    GIOError::BadResponseData(ProtocolError::InvalidHeader),
                ),
            },
    {
        match decode_header(header) {
            Ok(link) => self.on_header_link(link),
            Err(_) => WalkStep::Failed(GIOError::BadResponseData(ProtocolError::InvalidHeader)),
        }
    }
}

/// The block walk answers only with the hash of a header whose number is the
/// target, reached from the start hash by following parent links; if the start
/// header already lies below the target it fails with `BlockNotFound`; and every
/// round that goes on keeps the start and shortens the bound on the rounds left.
pub proof fn lemma_block_walk_sound(w: BlockWalk, n: u64, parent: Seq<u8>, r: WalkStep)
    requires
        w.wf(),
        w.round_outcome(n, parent, r),
    ensures
        r is Found ==> {
            &&& n == w.target_spec()
            &&& r->Found_0@ == w.path().last()
            &&& forall|i: int| 0 <= i < w.links().len() ==> #[trigger] w.links()[i].1 == w.path()[i + 1]
        },
        w.above_spec() is None && n < w.target_spec() ==> r == WalkStep::Failed(
            GIOError::BlockNotFound { number: w.target_spec() },
        ),
        r is Next ==> r->Next_0.start() == w.start() && r->Next_0.rounds_left() < w.rounds_left(),
{
    if r is Next {
        assert(r->Next_0.path()[0] == w.path()[0]);
    }
}

} // verus!
