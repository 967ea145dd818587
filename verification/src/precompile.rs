use vstd::prelude::*;

verus! {

use crate::errors::GovernorError;

/// One recorded precompile invocation: the call input and the result that was
/// observed when the block was originally produced.
#[derive(Debug, Clone)]
pub struct PrecompileCall {
    pub input: Vec<u8>,
    pub result: Vec<u8>,
}

/// All recorded invocations of one precompile contract, in observation order.
#[derive(Debug, Clone)]
pub struct AddressPrecompiles {
    /// The precompile contract's address, as raw bytes.
    pub address: Vec<u8>,
    pub calls: Vec<PrecompileCall>,
}

/// The precompile call/result pairs recorded for one block height. Consumers
/// hold it for the lifetime of one execution context and only read it.
#[derive(Debug, Clone)]
pub struct BlockPrecompiles {
    pub entries: Vec<AddressPrecompiles>,
}

impl BlockPrecompiles {
    /// The empty set, used when no source yields data for a height.
    pub fn empty() -> (r: Self)
        ensures
            r.entries@.len() == 0,
    {
        BlockPrecompiles { entries: Vec::new() }
    }
}

/// First entry for the address `a` among the recorded per-address call
/// sequences, if any.
pub open spec fn address_lookup(s: Seq<AddressPrecompiles>, a: Seq<u8>) -> Option<
    AddressPrecompiles,
>
    decreases s.len(),
{
    if s.len() == 0 {
        None
    } else if s[0].address@ == a {
        Some(s[0])
    } else {
        address_lookup(s.drop_first(), a)
    }
}

proof fn lemma_address_lookup_found(s: Seq<AddressPrecompiles>, a: Seq<u8>, i: int)
    requires
        0 <= i < s.len(),
        s[i].address@ == a,
        forall|j: int| 0 <= j < i ==> s[j].address@ != a,
    ensures
        address_lookup(s, a) == Some(s[i]),
    decreases i,
{
    if i > 0 {
        lemma_address_lookup_found(s.drop_first(), a, i - 1);
    }
}

proof fn lemma_address_lookup_absent(s: Seq<AddressPrecompiles>, a: Seq<u8>)
    requires
        forall|j: int| 0 <= j < s.len() ==> s[j].address@ != a,
    ensures
        address_lookup(s, a) is None,
    decreases s.len(),
{
    if s.len() > 0 {
        lemma_address_lookup_absent(s.drop_first(), a);
    }
}

/// Whether two byte strings hold the same bytes.
fn bytes_equal(a: &Vec<u8>, b: &Vec<u8>) -> (r: bool)
    ensures
        r == (a@ == b@),
{
    let n: usize = a.len();
    if n != b.len() {
        return false;
    }
    let mut i: usize = 0;
    while i < n
        invariant
            n == a@.len(),
            n == b@.len(),
            i <= n,
            forall|j: int| 0 <= j < i ==> a@[j] == b@[j],
        decreases n - i,
    {
        if a[i] != b[i] {
            return false;
        }
        i = i + 1;
    }
    proof {
        assert(a@ =~= b@);
    }
    true
}

impl BlockPrecompiles {
    /// The recorded call sequence of one precompile contract, found by its
    /// address; this is what a replaying execution context queries for each
    /// precompile invocation.
    pub fn calls_for_address(&self, address: &Vec<u8>) -> (r: Option<&AddressPrecompiles>)
        ensures
            r matches Some(e) ==> address_lookup(self.entries@, address@) == Some(*e),
            r is None ==> address_lookup(self.entries@, address@) is None,
    {
        let n: usize = self.entries.len();
        let mut i: usize = 0;
        while i < n
            invariant
                n == self.entries@.len(),
                i <= n,
                forall|j: int| 0 <= j < i ==> self.entries@[j].address@ != address@,
            decreases n - i,
        {
            if bytes_equal(&self.entries[i].address, address) {
                proof {
                    lemma_address_lookup_found(self.entries@, address@, i as int);
                }
                return Some(&self.entries[i]);
            }
            i = i + 1;
        }
        proof {
            lemma_address_lookup_absent(self.entries@, address@);
        }
        None
    }
}

/// First entry for height `h` in the channel's backing sequence, if any.
pub open spec fn lookup(s: Seq<(u64, BlockPrecompiles)>, h: u64) -> Option<BlockPrecompiles>
    decreases s.len(),
{
    if s.len() == 0 {
        None
    } else if s[0].0 == h {
        Some(s[0].1)
    } else {
        lookup(s.drop_first(), h)
    }
}

proof fn lemma_lookup_found(s: Seq<(u64, BlockPrecompiles)>, h: u64, i: int)
    requires
        0 <= i < s.len(),
        s[i].0 == h,
        forall|j: int| 0 <= j < i ==> s[j].0 != h,
    ensures
        lookup(s, h) == Some(s[i].1),
    decreases i,
{
    if i > 0 {
        lemma_lookup_found(s.drop_first(), h, i - 1);
    }
}

proof fn lemma_lookup_absent(s: Seq<(u64, BlockPrecompiles)>, h: u64)
    requires
        forall|j: int| 0 <= j < s.len() ==> s[j].0 != h,
    ensures
        lookup(s, h) is None,
    decreases s.len(),
{
    if s.len() > 0 {
        lemma_lookup_absent(s.drop_first(), h);
    }
}

/// Removing an entry whose height differs from `h` leaves the lookup of `h`
/// unchanged.
proof fn lemma_lookup_remove_other(s: Seq<(u64, BlockPrecompiles)>, i: int, h: u64)
    requires
        0 <= i < s.len(),
        s[i].0 != h,
    ensures
        lookup(s.remove(i), h) == lookup(s, h),
    decreases s.len(),
{
    s.remove_ensures(i);
    if i == 0 {
        assert(s.remove(0) =~= s.drop_first());
    } else {
        assert(s.remove(i)[0] == s[0]);
        if s[0].0 != h {
            assert(s.remove(i).drop_first() =~= s.drop_first().remove(i - 1));
            s.drop_first().remove_ensures(i - 1);
            lemma_lookup_remove_other(s.drop_first(), i - 1, h);
        }
    }
}

/// In-process handoff channel from the ingestion collaborator: a keyed,
/// remove-on-read mapping from block height to that height's recorded
/// precompile calls.
///
/// An entry is a single delivery, not a reusable cache line: the first
/// successful read for a height removes it, and a second read for the same
/// height finds nothing.
pub struct PrecompileChannel {
    entries: Vec<(u64, BlockPrecompiles)>,
}

impl View for PrecompileChannel {
    type V = Seq<(u64, BlockPrecompiles)>;

    closed spec fn view(&self) -> Seq<(u64, BlockPrecompiles)> {
        self.entries@
    }
}

impl PrecompileChannel {
    /// Heights are unique: at most one pending delivery per height.
    pub open spec fn wf(self) -> bool {
        forall|i: int, j: int| 0 <= i < j < self@.len() ==> self@[i].0 != self@[j].0
    }

    pub fn new() -> (r: Self)
        ensures
            r.wf(),
            r@.len() == 0,
            forall|h: u64| lookup(r@, h) is None,
    {
        let r = PrecompileChannel { entries: Vec::new() };
        proof {
            assert forall|h: u64| lookup(r@, h) is None by {
                lemma_lookup_absent(r@, h);
            }
        }
        r
    }

    /// Deliver the entry for a height, replacing any pending one.
    pub fn insert(&mut self, height: u64, calls: BlockPrecompiles)
        requires
            old(self).wf(),
        ensures
            final(self).wf(),
            lookup(final(self)@, height) == Some(calls),
            forall|h2: u64| h2 != height ==> lookup(final(self)@, h2) == lookup(old(self)@, h2),
    {
        let _ = self.take(height);
        let ghost mid = self@;
        self.entries.push((height, calls));
        proof {
            assert(self@ =~= mid.push((height, calls)));
            lemma_lookup_push(mid, height, calls);
            assert forall|i: int, j: int| 0 <= i < j < self@.len() implies self@[i].0
                != self@[j].0 by {
                if j == self@.len() - 1 {
                    assert(self@[i] == mid[i]);
                    if self@[i].0 == height {
                        lemma_lookup_some_of_present(mid, i);
                    }
                }
            }
        }
    }

    /// Take the pending entry for a height, if one is present.
    ///
    /// A hit consumes the entry: after it, a query for the same height finds
    /// nothing in this channel. Other heights are untouched either way.
    pub fn take(&mut self, height: u64) -> (r: Option<BlockPrecompiles>)
        requires
            old(self).wf(),
        ensures
            final(self).wf(),
            r == lookup(old(self)@, height),
            lookup(final(self)@, height) is None,
            forall|h2: u64| h2 != height ==> lookup(final(self)@, h2) == lookup(old(self)@, h2),
    {
        let ghost s0 = self@;
        let n: usize = self.entries.len();
        let mut i: usize = 0;
        while i < n
            invariant
                old(self).wf(),
                *self == *old(self),
                s0 == self@,
                n == self.entries@.len(),
                i <= n,
                forall|j: int| 0 <= j < i ==> s0[j].0 != height,
            decreases n - i,
        {
            if self.entries[i].0 == height {
                let entry = self.entries.remove(i);
                proof {
                    s0.remove_ensures(i as int);
                    assert(self@ =~= s0.remove(i as int));
                    lemma_lookup_found(s0, height, i as int);
                    assert forall|a: int, b: int| 0 <= a < b < self@.len() implies self@[a].0
                        != self@[b].0 by {
                        let a0 = if a < i as int {
                            a
                        } else {
                            a + 1
                        };
                        let b0 = if b < i as int {
                            b
                        } else {
                            b + 1
                        };
                        assert(self@[a] == s0[a0]);
                        assert(self@[b] == s0[b0]);
                    }
                    assert forall|j: int| 0 <= j < self@.len() implies self@[j].0 != height by {
                        let j0 = if j < i as int {
                            j
                        } else {
                            j + 1
                        };
                        assert(self@[j] == s0[j0]);
                    }
                    lemma_lookup_absent(self@, height);
                    assert forall|h2: u64| h2 != height implies lookup(self@, h2) == lookup(
                        s0,
                        h2,
                    ) by {
                        lemma_lookup_remove_other(s0, i as int, h2);
                    }
                }
                return Some(entry.1);
            }
            i = i + 1;
        }
        proof {
            lemma_lookup_absent(s0, height);
        }
        None
    }
}

/// A height that occurs in the sequence is found by `lookup`; helper for
/// `insert`'s well-formedness.
proof fn lemma_lookup_some_of_present(s: Seq<(u64, BlockPrecompiles)>, i: int)
    requires
        0 <= i < s.len(),
    ensures
        lookup(s, s[i].0) is Some,
    decreases i,
{
    if i > 0 && s[0].0 != s[i].0 {
        lemma_lookup_some_of_present(s.drop_first(), i - 1);
    }
}

/// Appending an entry is visible to its own height only where that height was
/// absent, and invisible to every other height.
proof fn lemma_lookup_push(s: Seq<(u64, BlockPrecompiles)>, h: u64, v: BlockPrecompiles)
    ensures
        lookup(s, h) is None ==> lookup(s.push((h, v)), h) == Some(v),
        forall|h2: u64| h2 != h ==> lookup(s.push((h, v)), h2) == lookup(s, h2),
    decreases s.len(),
{
    if s.len() == 0 {
        assert(s.push((h, v))[0] == (h, v));
        assert forall|h2: u64| h2 != h implies lookup(s.push((h, v)), h2) == lookup(s, h2) by {
            assert(s.push((h, v)).drop_first() =~= s);
        }
    } else {
        lemma_lookup_push(s.drop_first(), h, v);
        assert(s.push((h, v))[0] == s[0]);
        assert(s.push((h, v)).drop_first() =~= s.drop_first().push((h, v)));
        assert forall|h2: u64| h2 != h implies lookup(s.push((h, v)), h2) == lookup(s, h2) by {
            if s[0].0 != h2 {
                assert(lookup(s.push((h, v)), h2) == lookup(s.drop_first().push((h, v)), h2));
                assert(lookup(s.drop_first().push((h, v)), h2) == lookup(s.drop_first(), h2));
            }
        }
    }
}

/// Coarse directory bucket of a height in the block archive: heights are
/// grouped every million.
pub fn archive_coarse_bucket(height: u64) -> (r: u64)
    ensures
        r == (height as int / 1_000_000) * 1_000_000,
        r <= height,
{
    proof {
        vstd::arithmetic::div_mod::lemma_fundamental_div_mod(height as int, 1_000_000);
        vstd::arithmetic::div_mod::lemma_mod_bound(height as int, 1_000_000);
    }
    (height / 1_000_000) * 1_000_000
}

/// Fine directory bucket of a height in the block archive: heights are
/// grouped every thousand within a coarse bucket.
pub fn archive_fine_bucket(height: u64) -> (r: u64)
    ensures
        r == (height as int / 1_000) * 1_000,
        r <= height,
{
    proof {
        vstd::arithmetic::div_mod::lemma_fundamental_div_mod(height as int, 1_000);
        vstd::arithmetic::div_mod::lemma_mod_bound(height as int, 1_000);
    }
    (height / 1_000) * 1_000
}

/// Payload of an LZ4 frame, or nothing when the bytes are not a well-formed
/// frame; a pure function of the bytes alone.
pub uninterp spec fn lz4_frame_payload(compressed: Seq<u8>) -> Option<Seq<u8>>;

/// Relies on lz4_flex::frame::FrameDecoder: reading it to the end yields the
/// frame's decompressed payload, a deterministic function of the input bytes,
/// or an error for bytes that are not a well-formed frame.
#[verifier::external_body]
fn lz4_decompress(bytes: &Vec<u8>) -> (r: Result<Vec<u8>, ()>)
    ensures
        r matches Ok(payload) ==> lz4_frame_payload(bytes@) == Some(payload@),
        r is Err ==> lz4_frame_payload(bytes@) is None,
{
    let mut decoder = lz4_flex::frame::FrameDecoder::new(bytes.as_slice());
    let mut payload: Vec<u8> = Vec::new();
    match std::io::Read::read_to_end(&mut decoder, &mut payload) {
        Ok(_) => Ok(payload),
        Err(_) => Err(()),
    }
}

/// Decompress one archived per-height file's frame.
///
/// Bytes that are not a well-formed frame yield `CacheResolutionFailed`; the
/// caller then falls back to an empty precompile set rather than failing the
/// call.
pub fn decompress_archive(bytes: &Vec<u8>) -> (r: Result<Vec<u8>, GovernorError>)
    ensures
        r matches Ok(payload) ==> lz4_frame_payload(bytes@) == Some(payload@),
        r is Err ==> r == Err::<Vec<u8>, GovernorError>(GovernorError::CacheResolutionFailed)
            && lz4_frame_payload(bytes@) is None,
{
    match lz4_decompress(bytes) {
        Ok(payload) => Ok(payload),
        Err(_) => Err(GovernorError::CacheResolutionFailed),
    }
}

/// Which source satisfied a precompile resolution.
#[derive(Clone, Copy, Debug, PartialEq, Eq, Structural)]
pub enum ResolutionSource {
    /// Consumed from the in-process handoff channel.
    LocalChannel,
    /// Read from the height-addressed block archive.
    Archive,
    /// Neither source yielded data; the execution context gets an empty set.
    EmptyFallback,
}

/// Resolve the precompile calls for one block height from its two sourcing
/// channels, in order.
///
/// The in-process channel is queried first and a hit consumes its entry;
/// otherwise the decoded archive entry, which the caller reads only on a
/// channel miss, is used; and when neither source yields data the resolution
/// fails soft, handing the execution context an empty set instead of aborting
/// the call.
pub fn resolve_precompiles(
    channel: &mut PrecompileChannel,
    height: u64,
    archived: Option<BlockPrecompiles>,
) -> (r: (BlockPrecompiles, ResolutionSource))
    requires
        old(channel).wf(),
    ensures
        final(channel).wf(),
        lookup(final(channel)@, height) is None,
        forall|h2: u64| h2 != height ==> lookup(final(channel)@, h2) == lookup(old(channel)@, h2),
        lookup(old(channel)@, height) matches Some(calls) ==> r == (
            calls,
            ResolutionSource::LocalChannel,
        ),
        lookup(old(channel)@, height) is None ==> (archived matches Some(calls) ==> r == (
            calls,
            ResolutionSource::Archive,
        )),
        lookup(old(channel)@, height) is None && archived is None ==> r.0.entries@.len() == 0
            && r.1 == ResolutionSource::EmptyFallback,
{
    match channel.take(height) {
        Some(calls) => (calls, ResolutionSource::LocalChannel),
        None => match archived {
            Some(calls) => (calls, ResolutionSource::Archive),
            None => (BlockPrecompiles::empty(), ResolutionSource::EmptyFallback),
        },
    }
}

} // verus!
