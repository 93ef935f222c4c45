use std::collections::VecDeque;
use vstd::prelude::*;

verus! {

broadcast use vstd::std_specs::vecdeque::group_vec_dequeue_axioms;

/// The cache after its oldest source has been used once more: the front
/// source moves to the back, the others keep their order.
pub open spec fn rotate_once(s: Seq<u32>) -> Seq<u32> {
    if s.len() == 0 {
        s
    } else {
        s.drop_first().push(s[0])
    }
}

/// The cache after `k` rotations.
pub open spec fn rotate_times(s: Seq<u32>, k: nat) -> Seq<u32>
    decreases k,
{
    if k == 0 {
        s
    } else {
        rotate_once(rotate_times(s, (k - 1) as nat))
    }
}

/// A player that keeps a fixed set of sound sources and plays each request on
/// the source that has been idle longest.
///
/// Sources and buffers are the integer handles that the audio system hands
/// out; the audio system itself is driven by the caller, with the handles
/// that this type returns.
pub struct SimpleAudioPlayer {
    data: Vec<u32>,
    source_cache: VecDeque<u32>,
    max_source_count: usize,
}

impl SimpleAudioPlayer {
    /// The loaded buffers, by sound index.
    pub closed spec fn buffers(&self) -> Seq<u32> {
        self.data@
    }

    /// The sources, the one that was used longest ago first.
    pub closed spec fn sources(&self) -> Seq<u32> {
        self.source_cache@
    }

    /// The number of sources that the player was made with.
    pub closed spec fn capacity(&self) -> nat {
        self.max_source_count as nat
    }

    /// The player holds all its sources, or (once unloaded) neither sources
    /// nor buffers.
    pub open spec fn well_formed(&self) -> bool {
        &&& self.capacity() > 0
        &&& (self.sources().len() == self.capacity() || (self.sources().len() == 0
            && self.buffers().len() == 0))
    }

    /// Whether the player still holds its sources.
    pub open spec fn is_loaded(&self) -> bool {
        self.sources().len() == self.capacity()
    }

    /// A player over the given sources, with no sound loaded.
    pub fn new(sources: Vec<u32>) -> (p: SimpleAudioPlayer)
        requires
            sources.len() > 0,
        ensures
            p.well_formed(),
            p.is_loaded(),
            p.sources() == sources@,
            p.capacity() == sources.len(),
            p.buffers() == Seq::<u32>::empty(),
    {
        let max_source_count = sources.len();
        let mut cache: VecDeque<u32> = VecDeque::with_capacity(max_source_count);
        let mut i: usize = 0;
        while i < sources.len()
            invariant
                i <= sources.len(),
                cache@ == sources@.subrange(0, i as int),
            decreases sources.len() - i,
        {
            cache.push_back(sources[i]);
            i = i + 1;
            assert(cache@ == sources@.subrange(0, i as int));
        }
        SimpleAudioPlayer { data: Vec::new(), source_cache: cache, max_source_count }
    }

    /// Replaces the loaded buffers; the sources stay as they are.
    pub fn load_data(&mut self, data: Vec<u32>)
        requires
            old(self).well_formed(),
            old(self).is_loaded(),
        ensures
            final(self).well_formed(),
            final(self).is_loaded(),
            final(self).buffers() == data@,
            final(self).sources() == old(self).sources(),
            final(self).capacity() == old(self).capacity(),
    {
        self.data = data;
    }

    /// The sources, the one that was used longest ago first.
    pub fn source_ids(&self) -> (ids: &VecDeque<u32>)
        ensures
            ids@ == self.sources(),
    {
        &self.source_cache
    }

    /// The number of loaded buffers.
    pub fn data_len(&self) -> (n: usize)
        ensures
            n == self.buffers().len(),
    {
        self.data.len()
    }

    /// Plays sound `index`: when it is loaded, the source used longest ago
    /// plays it and becomes the most recently used one. Returns the source
    /// and the buffer to connect and start, or `None` (nothing changes) when
    /// no sound has that index.
    pub fn play(&mut self, index: usize) -> (r: Option<(u32, u32)>)
        requires
            old(self).well_formed(),
        ensures
            final(self).well_formed(),
            final(self).buffers() == old(self).buffers(),
            final(self).capacity() == old(self).capacity(),
            index < old(self).buffers().len() ==> {
                &&& r == Some((old(self).sources()[0], old(self).buffers()[index as int]))
                &&& final(self).sources() == rotate_once(old(self).sources())
            },
            index >= old(self).buffers().len() ==> {
                &&& r is None
                &&& final(self).sources() == old(self).sources()
            },
    {
        if index >= self.data.len() {
            return None;
        }
        let buffer = self.data[index];
        let oldest = self.source_cache.pop_front();
        match oldest {
            Some(source) => {
                self.source_cache.push_back(source);
                Some((source, buffer))
            },
            None => None,
        }
    }

    /// Forgets all sources and buffers (the caller releases them first).
    pub fn unload_data(&mut self)
        requires
            old(self).well_formed(),
        ensures
            final(self).well_formed(),
            final(self).sources() == Seq::<u32>::empty(),
            final(self).buffers() == Seq::<u32>::empty(),
            final(self).capacity() == old(self).capacity(),
    {
        self.source_cache.clear();
        self.data.clear();
    }
}

/// After `k` rotations (at most the number of sources) the cache is the
/// sources from position `k` on, then the first `k`.
pub proof fn lemma_rotate_times_split(s: Seq<u32>, k: nat)
    requires
        k <= s.len(),
    ensures
        rotate_times(s, k) == s.subrange(k as int, s.len() as int) + s.subrange(0, k as int),
    decreases k,
{
    if k == 0 {
        assert(s.subrange(0, s.len() as int) + s.subrange(0, 0) =~= s);
    } else {
        lemma_rotate_times_split(s, (k - 1) as nat);
        let prev = rotate_times(s, (k - 1) as nat);
        assert(prev.len() == s.len());
        assert(prev[0] == s[k - 1]);
        assert(rotate_once(prev) =~= s.subrange(k as int, s.len() as int) + s.subrange(0, k as int));
    }
}

/// Round robin: as many plays as there are sources use every source once,
/// oldest first, and leave the cache in the order it started in.
pub proof fn lemma_full_round_restores_order(s: Seq<u32>)
    ensures
        rotate_times(s, s.len()) == s,
        forall|k: int|
            0 <= k < s.len() ==> #[trigger] rotate_times(s, k as nat)[0] == s[k],
{
    lemma_rotate_times_split(s, s.len());
    assert(s.subrange(s.len() as int, s.len() as int) + s.subrange(0, s.len() as int) =~= s);
    assert forall|k: int| 0 <= k < s.len() implies #[trigger] rotate_times(s, k as nat)[0] == s[k] by {
        lemma_rotate_times_split(s, k as nat);
    }
}

/// Playing never loses or invents a source: the rotated cache holds the
/// same sources, as many as before.
pub proof fn lemma_rotation_keeps_sources(s: Seq<u32>, x: u32)
    ensures
        rotate_once(s).len() == s.len(),
        rotate_once(s).contains(x) <==> s.contains(x),
{
    if s.len() > 0 {
        let r = rotate_once(s);
        if s.contains(x) {
            let i = choose|i: int| 0 <= i < s.len() && s[i] == x;
            if i == 0 {
                assert(r[s.len() - 1] == x);
            } else {
                assert(r[i - 1] == x);
            }
        }
        if r.contains(x) {
            let j = choose|j: int| 0 <= j < r.len() && r[j] == x;
            if j == s.len() - 1 {
                assert(s[0] == x);
            } else {
                assert(s[j + 1] == x);
            }
        }
    }
}

} // verus!
