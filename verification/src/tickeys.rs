use std::collections::BTreeMap;
use std::collections::VecDeque;
use vstd::prelude::*;

use crate::player::{rotate_once, SimpleAudioPlayer};
use crate::repeat_filter::{now_ms, repeats_too_soon, RepeatFilter};
use crate::scheme::AudioScheme;

verus! {

broadcast use {
    vstd::std_specs::vecdeque::group_vec_dequeue_axioms,
    vstd::std_specs::btree::group_btree_axioms,
};

/// How many of the most recent key presses are remembered.
pub const LAST_KEYS_LEN: usize = 6;

/// The remembered keys after a press of `key`: the key goes to the end and,
/// when more than `LAST_KEYS_LEN` keys are then held, the oldest one goes.
pub open spec fn push_recent(keys: Seq<u8>, key: u8) -> Seq<u8> {
    let s = keys.push(key);
    if s.len() > LAST_KEYS_LEN {
        s.drop_first()
    } else {
        s
    }
}

/// The remembered keys after the presses `presses`, in order, starting from
/// `keys`.
pub open spec fn push_all_recent(keys: Seq<u8>, presses: Seq<u8>) -> Seq<u8>
    decreases presses.len(),
{
    if presses.len() == 0 {
        keys
    } else {
        push_recent(push_all_recent(keys, presses.drop_last()), presses.last())
    }
}

/// The last `n` elements of `s`, or all of them when there are fewer.
pub open spec fn last_n(s: Seq<u8>, n: nat) -> Seq<u8> {
    if s.len() <= n {
        s
    } else {
        s.subrange(s.len() - n, s.len() as int)
    }
}

/// The index of the sound that `keycode` plays: the key's own entry in the
/// map when it has one; otherwise, when the first `first_n_non_unique` sounds
/// are shared out, the key code modulo that count; otherwise none.
pub open spec fn sound_index(keymap: Map<u8, u8>, first_n_non_unique: i16, keycode: u8) -> Option<
    int,
> {
    if keymap.contains_key(keycode) {
        Some(keymap[keycode] as int)
    } else if first_n_non_unique <= 0 {
        None
    } else {
        Some((keycode as int) % (first_n_non_unique as int))
    }
}

/// The sound that a press of `keycode` at `now` plays in state `t`: none
/// when key presses are muted, when it repeats the last key too soon, when
/// the key has no sound, or when its sound index is past the loaded buffers;
/// else that index.
pub open spec fn sound_to_play(t: Tickeys, keycode: u8, now: u64) -> Option<int> {
    if t.is_muted() {
        None
    } else if repeats_too_soon(t.filter().last_time_ms(), t.filter().last_key_pressed(), keycode, now) {
        None
    } else {
        match sound_index(t.keymap(), t.shared_count(), keycode) {
            Some(i) => if 0 <= i < t.player().buffers().len() {
                Some(i)
            } else {
                None
            },
            None => None,
        }
    }
}

/// The key code that an event's integer key-code field denotes: the field's
/// low eight bits.
pub fn keycode_from_event_field(value: i64) -> (keycode: u8)
    ensures
        keycode == value % 256,
{
    let wide: u16 = value as u16;
    let keycode: u8 = wide as u8;
    assert(((value as u16) as u8) as int == value % 256) by (bit_vector);
    keycode
}

/// The state of the sound feedback: the loaded scheme's key rule, the
/// player, the most recent keys, the repeat filter and whether presses are
/// muted.
pub struct Tickeys {
    audio_player: SimpleAudioPlayer,
    keymap: BTreeMap<u8, u8>,
    first_n_non_unique: i16,
    last_keys: VecDeque<u8>,
    repeat_filter: RepeatFilter,
    muted: bool,
}

impl Tickeys {
    /// The player.
    pub closed spec fn player(&self) -> SimpleAudioPlayer {
        self.audio_player
    }

    /// The keys with a sound of their own, and its index.
    pub closed spec fn keymap(&self) -> Map<u8, u8> {
        self.keymap@
    }

    /// How many leading sounds are shared out over the other keys; zero or
    /// less when none are.
    pub closed spec fn shared_count(&self) -> i16 {
        self.first_n_non_unique
    }

    /// The most recent keys, oldest first.
    pub closed spec fn recent_keys(&self) -> Seq<u8> {
        self.last_keys@
    }

    /// The repeat filter.
    pub closed spec fn filter(&self) -> RepeatFilter {
        self.repeat_filter
    }

    /// Whether key presses are silenced (the active application is filtered
    /// out).
    pub closed spec fn is_muted(&self) -> bool {
        self.muted
    }

    /// The player is well formed and holds its sources, the shared count
    /// comes from a byte (or is the initial -1), and at most
    /// `LAST_KEYS_LEN` keys are remembered.
    pub closed spec fn well_formed(&self) -> bool {
        &&& self.audio_player.well_formed()
        &&& self.audio_player.is_loaded()
        &&& -1 <= self.first_n_non_unique <= 255
        &&& self.last_keys@.len() <= LAST_KEYS_LEN
    }

    /// Sound feedback over the given sources, with no scheme loaded yet.
    pub fn new(sources: Vec<u32>) -> (t: Tickeys)
        requires
            sources.len() > 0,
        ensures
            t.well_formed(),
            t.player().sources() == sources@,
            t.player().buffers() == Seq::<u32>::empty(),
            t.keymap() == Map::<u8, u8>::empty(),
            t.shared_count() == -1,
            t.recent_keys() == Seq::<u8>::empty(),
            t.filter().last_key_pressed() is None,
            t.filter().last_time_ms() == 0,
            !t.is_muted(),
    {
        Tickeys {
            audio_player: SimpleAudioPlayer::new(sources),
            keymap: BTreeMap::new(),
            first_n_non_unique: -1,
            last_keys: VecDeque::with_capacity(8),
            repeat_filter: RepeatFilter::new(),
            muted: false,
        }
    }

    /// Loads a scheme whose sound files became the buffers `buffers` (in the
    /// order of `scheme.files`): the player plays those, and the key rule is
    /// the scheme's. The remembered keys and the repeat filter stay.
    pub fn load_scheme(&mut self, scheme: &AudioScheme, buffers: Vec<u32>)
        requires
            old(self).well_formed(),
        ensures
            final(self).well_formed(),
            final(self).player().buffers() == buffers@,
            final(self).player().sources() == old(self).player().sources(),
            final(self).keymap() == scheme.key_audio_map@,
            final(self).shared_count() == scheme.non_unique_count as i16,
            final(self).recent_keys() == old(self).recent_keys(),
            final(self).filter() == old(self).filter(),
            final(self).is_muted() == old(self).is_muted(),
    {
        self.audio_player.load_data(buffers);
        self.keymap = scheme.key_audio_map.clone();
        self.first_n_non_unique = scheme.non_unique_count as i16;
    }

    /// Silences key presses, or lets them be heard again. Keys are still
    /// remembered and recorded by the repeat filter while muted.
    pub fn set_mute(&mut self, mute: bool)
        requires
            old(self).well_formed(),
        ensures
            final(self).well_formed(),
            final(self).is_muted() == mute,
            final(self).player() == old(self).player(),
            final(self).keymap() == old(self).keymap(),
            final(self).shared_count() == old(self).shared_count(),
            final(self).recent_keys() == old(self).recent_keys(),
            final(self).filter() == old(self).filter(),
    {
        self.muted = mute;
    }

    /// The most recent keys, oldest first.
    pub fn get_last_keys(&self) -> (keys: &VecDeque<u8>)
        ensures
            keys@ == self.recent_keys(),
    {
        &self.last_keys
    }

    /// The player, for the sources it holds.
    pub fn player_ref(&self) -> (p: &SimpleAudioPlayer)
        ensures
            *p == self.player(),
    {
        &self.audio_player
    }

    /// The index of the sound that `keycode` plays under the loaded scheme.
    pub fn sound_index_of(&self, keycode: u8) -> (index: Option<usize>)
        requires
            self.well_formed(),
        ensures
            match sound_index(self.keymap(), self.shared_count(), keycode) {
                Some(i) => index == Some(i as usize),
                None => index is None,
            },
            index matches Some(i) ==> (!self.keymap().contains_key(keycode) ==> i
                < self.shared_count()),
    {
        match self.keymap.get(&keycode) {
            Some(idx) => Some(*idx as usize),
            None => {
                if self.first_n_non_unique <= 0 {
                    None
                } else {
                    let n: u8 = self.first_n_non_unique as u8;
                    Some((keycode % n) as usize)
                }
            },
        }
    }

    /// Handles a press of `keycode` at `now` (milliseconds): remembers the
    /// key, records it in the repeat filter, and, unless it repeats the last
    /// key too soon or has no sound, plays its sound. Returns the source and
    /// the buffer to connect and start, if any.
    pub fn handle_keydown_at(&mut self, keycode: u8, now: u64) -> (play: Option<(u32, u32)>)
        requires
            old(self).well_formed(),
        ensures
            final(self).well_formed(),
            final(self).recent_keys() == push_recent(old(self).recent_keys(), keycode),
            final(self).keymap() == old(self).keymap(),
            final(self).shared_count() == old(self).shared_count(),
            final(self).filter().last_time_ms() == now,
            final(self).filter().last_key_pressed() == Some(keycode),
            final(self).player().buffers() == old(self).player().buffers(),
            final(self).is_muted() == old(self).is_muted(),
            match sound_to_play(*old(self), keycode, now) {
                Some(i) => {
                    &&& play == Some((old(self).player().sources()[0], old(self).player().buffers()[i]))
                    &&& final(self).player().sources() == rotate_once(old(self).player().sources())
                },
                None => {
                    &&& play is None
                    &&& final(self).player().sources() == old(self).player().sources()
                },
            },
    {
        self.last_keys.push_back(keycode);
        if self.last_keys.len() > LAST_KEYS_LEN {
            self.last_keys.pop_front();
        }
        let index = self.sound_index_of(keycode);
        if self.repeat_filter.check_at(keycode, now) {
            return None;
        }
        if self.muted {
            return None;
        }
        match index {
            None => None,
            Some(i) => self.audio_player.play(i),
        }
    }

    /// Handles a press of `keycode` now, by the performance counter; the
    /// outcome is that of `handle_keydown_at` at the time the repeat filter
    /// records.
    pub fn handle_keydown(&mut self, keycode: u8) -> (play: Option<(u32, u32)>)
        requires
            old(self).well_formed(),
        ensures
            final(self).well_formed(),
            final(self).recent_keys() == push_recent(old(self).recent_keys(), keycode),
            final(self).keymap() == old(self).keymap(),
            final(self).shared_count() == old(self).shared_count(),
            final(self).filter().last_key_pressed() == Some(keycode),
            final(self).player().buffers() == old(self).player().buffers(),
            final(self).is_muted() == old(self).is_muted(),
            match sound_to_play(*old(self), keycode, final(self).filter().last_time_ms()) {
                Some(i) => {
                    &&& play == Some((old(self).player().sources()[0], old(self).player().buffers()[i]))
                    &&& final(self).player().sources() == rotate_once(old(self).player().sources())
                },
                None => {
                    &&& play is None
                    &&& final(self).player().sources() == old(self).player().sources()
                },
            },
    {
        let now = now_ms();
        self.handle_keydown_at(keycode, now)
    }
}

/// The remembered keys are always the most recent presses: starting from at
/// most `LAST_KEYS_LEN` keys, any run of presses leaves the last
/// `LAST_KEYS_LEN` keys of the old ones followed by the presses.
pub proof fn lemma_recent_keys_are_last_presses(keys: Seq<u8>, presses: Seq<u8>)
    requires
        keys.len() <= LAST_KEYS_LEN,
    ensures
        push_all_recent(keys, presses) == last_n(keys + presses, LAST_KEYS_LEN as nat),
    decreases presses.len(),
{
    if presses.len() == 0 {
        assert(keys + presses =~= keys);
    } else {
        let init = presses.drop_last();
        lemma_recent_keys_are_last_presses(keys, init);
        let prev = push_all_recent(keys, init);
        let all = keys + presses;
        assert(keys + init =~= all.drop_last());
        if all.len() > LAST_KEYS_LEN {
            assert(push_recent(prev, presses.last()) =~= all.subrange(
                all.len() - LAST_KEYS_LEN,
                all.len() as int,
            ));
        } else {
            assert(push_recent(prev, presses.last()) =~= all);
        }
    }
}

/// A key with its own entry plays that entry's sound; any other key, when
/// the scheme shares out its first `n` sounds, plays one of those `n`: the
/// key code modulo `n`.
pub proof fn lemma_keys_map_to_their_sounds(keymap: Map<u8, u8>, n: i16, keycode: u8)
    ensures
        keymap.contains_key(keycode) ==> sound_index(keymap, n, keycode) == Some(
            keymap[keycode] as int,
        ),
        !keymap.contains_key(keycode) && n > 0 ==> (sound_index(keymap, n, keycode) matches Some(
            i,
        ) && 0 <= i < n && i == (keycode as int) % (n as int)),
        !keymap.contains_key(keycode) && n <= 0 ==> sound_index(keymap, n, keycode) is None,
{
}

/// Holding a key down is heard once: after a press of `keycode` has been
/// recorded, another press of it less than the window later plays nothing.
pub proof fn lemma_quick_repeat_is_silent(t: Tickeys, keycode: u8, now: u64)
    requires
        t.filter().last_key_pressed() == Some(keycode),
        t.filter().last_time_ms() <= now,
        now - t.filter().last_time_ms() < crate::repeat_filter::REPEAT_WINDOW_MS,
    ensures
        sound_to_play(t, keycode, now) is None,
{
}

/// A muted state plays nothing: whatever the key and the time, a press
/// while muted (the active application is filtered out) is silent.
pub proof fn lemma_muted_plays_nothing(t: Tickeys, keycode: u8, now: u64)
    requires
        t.is_muted(),
    ensures
        sound_to_play(t, keycode, now) is None,
{
}

} // verus!
