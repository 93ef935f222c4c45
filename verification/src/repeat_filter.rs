use vstd::prelude::*;

verus! {

/// Within this many milliseconds a repeat of the same key stays silent.
pub const REPEAT_WINDOW_MS: u64 = 120;

/// Milliseconds from `last` to `now` on the 64-bit millisecond clock, which
/// wraps around (a reading before `last` counts as a wrapped-around one).
pub open spec fn elapsed_ms(last: u64, now: u64) -> int {
    if now >= last {
        now - last
    } else {
        now - last + 0x1_0000_0000_0000_0000
    }
}

/// Whether a key press at `now` repeats the previous press too soon: the same
/// key as last time, less than the window after it.
pub open spec fn repeats_too_soon(last_time: u64, last_key: Option<u8>, key: u8, now: u64) -> bool {
    &&& elapsed_ms(last_time, now) < REPEAT_WINDOW_MS
    &&& last_key == Some(key)
}

/// Reads `time::precise_time_ns`: a high-resolution performance counter in
/// nanoseconds since an unspecified epoch. Nothing is stated of the value,
/// which depends on when the call is made.
#[verifier::external_body]
fn precise_time_ns() -> u64 {
    time::precise_time_ns()
}

/// The performance counter in whole milliseconds.
pub fn now_ms() -> (ms: u64)
    ensures
        ms <= u64::MAX / 1_000_000,
{
    let ns = precise_time_ns();
    ns / 1000 / 1000
}

/// Remembers the last key press, to silence quick repeats of one key.
pub struct RepeatFilter {
    last_time: u64,
    last_key: Option<u8>,
}

impl RepeatFilter {
    /// The time of the last press, in milliseconds.
    pub closed spec fn last_time_ms(&self) -> u64 {
        self.last_time
    }

    /// The key of the last press; `None` before the first one.
    pub closed spec fn last_key_pressed(&self) -> Option<u8> {
        self.last_key
    }

    /// A filter that has seen no key yet, with the clock at zero.
    pub fn new() -> (f: RepeatFilter)
        ensures
            f.last_time_ms() == 0,
            f.last_key_pressed() is None,
    {
        RepeatFilter { last_time: 0, last_key: None }
    }

    /// Records a press of `keycode` at `now` (milliseconds) and says whether
    /// it repeats the previous press too soon.
    pub fn check_at(&mut self, keycode: u8, now: u64) -> (too_frequent: bool)
        ensures
            too_frequent == repeats_too_soon(
                old(self).last_time_ms(),
                old(self).last_key_pressed(),
                keycode,
                now,
            ),
            final(self).last_time_ms() == now,
            final(self).last_key_pressed() == Some(keycode),
    {
        let delta = now.wrapping_sub(self.last_time);
        let same_key = match self.last_key {
            Some(k) => k == keycode,
            None => false,
        };
        let too_frequent = delta < REPEAT_WINDOW_MS && same_key;
        self.last_key = Some(keycode);
        self.last_time = now;
        too_frequent
    }

    /// Records a press of `keycode` now, by the performance counter, and says
    /// whether it repeats the previous press too soon.
    pub fn is_too_frequent(&mut self, keycode: u8) -> (too_frequent: bool)
        ensures
            too_frequent == repeats_too_soon(
                old(self).last_time_ms(),
                old(self).last_key_pressed(),
                keycode,
                final(self).last_time_ms(),
            ),
            final(self).last_key_pressed() == Some(keycode),
    {
        let now = now_ms();
        self.check_at(keycode, now)
    }
}

/// A key never counts as a quick repeat of a different key, and a press of
/// the same key counts as one exactly when it comes within the window.
pub proof fn lemma_only_same_key_repeats(f: RepeatFilter, key: u8, now: u64)
    ensures
        f.last_key_pressed() != Some(key) ==> !repeats_too_soon(
            f.last_time_ms(),
            f.last_key_pressed(),
            key,
            now,
        ),
        f.last_key_pressed() == Some(key) && f.last_time_ms() <= now ==> (repeats_too_soon(
            f.last_time_ms(),
            f.last_key_pressed(),
            key,
            now,
        ) <==> now - f.last_time_ms() < REPEAT_WINDOW_MS),
{
}

} // verus!
