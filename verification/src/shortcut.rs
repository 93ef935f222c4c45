use std::collections::VecDeque;
use vstd::prelude::*;

use crate::tickeys::{last_n, lemma_recent_keys_are_last_presses, push_all_recent, LAST_KEYS_LEN};

verus! {

broadcast use vstd::std_specs::vecdeque::group_vec_dequeue_axioms;

/// Whether the key sequence `keys` ends with `seq`.
pub open spec fn ends_with(keys: Seq<u8>, seq: Seq<u8>) -> bool {
    &&& seq.len() <= keys.len()
    &&& keys.subrange(keys.len() - seq.len(), keys.len() as int) == seq
}

/// Whether the shortcut fires: some candidate sequence is a suffix of `keys`
/// and no candidate before it is longer than `keys` (the candidates are
/// tried in order, and the search gives up at the first one that is longer
/// than the keys typed).
pub open spec fn shortcut_fires(keys: Seq<u8>, seqs: Seq<Seq<u8>>) -> bool {
    exists|i: int|
        0 <= i < seqs.len() && ends_with(keys, #[trigger] seqs[i]) && forall|j: int|
            0 <= j <= i ==> #[trigger] seqs[j].len() <= keys.len()
}

/// The key codes of "qaz123" typed on the main keys.
pub open spec fn qaz123_main_row() -> Seq<u8> {
    seq![12u8, 0u8, 6u8, 18u8, 19u8, 20u8]
}

/// The key codes of "qaz123" with the digits typed on the keypad.
pub open spec fn qaz123_keypad() -> Seq<u8> {
    seq![12u8, 0u8, 6u8, 83u8, 84u8, 85u8]
}

/// The sequences that open the settings window.
pub open spec fn open_settings_seqs() -> Seq<Seq<u8>> {
    seq![qaz123_main_row(), qaz123_keypad()]
}

/// The sequences that open the settings window: "qaz123", with the digits
/// on the main keys or on the keypad.
pub fn open_settings_key_seqs() -> (seqs: Vec<Vec<u8>>)
    ensures
        seqs.deep_view() == open_settings_seqs(),
{
    let main_row: Vec<u8> = vec![12u8, 0u8, 6u8, 18u8, 19u8, 20u8];
    let keypad: Vec<u8> = vec![12u8, 0u8, 6u8, 83u8, 84u8, 85u8];
    assert(main_row@ =~= qaz123_main_row());
    assert(keypad@ =~= qaz123_keypad());
    let seqs = vec![main_row, keypad];
    assert(seqs.deep_view()[0] =~= qaz123_main_row());
    assert(seqs.deep_view()[1] =~= qaz123_keypad());
    assert(seqs.deep_view() =~= open_settings_seqs());
    seqs
}

/// Whether `last_keys` ends with one of `seqs`, trying them in order and
/// giving up at the first one that is longer than the keys typed.
pub fn matches_key_seqs(last_keys: &VecDeque<u8>, seqs: &Vec<Vec<u8>>) -> (pass: bool)
    ensures
        pass == shortcut_fires(last_keys@, seqs.deep_view()),
{
    let ghost keys = last_keys@;
    let ghost all = seqs.deep_view();
    let last_keys_len = last_keys.len();
    let mut k: usize = 0;
    while k < seqs.len()
        invariant
            keys == last_keys@,
            all == seqs.deep_view(),
            last_keys_len == keys.len(),
            k <= seqs.len(),
            forall|j: int| 0 <= j < k ==> #[trigger] all[j].len() <= keys.len(),
            forall|j: int| 0 <= j < k ==> !ends_with(keys, #[trigger] all[j]),
        decreases seqs.len() - k,
    {
        let seq = &seqs[k];
        let seq_len = seq.len();
        assert(seq@ == all[k as int]);
        if last_keys_len < seq_len {
            assert(!shortcut_fires(keys, all)) by {
                if shortcut_fires(keys, all) {
                    let i = choose|i: int|
                        0 <= i < all.len() && ends_with(keys, #[trigger] all[i]) && forall|j: int|
                            0 <= j <= i ==> #[trigger] all[j].len() <= keys.len();
                    if i < k {
                    } else {
                        assert(all[k as int].len() <= keys.len());
                    }
                }
            }
            return false;
        }
        let mut pass = true;
        let mut i: usize = 0;
        while i < seq_len
            invariant_except_break
                pass,
            invariant
                keys == last_keys@,
                seq_len == seq@.len(),
                last_keys_len == keys.len(),
                seq_len <= last_keys_len,
                i <= seq_len,
                forall|m: int|
                    0 <= m < i ==> keys[last_keys_len - 1 - m] == #[trigger] seq@[seq_len - 1 - m],
            ensures
                pass ==> i == seq_len,
                !pass ==> i < seq_len && keys[last_keys_len - 1 - i] != seq@[seq_len - 1 - i],
            decreases seq_len - i,
        {
            if last_keys[last_keys_len - 1 - i] != seq[seq_len - 1 - i] {
                pass = false;
                break;
            }
            i = i + 1;
        }
        let ghost suffix = keys.subrange(keys.len() - seq@.len(), keys.len() as int);
        if pass {
            assert(suffix =~= seq@) by {
                assert forall|p: int| 0 <= p < seq_len implies suffix[p] == seq@[p] by {
                    let m = seq_len - 1 - p;
                    assert(keys[last_keys_len - 1 - m] == seq@[seq_len - 1 - m]);
                }
            }
            assert(ends_with(keys, all[k as int]));
            return true;
        } else {
            assert(!ends_with(keys, all[k as int])) by {
                let p = seq_len - 1 - i;
                if suffix == seq@ {
                    assert(suffix[p] == keys[last_keys_len - 1 - i]);
                }
            }
        }
        k = k + 1;
    }
    assert(!shortcut_fires(keys, all));
    false
}

/// Whether the most recent keys call for the settings window.
pub fn should_open_settings(last_keys: &VecDeque<u8>) -> (open: bool)
    ensures
        open == shortcut_fires(last_keys@, open_settings_seqs()),
{
    let seqs = open_settings_key_seqs();
    matches_key_seqs(last_keys, &seqs)
}

/// With at most `LAST_KEYS_LEN` keys remembered, the settings window opens
/// exactly when the remembered keys are "qaz123", digits on the main keys or
/// on the keypad.
pub proof fn lemma_settings_shortcut_is_qaz123(keys: Seq<u8>)
    requires
        keys.len() <= LAST_KEYS_LEN,
    ensures
        shortcut_fires(keys, open_settings_seqs()) <==> (keys == qaz123_main_row() || keys
            == qaz123_keypad()),
{
    let seqs = open_settings_seqs();
    assert(seqs[0] == qaz123_main_row());
    assert(seqs[1] == qaz123_keypad());
    if keys == qaz123_main_row() {
        assert(keys.subrange(0, 6) =~= keys);
        assert(ends_with(keys, seqs[0]));
        assert(forall|j: int| 0 <= j <= 0 ==> #[trigger] seqs[j].len() <= keys.len());
    } else if keys == qaz123_keypad() {
        assert(keys.subrange(0, 6) =~= keys);
        assert(ends_with(keys, seqs[1]));
        assert(forall|j: int| 0 <= j <= 1 ==> #[trigger] seqs[j].len() <= keys.len());
    } else if shortcut_fires(keys, seqs) {
        let i = choose|i: int|
            0 <= i < seqs.len() && ends_with(keys, #[trigger] seqs[i]) && forall|j: int|
                0 <= j <= i ==> #[trigger] seqs[j].len() <= keys.len();
        assert(keys.len() == 6);
        assert(keys.subrange(0, 6) =~= keys);
    }
}

/// Typing "qaz123" opens the settings window whatever was typed before:
/// after any run of presses that ends with it (digits on the main keys or
/// on the keypad), the remembered keys fire the shortcut.
pub proof fn lemma_typing_qaz123_opens_settings(keys: Seq<u8>, presses: Seq<u8>)
    requires
        keys.len() <= LAST_KEYS_LEN,
        presses.len() >= 6,
        presses.subrange(presses.len() - 6, presses.len() as int) == qaz123_main_row()
            || presses.subrange(presses.len() - 6, presses.len() as int) == qaz123_keypad(),
    ensures
        shortcut_fires(push_all_recent(keys, presses), open_settings_seqs()),
{
    lemma_recent_keys_are_last_presses(keys, presses);
    let all = keys + presses;
    let recent = last_n(all, LAST_KEYS_LEN as nat);
    assert(recent =~= presses.subrange(presses.len() - 6, presses.len() as int));
    lemma_settings_shortcut_is_qaz123(recent);
}

} // verus!
