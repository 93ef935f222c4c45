use vstd::prelude::*;
use vstd::string::*;

verus! {

/// The field name that marks an answer of the update service as a version
/// record.
pub open spec fn version_marker() -> Seq<char> {
    seq!['V', 'e', 'r', 's', 'i', 'o', 'n']
}

/// Whether `needle` occurs in `hay` as a run of consecutive chars.
pub open spec fn contains_run(hay: Seq<char>, needle: Seq<char>) -> bool {
    exists|i: int|
        0 <= i && i + needle.len() <= hay.len() && #[trigger] hay.subrange(i, i + needle.len())
            == needle
}

/// The notice for an available update: "<current> -> <latest>: <what's new>".
pub open spec fn notice_text(current: Seq<char>, latest: Seq<char>, whats_new: Seq<char>) -> Seq<
    char,
> {
    current + seq![' ', '-', '>', ' '] + latest + seq![':', ' '] + whats_new
}

/// The chars of `s`, in order.
fn chars_of(s: &str) -> (chars: Vec<char>)
    ensures
        chars@ == s@,
{
    let mut chars: Vec<char> = Vec::new();
    for c in it: s.chars()
        invariant
            chars@ == it.seq().take(it.index() as int),
    {
        chars.push(c);
    }
    chars
}

/// Whether the answer of the update service names a version (it holds the
/// word "Version").
pub fn contains_version_field(content: &str) -> (found: bool)
    ensures
        found == contains_run(content@, version_marker()),
{
    let hay = chars_of(content);
    let needle: Vec<char> = vec!['V', 'e', 'r', 's', 'i', 'o', 'n'];
    assert(needle@ =~= version_marker());
    let n = hay.len();
    let m = needle.len();
    if n < m {
        assert(!contains_run(content@, version_marker()));
        return false;
    }
    let mut i: usize = 0;
    while i <= n - m
        invariant
            hay@ == content@,
            needle@ == version_marker(),
            n == hay@.len(),
            m == needle@.len(),
            m <= n,
            i <= n - m + 1,
            forall|k: int| 0 <= k < i ==> #[trigger] hay@.subrange(k, k + m) != needle@,
        decreases n - m + 1 - i,
    {
        let mut j: usize = 0;
        let mut same = true;
        while j < m
            invariant_except_break
                same,
            invariant
                hay@ == content@,
                needle@ == version_marker(),
                n == hay@.len(),
                m == needle@.len(),
                i + m <= n,
                j <= m,
                forall|p: int| 0 <= p < j ==> hay@[i + p] == needle@[p],
            ensures
                same ==> j == m,
                !same ==> j < m && hay@[i + j] != needle@[j as int],
            decreases m - j,
        {
            if hay[i + j] != needle[j] {
                same = false;
                break;
            }
            j = j + 1;
        }
        if same {
            assert(hay@.subrange(i as int, i + m) =~= needle@);
            return true;
        }
        assert(hay@.subrange(i as int, i + m)[j as int] == hay@[i + j]);
        i = i + 1;
    }
    assert(!contains_run(content@, version_marker())) by {
        if contains_run(content@, version_marker()) {
            let k = choose|k: int|
                0 <= k && k + m <= n && #[trigger] hay@.subrange(k, k + m) == needle@;
            assert(hay@.subrange(k, k + m) != needle@);
        }
    }
    false
}

/// The notice to show for the version `latest` that the update service
/// names, while `current` runs: none when they are the same, else
/// "<current> -> <latest>: <what's new>".
pub fn update_notice(current: &str, latest: &str, whats_new: &str) -> (notice: Option<String>)
    ensures
        current@ == latest@ ==> notice is None,
        current@ != latest@ ==> (notice matches Some(text) && text@ == notice_text(
            current@,
            latest@,
            whats_new@,
        )),
{
    let current_owned = current.to_owned();
    let latest_owned = latest.to_owned();
    if current_owned == latest_owned {
        return None;
    }
    proof {
        reveal_strlit(" -> ");
        reveal_strlit(": ");
    }
    let text = current_owned.concat(" -> ");
    let text = text.concat(latest);
    let text = text.concat(": ");
    let text = text.concat(whats_new);
    assert(text@ =~= notice_text(current@, latest@, whats_new@));
    Some(text)
}

} // verus!
