//! Hotkeys: parsing key combination strings, and the state that decides when
//! a combination becomes active.

use vstd::prelude::*;
use vstd::set_lib::{lemma_int_range, lemma_map_size, lemma_subset_equality, set_int_range};

use crate::keyboard::canonical::{backend_vk, canonical, canonical_input, KeyboardBackend};
use crate::keyboard::input::{keyinput_same, lemma_keyinput_same_equivalence, KeyInput};
use crate::keyboard::key::{
    is_name_char, key_from_name, key_name, key_normal_modifier, lemma_key_name_chars,
    lemma_name_roundtrip, Key,
};
use crate::keyboard::keycode::{keycode_of_char, keycode_of_vk, KeyCode};
use crate::util::text::{
    ascii_lower, char_lowercase, chars_of, lowercase_first, lowercase_text, owned, parse_u32, parse_u32_text,
    str_lowercase, string_of,
};
use crate::util::Error;

verus! {

// ---------------------------------------------------------------------------
// Sets of key inputs
// ---------------------------------------------------------------------------

/// Whether `s` holds a member that is the same set member as `k`.
pub open spec fn contains_same(s: Seq<KeyInput>, k: KeyInput) -> bool {
    exists|i: int| 0 <= i < s.len() && keyinput_same(#[trigger] s[i], k)
}

/// Whether no two members of `s` are the same set member.
pub open spec fn distinct_inputs(s: Seq<KeyInput>) -> bool {
    forall|i: int, j: int| 0 <= i < j < s.len() ==> !keyinput_same(#[trigger] s[i], #[trigger] s[j])
}

/// Whether every member of `a` is in `b`.
pub open spec fn included(a: Seq<KeyInput>, b: Seq<KeyInput>) -> bool {
    forall|i: int| 0 <= i < a.len() ==> contains_same(b, #[trigger] a[i])
}

/// `s` with later repetitions of a member left out.
pub open spec fn dedup_inputs(s: Seq<KeyInput>) -> Seq<KeyInput>
    decreases s.len(),
{
    if s.len() == 0 {
        s
    } else {
        let d = dedup_inputs(s.drop_last());
        if contains_same(d, s.last()) {
            d
        } else {
            d.push(s.last())
        }
    }
}

/// `s` without the member that is the same as `k`.
pub open spec fn remove_same(s: Seq<KeyInput>, k: KeyInput) -> Seq<KeyInput>
    decreases s.len(),
{
    if s.len() == 0 {
        s
    } else {
        let r = remove_same(s.drop_last(), k);
        if keyinput_same(s.last(), k) {
            r
        } else {
            r.push(s.last())
        }
    }
}

/// The characters of each of a list of character vectors.
pub open spec fn char_views(parts: Seq<Vec<char>>) -> Seq<Seq<char>> {
    parts.map_values(|v: Vec<char>| v@)
}

fn find_same(s: &Vec<KeyInput>, k: &KeyInput) -> (found: bool)
    ensures
        found == contains_same(s@, *k),
{
    let mut i: usize = 0;
    while i < s.len()
        invariant
            i <= s@.len(),
            forall|j: int| 0 <= j < i ==> !keyinput_same(#[trigger] s@[j], *k),
        decreases s@.len() - i,
    {
        if s[i].same(k) {
            return true;
        }
        i = i + 1;
    }
    false
}

proof fn lemma_push_distinct(s: Seq<KeyInput>, k: KeyInput)
    requires
        distinct_inputs(s),
        !contains_same(s, k),
    ensures
        distinct_inputs(s.push(k)),
{
    assert forall|i: int, j: int| 0 <= i < j < s.push(k).len() implies !keyinput_same(
        #[trigger] s.push(k)[i],
        #[trigger] s.push(k)[j],
    ) by {
        if j == s.len() {
            assert(s.push(k)[i] == s[i]);
            if keyinput_same(s[i], k) {
                assert(contains_same(s, k));
            }
        } else {
            assert(s.push(k)[i] == s[i] && s.push(k)[j] == s[j]);
        }
    }
}

proof fn lemma_contains_push(s: Seq<KeyInput>, x: KeyInput, k: KeyInput)
    ensures
        contains_same(s.push(x), k) == (contains_same(s, k) || keyinput_same(x, k)),
{
    if contains_same(s, k) {
        let i = choose|i: int| 0 <= i < s.len() && keyinput_same(#[trigger] s[i], k);
        assert(s.push(x)[i] == s[i]);
    }
    if keyinput_same(x, k) {
        assert(s.push(x)[s.len() as int] == x);
    }
    if contains_same(s.push(x), k) {
        let i = choose|i: int| 0 <= i < s.push(x).len() && keyinput_same(#[trigger] s.push(x)[i], k);
        if i < s.len() {
            assert(s.push(x)[i] == s[i]);
        }
    }
}

proof fn lemma_dedup_distinct(s: Seq<KeyInput>)
    ensures
        distinct_inputs(dedup_inputs(s)),
        forall|k: KeyInput| contains_same(dedup_inputs(s), k) == contains_same(s, k),
    decreases s.len(),
{
    if s.len() > 0 {
        let p = s.drop_last();
        lemma_dedup_distinct(p);
        let d = dedup_inputs(p);
        assert(s =~= p.push(s.last()));
        assert forall|k: KeyInput| contains_same(dedup_inputs(s), k) == contains_same(s, k) by {
            lemma_contains_push(p, s.last(), k);
            lemma_contains_push(d, s.last(), k);
            if contains_same(d, s.last()) && keyinput_same(s.last(), k) {
                let i = choose|i: int| 0 <= i < d.len() && keyinput_same(#[trigger] d[i], s.last());
                lemma_keyinput_same_equivalence(d[i], s.last(), k);
            }
        }
        if !contains_same(d, s.last()) {
            lemma_push_distinct(d, s.last());
        }
    }
}

proof fn lemma_filter_contains(s: Seq<KeyInput>, k: KeyInput, x: KeyInput)
    ensures
        contains_same(remove_same(s, k), x) ==> contains_same(s, x),
        contains_same(s, x) && !keyinput_same(x, k) ==> contains_same(remove_same(s, k), x),
    decreases s.len(),
{
    if s.len() > 0 {
        let p = s.drop_last();
        assert(s =~= p.push(s.last()));
        lemma_filter_contains(p, k, x);
        let r = remove_same(p, k);
        lemma_contains_push(p, s.last(), x);
        lemma_contains_push(r, s.last(), x);
        if keyinput_same(s.last(), x) && !keyinput_same(x, k) && keyinput_same(s.last(), k) {
            lemma_keyinput_same_equivalence(x, s.last(), k);
            lemma_keyinput_same_equivalence(s.last(), x, k);
        }
    }
}

proof fn lemma_filter_distinct(s: Seq<KeyInput>, k: KeyInput)
    requires
        distinct_inputs(s),
    ensures
        distinct_inputs(remove_same(s, k)),
    decreases s.len(),
{
    if s.len() > 0 {
        let p = s.drop_last();
        assert(s =~= p.push(s.last()));
        assert(distinct_inputs(p)) by {
            assert forall|i: int, j: int| 0 <= i < j < p.len() implies !keyinput_same(
                #[trigger] p[i],
                #[trigger] p[j],
            ) by {
                assert(p[i] == s[i] && p[j] == s[j]);
            }
        }
        lemma_filter_distinct(p, k);
        if !keyinput_same(s.last(), k) {
            if contains_same(remove_same(p, k), s.last()) {
                lemma_filter_contains(p, k, s.last());
                let i = choose|i: int| 0 <= i < p.len() && keyinput_same(#[trigger] p[i], s.last());
                assert(s[i] == p[i]);
                assert(!keyinput_same(s[i], s[s.len() - 1]));
            }
            lemma_push_distinct(remove_same(p, k), s.last());
        }
    }
}

/// Two sets of distinct members, the first included in the second and of
/// equal size, hold the same members.
proof fn lemma_pigeonhole(a: Seq<KeyInput>, b: Seq<KeyInput>)
    requires
        distinct_inputs(a),
        included(a, b),
        a.len() == b.len(),
    ensures
        included(b, a),
{
    let n = a.len() as int;
    let f = |i: int|
        choose|j: int| 0 <= j < b.len() && keyinput_same(#[trigger] b[j], a[i]);
    let dom = set_int_range(0, n);
    lemma_int_range(0, n);
    assert forall|i: int| 0 <= i < n implies 0 <= #[trigger] f(i) < n && keyinput_same(b[f(i)], a[i]) by {
        assert(contains_same(b, a[i]));
    }
    assert(vstd::relations::injective_on(f, dom)) by {
        assert forall|i1: int, i2: int| dom.contains(i1) && dom.contains(i2) && #[trigger] f(i1)
            == #[trigger] f(i2) implies i1 == i2 by {
            let j = f(i1);
            lemma_keyinput_same_equivalence(b[j], a[i1], a[i2]);
            lemma_keyinput_same_equivalence(a[i1], b[j], a[i2]);
            if i1 < i2 {
                assert(!keyinput_same(a[i1], a[i2]));
            } else if i2 < i1 {
                assert(!keyinput_same(a[i2], a[i1]));
                lemma_keyinput_same_equivalence(a[i2], a[i1], a[i1]);
            }
        }
    }
    let img = dom.map(f);
    lemma_map_size(dom, img, f);
    assert(img.subset_of(dom)) by {
        assert forall|j: int| img.contains(j) implies dom.contains(j) by {
            let i = choose|i: int| dom.contains(i) && f(i) == j;
        }
    }
    lemma_subset_equality(img, dom);
    assert forall|j: int| 0 <= j < b.len() implies contains_same(a, #[trigger] b[j]) by {
        assert(dom.contains(j));
        assert(img.contains(j));
        let i = choose|i: int| dom.contains(i) && f(i) == j;
        lemma_keyinput_same_equivalence(b[j], a[i], a[i]);
        assert(keyinput_same(a[i], b[j]));
    }
}

/// A set of distinct members included in another is no larger.
proof fn lemma_included_len(a: Seq<KeyInput>, b: Seq<KeyInput>)
    requires
        distinct_inputs(a),
        included(a, b),
    ensures
        a.len() <= b.len(),
{
    let n = a.len() as int;
    let f = |i: int|
        choose|j: int| 0 <= j < b.len() && keyinput_same(#[trigger] b[j], a[i]);
    let dom = set_int_range(0, n);
    lemma_int_range(0, n);
    lemma_int_range(0, b.len() as int);
    assert forall|i: int| 0 <= i < n implies 0 <= #[trigger] f(i) < b.len() && keyinput_same(
        b[f(i)],
        a[i],
    ) by {
        assert(contains_same(b, a[i]));
    }
    assert(vstd::relations::injective_on(f, dom)) by {
        assert forall|i1: int, i2: int| dom.contains(i1) && dom.contains(i2) && #[trigger] f(i1)
            == #[trigger] f(i2) implies i1 == i2 by {
            let j = f(i1);
            lemma_keyinput_same_equivalence(b[j], a[i1], a[i2]);
            lemma_keyinput_same_equivalence(a[i1], b[j], a[i2]);
            if i1 < i2 {
                assert(!keyinput_same(a[i1], a[i2]));
            } else if i2 < i1 {
                assert(!keyinput_same(a[i2], a[i1]));
                lemma_keyinput_same_equivalence(a[i2], a[i1], a[i1]);
            }
        }
    }
    let img = dom.map(f);
    lemma_map_size(dom, img, f);
    assert(img.subset_of(set_int_range(0, b.len() as int))) by {
        assert forall|j: int| img.contains(j) implies set_int_range(0, b.len() as int).contains(j) by {
            let i = choose|i: int| dom.contains(i) && f(i) == j;
        }
    }
    vstd::set_lib::lemma_len_subset(img, set_int_range(0, b.len() as int));
}

/// The activation test of `press`, equal sizes, means exactly that every key
/// of the combination is held.
pub proof fn lemma_active_iff_all_held(keys: Seq<KeyInput>, held: Seq<KeyInput>)
    requires
        distinct_inputs(keys),
        distinct_inputs(held),
        included(held, keys),
    ensures
        (held.len() == keys.len()) == included(keys, held),
{
    lemma_included_len(held, keys);
    if held.len() == keys.len() {
        lemma_pigeonhole(held, keys);
    }
    if included(keys, held) {
        lemma_included_len(keys, held);
    }
}

/// A press adds the key to the held keys when it belongs to the combination
/// and is not held yet, and leaves them as they were otherwise; the held
/// keys stay distinct keys of the combination. The hotkey activates exactly
/// when the key was added and every key of the combination is now held.
pub proof fn lemma_press_activation(keys: Seq<KeyInput>, held: Seq<KeyInput>, key: KeyInput)
    requires
        distinct_inputs(keys),
        distinct_inputs(held),
        included(held, keys),
    ensures
        ({
            let (after, activated) = press_step(keys, held, key);
            &&& distinct_inputs(after)
            &&& included(after, keys)
            &&& forall|x: KeyInput|
                #[trigger] contains_same(after, x) == (contains_same(held, x) || (contains_same(
                    keys,
                    key,
                ) && keyinput_same(key, x)))
            &&& activated == (contains_same(keys, key) && !contains_same(held, key) && included(
                keys,
                after,
            ))
        }),
{
    let (after, activated) = press_step(keys, held, key);
    if contains_same(keys, key) && !contains_same(held, key) {
        lemma_push_distinct(held, key);
        assert forall|i: int| 0 <= i < after.len() implies contains_same(keys, #[trigger] after[i]) by {
            if i < held.len() {
                assert(after[i] == held[i]);
            }
        }
        assert forall|x: KeyInput| #[trigger] contains_same(after, x) == (contains_same(held, x) || (
        contains_same(keys, key) && keyinput_same(key, x))) by {
            lemma_contains_push(held, key, x);
        }
        lemma_active_iff_all_held(keys, after);
    } else {
        assert forall|x: KeyInput| #[trigger] contains_same(after, x) == (contains_same(held, x) || (
        contains_same(keys, key) && keyinput_same(key, x))) by {
            if contains_same(keys, key) && keyinput_same(key, x) {
                let j = choose|j: int| 0 <= j < held.len() && keyinput_same(#[trigger] held[j], key);
                lemma_keyinput_same_equivalence(held[j], key, x);
            }
        }
    }
}

/// Once every key of the combination is held, no press changes the state or
/// activates the hotkey again until a key is released.
pub proof fn lemma_no_repeat_activation(keys: Seq<KeyInput>, held: Seq<KeyInput>, key: KeyInput)
    requires
        included(keys, held),
    ensures
        !(contains_same(keys, key) && !contains_same(held, key)),
{
    if contains_same(keys, key) {
        let i = choose|i: int| 0 <= i < keys.len() && keyinput_same(#[trigger] keys[i], key);
        assert(contains_same(held, keys[i]));
        let j = choose|j: int| 0 <= j < held.len() && keyinput_same(#[trigger] held[j], keys[i]);
        lemma_keyinput_same_equivalence(held[j], keys[i], key);
    }
}

proof fn lemma_remove_len(s: Seq<KeyInput>, k: KeyInput)
    requires
        distinct_inputs(s),
    ensures
        contains_same(s, k) ==> remove_same(s, k).len() + 1 == s.len(),
        !contains_same(s, k) ==> remove_same(s, k) == s,
    decreases s.len(),
{
    if s.len() > 0 {
        let p = s.drop_last();
        assert(s =~= p.push(s.last()));
        assert(distinct_inputs(p)) by {
            assert forall|i: int, j: int| 0 <= i < j < p.len() implies !keyinput_same(
                #[trigger] p[i],
                #[trigger] p[j],
            ) by {
                assert(p[i] == s[i] && p[j] == s[j]);
            }
        }
        lemma_remove_len(p, k);
        lemma_contains_push(p, s.last(), k);
        if keyinput_same(s.last(), k) && contains_same(p, k) {
            let i = choose|i: int| 0 <= i < p.len() && keyinput_same(#[trigger] p[i], k);
            lemma_keyinput_same_equivalence(p[i], k, s.last());
            assert(s[i] == p[i]);
            assert(!keyinput_same(s[i], s[s.len() - 1]));
        }
    }
}

/// Releasing a key of an active combination and pressing it again activates
/// the hotkey again.
pub proof fn lemma_release_press_reactivates(
    keys: Seq<KeyInput>,
    held: Seq<KeyInput>,
    key: KeyInput,
)
    requires
        distinct_inputs(keys),
        distinct_inputs(held),
        included(held, keys),
        included(keys, held),
        contains_same(keys, key),
    ensures
        !contains_same(remove_same(held, key), key),
        remove_same(held, key).push(key).len() == keys.len(),
{
    lemma_active_iff_all_held(keys, held);
    lemma_no_repeat_activation(keys, held, key);
    lemma_remove_len(held, key);
    if contains_same(remove_same(held, key), key) {
        let i = choose|i: int| 0 <= i < remove_same(held, key).len() && keyinput_same(
            #[trigger] remove_same(held, key)[i],
            key,
        );
        lemma_remove_excludes(held, key, i);
    }
}

proof fn lemma_remove_excludes(s: Seq<KeyInput>, k: KeyInput, i: int)
    requires
        0 <= i < remove_same(s, k).len(),
    ensures
        !keyinput_same(remove_same(s, k)[i], k),
    decreases s.len(),
{
    if s.len() > 0 {
        let r = remove_same(s.drop_last(), k);
        if i < r.len() {
            lemma_remove_excludes(s.drop_last(), k, i);
        }
    }
}

// ---------------------------------------------------------------------------
// Parsing
// ---------------------------------------------------------------------------

/// Scans `s[i..]` for `'+'` separators: a `'+'` ends a part unless the part
/// would be empty, in which case it belongs to the part. Gives the start of the
/// last part and the parts before it.
pub open spec fn split_scan(s: Seq<char>, i: int, start: int, parts: Seq<Seq<char>>) -> (
    int,
    Seq<Seq<char>>,
)
    decreases s.len() - i,
{
    if i < 0 || i >= s.len() {
        (start, parts)
    } else if s[i] == '+' && i != start {
        split_scan(s, i + 1, i + 1, parts.push(s.subrange(start, i)))
    } else {
        split_scan(s, i + 1, start, parts)
    }
}

/// The parts of a key combination string, or `None` when its last part is
/// empty.
pub open spec fn split_keys(s: Seq<char>) -> Option<Seq<Seq<char>>> {
    let (start, parts) = split_scan(s, 0, 0, seq![]);
    if start == s.len() {
        None
    } else {
        Some(parts.push(s.subrange(start, s.len() as int)))
    }
}

/// The parts, each followed by a `'+'`, one after the other.
pub open spec fn joined_with_separators(parts: Seq<Seq<char>>) -> Seq<char>
    decreases parts.len(),
{
    if parts.len() == 0 {
        Seq::empty()
    } else {
        joined_with_separators(parts.drop_last()) + parts.last() + seq!['+']
    }
}

/// The parts joined by `'+'`.
pub open spec fn joined_parts(parts: Seq<Seq<char>>) -> Seq<char> {
    joined_with_separators(parts.drop_last()) + parts.last()
}

/// Whether every part holds a character.
pub open spec fn parts_non_empty(parts: Seq<Seq<char>>) -> bool {
    forall|i: int| 0 <= i < parts.len() ==> (#[trigger] parts[i]).len() > 0
}

/// What the scan keeps: the parts so far are non-empty and, each followed
/// by its separator, make up the text before the current part, which starts
/// at the beginning or after a `'+'`.
proof fn lemma_split_scan(s: Seq<char>, i: int, start: int, parts: Seq<Seq<char>>)
    requires
        0 <= start <= i <= s.len(),
        s.take(start) == joined_with_separators(parts),
        parts_non_empty(parts),
        start == 0 || s[start - 1] == '+',
    ensures
        ({
            let (r, ps) = split_scan(s, i, start, parts);
            &&& start <= r <= s.len()
            &&& s.take(r) == joined_with_separators(ps)
            &&& parts_non_empty(ps)
            &&& (r == 0 || s[r - 1] == '+')
        }),
    decreases s.len() - i,
{
    if i < s.len() {
        if s[i] == '+' && i != start {
            let part = s.subrange(start, i);
            let next = parts.push(part);
            assert(next.drop_last() =~= parts);
            assert(s.take(i + 1) =~= s.take(start) + part + seq!['+']);
            assert forall|j: int| 0 <= j < next.len() implies (#[trigger] next[j]).len() > 0 by {
                if j < parts.len() {
                    assert(next[j] == parts[j]);
                }
            }
            lemma_split_scan(s, i + 1, i + 1, next);
        } else {
            lemma_split_scan(s, i + 1, start, parts);
        }
    }
}

/// Scanning a string is scanning it without its last character, then that
/// last character.
proof fn lemma_split_scan_last(s: Seq<char>, i: int, start: int, parts: Seq<Seq<char>>)
    requires
        s.len() > 0,
        0 <= start <= i <= s.len() - 1,
    ensures
        ({
            let n = s.len() - 1;
            let (st, ps) = split_scan(s.drop_last(), i, start, parts);
            split_scan(s, i, start, parts) == if s[n] == '+' && n != st {
                (n + 1, ps.push(s.subrange(st, n)))
            } else {
                (st, ps)
            }
        }),
    decreases s.len() - i,
{
    let t = s.drop_last();
    if i < t.len() {
        assert(s[i] == t[i]);
        if s[i] == '+' && i != start {
            assert(s.subrange(start, i) =~= t.subrange(start, i));
            lemma_split_scan_last(s, i + 1, i + 1, parts.push(s.subrange(start, i)));
        } else {
            lemma_split_scan_last(s, i + 1, start, parts);
        }
    } else {
        let n = s.len() - 1;
        if s[n] == '+' && n != start {
            assert(split_scan(s, n + 1, n + 1, parts.push(s.subrange(start, n))) == (
                n + 1,
                parts.push(s.subrange(start, n)),
            ));
        } else {
            assert(split_scan(s, n + 1, start, parts) == (start, parts));
        }
    }
}

/// A key combination string splits into non-empty parts that, joined by
/// `'+'`, give the string back. It fails to split exactly when it is empty,
/// or ends with a `'+'` after a part: when it ends with a `'+'` and splits
/// without it.
pub proof fn lemma_split_keys(s: Seq<char>)
    ensures
        split_keys(s) matches Some(parts) ==> {
            &&& parts.len() >= 1
            &&& parts_non_empty(parts)
            &&& joined_parts(parts) == s
        },
        split_keys(s) is None <==> (s.len() == 0 || (s.last() == '+' && split_keys(s.drop_last()) is Some)),
{
    assert(s.take(0) =~= joined_with_separators(seq![]));
    lemma_split_scan(s, 0, 0, seq![]);
    let (r, ps) = split_scan(s, 0, 0, seq![]);
    if r != s.len() {
        let tail = s.subrange(r, s.len() as int);
        let parts = ps.push(tail);
        assert(parts.drop_last() =~= ps);
        assert(s =~= s.take(r) + tail);
        assert forall|j: int| 0 <= j < parts.len() implies (#[trigger] parts[j]).len() > 0 by {
            if j < ps.len() {
                assert(parts[j] == ps[j]);
            }
        }
    }
    if s.len() > 0 {
        let t = s.drop_last();
        assert(t.take(0) =~= joined_with_separators(seq![]));
        lemma_split_scan(t, 0, 0, seq![]);
        lemma_split_scan_last(s, 0, 0, seq![]);
    }
}

/// The key input a part of a key combination stands for: a single character
/// (in lower case), or a key name or virtual key code in angle brackets.
pub open spec fn part_input(s: Seq<char>, backend: KeyboardBackend) -> Option<KeyInput> {
    if s.len() == 1 {
        Some(KeyInput::Code(keycode_of_char(lowercase_first(s[0]))))
    } else if s.len() > 2 && s[0] == '<' && s.last() == '>' {
        let inner = s.subrange(1, s.len() - 1);
        match key_from_name(lowercase_text(inner)) {
            Some(key) => if key_normal_modifier(key) == Some(key) {
                Some(KeyInput::Key(key))
            } else {
                Some(
                    KeyInput::Code(
                        keycode_of_vk(
                            match backend_vk(backend, key) {
                                Some(vk) => vk,
                                None => 0,
                            },
                        ),
                    ),
                )
            },
            None => match parse_u32_text(inner) {
                Some(vk) => Some(KeyInput::Code(keycode_of_vk(vk))),
                None => None,
            },
        }
    } else {
        None
    }
}

/// A key's name in angle brackets, as a key combination names it.
pub open spec fn bracketed_name(k: Key) -> Seq<char> {
    seq!['<'] + key_name(k) + seq!['>']
}

/// With no `'+'` left to scan, the scan ends as it stands.
proof fn lemma_split_scan_no_plus(s: Seq<char>, i: int, start: int, parts: Seq<Seq<char>>)
    requires
        0 <= i,
        forall|j: int| i <= j < s.len() ==> s[j] != '+',
    ensures
        split_scan(s, i, start, parts) == (start, parts),
    decreases s.len() - i,
{
    if i < s.len() {
        lemma_split_scan_no_plus(s, i + 1, start, parts);
    }
}

/// Parsing a single character gives the normal form of its key.
pub proof fn lemma_parse_char_canonical(c: char, backend: KeyboardBackend)
    ensures
        parse_keys(seq![c], backend) == Some(
            seq![canonical_input(KeyInput::Code(keycode_of_char(c)), backend)],
        ),
{
    let s = seq![c];
    lemma_split_scan_no_plus(s, 1, 0, seq![]);
    assert(s.subrange(0, 1) =~= s);
    let parts = seq![s];
    assert(split_keys(s) == Some(parts));
    assert(part_input(parts[0], backend) is Some);
    assert(all_parts_parse(parts, backend));
    assert(parts_inputs(parts, backend) =~= seq![
        canonical_input(KeyInput::Code(keycode_of_char(c)), backend),
    ]);
}

/// On a platform with a backend, parsing the name of a key in angle
/// brackets gives the normal form of that key, for a key that is a generic
/// modifier or no modifier at all.
pub proof fn lemma_parse_name_canonical(k: Key, backend: KeyboardBackend)
    requires
        key_normal_modifier(k) is None || key_normal_modifier(k) == Some(k),
        backend != KeyboardBackend::Unsupported,
    ensures
        parse_keys(bracketed_name(k), backend) == Some(
            seq![canonical_input(KeyInput::Key(k), backend)],
        ),
{
    let name = key_name(k);
    let s = bracketed_name(k);
    lemma_key_name_chars(k);
    assert forall|j: int| 0 <= j < s.len() implies s[j] != '+' by {
        if 1 <= j < s.len() - 1 {
            assert(s[j] == name[j - 1]);
            assert(is_name_char(name[j - 1]));
        }
    }
    lemma_split_scan_no_plus(s, 0, 0, seq![]);
    assert(s.subrange(0, s.len() as int) =~= s);
    let parts = seq![s];
    assert(split_keys(s) == Some(parts));
    let inner = s.subrange(1, s.len() - 1);
    assert(inner =~= name);
    assert forall|j: int| 0 <= j < name.len() implies (#[trigger] name[j] as u32) < 128 by {
        assert(is_name_char(name[j]));
    }
    assert(name.map_values(|c: char| ascii_lower(c)) =~= name) by {
        assert forall|j: int| 0 <= j < name.len() implies ascii_lower(name[j]) == name[j] by {
            assert(is_name_char(name[j]));
        }
    }
    assert(lowercase_text(inner) == name);
    lemma_name_roundtrip(k);
    assert(part_input(s, backend) == Some(canonical_input(KeyInput::Key(k), backend)));
    assert(all_parts_parse(parts, backend));
    assert(parts_inputs(parts, backend) =~= seq![canonical_input(KeyInput::Key(k), backend)]);
}

/// Whether every part parses.
pub open spec fn all_parts_parse(parts: Seq<Seq<char>>, backend: KeyboardBackend) -> bool {
    forall|i: int| 0 <= i < parts.len() ==> (#[trigger] part_input(parts[i], backend)) is Some
}

/// The key inputs of parts that all parse.
pub open spec fn parts_inputs(parts: Seq<Seq<char>>, backend: KeyboardBackend) -> Seq<KeyInput> {
    parts.map_values(|p: Seq<char>| part_input(p, backend).unwrap())
}

/// The keys of a key combination string, or `None` when it does not parse:
/// its last part is empty, a part is neither a character nor a known key, or
/// two parts stand for the same key.
pub open spec fn parse_keys(s: Seq<char>, backend: KeyboardBackend) -> Option<Seq<KeyInput>> {
    match split_keys(s) {
        None => None,
        Some(parts) => if all_parts_parse(parts, backend) && distinct_inputs(
            parts_inputs(parts, backend),
        ) {
            Some(parts_inputs(parts, backend))
        } else {
            None
        },
    }
}

/// The index of the first part, from `i` on, that does not parse.
pub open spec fn first_bad_part(parts: Seq<Seq<char>>, backend: KeyboardBackend, i: int) -> int
    decreases parts.len() - i,
{
    if i < 0 || i >= parts.len() {
        parts.len() as int
    } else if part_input(parts[i], backend) is None {
        i
    } else {
        first_bad_part(parts, backend, i + 1)
    }
}

/// The text an unparsable key combination string is reported with: the part
/// that does not parse, or else the whole string.
pub open spec fn parse_error_text(s: Seq<char>, backend: KeyboardBackend) -> Seq<char> {
    match split_keys(s) {
        Some(parts) => if first_bad_part(parts, backend, 0) < parts.len() {
            parts[first_bad_part(parts, backend, 0)]
        } else {
            s
        },
        None => s,
    }
}

fn split_parts(keys: &str) -> (parts: Result<Vec<Vec<char>>, Error>)
    ensures
        match split_keys(keys@) {
            Some(p) => parts matches Ok(v) && char_views(v@) == p,
            None => parts matches Err(Error::InvalidString(m)) && m@ == keys@,
        },
{
    let chars = chars_of(keys);
    let mut parts: Vec<Vec<char>> = Vec::new();
    let mut current: Vec<char> = Vec::new();
    let mut start: usize = 0;
    let mut i: usize = 0;
    assert(char_views(parts@) =~= Seq::<Seq<char>>::empty());
    assert(current@ =~= chars@.subrange(0, 0));
    while i < chars.len()
        invariant
            chars@ == keys@,
            start <= i <= chars@.len(),
            current@ == chars@.subrange(start as int, i as int),
            split_scan(keys@, 0, 0, seq![]) == split_scan(keys@, i as int, start as int, char_views(parts@)),
        decreases chars@.len() - i,
    {
        let c = chars[i];
        if c == '+' && i != start {
            let ghost before = char_views(parts@);
            parts.push(current);
            assert(char_views(parts@) =~= before.push(keys@.subrange(start as int, i as int)));
            current = Vec::new();
            start = i + 1;
            assert(current@ =~= chars@.subrange(start as int, (i + 1) as int));
        } else {
            current.push(c);
            assert(current@ =~= chars@.subrange(start as int, (i + 1) as int));
        }
        i = i + 1;
    }
    if start == chars.len() {
        return Err(Error::InvalidString(owned(keys)));
    }
    let ghost before = char_views(parts@);
    parts.push(current);
    assert(char_views(parts@) =~= before.push(keys@.subrange(start as int, keys@.len() as int)));
    Ok(parts)
}

fn parse_part(s: &Vec<char>, backend: KeyboardBackend) -> (input: Result<KeyInput, Error>)
    ensures
        match part_input(s@, backend) {
            Some(k) => input == Ok::<KeyInput, Error>(k),
            None => input matches Err(Error::InvalidString(m)) && m@ == s@,
        },
{
    if s.len() == 1 {
        return Ok(KeyInput::Code(KeyCode::from_char(char_lowercase(s[0]))));
    }
    if s.len() > 2 && s[0] == '<' && s[s.len() - 1] == '>' {
        let mut inner_chars: Vec<char> = Vec::new();
        let mut i: usize = 1;
        while i < s.len() - 1
            invariant
                2 < s@.len(),
                1 <= i <= s@.len() - 1,
                inner_chars@ == s@.subrange(1, i as int),
            decreases s@.len() - 1 - i,
        {
            inner_chars.push(s[i]);
            i = i + 1;
            assert(inner_chars@ =~= s@.subrange(1, i as int));
        }
        let inner = string_of(&inner_chars);
        let lower = str_lowercase(inner.as_str());
        if let Some(key) = Key::from_name(lower.as_str()) {
            // Represent generic modifiers as `Key`, everything else as a key
            // code.
            if let Some(base) = key.normal_modifier() {
                if base == key {
                    return Ok(KeyInput::Key(key));
                }
            }
            let vk = match backend.canonical_vk(key) {
                Some(v) => v,
                None => 0,
            };
            return Ok(KeyInput::Code(KeyCode::from_vk(vk)));
        }
        if let Some(vk) = parse_u32(inner.as_str()) {
            return Ok(KeyInput::Code(KeyCode::from_vk(vk)));
        }
        return Err(Error::InvalidString(string_of(s)));
    }
    Err(Error::InvalidString(string_of(s)))
}

// ---------------------------------------------------------------------------
// HotKey
// ---------------------------------------------------------------------------

/// The held keys after a press of `key`, and whether the combination has just
/// become active: a key of the combination that is not held yet becomes held,
/// and activation is reported when as many keys are held as the combination
/// has.
pub open spec fn press_step(keys: Seq<KeyInput>, held: Seq<KeyInput>, key: KeyInput) -> (
    Seq<KeyInput>,
    bool,
) {
    if contains_same(keys, key) && !contains_same(held, key) {
        (held.push(key), held.push(key).len() == keys.len())
    } else {
        (held, false)
    }
}

/// A combination of keys acting as a hotkey.
///
/// This is a container of hotkey state for a keyboard listener: `press`
/// reports when the combination becomes active, and the caller runs its
/// action.
pub struct HotKey {
    state: Vec<KeyInput>,
    keys: Vec<KeyInput>,
}

impl HotKey {
    /// The keys of the combination.
    pub closed spec fn keys(&self) -> Seq<KeyInput> {
        self.keys@
    }

    /// The keys of the combination currently held.
    pub closed spec fn state(&self) -> Seq<KeyInput> {
        self.state@
    }

    #[verifier::type_invariant]
    spec fn wf(&self) -> bool {
        &&& distinct_inputs(self.keys@)
        &&& distinct_inputs(self.state@)
        &&& included(self.state@, self.keys@)
    }

    /// The hotkey's invariant: keys and held keys hold no member twice, and
    /// every held key is a key of the combination.
    pub open spec fn valid(&self) -> bool {
        &&& distinct_inputs(self.keys())
        &&& distinct_inputs(self.state())
        &&& included(self.state(), self.keys())
    }

    /// Creates a hotkey from a collection of keys; a key given twice counts
    /// once.
    pub fn new(keys: Vec<KeyInput>) -> (hotkey: HotKey)
        ensures
            hotkey.keys() == dedup_inputs(keys@),
            hotkey.state() == Seq::<KeyInput>::empty(),
            hotkey.valid(),
    {
        let mut unique: Vec<KeyInput> = Vec::new();
        let mut i: usize = 0;
        while i < keys.len()
            invariant
                i <= keys@.len(),
                unique@ == dedup_inputs(keys@.take(i as int)),
            decreases keys@.len() - i,
        {
            let k = keys[i];
            assert(keys@.take(i + 1).drop_last() =~= keys@.take(i as int));
            if !find_same(&unique, &k) {
                unique.push(k);
            }
            i = i + 1;
        }
        assert(keys@.take(keys@.len() as int) =~= keys@);
        proof {
            lemma_dedup_distinct(keys@);
        }
        HotKey { state: Vec::new(), keys: unique }
    }

    /// Parses a key combination string.
    ///
    /// Key combination strings are sequences of key identifiers separated by
    /// `'+'`. Key identifiers are either single characters representing a
    /// keyboard key, such as `'a'`, or special key names enclosed in brackets,
    /// such as `"<ctrl>"`. Special keys other than the generic modifiers are
    /// given as the virtual key code of `backend`.
    pub fn parse(keys: &str, backend: KeyboardBackend) -> (parsed: Result<Vec<KeyInput>, Error>)
        ensures
            match parse_keys(keys@, backend) {
                Some(v) => parsed matches Ok(p) && p@ == v,
                None => parsed matches Err(Error::InvalidString(m)) && m@ == parse_error_text(
                    keys@,
                    backend,
                ),
            },
    {
        let raw_parts = split_parts(keys)?;
        let ghost parts = char_views(raw_parts@);
        let mut parsed: Vec<KeyInput> = Vec::new();
        let mut i: usize = 0;
        while i < raw_parts.len()
            invariant
                parts == char_views(raw_parts@),
                split_keys(keys@) == Some(parts),
                i <= parts.len(),
                parts.len() == raw_parts@.len(),
                first_bad_part(parts, backend, 0) == first_bad_part(parts, backend, i as int),
                forall|j: int| 0 <= j < i ==> (#[trigger] part_input(parts[j], backend)) is Some,
                parsed@ =~= parts.take(i as int).map_values(
                    |p: Seq<char>| part_input(p, backend).unwrap(),
                ),
            decreases parts.len() - i,
        {
            assert(parts[i as int] == raw_parts@[i as int]@);
            let input = parse_part(&raw_parts[i], backend)?;
            parsed.push(input);
            i = i + 1;
            assert(parts.take(i as int) =~= parts.take(i - 1).push(parts[i - 1]));
        }
        assert(parts.take(parts.len() as int) =~= parts);
        assert(all_parts_parse(parts, backend));
        assert(parsed@ =~= parts_inputs(parts, backend));
        assert(first_bad_part(parts, backend, 0) == parts.len());
        assert(parse_error_text(keys@, backend) == keys@);
        // Ensure no duplicate parts.
        let mut j: usize = 0;
        while j < parsed.len()
            invariant
                parse_error_text(keys@, backend) == keys@,
                split_keys(keys@) == Some(parts),
                all_parts_parse(parts, backend),
                parsed@ == parts_inputs(parts, backend),
                j <= parsed@.len(),
                forall|a: int, b: int| 0 <= a < b < j ==> !keyinput_same(#[trigger] parsed@[a], #[trigger] parsed@[b]),
            decreases parsed@.len() - j,
        {
            let mut k: usize = 0;
            while k < j
                invariant
                    parse_error_text(keys@, backend) == keys@,
                    split_keys(keys@) == Some(parts),
                    all_parts_parse(parts, backend),
                    parsed@ == parts_inputs(parts, backend),
                    j < parsed@.len(),
                    k <= j,
                    forall|a: int, b: int| 0 <= a < b < j ==> !keyinput_same(#[trigger] parsed@[a], #[trigger] parsed@[b]),
                    forall|a: int| 0 <= a < k ==> !keyinput_same(#[trigger] parsed@[a], parsed@[j as int]),
                decreases j - k,
            {
                if parsed[k].same(&parsed[j]) {
                    assert(!distinct_inputs(parsed@));
                    return Err(Error::InvalidString(owned(keys)));
                }
                k = k + 1;
            }
            j = j + 1;
        }
        Ok(parsed)
    }

    /// Updates the hotkey state for a pressed key, and reports whether the
    /// full combination has just become active. Activation is reported only
    /// once until at least one key is released.
    pub fn press(&mut self, key: KeyInput) -> (activated: bool)
        ensures
            old(self).valid(),
            final(self).valid(),
            final(self).keys() == old(self).keys(),
            (final(self).state(), activated) == press_step(old(self).keys(), old(self).state(), key),
            contains_same(old(self).keys(), key) && !contains_same(old(self).state(), key) ==> {
                &&& final(self).state() == old(self).state().push(key)
                &&& activated == (final(self).state().len() == final(self).keys().len())
            },
            !(contains_same(old(self).keys(), key) && !contains_same(old(self).state(), key)) ==> {
                &&& final(self).state() == old(self).state()
                &&& !activated
            },
    {
        proof {
            use_type_invariant(&*self);
        }
        if find_same(&self.keys, &key) && !find_same(&self.state, &key) {
            proof {
                lemma_push_distinct(self.state@, key);
                assert forall|i: int| 0 <= i < self.state@.push(key).len() implies contains_same(
                    self.keys@,
                    #[trigger] self.state@.push(key)[i],
                ) by {
                    if i < self.state@.len() {
                        assert(self.state@.push(key)[i] == self.state@[i]);
                    }
                }
            }
            let mut state: Vec<KeyInput> = Vec::new();
            std::mem::swap(&mut state, &mut self.state);
            state.push(key);
            self.state = state;
            return self.state.len() == self.keys.len();
        }
        false
    }

    /// Updates the hotkey state for a released key.
    pub fn release(&mut self, key: KeyInput)
        ensures
            old(self).valid(),
            final(self).valid(),
            final(self).keys() == old(self).keys(),
            final(self).state() == remove_same(old(self).state(), key),
    {
        proof {
            use_type_invariant(&*self);
        }
        let ghost old_state = self.state@;
        let mut kept: Vec<KeyInput> = Vec::new();
        let mut i: usize = 0;
        while i < self.state.len()
            invariant
                old_state == self.state@,
                i <= old_state.len(),
                kept@ == remove_same(old_state.take(i as int), key),
            decreases old_state.len() - i,
        {
            let x = self.state[i];
            assert(old_state.take(i + 1).drop_last() =~= old_state.take(i as int));
            if !x.same(&key) {
                kept.push(x);
            }
            i = i + 1;
        }
        assert(old_state.take(old_state.len() as int) =~= old_state);
        proof {
            lemma_filter_distinct(old_state, key);
            assert forall|i: int| 0 <= i < kept@.len() implies contains_same(
                self.keys@,
                #[trigger] kept@[i],
            ) by {
                lemma_filter_contains(old_state, key, kept@[i]);
                assert(contains_same(kept@, kept@[i])) by {
                    lemma_keyinput_same_equivalence(kept@[i], kept@[i], kept@[i]);
                }
                let j = choose|j: int| 0 <= j < old_state.len() && keyinput_same(#[trigger] old_state[j], kept@[i]);
                assert(contains_same(self.keys@, old_state[j]));
                let l = choose|l: int| 0 <= l < self.keys@.len() && keyinput_same(#[trigger] self.keys@[l], old_state[j]);
                lemma_keyinput_same_equivalence(self.keys@[l], old_state[j], kept@[i]);
            }
        }
        self.state = kept;
    }
}

// ---------------------------------------------------------------------------
// GlobalHotKeys
// ---------------------------------------------------------------------------

/// The indices, in increasing order, of the hotkeys among the first `n` that
/// a press of `key` activates.
pub open spec fn activated_indices(hotkeys: Seq<HotKey>, key: KeyInput, n: int) -> Seq<usize>
    decreases n,
{
    if n <= 0 {
        seq![]
    } else {
        let before = activated_indices(hotkeys, key, n - 1);
        if press_step(hotkeys[n - 1].keys(), hotkeys[n - 1].state(), key).1 {
            before.push((n - 1) as usize)
        } else {
            before
        }
    }
}

/// Hotkey `i` is among those a press of `key` activates exactly when `key`
/// is one of its keys that was not held, and all its keys are held once it
/// is added; a press that adds no key to a hotkey's held keys never
/// activates it.
pub proof fn lemma_activated_indices(hotkeys: Seq<HotKey>, key: KeyInput, n: int)
    requires
        0 <= n <= hotkeys.len(),
        n <= usize::MAX,
        forall|i: int| 0 <= i < n ==> (#[trigger] hotkeys[i]).valid(),
    ensures
        forall|j: int|
            0 <= j < activated_indices(hotkeys, key, n).len() ==> (#[trigger] activated_indices(
                hotkeys,
                key,
                n,
            )[j]) < n,
        forall|i: int|
            0 <= i < n ==> (activated_indices(hotkeys, key, n).contains(i as usize) <==> {
                &&& contains_same((#[trigger] hotkeys[i]).keys(), key)
                &&& !contains_same(hotkeys[i].state(), key)
                &&& included(hotkeys[i].keys(), hotkeys[i].state().push(key))
            }),
    decreases n,
{
    if n > 0 {
        lemma_activated_indices(hotkeys, key, n - 1);
        let before = activated_indices(hotkeys, key, n - 1);
        let hk = hotkeys[n - 1];
        lemma_press_activation(hk.keys(), hk.state(), key);
        let now = activated_indices(hotkeys, key, n);
        assert forall|i: int| 0 <= i < n implies (now.contains(i as usize) <==> {
            &&& contains_same((#[trigger] hotkeys[i]).keys(), key)
            &&& !contains_same(hotkeys[i].state(), key)
            &&& included(hotkeys[i].keys(), hotkeys[i].state().push(key))
        }) by {
            if i < n - 1 {
                if now.contains(i as usize) {
                    let j = choose|j: int| 0 <= j < now.len() && now[j] == i as usize;
                    if j == before.len() {
                        assert(now[j] == (n - 1) as usize);
                    } else {
                        assert(now[j] == before[j]);
                    }
                }
                if before.contains(i as usize) {
                    let j = choose|j: int| 0 <= j < before.len() && before[j] == i as usize;
                    if press_step(hk.keys(), hk.state(), key).1 {
                        assert(now[j] == before[j]);
                    }
                }
            } else {
                if before.contains(i as usize) {
                    let j = choose|j: int| 0 <= j < before.len() && before[j] == i as usize;
                    assert(before[j] < n - 1);
                }
                if press_step(hk.keys(), hk.state(), key).1 {
                    assert(now[before.len() as int] == (n - 1) as usize);
                } else if now.contains(i as usize) {
                    let j = choose|j: int| 0 <= j < now.len() && now[j] == i as usize;
                    assert(before[j] < n - 1);
                }
            }
        }
    }
}

/// Whether a listener event is handed to the hotkeys: injected events and
/// unknown keys are ignored.
pub open spec fn event_applies(key: Option<KeyInput>, injected: bool) -> bool {
    !injected && key is Some
}

/// A set of global hotkeys, fed with the events of a keyboard listener.
///
/// Events are normalised with [`canonical`] before they reach the hotkeys.
pub struct GlobalHotKeys {
    hotkeys: Vec<HotKey>,
    backend: KeyboardBackend,
}

impl GlobalHotKeys {
    /// The hotkeys, in the order of their descriptions.
    pub closed spec fn hotkeys(&self) -> Seq<HotKey> {
        self.hotkeys@
    }

    /// The backend whose key codes normalise the events.
    pub closed spec fn backend(&self) -> KeyboardBackend {
        self.backend
    }

    /// Parses the hotkey descriptions (see [`HotKey::parse`]) and starts with
    /// no key held. Fails with the error of the first description that does
    /// not parse.
    pub fn start(descriptions: &[&str], backend: KeyboardBackend) -> (started: Result<
        GlobalHotKeys,
        Error,
    >)
        ensures
            (forall|i: int| 0 <= i < descriptions@.len() ==> parse_keys(#[trigger] descriptions@[i]@, backend) is Some)
                ==> (started matches Ok(g) && g.backend() == backend && g.hotkeys().len()
                == descriptions@.len() && forall|i: int| 0 <= i < descriptions@.len() ==> {
                &&& (#[trigger] g.hotkeys()[i]).keys() == dedup_inputs(
                    parse_keys(descriptions@[i]@, backend).unwrap(),
                )
                &&& g.hotkeys()[i].state() == Seq::<KeyInput>::empty()
            }),
            forall|i: int|
                0 <= i < descriptions@.len() && parse_keys(#[trigger] descriptions@[i]@, backend) is None
                    && (forall|j: int| 0 <= j < i ==> parse_keys(#[trigger] descriptions@[j]@, backend) is Some)
                    ==> (started matches Err(Error::InvalidString(m)) && m@ == parse_error_text(
                    descriptions@[i]@,
                    backend,
                )),
    {
        let mut hotkeys: Vec<HotKey> = Vec::new();
        let mut i: usize = 0;
        while i < descriptions.len()
            invariant
                i <= descriptions@.len(),
                hotkeys@.len() == i,
                forall|j: int| 0 <= j < i ==> parse_keys(#[trigger] descriptions@[j]@, backend) is Some,
                forall|j: int| 0 <= j < i ==> {
                    &&& (#[trigger] hotkeys@[j]).keys() == dedup_inputs(
                        parse_keys(descriptions@[j]@, backend).unwrap(),
                    )
                    &&& hotkeys@[j].state() == Seq::<KeyInput>::empty()
                },
            decreases descriptions@.len() - i,
        {
            let keys = HotKey::parse(descriptions[i], backend)?;
            hotkeys.push(HotKey::new(keys));
            i = i + 1;
        }
        Ok(GlobalHotKeys { hotkeys, backend })
    }

    /// Hands a key press to the hotkeys, unless it was injected or the key is
    /// unknown, and returns the indices of the hotkeys it activates, whose
    /// actions the caller runs.
    pub fn press(&mut self, key: Option<KeyInput>, injected: bool) -> (activated: Vec<usize>)
        ensures
            final(self).backend() == old(self).backend(),
            final(self).hotkeys().len() == old(self).hotkeys().len(),
            !event_applies(key, injected) ==> final(self).hotkeys() == old(self).hotkeys()
                && activated@ == Seq::<usize>::empty(),
            event_applies(key, injected) ==> {
                let c = canonical_input(key.unwrap(), old(self).backend());
                &&& activated@ == activated_indices(old(self).hotkeys(), c, old(self).hotkeys().len() as int)
                &&& forall|i: int|
                    0 <= i < old(self).hotkeys().len() ==> (activated@.contains(i as usize) <==> {
                        &&& contains_same((#[trigger] old(self).hotkeys()[i]).keys(), c)
                        &&& !contains_same(old(self).hotkeys()[i].state(), c)
                        &&& included(old(self).hotkeys()[i].keys(), old(self).hotkeys()[i].state().push(c))
                    })
                &&& forall|i: int| 0 <= i < old(self).hotkeys().len() ==> {
                    &&& (#[trigger] final(self).hotkeys()[i]).keys() == old(self).hotkeys()[i].keys()
                    &&& final(self).hotkeys()[i].state() == press_step(
                        old(self).hotkeys()[i].keys(),
                        old(self).hotkeys()[i].state(),
                        c,
                    ).0
                }
            },
    {
        let mut activated: Vec<usize> = Vec::new();
        if injected {
            return activated;
        }
        let k = match key {
            Some(k) => k,
            None => {
                return activated;
            },
        };
        let c = canonical(&k, self.backend);
        let ghost old_hotkeys = self.hotkeys@;
        let n = self.hotkeys.len();
        let mut remaining: Vec<HotKey> = Vec::new();
        std::mem::swap(&mut remaining, &mut self.hotkeys);
        let mut done: Vec<HotKey> = Vec::new();
        let mut i: usize = 0;
        while i < n
            invariant
                n == old_hotkeys.len(),
                i <= n,
                done@.len() == i,
                remaining@ == old_hotkeys.subrange(i as int, n as int),
                activated@ == activated_indices(old_hotkeys, c, i as int),
                forall|j: int| 0 <= j < i ==> (#[trigger] old_hotkeys[j]).valid(),
                forall|j: int| 0 <= j < i ==> {
                    &&& (#[trigger] done@[j]).keys() == old_hotkeys[j].keys()
                    &&& done@[j].state() == press_step(old_hotkeys[j].keys(), old_hotkeys[j].state(), c).0
                },
            decreases n - i,
        {
            let mut hk = remaining.remove(0);
            assert(hk == old_hotkeys[i as int]);
            let fired = hk.press(c);
            if fired {
                activated.push(i);
            }
            done.push(hk);
            i = i + 1;
            assert(remaining@ =~= old_hotkeys.subrange(i as int, n as int));
        }
        self.hotkeys = done;
        proof {
            lemma_activated_indices(old_hotkeys, c, n as int);
        }
        activated
    }

    /// Hands a key release to the hotkeys, unless it was injected or the key
    /// is unknown.
    pub fn release(&mut self, key: Option<KeyInput>, injected: bool)
        ensures
            final(self).backend() == old(self).backend(),
            final(self).hotkeys().len() == old(self).hotkeys().len(),
            !event_applies(key, injected) ==> final(self).hotkeys() == old(self).hotkeys(),
            event_applies(key, injected) ==> forall|i: int| 0 <= i < old(self).hotkeys().len() ==> {
                &&& (#[trigger] final(self).hotkeys()[i]).keys() == old(self).hotkeys()[i].keys()
                &&& final(self).hotkeys()[i].state() == remove_same(
                    old(self).hotkeys()[i].state(),
                    canonical_input(key.unwrap(), old(self).backend()),
                )
            },
    {
        if injected {
            return;
        }
        let k = match key {
            Some(k) => k,
            None => {
                return;
            },
        };
        let c = canonical(&k, self.backend);
        let ghost old_hotkeys = self.hotkeys@;
        let n = self.hotkeys.len();
        let mut remaining: Vec<HotKey> = Vec::new();
        std::mem::swap(&mut remaining, &mut self.hotkeys);
        let mut done: Vec<HotKey> = Vec::new();
        let mut i: usize = 0;
        while i < n
            invariant
                n == old_hotkeys.len(),
                i <= n,
                done@.len() == i,
                remaining@ == old_hotkeys.subrange(i as int, n as int),
                forall|j: int| 0 <= j < i ==> {
                    &&& (#[trigger] done@[j]).keys() == old_hotkeys[j].keys()
                    &&& done@[j].state() == remove_same(old_hotkeys[j].state(), c)
                },
            decreases n - i,
        {
            let mut hk = remaining.remove(0);
            assert(hk == old_hotkeys[i as int]);
            hk.release(c);
            done.push(hk);
            i = i + 1;
            assert(remaining@ =~= old_hotkeys.subrange(i as int, n as int));
        }
        self.hotkeys = done;
    }
}

} // verus!
