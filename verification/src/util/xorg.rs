//! The platform independent logic of the *Xorg* backend: keysyms, the
//! keyboard mapping, modifier masks and the parsing of recorded events.

use std::collections::HashMap;

use vstd::prelude::*;

use crate::util::text::owned;
use crate::util::Error;

verus! {

broadcast use vstd::std_specs::hash::group_hash_axioms;

/// The event type of a key press.
pub const KEY_PRESS: u8 = 2;
/// The event type of a key release.
pub const KEY_RELEASE: u8 = 3;
/// The event type of a button press.
pub const BUTTON_PRESS: u8 = 4;
/// The event type of a button release.
pub const BUTTON_RELEASE: u8 = 5;
/// The event type of pointer motion.
pub const MOTION_NOTIFY: u8 = 6;
/// The modifier mask of shift.
pub const SHIFT_MASK: u16 = 1;
/// The keysym that stands for no symbol.
pub const NO_SYMBOL: u32 = 0;
/// The keysym of `Mode_switch`, which selects the second group.
pub const MODE_SWITCH: u32 = 0xFF7E;
/// The keysym of `Num_Lock`.
pub const NUM_LOCK: u32 = 0xFF7F;
/// The keysym of `Shift_L`.
pub const SHIFT_L: u32 = 0xFFE1;

/// The keysym of a character: Latin-1 characters map to their code point,
/// other characters to their code point with bit 24 set.
pub open spec fn keysym_of_char(c: char) -> u32 {
    if (c as u32) < 0x100 {
        c as u32
    } else {
        (c as u32 + 0x0100_0000) as u32
    }
}

/// Converts a unicode character to a *keysym*.
pub fn char_to_keysym(c: char) -> (keysym: u32)
    ensures
        keysym == keysym_of_char(c),
{
    let ordinal = c as u32;
    if ordinal < 0x100 {
        ordinal
    } else {
        ordinal + 0x0100_0000
    }
}

/// Whether a keysym is a Latin uppercase letter.
pub open spec fn is_latin_upper(k: u32) -> bool {
    0x41 <= k <= 0x5A
}

/// Whether a keysym is a Latin lowercase letter.
pub open spec fn is_latin_lower(k: u32) -> bool {
    0x61 <= k <= 0x7A
}

/// The (unshifted, shifted) pair of a keysym group: a lone letter gets its
/// other case as partner, another lone keysym is its own partner.
pub open spec fn keysym_pair(ks1: u32, ks2: u32) -> (u32, u32) {
    if ks2 == NO_SYMBOL {
        if is_latin_upper(ks1) {
            ((0x61 + ks1 - 0x41) as u32, ks1)
        } else if is_latin_lower(ks1) {
            (ks1, (0x41 + ks1 - 0x61) as u32)
        } else {
            (ks1, ks1)
        }
    } else {
        (ks1, ks2)
    }
}

/// Builds a keysym group from its two members.
pub fn keysym_group(ks1: u32, ks2: u32) -> (group: (u32, u32))
    ensures
        group == keysym_pair(ks1, ks2),
{
    if ks2 == NO_SYMBOL {
        if 0x41 <= ks1 && ks1 <= 0x5A {
            (0x61 + ks1 - 0x41, ks1)
        } else if 0x61 <= ks1 && ks1 <= 0x7A {
            (ks1, 0x41 + ks1 - 0x61)
        } else {
            (ks1, ks1)
        }
    } else {
        (ks1, ks2)
    }
}

/// A keysym list without its trailing `NoSymbol` entries.
pub open spec fn strip_no_symbol(s: Seq<u32>) -> Seq<u32>
    decreases s.len(),
{
    if s.len() > 0 && s.last() == NO_SYMBOL {
        strip_no_symbol(s.drop_last())
    } else {
        s
    }
}

/// The two keysym groups of a keycode's keysym list, by the *X* convention.
pub open spec fn keysym_groups(s: Seq<u32>) -> Option<((u32, u32), (u32, u32))> {
    let t = strip_no_symbol(s);
    if t.len() == 0 {
        None
    } else if t.len() == 1 {
        Some((keysym_pair(t[0], NO_SYMBOL), keysym_pair(t[0], NO_SYMBOL)))
    } else if t.len() == 2 {
        Some((keysym_pair(t[0], t[1]), keysym_pair(t[0], t[1])))
    } else if t.len() == 3 {
        Some((keysym_pair(t[0], t[1]), keysym_pair(t[2], NO_SYMBOL)))
    } else if t.len() >= 6 {
        Some((keysym_pair(t[0], t[1]), keysym_pair(t[4], t[5])))
    } else {
        Some((keysym_pair(t[0], t[1]), keysym_pair(t[2], t[3])))
    }
}

/// Normalises a list of *keysyms* into two groups, mirroring the *X*
/// convention.
pub fn keysym_normalize(keysyms: &[u32]) -> (groups: Option<((u32, u32), (u32, u32))>)
    ensures
        groups == keysym_groups(keysyms@),
{
    // Remove trailing NoSymbol entries.
    let mut end = keysyms.len();
    assert(keysyms@.take(end as int) =~= keysyms@);
    while end > 0 && keysyms[end - 1] == NO_SYMBOL
        invariant
            end <= keysyms@.len(),
            strip_no_symbol(keysyms@) == strip_no_symbol(keysyms@.take(end as int)),
        decreases end,
    {
        assert(keysyms@.take(end as int).drop_last() =~= keysyms@.take(end - 1));
        end = end - 1;
    }
    let ghost t = keysyms@.take(end as int);
    assert(strip_no_symbol(keysyms@) == t);
    if end == 0 {
        None
    } else if end == 1 {
        let g = keysym_group(keysyms[0], NO_SYMBOL);
        Some((g, g))
    } else if end == 2 {
        let g = keysym_group(keysyms[0], keysyms[1]);
        Some((g, g))
    } else if end == 3 {
        Some((keysym_group(keysyms[0], keysyms[1]), keysym_group(keysyms[2], NO_SYMBOL)))
    } else if end >= 6 {
        Some((keysym_group(keysyms[0], keysyms[1]), keysym_group(keysyms[4], keysyms[5])))
    } else {
        Some((keysym_group(keysyms[0], keysyms[1]), keysym_group(keysyms[2], keysyms[3])))
    }
}

/// The shift state of a group member: shift for the second member, the group
/// mask for the second group.
pub open spec fn shift_state_of(shift: bool, group: bool, group_mask: u16) -> u16 {
    (if shift {
        SHIFT_MASK
    } else {
        0u16
    }) | (if group {
        group_mask
    } else {
        0u16
    })
}

/// Adds one candidate `(keysym, keycode, shift_state)` to a keyboard mapping:
/// `NoSymbol` is skipped, and an existing entry with a smaller shift state is
/// kept.
pub open spec fn mapping_add(
    m: Map<u32, (u8, u16)>,
    keysym: u32,
    keycode: u8,
    shift_state: u16,
) -> Map<u32, (u8, u16)> {
    if keysym == NO_SYMBOL {
        m
    } else if m.contains_key(keysym) && m[keysym].1 < shift_state {
        m
    } else {
        m.insert(keysym, (keycode, shift_state))
    }
}

/// Adds the four members of a keycode's two groups, in order.
pub open spec fn mapping_add_groups(
    m: Map<u32, (u8, u16)>,
    groups: ((u32, u32), (u32, u32)),
    keycode: u8,
    group_mask: u16,
) -> Map<u32, (u8, u16)> {
    let m1 = mapping_add(m, groups.0.0, keycode, shift_state_of(false, false, group_mask));
    let m2 = mapping_add(m1, groups.0.1, keycode, shift_state_of(true, false, group_mask));
    let m3 = mapping_add(m2, groups.1.0, keycode, shift_state_of(false, true, group_mask));
    mapping_add(m3, groups.1.1, keycode, shift_state_of(true, true, group_mask))
}

/// The keyboard mapping made of the first `n` rows of a raw mapping.
pub open spec fn mapping_of_rows(
    raw: Seq<Seq<u32>>,
    min_keycode: u8,
    group_mask: u16,
    n: int,
) -> Map<u32, (u8, u16)>
    decreases n,
{
    if n <= 0 {
        Map::empty()
    } else {
        let m = mapping_of_rows(raw, min_keycode, group_mask, n - 1);
        match keysym_groups(raw[n - 1]) {
            None => m,
            Some(groups) => mapping_add_groups(m, groups, (min_keycode + n - 1) as u8, group_mask),
        }
    }
}

fn add_candidate(m: &mut HashMap<u32, (u8, u16)>, keysym: u32, keycode: u8, shift_state: u16)
    ensures
        final(m)@ == mapping_add(old(m)@, keysym, keycode, shift_state),
{
    if keysym == NO_SYMBOL {
        return;
    }
    if let Some(existing) = m.get(&keysym) {
        if existing.1 < shift_state {
            return;
        }
    }
    m.insert(keysym, (keycode, shift_state));
}

/// Generates a mapping from *keysyms* to *(keycode, shift_state)* from the
/// raw keyboard mapping, whose row `i` holds the keysyms of keycode
/// `min_keycode + i`. A keysym reachable several ways keeps the smallest shift
/// state, the last keycode among equals.
pub fn keyboard_mapping(raw: &Vec<Vec<u32>>, min_keycode: u8, group_mask: u16) -> (mapping:
    HashMap<u32, (u8, u16)>)
    requires
        min_keycode + raw@.len() <= 256,
    ensures
        mapping@ == mapping_of_rows(raw.deep_view(), min_keycode, group_mask, raw@.len() as int),
{
    let mut mapping: HashMap<u32, (u8, u16)> = HashMap::new();
    let mut index: usize = 0;
    while index < raw.len()
        invariant
            index <= raw@.len(),
            min_keycode + raw@.len() <= 256,
            mapping@ == mapping_of_rows(raw.deep_view(), min_keycode, group_mask, index as int),
        decreases raw@.len() - index,
    {
        let key_code = min_keycode + index as u8;
        assert(raw.deep_view()[index as int] == raw@[index as int]@);
        match keysym_normalize(raw[index].as_slice()) {
            None => {},
            Some(groups) => {
                assert(0u16 | 0u16 == 0u16) by (bit_vector);
                assert(1u16 | 0u16 == 1u16) by (bit_vector);
                assert(0u16 | group_mask == group_mask) by (bit_vector);
                add_candidate(&mut mapping, (groups.0).0, key_code, 0);
                add_candidate(&mut mapping, (groups.0).1, key_code, SHIFT_MASK);
                add_candidate(&mut mapping, (groups.1).0, key_code, group_mask);
                add_candidate(&mut mapping, (groups.1).1, key_code, SHIFT_MASK | group_mask);
            },
        }
        index = index + 1;
    }
    mapping
}

/// The index of the first row of `raw[from..]` that holds `keysym`.
pub open spec fn first_row_with(raw: Seq<Seq<u32>>, keysym: u32, from: int) -> Option<int>
    decreases raw.len() - from,
{
    if from < 0 || from >= raw.len() {
        None
    } else if raw[from].contains(keysym) {
        Some(from)
    } else {
        first_row_with(raw, keysym, from + 1)
    }
}

/// The keycode currently mapped to a keysym: that of the first row of the
/// raw mapping that holds it.
pub open spec fn keycode_of_keysym(raw: Seq<Seq<u32>>, min_keycode: u8, keysym: u32) -> Option<u8> {
    match first_row_with(raw, keysym, 0) {
        Some(i) => Some((min_keycode + i) as u8),
        None => None,
    }
}

fn row_contains(row: &Vec<u32>, keysym: u32) -> (found: bool)
    ensures
        found == row@.contains(keysym),
{
    let mut j: usize = 0;
    while j < row.len()
        invariant
            j <= row@.len(),
            forall|k: int| 0 <= k < j ==> row@[k] != keysym,
        decreases row@.len() - j,
    {
        if row[j] == keysym {
            return true;
        }
        j = j + 1;
    }
    false
}

/// Returns the keycode mapped to a keysym in a raw keyboard mapping, if any.
pub fn keysym_to_keycode(raw: &Vec<Vec<u32>>, min_keycode: u8, keysym: u32) -> (keycode: Option<u8>)
    requires
        min_keycode + raw@.len() <= 256,
    ensures
        keycode == keycode_of_keysym(raw.deep_view(), min_keycode, keysym),
{
    let mut i: usize = 0;
    while i < raw.len()
        invariant
            i <= raw@.len(),
            min_keycode + raw@.len() <= 256,
            raw.deep_view().len() == raw@.len(),
            first_row_with(raw.deep_view(), keysym, 0) == first_row_with(raw.deep_view(), keysym, i as int),
        decreases raw@.len() - i,
    {
        let row = &raw[i];
        assert(raw.deep_view()[i as int] == row@);
        let found = row_contains(row, keysym);
        if found {
            return Some(min_keycode + i as u8);
        }
        i = i + 1;
    }
    None
}

/// Whether modifier `index` of a modifier mapping (rows of `per` keycodes)
/// holds `target`.
pub open spec fn modifier_row_has(keycodes: Seq<u8>, per: int, index: int, target: u8) -> bool {
    exists|j: int| 0 <= j < per && #[trigger] keycodes[index * per + j] == target
}

/// The mask bit of the first modifier, from `index` on, whose row holds
/// `target`; `0` if none does.
pub open spec fn modifier_mask_from(keycodes: Seq<u8>, per: int, target: u8, index: int) -> u16
    decreases 8 - index,
{
    if index < 0 || index >= 8 {
        0
    } else if modifier_row_has(keycodes, per, index, target) {
        1u16 << (index as u16)
    } else {
        modifier_mask_from(keycodes, per, target, index + 1)
    }
}

/// The modifier mask whose modifier mapping row holds the keycode `target`:
/// the bit of the first of the eight modifiers that lists it, or `0`.
pub fn modifier_mask(keycodes: &Vec<u8>, per: usize, target: u8) -> (mask: u16)
    requires
        keycodes@.len() >= 8 * per,
    ensures
        mask == modifier_mask_from(keycodes@, per as int, target, 0),
{
    let total = keycodes.len();
    let mut index: usize = 0;
    while index < 8
        invariant
            index <= 8,
            total == keycodes@.len(),
            keycodes@.len() >= 8 * per,
            modifier_mask_from(keycodes@, per as int, target, 0) == modifier_mask_from(
                keycodes@,
                per as int,
                target,
                index as int,
            ),
        decreases 8 - index,
    {
        let mut j: usize = 0;
        while j < per
            invariant
                index < 8,
                j <= per,
                total == keycodes@.len(),
                keycodes@.len() >= 8 * per,
                modifier_mask_from(keycodes@, per as int, target, 0) == modifier_mask_from(
                    keycodes@,
                    per as int,
                    target,
                    index as int,
                ),
                forall|k: int| 0 <= k < j ==> #[trigger] keycodes@[index * per + k] != target,
            decreases per - j,
        {
            assert(index * per + j < 8 * per && index * per <= 7 * per) by (nonlinear_arith)
                requires
                    index < 8,
                    j < per,
            ;
            let base = index * per;
            if keycodes[base + j] == target {
                assert(modifier_row_has(keycodes@, per as int, index as int, target));
                return 1u16 << (index as u16);
            }
            j = j + 1;
        }
        assert(!modifier_row_has(keycodes@, per as int, index as int, target));
        index = index + 1;
    }
    0
}

/// The key events that send a mapped key: to press it, the required shift
/// and group keys are held around it; a release sends the key alone.
pub open spec fn mapped_key_events(
    press: bool,
    keycode: u8,
    shift_state: u16,
    shift_keycode: Option<u8>,
    group_keycode: Option<u8>,
    group_mask: u16,
) -> Seq<(bool, u8)> {
    let want_shift = press && shift_state & SHIFT_MASK != 0 && shift_keycode is Some;
    let want_group = press && shift_state & group_mask != 0 && group_keycode is Some;
    let shift_down = if want_shift {
        seq![(true, shift_keycode.unwrap())]
    } else {
        seq![]
    };
    let group_down = if want_group {
        seq![(true, group_keycode.unwrap())]
    } else {
        seq![]
    };
    let group_up = if want_group {
        seq![(false, group_keycode.unwrap())]
    } else {
        seq![]
    };
    let shift_up = if want_shift {
        seq![(false, shift_keycode.unwrap())]
    } else {
        seq![]
    };
    shift_down + group_down + seq![(press, keycode)] + group_up + shift_up
}

/// A release sends the key alone. A press sends the key once, after every
/// modifier press and before every modifier release: the shift key, when
/// the shift state asks for shift and there is one, and the group key, when
/// it asks for the group and there is one, are pressed before the key and
/// released after it, and no other key is sent.
pub proof fn lemma_mapped_key_order(
    press: bool,
    keycode: u8,
    shift_state: u16,
    shift_keycode: Option<u8>,
    group_keycode: Option<u8>,
    group_mask: u16,
)
    ensures
        ({
            let ev = mapped_key_events(press, keycode, shift_state, shift_keycode, group_keycode, group_mask);
            &&& !press ==> ev == seq![(false, keycode)]
            &&& press ==> exists|k: int|
                {
                    &&& 0 <= k < ev.len()
                    &&& #[trigger] ev[k] == (true, keycode)
                    &&& forall|i: int| 0 <= i < k ==> (#[trigger] ev[i]).0
                    &&& forall|i: int| k < i < ev.len() ==> !(#[trigger] ev[i]).0
                    &&& forall|i: int|
                        0 <= i < ev.len() && i != k ==> shift_keycode == Some((#[trigger] ev[i]).1)
                            || group_keycode == Some(ev[i].1)
                    &&& (shift_state & 1 != 0 && shift_keycode is Some) ==> ev.contains(
                        (true, shift_keycode.unwrap()),
                    ) && ev.contains((false, shift_keycode.unwrap()))
                    &&& (shift_state & group_mask != 0 && group_keycode is Some) ==> ev.contains(
                        (true, group_keycode.unwrap()),
                    ) && ev.contains((false, group_keycode.unwrap()))
                }
        }),
{
    let ev = mapped_key_events(press, keycode, shift_state, shift_keycode, group_keycode, group_mask);
    let want_shift = press && shift_state & SHIFT_MASK != 0 && shift_keycode is Some;
    let want_group = press && shift_state & group_mask != 0 && group_keycode is Some;
    let shift_down = if want_shift {
        seq![(true, shift_keycode.unwrap())]
    } else {
        seq![]
    };
    let group_down = if want_group {
        seq![(true, group_keycode.unwrap())]
    } else {
        seq![]
    };
    let group_up = if want_group {
        seq![(false, group_keycode.unwrap())]
    } else {
        seq![]
    };
    let shift_up = if want_shift {
        seq![(false, shift_keycode.unwrap())]
    } else {
        seq![]
    };
    let downs = shift_down + group_down;
    let ups = group_up + shift_up;
    assert(ev =~= downs + seq![(press, keycode)] + ups);
    if !press {
        assert(ev =~= seq![(false, keycode)]);
    } else {
        let k = downs.len() as int;
        assert(ev[k] == (true, keycode));
        assert forall|i: int| 0 <= i < k implies (#[trigger] ev[i]).0 by {
            assert(ev[i] == downs[i]);
        }
        assert forall|i: int| k < i < ev.len() implies !(#[trigger] ev[i]).0 by {
            assert(ev[i] == ups[i - k - 1]);
        }
        assert forall|i: int|
            0 <= i < ev.len() && i != k implies shift_keycode == Some((#[trigger] ev[i]).1)
                || group_keycode == Some(ev[i].1) by {
            if i < k {
                assert(ev[i] == downs[i]);
            } else {
                assert(ev[i] == ups[i - k - 1]);
            }
        }
        if shift_state & 1 != 0 && shift_keycode is Some {
            assert(ev[0] == (true, shift_keycode.unwrap()));
            assert(ev[ev.len() - 1] == (false, shift_keycode.unwrap()));
        }
        if shift_state & group_mask != 0 && group_keycode is Some {
            assert(ev[downs.len() - 1] == (true, group_keycode.unwrap()));
            assert(ev[k + 1] == (false, group_keycode.unwrap()));
        }
    }
}

/// The key events, `(press, keycode)` in order, that set a mapped key's state
/// by holding the required shift and group modifiers around it.
pub fn mapped_key_plan(
    press: bool,
    keycode: u8,
    shift_state: u16,
    shift_keycode: Option<u8>,
    group_keycode: Option<u8>,
    group_mask: u16,
) -> (events: Vec<(bool, u8)>)
    ensures
        events@ == mapped_key_events(
            press,
            keycode,
            shift_state,
            shift_keycode,
            group_keycode,
            group_mask,
        ),
{
    let want_shift = shift_state & SHIFT_MASK != 0;
    let want_group = shift_state & group_mask != 0;
    let mut events: Vec<(bool, u8)> = Vec::new();
    if press {
        if want_shift {
            if let Some(kc) = shift_keycode {
                events.push((true, kc));
            }
        }
        if want_group {
            if let Some(kc) = group_keycode {
                events.push((true, kc));
            }
        }
    }
    events.push((press, keycode));
    if press {
        if want_group {
            if let Some(kc) = group_keycode {
                events.push((false, kc));
            }
        }
        if want_shift {
            if let Some(kc) = shift_keycode {
                events.push((false, kc));
            }
        }
    }
    assert(events@ =~= mapped_key_events(
        press,
        keycode,
        shift_state,
        shift_keycode,
        group_keycode,
        group_mask,
    ));
    events
}

/// What to grab while suppressing events.
#[derive(Clone, Copy, Debug, PartialEq, Eq, Structural)]
pub enum Grab {
    /// Nothing is grabbed.
    Nothing,
    /// The keyboard is grabbed.
    Keyboard,
    /// The pointer is grabbed.
    Pointer,
}

/// A parsed device event extracted from the RECORD data stream.
#[derive(Clone, Copy, Debug, PartialEq, Eq, Structural)]
pub struct RecordedEvent {
    /// The event type (`KEY_PRESS`, `BUTTON_PRESS`, `MOTION_NOTIFY`, ...).
    pub type_: u8,
    /// The keycode or button.
    pub detail: u8,
    /// The pointer position on the root window.
    pub root_x: i16,
    /// The pointer position on the root window.
    pub root_y: i16,
    /// The modifier state.
    pub state: u16,
    /// Whether the event was injected (came from a `SendEvent`).
    pub injected: bool,
}

/// A 16 bit value from two bytes in the given byte order.
pub open spec fn word(b0: u8, b1: u8, little_endian: bool) -> u16 {
    if little_endian {
        (b0 + b1 * 256) as u16
    } else {
        (b1 + b0 * 256) as u16
    }
}

/// The event of the 32 byte block of `data` at `offset`.
pub open spec fn event_at(data: Seq<u8>, offset: int, little_endian: bool) -> RecordedEvent {
    RecordedEvent {
        type_: data[offset] & 0x7F,
        detail: data[offset + 1],
        root_x: word(data[offset + 20], data[offset + 21], little_endian) as i16,
        root_y: word(data[offset + 22], data[offset + 23], little_endian) as i16,
        state: word(data[offset + 28], data[offset + 29], little_endian),
        injected: data[offset] & 0x80 != 0,
    }
}

/// Whether an event type is an input device event.
pub open spec fn is_device_event(type_: u8) -> bool {
    KEY_PRESS <= type_ <= MOTION_NOTIFY
}

/// The device events among the first `n` 32 byte blocks of `data`.
pub open spec fn device_events(data: Seq<u8>, n: int, little_endian: bool) -> Seq<RecordedEvent>
    decreases n,
{
    if n <= 0 {
        seq![]
    } else {
        let before = device_events(data, n - 1, little_endian);
        let e = event_at(data, 32 * (n - 1), little_endian);
        if is_device_event(e.type_) {
            before.push(e)
        } else {
            before
        }
    }
}

/// The two byte orders read the same bytes swapped; in little endian order
/// the first byte is the low one.
pub proof fn lemma_word_orders(b0: u8, b1: u8)
    ensures
        word(b0, b1, true) == word(b1, b0, false),
        word(b0, b1, true) == b0 as int + 256 * (b1 as int),
        word(b0, 0, true) == b0,
        word(0, b0, false) == b0,
{
}

/// The parsed events are the device events (key and button presses and
/// releases, and motion) of the blocks, in order: each is the event of a
/// block, a later event of a later block, and no device event is left out.
pub proof fn lemma_device_events(data: Seq<u8>, n: int, little_endian: bool)
    ensures
        ({
            let ev = device_events(data, n, little_endian);
            &&& ev.len() <= (if n < 0 { 0 } else { n })
            &&& forall|i: int| 0 <= i < ev.len() ==> 2 <= (#[trigger] ev[i]).type_ <= 6
            &&& forall|i: int|
                #![trigger ev[i]]
                0 <= i < ev.len() ==> exists|b: int|
                    0 <= b < n && #[trigger] event_at(data, 32 * b, little_endian) == ev[i]
        }),
        forall|b: int|
            0 <= b < n && 2 <= (#[trigger] event_at(data, 32 * b, little_endian)).type_ <= 6
                ==> device_events(data, n, little_endian).contains(event_at(data, 32 * b, little_endian)),
    decreases n,
{
    if n > 0 {
        lemma_device_events(data, n - 1, little_endian);
        let before = device_events(data, n - 1, little_endian);
        let ev = device_events(data, n, little_endian);
        let e = event_at(data, 32 * (n - 1), little_endian);
        assert forall|i: int| #![trigger ev[i]] 0 <= i < ev.len() implies exists|b: int|
            0 <= b < n && #[trigger] event_at(data, 32 * b, little_endian) == ev[i] by {
            if i < before.len() {
                assert(ev[i] == before[i]);
                let b = choose|b: int| 0 <= b < n - 1 && #[trigger] event_at(data, 32 * b, little_endian) == before[i];
            } else {
                assert(ev[i] == e);
                assert(event_at(data, 32 * (n - 1), little_endian) == ev[i]);
            }
        }
        assert forall|i: int| 0 <= i < ev.len() implies 2 <= (#[trigger] ev[i]).type_ <= 6 by {
            if i < before.len() {
                assert(ev[i] == before[i]);
            }
        }
        assert forall|b: int|
            0 <= b < n && 2 <= (#[trigger] event_at(data, 32 * b, little_endian)).type_ <= 6
                implies ev.contains(event_at(data, 32 * b, little_endian)) by {
            if b < n - 1 {
                assert(before.contains(event_at(data, 32 * b, little_endian)));
                let j = choose|j: int| 0 <= j < before.len() && before[j] == event_at(data, 32 * b, little_endian);
                assert(ev[j] == before[j]);
            } else {
                assert(ev[before.len() as int] == e);
            }
        }
    }
}

fn read_word(b0: u8, b1: u8, little_endian: bool) -> (w: u16)
    ensures
        w == word(b0, b1, little_endian),
{
    if little_endian {
        b0 as u16 + (b1 as u16) * 256
    } else {
        b1 as u16 + (b0 as u16) * 256
    }
}

/// Parses the device events out of recorded protocol data, read as 32 byte
/// blocks in the given byte order; a trailing partial block is ignored.
pub fn parse_events_in(data: &[u8], little_endian: bool) -> (events: Vec<RecordedEvent>)
    ensures
        events@ == device_events(data@, (data@.len() / 32) as int, little_endian),
{
    let mut events: Vec<RecordedEvent> = Vec::new();
    let len = data.len();
    let blocks = len / 32;
    let mut k: usize = 0;
    while k < blocks
        invariant
            len == data@.len(),
            k <= blocks,
            blocks == data@.len() / 32,
            events@ == device_events(data@, k as int, little_endian),
        decreases blocks - k,
    {
        assert(32 * k + 32 <= data@.len()) by (nonlinear_arith)
            requires
                k < blocks,
                blocks == data@.len() / 32,
        ;
        let offset = 32 * k;
        let raw_type = data[offset];
        let type_ = raw_type & 0x7F;
        if KEY_PRESS <= type_ && type_ <= MOTION_NOTIFY {
            events.push(
                RecordedEvent {
                    type_,
                    detail: data[offset + 1],
                    root_x: read_word(data[offset + 20], data[offset + 21], little_endian) as i16,
                    root_y: read_word(data[offset + 22], data[offset + 23], little_endian) as i16,
                    state: read_word(data[offset + 28], data[offset + 29], little_endian),
                    injected: raw_type & 0x80 != 0,
                },
            );
        }
        k = k + 1;
    }
    events
}

/// `u16::from_ne_bytes([1, 0])`: the bytes `1, 0` read in the byte order of
/// this machine. Claimed: the value is one of the two byte orders' readings,
/// `1` or `256`; which one depends on the machine.
#[verifier::external_body]
fn native_word_of_one() -> (w: u16)
    ensures
        w == 1 || w == 256,
{
    u16::from_ne_bytes([1, 0])
}

/// Whether this machine stores numbers least significant byte first.
fn native_little_endian() -> bool {
    native_word_of_one() == 1
}

/// Parses the device events out of recorded protocol data, in the byte order
/// of this machine.
pub fn parse_events(data: &[u8]) -> (events: Vec<RecordedEvent>)
    ensures
        events@ == device_events(data@, (data@.len() / 32) as int, true) || events@ == device_events(
            data@,
            (data@.len() / 32) as int,
            false,
        ),
{
    parse_events_in(data, native_little_endian())
}

/// The grab that suppresses keyboard events.
pub fn keyboard_grab(suppress: bool) -> (grab: Grab)
    ensures
        grab == (if suppress {
            Grab::Keyboard
        } else {
            Grab::Nothing
        }),
{
    if suppress {
        Grab::Keyboard
    } else {
        Grab::Nothing
    }
}

/// The grab that suppresses pointer events.
pub fn pointer_grab(suppress: bool) -> (grab: Grab)
    ensures
        grab == (if suppress {
            Grab::Pointer
        } else {
            Grab::Nothing
        }),
{
    if suppress {
        Grab::Pointer
    } else {
        Grab::Nothing
    }
}

/// The index of the first row of `raw[from..]` that holds no symbol at all.
pub open spec fn first_free_row(raw: Seq<Seq<u32>>, from: int) -> Option<int>
    decreases raw.len() - from,
{
    if from < 0 || from >= raw.len() {
        None
    } else if forall|k: int| 0 <= k < raw[from].len() ==> #[trigger] raw[from][k] == NO_SYMBOL {
        Some(from)
    } else {
        first_free_row(raw, from + 1)
    }
}

/// The message when no keycode is free to borrow.
pub open spec fn no_free_keycode_message() -> Seq<char> {
    "no free keycode to borrow"@
}

/// Finds a keycode whose mapping is entirely empty, to borrow for a keysym
/// that is not on the current layout: the first such row of the raw
/// mapping.
pub fn free_keycode(raw: &Vec<Vec<u32>>, min_keycode: u8) -> (keycode: Result<u8, Error>)
    requires
        min_keycode + raw@.len() <= 256,
    ensures
        first_free_row(raw.deep_view(), 0) matches Some(i) ==> keycode == Ok::<u8, Error>(
            (min_keycode + i) as u8,
        ),
        first_free_row(raw.deep_view(), 0) is None ==> (keycode matches Err(Error::Backend(m))
            && m@ == no_free_keycode_message()),
{
    let mut i: usize = 0;
    while i < raw.len()
        invariant
            i <= raw@.len(),
            min_keycode + raw@.len() <= 256,
            raw.deep_view().len() == raw@.len(),
            first_free_row(raw.deep_view(), 0) == first_free_row(raw.deep_view(), i as int),
        decreases raw@.len() - i,
    {
        let row = &raw[i];
        assert(raw.deep_view()[i as int] == row@);
        let mut j: usize = 0;
        let mut empty = true;
        while j < row.len()
            invariant
                j <= row@.len(),
                empty == forall|k: int| 0 <= k < j ==> #[trigger] row@[k] == NO_SYMBOL,
            decreases row@.len() - j,
        {
            if row[j] != NO_SYMBOL {
                empty = false;
            }
            j = j + 1;
        }
        if empty {
            return Ok(min_keycode + i as u8);
        }
        i = i + 1;
    }
    Err(Error::Backend(owned("no free keycode to borrow")))
}

} // verus!
