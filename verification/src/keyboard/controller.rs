//! The keyboard controller: sends virtual keyboard events through a backend,
//! keeping track of the pressed modifiers, *caps lock* and a pending dead key.

use vstd::prelude::*;

use crate::keyboard::canonical::{backend_keycode, KeyboardBackend};
use crate::keyboard::input::Pressable;
use crate::keyboard::key::{key_index, key_normal_modifier, lemma_index_of_key, Key};
use crate::keyboard::keycode::{
    contains_code, find_code, insert_code, keycode_eq, keycode_join, keycode_of_char,
    join_defined, keycode_same, remove_code, remove_code_from, KeyCode,
};
use crate::util::text::{char_uppercase, chars_of, uppercase_first};
use crate::util::Error;

verus! {

/// A key event handed to the backend: the generic modifiers pressed at the
/// time, the key code, whether it is a press, and what the backend replied.
pub struct Sent {
    pub modifiers: Seq<Key>,
    pub code: KeyCode,
    pub is_press: bool,
    pub reply: Result<(), Error>,
}

/// What the controller remembers between calls.
pub struct KeyboardState {
    /// The pressed modifier key codes.
    pub modifiers: Seq<KeyCode>,
    /// Whether *caps lock* is toggled on.
    pub caps_lock: bool,
    /// The dead key waiting to be joined with the next key, if any.
    pub dead_key: Option<KeyCode>,
}

/// The state of a new controller.
pub open spec fn initial_state() -> KeyboardState {
    KeyboardState { modifiers: Seq::empty(), caps_lock: false, dead_key: None }
}

/// The modifier keys, each followed by the keys of its group, in the order
/// in which they are registered.
pub open spec fn modifier_members() -> Seq<Key> {
    seq![
        Key::AltGr,
        Key::Alt,
        Key::AltL,
        Key::AltR,
        Key::Cmd,
        Key::CmdL,
        Key::CmdR,
        Key::Ctrl,
        Key::CtrlL,
        Key::CtrlR,
        Key::Shift,
        Key::ShiftL,
        Key::ShiftR,
    ]
}

/// The registered modifiers: the key code of each modifier key, with the
/// generic modifier it stands for, in registration order.
pub open spec fn modifier_entries(table: Seq<KeyCode>) -> Seq<(KeyCode, Key)> {
    modifier_members().map_values(
        |m: Key| (table[key_index(m)], key_normal_modifier(m).unwrap()),
    )
}

/// The generic modifier registered last for a key code the same as `code`:
/// a later registration of the same key code replaces an earlier one.
pub open spec fn last_match(entries: Seq<(KeyCode, Key)>, code: KeyCode) -> Option<Key>
    decreases entries.len(),
{
    if entries.len() == 0 {
        None
    } else if keycode_same(entries.last().0, code) {
        Some(entries.last().1)
    } else {
        last_match(entries.drop_last(), code)
    }
}

/// The generic modifier that a key code stands for, if it is a modifier.
pub open spec fn modifier_of(table: Seq<KeyCode>, code: KeyCode) -> Option<Key> {
    last_match(modifier_entries(table), code)
}

/// The generic modifiers of the pressed modifier key codes, each once, in
/// the order in which they were first pressed.
pub open spec fn pressed_keys(table: Seq<KeyCode>, mods: Seq<KeyCode>) -> Seq<Key>
    decreases mods.len(),
{
    if mods.len() == 0 {
        Seq::empty()
    } else {
        let keys = pressed_keys(table, mods.drop_last());
        match modifier_of(table, mods.last()) {
            Some(k) => if keys.contains(k) {
                keys
            } else {
                keys.push(k)
            },
            None => keys,
        }
    }
}

/// Whether *shift* is in effect: a *shift* key is pressed or *caps lock* is
/// on.
pub open spec fn shift_in_effect(table: Seq<KeyCode>, st: KeyboardState) -> bool {
    st.caps_lock || pressed_keys(table, st.modifiers).contains(Key::Shift)
}

/// The key code that pressing or releasing `p` sends: a well-known key's
/// code from the table, a character's key code, or a given key code whose
/// character is put in upper case while *shift* is in effect.
pub open spec fn resolve(table: Seq<KeyCode>, st: KeyboardState, p: Pressable) -> KeyCode {
    match p {
        Pressable::Key(k) => table[key_index(k)],
        Pressable::Char(c) => keycode_of_char(c),
        Pressable::Code(code) => match code.char {
            Some(ch) => if shift_in_effect(table, st) {
                KeyCode { char: Some(uppercase_first(ch)), ..code }
            } else {
                code
            },
            None => code,
        },
    }
}

/// The pressed modifier key codes after `code` is pressed or released: only
/// modifiers are tracked.
pub open spec fn update_modifiers(
    table: Seq<KeyCode>,
    mods: Seq<KeyCode>,
    code: KeyCode,
    is_press: bool,
) -> Seq<KeyCode> {
    if modifier_of(table, code) is Some {
        if is_press {
            insert_code(mods, code)
        } else {
            remove_code(mods, code)
        }
    } else {
        mods
    }
}

/// Whether no two key codes of `s` are the same set member.
pub open spec fn codes_distinct(s: Seq<KeyCode>) -> bool {
    forall|i: int, j: int|
        0 <= i < s.len() && 0 <= j < s.len() && i != j ==> !keycode_same(
            #[trigger] s[i],
            #[trigger] s[j],
        )
}

/// Whether pressing `p` is defined: a pending dead key without its character
/// must not be joined with a key that asks for its standalone form.
pub open spec fn press_allowed(table: Seq<KeyCode>, st: KeyboardState, p: Pressable) -> bool {
    st.dead_key matches Some(d) ==> join_defined(d, resolve(table, st, p))
}

/// Whether `table` holds the key code of each well-known key for `backend`.
pub open spec fn table_of(backend: KeyboardBackend, table: Seq<KeyCode>) -> bool {
    &&& table.len() == 60
    &&& forall|k: Key| backend_keycode(backend, k, #[trigger] table[key_index(k)])
}

/// The index of the first error among the replies to the calls `i..n`, or
/// `n` when there is none.
pub open spec fn first_error(replies: Seq<Result<(), Error>>, i: int, n: int) -> int
    decreases n - i,
{
    if i >= n {
        n
    } else if replies[i] is Err {
        i
    } else {
        first_error(replies, i + 1, n)
    }
}

/// How many calls of a plan of `n` calls are made when the run stops after
/// the first call answered with an error.
pub open spec fn calls_made(replies: Seq<Result<(), Error>>, n: int) -> int {
    let e = first_error(replies, 0, n);
    if e < n {
        e + 1
    } else {
        n
    }
}

/// The reply of such a run: the first error, or success.
pub open spec fn run_reply(replies: Seq<Result<(), Error>>, n: int) -> Result<(), Error> {
    let e = first_error(replies, 0, n);
    if e < n {
        replies[e]
    } else {
        Ok(())
    }
}

/// The events of `calls`, made with the generic modifiers `keys` pressed,
/// each answered by the reply of the same index.
pub open spec fn events(
    keys: Seq<Key>,
    calls: Seq<(KeyCode, bool)>,
    replies: Seq<Result<(), Error>>,
) -> Seq<Sent> {
    Seq::new(
        calls.len(),
        |i: int| Sent { modifiers: keys, code: calls[i].0, is_press: calls[i].1, reply: replies[i] },
    )
}

/// The replies to the events that `log1` holds beyond `log0`.
pub open spec fn new_replies(log0: Seq<Sent>, log1: Seq<Sent>) -> Seq<Result<(), Error>> {
    Seq::new((log1.len() - log0.len()) as nat, |i: int| log1[log0.len() + i].reply)
}

/// Pressing and releasing a pending dead key on its own.
pub open spec fn dead_key_calls(dead_key: Option<KeyCode>) -> Seq<(KeyCode, bool)> {
    match dead_key {
        Some(d) => seq![(d, true), (d, false)],
        None => Seq::empty(),
    }
}

/// Sending `calls` one after another with `keys` pressed, stopping after
/// the first call answered with an error: the events sent and the reply.
pub open spec fn run_trace(
    keys: Seq<Key>,
    calls: Seq<(KeyCode, bool)>,
    replies: Seq<Result<(), Error>>,
) -> (Seq<Sent>, Result<(), Error>) {
    (
        events(keys, calls.take(calls_made(replies, calls.len() as int)), replies),
        run_reply(replies, calls.len() as int),
    )
}

/// The state once the key code `r` is pressed and before anything is sent:
/// the modifiers are updated, and *caps lock* toggles when `r` is its key.
pub open spec fn pressed_state(table: Seq<KeyCode>, st: KeyboardState, r: KeyCode) -> KeyboardState {
    KeyboardState {
        modifiers: update_modifiers(table, st.modifiers, r, true),
        caps_lock: if keycode_eq(r, table[key_index(Key::CapsLock)]) {
            !st.caps_lock
        } else {
            st.caps_lock
        },
        dead_key: st.dead_key,
    }
}

/// The key code that a pending dead key and the key code `r` give together,
/// when they can be joined.
pub open spec fn joined_with(dead_key: Option<KeyCode>, r: KeyCode) -> Option<KeyCode> {
    match dead_key {
        Some(d) => keycode_join(d, r),
        None => None,
    }
}

/// Sending the key code `code` that pressing `r` came to, with the state
/// `pressed`: the key is pressed, and when the backend refuses a key joined
/// from a dead key as invalid, the pending dead key and then `r` itself are
/// sent instead. A success clears the pending dead key.
pub open spec fn key_trace(
    table: Seq<KeyCode>,
    pressed: KeyboardState,
    code: KeyCode,
    r: KeyCode,
    replies: Seq<Result<(), Error>>,
) -> (Seq<Sent>, Result<(), Error>, KeyboardState) {
    let keys = pressed_keys(table, pressed.modifiers);
    let b = run_trace(keys, seq![(code, true)], replies);
    match b.1 {
        Ok(_) => (b.0, Ok(()), KeyboardState { dead_key: None, ..pressed }),
        Err(e) => if e is InvalidKey && !keycode_eq(code, r) {
            let c = run_trace(keys, dead_key_calls(pressed.dead_key).push((r, true)), replies.skip(1));
            (
                b.0 + c.0,
                c.1,
                if c.1 is Ok {
                    KeyboardState { dead_key: None, ..pressed }
                } else {
                    pressed
                },
            )
        } else {
            (b.0, Err(e), pressed)
        },
    }
}

/// What pressing the resolved key code `r` does once the state is
/// `pressed`: a pending dead key is joined with it; when they cannot be
/// joined, the dead key is sent on its own first. A dead key is then kept
/// pending and nothing more is sent; any other key is sent as `key_trace`
/// says. The first failing event ends the press with its error.
pub open spec fn send_trace(
    table: Seq<KeyCode>,
    pressed: KeyboardState,
    r: KeyCode,
    replies: Seq<Result<(), Error>>,
) -> (Seq<Sent>, Result<(), Error>, KeyboardState) {
    let keys = pressed_keys(table, pressed.modifiers);
    let joined = joined_with(pressed.dead_key, r);
    let flush = if joined is None {
        dead_key_calls(pressed.dead_key)
    } else {
        Seq::empty()
    };
    let code = match joined {
        Some(j) => j,
        None => r,
    };
    let a = run_trace(keys, flush, replies);
    if a.1 is Err {
        (a.0, a.1, pressed)
    } else if code.is_dead {
        (a.0, Ok(()), KeyboardState { dead_key: Some(code), ..pressed })
    } else {
        let b = key_trace(table, pressed, code, r, replies.skip(a.0.len() as int));
        (a.0 + b.0, b.1, b.2)
    }
}

/// What pressing `p` does, given the replies of the backend: the events
/// sent, the result and the new state. The key is resolved, the modifiers
/// and *caps lock* are updated, and the key is sent as `send_trace` says.
pub open spec fn press_trace(
    table: Seq<KeyCode>,
    st: KeyboardState,
    p: Pressable,
    replies: Seq<Result<(), Error>>,
) -> (Seq<Sent>, Result<(), Error>, KeyboardState) {
    let r = resolve(table, st, p);
    send_trace(table, pressed_state(table, st, r), r, replies)
}

/// What releasing `p` does: the modifiers are updated, and the key is
/// released unless it is a dead key.
pub open spec fn release_trace(
    table: Seq<KeyCode>,
    st: KeyboardState,
    p: Pressable,
    replies: Seq<Result<(), Error>>,
) -> (Seq<Sent>, Result<(), Error>, KeyboardState) {
    let r = resolve(table, st, p);
    let released = KeyboardState {
        modifiers: update_modifiers(table, st.modifiers, r, false),
        ..st
    };
    if r.is_dead {
        (Seq::empty(), Ok(()), released)
    } else {
        (events(pressed_keys(table, released.modifiers), seq![(r, false)], replies), replies[0], released)
    }
}

/// What pressing and then releasing `p` does; a failed press ends it.
pub open spec fn tap_trace(
    table: Seq<KeyCode>,
    st: KeyboardState,
    p: Pressable,
    replies: Seq<Result<(), Error>>,
) -> (Seq<Sent>, Result<(), Error>, KeyboardState) {
    let a = press_trace(table, st, p, replies);
    if a.1 is Err {
        a
    } else {
        let b = release_trace(table, a.2, p, replies.skip(a.0.len() as int));
        (a.0 + b.0, b.1, b.2)
    }
}

/// One thing done with a key: pressing it, releasing it, or both in turn.
#[derive(Clone, Copy, Debug)]
pub enum Action {
    Press(Pressable),
    Release(Pressable),
    Tap(Pressable),
}

/// What an action does.
pub open spec fn action_trace(
    table: Seq<KeyCode>,
    st: KeyboardState,
    a: Action,
    replies: Seq<Result<(), Error>>,
) -> (Seq<Sent>, Result<(), Error>, KeyboardState) {
    match a {
        Action::Press(p) => press_trace(table, st, p, replies),
        Action::Release(p) => release_trace(table, st, p, replies),
        Action::Tap(p) => tap_trace(table, st, p, replies),
    }
}

/// What the first `n` of `actions` do, one after another, stopping at the
/// first that fails: the events, the result, the state, and how many
/// actions succeeded.
pub open spec fn actions_trace(
    table: Seq<KeyCode>,
    st: KeyboardState,
    actions: Seq<Action>,
    n: nat,
    replies: Seq<Result<(), Error>>,
) -> (Seq<Sent>, Result<(), Error>, KeyboardState, nat)
    decreases n,
{
    if n == 0 {
        (Seq::empty(), Ok(()), st, 0)
    } else {
        let prev = actions_trace(table, st, actions, (n - 1) as nat, replies);
        if prev.1 is Err {
            prev
        } else {
            let t = action_trace(table, prev.2, actions[n - 1], replies.skip(prev.0.len() as int));
            (prev.0 + t.0, t.1, t.2, if t.1 is Ok {
                prev.3 + 1
            } else {
                prev.3
            })
        }
    }
}

/// What typing a character presses: *enter* for a line break, *tab* for a
/// tab, the character itself otherwise.
pub open spec fn typed_pressable(c: char) -> Pressable {
    if c == '\n' || c == '\r' {
        Pressable::Key(Key::Enter)
    } else if c == '\t' {
        Pressable::Key(Key::Tab)
    } else {
        Pressable::Char(c)
    }
}

/// The taps that type `chars`.
pub open spec fn typing_actions(chars: Seq<char>) -> Seq<Action> {
    chars.map_values(|c: char| Action::Tap(typed_pressable(c)))
}

/// What typing `chars` does: each character is tapped in turn; the first
/// that fails ends the typing with the error that names it and its index.
pub open spec fn type_trace(
    table: Seq<KeyCode>,
    st: KeyboardState,
    chars: Seq<char>,
    replies: Seq<Result<(), Error>>,
) -> (Seq<Sent>, Result<(), Error>, KeyboardState) {
    let t = actions_trace(table, st, typing_actions(chars), chars.len(), replies);
    (
        t.0,
        if t.1 is Ok {
            Ok(())
        } else {
            Err(Error::InvalidCharacter(t.3 as usize, chars[t.3 as int]))
        },
        t.2,
    )
}

/// The presses of `keys`, in order.
pub open spec fn press_actions(keys: Seq<Pressable>) -> Seq<Action> {
    keys.map_values(|p: Pressable| Action::Press(p))
}

/// The releases of `keys`, in reverse order.
pub open spec fn release_actions(keys: Seq<Pressable>) -> Seq<Action> {
    keys.reverse().map_values(|p: Pressable| Action::Release(p))
}

/// What holding `keys` around a call does: the keys are pressed in order,
/// and, once all are pressed, released in reverse order; the first failure
/// ends it.
pub open spec fn pressed_trace(
    table: Seq<KeyCode>,
    st: KeyboardState,
    keys: Seq<Pressable>,
    replies: Seq<Result<(), Error>>,
) -> (Seq<Sent>, Result<(), Error>, KeyboardState) {
    let a = actions_trace(table, st, press_actions(keys), keys.len(), replies);
    if a.1 is Err {
        (a.0, a.1, a.2)
    } else {
        let b = actions_trace(
            table,
            a.2,
            release_actions(keys),
            keys.len(),
            replies.skip(a.0.len() as int),
        );
        (a.0 + b.0, b.1, b.2)
    }
}

/// Whether an action is defined in the state `st`: a press must be.
pub open spec fn action_allowed(table: Seq<KeyCode>, st: KeyboardState, a: Action) -> bool {
    match a {
        Action::Press(p) => press_allowed(table, st, p),
        Action::Release(_) => true,
        Action::Tap(p) => press_allowed(table, st, p),
    }
}

/// The state once pressing `p` has succeeded: the modifiers and *caps lock*
/// updated, and the key pending when it is a dead key that was not joined.
pub open spec fn press_success_state(table: Seq<KeyCode>, st: KeyboardState, p: Pressable) -> KeyboardState {
    let r = resolve(table, st, p);
    let code = match joined_with(st.dead_key, r) {
        Some(j) => j,
        None => r,
    };
    KeyboardState {
        dead_key: if code.is_dead {
            Some(code)
        } else {
            None
        },
        ..pressed_state(table, st, r)
    }
}

/// The state once `p` is released: the modifiers updated.
pub open spec fn release_state(table: Seq<KeyCode>, st: KeyboardState, p: Pressable) -> KeyboardState {
    KeyboardState {
        modifiers: update_modifiers(table, st.modifiers, resolve(table, st, p), false),
        ..st
    }
}

/// The state once an action has succeeded.
pub open spec fn action_success_state(table: Seq<KeyCode>, st: KeyboardState, a: Action) -> KeyboardState {
    match a {
        Action::Press(p) => press_success_state(table, st, p),
        Action::Release(p) => release_state(table, st, p),
        Action::Tap(p) => release_state(table, press_success_state(table, st, p), p),
    }
}

/// Whether the actions from `i` on are defined in turn, each in the state
/// the ones before it leave when they succeed.
pub open spec fn actions_allowed(table: Seq<KeyCode>, st: KeyboardState, actions: Seq<Action>, i: int) -> bool
    decreases actions.len() - i,
{
    if i < 0 || i >= actions.len() {
        true
    } else {
        action_allowed(table, st, actions[i]) && actions_allowed(
            table,
            action_success_state(table, st, actions[i]),
            actions,
            i + 1,
        )
    }
}

/// Whether a call went as `trace` prescribes: the log grew by its events,
/// the call returned its result and left its state.
pub open spec fn follows(
    trace: (Seq<Sent>, Result<(), Error>, KeyboardState),
    log0: Seq<Sent>,
    log1: Seq<Sent>,
    result: Result<(), Error>,
    st1: KeyboardState,
) -> bool {
    &&& log1 == log0 + trace.0
    &&& result == trace.1
    &&& st1 == trace.2
}

/// Adding a key code that is not yet held keeps the codes distinct.
proof fn lemma_insert_distinct(s: Seq<KeyCode>, k: KeyCode)
    requires
        codes_distinct(s),
    ensures
        codes_distinct(insert_code(s, k)),
{
    if !contains_code(s, k) {
        let t = s.push(k);
        assert forall|i: int, j: int|
            0 <= i < t.len() && 0 <= j < t.len() && i != j implies !keycode_same(
            #[trigger] t[i],
            #[trigger] t[j],
        ) by {
            if i == s.len() as int {
                assert(!keycode_same(s[j], k));
            } else if j == s.len() as int {
                assert(!keycode_same(s[i], k));
            }
        }
    }
}

/// Every key code that `remove_code` keeps comes from the given sequence.
proof fn lemma_remove_code_from(s: Seq<KeyCode>, k: KeyCode)
    ensures
        forall|i: int|
            0 <= i < remove_code(s, k).len() ==> exists|j: int|
                0 <= j < s.len() && #[trigger] remove_code(s, k)[i] == s[j],
        forall|i: int|
            0 <= i < remove_code(s, k).len() ==> !keycode_same(#[trigger] remove_code(s, k)[i], k),
    decreases s.len(),
{
    if s.len() > 0 {
        let init = s.drop_last();
        lemma_remove_code_from(init, k);
        let r = remove_code(init, k);
        assert forall|i: int| 0 <= i < remove_code(s, k).len() implies exists|j: int|
            0 <= j < s.len() && #[trigger] remove_code(s, k)[i] == s[j] by {
            if i < r.len() {
                let j = choose|j: int| 0 <= j < init.len() && r[i] == init[j];
                assert(s[j] == init[j]);
            } else {
                assert(remove_code(s, k)[i] == s[s.len() - 1]);
            }
        }
    }
}

/// Removing a key code keeps the codes distinct.
proof fn lemma_remove_distinct(s: Seq<KeyCode>, k: KeyCode)
    requires
        codes_distinct(s),
    ensures
        codes_distinct(remove_code(s, k)),
    decreases s.len(),
{
    if s.len() > 0 {
        let init = s.drop_last();
        assert(codes_distinct(init)) by {
            assert forall|i: int, j: int|
                0 <= i < init.len() && 0 <= j < init.len() && i != j implies !keycode_same(
                #[trigger] init[i],
                #[trigger] init[j],
            ) by {
                assert(init[i] == s[i] && init[j] == s[j]);
            }
        }
        lemma_remove_distinct(init, k);
        lemma_remove_code_from(init, k);
        let r = remove_code(init, k);
        if !keycode_same(s.last(), k) {
            let t = r.push(s.last());
            assert forall|i: int, j: int|
                0 <= i < t.len() && 0 <= j < t.len() && i != j implies !keycode_same(
                #[trigger] t[i],
                #[trigger] t[j],
            ) by {
                if i == r.len() as int {
                    let m = choose|m: int| 0 <= m < init.len() && r[j] == init[m];
                    assert(s[m] == init[m]);
                    assert(!keycode_same(s[m], s[s.len() - 1]));
                } else if j == r.len() as int {
                    let m = choose|m: int| 0 <= m < init.len() && r[i] == init[m];
                    assert(s[m] == init[m]);
                    assert(!keycode_same(s[m], s[s.len() - 1]));
                }
            }
        }
    }
}

/// `first_error` finds the first failing reply of the calls `i..n`.
proof fn lemma_first_error(r: Seq<Result<(), Error>>, i: int, n: int)
    requires
        i <= n,
    ensures
        i <= first_error(r, i, n) <= n,
        forall|j: int| i <= j < first_error(r, i, n) ==> (#[trigger] r[j]) is Ok,
        first_error(r, i, n) < n ==> r[first_error(r, i, n)] is Err,
    decreases n - i,
{
    if i < n && r[i] is Ok {
        lemma_first_error(r, i + 1, n);
    }
}

/// A failing reply at `e`, preceded by successful ones from `i`, is the
/// first error; so is `n` when all replies of the calls `i..n` succeed.
proof fn lemma_first_error_at(r: Seq<Result<(), Error>>, i: int, n: int, e: int)
    requires
        i <= e <= n,
        forall|j: int| i <= j < e ==> (#[trigger] r[j]) is Ok,
        e < n ==> r[e] is Err,
    ensures
        first_error(r, i, n) == e,
    decreases e - i,
{
    if i < e {
        lemma_first_error_at(r, i + 1, n, e);
    }
}

/// A run depends only on the replies to the calls it makes, one per event.
proof fn lemma_run_prefix(
    keys: Seq<Key>,
    calls: Seq<(KeyCode, bool)>,
    r1: Seq<Result<(), Error>>,
    r2: Seq<Result<(), Error>>,
)
    requires
        forall|j: int| 0 <= j < calls_made(r1, calls.len() as int) ==> r2[j] == r1[j],
    ensures
        run_trace(keys, calls, r2) == run_trace(keys, calls, r1),
        calls_made(r2, calls.len() as int) == calls_made(r1, calls.len() as int),
        run_trace(keys, calls, r1).0.len() == calls_made(r1, calls.len() as int),
        0 <= calls_made(r1, calls.len() as int) <= calls.len(),
{
    let n = calls.len() as int;
    lemma_first_error(r1, 0, n);
    let e = first_error(r1, 0, n);
    assert forall|j: int| 0 <= j < e implies (#[trigger] r2[j]) is Ok by {
        assert(r1[j] is Ok);
    }
    lemma_first_error_at(r2, 0, n, e);
    let m = calls_made(r1, n);
    assert(events(keys, calls.take(m), r2) =~= events(keys, calls.take(m), r1));
}

/// Sending a key depends only on the replies to its events.
proof fn lemma_key_trace_prefix(
    table: Seq<KeyCode>,
    pressed: KeyboardState,
    code: KeyCode,
    r: KeyCode,
    r1: Seq<Result<(), Error>>,
    r2: Seq<Result<(), Error>>,
)
    requires
        r1.len() >= key_trace(table, pressed, code, r, r1).0.len(),
        r2.len() >= key_trace(table, pressed, code, r, r1).0.len(),
        forall|j: int|
            0 <= j < key_trace(table, pressed, code, r, r1).0.len() ==> r2[j] == r1[j],
    ensures
        key_trace(table, pressed, code, r, r2) == key_trace(table, pressed, code, r, r1),
{
    let keys = pressed_keys(table, pressed.modifiers);
    let single = seq![(code, true)];
    lemma_run_prefix(keys, single, r1, r1);
    lemma_run_prefix(keys, single, r1, r2);
    let b = run_trace(keys, single, r1);
    if b.1 matches Err(e) && e is InvalidKey && !keycode_eq(code, r) {
        let retry = dead_key_calls(pressed.dead_key).push((r, true));
        lemma_first_error(r1, 0, 1);
        lemma_run_prefix(keys, retry, r1.skip(1), r1.skip(1));
        assert(key_trace(table, pressed, code, r, r1).0.len() == 1 + calls_made(
            r1.skip(1),
            retry.len() as int,
        ));
        lemma_run_prefix(keys, retry, r1.skip(1), r1.skip(1));
        assert forall|j: int| 0 <= j < calls_made(r1.skip(1), retry.len() as int) implies r2.skip(
            1,
        )[j] == r1.skip(1)[j] by {
            assert(r2[j + 1] == r1[j + 1]);
        }
        lemma_run_prefix(keys, retry, r1.skip(1), r2.skip(1));
    }
}

/// Sending a pressed key depends only on the replies to its events.
proof fn lemma_send_trace_prefix(
    table: Seq<KeyCode>,
    pressed: KeyboardState,
    r: KeyCode,
    r1: Seq<Result<(), Error>>,
    r2: Seq<Result<(), Error>>,
)
    requires
        r1.len() >= send_trace(table, pressed, r, r1).0.len(),
        r2.len() >= send_trace(table, pressed, r, r1).0.len(),
        forall|j: int| 0 <= j < send_trace(table, pressed, r, r1).0.len() ==> r2[j] == r1[j],
    ensures
        send_trace(table, pressed, r, r2) == send_trace(table, pressed, r, r1),
{
    let keys = pressed_keys(table, pressed.modifiers);
    let joined = joined_with(pressed.dead_key, r);
    let flush = if joined is None {
        dead_key_calls(pressed.dead_key)
    } else {
        Seq::empty()
    };
    let code = match joined {
        Some(j) => j,
        None => r,
    };
    lemma_run_prefix(keys, flush, r1, r1);
    lemma_run_prefix(keys, flush, r1, r2);
    let a = run_trace(keys, flush, r1);
    if a.1 is Ok && !code.is_dead {
        let k = a.0.len() as int;
        let b = key_trace(table, pressed, code, r, r1.skip(k));
        assert forall|j: int| 0 <= j < b.0.len() implies r2.skip(k)[j] == r1.skip(k)[j] by {
            assert(r2[j + k] == r1[j + k]);
        }
        lemma_key_trace_prefix(table, pressed, code, r, r1.skip(k), r2.skip(k));
    }
}

/// Pressing a key depends only on the replies to its events.
pub proof fn lemma_press_trace_prefix(
    table: Seq<KeyCode>,
    st: KeyboardState,
    p: Pressable,
    r1: Seq<Result<(), Error>>,
    r2: Seq<Result<(), Error>>,
)
    requires
        r1.len() >= press_trace(table, st, p, r1).0.len(),
        r2.len() >= press_trace(table, st, p, r1).0.len(),
        forall|j: int| 0 <= j < press_trace(table, st, p, r1).0.len() ==> r2[j] == r1[j],
    ensures
        press_trace(table, st, p, r2) == press_trace(table, st, p, r1),
{
    let r = resolve(table, st, p);
    lemma_send_trace_prefix(table, pressed_state(table, st, r), r, r1, r2);
}

/// Releasing a key depends only on the replies to its events.
pub proof fn lemma_release_trace_prefix(
    table: Seq<KeyCode>,
    st: KeyboardState,
    p: Pressable,
    r1: Seq<Result<(), Error>>,
    r2: Seq<Result<(), Error>>,
)
    requires
        r1.len() >= release_trace(table, st, p, r1).0.len(),
        r2.len() >= release_trace(table, st, p, r1).0.len(),
        forall|j: int| 0 <= j < release_trace(table, st, p, r1).0.len() ==> r2[j] == r1[j],
    ensures
        release_trace(table, st, p, r2) == release_trace(table, st, p, r1),
{
    let r = resolve(table, st, p);
    if !r.is_dead {
        let keys = pressed_keys(table, update_modifiers(table, st.modifiers, r, false));
        assert(events(keys, seq![(r, false)], r2) =~= events(keys, seq![(r, false)], r1));
    }
}

/// Tapping a key depends only on the replies to its events.
pub proof fn lemma_tap_trace_prefix(
    table: Seq<KeyCode>,
    st: KeyboardState,
    p: Pressable,
    r1: Seq<Result<(), Error>>,
    r2: Seq<Result<(), Error>>,
)
    requires
        r1.len() >= tap_trace(table, st, p, r1).0.len(),
        r2.len() >= tap_trace(table, st, p, r1).0.len(),
        forall|j: int| 0 <= j < tap_trace(table, st, p, r1).0.len() ==> r2[j] == r1[j],
    ensures
        tap_trace(table, st, p, r2) == tap_trace(table, st, p, r1),
{
    let a = press_trace(table, st, p, r1);
    lemma_press_trace_prefix(table, st, p, r1, r2);
    if a.1 is Ok {
        let k = a.0.len() as int;
        let b = release_trace(table, a.2, p, r1.skip(k));
        assert forall|j: int| 0 <= j < b.0.len() implies r2.skip(k)[j] == r1.skip(k)[j] by {
            assert(r2[j + k] == r1[j + k]);
        }
        lemma_release_trace_prefix(table, a.2, p, r1.skip(k), r2.skip(k));
    }
}

/// An action depends only on the replies to its events.
pub proof fn lemma_action_trace_prefix(
    table: Seq<KeyCode>,
    st: KeyboardState,
    a: Action,
    r1: Seq<Result<(), Error>>,
    r2: Seq<Result<(), Error>>,
)
    requires
        r1.len() >= action_trace(table, st, a, r1).0.len(),
        r2.len() >= action_trace(table, st, a, r1).0.len(),
        forall|j: int| 0 <= j < action_trace(table, st, a, r1).0.len() ==> r2[j] == r1[j],
    ensures
        action_trace(table, st, a, r2) == action_trace(table, st, a, r1),
{
    match a {
        Action::Press(p) => lemma_press_trace_prefix(table, st, p, r1, r2),
        Action::Release(p) => lemma_release_trace_prefix(table, st, p, r1, r2),
        Action::Tap(p) => lemma_tap_trace_prefix(table, st, p, r1, r2),
    }
}

/// A run of actions depends only on the replies to its events.
pub proof fn lemma_actions_trace_prefix(
    table: Seq<KeyCode>,
    st: KeyboardState,
    actions: Seq<Action>,
    n: nat,
    r1: Seq<Result<(), Error>>,
    r2: Seq<Result<(), Error>>,
)
    requires
        r1.len() >= actions_trace(table, st, actions, n, r1).0.len(),
        r2.len() >= actions_trace(table, st, actions, n, r1).0.len(),
        forall|j: int|
            0 <= j < actions_trace(table, st, actions, n, r1).0.len() ==> r2[j] == r1[j],
    ensures
        actions_trace(table, st, actions, n, r2) == actions_trace(table, st, actions, n, r1),
    decreases n,
{
    if n > 0 {
        let prev = actions_trace(table, st, actions, (n - 1) as nat, r1);
        lemma_actions_trace_prefix(table, st, actions, (n - 1) as nat, r1, r2);
        if prev.1 is Ok {
            let k = prev.0.len() as int;
            let t = action_trace(table, prev.2, actions[n - 1], r1.skip(k));
            assert forall|j: int| 0 <= j < t.0.len() implies r2.skip(k)[j] == r1.skip(k)[j] by {
                assert(r2[j + k] == r1[j + k]);
            }
            lemma_action_trace_prefix(table, prev.2, actions[n - 1], r1.skip(k), r2.skip(k));
        }
    }
}

/// Once an action fails, later actions change nothing.
proof fn lemma_actions_stop(
    table: Seq<KeyCode>,
    st: KeyboardState,
    actions: Seq<Action>,
    n: nat,
    replies: Seq<Result<(), Error>>,
)
    requires
        actions_trace(table, st, actions, n, replies).1 is Err,
    ensures
        forall|m: nat|
            n <= m <= actions.len() ==> #[trigger] actions_trace(table, st, actions, m, replies)
                == actions_trace(table, st, actions, n, replies),
{
    assert forall|m: nat| n <= m <= actions.len() implies #[trigger] actions_trace(
        table,
        st,
        actions,
        m,
        replies,
    ) == actions_trace(table, st, actions, n, replies) by {
        lemma_actions_stop_at(table, st, actions, n, m, replies);
    }
}

proof fn lemma_actions_stop_at(
    table: Seq<KeyCode>,
    st: KeyboardState,
    actions: Seq<Action>,
    n: nat,
    m: nat,
    replies: Seq<Result<(), Error>>,
)
    requires
        actions_trace(table, st, actions, n, replies).1 is Err,
        n <= m,
    ensures
        actions_trace(table, st, actions, m, replies) == actions_trace(table, st, actions, n, replies),
    decreases m - n,
{
    if n < m {
        lemma_actions_stop_at(table, st, actions, n, (m - 1) as nat, replies);
    }
}

/// The number of actions that succeed is at most the number performed, and
/// short of it exactly when one failed.
proof fn lemma_actions_done(
    table: Seq<KeyCode>,
    st: KeyboardState,
    actions: Seq<Action>,
    n: nat,
    replies: Seq<Result<(), Error>>,
)
    ensures
        actions_trace(table, st, actions, n, replies).3 <= n,
        actions_trace(table, st, actions, n, replies).1 is Err ==> actions_trace(
            table,
            st,
            actions,
            n,
            replies,
        ).3 < n,
    decreases n,
{
    if n > 0 {
        lemma_actions_done(table, st, actions, (n - 1) as nat, replies);
    }
}

/// A successful reply is the unit success.
proof fn lemma_success(r: Result<(), Error>)
    requires
        r is Ok,
    ensures
        r == Ok::<(), Error>(()),
{
    match r {
        Ok(u) => {
            let () = u;
        },
        Err(_) => {},
    }
}

/// Removing a key code that is not held changes nothing.
proof fn lemma_remove_absent(s: Seq<KeyCode>, k: KeyCode)
    requires
        !contains_code(s, k),
    ensures
        remove_code(s, k) == s,
    decreases s.len(),
{
    if s.len() > 0 {
        let init = s.drop_last();
        assert(!contains_code(init, k)) by {
            if contains_code(init, k) {
                let i = choose|i: int| 0 <= i < init.len() && keycode_same(#[trigger] init[i], k);
                assert(s[i] == init[i]);
            }
        }
        lemma_remove_absent(init, k);
        assert(!keycode_same(s[s.len() - 1], k));
        assert(init.push(s.last()) =~= s);
    }
}

/// Pressing a modifier key that is not held and then releasing it leaves
/// the held modifiers as they were, whatever the backend replied.
pub proof fn lemma_modifier_press_release(
    backend: KeyboardBackend,
    table: Seq<KeyCode>,
    st: KeyboardState,
    k: Key,
    r1: Seq<Result<(), Error>>,
    r2: Seq<Result<(), Error>>,
)
    requires
        table_of(backend, table),
        modifier_of(table, table[key_index(k)]) is Some,
        !contains_code(st.modifiers, table[key_index(k)]),
    ensures
        release_trace(
            table,
            press_trace(table, st, Pressable::Key(k), r1).2,
            Pressable::Key(k),
            r2,
        ).2.modifiers == st.modifiers,
{
    let c = table[key_index(k)];
    lemma_remove_absent(st.modifiers, c);
    let pushed = st.modifiers.push(c);
    assert(pushed.drop_last() =~= st.modifiers);
    assert(keycode_same(c, c));
}

/// While a modifier key is held, its generic modifier is reported as
/// pressed.
pub proof fn lemma_held_modifier_reported(table: Seq<KeyCode>, mods: Seq<KeyCode>, code: KeyCode)
    requires
        modifier_of(table, code) is Some,
        contains_code(mods, code),
    ensures
        pressed_keys(table, mods).contains(modifier_of(table, code).unwrap()),
    decreases mods.len(),
{
    let i = choose|i: int| 0 <= i < mods.len() && keycode_same(#[trigger] mods[i], code);
    lemma_same_modifier(modifier_entries(table), mods[i], code);
    if i == mods.len() - 1 {
        let keys = pressed_keys(table, mods.drop_last());
        assert(pressed_keys(table, mods) == (if keys.contains(modifier_of(table, code).unwrap()) {
            keys
        } else {
            keys.push(modifier_of(table, code).unwrap())
        }));
        if !keys.contains(modifier_of(table, code).unwrap()) {
            assert(keys.push(modifier_of(table, code).unwrap()).last() == modifier_of(
                table,
                code,
            ).unwrap());
        }
    } else {
        let init = mods.drop_last();
        assert(init[i] == mods[i]);
        lemma_held_modifier_reported(table, init, code);
        lemma_pressed_keys_grow(table, mods);
    }
}

/// Whether `k` is one of the generic modifiers that the modifier keys stand
/// for.
pub open spec fn is_generic_modifier(k: Key) -> bool {
    k == Key::Alt || k == Key::AltGr || k == Key::Cmd || k == Key::Ctrl || k == Key::Shift
}

/// Each modifier key stands for a generic modifier.
proof fn lemma_members_modifiers()
    ensures
        modifier_members().len() == 13,
        forall|j: int|
            0 <= j < modifier_members().len() ==> (key_normal_modifier(
                #[trigger] modifier_members()[j],
            ) matches Some(g) && is_generic_modifier(g)),
{
    let s = modifier_members();
    assert(s.len() == 13);
    assert forall|j: int| 0 <= j < s.len() implies (key_normal_modifier(#[trigger] s[j]) matches Some(
        g,
    ) && is_generic_modifier(g)) by {
        if j == 0 {
        } else if j == 1 {
        } else if j == 2 {
        } else if j == 3 {
        } else if j == 4 {
        } else if j == 5 {
        } else if j == 6 {
        } else if j == 7 {
        } else if j == 8 {
        } else if j == 9 {
        } else if j == 10 {
        } else if j == 11 {
        } else {
            assert(j == 12);
        }
    }
}

/// Every registered modifier stands for a generic modifier.
proof fn lemma_entries_generic(table: Seq<KeyCode>)
    ensures
        forall|j: int|
            0 <= j < modifier_entries(table).len() ==> is_generic_modifier(
                #[trigger] modifier_entries(table)[j].1,
            ),
{
    lemma_members_modifiers();
    assert forall|j: int| 0 <= j < modifier_entries(table).len() implies is_generic_modifier(
        #[trigger] modifier_entries(table)[j].1,
    ) by {
        assert(key_normal_modifier(modifier_members()[j]) is Some);
    }
}

/// The modifier found for a key code is one that an entry stands for.
proof fn lemma_last_match_generic(entries: Seq<(KeyCode, Key)>, code: KeyCode)
    requires
        forall|j: int| 0 <= j < entries.len() ==> is_generic_modifier(#[trigger] entries[j].1),
    ensures
        last_match(entries, code) matches Some(k) ==> is_generic_modifier(k),
    decreases entries.len(),
{
    if entries.len() > 0 {
        let init = entries.drop_last();
        assert forall|j: int| 0 <= j < init.len() implies is_generic_modifier(#[trigger] init[j].1) by {
            assert(init[j] == entries[j]);
        }
        lemma_last_match_generic(init, code);
        assert(entries.last() == entries[entries.len() - 1]);
    }
}

/// Every generic modifier reported as pressed is one of *alt*, *alt gr*,
/// *cmd*, *ctrl* and *shift*, and is that of a held modifier key.
pub proof fn lemma_reported_modifier_held(table: Seq<KeyCode>, mods: Seq<KeyCode>, m: Key)
    requires
        pressed_keys(table, mods).contains(m),
    ensures
        is_generic_modifier(m),
        exists|i: int| 0 <= i < mods.len() && modifier_of(table, #[trigger] mods[i]) == Some(m),
    decreases mods.len(),
{
    if mods.len() == 0 {
        assert(pressed_keys(table, mods) =~= Seq::<Key>::empty());
    } else {
        let init = mods.drop_last();
        let keys = pressed_keys(table, init);
        if keys.contains(m) {
            lemma_reported_modifier_held(table, init, m);
            let i = choose|i: int| 0 <= i < init.len() && modifier_of(table, #[trigger] init[i]) == Some(m);
            assert(mods[i] == init[i]);
        } else {
            let t = pressed_keys(table, mods);
            let j = choose|j: int| 0 <= j < t.len() && t[j] == m;
            match modifier_of(table, mods.last()) {
                Some(k) => {
                    if !keys.contains(k) {
                        assert(t == keys.push(k));
                        if j < keys.len() {
                            assert(keys[j] == m);
                        }
                    }
                    assert(k == m);
                },
                None => {},
            }
            lemma_entries_generic(table);
            lemma_last_match_generic(modifier_entries(table), mods.last());
            assert(mods[mods.len() - 1] == mods.last());
        }
    }
}

/// On a platform with a backend, the key code of a modifier key is neither
/// equal to nor the same set member as that of the *caps lock* key.
pub proof fn lemma_modifier_code_not_caps_lock(backend: KeyboardBackend, table: Seq<KeyCode>, k: Key)
    requires
        table_of(backend, table),
        backend != KeyboardBackend::Unsupported,
        key_normal_modifier(k) is Some,
    ensures
        !keycode_same(table[key_index(k)], table[key_index(Key::CapsLock)]),
        !keycode_eq(table[key_index(k)], table[key_index(Key::CapsLock)]),
{
    assert(backend_keycode(backend, k, table[key_index(k)]));
    assert(backend_keycode(backend, Key::CapsLock, table[key_index(Key::CapsLock)]));
}

/// A registered modifier whose key code is the same as none of `code`'s is
/// not found for it.
proof fn lemma_last_match_none(entries: Seq<(KeyCode, Key)>, code: KeyCode)
    requires
        forall|j: int| 0 <= j < entries.len() ==> !keycode_same(#[trigger] entries[j].0, code),
    ensures
        last_match(entries, code) is None,
    decreases entries.len(),
{
    if entries.len() > 0 {
        let init = entries.drop_last();
        assert forall|j: int| 0 <= j < init.len() implies !keycode_same(#[trigger] init[j].0, code) by {
            assert(init[j] == entries[j]);
        }
        lemma_last_match_none(init, code);
        assert(entries.last() == entries[entries.len() - 1]);
    }
}

/// On a platform with a backend, *caps lock* is no modifier: pressing its
/// key toggles *caps lock*, releasing it leaves *caps lock* as it is, and
/// neither changes the held modifiers, whatever the backend replied.
pub proof fn lemma_caps_lock_no_modifier(
    backend: KeyboardBackend,
    table: Seq<KeyCode>,
    st: KeyboardState,
    r1: Seq<Result<(), Error>>,
    r2: Seq<Result<(), Error>>,
)
    requires
        table_of(backend, table),
        backend != KeyboardBackend::Unsupported,
    ensures
        modifier_of(table, table[key_index(Key::CapsLock)]) is None,
        press_trace(table, st, Pressable::Key(Key::CapsLock), r1).2.modifiers == st.modifiers,
        press_trace(table, st, Pressable::Key(Key::CapsLock), r1).2.caps_lock == !st.caps_lock,
        release_trace(table, st, Pressable::Key(Key::CapsLock), r2).2.modifiers == st.modifiers,
        release_trace(table, st, Pressable::Key(Key::CapsLock), r2).2.caps_lock == st.caps_lock,
{
    let c = table[key_index(Key::CapsLock)];
    let entries = modifier_entries(table);
    lemma_members_modifiers();
    assert forall|j: int| 0 <= j < entries.len() implies !keycode_same(#[trigger] entries[j].0, c) by {
        lemma_modifier_code_not_caps_lock(backend, table, modifier_members()[j]);
    }
    lemma_last_match_none(entries, c);
}

/// Key codes that are the same set member stand for the same modifier.
proof fn lemma_same_modifier(entries: Seq<(KeyCode, Key)>, a: KeyCode, b: KeyCode)
    requires
        keycode_same(a, b),
    ensures
        last_match(entries, a) == last_match(entries, b),
    decreases entries.len(),
{
    if entries.len() > 0 {
        crate::keyboard::keycode::lemma_keycode_same_equivalence(entries.last().0, a, b);
        crate::keyboard::keycode::lemma_keycode_same_equivalence(entries.last().0, b, a);
        lemma_same_modifier(entries.drop_last(), a, b);
    }
}

/// The modifiers reported for a prefix are still reported for the whole.
proof fn lemma_pressed_keys_grow(table: Seq<KeyCode>, mods: Seq<KeyCode>)
    requires
        mods.len() > 0,
    ensures
        forall|m: Key|
            pressed_keys(table, mods.drop_last()).contains(m) ==> #[trigger] pressed_keys(
                table,
                mods,
            ).contains(m),
{
    let keys = pressed_keys(table, mods.drop_last());
    assert forall|m: Key| keys.contains(m) implies #[trigger] pressed_keys(table, mods).contains(
        m,
    ) by {
        let j = choose|j: int| 0 <= j < keys.len() && keys[j] == m;
        match modifier_of(table, mods.last()) {
            Some(k) => if !keys.contains(k) {
                assert(keys.push(k)[j] == m);
            },
            None => {},
        }
    }
}

/// Each generic modifier is reported at most once.
pub proof fn lemma_pressed_keys_distinct(table: Seq<KeyCode>, mods: Seq<KeyCode>)
    ensures
        pressed_keys(table, mods).no_duplicates(),
    decreases mods.len(),
{
    if mods.len() > 0 {
        lemma_pressed_keys_distinct(table, mods.drop_last());
        let keys = pressed_keys(table, mods.drop_last());
        match modifier_of(table, mods.last()) {
            Some(k) => if !keys.contains(k) {
                let t = keys.push(k);
                assert forall|i: int, j: int| 0 <= i < t.len() && 0 <= j < t.len() && i != j implies t[i]
                    != t[j] by {
                    if i == keys.len() as int {
                        assert(keys[j] != k);
                    } else if j == keys.len() as int {
                        assert(keys[i] != k);
                    }
                }
            },
            None => {},
        }
    }
}

/// Each press of the *caps lock* key toggles *caps lock*, whatever the
/// backend replied; releasing a key leaves it as it is.
pub proof fn lemma_caps_lock_toggles(
    table: Seq<KeyCode>,
    st: KeyboardState,
    p: Pressable,
    replies: Seq<Result<(), Error>>,
)
    ensures
        press_trace(table, st, p, replies).2.caps_lock == (st.caps_lock != keycode_eq(
            resolve(table, st, p),
            table[key_index(Key::CapsLock)],
        )),
        release_trace(table, st, p, replies).2.caps_lock == st.caps_lock,
{
}

/// One call of `press` (`true`) or `release` (`false`) of a key, with the
/// replies the backend gave to it.
pub struct KeyCall {
    pub key: Pressable,
    pub is_press: bool,
    pub replies: Seq<Result<(), Error>>,
}

/// The state after the calls `calls`, one after another from `st`, each
/// made whatever the one before it returned.
pub open spec fn calls_state(table: Seq<KeyCode>, st: KeyboardState, calls: Seq<KeyCall>) -> KeyboardState
    decreases calls.len(),
{
    if calls.len() == 0 {
        st
    } else {
        let prev = calls_state(table, st, calls.drop_last());
        let c = calls.last();
        if c.is_press {
            press_trace(table, prev, c.key, c.replies).2
        } else {
            release_trace(table, prev, c.key, c.replies).2
        }
    }
}

/// How many of the calls press a key that resolves to the *caps lock* key.
pub open spec fn caps_lock_presses(table: Seq<KeyCode>, st: KeyboardState, calls: Seq<KeyCall>) -> nat
    decreases calls.len(),
{
    if calls.len() == 0 {
        0
    } else {
        let prev = calls_state(table, st, calls.drop_last());
        let c = calls.last();
        caps_lock_presses(table, st, calls.drop_last()) + if c.is_press && keycode_eq(
            resolve(table, prev, c.key),
            table[key_index(Key::CapsLock)],
        ) {
            1nat
        } else {
            0nat
        }
    }
}

/// Over any run of presses and releases, whatever the backend replied,
/// *caps lock* has flipped once for each press of its key: it is on when it
/// was on before and its key was pressed an even number of times, or when it
/// was off and its key was pressed an odd number of times. *Shift* is then
/// in effect when *caps lock* is on or a *shift* key is held.
pub proof fn lemma_caps_lock_parity(table: Seq<KeyCode>, st: KeyboardState, calls: Seq<KeyCall>)
    ensures
        calls_state(table, st, calls).caps_lock == (st.caps_lock != (caps_lock_presses(
            table,
            st,
            calls,
        ) % 2 == 1)),
        shift_in_effect(table, calls_state(table, st, calls)) == (calls_state(
            table,
            st,
            calls,
        ).caps_lock || pressed_keys(table, calls_state(table, st, calls).modifiers).contains(
            Key::Shift,
        )),
    decreases calls.len(),
{
    if calls.len() > 0 {
        let init = calls.drop_last();
        lemma_caps_lock_parity(table, st, init);
        let prev = calls_state(table, st, init);
        let c = calls.last();
        lemma_caps_lock_toggles(table, prev, c.key, c.replies);
    }
}

/// On a platform with a backend, pressing a *shift* key on a fresh
/// controller reports *shift* as the one modifier pressed, and releasing it
/// again sends one release of its key code with no modifier pressed, and
/// leaves no modifier pressed and *shift* not in effect, whatever the
/// backend replied.
pub proof fn lemma_shift_press_release(
    backend: KeyboardBackend,
    table: Seq<KeyCode>,
    k: Key,
    r1: Seq<Result<(), Error>>,
    r2: Seq<Result<(), Error>>,
)
    requires
        table_of(backend, table),
        backend != KeyboardBackend::Unsupported,
        key_normal_modifier(k) == Some(Key::Shift),
    ensures
        ({
            let mid = press_trace(table, initial_state(), Pressable::Key(k), r1).2;
            let end = release_trace(table, mid, Pressable::Key(k), r2);
            &&& pressed_keys(table, mid.modifiers) == seq![Key::Shift]
            &&& !mid.caps_lock
            &&& shift_in_effect(table, mid)
            &&& end.2.modifiers == Seq::<KeyCode>::empty()
            &&& !shift_in_effect(table, end.2)
            &&& end.0.len() == 1
            &&& end.0[0].modifiers == Seq::<Key>::empty()
            &&& end.0[0].code == table[key_index(k)]
            &&& !end.0[0].is_press
        }),
{
    let c = table[key_index(k)];
    let entries = modifier_entries(table);
    assert(backend_keycode(backend, k, c));
    assert(backend_keycode(backend, Key::ShiftL, table[key_index(Key::ShiftL)]));
    assert(backend_keycode(backend, Key::ShiftR, table[key_index(Key::ShiftR)]));
    assert(backend_keycode(backend, Key::Shift, table[key_index(Key::Shift)]));
    assert(entries.len() == 13);
    assert(entries[12] == (table[key_index(Key::ShiftR)], Key::Shift));
    assert(entries[11] == (table[key_index(Key::ShiftL)], Key::Shift));
    assert(entries[10] == (table[key_index(Key::Shift)], Key::Shift));
    assert(entries.drop_last().drop_last().last() == entries[10]);
    assert(entries.drop_last().last() == entries[11]);
    reveal_with_fuel(last_match, 4);
    assert(modifier_of(table, c) == Some(Key::Shift));
    lemma_modifier_code_not_caps_lock(backend, table, k);
    let st = initial_state();
    let mods = insert_code(st.modifiers, c);
    assert(mods == seq![c]);
    assert(pressed_keys(table, seq![c]) =~= seq![Key::Shift]) by {
        let one = seq![c];
        assert(one.drop_last() =~= Seq::<KeyCode>::empty());
        assert(one.last() == c);
        assert(pressed_keys(table, Seq::<KeyCode>::empty()) == Seq::<Key>::empty());
        assert(!Seq::<Key>::empty().contains(Key::Shift));
        assert(Seq::<Key>::empty().push(Key::Shift) =~= seq![Key::Shift]);
    }
    assert(seq![Key::Shift][0] == Key::Shift);
    lemma_remove_absent(Seq::<KeyCode>::empty(), c);
    let pushed = Seq::<KeyCode>::empty().push(c);
    assert(pushed.drop_last() =~= Seq::<KeyCode>::empty());
    assert(keycode_same(c, c));
}

/// A key code held after `s` gains `x` is one held before, or `x`.
proof fn lemma_contains_code_push(s: Seq<KeyCode>, x: KeyCode, c: KeyCode)
    ensures
        contains_code(s.push(x), c) == (contains_code(s, c) || keycode_same(x, c)),
{
    if contains_code(s, c) {
        let i = choose|i: int| 0 <= i < s.len() && keycode_same(#[trigger] s[i], c);
        assert(s.push(x)[i] == s[i]);
    }
    if keycode_same(x, c) {
        assert(s.push(x)[s.len() as int] == x);
    }
    if contains_code(s.push(x), c) {
        let i = choose|i: int| 0 <= i < s.push(x).len() && keycode_same(#[trigger] s.push(x)[i], c);
        if i < s.len() {
            assert(s.push(x)[i] == s[i]);
        }
    }
}

/// Inserting `k` holds `k` and keeps every key code held.
proof fn lemma_contains_insert(s: Seq<KeyCode>, k: KeyCode, c: KeyCode)
    ensures
        contains_code(insert_code(s, k), c) == (keycode_same(k, c) || contains_code(s, c)),
{
    lemma_contains_code_push(s, k, c);
    if contains_code(s, k) && keycode_same(k, c) {
        let i = choose|i: int| 0 <= i < s.len() && keycode_same(#[trigger] s[i], k);
        crate::keyboard::keycode::lemma_keycode_same_equivalence(s[i], k, c);
    }
}

/// Removing `k` drops exactly the key codes that are the same as `k`.
proof fn lemma_contains_remove(s: Seq<KeyCode>, k: KeyCode, c: KeyCode)
    ensures
        contains_code(remove_code(s, k), c) == (!keycode_same(k, c) && contains_code(s, c)),
    decreases s.len(),
{
    if s.len() == 0 {
        assert(!contains_code(s, c));
    } else {
        let init = s.drop_last();
        let x = s.last();
        lemma_contains_remove(init, k, c);
        lemma_contains_code_push(remove_code(init, k), x, c);
        lemma_contains_code_push(init, x, c);
        assert(init.push(x) =~= s);
        crate::keyboard::keycode::lemma_keycode_same_equivalence(x, k, c);
        crate::keyboard::keycode::lemma_keycode_same_equivalence(k, x, c);
        crate::keyboard::keycode::lemma_keycode_same_equivalence(x, c, k);
    }
}

/// Whether the key code `code` is held after the calls `calls` from `st`:
/// whether the last call whose key resolved to the same key code was a
/// press, or, when there was none, whether it was held at the start.
pub open spec fn held_after(
    table: Seq<KeyCode>,
    st: KeyboardState,
    calls: Seq<KeyCall>,
    code: KeyCode,
) -> bool
    decreases calls.len(),
{
    if calls.len() == 0 {
        contains_code(st.modifiers, code)
    } else {
        let prev = calls_state(table, st, calls.drop_last());
        if keycode_same(resolve(table, prev, calls.last().key), code) {
            calls.last().is_press
        } else {
            held_after(table, st, calls.drop_last(), code)
        }
    }
}

/// Over any run of presses and releases, whatever the backend replied, a
/// modifier key code is held exactly when the last call of its key was a
/// press (or, with none, when it was held at the start).
pub proof fn lemma_modifier_held_after(
    table: Seq<KeyCode>,
    st: KeyboardState,
    calls: Seq<KeyCall>,
    code: KeyCode,
)
    requires
        modifier_of(table, code) is Some,
    ensures
        contains_code(calls_state(table, st, calls).modifiers, code) == held_after(
            table,
            st,
            calls,
            code,
        ),
    decreases calls.len(),
{
    if calls.len() > 0 {
        let init = calls.drop_last();
        lemma_modifier_held_after(table, st, init, code);
        let prev = calls_state(table, st, init);
        let c = calls.last();
        let r = resolve(table, prev, c.key);
        let after = calls_state(table, st, calls);
        if c.is_press {
            assert(after.modifiers == update_modifiers(table, prev.modifiers, r, true));
        } else {
            assert(after.modifiers == update_modifiers(table, prev.modifiers, r, false));
        }
        lemma_contains_insert(prev.modifiers, r, code);
        lemma_contains_remove(prev.modifiers, r, code);
        if keycode_same(r, code) {
            lemma_same_modifier(modifier_entries(table), r, code);
        }
    }
}

/// Over any run of presses and releases from a fresh controller, whatever
/// the backend replied, the reported modifiers are exactly the generic
/// modifiers of the modifier key codes whose last call was a press; each is
/// one of *alt*, *alt gr*, *cmd*, *ctrl* and *shift*.
pub proof fn lemma_modifiers_over_run(table: Seq<KeyCode>, calls: Seq<KeyCall>, m: Key)
    ensures
        pressed_keys(table, calls_state(table, initial_state(), calls).modifiers).contains(m) <==> (
        exists|code: KeyCode|
            modifier_of(table, code) == Some(m) && #[trigger] held_after(
                table,
                initial_state(),
                calls,
                code,
            )),
        pressed_keys(table, calls_state(table, initial_state(), calls).modifiers).contains(m)
            ==> is_generic_modifier(m),
{
    let mods = calls_state(table, initial_state(), calls).modifiers;
    if pressed_keys(table, mods).contains(m) {
        lemma_reported_modifier_held(table, mods, m);
        let i = choose|i: int| 0 <= i < mods.len() && modifier_of(table, #[trigger] mods[i]) == Some(m);
        crate::keyboard::keycode::lemma_keycode_same_equivalence(mods[i], mods[i], mods[i]);
        assert(contains_code(mods, mods[i]));
        lemma_modifier_held_after(table, initial_state(), calls, mods[i]);
    }
    if exists|code: KeyCode|
        modifier_of(table, code) == Some(m) && #[trigger] held_after(
            table,
            initial_state(),
            calls,
            code,
        ) {
        let code = choose|code: KeyCode|
            modifier_of(table, code) == Some(m) && #[trigger] held_after(
                table,
                initial_state(),
                calls,
                code,
            );
        lemma_modifier_held_after(table, initial_state(), calls, code);
        lemma_held_modifier_reported(table, mods, code);
    }
}

/// Touching a key is pressing it when `is_press` holds and releasing it
/// otherwise: the events, the result and the state are those of the press or
/// the release, whatever the backend replied, and the touch is defined
/// exactly when the press or release is.
pub proof fn lemma_touch_is_press_or_release(
    table: Seq<KeyCode>,
    st: KeyboardState,
    p: Pressable,
    is_press: bool,
    replies: Seq<Result<(), Error>>,
)
    ensures
        action_trace(
            table,
            st,
            if is_press {
                Action::Press(p)
            } else {
                Action::Release(p)
            },
            replies,
        ) == if is_press {
            press_trace(table, st, p, replies)
        } else {
            release_trace(table, st, p, replies)
        },
        action_allowed(
            table,
            st,
            if is_press {
                Action::Press(p)
            } else {
                Action::Release(p)
            },
        ) == (is_press ==> press_allowed(table, st, p)),
{
}

/// Releasing a dead key sends nothing and keeps a pending dead key.
pub proof fn lemma_dead_key_release(
    table: Seq<KeyCode>,
    st: KeyboardState,
    p: Pressable,
    replies: Seq<Result<(), Error>>,
)
    requires
        resolve(table, st, p).is_dead,
    ensures
        release_trace(table, st, p, replies).0 == Seq::<Sent>::empty(),
        release_trace(table, st, p, replies).1 == Ok::<(), Error>(()),
        release_trace(table, st, p, replies).2.dead_key == st.dead_key,
{
}

/// Pressing a dead key with none pending sends nothing and keeps it
/// pending; pressing a key it joins with then sends the joined key.
pub proof fn lemma_dead_key_joins(
    table: Seq<KeyCode>,
    st: KeyboardState,
    dead: Pressable,
    key: Pressable,
    r1: Seq<Result<(), Error>>,
    r2: Seq<Result<(), Error>>,
)
    requires
        st.dead_key is None,
        resolve(table, st, dead).is_dead,
        keycode_join(
            resolve(table, st, dead),
            resolve(table, press_trace(table, st, dead, r1).2, key),
        ) is Some,
    ensures
        press_trace(table, st, dead, r1).0 == Seq::<Sent>::empty(),
        press_trace(table, st, dead, r1).1 == Ok::<(), Error>(()),
        press_trace(table, st, dead, r1).2.dead_key == Some(resolve(table, st, dead)),
        ({
            let mid = press_trace(table, st, dead, r1).2;
            let t = press_trace(table, mid, key, r2);
            &&& t.0.len() >= 1
            &&& t.0[0].code == keycode_join(resolve(table, st, dead), resolve(table, mid, key)).unwrap()
            &&& t.0[0].is_press
        }),
{
    let d = resolve(table, st, dead);
    let mid = press_trace(table, st, dead, r1).2;
    let r = resolve(table, mid, key);
    let j = keycode_join(d, r).unwrap();
    crate::keyboard::keycode::lemma_join_result_not_dead(d, r);
    let keys0 = pressed_keys(table, pressed_state(table, st, d).modifiers);
    lemma_run_prefix(keys0, Seq::empty(), r1, r1);
    let pressed = pressed_state(table, mid, r);
    let keys = pressed_keys(table, pressed.modifiers);
    lemma_run_prefix(keys, Seq::empty(), r2, r2);
    let rest = r2.skip(0);
    lemma_run_prefix(keys, seq![(j, true)], rest, rest);
    lemma_first_error(rest, 0, 1);
    let b = run_trace(keys, seq![(j, true)], rest);
    assert(b.0.len() == 1);
    assert(b.0[0].code == j);
}

/// A press that succeeds leaves the state that `press_success_state` gives.
proof fn lemma_press_success(
    table: Seq<KeyCode>,
    st: KeyboardState,
    p: Pressable,
    replies: Seq<Result<(), Error>>,
)
    ensures
        press_trace(table, st, p, replies).1 is Ok ==> press_trace(table, st, p, replies).2
            == press_success_state(table, st, p),
{
}

/// An action that succeeds leaves the state that `action_success_state`
/// gives.
proof fn lemma_action_success(
    table: Seq<KeyCode>,
    st: KeyboardState,
    a: Action,
    replies: Seq<Result<(), Error>>,
)
    ensures
        action_trace(table, st, a, replies).1 is Ok ==> action_trace(table, st, a, replies).2
            == action_success_state(table, st, a),
{
    match a {
        Action::Press(p) => lemma_press_success(table, st, p, replies),
        Action::Release(_) => {},
        Action::Tap(p) => lemma_press_success(table, st, p, replies),
    }
}

/// Typing is defined when pressing its first character is: once a
/// character is typed, no dead key is pending.
proof fn lemma_typing_allowed(
    backend: KeyboardBackend,
    table: Seq<KeyCode>,
    st: KeyboardState,
    chars: Seq<char>,
    i: int,
)
    requires
        table_of(backend, table),
        0 <= i,
        i < chars.len() ==> press_allowed(table, st, typed_pressable(chars[i])),
    ensures
        actions_allowed(table, st, typing_actions(chars), i),
    decreases chars.len() - i,
{
    if i < chars.len() {
        let p = typed_pressable(chars[i]);
        let r = resolve(table, st, p);
        if let Pressable::Key(k) = p {
            assert(backend_keycode(backend, k, table[key_index(k)]));
        }
        assert(!r.is_dead);
        match st.dead_key {
            Some(d) => crate::keyboard::keycode::lemma_join_result_not_dead(d, r),
            None => {},
        }
        let next = action_success_state(table, st, Action::Tap(p));
        assert(next.dead_key is None);
        lemma_typing_allowed(backend, table, next, chars, i + 1);
    }
}

/// Releases are always defined.
proof fn lemma_releases_allowed(table: Seq<KeyCode>, st: KeyboardState, keys: Seq<Pressable>, i: int)
    requires
        0 <= i,
    ensures
        actions_allowed(table, st, release_actions(keys), i),
    decreases keys.len() - i,
{
    if i < keys.len() {
        let next = action_success_state(table, st, release_actions(keys)[i]);
        lemma_releases_allowed(table, next, keys, i + 1);
    }
}

/// The replies of a log that grew in two steps, split at the first step.
proof fn lemma_replies_split(log0: Seq<Sent>, log1: Seq<Sent>, log2: Seq<Sent>)
    requires
        log0.len() <= log1.len() <= log2.len(),
        log2.take(log1.len() as int) == log1,
    ensures
        forall|j: int|
            0 <= j < log1.len() - log0.len() ==> #[trigger] new_replies(log0, log2)[j]
                == new_replies(log0, log1)[j],
        new_replies(log0, log2).skip(log1.len() - log0.len()) == new_replies(log1, log2),
{
    assert forall|j: int| 0 <= j < log1.len() - log0.len() implies #[trigger] new_replies(
        log0,
        log2,
    )[j] == new_replies(log0, log1)[j] by {
        assert(log2[log0.len() + j] == log1[log0.len() + j]);
    }
    assert(new_replies(log0, log2).skip(log1.len() - log0.len()) =~= new_replies(log1, log2));
}

/// The platform dependent keyboard implementation, which emits the events.
pub trait KeyboardImpl: Sized {
    /// Creates the backend, acquiring any platform resources.
    fn create() -> Result<Self, Error>;

    /// The backend kind, which decides the key codes of the well-known keys.
    fn backend(&self) -> KeyboardBackend;

    /// Emits a single key event; `modifiers` holds the generic modifiers
    /// pressed at the time.
    fn handle(&self, modifiers: &Vec<Key>, key: &KeyCode, is_press: bool) -> Result<(), Error>;
}

/// Whether the closure `f`, handed the events sent so far as a ghost value,
/// can return `r` when those events are `log`.
pub open spec fn called_with_log<F: FnOnce(Ghost<Seq<Sent>>) -> R, R>(
    f: F,
    log: Seq<Sent>,
    r: R,
) -> bool {
    exists|g: Ghost<Seq<Sent>>| g@ == log && f.ensures((g,), r)
}

/// A controller for sending virtual keyboard events to the system.
pub struct Controller<I: KeyboardImpl> {
    imp: I,
    backend: KeyboardBackend,
    table: Vec<KeyCode>,
    normal_modifiers: Vec<(KeyCode, Key)>,
    caps_lock_value: KeyCode,
    modifiers: Vec<KeyCode>,
    caps_lock: bool,
    dead_key: Option<KeyCode>,
    log: Ghost<Seq<Sent>>,
}

impl<I: KeyboardImpl> Controller<I> {
    #[verifier::type_invariant]
    spec fn well_formed(self) -> bool {
        &&& table_of(self.backend, self.table@)
        &&& self.normal_modifiers@ == modifier_entries(self.table@)
        &&& self.caps_lock_value == self.table@[key_index(Key::CapsLock)]
        &&& codes_distinct(self.modifiers@)
        &&& (self.dead_key matches Some(d) ==> d.is_dead)
    }

    /// The backend kind, which decides the key codes of the well-known keys.
    pub closed spec fn backend_kind(&self) -> KeyboardBackend {
        self.backend
    }

    /// The key codes of the well-known keys, by key index.
    pub closed spec fn table(&self) -> Seq<KeyCode> {
        self.table@
    }

    /// What the controller remembers between calls.
    pub closed spec fn state(&self) -> KeyboardState {
        KeyboardState {
            modifiers: self.modifiers@,
            caps_lock: self.caps_lock,
            dead_key: self.dead_key,
        }
    }

    /// Every key event handed to the backend so far, with its reply.
    pub closed spec fn log(&self) -> Seq<Sent> {
        self.log@
    }

    /// The backend.
    pub closed spec fn imp(&self) -> I {
        self.imp
    }

    /// What holds of every controller: the table holds the key code of each
    /// well-known key for its backend, no held modifier key code is there
    /// twice, and a pending dead key is a dead key. Makes no change.
    pub fn assert_invariant(&self)
        ensures
            table_of(self.backend_kind(), self.table()),
            codes_distinct(self.state().modifiers),
            self.state().dead_key matches Some(d) ==> d.is_dead,
    {
        proof {
            use_type_invariant(self);
        }
    }

    /// Creates a controller from an explicit backend.
    pub fn with_backend(imp: I) -> (c: Self)
        ensures
            c.imp() == imp,
            table_of(c.backend_kind(), c.table()),
            c.state() == initial_state(),
            c.log() == Seq::<Sent>::empty(),
    {
        let backend = imp.backend();
        let keys = Key::all();
        let mut table: Vec<KeyCode> = Vec::new();
        let mut i: usize = 0;
        while i < keys.len()
            invariant
                keys@ == crate::keyboard::key::all_keys(),
                i <= keys@.len(),
                table@.len() == i,
                forall|j: int|
                    0 <= j < i ==> backend_keycode(backend, keys@[j], #[trigger] table@[j]),
            decreases keys@.len() - i,
        {
            table.push(backend.key_value(keys[i]));
            i = i + 1;
        }
        assert(forall|k: Key| backend_keycode(backend, k, #[trigger] table@[key_index(k)])) by {
            assert forall|k: Key| backend_keycode(backend, k, #[trigger] table@[key_index(k)]) by {
                lemma_index_of_key(k);
            }
        }
        let members = vec![
            Key::AltGr,
            Key::Alt,
            Key::AltL,
            Key::AltR,
            Key::Cmd,
            Key::CmdL,
            Key::CmdR,
            Key::Ctrl,
            Key::CtrlL,
            Key::CtrlR,
            Key::Shift,
            Key::ShiftL,
            Key::ShiftR,
        ];
        assert(members@ == modifier_members());
        let mut normal_modifiers: Vec<(KeyCode, Key)> = Vec::new();
        let mut j: usize = 0;
        while j < members.len()
            invariant
                members@ == modifier_members(),
                table@.len() == 60,
                j <= members@.len(),
                normal_modifiers@ == modifier_entries(table@).take(j as int),
            decreases members@.len() - j,
        {
            let m = members[j];
            proof {
                lemma_index_of_key(m);
            }
            let base = match m.normal_modifier() {
                Some(b) => b,
                None => m,
            };
            normal_modifiers.push((table[m.index()], base));
            assert(modifier_entries(table@).take(j + 1) =~= modifier_entries(table@).take(
                j as int,
            ).push((table@[key_index(m)], base)));
            j = j + 1;
        }
        assert(modifier_entries(table@).take(13) =~= modifier_entries(table@));
        proof {
            lemma_index_of_key(Key::CapsLock);
        }
        let caps_lock_value = table[Key::CapsLock.index()];
        Controller {
            imp,
            backend,
            table,
            normal_modifiers,
            caps_lock_value,
            modifiers: Vec::new(),
            caps_lock: false,
            dead_key: None,
            log: Ghost(Seq::empty()),
        }
    }

    /// Creates a new controller, acquiring the backend.
    pub fn new() -> (c: Result<Self, Error>)
        ensures
            c matches Ok(c) ==> table_of(c.backend_kind(), c.table()) && c.state()
                == initial_state() && c.log() == Seq::<Sent>::empty(),
    {
        match I::create() {
            Ok(imp) => Ok(Self::with_backend(imp)),
            Err(e) => Err(e),
        }
    }

    /// The key code that pressing or releasing `key` sends.
    fn resolve(&self, key: &Pressable) -> (code: KeyCode)
        ensures
            code == resolve(self.table(), self.state(), *key),
            code.is_dead ==> key is Code,
    {
        proof {
            use_type_invariant(self);
        }
        match key {
            Pressable::Key(k) => {
                proof {
                    lemma_index_of_key(*k);
                    assert(backend_keycode(self.backend, *k, self.table@[key_index(*k)]));
                }
                self.table[k.index()]
            },
            Pressable::Char(c) => KeyCode::from_char(*c),
            Pressable::Code(code) => match code.char {
                Some(ch) => if self.shift_pressed() {
                    KeyCode { char: Some(char_uppercase(ch)), ..*code }
                } else {
                    *code
                },
                None => *code,
            },
        }
    }

    /// Tracks a pressed or released modifier.
    fn update_modifiers(&mut self, code: &KeyCode, is_press: bool)
        ensures
            final(self).state() == (KeyboardState {
                modifiers: update_modifiers(old(self).table(), old(self).state().modifiers, *code, is_press),
                ..old(self).state()
            }),
            final(self).table() == old(self).table(),
            final(self).backend_kind() == old(self).backend_kind(),
            final(self).imp() == old(self).imp(),
            final(self).log() == old(self).log(),
    {
        proof {
            use_type_invariant(&*self);
        }
        if self.as_modifier(code).is_some() {
            if is_press {
                if !find_code(&self.modifiers, code) {
                    proof {
                        lemma_insert_distinct(self.modifiers@, *code);
                    }
                    let mut m: Vec<KeyCode> = Vec::new();
                    std::mem::swap(&mut m, &mut self.modifiers);
                    m.push(*code);
                    self.modifiers = m;
                }
            } else {
                proof {
                    lemma_remove_distinct(self.modifiers@, *code);
                }
                let m = remove_code_from(&self.modifiers, code);
                self.modifiers = m;
            }
        }
    }

    /// Hands one key event to the backend and records it.
    fn handle(&mut self, code: &KeyCode, is_press: bool) -> (reply: Result<(), Error>)
        ensures
            final(self).log() == old(self).log().push(
                Sent {
                    modifiers: pressed_keys(old(self).table(), old(self).state().modifiers),
                    code: *code,
                    is_press,
                    reply,
                },
            ),
            final(self).state() == old(self).state(),
            final(self).table() == old(self).table(),
            final(self).backend_kind() == old(self).backend_kind(),
            final(self).imp() == old(self).imp(),
    {
        proof {
            use_type_invariant(&*self);
        }
        let keys = self.modifiers();
        let reply = self.imp.handle(&keys, code, is_press);
        self.log = Ghost(self.log@.push(Sent { modifiers: keys@, code: *code, is_press, reply }));
        reply
    }

    /// Sends `calls` one after another, stopping after the first that fails.
    fn run(&mut self, calls: &Vec<(KeyCode, bool)>) -> (reply: Result<(), Error>)
        ensures
            final(self).log() == old(self).log() + run_trace(
                pressed_keys(old(self).table(), old(self).state().modifiers),
                calls@,
                new_replies(old(self).log(), final(self).log()),
            ).0,
            reply == run_trace(
                pressed_keys(old(self).table(), old(self).state().modifiers),
                calls@,
                new_replies(old(self).log(), final(self).log()),
            ).1,
            final(self).log().len() - old(self).log().len() == calls_made(
                new_replies(old(self).log(), final(self).log()),
                calls@.len() as int,
            ),
            final(self).state() == old(self).state(),
            final(self).table() == old(self).table(),
            final(self).backend_kind() == old(self).backend_kind(),
            final(self).imp() == old(self).imp(),
    {
        let ghost log0 = self.log@;
        let ghost st0 = self.state();
        let ghost table = self.table@;
        let ghost backend = self.backend;
        let ghost imp = self.imp;
        let ghost keys = pressed_keys(table, st0.modifiers);
        let ghost n = calls@.len() as int;
        let mut i: usize = 0;
        while i < calls.len()
            invariant
                i <= calls@.len(),
                n == calls@.len(),
                keys == pressed_keys(table, st0.modifiers),
                log0 == old(self).log(),
                st0 == old(self).state(),
                table == old(self).table(),
                backend == old(self).backend_kind(),
                imp == old(self).imp(),
                self.state() == st0,
                self.table@ == table,
                self.backend == backend,
                self.imp == imp,
                self.log@.len() == log0.len() + i,
                self.log@ == log0 + events(keys, calls@.take(i as int), new_replies(log0, self.log@)),
                forall|j: int| 0 <= j < i ==> (#[trigger] new_replies(log0, self.log@)[j]) is Ok,
            decreases calls@.len() - i,
        {
            let ghost before = self.log@;
            let (code, is_press) = calls[i];
            let r = self.handle(&code, is_press);
            let ghost rs = new_replies(log0, self.log@);
            assert forall|j: int| 0 <= j < i implies #[trigger] rs[j] == new_replies(
                log0,
                before,
            )[j] by {
                assert(self.log@[log0.len() + j] == before[log0.len() + j]);
            }
            proof {
                let ev = events(keys, calls@.take(i + 1), rs);
                assert(rs[i as int] == r);
                assert forall|k: int| 0 <= k < i + 1 implies #[trigger] self.log@[log0.len() + k]
                    == ev[k] by {
                    if k < i {
                        assert(before[log0.len() + k] == events(
                            keys,
                            calls@.take(i as int),
                            new_replies(log0, before),
                        )[k]);
                        assert(rs[k] == new_replies(log0, before)[k]);
                        assert(self.log@[log0.len() + k] == before[log0.len() + k]);
                    } else {
                        assert(calls@.take(i + 1)[k] == calls@[i as int]);
                        assert(code == calls@[i as int].0);
                        assert(self.log@[log0.len() + k] == Sent {
                            modifiers: keys,
                            code,
                            is_press,
                            reply: r,
                        });
                    }
                }
                assert(self.log@ =~= log0 + ev);
            }
            if r.is_err() {
                proof {
                    lemma_first_error_at(rs, 0, n, i as int);
                }
                return r;
            }
            i = i + 1;
        }
        proof {
            let rs = new_replies(log0, self.log@);
            lemma_first_error_at(rs, 0, n, n);
            assert(calls@.take(n) =~= calls@);
        }
        Ok(())
    }

    /// Sends the key code `code` that pressing `resolved` came to.
    #[verifier::rlimit(40)]
    fn send_key(&mut self, code: KeyCode, resolved: KeyCode) -> (result: Result<(), Error>)
        ensures
            final(self).table() == old(self).table(),
            final(self).backend_kind() == old(self).backend_kind(),
            final(self).imp() == old(self).imp(),
            follows(
                key_trace(
                    old(self).table(),
                    old(self).state(),
                    code,
                    resolved,
                    new_replies(old(self).log(), final(self).log()),
                ),
                old(self).log(),
                final(self).log(),
                result,
                final(self).state(),
            ),
    {
        let ghost log0 = self.log@;
        let ghost st0 = self.state();
        let ghost table = self.table@;
        let ghost keys = pressed_keys(table, st0.modifiers);
        let mut single: Vec<(KeyCode, bool)> = Vec::new();
        single.push((code, true));
        let rb = self.run(&single);
        let ghost log_b = self.log@;
        let ghost ev_b = new_replies(log0, log_b);
        proof {
            lemma_first_error(ev_b, 0, 1);
        }
        let ghost rb_ok = rb.is_ok();
        match rb {
            Ok(()) => {},
            Err(e) => {
                let invalid = match e {
                    Error::InvalidKey(_) => true,
                    _ => false,
                };
                if invalid && !code.equals(&resolved) {
                    let mut retry = dead_key_plan(self.dead_key);
                    retry.push((resolved, true));
                    let rc = self.run(&retry);
                    proof {
                        let rs = new_replies(log0, self.log@);
                        assert(rc == run_trace(keys, retry@, new_replies(log_b, self.log@)).1);
                        lemma_first_error(new_replies(log_b, self.log@), 0, retry@.len() as int);
                        assert(self.log@.take(log_b.len() as int) =~= log_b);
                        lemma_replies_split(log0, log_b, self.log@);
                        lemma_run_prefix(keys, single@, ev_b, rs);
                        assert(retry@ == dead_key_calls(st0.dead_key).push((resolved, true)));
                        assert(self.log@ =~= log0 + key_trace(table, st0, code, resolved, rs).0);
                    }
                    if rc.is_err() {
                        return rc;
                    }
                } else {
                    proof {
                        let rs = new_replies(log0, self.log@);
                        assert(rs =~= ev_b);
                    }
                    return Err(e);
                }
            },
        }
        proof {
            use_type_invariant(&*self);
        }
        self.dead_key = None;
        proof {
            let rs = new_replies(log0, self.log@);
            if rb_ok {
                assert(rs =~= ev_b);
            }
        }
        Ok(())
    }

    /// Sends what pressing the key code `resolved` calls for, once the
    /// modifiers and *caps lock* are updated.
    #[verifier::rlimit(40)]
    fn send_pressed(&mut self, resolved: KeyCode) -> (result: Result<(), Error>)
        requires
            old(self).state().dead_key matches Some(d) ==> join_defined(d, resolved),
        ensures
            final(self).table() == old(self).table(),
            final(self).backend_kind() == old(self).backend_kind(),
            final(self).imp() == old(self).imp(),
            follows(
                send_trace(
                    old(self).table(),
                    old(self).state(),
                    resolved,
                    new_replies(old(self).log(), final(self).log()),
                ),
                old(self).log(),
                final(self).log(),
                result,
                final(self).state(),
            ),
    {
        let ghost log0 = self.log@;
        let ghost st0 = self.state();
        let ghost table = self.table@;
        let ghost keys = pressed_keys(table, st0.modifiers);
        let dead = self.dead_key;
        let joined = match dead {
            Some(d) => {
                proof {
                    use_type_invariant(&*self);
                }
                match d.join(&resolved) {
                    Ok(j) => Some(j),
                    Err(_) => None,
                }
            },
            None => None,
        };
        assert(joined == joined_with(st0.dead_key, resolved));
        let flush = if joined.is_none() {
            dead_key_plan(dead)
        } else {
            Vec::new()
        };
        assert(flush@ =~= (if joined is None {
            dead_key_calls(st0.dead_key)
        } else {
            Seq::empty()
        }));
        let code = match joined {
            Some(j) => j,
            None => resolved,
        };
        let ra = self.run(&flush);
        let ghost log_a = self.log@;
        let ghost ev_a = new_replies(log0, log_a);
        proof {
            lemma_first_error(ev_a, 0, flush@.len() as int);
        }
        if ra.is_err() {
            return ra;
        }
        proof {
            use_type_invariant(&*self);
        }
        if code.is_dead {
            self.dead_key = Some(code);
            return Ok(());
        }
        let rb = self.send_key(code, resolved);
        proof {
            let rs = new_replies(log0, self.log@);
            assert(self.log@.take(log_a.len() as int) =~= log_a);
            lemma_replies_split(log0, log_a, self.log@);
            lemma_run_prefix(keys, flush@, ev_a, rs);
            let a = run_trace(keys, flush@, rs);
            assert(log_a == log0 + a.0);
            assert(a.0.len() == log_a.len() - log0.len());
            let b = key_trace(table, st0, code, resolved, rs.skip(a.0.len() as int));
            assert(rs.skip(a.0.len() as int) == new_replies(log_a, self.log@));
            assert(self.log@ == log_a + b.0);
            assert(self.log@ =~= log0 + (a.0 + b.0));
        }
        rb
    }

    /// Presses a key.
    ///
    /// A pending dead key is combined with the key where possible, and a
    /// dead key is kept back until the next key is pressed.
    pub fn press(&mut self, key: Pressable) -> (result: Result<(), Error>)
        requires
            press_allowed(old(self).table(), old(self).state(), key),
        ensures
            final(self).table() == old(self).table(),
            final(self).backend_kind() == old(self).backend_kind(),
            final(self).imp() == old(self).imp(),
            follows(
                press_trace(
                    old(self).table(),
                    old(self).state(),
                    key,
                    new_replies(old(self).log(), final(self).log()),
                ),
                old(self).log(),
                final(self).log(),
                result,
                final(self).state(),
            ),
    {
        let resolved = self.resolve(&key);
        self.update_modifiers(&resolved, true);
        proof {
            use_type_invariant(&*self);
        }
        if resolved.equals(&self.caps_lock_value) {
            self.caps_lock = !self.caps_lock;
        }
        self.send_pressed(resolved)
    }
    /// Releases a key; releasing a dead key sends nothing.
    pub fn release(&mut self, key: Pressable) -> (result: Result<(), Error>)
        ensures
            final(self).table() == old(self).table(),
            final(self).backend_kind() == old(self).backend_kind(),
            final(self).imp() == old(self).imp(),
            follows(
                release_trace(
                    old(self).table(),
                    old(self).state(),
                    key,
                    new_replies(old(self).log(), final(self).log()),
                ),
                old(self).log(),
                final(self).log(),
                result,
                final(self).state(),
            ),
    {
        let ghost log0 = self.log@;
        let ghost st0 = self.state();
        let ghost table = self.table@;
        let resolved = self.resolve(&key);
        self.update_modifiers(&resolved, false);
        if resolved.is_dead {
            proof {
                let t = release_trace(table, st0, key, new_replies(log0, self.log@));
                assert(self.log@ =~= log0 + t.0);
            }
            return Ok(());
        }
        let r = self.handle(&resolved, false);
        proof {
            let t = release_trace(table, st0, key, new_replies(log0, self.log@));
            assert(self.log@ =~= log0 + t.0);
        }
        r
    }

    /// Presses and releases a key.
    pub fn tap(&mut self, key: Pressable) -> (result: Result<(), Error>)
        requires
            press_allowed(old(self).table(), old(self).state(), key),
        ensures
            final(self).table() == old(self).table(),
            final(self).backend_kind() == old(self).backend_kind(),
            final(self).imp() == old(self).imp(),
            follows(
                tap_trace(
                    old(self).table(),
                    old(self).state(),
                    key,
                    new_replies(old(self).log(), final(self).log()),
                ),
                old(self).log(),
                final(self).log(),
                result,
                final(self).state(),
            ),
    {
        let ghost log0 = self.log@;
        let ghost st0 = self.state();
        let ghost table = self.table@;
        let r = self.press(key);
        let ghost log_a = self.log@;
        if r.is_err() {
            return r;
        }
        let r2 = self.release(key);
        proof {
            let rs = new_replies(log0, self.log@);
            assert(self.log@.take(log_a.len() as int) =~= log_a);
            lemma_replies_split(log0, log_a, self.log@);
            lemma_press_trace_prefix(table, st0, key, new_replies(log0, log_a), rs);
            assert(self.log@ =~= log0 + tap_trace(table, st0, key, rs).0);
        }
        r2
    }

    /// Presses a key when `is_press` holds, releases it otherwise.
    pub fn touch(&mut self, key: Pressable, is_press: bool) -> (result: Result<(), Error>)
        requires
            is_press ==> press_allowed(old(self).table(), old(self).state(), key),
        ensures
            final(self).table() == old(self).table(),
            final(self).backend_kind() == old(self).backend_kind(),
            final(self).imp() == old(self).imp(),
            follows(
                action_trace(
                    old(self).table(),
                    old(self).state(),
                    if is_press {
                        Action::Press(key)
                    } else {
                        Action::Release(key)
                    },
                    new_replies(old(self).log(), final(self).log()),
                ),
                old(self).log(),
                final(self).log(),
                result,
                final(self).state(),
            ),
    {
        if is_press {
            self.press(key)
        } else {
            self.release(key)
        }
    }

    /// Performs one action.
    fn perform(&mut self, action: Action) -> (result: Result<(), Error>)
        requires
            action_allowed(old(self).table(), old(self).state(), action),
        ensures
            final(self).table() == old(self).table(),
            final(self).backend_kind() == old(self).backend_kind(),
            final(self).imp() == old(self).imp(),
            follows(
                action_trace(
                    old(self).table(),
                    old(self).state(),
                    action,
                    new_replies(old(self).log(), final(self).log()),
                ),
                old(self).log(),
                final(self).log(),
                result,
                final(self).state(),
            ),
    {
        match action {
            Action::Press(p) => self.press(p),
            Action::Release(p) => self.release(p),
            Action::Tap(p) => self.tap(p),
        }
    }

    /// Performs actions one after another, stopping at the first that
    /// fails; gives its result and how many succeeded.
    fn perform_all(&mut self, actions: &Vec<Action>) -> (outcome: (Result<(), Error>, usize))
        requires
            actions_allowed(old(self).table(), old(self).state(), actions@, 0),
        ensures
            final(self).table() == old(self).table(),
            final(self).backend_kind() == old(self).backend_kind(),
            final(self).imp() == old(self).imp(),
            ({
                let t = actions_trace(
                    old(self).table(),
                    old(self).state(),
                    actions@,
                    actions@.len(),
                    new_replies(old(self).log(), final(self).log()),
                );
                &&& final(self).log() == old(self).log() + t.0
                &&& outcome.0 == t.1
                &&& final(self).state() == t.2
                &&& outcome.1 == t.3
            }),
    {
        let ghost log0 = self.log@;
        let ghost st0 = self.state();
        let ghost table = self.table@;
        let ghost backend = self.backend;
        let ghost imp = self.imp;
        let mut i: usize = 0;
        while i < actions.len()
            invariant
                i <= actions@.len(),
                actions_allowed(table, self.state(), actions@, i as int),
                log0 == old(self).log(),
                st0 == old(self).state(),
                table == old(self).table(),
                backend == old(self).backend_kind(),
                imp == old(self).imp(),
                self.table@ == table,
                self.backend == backend,
                self.imp == imp,
                ({
                    let t = actions_trace(table, st0, actions@, i as nat, new_replies(log0, self.log@));
                    &&& self.log@ == log0 + t.0
                    &&& t.1 is Ok
                    &&& self.state() == t.2
                    &&& t.3 == i
                }),
            decreases actions@.len() - i,
        {
            let ghost before = self.log@;
            let ghost st_before = self.state();
            let r = self.perform(actions[i]);
            proof {
                let rs = new_replies(log0, self.log@);
                let r_before = new_replies(log0, before);
                assert(self.log@.take(before.len() as int) =~= before);
                lemma_replies_split(log0, before, self.log@);
                lemma_actions_trace_prefix(table, st0, actions@, i as nat, r_before, rs);
                let prev = actions_trace(table, st0, actions@, i as nat, rs);
                assert(prev.0.len() == before.len() - log0.len());
                assert(self.log@ =~= log0 + actions_trace(
                    table,
                    st0,
                    actions@,
                    (i + 1) as nat,
                    rs,
                ).0);
            }
            if r.is_err() {
                proof {
                    let rs = new_replies(log0, self.log@);
                    lemma_actions_stop(table, st0, actions@, (i + 1) as nat, rs);
                }
                return (r, i);
            }
            proof {
                lemma_action_success(table, st_before, actions@[i as int], new_replies(before, self.log@));
            }
            i = i + 1;
        }
        proof {
            lemma_success(actions_trace(table, st0, actions@, i as nat, new_replies(log0, self.log@)).1);
        }
        (Ok(()), i)
    }

    /// Types a string, sending all key presses and releases necessary.
    ///
    /// The first character that cannot be typed ends the typing with
    /// `Error::InvalidCharacter`, naming its index and the character.
    pub fn type_str(&mut self, string: &str) -> (result: Result<(), Error>)
        requires
            string@.len() > 0 ==> press_allowed(
                old(self).table(),
                old(self).state(),
                typed_pressable(string@[0]),
            ),
        ensures
            final(self).table() == old(self).table(),
            final(self).backend_kind() == old(self).backend_kind(),
            final(self).imp() == old(self).imp(),
            follows(
                type_trace(
                    old(self).table(),
                    old(self).state(),
                    string@,
                    new_replies(old(self).log(), final(self).log()),
                ),
                old(self).log(),
                final(self).log(),
                result,
                final(self).state(),
            ),
    {
        let chars = chars_of(string);
        let mut actions: Vec<Action> = Vec::new();
        let mut i: usize = 0;
        while i < chars.len()
            invariant
                i <= chars@.len(),
                actions@ == typing_actions(chars@).take(i as int),
            decreases chars@.len() - i,
        {
            let c = chars[i];
            let p = if c == '\n' || c == '\r' {
                Pressable::Key(Key::Enter)
            } else if c == '\t' {
                Pressable::Key(Key::Tab)
            } else {
                Pressable::Char(c)
            };
            assert(p == typed_pressable(chars@[i as int]));
            actions.push(Action::Tap(p));
            assert(typing_actions(chars@).take(i + 1) =~= typing_actions(chars@).take(i as int).push(
                Action::Tap(p),
            ));
            i = i + 1;
        }
        assert(actions@ =~= typing_actions(chars@));
        proof {
            use_type_invariant(&*self);
            lemma_typing_allowed(self.backend, self.table@, self.state(), chars@, 0);
        }
        let (r, done) = self.perform_all(&actions);
        match r {
            Ok(()) => Ok(()),
            Err(_) => {
                proof {
                    lemma_actions_done(
                        self.table@,
                        old(self).state(),
                        actions@,
                        actions@.len(),
                        new_replies(old(self).log(), self.log@),
                    );
                }
                Err(Error::InvalidCharacter(done, chars[done]))
            },
        }
    }

    /// Calls `f` with `keys` held down: presses them in order, calls `f`,
    /// then releases them in reverse order. A failed press or release ends
    /// it with its error; `f` is called only once all keys are pressed, and
    /// before any is released. `f` is handed the events sent so far, as a
    /// ghost value.
    #[verifier::rlimit(40)]
    pub fn pressed<F, R>(&mut self, keys: &[Pressable], f: F) -> (result: Result<R, Error>) where
        F: FnOnce(Ghost<Seq<Sent>>) -> R,
        requires
            forall|g: Ghost<Seq<Sent>>| f.requires((g,)),
            actions_allowed(old(self).table(), old(self).state(), press_actions(keys@), 0),
        ensures
            final(self).table() == old(self).table(),
            final(self).backend_kind() == old(self).backend_kind(),
            final(self).imp() == old(self).imp(),
            ({
                let t = pressed_trace(
                    old(self).table(),
                    old(self).state(),
                    keys@,
                    new_replies(old(self).log(), final(self).log()),
                );
                &&& final(self).log() == old(self).log() + t.0
                &&& final(self).state() == t.2
                &&& (result is Ok <==> t.1 is Ok)
                &&& (result matches Err(e) ==> t.1 == Err::<(), Error>(e))
                &&& (result matches Ok(r) ==> called_with_log(
                    f,
                    old(self).log() + actions_trace(
                        old(self).table(),
                        old(self).state(),
                        press_actions(keys@),
                        keys@.len(),
                        new_replies(old(self).log(), final(self).log()),
                    ).0,
                    r,
                ))
            }),
    {
        let ghost log0 = self.log@;
        let ghost st0 = self.state();
        let ghost table = self.table@;
        let mut presses: Vec<Action> = Vec::new();
        let mut i: usize = 0;
        while i < keys.len()
            invariant
                i <= keys@.len(),
                presses@ == press_actions(keys@).take(i as int),
            decreases keys@.len() - i,
        {
            presses.push(Action::Press(keys[i]));
            assert(press_actions(keys@).take(i + 1) =~= press_actions(keys@).take(i as int).push(
                Action::Press(keys@[i as int]),
            ));
            i = i + 1;
        }
        assert(presses@ =~= press_actions(keys@));
        let mut releases: Vec<Action> = Vec::new();
        let mut j: usize = keys.len();
        while j > 0
            invariant
                j <= keys@.len(),
                releases@ == release_actions(keys@).take(keys@.len() - j),
            decreases j,
        {
            j = j - 1;
            releases.push(Action::Release(keys[j]));
            assert(release_actions(keys@).take(keys@.len() - j) =~= release_actions(keys@).take(
                keys@.len() - j - 1,
            ).push(Action::Release(keys@[j as int])));
        }
        assert(releases@ =~= release_actions(keys@));
        let (r, _) = self.perform_all(&presses);
        let ghost log_a = self.log@;
        if let Err(e) = r {
            return Err(e);
        }
        let value = f(Ghost(self.log@));
        proof {
            assert(called_with_log(f, log_a, value)) by {
                let g: Ghost<Seq<Sent>> = Ghost(log_a);
                assert(g@ == log_a);
            }
            lemma_releases_allowed(self.table@, self.state(), keys@, 0);
        }
        let (r2, _) = self.perform_all(&releases);
        proof {
            let rs = new_replies(log0, self.log@);
            let ra = new_replies(log0, log_a);
            assert(self.log@.take(log_a.len() as int) =~= log_a);
            lemma_replies_split(log0, log_a, self.log@);
            lemma_actions_trace_prefix(table, st0, presses@, keys@.len(), ra, rs);
            assert(self.log@ =~= log0 + pressed_trace(table, st0, keys@, rs).0);
        }
        match r2 {
            Ok(()) => Ok(value),
            Err(e) => Err(e),
        }
    }

    /// The generic modifier a key code stands for, if it is a modifier.
    fn as_modifier(&self, code: &KeyCode) -> (m: Option<Key>)
        ensures
            m == modifier_of(self.table(), *code),
    {
        proof {
            use_type_invariant(self);
        }
        let mut i: usize = self.normal_modifiers.len();
        assert(self.normal_modifiers@.take(i as int) =~= self.normal_modifiers@);
        while i > 0
            invariant
                i <= self.normal_modifiers@.len(),
                self.normal_modifiers@ == modifier_entries(self.table@),
                last_match(modifier_entries(self.table@), *code) == last_match(
                    self.normal_modifiers@.take(i as int),
                    *code,
                ),
            decreases i,
        {
            let entry = self.normal_modifiers[i - 1];
            let ghost prefix = self.normal_modifiers@.take(i as int);
            assert(prefix.drop_last() =~= self.normal_modifiers@.take(i - 1));
            if entry.0.same(code) {
                return Some(entry.1);
            }
            i = i - 1;
        }
        None
    }

    /// The set of currently pressed generic modifier keys.
    pub fn modifiers(&self) -> (keys: Vec<Key>)
        ensures
            keys@ == pressed_keys(self.table(), self.state().modifiers),
    {
        let mut keys: Vec<Key> = Vec::new();
        let mut i: usize = 0;
        while i < self.modifiers.len()
            invariant
                i <= self.modifiers@.len(),
                keys@ == pressed_keys(self.table@, self.modifiers@.take(i as int)),
            decreases self.modifiers@.len() - i,
        {
            assert(self.modifiers@.take(i + 1).drop_last() =~= self.modifiers@.take(i as int));
            if let Some(k) = self.as_modifier(&self.modifiers[i]) {
                if !contains_key(&keys, k) {
                    keys.push(k);
                }
            }
            i = i + 1;
        }
        assert(self.modifiers@.take(self.modifiers@.len() as int) =~= self.modifiers@);
        keys
    }

    /// Whether any *alt* key is pressed.
    pub fn alt_pressed(&self) -> (pressed: bool)
        ensures
            pressed == pressed_keys(self.table(), self.state().modifiers).contains(Key::Alt),
    {
        contains_key(&self.modifiers(), Key::Alt)
    }

    /// Whether *altgr* is pressed.
    pub fn alt_gr_pressed(&self) -> (pressed: bool)
        ensures
            pressed == pressed_keys(self.table(), self.state().modifiers).contains(Key::AltGr),
    {
        contains_key(&self.modifiers(), Key::AltGr)
    }

    /// Whether any *ctrl* key is pressed.
    pub fn ctrl_pressed(&self) -> (pressed: bool)
        ensures
            pressed == pressed_keys(self.table(), self.state().modifiers).contains(Key::Ctrl),
    {
        contains_key(&self.modifiers(), Key::Ctrl)
    }

    /// Whether any *shift* key is pressed, or *caps lock* is toggled.
    pub fn shift_pressed(&self) -> (pressed: bool)
        ensures
            pressed == shift_in_effect(self.table(), self.state()),
    {
        self.caps_lock || contains_key(&self.modifiers(), Key::Shift)
    }
}

/// The calls that send a pending dead key on its own.
fn dead_key_plan(dead_key: Option<KeyCode>) -> (plan: Vec<(KeyCode, bool)>)
    ensures
        plan@ == dead_key_calls(dead_key),
{
    let mut plan: Vec<(KeyCode, bool)> = Vec::new();
    if let Some(d) = dead_key {
        plan.push((d, true));
        plan.push((d, false));
    }
    assert(plan@ =~= dead_key_calls(dead_key));
    plan
}

/// Whether `keys` holds `key`.
fn contains_key(keys: &Vec<Key>, key: Key) -> (found: bool)
    ensures
        found == keys@.contains(key),
{
    let mut i: usize = 0;
    while i < keys.len()
        invariant
            i <= keys@.len(),
            forall|j: int| 0 <= j < i ==> keys@[j] != key,
        decreases keys@.len() - i,
    {
        if keys[i] == key {
            return true;
        }
        i = i + 1;
    }
    false
}

} // verus!
