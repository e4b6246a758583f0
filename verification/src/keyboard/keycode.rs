//! Key codes: the description of a key as the operating system sees it.

use vstd::prelude::*;
use vstd::std_specs::cmp::PartialEqSpecImpl;

use crate::keyboard::keysyms::{combining_for, compose, dead_combining, nfc_compose};
use crate::util::text::{
    char_debug, char_debug_text, concat, decimal, decimal_text, owned, str_debug, str_debug_text,
    str_eq,
};
use crate::util::Error;

verus! {

/// A `KeyCode` represents the description of a key code used by the operating
/// system.
#[derive(Clone, Copy, Debug)]
pub struct KeyCode {
    /// The virtual key code, if any.
    pub vk: Option<u32>,
    /// The character represented by this key, if any.
    pub char: Option<char>,
    /// Whether this is a dead key.
    pub is_dead: bool,
    /// The combining character associated with a dead key.
    pub combining: Option<char>,
    /// The *X* symbol name (only set by the X11 key table).
    pub symbol: Option<&'static str>,
}

/// The characters of an optional symbol name.
pub open spec fn symbol_view(s: Option<&'static str>) -> Option<Seq<char>> {
    match s {
        Some(name) => Some(name@),
        None => None,
    }
}

/// Key code equality (`==`): two character keys are equal when they hold the
/// same character and are both dead or both not; otherwise the virtual key
/// codes and symbols are compared.
pub open spec fn keycode_eq(a: KeyCode, b: KeyCode) -> bool {
    match (a.char, b.char) {
        (Some(x), Some(y)) => x == y && a.is_dead == b.is_dead,
        _ => a.vk == b.vk && symbol_view(a.symbol) == symbol_view(b.symbol),
    }
}

/// Whether two key codes are the same member of a hashed set or map: equal
/// and of equal hash. Character keys are identified by character and
/// deadness, other keys by virtual key code and symbol.
pub open spec fn keycode_same(a: KeyCode, b: KeyCode) -> bool {
    match (a.char, b.char) {
        (Some(x), Some(y)) => x == y && a.is_dead == b.is_dead,
        (None, None) => a.vk == b.vk && symbol_view(a.symbol) == symbol_view(b.symbol),
        _ => false,
    }
}

/// The key code of a virtual key.
pub open spec fn keycode_of_vk(vk: u32) -> KeyCode {
    KeyCode { vk: Some(vk), char: None, is_dead: false, combining: None, symbol: None }
}

/// The key code of a character.
pub open spec fn keycode_of_char(c: char) -> KeyCode {
    KeyCode { vk: None, char: Some(c), is_dead: false, combining: None, symbol: None }
}

/// Whether a dead key code carries its standalone character, as every dead
/// key code made by this library does.
pub open spec fn keycode_wf(k: KeyCode) -> bool {
    k.is_dead ==> k.char is Some
}

/// Whether joining `key` to `dead` is defined: a dead key without its
/// character cannot give its standalone form, which joining it with a space
/// or with an equal key asks for.
pub open spec fn join_defined(dead: KeyCode, key: KeyCode) -> bool {
    dead.is_dead && dead.char is None ==> !(key.char == Some(' ') || keycode_eq(dead, key))
}

/// The result of applying the dead key `dead` to `key`, or `None` when they
/// cannot be joined.
pub open spec fn keycode_join(dead: KeyCode, key: KeyCode) -> Option<KeyCode> {
    if !dead.is_dead {
        None
    } else if key.char == Some(' ') || keycode_eq(dead, key) {
        Some(keycode_of_char(dead.char.unwrap()))
    } else if key.char is Some && dead.combining is Some && nfc_compose(
        key.char.unwrap(),
        dead.combining.unwrap(),
    ) is Some {
        Some(keycode_of_char(nfc_compose(key.char.unwrap(), dead.combining.unwrap()).unwrap()))
    } else {
        None
    }
}

/// `Debug` text of an optional number.
pub open spec fn option_u32_debug(v: Option<u32>) -> Seq<char> {
    match v {
        Some(n) => "Some("@ + decimal_text(n as nat) + ")"@,
        None => "None"@,
    }
}

/// `Debug` text of an optional character.
pub open spec fn option_char_debug(v: Option<char>) -> Seq<char> {
    match v {
        Some(c) => "Some("@ + char_debug_text(c) + ")"@,
        None => "None"@,
    }
}

/// `Debug` text of an optional string.
pub open spec fn option_str_debug(v: Option<Seq<char>>) -> Seq<char> {
    match v {
        Some(s) => "Some("@ + str_debug_text(s) + ")"@,
        None => "None"@,
    }
}

/// `Debug` text of a boolean.
pub open spec fn bool_debug(b: bool) -> Seq<char> {
    if b {
        "true"@
    } else {
        "false"@
    }
}

/// The `Debug` text of a key code, as the derived `Debug` writes it.
pub open spec fn keycode_debug(k: KeyCode) -> Seq<char> {
    "KeyCode { vk: "@ + option_u32_debug(k.vk) + ", char: "@ + option_char_debug(k.char)
        + ", is_dead: "@ + bool_debug(k.is_dead) + ", combining: "@ + option_char_debug(
        k.combining,
    ) + ", symbol: "@ + option_str_debug(symbol_view(k.symbol)) + " }"@
}

/// The short text of a key code: `[c]` for a dead key, the quoted character
/// for a character key, `<vk>` otherwise.
pub open spec fn keycode_repr(k: KeyCode) -> Seq<char> {
    if k.is_dead {
        "["@ + char_debug_text(k.char.unwrap()) + "]"@
    } else if k.char is Some {
        char_debug_text(k.char.unwrap())
    } else {
        "<"@ + decimal_text(
            (match k.vk {
                Some(v) => v,
                None => 0u32,
            }) as nat,
        ) + ">"@
    }
}

fn symbol_eq(a: Option<&'static str>, b: Option<&'static str>) -> (equal: bool)
    ensures
        equal == (symbol_view(a) == symbol_view(b)),
{
    match (a, b) {
        (Some(x), Some(y)) => str_eq(x, y),
        (None, None) => true,
        _ => false,
    }
}

fn option_u32_eq(a: Option<u32>, b: Option<u32>) -> (equal: bool)
    ensures
        equal == (a == b),
{
    match (a, b) {
        (Some(x), Some(y)) => x == y,
        (None, None) => true,
        _ => false,
    }
}

fn option_u32_text(v: Option<u32>) -> (s: String)
    ensures
        s@ == option_u32_debug(v),
{
    match v {
        Some(n) => concat(concat(owned("Some("), decimal(n as u64).as_str()), ")"),
        None => owned("None"),
    }
}

fn option_char_text(v: Option<char>) -> (s: String)
    ensures
        s@ == option_char_debug(v),
{
    match v {
        Some(c) => concat(concat(owned("Some("), char_debug(c).as_str()), ")"),
        None => owned("None"),
    }
}

fn option_str_text(v: Option<&'static str>) -> (s: String)
    ensures
        s@ == option_str_debug(symbol_view(v)),
{
    match v {
        Some(name) => concat(concat(owned("Some("), str_debug(name).as_str()), ")"),
        None => owned("None"),
    }
}

impl KeyCode {
    /// Creates a key from a virtual key code.
    pub fn from_vk(vk: u32) -> (k: KeyCode)
        ensures
            k == keycode_of_vk(vk),
    {
        KeyCode { vk: Some(vk), char: None, is_dead: false, combining: None, symbol: None }
    }

    /// Creates a key from a character.
    pub fn from_char(c: char) -> (k: KeyCode)
        ensures
            k == keycode_of_char(c),
    {
        KeyCode { vk: None, char: Some(c), is_dead: false, combining: None, symbol: None }
    }

    /// Creates a dead key.
    ///
    /// `c` should be the standalone character representing the dead key, such
    /// as `'~'` for *COMBINING TILDE*.
    pub fn from_dead(c: char) -> (k: Result<KeyCode, Error>)
        ensures
            dead_combining(c) is Some ==> k == Ok::<KeyCode, Error>(
                KeyCode {
                    vk: None,
                    char: Some(c),
                    is_dead: true,
                    combining: dead_combining(c),
                    symbol: None,
                },
            ),
            dead_combining(c) is None ==> (k matches Err(Error::InvalidKey(m)) && m@
                == char_debug_text(c)),
    {
        match combining_for(c) {
            Some(combining) => Ok(
                KeyCode {
                    vk: None,
                    char: Some(c),
                    is_dead: true,
                    combining: Some(combining),
                    symbol: None,
                },
            ),
            None => Err(Error::InvalidKey(char_debug(c))),
        }
    }

    /// Creates a dead key that also carries a virtual key code.
    pub fn from_vk_dead(c: char, vk: u32) -> (k: Result<KeyCode, Error>)
        ensures
            dead_combining(c) is Some ==> k == Ok::<KeyCode, Error>(
                KeyCode {
                    vk: Some(vk),
                    char: Some(c),
                    is_dead: true,
                    combining: dead_combining(c),
                    symbol: None,
                },
            ),
            dead_combining(c) is None ==> (k matches Err(Error::InvalidKey(m)) && m@
                == char_debug_text(c)),
    {
        let mut k = KeyCode::from_dead(c)?;
        k.vk = Some(vk);
        Ok(k)
    }

    /// Creates a character key that also carries a virtual key code.
    pub fn from_char_vk(c: char, vk: u32) -> (k: KeyCode)
        ensures
            k == (KeyCode { vk: Some(vk), ..keycode_of_char(c) }),
    {
        let mut k = KeyCode::from_char(c);
        k.vk = Some(vk);
        k
    }

    /// Key code equality, as `==` computes it.
    pub fn equals(&self, other: &KeyCode) -> (equal: bool)
        ensures
            equal == keycode_eq(*self, *other),
    {
        match (self.char, other.char) {
            (Some(a), Some(b)) => a == b && self.is_dead == other.is_dead,
            _ => option_u32_eq(self.vk, other.vk) && symbol_eq(self.symbol, other.symbol),
        }
    }

    /// Whether two key codes are the same member of a hashed set.
    pub fn same(&self, other: &KeyCode) -> (same: bool)
        ensures
            same == keycode_same(*self, *other),
    {
        match (self.char, other.char) {
            (Some(a), Some(b)) => a == b && self.is_dead == other.is_dead,
            (None, None) => option_u32_eq(self.vk, other.vk) && symbol_eq(self.symbol, other.symbol),
            _ => false,
        }
    }

    /// The `Debug` text of this key code.
    pub fn debug_text(&self) -> (s: String)
        ensures
            s@ == keycode_debug(*self),
    {
        let s = concat(owned("KeyCode { vk: "), option_u32_text(self.vk).as_str());
        let s = concat(s, ", char: ");
        let s = concat(s, option_char_text(self.char).as_str());
        let s = concat(s, ", is_dead: ");
        let s = concat(s, if self.is_dead { "true" } else { "false" });
        let s = concat(s, ", combining: ");
        let s = concat(s, option_char_text(self.combining).as_str());
        let s = concat(s, ", symbol: ");
        let s = concat(s, option_str_text(self.symbol).as_str());
        concat(s, " }")
    }

    /// The short text of this key code, as its `Display` form writes it.
    pub fn repr(&self) -> (s: String)
        requires
            keycode_wf(*self),
        ensures
            s@ == keycode_repr(*self),
    {
        if self.is_dead {
            let c = self.char.unwrap();
            concat(concat(owned("["), char_debug(c).as_str()), "]")
        } else if let Some(c) = self.char {
            char_debug(c)
        } else {
            let vk = match self.vk {
                Some(v) => v,
                None => 0,
            };
            concat(concat(owned("<"), decimal(vk as u64).as_str()), ">")
        }
    }

    /// Applies this dead key to another key and returns the result.
    ///
    /// Joining a dead key with space (`' '`) or itself yields the non-dead
    /// version of this key.
    pub fn join(&self, key: &KeyCode) -> (joined: Result<KeyCode, Error>)
        requires
            join_defined(*self, *key),
        ensures
            keycode_join(*self, *key) matches Some(k) ==> joined == Ok::<KeyCode, Error>(k),
            keycode_join(*self, *key) is None ==> (joined matches Err(Error::InvalidKey(m)) && m@
                == keycode_debug(if self.is_dead { *key } else { *self })),
    {
        // A non-dead key cannot be joined.
        if !self.is_dead {
            return Err(Error::InvalidKey(self.debug_text()));
        }
        // Joining two of the same key codes, or joining with space, yields the
        // non-dead version of the key.
        let is_space = match key.char {
            Some(c) => c == ' ',
            None => false,
        };
        if is_space || self.equals(key) {
            return Ok(KeyCode::from_char(self.char.unwrap()));
        }
        // Otherwise we combine the characters.
        if let (Some(kc), Some(comb)) = (key.char, self.combining) {
            if let Some(combined) = compose(kc, comb) {
                return Ok(KeyCode::from_char(combined));
            }
        }
        Err(Error::InvalidKey(key.debug_text()))
    }
}

impl PartialEq for KeyCode {
    fn eq(&self, other: &Self) -> (equal: bool) {
        self.equals(other)
    }
}

impl PartialEqSpecImpl for KeyCode {
    open spec fn obeys_eq_spec() -> bool {
        true
    }

    open spec fn eq_spec(&self, other: &Self) -> bool {
        keycode_eq(*self, *other)
    }
}

impl Eq for KeyCode {}

/// What a key code is hashed by: the character and deadness of a character
/// key, the virtual key code of another key.
#[derive(Clone, Copy, Debug, PartialEq, Eq, Hash, Structural)]
pub enum HashInput {
    Char(char, bool),
    Virtual(Option<u32>),
}

/// What a key code is hashed by.
pub open spec fn hash_input_of(k: KeyCode) -> HashInput {
    match k.char {
        Some(c) => HashInput::Char(c, k.is_dead),
        None => HashInput::Virtual(k.vk),
    }
}

impl KeyCode {
    /// What the key code is hashed by.
    pub fn hash_input(&self) -> (h: HashInput)
        ensures
            h == hash_input_of(*self),
    {
        match self.char {
            Some(c) => HashInput::Char(c, self.is_dead),
            None => HashInput::Virtual(self.vk),
        }
    }
}

/// Key codes that are the same member of a key set are hashed by the same
/// value.
pub proof fn lemma_same_hash_input(a: KeyCode, b: KeyCode)
    requires
        keycode_same(a, b),
    ensures
        hash_input_of(a) == hash_input_of(b),
{
}

/// Derived `Hash::hash` of `HashInput`: feeds the value to the hasher.
/// Nothing is claimed of it.
#[verifier::external_body]
fn hash_value<H: core::hash::Hasher>(value: &HashInput, state: &mut H) {
    core::hash::Hash::hash(value, state)
}

impl core::hash::Hash for KeyCode {
    /// Hashes what the key code is hashed by (`hash_input`).
    fn hash<H: core::hash::Hasher>(&self, state: &mut H) {
        let input = self.hash_input();
        hash_value(&input, state)
    }
}

/// Key code equality is reflexive and symmetric.
pub proof fn lemma_keycode_eq_reflexive_symmetric(a: KeyCode, b: KeyCode)
    ensures
        keycode_eq(a, a),
        keycode_eq(a, b) == keycode_eq(b, a),
{
}

/// Being the same set member is an equivalence, and implies equality.
pub proof fn lemma_keycode_same_equivalence(a: KeyCode, b: KeyCode, c: KeyCode)
    ensures
        keycode_same(a, a),
        keycode_same(a, b) == keycode_same(b, a),
        keycode_same(a, b) && keycode_same(b, c) ==> keycode_same(a, c),
        keycode_same(a, b) ==> keycode_eq(a, b),
{
}

/// A dead key joined with a space, or with itself, gives its standalone
/// character as a plain key.
pub proof fn lemma_join_space_or_self(dead: KeyCode)
    requires
        dead.is_dead,
        keycode_wf(dead),
    ensures
        keycode_join(dead, keycode_of_char(' ')) == Some(keycode_of_char(dead.char.unwrap())),
        keycode_join(dead, dead) == Some(keycode_of_char(dead.char.unwrap())),
{
}

/// Only dead keys can be joined, and a joined key is never dead.
pub proof fn lemma_join_result_not_dead(dead: KeyCode, key: KeyCode)
    ensures
        !dead.is_dead ==> keycode_join(dead, key) is None,
        keycode_join(dead, key) matches Some(k) ==> !k.is_dead && k.char is Some,
{
}

/// Whether `s` holds a key code that is the same set member as `k`.
pub open spec fn contains_code(s: Seq<KeyCode>, k: KeyCode) -> bool {
    exists|i: int| 0 <= i < s.len() && keycode_same(#[trigger] s[i], k)
}

/// `s` with `k` added, unless it already holds the same member.
pub open spec fn insert_code(s: Seq<KeyCode>, k: KeyCode) -> Seq<KeyCode> {
    if contains_code(s, k) {
        s
    } else {
        s.push(k)
    }
}

/// `s` without the member that is the same as `k`.
pub open spec fn remove_code(s: Seq<KeyCode>, k: KeyCode) -> Seq<KeyCode>
    decreases s.len(),
{
    if s.len() == 0 {
        s
    } else {
        let r = remove_code(s.drop_last(), k);
        if keycode_same(s.last(), k) {
            r
        } else {
            r.push(s.last())
        }
    }
}

/// Whether `s` holds a key code that is the same member as `k`.
pub fn find_code(s: &Vec<KeyCode>, k: &KeyCode) -> (found: bool)
    ensures
        found == contains_code(s@, *k),
{
    let mut i: usize = 0;
    while i < s.len()
        invariant
            i <= s@.len(),
            forall|j: int| 0 <= j < i ==> !keycode_same(#[trigger] s@[j], *k),
        decreases s@.len() - i,
    {
        if s[i].same(k) {
            return true;
        }
        i = i + 1;
    }
    false
}

/// Removes the member that is the same as `k`.
pub fn remove_code_from(s: &Vec<KeyCode>, k: &KeyCode) -> (kept: Vec<KeyCode>)
    ensures
        kept@ == remove_code(s@, *k),
{
    let mut kept: Vec<KeyCode> = Vec::new();
    let mut i: usize = 0;
    while i < s.len()
        invariant
            i <= s@.len(),
            kept@ == remove_code(s@.take(i as int), *k),
        decreases s@.len() - i,
    {
        assert(s@.take(i + 1).drop_last() =~= s@.take(i as int));
        if !s[i].same(k) {
            kept.push(s[i]);
        }
        i = i + 1;
    }
    assert(s@.take(s@.len() as int) =~= s@);
    kept
}

} // verus!
