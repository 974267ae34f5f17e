//! Hotkeys: the text a user writes for a global shortcut ("Cmd+Shift+R") and
//! the modifiers and key it names.

use vstd::prelude::*;

use crate::text::{
    ascii_lower_char, ascii_lowercase, ascii_upper_char, ascii_uppercase, is_ascii_text,
    lemma_ascii_case, lemma_ascii_case_char, lemma_split_on_ascii, lemma_split_on_map,
    lemma_trimmed_ascii, lemma_trimmed_map, same_text, split, split_on, to_lowercase, to_uppercase,
    trim, trimmed, unicode_lowercase, unicode_uppercase,
};

verus! {

/// A key that a hotkey can name besides its modifiers.
#[derive(Clone, Copy, Debug, PartialEq, Eq, Structural)]
pub enum KeyCode {
    KeyA,
    KeyB,
    KeyC,
    KeyD,
    KeyE,
    KeyF,
    KeyG,
    KeyH,
    KeyI,
    KeyJ,
    KeyK,
    KeyL,
    KeyM,
    KeyN,
    KeyO,
    KeyP,
    KeyQ,
    KeyR,
    KeyS,
    KeyT,
    KeyU,
    KeyV,
    KeyW,
    KeyX,
    KeyY,
    KeyZ,
    Digit0,
    Digit1,
    Digit2,
    Digit3,
    Digit4,
    Digit5,
    Digit6,
    Digit7,
    Digit8,
    Digit9,
    Space,
    Enter,
    Escape,
    Tab,
    F1,
    F2,
    F3,
    F4,
    F5,
    F6,
    F7,
    F8,
    F9,
    F10,
    F11,
    F12,
}

/// A set of modifier keys.
#[derive(Clone, Copy, Debug, PartialEq, Eq, Structural)]
pub struct ModifierSet {
    /// Command (macOS), Windows key, Super.
    pub meta: bool,
    pub shift: bool,
    /// Alt, Option.
    pub alt: bool,
    pub control: bool,
}

/// A global shortcut: the modifiers that must be held, `None` where there are
/// none, and the key.
#[derive(Clone, Copy, Debug, PartialEq, Eq, Structural)]
pub struct Hotkey {
    pub modifiers: Option<ModifierSet>,
    pub key: KeyCode,
}

impl ModifierSet {
    pub open spec fn spec_none() -> ModifierSet {
        ModifierSet { meta: false, shift: false, alt: false, control: false }
    }

    pub open spec fn spec_union(self, other: ModifierSet) -> ModifierSet {
        ModifierSet {
            meta: self.meta || other.meta,
            shift: self.shift || other.shift,
            alt: self.alt || other.alt,
            control: self.control || other.control,
        }
    }

    pub open spec fn spec_is_empty(self) -> bool {
        !self.meta && !self.shift && !self.alt && !self.control
    }

    /// The empty set.
    pub fn none() -> (r: ModifierSet)
        ensures
            r == ModifierSet::spec_none(),
    {
        ModifierSet { meta: false, shift: false, alt: false, control: false }
    }

    /// The modifiers in `self` or in `other`.
    pub fn union(self, other: ModifierSet) -> (r: ModifierSet)
        ensures
            r == self.spec_union(other),
    {
        ModifierSet {
            meta: self.meta || other.meta,
            shift: self.shift || other.shift,
            alt: self.alt || other.alt,
            control: self.control || other.control,
        }
    }

    /// Whether no modifier is in the set.
    pub fn is_empty(&self) -> (r: bool)
        ensures
            r == self.spec_is_empty(),
    {
        !self.meta && !self.shift && !self.alt && !self.control
    }
}

/// The key named by one uppercase ASCII letter.
pub open spec fn letter_key(c: char) -> Option<KeyCode> {
    match c {
        'A' => Some(KeyCode::KeyA),
        'B' => Some(KeyCode::KeyB),
        'C' => Some(KeyCode::KeyC),
        'D' => Some(KeyCode::KeyD),
        'E' => Some(KeyCode::KeyE),
        'F' => Some(KeyCode::KeyF),
        'G' => Some(KeyCode::KeyG),
        'H' => Some(KeyCode::KeyH),
        'I' => Some(KeyCode::KeyI),
        'J' => Some(KeyCode::KeyJ),
        'K' => Some(KeyCode::KeyK),
        'L' => Some(KeyCode::KeyL),
        'M' => Some(KeyCode::KeyM),
        'N' => Some(KeyCode::KeyN),
        'O' => Some(KeyCode::KeyO),
        'P' => Some(KeyCode::KeyP),
        'Q' => Some(KeyCode::KeyQ),
        'R' => Some(KeyCode::KeyR),
        'S' => Some(KeyCode::KeyS),
        'T' => Some(KeyCode::KeyT),
        'U' => Some(KeyCode::KeyU),
        'V' => Some(KeyCode::KeyV),
        'W' => Some(KeyCode::KeyW),
        'X' => Some(KeyCode::KeyX),
        'Y' => Some(KeyCode::KeyY),
        'Z' => Some(KeyCode::KeyZ),
        _ => None,
    }
}

/// The key named by one ASCII digit.
pub open spec fn digit_key(c: char) -> Option<KeyCode> {
    match c {
        '0' => Some(KeyCode::Digit0),
        '1' => Some(KeyCode::Digit1),
        '2' => Some(KeyCode::Digit2),
        '3' => Some(KeyCode::Digit3),
        '4' => Some(KeyCode::Digit4),
        '5' => Some(KeyCode::Digit5),
        '6' => Some(KeyCode::Digit6),
        '7' => Some(KeyCode::Digit7),
        '8' => Some(KeyCode::Digit8),
        '9' => Some(KeyCode::Digit9),
        _ => None,
    }
}

/// The key that an uppercase key name stands for: a letter A to Z, a digit,
/// SPACE, ENTER or RETURN, ESCAPE or ESC, TAB, or F1 to F12.
pub open spec fn key_code_of(name: Seq<char>) -> Option<KeyCode> {
    if name.len() == 1 && letter_key(name[0]) is Some {
        letter_key(name[0])
    } else if name.len() == 1 && digit_key(name[0]) is Some {
        digit_key(name[0])
    } else if name == "SPACE"@ {
        Some(KeyCode::Space)
    } else if name == "ENTER"@ || name == "RETURN"@ {
        Some(KeyCode::Enter)
    } else if name == "ESCAPE"@ || name == "ESC"@ {
        Some(KeyCode::Escape)
    } else if name == "TAB"@ {
        Some(KeyCode::Tab)
    } else if name == "F1"@ {
        Some(KeyCode::F1)
    } else if name == "F2"@ {
        Some(KeyCode::F2)
    } else if name == "F3"@ {
        Some(KeyCode::F3)
    } else if name == "F4"@ {
        Some(KeyCode::F4)
    } else if name == "F5"@ {
        Some(KeyCode::F5)
    } else if name == "F6"@ {
        Some(KeyCode::F6)
    } else if name == "F7"@ {
        Some(KeyCode::F7)
    } else if name == "F8"@ {
        Some(KeyCode::F8)
    } else if name == "F9"@ {
        Some(KeyCode::F9)
    } else if name == "F10"@ {
        Some(KeyCode::F10)
    } else if name == "F11"@ {
        Some(KeyCode::F11)
    } else if name == "F12"@ {
        Some(KeyCode::F12)
    } else {
        None
    }
}

/// The modifier that a lowercase part of a hotkey names, if it names one:
/// cmd, meta, command or super; shift; alt, option or opt; ctrl or control.
pub open spec fn modifier_named(lowered: Seq<char>) -> Option<ModifierSet> {
    let none = ModifierSet::spec_none();
    if lowered == "cmd"@ || lowered == "meta"@ || lowered == "command"@ || lowered == "super"@ {
        Some(ModifierSet { meta: true, ..none })
    } else if lowered == "shift"@ {
        Some(ModifierSet { shift: true, ..none })
    } else if lowered == "alt"@ || lowered == "option"@ || lowered == "opt"@ {
        Some(ModifierSet { alt: true, ..none })
    } else if lowered == "ctrl"@ || lowered == "control"@ {
        Some(ModifierSet { control: true, ..none })
    } else {
        None
    }
}

/// The message for a key name that names no key.
pub open spec fn unknown_key_message(key: Seq<char>) -> Seq<char> {
    "Unknown key: "@ + key
}

/// What `parse_key_code` gives for `key`: the key its uppercase form names.
pub open spec fn parse_key_code_spec(key: Seq<char>) -> Result<KeyCode, Seq<char>> {
    match key_code_of(unicode_uppercase(key)) {
        Some(c) => Ok(c),
        None => Err(unknown_key_message(key)),
    }
}

/// The parts of a hotkey: the pieces between `+` signs, each trimmed.
pub open spec fn hotkey_parts(s: Seq<char>) -> Seq<Seq<char>> {
    split_on(s, '+').map_values(|p: Seq<char>| trimmed(p))
}

/// The two forms in which a part of a hotkey is compared: lowercase (with
/// the modifier names) and the uppercase of that (with the key names).
pub open spec fn part_forms(part: Seq<char>) -> (Seq<char>, Seq<char>) {
    let lowered = unicode_lowercase(part);
    (lowered, unicode_uppercase(lowered))
}

/// What reading one more part, given in its two forms, does to what was read
/// so far: a modifier joins the modifiers, a key replaces the key, anything
/// else is the error "Unknown key: " followed by its lowercase form; an
/// earlier error stays.
pub open spec fn scan_step(
    acc: Result<(ModifierSet, Option<KeyCode>), Seq<char>>,
    part: (Seq<char>, Seq<char>),
) -> Result<(ModifierSet, Option<KeyCode>), Seq<char>> {
    match acc {
        Err(e) => Err(e),
        Ok((mods, key)) => {
            let (lowered, upper) = part;
            match modifier_named(lowered) {
                Some(m) => Ok((mods.spec_union(m), key)),
                None => match key_code_of(upper) {
                    Some(c) => Ok((mods, Some(c))),
                    None => Err(unknown_key_message(lowered)),
                },
            }
        },
    }
}

/// Reads `parts` in order, starting from `start`.
pub open spec fn scan_from(
    start: Result<(ModifierSet, Option<KeyCode>), Seq<char>>,
    parts: Seq<(Seq<char>, Seq<char>)>,
) -> Result<(ModifierSet, Option<KeyCode>), Seq<char>>
    decreases parts.len(),
{
    if parts.len() == 0 {
        start
    } else {
        scan_step(scan_from(start, parts.drop_last()), parts.last())
    }
}

/// Reads the parts of a hotkey, each given in its two forms, in order:
/// modifiers are collected and the last key named is kept; the first part
/// that is neither a modifier nor a key stops the reading with its error.
pub open spec fn scan_parts(parts: Seq<(Seq<char>, Seq<char>)>) -> Result<
    (ModifierSet, Option<KeyCode>),
    Seq<char>,
> {
    scan_from(Ok((ModifierSet::spec_none(), None)), parts)
}

/// The message for a hotkey that names no key.
pub open spec fn no_key_message() -> Seq<char> {
    "No key specified in hotkey"@
}

/// The hotkey that parts, given in their two forms, make up.
pub open spec fn hotkey_from_parts_spec(parts: Seq<(Seq<char>, Seq<char>)>) -> Result<
    Hotkey,
    Seq<char>,
> {
    match scan_parts(parts) {
        Err(e) => Err(e),
        Ok((mods, None)) => Err(no_key_message()),
        Ok((mods, Some(key))) => Ok(
            Hotkey { modifiers: if mods.spec_is_empty() { None } else { Some(mods) }, key },
        ),
    }
}

/// What `parse_hotkey` gives for the text `s`.
pub open spec fn parse_hotkey_spec(s: Seq<char>) -> Result<Hotkey, Seq<char>> {
    hotkey_from_parts_spec(hotkey_parts(s).map_values(|p: Seq<char>| part_forms(p)))
}

/// The two forms of a part of ASCII text: its ASCII lowercase and the ASCII
/// uppercase of that.
pub open spec fn ascii_part_forms(part: Seq<char>) -> (Seq<char>, Seq<char>) {
    let lowered = ascii_lowercase(part);
    (lowered, ascii_uppercase(lowered))
}

/// What `parse_hotkey` gives for ASCII text `s`: the case mappings act on
/// ASCII letters alone.
pub open spec fn parse_hotkey_ascii_spec(s: Seq<char>) -> Result<Hotkey, Seq<char>> {
    hotkey_from_parts_spec(hotkey_parts(s).map_values(|p: Seq<char>| ascii_part_forms(p)))
}

/// What `parse_key_code` gives for an ASCII key name.
pub open spec fn parse_key_code_ascii_spec(key: Seq<char>) -> Result<KeyCode, Seq<char>> {
    match key_code_of(ascii_uppercase(key)) {
        Some(c) => Ok(c),
        None => Err(unknown_key_message(key)),
    }
}

/// Parts taken as their characters.
pub open spec fn parts_view(parts: Seq<(String, String)>) -> Seq<(Seq<char>, Seq<char>)> {
    parts.map_values(|p: (String, String)| (p.0@, p.1@))
}

/// A result with its error text taken by its view.
pub open spec fn result_view<T>(r: Result<T, String>) -> Result<T, Seq<char>> {
    match r {
        Ok(v) => Ok(v),
        Err(e) => Err(e@),
    }
}

fn letter_key_of(c: char) -> (r: Option<KeyCode>)
    ensures
        r == letter_key(c),
{
    match c {
        'A' => Some(KeyCode::KeyA),
        'B' => Some(KeyCode::KeyB),
        'C' => Some(KeyCode::KeyC),
        'D' => Some(KeyCode::KeyD),
        'E' => Some(KeyCode::KeyE),
        'F' => Some(KeyCode::KeyF),
        'G' => Some(KeyCode::KeyG),
        'H' => Some(KeyCode::KeyH),
        'I' => Some(KeyCode::KeyI),
        'J' => Some(KeyCode::KeyJ),
        'K' => Some(KeyCode::KeyK),
        'L' => Some(KeyCode::KeyL),
        'M' => Some(KeyCode::KeyM),
        'N' => Some(KeyCode::KeyN),
        'O' => Some(KeyCode::KeyO),
        'P' => Some(KeyCode::KeyP),
        'Q' => Some(KeyCode::KeyQ),
        'R' => Some(KeyCode::KeyR),
        'S' => Some(KeyCode::KeyS),
        'T' => Some(KeyCode::KeyT),
        'U' => Some(KeyCode::KeyU),
        'V' => Some(KeyCode::KeyV),
        'W' => Some(KeyCode::KeyW),
        'X' => Some(KeyCode::KeyX),
        'Y' => Some(KeyCode::KeyY),
        'Z' => Some(KeyCode::KeyZ),
        _ => None,
    }
}

fn digit_key_of(c: char) -> (r: Option<KeyCode>)
    ensures
        r == digit_key(c),
{
    match c {
        '0' => Some(KeyCode::Digit0),
        '1' => Some(KeyCode::Digit1),
        '2' => Some(KeyCode::Digit2),
        '3' => Some(KeyCode::Digit3),
        '4' => Some(KeyCode::Digit4),
        '5' => Some(KeyCode::Digit5),
        '6' => Some(KeyCode::Digit6),
        '7' => Some(KeyCode::Digit7),
        '8' => Some(KeyCode::Digit8),
        '9' => Some(KeyCode::Digit9),
        _ => None,
    }
}

/// The key that the uppercase key name `name` stands for, if any.
pub fn key_code_for(name: &str) -> (r: Option<KeyCode>)
    ensures
        r == key_code_of(name@),
{
    let n = name.unicode_len();
    if n == 1 {
        let c = name.get_char(0);
        let letter = letter_key_of(c);
        if letter.is_some() {
            return letter;
        }
        let digit = digit_key_of(c);
        if digit.is_some() {
            return digit;
        }
    }
    if same_text(name, "SPACE") {
        Some(KeyCode::Space)
    } else if same_text(name, "ENTER") || same_text(name, "RETURN") {
        Some(KeyCode::Enter)
    } else if same_text(name, "ESCAPE") || same_text(name, "ESC") {
        Some(KeyCode::Escape)
    } else if same_text(name, "TAB") {
        Some(KeyCode::Tab)
    } else if same_text(name, "F1") {
        Some(KeyCode::F1)
    } else if same_text(name, "F2") {
        Some(KeyCode::F2)
    } else if same_text(name, "F3") {
        Some(KeyCode::F3)
    } else if same_text(name, "F4") {
        Some(KeyCode::F4)
    } else if same_text(name, "F5") {
        Some(KeyCode::F5)
    } else if same_text(name, "F6") {
        Some(KeyCode::F6)
    } else if same_text(name, "F7") {
        Some(KeyCode::F7)
    } else if same_text(name, "F8") {
        Some(KeyCode::F8)
    } else if same_text(name, "F9") {
        Some(KeyCode::F9)
    } else if same_text(name, "F10") {
        Some(KeyCode::F10)
    } else if same_text(name, "F11") {
        Some(KeyCode::F11)
    } else if same_text(name, "F12") {
        Some(KeyCode::F12)
    } else {
        None
    }
}

/// The modifier that the lowercase hotkey part `lowered` names, if any.
pub fn modifier_for(lowered: &str) -> (r: Option<ModifierSet>)
    ensures
        r == modifier_named(lowered@),
{
    let none = ModifierSet::none();
    if same_text(lowered, "cmd") || same_text(lowered, "meta") || same_text(lowered, "command")
        || same_text(lowered, "super") {
        Some(ModifierSet { meta: true, ..none })
    } else if same_text(lowered, "shift") {
        Some(ModifierSet { shift: true, ..none })
    } else if same_text(lowered, "alt") || same_text(lowered, "option") || same_text(lowered, "opt") {
        Some(ModifierSet { alt: true, ..none })
    } else if same_text(lowered, "ctrl") || same_text(lowered, "control") {
        Some(ModifierSet { control: true, ..none })
    } else {
        None
    }
}

/// The key that `key` names, compared in uppercase; an unknown name gives
/// "Unknown key: " followed by `key` as written.
pub fn parse_key_code(key: &str) -> (r: Result<KeyCode, String>)
    ensures
        result_view(r) == parse_key_code_spec(key@),
        is_ascii_text(key@) ==> result_view(r) == parse_key_code_ascii_spec(key@),
{
    let upper = to_uppercase(key);
    match key_code_for(upper.as_str()) {
        Some(c) => Ok(c),
        None => {
            let mut msg = String::from_str("Unknown key: ");
            msg.append(key);
            Err(msg)
        },
    }
}

/// The hotkey that `parts` make up, each part given as its lowercase form
/// and the uppercase of that: modifiers are collected, the last key named is
/// the key, a part that is neither gives "Unknown key: " followed by its
/// lowercase form, and parts without any key give
/// "No key specified in hotkey".
pub fn hotkey_from_parts(parts: &Vec<(String, String)>) -> (r: Result<Hotkey, String>)
    ensures
        result_view(r) == hotkey_from_parts_spec(parts_view(parts@)),
{
    let ghost all = parts_view(parts@);
    let mut mods = ModifierSet::none();
    let mut key: Option<KeyCode> = None;
    let mut i: usize = 0;
    proof {
        assert(all.take(0) =~= Seq::<(Seq<char>, Seq<char>)>::empty());
    }
    while i < parts.len()
        invariant
            i <= parts@.len(),
            all == parts_view(parts@),
            all.len() == parts@.len(),
            scan_parts(all.take(i as int)) == Ok::<(ModifierSet, Option<KeyCode>), Seq<char>>(
                (mods, key),
            ),
        decreases parts@.len() - i,
    {
        let (lowered, upper) = &parts[i];
        proof {
            assert(all[i as int] == (lowered@, upper@));
            assert(all.take(i + 1).drop_last() =~= all.take(i as int));
            assert(all.take(i + 1).last() == (lowered@, upper@));
        }
        match modifier_for(lowered.as_str()) {
            Some(m) => {
                mods = mods.union(m);
            },
            None => {
                match key_code_for(upper.as_str()) {
                    Some(c) => {
                        key = Some(c);
                    },
                    None => {
                        proof {
                            lemma_scan_parts_error_sticks(all, i as int + 1);
                        }
                        let mut msg = String::from_str("Unknown key: ");
                        msg.append(lowered.as_str());
                        return Err(msg);
                    },
                }
            },
        }
        i = i + 1;
    }
    proof {
        assert(all.take(i as int) =~= all);
    }
    match key {
        Some(k) => {
            let modifiers = if mods.is_empty() {
                None
            } else {
                Some(mods)
            };
            Ok(Hotkey { modifiers, key: k })
        },
        None => Err(String::from_str("No key specified in hotkey")),
    }
}

/// Once reading the parts fails, reading more parts fails with the same error.
pub proof fn lemma_scan_parts_error_sticks(parts: Seq<(Seq<char>, Seq<char>)>, n: int)
    requires
        0 <= n <= parts.len(),
        scan_parts(parts.take(n)) is Err,
    ensures
        scan_parts(parts) == scan_parts(parts.take(n)),
    decreases parts.len() - n,
{
    if n < parts.len() {
        assert(parts.take(n + 1).drop_last() =~= parts.take(n));
        lemma_scan_parts_error_sticks(parts, n + 1);
    } else {
        assert(parts.take(n) =~= parts);
    }
}

/// Reading `first` and then `rest` is reading `first + rest`.
pub proof fn lemma_scan_from_append(
    start: Result<(ModifierSet, Option<KeyCode>), Seq<char>>,
    first: Seq<(Seq<char>, Seq<char>)>,
    rest: Seq<(Seq<char>, Seq<char>)>,
)
    ensures
        scan_from(start, first + rest) == scan_from(scan_from(start, first), rest),
    decreases rest.len(),
{
    if rest.len() == 0 {
        assert(first + rest =~= first);
    } else {
        assert((first + rest).drop_last() =~= first + rest.drop_last());
        lemma_scan_from_append(start, first, rest.drop_last());
    }
}

/// Reading two neighbouring parts of which one names a modifier gives the
/// same in either order.
pub proof fn lemma_scan_step_swap(
    acc: Result<(ModifierSet, Option<KeyCode>), Seq<char>>,
    p: (Seq<char>, Seq<char>),
    q: (Seq<char>, Seq<char>),
)
    requires
        modifier_named(p.0) is Some || modifier_named(q.0) is Some,
    ensures
        scan_step(scan_step(acc, p), q) == scan_step(scan_step(acc, q), p),
{
    if let Ok((m, k)) = acc {
        if modifier_named(p.0) is Some && modifier_named(q.0) is Some {
            let a = modifier_named(p.0)->0;
            let b = modifier_named(q.0)->0;
            assert(m.spec_union(a).spec_union(b) == m.spec_union(b).spec_union(a));
        }
    }
}

/// The order of the parts does not matter where a modifier is involved:
/// swapping two neighbouring parts of which at least one names a modifier
/// gives the same hotkey, or the same error.
pub proof fn law_swap_next_to_modifier(
    before: Seq<(Seq<char>, Seq<char>)>,
    p: (Seq<char>, Seq<char>),
    q: (Seq<char>, Seq<char>),
    after: Seq<(Seq<char>, Seq<char>)>,
)
    requires
        modifier_named(p.0) is Some || modifier_named(q.0) is Some,
    ensures
        hotkey_from_parts_spec(before + seq![p, q] + after) == hotkey_from_parts_spec(
            before + seq![q, p] + after,
        ),
{
    let start = Ok::<(ModifierSet, Option<KeyCode>), Seq<char>>((ModifierSet::spec_none(), None));
    lemma_scan_from_append(start, before + seq![p, q], after);
    lemma_scan_from_append(start, before + seq![q, p], after);
    lemma_scan_from_append(start, before, seq![p, q]);
    lemma_scan_from_append(start, before, seq![q, p]);
    let mid = scan_from(start, before);
    assert(seq![p, q].drop_last() =~= seq![p]);
    assert(seq![q, p].drop_last() =~= seq![q]);
    assert(seq![p].drop_last() =~= Seq::<(Seq<char>, Seq<char>)>::empty());
    assert(seq![q].drop_last() =~= Seq::<(Seq<char>, Seq<char>)>::empty());
    assert(seq![p, q].last() == q);
    assert(seq![q, p].last() == p);
    assert(seq![p].last() == p);
    assert(seq![q].last() == q);
    assert(scan_from(mid, Seq::<(Seq<char>, Seq<char>)>::empty()) == mid);
    assert(scan_from(mid, seq![p]) == scan_step(mid, p));
    assert(scan_from(mid, seq![q]) == scan_step(mid, q));
    lemma_scan_step_swap(mid, p, q);
    assert(scan_from(mid, seq![p, q]) == scan_from(mid, seq![q, p]));
}

/// Where the key is written among modifiers does not matter: moving a part
/// past any number of modifier parts that follow it, to the end, gives the
/// same hotkey, or the same error.
pub proof fn law_key_position_irrelevant(
    before: Seq<(Seq<char>, Seq<char>)>,
    key: (Seq<char>, Seq<char>),
    modifiers: Seq<(Seq<char>, Seq<char>)>,
)
    requires
        forall|i: int| 0 <= i < modifiers.len() ==> modifier_named((#[trigger] modifiers[i]).0) is Some,
    ensures
        hotkey_from_parts_spec(before + seq![key] + modifiers) == hotkey_from_parts_spec(
            before + modifiers + seq![key],
        ),
    decreases modifiers.len(),
{
    if modifiers.len() == 0 {
        assert(before + seq![key] + modifiers =~= before + modifiers + seq![key]);
    } else {
        let m = modifiers[0];
        let rest = modifiers.drop_first();
        assert(before + seq![key] + modifiers =~= before + seq![key, m] + rest);
        law_swap_next_to_modifier(before, key, m, rest);
        assert(before + seq![m, key] + rest =~= before.push(m) + seq![key] + rest);
        assert forall|i: int| 0 <= i < rest.len() implies modifier_named((#[trigger] rest[i]).0) is Some by {
            assert(rest[i] == modifiers[i + 1]);
        }
        law_key_position_irrelevant(before.push(m), key, rest);
        assert(before.push(m) + rest + seq![key] =~= before + modifiers + seq![key]);
    }
}

/// Naming a modifier twice is naming it once.
pub proof fn law_repeated_modifier_harmless(
    before: Seq<(Seq<char>, Seq<char>)>,
    p: (Seq<char>, Seq<char>),
    after: Seq<(Seq<char>, Seq<char>)>,
)
    requires
        modifier_named(p.0) is Some,
    ensures
        hotkey_from_parts_spec(before + seq![p, p] + after) == hotkey_from_parts_spec(
            before + seq![p] + after,
        ),
{
    let start = Ok::<(ModifierSet, Option<KeyCode>), Seq<char>>((ModifierSet::spec_none(), None));
    lemma_scan_from_append(start, before + seq![p, p], after);
    lemma_scan_from_append(start, before + seq![p], after);
    lemma_scan_from_append(start, before, seq![p, p]);
    lemma_scan_from_append(start, before, seq![p]);
    let mid = scan_from(start, before);
    assert(seq![p, p].drop_last() =~= seq![p]);
    assert(seq![p].drop_last() =~= Seq::<(Seq<char>, Seq<char>)>::empty());
    assert(scan_from(mid, seq![p, p]) == scan_from(mid, seq![p]));
}

/// Reads a hotkey such as "Cmd+Shift+R": its `+`-separated parts, trimmed,
/// name modifiers (compared in lowercase) or a key (compared in uppercase);
/// see `hotkey_from_parts` for what they make up.
pub fn parse_hotkey(hotkey_str: &str) -> (r: Result<Hotkey, String>)
    ensures
        result_view(r) == parse_hotkey_spec(hotkey_str@),
        is_ascii_text(hotkey_str@) ==> result_view(r) == parse_hotkey_ascii_spec(hotkey_str@),
{
    let pieces = split(hotkey_str, '+');
    let ghost all = hotkey_parts(hotkey_str@);
    let mut parts: Vec<(String, String)> = Vec::new();
    let mut i: usize = 0;
    while i < pieces.len()
        invariant
            i <= pieces@.len(),
            all == hotkey_parts(hotkey_str@),
            all.len() == pieces@.len(),
            pieces@.map_values(|p: String| p@) == split_on(hotkey_str@, '+'),
            parts_view(parts@) == all.take(i as int).map_values(|p: Seq<char>| part_forms(p)),
            is_ascii_text(hotkey_str@) ==> parts_view(parts@) == all.take(i as int).map_values(
                |p: Seq<char>| ascii_part_forms(p),
            ),
        decreases pieces@.len() - i,
    {
        let part = trim(pieces[i].as_str());
        proof {
            assert(pieces@.map_values(|p: String| p@)[i as int] == pieces@[i as int]@);
            assert(all[i as int] == part@);
        }
        proof {
            if is_ascii_text(hotkey_str@) {
                lemma_split_on_ascii(hotkey_str@, '+');
                assert(is_ascii_text(split_on(hotkey_str@, '+')[i as int]));
                lemma_trimmed_ascii(split_on(hotkey_str@, '+')[i as int]);
                lemma_ascii_case(part@);
            }
        }
        let lowered = to_lowercase(part);
        let upper = to_uppercase(lowered.as_str());
        let ghost before = parts_view(parts@);
        parts.push((lowered, upper));
        proof {
            if is_ascii_text(hotkey_str@) {
                assert(parts_view(parts@) =~= before.push(ascii_part_forms(part@)));
                assert(all.take(i + 1).map_values(|p: Seq<char>| ascii_part_forms(p)) =~= all.take(
                    i as int,
                ).map_values(|p: Seq<char>| ascii_part_forms(p)).push(ascii_part_forms(part@)));
            }
            assert(parts_view(parts@) =~= before.push(part_forms(part@)));
            assert(all.take(i + 1) =~= all.take(i as int).push(part@));
            assert(all.take(i + 1).map_values(|p: Seq<char>| part_forms(p)) =~= all.take(
                i as int,
            ).map_values(|p: Seq<char>| part_forms(p)).push(part_forms(part@)));
        }
        i = i + 1;
    }
    proof {
        assert(all.take(i as int) =~= all);
    }
    hotkey_from_parts(&parts)
}

/// The hotkey that stands in for one that cannot be read: Cmd+Shift+R.
pub open spec fn fallback_hotkey_spec() -> Hotkey {
    Hotkey {
        modifiers: Some(ModifierSet { meta: true, shift: true, alt: false, control: false }),
        key: KeyCode::KeyR,
    }
}

/// Cmd+Shift+R, the hotkey used when the configured one cannot be read.
pub fn fallback_hotkey() -> (r: Hotkey)
    ensures
        r == fallback_hotkey_spec(),
{
    Hotkey {
        modifiers: Some(ModifierSet { meta: true, shift: true, alt: false, control: false }),
        key: KeyCode::KeyR,
    }
}

/// The configured hotkey, or Cmd+Shift+R where it cannot be read.
pub fn hotkey_or_fallback(hotkey_str: &str) -> (r: Hotkey)
    ensures
        r == match parse_hotkey_spec(hotkey_str@) {
            Ok(h) => h,
            Err(_) => fallback_hotkey_spec(),
        },
{
    match parse_hotkey(hotkey_str) {
        Ok(h) => h,
        Err(_) => fallback_hotkey(),
    }
}

/// Two key names that give the same key are the same name, or synonyms:
/// ENTER and RETURN, ESCAPE and ESC.
pub open spec fn same_or_synonym(a: Seq<char>, b: Seq<char>) -> bool {
    ||| a == b
    ||| (a == "ENTER"@ || a == "RETURN"@) && (b == "ENTER"@ || b == "RETURN"@)
    ||| (a == "ESCAPE"@ || a == "ESC"@) && (b == "ESCAPE"@ || b == "ESC"@)
}

/// A key has no names but its own and its synonyms: two uppercase names that
/// name the same key are equal, or are ENTER and RETURN, or ESCAPE and ESC.
pub proof fn law_key_names_unique(a: Seq<char>, b: Seq<char>)
    requires
        key_code_of(a) is Some,
        key_code_of(a) == key_code_of(b),
    ensures
        same_or_synonym(a, b),
{
    if a.len() == 1 && b.len() == 1 {
        assert(a =~= seq![a[0]]);
        assert(b =~= seq![b[0]]);
    }
}

/// `parse_key_code` gives a key for two names only if their uppercase forms
/// are equal or synonyms.
pub proof fn law_parse_key_code_names(a: Seq<char>, b: Seq<char>, c: KeyCode)
    requires
        parse_key_code_spec(a) == Ok::<KeyCode, Seq<char>>(c),
        parse_key_code_spec(b) == Ok::<KeyCode, Seq<char>>(c),
    ensures
        same_or_synonym(unicode_uppercase(a), unicode_uppercase(b)),
{
    law_key_names_unique(unicode_uppercase(a), unicode_uppercase(b));
}

/// The parts of ASCII text in another case are the parts in that case.
proof fn lemma_hotkey_parts_case(s: Seq<char>, f: spec_fn(char) -> char)
    requires
        forall|c: char| (#[trigger] f(c) == '+') == (c == '+'),
        forall|c: char| crate::text::is_white_space(#[trigger] f(c)) == crate::text::is_white_space(c),
    ensures
        hotkey_parts(s.map_values(f)) == hotkey_parts(s).map_values(|p: Seq<char>| p.map_values(f)),
{
    lemma_split_on_map(s, '+', f);
    let pieces = split_on(s, '+');
    assert forall|k: int| 0 <= k < pieces.len() implies trimmed(
        #[trigger] pieces[k].map_values(f),
    ) == trimmed(pieces[k]).map_values(f) by {
        lemma_trimmed_map(pieces[k], f);
    }
    assert(hotkey_parts(s.map_values(f)) =~= hotkey_parts(s).map_values(
        |p: Seq<char>| p.map_values(f),
    ));
}

/// Hotkey text in ASCII reads the same in any letter case: uppercasing or
/// lowercasing it gives the same hotkey, or the same error.
pub proof fn law_hotkey_ascii_case_insensitive(s: Seq<char>)
    requires
        is_ascii_text(s),
    ensures
        is_ascii_text(ascii_uppercase(s)),
        is_ascii_text(ascii_lowercase(s)),
        parse_hotkey_ascii_spec(ascii_uppercase(s)) == parse_hotkey_ascii_spec(s),
        parse_hotkey_ascii_spec(ascii_lowercase(s)) == parse_hotkey_ascii_spec(s),
{
    lemma_ascii_case(s);
    let up = |c: char| ascii_upper_char(c);
    let low = |c: char| ascii_lower_char(c);
    assert forall|c: char| (#[trigger] up(c) == '+') == (c == '+') && crate::text::is_white_space(
        up(c),
    ) == crate::text::is_white_space(c) && (low(c) == '+') == (c == '+')
        && crate::text::is_white_space(low(c)) == crate::text::is_white_space(c) by {
        lemma_ascii_case_char(c);
    }
    assert forall|c: char| (#[trigger] low(c) == '+') == (c == '+') by {
        lemma_ascii_case_char(c);
    }
    assert forall|c: char| crate::text::is_white_space(#[trigger] low(c)) == crate::text::is_white_space(c) by {
        lemma_ascii_case_char(c);
    }
    assert forall|c: char| crate::text::is_white_space(#[trigger] up(c)) == crate::text::is_white_space(c) by {
        lemma_ascii_case_char(c);
    }
    assert(ascii_uppercase(s) =~= s.map_values(up));
    assert(ascii_lowercase(s) =~= s.map_values(low));
    lemma_hotkey_parts_case(s, up);
    lemma_hotkey_parts_case(s, low);
    let parts = hotkey_parts(s);
    assert forall|k: int| 0 <= k < parts.len() implies ascii_part_forms(
        #[trigger] parts[k].map_values(up),
    ) == ascii_part_forms(parts[k]) && ascii_part_forms(parts[k].map_values(low))
        == ascii_part_forms(parts[k]) by {
        lemma_ascii_case(parts[k]);
        assert(parts[k].map_values(up) =~= ascii_uppercase(parts[k]));
        assert(parts[k].map_values(low) =~= ascii_lowercase(parts[k]));
        lemma_ascii_case(ascii_lowercase(parts[k]));
    }
    assert(hotkey_parts(ascii_uppercase(s)).map_values(|p: Seq<char>| ascii_part_forms(p))
        =~= parts.map_values(|p: Seq<char>| ascii_part_forms(p)));
    assert(hotkey_parts(ascii_lowercase(s)).map_values(|p: Seq<char>| ascii_part_forms(p))
        =~= parts.map_values(|p: Seq<char>| ascii_part_forms(p)));
}

/// The position of a letter key in the alphabet, counted from 0 for A, in
/// the order in which the keys are declared.
pub open spec fn letter_index(k: KeyCode) -> Option<int> {
    match k {
        KeyCode::KeyA => Some(0),
        KeyCode::KeyB => Some(1),
        KeyCode::KeyC => Some(2),
        KeyCode::KeyD => Some(3),
        KeyCode::KeyE => Some(4),
        KeyCode::KeyF => Some(5),
        KeyCode::KeyG => Some(6),
        KeyCode::KeyH => Some(7),
        KeyCode::KeyI => Some(8),
        KeyCode::KeyJ => Some(9),
        KeyCode::KeyK => Some(10),
        KeyCode::KeyL => Some(11),
        KeyCode::KeyM => Some(12),
        KeyCode::KeyN => Some(13),
        KeyCode::KeyO => Some(14),
        KeyCode::KeyP => Some(15),
        KeyCode::KeyQ => Some(16),
        KeyCode::KeyR => Some(17),
        KeyCode::KeyS => Some(18),
        KeyCode::KeyT => Some(19),
        KeyCode::KeyU => Some(20),
        KeyCode::KeyV => Some(21),
        KeyCode::KeyW => Some(22),
        KeyCode::KeyX => Some(23),
        KeyCode::KeyY => Some(24),
        KeyCode::KeyZ => Some(25),
        _ => None,
    }
}

/// The digit of a digit key.
pub open spec fn digit_value(k: KeyCode) -> Option<int> {
    match k {
        KeyCode::Digit0 => Some(0),
        KeyCode::Digit1 => Some(1),
        KeyCode::Digit2 => Some(2),
        KeyCode::Digit3 => Some(3),
        KeyCode::Digit4 => Some(4),
        KeyCode::Digit5 => Some(5),
        KeyCode::Digit6 => Some(6),
        KeyCode::Digit7 => Some(7),
        KeyCode::Digit8 => Some(8),
        KeyCode::Digit9 => Some(9),
        _ => None,
    }
}

/// The number of a function key.
pub open spec fn function_key_number(k: KeyCode) -> Option<int> {
    match k {
        KeyCode::F1 => Some(1),
        KeyCode::F2 => Some(2),
        KeyCode::F3 => Some(3),
        KeyCode::F4 => Some(4),
        KeyCode::F5 => Some(5),
        KeyCode::F6 => Some(6),
        KeyCode::F7 => Some(7),
        KeyCode::F8 => Some(8),
        KeyCode::F9 => Some(9),
        KeyCode::F10 => Some(10),
        KeyCode::F11 => Some(11),
        KeyCode::F12 => Some(12),
        _ => None,
    }
}

/// The name of function key `n`: `F` followed by `n` in decimal.
pub open spec fn function_key_name(n: int) -> Seq<char> {
    if n < 10 {
        seq!['F', ((48 + n) as u32) as char]
    } else {
        seq!['F', '1', ((38 + n) as u32) as char]
    }
}

/// Each letter names its own key, in either case: the one-letter key name
/// `c` gives the letter key at the position of `c` in the alphabet.
pub proof fn law_letter_keys(c: char)
    requires
        65 <= (c as u32) <= 90 || 97 <= (c as u32) <= 122,
    ensures
        parse_key_code_ascii_spec(seq![c]) matches Ok(k) && letter_index(k) == Some(
            (ascii_upper_char(c) as u32) - 65,
        ),
{
    lemma_ascii_case_char(c);
    let u = ascii_upper_char(c);
    assert(ascii_uppercase(seq![c]) =~= seq![u]);
    assert(seq![u][0] == u);
    let code = (u as u32) - 65;
    assert(0 <= code < 26);
}

/// Each digit names its own key: the one-digit key name `c` gives the key of
/// that digit.
pub proof fn law_digit_keys(c: char)
    requires
        48 <= (c as u32) <= 57,
    ensures
        parse_key_code_ascii_spec(seq![c]) matches Ok(k) && digit_value(k) == Some((c as u32) - 48),
{
    lemma_ascii_case_char(c);
    assert(ascii_upper_char(c) == c);
    assert(ascii_uppercase(seq![c]) =~= seq![c]);
    assert(seq![c][0] == c);
}

/// Each function key from F1 to F12 is named by `F` and its number.
pub proof fn law_function_keys(n: int)
    requires
        1 <= n <= 12,
    ensures
        key_code_of(function_key_name(n)) matches Some(k) && function_key_number(k) == Some(n),
{
    let name = function_key_name(n);
    reveal_strlit("SPACE");
    reveal_strlit("ENTER");
    reveal_strlit("RETURN");
    reveal_strlit("ESCAPE");
    reveal_strlit("ESC");
    reveal_strlit("TAB");
    assert(name[0] == 'F');
    assert("SPACE"@[0] != 'F');
    assert("ENTER"@[0] != 'F');
    assert("RETURN"@[0] != 'F');
    assert("ESCAPE"@[0] != 'F');
    assert("ESC"@[0] != 'F');
    assert("TAB"@[0] != 'F');
    reveal_strlit("F1");
    reveal_strlit("F2");
    reveal_strlit("F3");
    reveal_strlit("F4");
    reveal_strlit("F5");
    reveal_strlit("F6");
    reveal_strlit("F7");
    reveal_strlit("F8");
    reveal_strlit("F9");
    reveal_strlit("F10");
    reveal_strlit("F11");
    reveal_strlit("F12");
    if n == 1 {
        assert(name =~= "F1"@);
    } else if n == 2 {
        assert(name =~= "F2"@);
        assert("F1"@[1] != name[1]);
    } else if n == 3 {
        assert(name =~= "F3"@);
        assert("F1"@[1] != name[1]);
        assert("F2"@[1] != name[1]);
    } else if n == 4 {
        assert(name =~= "F4"@);
        assert("F1"@[1] != name[1]);
        assert("F2"@[1] != name[1]);
        assert("F3"@[1] != name[1]);
    } else if n == 5 {
        assert(name =~= "F5"@);
        assert("F1"@[1] != name[1]);
        assert("F2"@[1] != name[1]);
        assert("F3"@[1] != name[1]);
        assert("F4"@[1] != name[1]);
    } else if n == 6 {
        assert(name =~= "F6"@);
        assert("F1"@[1] != name[1]);
        assert("F2"@[1] != name[1]);
        assert("F3"@[1] != name[1]);
        assert("F4"@[1] != name[1]);
        assert("F5"@[1] != name[1]);
    } else if n == 7 {
        assert(name =~= "F7"@);
        assert("F1"@[1] != name[1]);
        assert("F2"@[1] != name[1]);
        assert("F3"@[1] != name[1]);
        assert("F4"@[1] != name[1]);
        assert("F5"@[1] != name[1]);
        assert("F6"@[1] != name[1]);
    } else if n == 8 {
        assert(name =~= "F8"@);
        assert("F1"@[1] != name[1]);
        assert("F2"@[1] != name[1]);
        assert("F3"@[1] != name[1]);
        assert("F4"@[1] != name[1]);
        assert("F5"@[1] != name[1]);
        assert("F6"@[1] != name[1]);
        assert("F7"@[1] != name[1]);
    } else if n == 9 {
        assert(name =~= "F9"@);
        assert("F1"@[1] != name[1]);
        assert("F2"@[1] != name[1]);
        assert("F3"@[1] != name[1]);
        assert("F4"@[1] != name[1]);
        assert("F5"@[1] != name[1]);
        assert("F6"@[1] != name[1]);
        assert("F7"@[1] != name[1]);
        assert("F8"@[1] != name[1]);
    } else if n == 10 {
        assert(name =~= "F10"@);
        assert("F1"@.len() != name.len());
        assert("F2"@.len() != name.len());
        assert("F3"@.len() != name.len());
        assert("F4"@.len() != name.len());
        assert("F5"@.len() != name.len());
        assert("F6"@.len() != name.len());
        assert("F7"@.len() != name.len());
        assert("F8"@.len() != name.len());
        assert("F9"@.len() != name.len());
    } else if n == 11 {
        assert(name =~= "F11"@);
        assert("F1"@.len() != name.len());
        assert("F2"@.len() != name.len());
        assert("F3"@.len() != name.len());
        assert("F4"@.len() != name.len());
        assert("F5"@.len() != name.len());
        assert("F6"@.len() != name.len());
        assert("F7"@.len() != name.len());
        assert("F8"@.len() != name.len());
        assert("F9"@.len() != name.len());
        assert("F10"@[2] != name[2]);
    } else if n == 12 {
        assert(name =~= "F12"@);
        assert("F1"@.len() != name.len());
        assert("F2"@.len() != name.len());
        assert("F3"@.len() != name.len());
        assert("F4"@.len() != name.len());
        assert("F5"@.len() != name.len());
        assert("F6"@.len() != name.len());
        assert("F7"@.len() != name.len());
        assert("F8"@.len() != name.len());
        assert("F9"@.len() != name.len());
        assert("F10"@[2] != name[2]);
        assert("F11"@[2] != name[2]);
    }
}

/// The keys named by words: SPACE, ENTER and RETURN, ESCAPE and ESC, TAB.
pub proof fn law_named_keys()
    ensures
        key_code_of("SPACE"@) == Some(KeyCode::Space),
        key_code_of("ENTER"@) == Some(KeyCode::Enter),
        key_code_of("RETURN"@) == Some(KeyCode::Enter),
        key_code_of("ESCAPE"@) == Some(KeyCode::Escape),
        key_code_of("ESC"@) == Some(KeyCode::Escape),
        key_code_of("TAB"@) == Some(KeyCode::Tab),
{
    reveal_strlit("SPACE");
    assert("SPACE"@ =~= seq!['S', 'P', 'A', 'C', 'E']);
    reveal_strlit("ENTER");
    assert("ENTER"@ =~= seq!['E', 'N', 'T', 'E', 'R']);
    reveal_strlit("RETURN");
    assert("RETURN"@ =~= seq!['R', 'E', 'T', 'U', 'R', 'N']);
    reveal_strlit("ESCAPE");
    assert("ESCAPE"@ =~= seq!['E', 'S', 'C', 'A', 'P', 'E']);
    reveal_strlit("ESC");
    assert("ESC"@ =~= seq!['E', 'S', 'C']);
    reveal_strlit("TAB");
    assert("TAB"@ =~= seq!['T', 'A', 'B']);
}

/// The modifier names: cmd, meta, command and super name Command (meta);
/// shift names Shift; alt, option and opt name Alt; ctrl and control name
/// Control; each names that one modifier alone.
pub proof fn law_modifier_names()
    ensures
        modifier_named("cmd"@) == Some(ModifierSet { meta: true, shift: false, alt: false, control: false }),
        modifier_named("meta"@) == Some(ModifierSet { meta: true, shift: false, alt: false, control: false }),
        modifier_named("command"@) == Some(ModifierSet { meta: true, shift: false, alt: false, control: false }),
        modifier_named("super"@) == Some(ModifierSet { meta: true, shift: false, alt: false, control: false }),
        modifier_named("shift"@) == Some(ModifierSet { meta: false, shift: true, alt: false, control: false }),
        modifier_named("alt"@) == Some(ModifierSet { meta: false, shift: false, alt: true, control: false }),
        modifier_named("option"@) == Some(ModifierSet { meta: false, shift: false, alt: true, control: false }),
        modifier_named("opt"@) == Some(ModifierSet { meta: false, shift: false, alt: true, control: false }),
        modifier_named("ctrl"@) == Some(ModifierSet { meta: false, shift: false, alt: false, control: true }),
        modifier_named("control"@) == Some(ModifierSet { meta: false, shift: false, alt: false, control: true }),
{
    reveal_strlit("cmd");
    assert("cmd"@ =~= seq!['c', 'm', 'd']);
    reveal_strlit("meta");
    assert("meta"@ =~= seq!['m', 'e', 't', 'a']);
    reveal_strlit("command");
    assert("command"@ =~= seq!['c', 'o', 'm', 'm', 'a', 'n', 'd']);
    reveal_strlit("super");
    assert("super"@ =~= seq!['s', 'u', 'p', 'e', 'r']);
    reveal_strlit("shift");
    assert("shift"@ =~= seq!['s', 'h', 'i', 'f', 't']);
    reveal_strlit("alt");
    assert("alt"@ =~= seq!['a', 'l', 't']);
    reveal_strlit("option");
    assert("option"@ =~= seq!['o', 'p', 't', 'i', 'o', 'n']);
    reveal_strlit("opt");
    assert("opt"@ =~= seq!['o', 'p', 't']);
    reveal_strlit("ctrl");
    assert("ctrl"@ =~= seq!['c', 't', 'r', 'l']);
    reveal_strlit("control");
    assert("control"@ =~= seq!['c', 'o', 'n', 't', 'r', 'o', 'l']);
}

/// An ASCII key name that names a key names it in any letter case.
pub proof fn law_key_code_ascii_case_insensitive(key: Seq<char>)
    requires
        is_ascii_text(key),
        parse_key_code_ascii_spec(key) is Ok,
    ensures
        is_ascii_text(ascii_uppercase(key)),
        is_ascii_text(ascii_lowercase(key)),
        parse_key_code_ascii_spec(ascii_uppercase(key)) == parse_key_code_ascii_spec(key),
        parse_key_code_ascii_spec(ascii_lowercase(key)) == parse_key_code_ascii_spec(key),
{
    lemma_ascii_case(key);
}

} // verus!
