//! Keyboard shortcuts: what they are called, how they are written, and
//! what each of them does.

use vstd::prelude::*;
use vstd::string::*;
use std::collections::HashMap;

verus! {

/// What a shortcut asks for.
#[derive(Clone, Copy, Debug, PartialEq, Eq)]
pub enum HotkeyAction {
    StartPauseBroadcast,
    StartStopRecording,
    LockUnlockScreen,
    ToggleAnnotation,
    QuickCaptureSelection,
    EndSession,
    SwitchMonitor,
}

/// The letter keys that shortcuts use.
#[derive(Clone, Copy, Debug, PartialEq, Eq)]
pub enum HotkeyKey {
    B,
    R,
    L,
    A,
    S,
    Q,
    M,
}

/// A shortcut: a letter key and the modifiers held with it.
#[derive(Clone, Copy, Debug, PartialEq, Eq)]
pub struct KeyCombination {
    pub ctrl: bool,
    pub shift: bool,
    pub key: HotkeyKey,
}

/// Why a text is no shortcut.
#[derive(Clone, Copy, Debug, PartialEq, Eq)]
pub enum HotkeyError {
    /// A part is neither a modifier nor a key, or no part is a key.
    InvalidKeyCombination,
}

/// One part of a written shortcut.
#[derive(Clone, Copy, Debug, PartialEq, Eq)]
pub enum KeyPart {
    Ctrl,
    Shift,
    Key(HotkeyKey),
}

/// What has been read of a shortcut so far.
pub struct Partial {
    pub ctrl: bool,
    pub shift: bool,
    pub key: Option<HotkeyKey>,
}

/// A shortcut as the menu shows it.
#[derive(Clone, Copy, Debug, PartialEq, Eq)]
pub struct Shortcut {
    pub name: &'static str,
    pub key_combination: &'static str,
}

/// Whether a character is white space.
pub open spec fn is_space(c: char) -> bool {
    let u = c as u32;
    (0x9 <= u <= 0xD) || u == 0x20 || u == 0x85 || u == 0xA0 || u == 0x1680 || (0x2000 <= u <= 0x200A) || u
        == 0x2028 || u == 0x2029 || u == 0x202F || u == 0x205F || u == 0x3000
}

/// A text without the white space at its ends.
pub open spec fn trimmed(s: Seq<char>) -> Seq<char>
    decreases s.len(),
{
    if s.len() == 0 {
        s
    } else if is_space(s[0]) {
        trimmed(s.drop_first())
    } else if is_space(s.last()) {
        trimmed(s.drop_last())
    } else {
        s
    }
}

/// How many characters stand before the first plus sign.
pub open spec fn first_part_len(s: Seq<char>) -> int
    decreases s.len(),
{
    if s.len() == 0 || s[0] == '+' {
        0
    } else {
        1 + first_part_len(s.drop_first())
    }
}

/// What a word of a shortcut means; `None` for any other word.
pub open spec fn part_spec(word: Seq<char>) -> Option<KeyPart> {
    if word == seq!['C', 't', 'r', 'l'] {
        Some(KeyPart::Ctrl)
    } else if word == seq!['S', 'h', 'i', 'f', 't'] {
        Some(KeyPart::Shift)
    } else if word == seq!['B'] {
        Some(KeyPart::Key(HotkeyKey::B))
    } else if word == seq!['R'] {
        Some(KeyPart::Key(HotkeyKey::R))
    } else if word == seq!['L'] {
        Some(KeyPart::Key(HotkeyKey::L))
    } else if word == seq!['A'] {
        Some(KeyPart::Key(HotkeyKey::A))
    } else if word == seq!['S'] {
        Some(KeyPart::Key(HotkeyKey::S))
    } else if word == seq!['Q'] {
        Some(KeyPart::Key(HotkeyKey::Q))
    } else if word == seq!['M'] {
        Some(KeyPart::Key(HotkeyKey::M))
    } else {
        None
    }
}

/// What has been read after one more part: a modifier is added, a key
/// takes the place of an earlier one.
pub open spec fn with_part(so_far: Partial, part: KeyPart) -> Partial {
    match part {
        KeyPart::Ctrl => Partial { ctrl: true, ..so_far },
        KeyPart::Shift => Partial { shift: true, ..so_far },
        KeyPart::Key(key) => Partial { key: Some(key), ..so_far },
    }
}

/// The shortcut that has been read, if a key is among its parts.
pub open spec fn finished(so_far: Partial) -> Result<KeyCombination, HotkeyError> {
    match so_far.key {
        Some(key) => Ok(KeyCombination { ctrl: so_far.ctrl, shift: so_far.shift, key }),
        None => Err(HotkeyError::InvalidKeyCombination),
    }
}

/// Reads the parts of `s`, which plus signs separate, after `so_far`.
pub open spec fn parse_from(s: Seq<char>, so_far: Partial) -> Result<KeyCombination, HotkeyError>
    decreases s.len(),
{
    let n = first_part_len(s);
    if n < 0 || n > s.len() {
        Err(HotkeyError::InvalidKeyCombination)
    } else {
        match part_spec(trimmed(s.take(n))) {
            None => Err(HotkeyError::InvalidKeyCombination),
            Some(part) => if n == s.len() {
                finished(with_part(so_far, part))
            } else {
                parse_from(s.skip(n + 1), with_part(so_far, part))
            },
        }
    }
}

/// The shortcut that a text writes: modifiers and a key with plus signs
/// between them, white space around each allowed.
pub open spec fn parse_spec(s: Seq<char>) -> Result<KeyCombination, HotkeyError> {
    parse_from(s, Partial { ctrl: false, shift: false, key: None })
}

/// Whether a character is white space.
pub fn is_whitespace(c: char) -> (b: bool)
    ensures
        b == is_space(c),
{
    let u: u32 = c as u32;
    (0x9 <= u && u <= 0xD) || u == 0x20 || u == 0x85 || u == 0xA0 || u == 0x1680 || (0x2000 <= u && u <= 0x200A)
        || u == 0x2028 || u == 0x2029 || u == 0x202F || u == 0x205F || u == 0x3000
}

/// The characters of a text.
fn to_chars(s: &str) -> (chars: Vec<char>)
    ensures
        chars@ == s@,
{
    let n: usize = s.unicode_len();
    let mut chars: Vec<char> = Vec::new();
    let mut i: usize = 0;
    while i < n
        invariant
            n == s@.len(),
            i <= n,
            chars@ == s@.take(i as int),
        decreases n - i,
    {
        chars.push(s.get_char(i));
        proof {
            assert(s@.take(i as int + 1) =~= s@.take(i as int).push(s@[i as int]));
        }
        i += 1;
    }
    proof {
        assert(s@.take(n as int) =~= s@);
    }
    chars
}

/// Where the part that starts at `start` ends: at the next plus sign or at
/// the end of the text.
fn part_end(chars: &Vec<char>, start: usize) -> (end: usize)
    requires
        start <= chars@.len(),
    ensures
        start <= end <= chars@.len(),
        end - start == first_part_len(chars@.skip(start as int)),
{
    let mut end: usize = start;
    while end < chars.len() && chars[end] != '+'
        invariant
            start <= end <= chars@.len(),
            first_part_len(chars@.skip(start as int)) == (end - start) + first_part_len(chars@.skip(end as int)),
        decreases chars@.len() - end,
    {
        proof {
            assert(chars@.skip(end as int).drop_first() =~= chars@.skip(end as int + 1));
        }
        end += 1;
    }
    end
}

/// The bounds of the part between `start` and `end` without the white
/// space at its ends.
fn trim_bounds(chars: &Vec<char>, start: usize, end: usize) -> (bounds: (usize, usize))
    requires
        start <= end <= chars@.len(),
    ensures
        start <= bounds.0 <= bounds.1 <= end,
        chars@.subrange(bounds.0 as int, bounds.1 as int) == trimmed(chars@.subrange(start as int, end as int)),
{
    let mut a: usize = start;
    while a < end && is_whitespace(chars[a])
        invariant
            start <= a <= end <= chars@.len(),
            trimmed(chars@.subrange(start as int, end as int)) == trimmed(chars@.subrange(a as int, end as int)),
        decreases end - a,
    {
        proof {
            assert(chars@.subrange(a as int, end as int).drop_first() =~= chars@.subrange(a as int + 1, end as int));
        }
        a += 1;
    }
    let mut b: usize = end;
    while b > a && is_whitespace(chars[b - 1])
        invariant
            start <= a <= b <= end <= chars@.len(),
            a < end ==> !is_space(chars@[a as int]),
            trimmed(chars@.subrange(start as int, end as int)) == trimmed(chars@.subrange(a as int, b as int)),
        decreases b - a,
    {
        proof {
            assert(chars@.subrange(a as int, b as int).drop_last() =~= chars@.subrange(a as int, b as int - 1));
        }
        b -= 1;
    }
    (a, b)
}

/// What the word between `a` and `b` means.
fn read_part(chars: &Vec<char>, a: usize, b: usize) -> (part: Option<KeyPart>)
    requires
        a <= b <= chars@.len(),
    ensures
        part == part_spec(chars@.subrange(a as int, b as int)),
{
    let ghost word = chars@.subrange(a as int, b as int);
    let n: usize = b - a;
    proof {
        let ctrl = seq!['C', 't', 'r', 'l'];
        let shift = seq!['S', 'h', 'i', 'f', 't'];
        assert(word.len() == n);
        assert(ctrl.len() == 4 && ctrl[0] == 'C' && ctrl[1] == 't' && ctrl[2] == 'r' && ctrl[3] == 'l');
        assert(shift.len() == 5 && shift[0] == 'S' && shift[1] == 'h' && shift[2] == 'i' && shift[3] == 'f'
            && shift[4] == 't');
        assert(seq!['B'].len() == 1 && seq!['B'][0] == 'B');
        assert(seq!['R'].len() == 1 && seq!['R'][0] == 'R');
        assert(seq!['L'].len() == 1 && seq!['L'][0] == 'L');
        assert(seq!['A'].len() == 1 && seq!['A'][0] == 'A');
        assert(seq!['S'].len() == 1 && seq!['S'][0] == 'S');
        assert(seq!['Q'].len() == 1 && seq!['Q'][0] == 'Q');
        assert(seq!['M'].len() == 1 && seq!['M'][0] == 'M');
    }
    if n == 4 {
        if chars[a] == 'C' && chars[a + 1] == 't' && chars[a + 2] == 'r' && chars[a + 3] == 'l' {
            assert(word =~= seq!['C', 't', 'r', 'l']);
            Some(KeyPart::Ctrl)
        } else {
            assert(word[0] == chars@[a as int] && word[1] == chars@[a + 1] && word[2] == chars@[a + 2] && word[3]
                == chars@[a + 3]);
            None
        }
    } else if n == 5 {
        if chars[a] == 'S' && chars[a + 1] == 'h' && chars[a + 2] == 'i' && chars[a + 3] == 'f' && chars[a + 4]
            == 't' {
            assert(word =~= seq!['S', 'h', 'i', 'f', 't']);
            Some(KeyPart::Shift)
        } else {
            assert(word[0] == chars@[a as int] && word[1] == chars@[a + 1] && word[2] == chars@[a + 2] && word[3]
                == chars@[a + 3] && word[4] == chars@[a + 4]);
            None
        }
    } else if n == 1 {
        let c = chars[a];
        assert(word =~= seq![c]);
        assert(word[0] == c);
        if c == 'B' {
            Some(KeyPart::Key(HotkeyKey::B))
        } else if c == 'R' {
            Some(KeyPart::Key(HotkeyKey::R))
        } else if c == 'L' {
            Some(KeyPart::Key(HotkeyKey::L))
        } else if c == 'A' {
            Some(KeyPart::Key(HotkeyKey::A))
        } else if c == 'S' {
            Some(KeyPart::Key(HotkeyKey::S))
        } else if c == 'Q' {
            Some(KeyPart::Key(HotkeyKey::Q))
        } else if c == 'M' {
            Some(KeyPart::Key(HotkeyKey::M))
        } else {
            None
        }
    } else {
        assert(word.len() == n);
        None
    }
}

/// Reads a written shortcut such as `Ctrl+Shift+B`.
///
/// Every part has to be `Ctrl`, `Shift` or one of the letter keys, and at
/// least one part a key; of several keys the last one counts.
pub fn parse_key_combination(key_combination: &str) -> (r: Result<KeyCombination, HotkeyError>)
    ensures
        r == parse_spec(key_combination@),
{
    let chars = to_chars(key_combination);
    let len: usize = chars.len();
    let mut ctrl = false;
    let mut shift = false;
    let mut key: Option<HotkeyKey> = None;
    let mut at: usize = 0;
    proof {
        assert(chars@.skip(0) =~= chars@);
    }
    loop
        invariant
            len == chars@.len(),
            chars@ == key_combination@,
            at <= len,
            parse_spec(chars@) == parse_from(chars@.skip(at as int), Partial { ctrl, shift, key }),
        decreases len - at,
    {
        let ghost rest = chars@.skip(at as int);
        let ghost so_far = Partial { ctrl, shift, key };
        let end = part_end(&chars, at);
        let bounds = trim_bounds(&chars, at, end);
        proof {
            assert(rest.take(end - at) =~= chars@.subrange(at as int, end as int));
        }
        match read_part(&chars, bounds.0, bounds.1) {
            None => {
                return Err(HotkeyError::InvalidKeyCombination);
            },
            Some(part) => {
                match part {
                    KeyPart::Ctrl => {
                        ctrl = true;
                    },
                    KeyPart::Shift => {
                        shift = true;
                    },
                    KeyPart::Key(k) => {
                        key = Some(k);
                    },
                }
                assert((Partial { ctrl, shift, key }) == with_part(so_far, part));
                if end == len {
                    return match key {
                        Some(k) => Ok(KeyCombination { ctrl, shift, key: k }),
                        None => Err(HotkeyError::InvalidKeyCombination),
                    };
                }
                proof {
                    assert(rest.skip(end - at + 1) =~= chars@.skip(end as int + 1));
                }
                at = end + 1;
            },
        }
    }
}

/// The number by which the `global_hotkey` crate knows a shortcut.
pub uninterp spec fn hotkey_id_spec(ctrl: bool, shift: bool, key: HotkeyKey) -> u32;

/// Calls `HotKey::new` of the `global_hotkey` crate, then `HotKey::id`.
///
/// Claimed of it: the identifier depends on the modifiers and the key
/// alone.
#[verifier::external_body]
fn hotkey_id(combination: KeyCombination) -> (id: u32)
    ensures
        id == hotkey_id_spec(combination.ctrl, combination.shift, combination.key),
{
    let code = match combination.key {
        HotkeyKey::B => global_hotkey::hotkey::Code::KeyB,
        HotkeyKey::R => global_hotkey::hotkey::Code::KeyR,
        HotkeyKey::L => global_hotkey::hotkey::Code::KeyL,
        HotkeyKey::A => global_hotkey::hotkey::Code::KeyA,
        HotkeyKey::S => global_hotkey::hotkey::Code::KeyS,
        HotkeyKey::Q => global_hotkey::hotkey::Code::KeyQ,
        HotkeyKey::M => global_hotkey::hotkey::Code::KeyM,
    };
    let mut mods = global_hotkey::hotkey::Modifiers::empty();
    mods.set(global_hotkey::hotkey::Modifiers::CONTROL, combination.ctrl);
    mods.set(global_hotkey::hotkey::Modifiers::SHIFT, combination.shift);
    global_hotkey::hotkey::HotKey::new(Some(mods), code).id()
}

/// The identifier of a shortcut.
pub open spec fn id_of(combination: KeyCombination) -> u32 {
    hotkey_id_spec(combination.ctrl, combination.shift, combination.key)
}

/// A shortcut with both modifiers.
pub open spec fn ctrl_shift(key: HotkeyKey) -> KeyCombination {
    KeyCombination { ctrl: true, shift: true, key }
}

/// The shortcuts that are bound at start.
pub open spec fn default_map() -> Map<u32, HotkeyAction> {
    Map::<u32, HotkeyAction>::empty().insert(
        id_of(ctrl_shift(HotkeyKey::B)),
        HotkeyAction::StartPauseBroadcast,
    ).insert(id_of(ctrl_shift(HotkeyKey::R)), HotkeyAction::StartStopRecording).insert(
        id_of(ctrl_shift(HotkeyKey::L)),
        HotkeyAction::LockUnlockScreen,
    ).insert(id_of(ctrl_shift(HotkeyKey::A)), HotkeyAction::ToggleAnnotation).insert(
        id_of(ctrl_shift(HotkeyKey::S)),
        HotkeyAction::QuickCaptureSelection,
    ).insert(id_of(ctrl_shift(HotkeyKey::Q)), HotkeyAction::EndSession).insert(
        id_of(ctrl_shift(HotkeyKey::M)),
        HotkeyAction::SwitchMonitor,
    )
}

/// A text of plain characters without a plus sign is one part.
pub proof fn lemma_first_part_len_of(word: Seq<char>, rest: Seq<char>)
    requires
        forall|i: int| 0 <= i < word.len() ==> word[i] != '+',
        rest.len() == 0 || rest[0] == '+',
    ensures
        first_part_len(word + rest) == word.len(),
    decreases word.len(),
{
    if word.len() == 0 {
        assert(word + rest =~= rest);
    } else {
        assert((word + rest).drop_first() =~= word.drop_first() + rest);
        lemma_first_part_len_of(word.drop_first(), rest);
    }
}

/// `Ctrl+Shift+` and a key letter write that key with both modifiers.
pub proof fn lemma_parse_ctrl_shift(letter: char, key: HotkeyKey)
    requires
        part_spec(seq![letter]) == Some(KeyPart::Key(key)),
        letter != '+',
        !is_space(letter),
    ensures
        parse_spec(seq!['C', 't', 'r', 'l', '+', 'S', 'h', 'i', 'f', 't', '+', letter]) == Ok::<
            KeyCombination,
            HotkeyError,
        >(ctrl_shift(key)),
{
    let ctrl = seq!['C', 't', 'r', 'l'];
    let shift = seq!['S', 'h', 'i', 'f', 't'];
    let last = seq![letter];
    let plus = seq!['+'];
    let s0 = seq!['C', 't', 'r', 'l', '+', 'S', 'h', 'i', 'f', 't', '+', letter];
    let s1 = shift + plus + last;
    let s2 = last;
    let start = Partial { ctrl: false, shift: false, key: None };
    assert(s0 =~= ctrl + (plus + s1));
    lemma_first_part_len_of(ctrl, plus + s1);
    assert(s0.take(4) =~= ctrl);
    assert(s0.skip(5) =~= s1);
    assert(!is_space('C') && !is_space('l') && !is_space('S') && !is_space('t'));
    assert(trimmed(ctrl) == ctrl);
    assert(ctrl.len() == 4 && shift.len() == 5);
    assert(shift[0] == 'S' && ctrl[0] == 'C');
    assert(part_spec(ctrl) == Some(KeyPart::Ctrl));
    let after_ctrl = with_part(start, KeyPart::Ctrl);
    assert(parse_from(s0, start) == parse_from(s1, after_ctrl));
    assert(s1 =~= shift + (plus + s2));
    lemma_first_part_len_of(shift, plus + s2);
    assert(s1.take(5) =~= shift);
    assert(s1.skip(6) =~= s2);
    assert(trimmed(shift) == shift);
    assert(part_spec(shift) == Some(KeyPart::Shift));
    let after_shift = with_part(after_ctrl, KeyPart::Shift);
    assert(parse_from(s1, after_ctrl) == parse_from(s2, after_shift));
    assert(s2 =~= last + Seq::<char>::empty());
    lemma_first_part_len_of(last, Seq::<char>::empty());
    assert(s2.take(1) =~= last);
    assert(trimmed(last) == last);
    assert(parse_from(s2, after_shift) == finished(with_part(after_shift, KeyPart::Key(key))));
}

/// The shortcuts and what each of them does.
pub struct HotkeySettings {
    pub hotkey_map: HashMap<u32, HotkeyAction>,
}

impl HotkeySettings {
    /// The settings at start: every default shortcut bound to its action.
    pub fn new() -> (r: Result<HotkeySettings, HotkeyError>)
        ensures
            r matches Ok(settings) && settings.hotkey_map@ == default_map(),
    {
        broadcast use vstd::std_specs::hash::group_hash_axioms;

        let mut settings = HotkeySettings { hotkey_map: HashMap::new() };
        proof {
            reveal_strlit("Ctrl+Shift+B");
            reveal_strlit("Ctrl+Shift+R");
            reveal_strlit("Ctrl+Shift+L");
            reveal_strlit("Ctrl+Shift+A");
            reveal_strlit("Ctrl+Shift+S");
            reveal_strlit("Ctrl+Shift+Q");
            reveal_strlit("Ctrl+Shift+M");
            assert("Ctrl+Shift+B"@ =~= seq!['C', 't', 'r', 'l', '+', 'S', 'h', 'i', 'f', 't', '+', 'B']);
            assert("Ctrl+Shift+R"@ =~= seq!['C', 't', 'r', 'l', '+', 'S', 'h', 'i', 'f', 't', '+', 'R']);
            assert("Ctrl+Shift+L"@ =~= seq!['C', 't', 'r', 'l', '+', 'S', 'h', 'i', 'f', 't', '+', 'L']);
            assert("Ctrl+Shift+A"@ =~= seq!['C', 't', 'r', 'l', '+', 'S', 'h', 'i', 'f', 't', '+', 'A']);
            assert("Ctrl+Shift+S"@ =~= seq!['C', 't', 'r', 'l', '+', 'S', 'h', 'i', 'f', 't', '+', 'S']);
            assert("Ctrl+Shift+Q"@ =~= seq!['C', 't', 'r', 'l', '+', 'S', 'h', 'i', 'f', 't', '+', 'Q']);
            assert("Ctrl+Shift+M"@ =~= seq!['C', 't', 'r', 'l', '+', 'S', 'h', 'i', 'f', 't', '+', 'M']);
            lemma_letter_parts();
            lemma_parse_ctrl_shift('B', HotkeyKey::B);
            lemma_parse_ctrl_shift('R', HotkeyKey::R);
            lemma_parse_ctrl_shift('L', HotkeyKey::L);
            lemma_parse_ctrl_shift('A', HotkeyKey::A);
            lemma_parse_ctrl_shift('S', HotkeyKey::S);
            lemma_parse_ctrl_shift('Q', HotkeyKey::Q);
            lemma_parse_ctrl_shift('M', HotkeyKey::M);
        }
        match settings.register_hotkey("Ctrl+Shift+B", HotkeyAction::StartPauseBroadcast) {
            Err(e) => return Err(e),
            Ok(_) => {},
        }
        match settings.register_hotkey("Ctrl+Shift+R", HotkeyAction::StartStopRecording) {
            Err(e) => return Err(e),
            Ok(_) => {},
        }
        match settings.register_hotkey("Ctrl+Shift+L", HotkeyAction::LockUnlockScreen) {
            Err(e) => return Err(e),
            Ok(_) => {},
        }
        match settings.register_hotkey("Ctrl+Shift+A", HotkeyAction::ToggleAnnotation) {
            Err(e) => return Err(e),
            Ok(_) => {},
        }
        match settings.register_hotkey("Ctrl+Shift+S", HotkeyAction::QuickCaptureSelection) {
            Err(e) => return Err(e),
            Ok(_) => {},
        }
        match settings.register_hotkey("Ctrl+Shift+Q", HotkeyAction::EndSession) {
            Err(e) => return Err(e),
            Ok(_) => {},
        }
        match settings.register_hotkey("Ctrl+Shift+M", HotkeyAction::SwitchMonitor) {
            Err(e) => return Err(e),
            Ok(_) => {},
        }
        Ok(settings)
    }

    /// Binds a written shortcut to an action and returns the shortcut, for
    /// the caller to register with the system. A text that is no shortcut
    /// changes nothing.
    pub fn register_hotkey(&mut self, key_combination: &str, action: HotkeyAction) -> (r: Result<
        KeyCombination,
        HotkeyError,
    >)
        ensures
            r == parse_spec(key_combination@),
            final(self).hotkey_map@ == match parse_spec(key_combination@) {
                Ok(combination) => old(self).hotkey_map@.insert(id_of(combination), action),
                Err(_) => old(self).hotkey_map@,
            },
    {
        broadcast use vstd::std_specs::hash::group_hash_axioms;

        match self.parse_key_combination(key_combination) {
            Err(e) => Err(e),
            Ok(combination) => {
                let id = hotkey_id(combination);
                let _ = self.hotkey_map.insert(id, action);
                Ok(combination)
            },
        }
    }

    /// Reads a written shortcut such as `Ctrl+Shift+B`.
    pub fn parse_key_combination(&self, key_combination: &str) -> (r: Result<KeyCombination, HotkeyError>)
        ensures
            r == parse_spec(key_combination@),
    {
        parse_key_combination(key_combination)
    }

    /// The action bound to the shortcut with this identifier.
    pub fn action_for(&self, id: u32) -> (action: Option<HotkeyAction>)
        ensures
            action == if self.hotkey_map@.contains_key(id) {
                Some(self.hotkey_map@[id])
            } else {
                None
            },
    {
        broadcast use vstd::std_specs::hash::group_hash_axioms;

        match self.hotkey_map.get(&id) {
            Some(action) => Some(*action),
            None => None,
        }
    }
}

/// What each key letter means.
pub proof fn lemma_letter_parts()
    ensures
        part_spec(seq!['B']) == Some(KeyPart::Key(HotkeyKey::B)),
        part_spec(seq!['R']) == Some(KeyPart::Key(HotkeyKey::R)),
        part_spec(seq!['L']) == Some(KeyPart::Key(HotkeyKey::L)),
        part_spec(seq!['A']) == Some(KeyPart::Key(HotkeyKey::A)),
        part_spec(seq!['S']) == Some(KeyPart::Key(HotkeyKey::S)),
        part_spec(seq!['Q']) == Some(KeyPart::Key(HotkeyKey::Q)),
        part_spec(seq!['M']) == Some(KeyPart::Key(HotkeyKey::M)),
{
    let ctrl = seq!['C', 't', 'r', 'l'];
    let shift = seq!['S', 'h', 'i', 'f', 't'];
    assert(ctrl.len() == 4 && shift.len() == 5);
    assert(seq!['B'].len() == 1 && seq!['B'][0] == 'B');
    assert(seq!['R'].len() == 1 && seq!['R'][0] == 'R');
    assert(seq!['L'].len() == 1 && seq!['L'][0] == 'L');
    assert(seq!['A'].len() == 1 && seq!['A'][0] == 'A');
    assert(seq!['S'].len() == 1 && seq!['S'][0] == 'S');
    assert(seq!['Q'].len() == 1 && seq!['Q'][0] == 'Q');
    assert(seq!['M'].len() == 1 && seq!['M'][0] == 'M');
}

/// The texts of the shortcut menu: name and keys of each shortcut.
pub open spec fn shortcuts_spec() -> Seq<(Seq<char>, Seq<char>)> {
    seq![
        ("Start/Pause Broadcast"@, "Ctrl+Shift+B"@),
        ("Start/Stop Recording"@, "Ctrl+Shift+R"@),
        ("Lock/Unlock Screen"@, "Ctrl+Shift+L"@),
        ("Toggle Annotation"@, "Ctrl+Shift+A"@),
        ("Quick Capture Selection"@, "Ctrl+Shift+S"@),
        ("End Session"@, "Ctrl+Shift+Q"@),
        ("Switch Monitor"@, "Ctrl+Shift+M"@),
    ]
}

/// The shortcuts that the menu lists.
pub fn get_shortcuts() -> (shortcuts: Vec<Shortcut>)
    ensures
        shortcuts@.len() == 7,
        forall|i: int|
            0 <= i < 7 ==> (#[trigger] shortcuts@[i]).name@ == shortcuts_spec()[i].0 && shortcuts@[i].key_combination@
                == shortcuts_spec()[i].1,
{
    let mut shortcuts: Vec<Shortcut> = Vec::new();
    shortcuts.push(Shortcut { name: "Start/Pause Broadcast", key_combination: "Ctrl+Shift+B" });
    shortcuts.push(Shortcut { name: "Start/Stop Recording", key_combination: "Ctrl+Shift+R" });
    shortcuts.push(Shortcut { name: "Lock/Unlock Screen", key_combination: "Ctrl+Shift+L" });
    shortcuts.push(Shortcut { name: "Toggle Annotation", key_combination: "Ctrl+Shift+A" });
    shortcuts.push(Shortcut { name: "Quick Capture Selection", key_combination: "Ctrl+Shift+S" });
    shortcuts.push(Shortcut { name: "End Session", key_combination: "Ctrl+Shift+Q" });
    shortcuts.push(Shortcut { name: "Switch Monitor", key_combination: "Ctrl+Shift+M" });
    shortcuts
}

/// The manager of the shortcuts.
pub struct HotkeyManager;

impl HotkeyManager {
    pub fn new() -> (manager: HotkeyManager)
        ensures
            manager == HotkeyManager,
    {
        HotkeyManager
    }
}

} // verus!
