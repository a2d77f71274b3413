//! Global hotkey shortcuts: parsing `Ctrl+Alt+Space`-style strings into
//! modifiers and a key, mapping them to Windows modifier flags and virtual
//! key codes, and the registration state that decides when a shortcut has
//! to be registered again.
use vstd::prelude::*;
use crate::settings::{HotkeyMode, HotkeySettings};
use crate::text::{
    ascii_lower, ascii_lower_char, chars_eq, chars_of, decimal, is_ascii_digit, is_white_space,
    lemma_decimal_parses, lemma_lower_trim, lemma_trim_idempotent, lemma_trim_of_clean, parse_u32,
    parsed_u32,
    split_tokens, split_trimmed_tokens, string_from_chars, to_ascii_lowercase, trim, trim_chars,
};

verus! {

#[derive(Debug, Clone, Copy, PartialEq, Eq, Structural)]
pub enum HotkeyRegistrationStatus {
    Ready,
    Disabled,
    RequiresWindowsMessageLoop,
}

#[derive(Debug, Clone)]
pub struct HotkeyRegistration {
    pub enabled: bool,
    pub shortcut: String,
    pub mode: HotkeyMode,
    pub status: HotkeyRegistrationStatus,
}

/// What the app emits when the registered shortcut is pressed.
#[derive(Debug, Clone)]
pub struct HotkeyEvent {
    pub shortcut: String,
    pub mode: HotkeyMode,
}

#[derive(Debug, Clone)]
pub enum HotkeyError {
    InvalidShortcut,
    UnsupportedMode,
    MissingAppHandle,
    RegistrationFailed(String),
    LockPoisoned,
}

impl HotkeyError {
    /// The error's message.
    pub fn message(&self) -> (m: String)
        ensures
            self is InvalidShortcut ==> m@
                == "shortcut must include at least one modifier and exactly one key"@,
            self is UnsupportedMode ==> m@
                == "only toggle hotkey mode is supported in the Windows MVP"@,
            self is MissingAppHandle ==> m@ == "hotkey events require a Tauri app handle"@,
            self matches HotkeyError::RegistrationFailed(d) ==> m@
                == "failed to register global hotkey: "@ + d@,
            self is LockPoisoned ==> m@ == "hotkey state lock was poisoned"@,
    {
        match self {
            HotkeyError::InvalidShortcut => String::from_str(
                "shortcut must include at least one modifier and exactly one key",
            ),
            HotkeyError::UnsupportedMode => String::from_str(
                "only toggle hotkey mode is supported in the Windows MVP",
            ),
            HotkeyError::MissingAppHandle => String::from_str(
                "hotkey events require a Tauri app handle",
            ),
            HotkeyError::RegistrationFailed(d) => {
                let mut m = String::from_str("failed to register global hotkey: ");
                crate::text::push_str(&mut m, d.as_str());
                m
            },
            HotkeyError::LockPoisoned => String::from_str("hotkey state lock was poisoned"),
        }
    }
}

/// A shortcut split into its lower-cased modifiers and its one key.
#[derive(Debug, Clone)]
pub struct ShortcutParts {
    pub modifiers: Vec<String>,
    pub key: String,
}

/// A part names a modifier key (`Ctrl`, `Control`, `Alt`, `Shift`, `Win`,
/// `Meta`), in any ASCII case.
pub open spec fn is_modifier_name(p: Seq<char>) -> bool {
    let l = ascii_lower(p);
    ||| l == "ctrl"@
    ||| l == "control"@
    ||| l == "alt"@
    ||| l == "shift"@
    ||| l == "win"@
    ||| l == "meta"@
}

/// The modifier tokens among `ts`, lower-cased, in order.
pub open spec fn modifier_tokens(ts: Seq<Seq<char>>) -> Seq<Seq<char>>
    decreases ts.len(),
{
    if ts.len() == 0 {
        Seq::empty()
    } else {
        let rest = modifier_tokens(ts.drop_last());
        if is_modifier_name(ts.last()) {
            rest.push(ascii_lower(ts.last()))
        } else {
            rest
        }
    }
}

/// The tokens among `ts` that are not modifiers, in order.
pub open spec fn key_tokens(ts: Seq<Seq<char>>) -> Seq<Seq<char>>
    decreases ts.len(),
{
    if ts.len() == 0 {
        Seq::empty()
    } else {
        let rest = key_tokens(ts.drop_last());
        if is_modifier_name(ts.last()) {
            rest
        } else {
            rest.push(ts.last())
        }
    }
}

/// The modifiers and key of a shortcut: its `+`-separated, trimmed,
/// non-empty parts must hold at least one modifier and exactly one other
/// part.
pub open spec fn parsed_shortcut(s: Seq<char>) -> Option<(Seq<Seq<char>>, Seq<char>)> {
    let ts = split_tokens(s, '+');
    let m = modifier_tokens(ts);
    let k = key_tokens(ts);
    if m.len() == 0 || k.len() != 1 {
        None
    } else {
        Some((m, k[0]))
    }
}

fn literal_matches(l: &[char], lit: &str) -> (r: bool)
    ensures
        r == (l@ == lit@),
{
    let v = chars_of(lit);
    chars_eq(l, v.as_slice())
}

fn is_modifier_chars(part: &[char]) -> (r: bool)
    ensures
        r == is_modifier_name(part@),
{
    let l = to_ascii_lowercase(part);
    literal_matches(&l, "ctrl") || literal_matches(&l, "control") || literal_matches(&l, "alt")
        || literal_matches(&l, "shift") || literal_matches(&l, "win") || literal_matches(&l, "meta")
}

/// Whether a shortcut part names a modifier key.
pub fn is_modifier(part: &str) -> (r: bool)
    ensures
        r == is_modifier_name(part@),
{
    let v = chars_of(part);
    is_modifier_chars(&v)
}

/// Splits a shortcut into modifiers and key, or refuses it.
pub fn shortcut_parts(shortcut: &str) -> (res: Result<ShortcutParts, HotkeyError>)
    ensures
        match parsed_shortcut(shortcut@) {
            None => res matches Err(HotkeyError::InvalidShortcut),
            Some((m, k)) => res matches Ok(p) && p.modifiers@.map_values(|x: String| x@) == m
                && p.key@ == k,
        },
{
    let v = chars_of(shortcut);
    let tokens = split_trimmed_tokens(&v, '+');
    let ghost ts = split_tokens(shortcut@, '+');
    let mut modifiers: Vec<String> = Vec::new();
    let mut keys: Vec<String> = Vec::new();
    let mut i: usize = 0;
    while i < tokens.len()
        invariant
            i <= tokens.len(),
            tokens@.map_values(|t: Vec<char>| t@) == ts,
            modifiers@.map_values(|x: String| x@) == modifier_tokens(ts.take(i as int)),
            keys@.map_values(|x: String| x@) == key_tokens(ts.take(i as int)),
        decreases tokens.len() - i,
    {
        let ghost before_m = modifiers@.map_values(|x: String| x@);
        let ghost before_k = keys@.map_values(|x: String| x@);
        let part = &tokens[i];
        assert(part@ == ts[i as int]);
        assert(ts.take(i + 1).drop_last() =~= ts.take(i as int));
        assert(ts.take(i + 1).last() == ts[i as int]);
        if is_modifier_chars(part.as_slice()) {
            let lower = to_ascii_lowercase(part.as_slice());
            let s = string_from_chars(&lower);
            modifiers.push(s);
            assert(modifiers@.map_values(|x: String| x@) =~= before_m.push(ascii_lower(part@)));
        } else {
            let s = string_from_chars(part.as_slice());
            keys.push(s);
            assert(keys@.map_values(|x: String| x@) =~= before_k.push(part@));
        }
        i = i + 1;
    }
    assert(ts.take(tokens.len() as int) =~= ts);
    if modifiers.len() == 0 || keys.len() != 1 {
        return Err(HotkeyError::InvalidShortcut);
    }
    let key = keys.remove(0);
    Ok(ShortcutParts { modifiers, key })
}

/// Accepts a shortcut with at least one modifier and exactly one key.
pub fn validate_shortcut(shortcut: &str) -> (res: Result<(), HotkeyError>)
    ensures
        res is Ok <==> parsed_shortcut(shortcut@) is Some,
        res is Err ==> res matches Err(HotkeyError::InvalidShortcut),
{
    match shortcut_parts(shortcut) {
        Ok(_) => Ok(()),
        Err(e) => Err(e),
    }
}

/// The registration record that `settings` and `status` describe.
pub open spec fn registration_of(
    settings: HotkeySettings,
    status: HotkeyRegistrationStatus,
    r: HotkeyRegistration,
) -> bool {
    &&& r.enabled == settings.enabled
    &&& r.shortcut@ == settings.shortcut@
    &&& r.mode == settings.mode
    &&& r.status == status
}

pub fn registration_for(
    settings: &HotkeySettings,
    status: HotkeyRegistrationStatus,
) -> (r: HotkeyRegistration)
    ensures
        registration_of(*settings, status, r),
{
    HotkeyRegistration {
        enabled: settings.enabled,
        shortcut: settings.shortcut.clone(),
        mode: settings.mode,
        status,
    }
}

/// `MOD_ALT` of `RegisterHotKey`.
pub const MOD_ALT: u32 = 0x0001;

/// `MOD_CONTROL` of `RegisterHotKey`.
pub const MOD_CONTROL: u32 = 0x0002;

/// `MOD_SHIFT` of `RegisterHotKey`.
pub const MOD_SHIFT: u32 = 0x0004;

/// `MOD_WIN` of `RegisterHotKey`.
pub const MOD_WIN: u32 = 0x0008;

/// `MOD_NOREPEAT` of `RegisterHotKey`.
pub const MOD_NOREPEAT: u32 = 0x4000;

/// A shortcut in the form that `RegisterHotKey` takes.
#[derive(Debug, Clone, Copy, PartialEq, Eq, Structural)]
pub struct WindowsShortcut {
    pub modifiers: u32,
    pub vk: u32,
}

pub open spec fn is_ascii_alphanumeric(c: char) -> bool {
    ||| ('0' <= c && c <= '9')
    ||| ('a' <= c && c <= 'z')
    ||| ('A' <= c && c <= 'Z')
}

/// The code of the ASCII upper-case form of `c`.
pub open spec fn ascii_upper_code(c: char) -> u32 {
    if 'a' <= c && c <= 'z' {
        (c as u32 - 32) as u32
    } else {
        c as u32
    }
}

/// The virtual key code of a named key (in lower case).
pub open spec fn named_key_code(n: Seq<char>) -> Option<u32> {
    if n == "space"@ {
        Some(0x20)
    } else if n == "enter"@ || n == "return"@ {
        Some(0x0D)
    } else if n == "tab"@ {
        Some(0x09)
    } else if n == "esc"@ || n == "escape"@ {
        Some(0x1B)
    } else if n == "backspace"@ {
        Some(0x08)
    } else if n == "delete"@ || n == "del"@ {
        Some(0x2E)
    } else if n == "insert"@ || n == "ins"@ {
        Some(0x2D)
    } else if n == "home"@ {
        Some(0x24)
    } else if n == "end"@ {
        Some(0x23)
    } else if n == "pageup"@ || n == "page up"@ {
        Some(0x21)
    } else if n == "pagedown"@ || n == "page down"@ {
        Some(0x22)
    } else if n == "left"@ || n == "arrowleft"@ {
        Some(0x25)
    } else if n == "up"@ || n == "arrowup"@ {
        Some(0x26)
    } else if n == "right"@ || n == "arrowright"@ {
        Some(0x27)
    } else if n == "down"@ || n == "arrowdown"@ {
        Some(0x28)
    } else {
        None
    }
}

/// The virtual key code of a key name: a single letter or digit is its
/// upper-case code, `F1`..`F24` are `0x70`..`0x87`, and a few names are
/// known; case and surrounding white space do not matter.
pub open spec fn key_code(key: Seq<char>) -> Option<u32> {
    let n = ascii_lower(trim(key));
    if n.len() == 1 && is_ascii_alphanumeric(n[0]) {
        Some(ascii_upper_code(n[0]))
    } else if n.len() > 0 && n[0] == 'f' && parsed_u32(n.drop_first()) is Some && 1
        <= parsed_u32(n.drop_first())->0 <= 24 {
        Some((0x70 + parsed_u32(n.drop_first())->0 - 1) as u32)
    } else {
        named_key_code(n)
    }
}

/// A key's code does not change when the key is first trimmed and
/// lower-cased: `key_code` already looks at the key that way.
pub proof fn law_key_code_of_normalized_key(key: Seq<char>)
    ensures
        key_code(ascii_lower(trim(key))) == key_code(key),
{
    let n = ascii_lower(trim(key));
    lemma_lower_trim(trim(key));
    lemma_trim_idempotent(key);
    assert(trim(n) == n);
    assert(ascii_lower(trim(n)) == n);
}

/// The Windows virtual-key code of the Backspace key.
pub const VK_BACK: u32 = 0x08;

/// The Windows virtual-key code of the Tab key.
pub const VK_TAB: u32 = 0x09;

/// The Windows virtual-key code of the Enter key.
pub const VK_RETURN: u32 = 0x0D;

/// The Windows virtual-key code of the Esc key.
pub const VK_ESCAPE: u32 = 0x1B;

/// The Windows virtual-key code of the Space key.
pub const VK_SPACE: u32 = 0x20;

/// The Windows virtual-key code of the Page Up key.
pub const VK_PRIOR: u32 = 0x21;

/// The Windows virtual-key code of the Page Down key.
pub const VK_NEXT: u32 = 0x22;

/// The Windows virtual-key code of the End key.
pub const VK_END: u32 = 0x23;

/// The Windows virtual-key code of the Home key.
pub const VK_HOME: u32 = 0x24;

/// The Windows virtual-key code of the Left arrow key.
pub const VK_LEFT: u32 = 0x25;

/// The Windows virtual-key code of the Up arrow key.
pub const VK_UP: u32 = 0x26;

/// The Windows virtual-key code of the Right arrow key.
pub const VK_RIGHT: u32 = 0x27;

/// The Windows virtual-key code of the Down arrow key.
pub const VK_DOWN: u32 = 0x28;

/// The Windows virtual-key code of the Insert key.
pub const VK_INSERT: u32 = 0x2D;

/// The Windows virtual-key code of the Delete key.
pub const VK_DELETE: u32 = 0x2E;

/// The Windows virtual-key code of the F1 key.
pub const VK_F1: u32 = 0x70;

/// A key name written as a lower-case literal that does not start with
/// `f`, with no white space at its ends, is looked up among the named keys.
proof fn lemma_key_code_of_name(n: Seq<char>)
    requires
        n.len() > 1,
        n[0] != 'f',
        !is_white_space(n[0]),
        !is_white_space(n.last()),
        forall|i: int| 0 <= i < n.len() ==> !('A' <= #[trigger] n[i] && n[i] <= 'Z'),
    ensures
        key_code(n) == named_key_code(n),
{
    lemma_trim_of_clean(n);
    assert(ascii_lower(n) =~= n);
}

proof fn lemma_key_space()
    ensures
        key_code("space"@) == Some(VK_SPACE),
{
    reveal_strlit("space");
    lemma_key_code_of_name("space"@);
}

proof fn lemma_key_enter()
    ensures
        key_code("enter"@) == Some(VK_RETURN),
{
    reveal_strlit("space");
    reveal_strlit("enter");
    lemma_key_code_of_name("enter"@);
}

proof fn lemma_key_return()
    ensures
        key_code("return"@) == Some(VK_RETURN),
{
    reveal_strlit("space");
    reveal_strlit("enter");
    reveal_strlit("return");
    lemma_key_code_of_name("return"@);
}

proof fn lemma_key_tab()
    ensures
        key_code("tab"@) == Some(VK_TAB),
{
    reveal_strlit("space");
    reveal_strlit("enter");
    reveal_strlit("return");
    reveal_strlit("tab");
    lemma_key_code_of_name("tab"@);
}

proof fn lemma_key_esc()
    ensures
        key_code("esc"@) == Some(VK_ESCAPE),
{
    reveal_strlit("space");
    reveal_strlit("enter");
    reveal_strlit("return");
    reveal_strlit("tab");
    reveal_strlit("esc");
    lemma_key_code_of_name("esc"@);
}

proof fn lemma_key_escape()
    ensures
        key_code("escape"@) == Some(VK_ESCAPE),
{
    reveal_strlit("space");
    reveal_strlit("enter");
    reveal_strlit("return");
    reveal_strlit("tab");
    reveal_strlit("esc");
    reveal_strlit("escape");
    lemma_key_code_of_name("escape"@);
}

proof fn lemma_key_backspace()
    ensures
        key_code("backspace"@) == Some(VK_BACK),
{
    reveal_strlit("space");
    reveal_strlit("enter");
    reveal_strlit("return");
    reveal_strlit("tab");
    reveal_strlit("esc");
    reveal_strlit("escape");
    reveal_strlit("backspace");
    lemma_key_code_of_name("backspace"@);
}

proof fn lemma_key_delete()
    ensures
        key_code("delete"@) == Some(VK_DELETE),
{
    reveal_strlit("space");
    reveal_strlit("enter");
    reveal_strlit("return");
    reveal_strlit("tab");
    reveal_strlit("esc");
    reveal_strlit("escape");
    reveal_strlit("backspace");
    reveal_strlit("delete");
    lemma_key_code_of_name("delete"@);
}

proof fn lemma_key_del()
    ensures
        key_code("del"@) == Some(VK_DELETE),
{
    reveal_strlit("space");
    reveal_strlit("enter");
    reveal_strlit("return");
    reveal_strlit("tab");
    reveal_strlit("esc");
    reveal_strlit("escape");
    reveal_strlit("backspace");
    reveal_strlit("delete");
    reveal_strlit("del");
    lemma_key_code_of_name("del"@);
}

proof fn lemma_key_insert()
    ensures
        key_code("insert"@) == Some(VK_INSERT),
{
    reveal_strlit("space");
    reveal_strlit("enter");
    reveal_strlit("return");
    reveal_strlit("tab");
    reveal_strlit("esc");
    reveal_strlit("escape");
    reveal_strlit("backspace");
    reveal_strlit("delete");
    reveal_strlit("del");
    reveal_strlit("insert");
    lemma_key_code_of_name("insert"@);
}

proof fn lemma_key_ins()
    ensures
        key_code("ins"@) == Some(VK_INSERT),
{
    reveal_strlit("space");
    reveal_strlit("enter");
    reveal_strlit("return");
    reveal_strlit("tab");
    reveal_strlit("esc");
    reveal_strlit("escape");
    reveal_strlit("backspace");
    reveal_strlit("delete");
    reveal_strlit("del");
    reveal_strlit("insert");
    reveal_strlit("ins");
    lemma_key_code_of_name("ins"@);
}

proof fn lemma_key_home()
    ensures
        key_code("home"@) == Some(VK_HOME),
{
    reveal_strlit("space");
    reveal_strlit("enter");
    reveal_strlit("return");
    reveal_strlit("tab");
    reveal_strlit("esc");
    reveal_strlit("escape");
    reveal_strlit("backspace");
    reveal_strlit("delete");
    reveal_strlit("del");
    reveal_strlit("insert");
    reveal_strlit("ins");
    reveal_strlit("home");
    lemma_key_code_of_name("home"@);
}

proof fn lemma_key_end()
    ensures
        key_code("end"@) == Some(VK_END),
{
    reveal_strlit("space");
    reveal_strlit("enter");
    reveal_strlit("return");
    reveal_strlit("tab");
    reveal_strlit("esc");
    reveal_strlit("escape");
    reveal_strlit("backspace");
    reveal_strlit("delete");
    reveal_strlit("del");
    reveal_strlit("insert");
    reveal_strlit("ins");
    reveal_strlit("home");
    reveal_strlit("end");
    lemma_key_code_of_name("end"@);
}

proof fn lemma_key_pageup()
    ensures
        key_code("pageup"@) == Some(VK_PRIOR),
{
    reveal_strlit("space");
    reveal_strlit("enter");
    reveal_strlit("return");
    reveal_strlit("tab");
    reveal_strlit("esc");
    reveal_strlit("escape");
    reveal_strlit("backspace");
    reveal_strlit("delete");
    reveal_strlit("del");
    reveal_strlit("insert");
    reveal_strlit("ins");
    reveal_strlit("home");
    reveal_strlit("end");
    reveal_strlit("pageup");
    lemma_key_code_of_name("pageup"@);
}

proof fn lemma_key_page_up()
    ensures
        key_code("page up"@) == Some(VK_PRIOR),
{
    reveal_strlit("space");
    reveal_strlit("enter");
    reveal_strlit("return");
    reveal_strlit("tab");
    reveal_strlit("esc");
    reveal_strlit("escape");
    reveal_strlit("backspace");
    reveal_strlit("delete");
    reveal_strlit("del");
    reveal_strlit("insert");
    reveal_strlit("ins");
    reveal_strlit("home");
    reveal_strlit("end");
    reveal_strlit("pageup");
    reveal_strlit("page up");
    lemma_key_code_of_name("page up"@);
}

proof fn lemma_key_pagedown()
    ensures
        key_code("pagedown"@) == Some(VK_NEXT),
{
    reveal_strlit("space");
    reveal_strlit("enter");
    reveal_strlit("return");
    reveal_strlit("tab");
    reveal_strlit("esc");
    reveal_strlit("escape");
    reveal_strlit("backspace");
    reveal_strlit("delete");
    reveal_strlit("del");
    reveal_strlit("insert");
    reveal_strlit("ins");
    reveal_strlit("home");
    reveal_strlit("end");
    reveal_strlit("pageup");
    reveal_strlit("page up");
    reveal_strlit("pagedown");
    lemma_key_code_of_name("pagedown"@);
}

proof fn lemma_key_page_down()
    ensures
        key_code("page down"@) == Some(VK_NEXT),
{
    reveal_strlit("space");
    reveal_strlit("enter");
    reveal_strlit("return");
    reveal_strlit("tab");
    reveal_strlit("esc");
    reveal_strlit("escape");
    reveal_strlit("backspace");
    reveal_strlit("delete");
    reveal_strlit("del");
    reveal_strlit("insert");
    reveal_strlit("ins");
    reveal_strlit("home");
    reveal_strlit("end");
    reveal_strlit("pageup");
    reveal_strlit("page up");
    reveal_strlit("pagedown");
    reveal_strlit("page down");
    lemma_key_code_of_name("page down"@);
}

proof fn lemma_key_left()
    ensures
        key_code("left"@) == Some(VK_LEFT),
{
    reveal_strlit("space");
    reveal_strlit("enter");
    reveal_strlit("return");
    reveal_strlit("tab");
    reveal_strlit("esc");
    reveal_strlit("escape");
    reveal_strlit("backspace");
    reveal_strlit("delete");
    reveal_strlit("del");
    reveal_strlit("insert");
    reveal_strlit("ins");
    reveal_strlit("home");
    reveal_strlit("end");
    reveal_strlit("pageup");
    reveal_strlit("page up");
    reveal_strlit("pagedown");
    reveal_strlit("page down");
    reveal_strlit("left");
    lemma_key_code_of_name("left"@);
}

proof fn lemma_key_arrowleft()
    ensures
        key_code("arrowleft"@) == Some(VK_LEFT),
{
    reveal_strlit("space");
    reveal_strlit("enter");
    reveal_strlit("return");
    reveal_strlit("tab");
    reveal_strlit("esc");
    reveal_strlit("escape");
    reveal_strlit("backspace");
    reveal_strlit("delete");
    reveal_strlit("del");
    reveal_strlit("insert");
    reveal_strlit("ins");
    reveal_strlit("home");
    reveal_strlit("end");
    reveal_strlit("pageup");
    reveal_strlit("page up");
    reveal_strlit("pagedown");
    reveal_strlit("page down");
    reveal_strlit("left");
    reveal_strlit("arrowleft");
    lemma_key_code_of_name("arrowleft"@);
}

proof fn lemma_key_up()
    ensures
        key_code("up"@) == Some(VK_UP),
{
    reveal_strlit("space");
    reveal_strlit("enter");
    reveal_strlit("return");
    reveal_strlit("tab");
    reveal_strlit("esc");
    reveal_strlit("escape");
    reveal_strlit("backspace");
    reveal_strlit("delete");
    reveal_strlit("del");
    reveal_strlit("insert");
    reveal_strlit("ins");
    reveal_strlit("home");
    reveal_strlit("end");
    reveal_strlit("pageup");
    reveal_strlit("page up");
    reveal_strlit("pagedown");
    reveal_strlit("page down");
    reveal_strlit("left");
    reveal_strlit("arrowleft");
    reveal_strlit("up");
    lemma_key_code_of_name("up"@);
}

proof fn lemma_key_arrowup()
    ensures
        key_code("arrowup"@) == Some(VK_UP),
{
    reveal_strlit("space");
    reveal_strlit("enter");
    reveal_strlit("return");
    reveal_strlit("tab");
    reveal_strlit("esc");
    reveal_strlit("escape");
    reveal_strlit("backspace");
    reveal_strlit("delete");
    reveal_strlit("del");
    reveal_strlit("insert");
    reveal_strlit("ins");
    reveal_strlit("home");
    reveal_strlit("end");
    reveal_strlit("pageup");
    reveal_strlit("page up");
    reveal_strlit("pagedown");
    reveal_strlit("page down");
    reveal_strlit("left");
    reveal_strlit("arrowleft");
    reveal_strlit("up");
    reveal_strlit("arrowup");
    lemma_key_code_of_name("arrowup"@);
}

proof fn lemma_key_right()
    ensures
        key_code("right"@) == Some(VK_RIGHT),
{
    reveal_strlit("space");
    reveal_strlit("enter");
    reveal_strlit("return");
    reveal_strlit("tab");
    reveal_strlit("esc");
    reveal_strlit("escape");
    reveal_strlit("backspace");
    reveal_strlit("delete");
    reveal_strlit("del");
    reveal_strlit("insert");
    reveal_strlit("ins");
    reveal_strlit("home");
    reveal_strlit("end");
    reveal_strlit("pageup");
    reveal_strlit("page up");
    reveal_strlit("pagedown");
    reveal_strlit("page down");
    reveal_strlit("left");
    reveal_strlit("arrowleft");
    reveal_strlit("up");
    reveal_strlit("arrowup");
    reveal_strlit("right");
    lemma_key_code_of_name("right"@);
}

proof fn lemma_key_arrowright()
    ensures
        key_code("arrowright"@) == Some(VK_RIGHT),
{
    reveal_strlit("space");
    reveal_strlit("enter");
    reveal_strlit("return");
    reveal_strlit("tab");
    reveal_strlit("esc");
    reveal_strlit("escape");
    reveal_strlit("backspace");
    reveal_strlit("delete");
    reveal_strlit("del");
    reveal_strlit("insert");
    reveal_strlit("ins");
    reveal_strlit("home");
    reveal_strlit("end");
    reveal_strlit("pageup");
    reveal_strlit("page up");
    reveal_strlit("pagedown");
    reveal_strlit("page down");
    reveal_strlit("left");
    reveal_strlit("arrowleft");
    reveal_strlit("up");
    reveal_strlit("arrowup");
    reveal_strlit("right");
    reveal_strlit("arrowright");
    lemma_key_code_of_name("arrowright"@);
}

proof fn lemma_key_down()
    ensures
        key_code("down"@) == Some(VK_DOWN),
{
    reveal_strlit("space");
    reveal_strlit("enter");
    reveal_strlit("return");
    reveal_strlit("tab");
    reveal_strlit("esc");
    reveal_strlit("escape");
    reveal_strlit("backspace");
    reveal_strlit("delete");
    reveal_strlit("del");
    reveal_strlit("insert");
    reveal_strlit("ins");
    reveal_strlit("home");
    reveal_strlit("end");
    reveal_strlit("pageup");
    reveal_strlit("page up");
    reveal_strlit("pagedown");
    reveal_strlit("page down");
    reveal_strlit("left");
    reveal_strlit("arrowleft");
    reveal_strlit("up");
    reveal_strlit("arrowup");
    reveal_strlit("right");
    reveal_strlit("arrowright");
    reveal_strlit("down");
    lemma_key_code_of_name("down"@);
}

proof fn lemma_key_arrowdown()
    ensures
        key_code("arrowdown"@) == Some(VK_DOWN),
{
    reveal_strlit("space");
    reveal_strlit("enter");
    reveal_strlit("return");
    reveal_strlit("tab");
    reveal_strlit("esc");
    reveal_strlit("escape");
    reveal_strlit("backspace");
    reveal_strlit("delete");
    reveal_strlit("del");
    reveal_strlit("insert");
    reveal_strlit("ins");
    reveal_strlit("home");
    reveal_strlit("end");
    reveal_strlit("pageup");
    reveal_strlit("page up");
    reveal_strlit("pagedown");
    reveal_strlit("page down");
    reveal_strlit("left");
    reveal_strlit("arrowleft");
    reveal_strlit("up");
    reveal_strlit("arrowup");
    reveal_strlit("right");
    reveal_strlit("arrowright");
    reveal_strlit("down");
    reveal_strlit("arrowdown");
    lemma_key_code_of_name("arrowdown"@);
}

/// Every named key maps to the Windows virtual-key code of that key, in
/// each of its spellings (`key_code` ignores case and surrounding white
/// space).
pub proof fn law_named_keys_are_windows_keys()
    ensures
        key_code("space"@) == Some(VK_SPACE),
        key_code("enter"@) == Some(VK_RETURN),
        key_code("return"@) == Some(VK_RETURN),
        key_code("tab"@) == Some(VK_TAB),
        key_code("esc"@) == Some(VK_ESCAPE),
        key_code("escape"@) == Some(VK_ESCAPE),
        key_code("backspace"@) == Some(VK_BACK),
        key_code("delete"@) == Some(VK_DELETE),
        key_code("del"@) == Some(VK_DELETE),
        key_code("insert"@) == Some(VK_INSERT),
        key_code("ins"@) == Some(VK_INSERT),
        key_code("home"@) == Some(VK_HOME),
        key_code("end"@) == Some(VK_END),
        key_code("pageup"@) == Some(VK_PRIOR),
        key_code("page up"@) == Some(VK_PRIOR),
        key_code("pagedown"@) == Some(VK_NEXT),
        key_code("page down"@) == Some(VK_NEXT),
        key_code("left"@) == Some(VK_LEFT),
        key_code("arrowleft"@) == Some(VK_LEFT),
        key_code("up"@) == Some(VK_UP),
        key_code("arrowup"@) == Some(VK_UP),
        key_code("right"@) == Some(VK_RIGHT),
        key_code("arrowright"@) == Some(VK_RIGHT),
        key_code("down"@) == Some(VK_DOWN),
        key_code("arrowdown"@) == Some(VK_DOWN),
{
    lemma_key_space();
    lemma_key_enter();
    lemma_key_return();
    lemma_key_tab();
    lemma_key_esc();
    lemma_key_escape();
    lemma_key_backspace();
    lemma_key_delete();
    lemma_key_del();
    lemma_key_insert();
    lemma_key_ins();
    lemma_key_home();
    lemma_key_end();
    lemma_key_pageup();
    lemma_key_page_up();
    lemma_key_pagedown();
    lemma_key_page_down();
    lemma_key_left();
    lemma_key_arrowleft();
    lemma_key_up();
    lemma_key_arrowup();
    lemma_key_right();
    lemma_key_arrowright();
    lemma_key_down();
    lemma_key_arrowdown();
}

/// `F1`..`F24`, in either case, map to the consecutive Windows
/// virtual-key codes from `VK_F1`.
pub proof fn law_function_keys_are_consecutive(n: nat)
    requires
        1 <= n <= 24,
    ensures
        key_code(seq!['f'] + decimal(n)) == Some((VK_F1 + n - 1) as u32),
        key_code(seq!['F'] + decimal(n)) == Some((VK_F1 + n - 1) as u32),
{
    lemma_decimal_parses(n);
    let d = decimal(n);
    let lower = seq!['f'] + d;
    let upper = seq!['F'] + d;
    assert(is_ascii_digit(d[0]));
    assert(is_ascii_digit(d.last()));
    assert(lower[0] == 'f' && lower.last() == d.last());
    assert(upper[0] == 'F' && upper.last() == d.last());
    lemma_trim_of_clean(lower);
    lemma_trim_of_clean(upper);
    assert forall|i: int| 0 <= i < lower.len() implies #[trigger] ascii_lower(lower)[i] == lower[i] by {
        if i > 0 {
            assert(lower[i] == d[i - 1]);
            assert(is_ascii_digit(d[i - 1]));
        }
    }
    assert(ascii_lower(lower) =~= lower);
    assert forall|i: int| 0 <= i < upper.len() implies #[trigger] ascii_lower(upper)[i] == lower[i] by {
        if i > 0 {
            assert(upper[i] == d[i - 1]);
            assert(is_ascii_digit(d[i - 1]));
        } else {
            assert(ascii_lower_char('F') == 'f');
        }
    }
    assert(ascii_lower(upper) =~= lower);
    assert(lower.drop_first() =~= d);
    assert(lower.len() > 1);
}

fn named_key(n: &[char]) -> (r: Option<u32>)
    ensures
        r == named_key_code(n@),
{
    if literal_matches(n, "space") {
        Some(0x20)
    } else if literal_matches(n, "enter") || literal_matches(n, "return") {
        Some(0x0D)
    } else if literal_matches(n, "tab") {
        Some(0x09)
    } else if literal_matches(n, "esc") || literal_matches(n, "escape") {
        Some(0x1B)
    } else if literal_matches(n, "backspace") {
        Some(0x08)
    } else if literal_matches(n, "delete") || literal_matches(n, "del") {
        Some(0x2E)
    } else if literal_matches(n, "insert") || literal_matches(n, "ins") {
        Some(0x2D)
    } else if literal_matches(n, "home") {
        Some(0x24)
    } else if literal_matches(n, "end") {
        Some(0x23)
    } else if literal_matches(n, "pageup") || literal_matches(n, "page up") {
        Some(0x21)
    } else if literal_matches(n, "pagedown") || literal_matches(n, "page down") {
        Some(0x22)
    } else if literal_matches(n, "left") || literal_matches(n, "arrowleft") {
        Some(0x25)
    } else if literal_matches(n, "up") || literal_matches(n, "arrowup") {
        Some(0x26)
    } else if literal_matches(n, "right") || literal_matches(n, "arrowright") {
        Some(0x27)
    } else if literal_matches(n, "down") || literal_matches(n, "arrowdown") {
        Some(0x28)
    } else {
        None
    }
}

/// The Windows virtual key code of a key name.
pub fn virtual_key(key: &str) -> (r: Option<u32>)
    ensures
        r == key_code(key@),
{
    let v = chars_of(key);
    let trimmed = trim_chars(&v);
    let n = to_ascii_lowercase(&trimmed);
    if n.len() == 1 {
        let c = n[0];
        if ('0' <= c && c <= '9') || ('a' <= c && c <= 'z') || ('A' <= c && c <= 'Z') {
            if 'a' <= c && c <= 'z' {
                return Some((c as u32) - 32);
            }
            return Some(c as u32);
        }
    }
    if n.len() > 0 && n[0] == 'f' {
        let mut rest: Vec<char> = Vec::new();
        let mut i: usize = 1;
        while i < n.len()
            invariant
                1 <= i <= n.len(),
                rest@ == n@.subrange(1, i as int),
            decreases n.len() - i,
        {
            rest.push(n[i]);
            i = i + 1;
            assert(rest@ =~= n@.subrange(1, i as int));
        }
        assert(rest@ =~= n@.drop_first());
        match parse_u32(&rest) {
            Some(number) => {
                if 1 <= number && number <= 24 {
                    return Some(0x70 + number - 1);
                }
            },
            None => {},
        }
    }
    named_key(&n)
}

/// The `RegisterHotKey` flag of a lower-case modifier name.
pub open spec fn modifier_flag(m: Seq<char>) -> Option<u32> {
    if m == "ctrl"@ || m == "control"@ {
        Some(MOD_CONTROL)
    } else if m == "alt"@ {
        Some(MOD_ALT)
    } else if m == "shift"@ {
        Some(MOD_SHIFT)
    } else if m == "win"@ || m == "meta"@ {
        Some(MOD_WIN)
    } else {
        None
    }
}

/// `MOD_NOREPEAT` combined with the flag of every modifier, or `None` when
/// one of them is unknown.
pub open spec fn modifier_flags(ms: Seq<Seq<char>>) -> Option<u32>
    decreases ms.len(),
{
    if ms.len() == 0 {
        Some(MOD_NOREPEAT)
    } else {
        match (modifier_flags(ms.drop_last()), modifier_flag(ms.last())) {
            (Some(a), Some(b)) => Some(a | b),
            _ => None,
        }
    }
}

/// The `RegisterHotKey` form of a shortcut.
pub open spec fn windows_shortcut_of(s: Seq<char>) -> Option<WindowsShortcut> {
    match parsed_shortcut(s) {
        None => None,
        Some((m, k)) => match (modifier_flags(m), key_code(k)) {
            (Some(f), Some(vk)) => Some(WindowsShortcut { modifiers: f, vk }),
            _ => None,
        },
    }
}

fn modifier_flag_of(m: &[char]) -> (r: Option<u32>)
    ensures
        r == modifier_flag(m@),
{
    if literal_matches(m, "ctrl") || literal_matches(m, "control") {
        Some(MOD_CONTROL)
    } else if literal_matches(m, "alt") {
        Some(MOD_ALT)
    } else if literal_matches(m, "shift") {
        Some(MOD_SHIFT)
    } else if literal_matches(m, "win") || literal_matches(m, "meta") {
        Some(MOD_WIN)
    } else {
        None
    }
}

/// Parses a shortcut into the modifiers and virtual key of `RegisterHotKey`.
pub fn parse_windows_shortcut(shortcut: &str) -> (res: Result<WindowsShortcut, HotkeyError>)
    ensures
        match windows_shortcut_of(shortcut@) {
            Some(w) => res == Ok::<WindowsShortcut, HotkeyError>(w),
            None => res matches Err(HotkeyError::InvalidShortcut),
        },
{
    let parts = match shortcut_parts(shortcut) {
        Ok(p) => p,
        Err(e) => return Err(e),
    };
    assert(parsed_shortcut(shortcut@) == Some((parts.modifiers@.map_values(|x: String| x@), parts.key@)));
    let ghost ms = parts.modifiers@.map_values(|x: String| x@);
    let mut modifiers: u32 = MOD_NOREPEAT;
    let mut i: usize = 0;
    while i < parts.modifiers.len()
        invariant
            i <= parts.modifiers.len(),
            ms == parts.modifiers@.map_values(|x: String| x@),
            parsed_shortcut(shortcut@) == Some((ms, parts.key@)),
            modifier_flags(ms.take(i as int)) == Some(modifiers),
        decreases parts.modifiers.len() - i,
    {
        let m = chars_of(parts.modifiers[i].as_str());
        assert(m@ == ms[i as int]);
        assert(ms.take(i + 1).drop_last() =~= ms.take(i as int));
        match modifier_flag_of(&m) {
            Some(flag) => {
                modifiers = modifiers | flag;
            },
            None => {
                proof {
                    lemma_modifier_flags_none(ms, i as int);
                    assert(windows_shortcut_of(shortcut@) is None);
                }
                return Err(HotkeyError::InvalidShortcut);
            },
        }
        i = i + 1;
    }
    assert(ms.take(parts.modifiers.len() as int) =~= ms);
    match virtual_key(parts.key.as_str()) {
        Some(vk) => Ok(WindowsShortcut { modifiers, vk }),
        None => Err(HotkeyError::InvalidShortcut),
    }
}

/// A shortcut that `RegisterHotKey` can take is a valid shortcut, and its
/// modifiers always ask for no auto-repeat.
pub proof fn law_windows_shortcut_is_valid(s: Seq<char>)
    ensures
        windows_shortcut_of(s) is Some ==> parsed_shortcut(s) is Some,
        windows_shortcut_of(s) matches Some(w) ==> w.modifiers & MOD_NOREPEAT == MOD_NOREPEAT,
{
    if let Some((m, _k)) = parsed_shortcut(s) {
        lemma_modifier_flags_norepeat(m);
    }
}

proof fn lemma_modifier_flags_norepeat(ms: Seq<Seq<char>>)
    ensures
        modifier_flags(ms) matches Some(f) ==> f & MOD_NOREPEAT == MOD_NOREPEAT,
    decreases ms.len(),
{
    if ms.len() > 0 {
        lemma_modifier_flags_norepeat(ms.drop_last());
        if let (Some(a), Some(b)) = (modifier_flags(ms.drop_last()), modifier_flag(ms.last())) {
            assert(a & 0x4000u32 == 0x4000u32 ==> (a | b) & 0x4000u32 == 0x4000u32) by (bit_vector);
        }
    } else {
        assert(0x4000u32 & 0x4000u32 == 0x4000u32) by (bit_vector);
    }
}

proof fn lemma_modifier_flags_none(ms: Seq<Seq<char>>, i: int)
    requires
        0 <= i < ms.len(),
        modifier_flag(ms[i]) is None,
    ensures
        modifier_flags(ms) is None,
    decreases ms.len(),
{
    if i < ms.len() - 1 {
        lemma_modifier_flags_none(ms.drop_last(), i);
    }
}

/// The id under which the app registers its hotkey.
pub const HOTKEY_ID: i32 = 0x4656;

/// `WM_QUIT`, the message that ends a thread's message loop.
pub const WM_QUIT: u32 = 0x0012;

/// `WM_HOTKEY`, the message that a registered hotkey posts.
pub const WM_HOTKEY: u32 = 0x0312;

/// What the hotkey thread does with what `GetMessageW` returned.
#[derive(Debug, Clone, Copy, PartialEq, Eq, Structural)]
pub enum HotkeyLoopStep {
    /// Leave the loop and release the hotkey.
    Stop,
    /// Report that the shortcut was pressed.
    Emit,
    /// Wait for the next message.
    Ignore,
}

/// The step for a message: the loop stops when `GetMessageW` fails or
/// returns `WM_QUIT`, and reports the app's own hotkey; any other message
/// is ignored.
pub fn hotkey_loop_step(get_result: i32, message: u32, w_param: usize) -> (s: HotkeyLoopStep)
    ensures
        s == (if get_result <= 0 || message == WM_QUIT {
            HotkeyLoopStep::Stop
        } else if message == WM_HOTKEY && w_param == HOTKEY_ID {
            HotkeyLoopStep::Emit
        } else {
            HotkeyLoopStep::Ignore
        }),
{
    if get_result <= 0 || message == WM_QUIT {
        HotkeyLoopStep::Stop
    } else if message == WM_HOTKEY && w_param == HOTKEY_ID as usize {
        HotkeyLoopStep::Emit
    } else {
        HotkeyLoopStep::Ignore
    }
}

/// Two hotkey settings ask for the same registration.
pub open spec fn same_hotkey_settings(a: HotkeySettings, b: HotkeySettings) -> bool {
    &&& a.enabled == b.enabled
    &&& a.mode == b.mode
    &&& a.shortcut@ == b.shortcut@
}

pub fn hotkey_settings_equal(a: &HotkeySettings, b: &HotkeySettings) -> (r: bool)
    ensures
        r == same_hotkey_settings(*a, *b),
{
    a.enabled == b.enabled && a.mode == b.mode && a.shortcut == b.shortcut
}

/// The status recorded for applied settings: what the platform gave for
/// enabled settings, `Disabled` for disabled ones.
pub open spec fn recorded_status(
    settings: HotkeySettings,
    registered: HotkeyRegistrationStatus,
) -> HotkeyRegistrationStatus {
    if settings.enabled {
        registered
    } else {
        HotkeyRegistrationStatus::Disabled
    }
}

/// What applying hotkey settings has to do.
#[derive(Debug, Clone)]
pub enum HotkeyPlan {
    /// The settings are the ones already applied: this is their registration.
    Unchanged(HotkeyRegistration),
    /// The shortcut has to be registered with the platform.
    Register,
    /// The hotkey is disabled: any registration is released.
    Disable,
}

/// The kinds of outcome of planning.
#[derive(Debug, Clone, Copy, PartialEq, Eq, Structural)]
pub enum PlanKind {
    InvalidShortcut,
    UnsupportedMode,
    Unchanged,
    Register,
    Disable,
}

/// The settings last applied and the status they got.
#[derive(Debug, Clone)]
pub struct HotkeyState {
    settings: Option<HotkeySettings>,
    status: Option<HotkeyRegistrationStatus>,
}

impl HotkeyState {
    pub closed spec fn applied(&self) -> Option<HotkeySettings> {
        self.settings
    }

    /// The status of the applied settings (`Disabled` when none is known).
    pub closed spec fn applied_status(&self) -> HotkeyRegistrationStatus {
        match self.status {
            Some(s) => s,
            None => HotkeyRegistrationStatus::Disabled,
        }
    }

    /// What planning `settings` yields.
    pub open spec fn planned(&self, settings: HotkeySettings) -> PlanKind {
        if parsed_shortcut(settings.shortcut@) is None {
            PlanKind::InvalidShortcut
        } else if settings.mode != HotkeyMode::Toggle {
            PlanKind::UnsupportedMode
        } else if self.applied() matches Some(a) && same_hotkey_settings(a, settings) {
            PlanKind::Unchanged
        } else if settings.enabled {
            PlanKind::Register
        } else {
            PlanKind::Disable
        }
    }

    /// Nothing applied yet.
    pub fn new() -> (s: Self)
        ensures
            s.applied() is None,
    {
        HotkeyState { settings: None, status: None }
    }

    /// Decides what applying `settings` takes: invalid shortcuts and hold
    /// mode are refused, the settings already applied keep their
    /// registration, and otherwise the hotkey is registered or disabled.
    pub fn plan(&self, settings: &HotkeySettings) -> (res: Result<HotkeyPlan, HotkeyError>)
        ensures
            match self.planned(*settings) {
                PlanKind::InvalidShortcut => res matches Err(HotkeyError::InvalidShortcut),
                PlanKind::UnsupportedMode => res matches Err(HotkeyError::UnsupportedMode),
                PlanKind::Unchanged => res matches Ok(HotkeyPlan::Unchanged(r)) && registration_of(
                    *settings,
                    self.applied_status(),
                    r,
                ),
                PlanKind::Register => res matches Ok(HotkeyPlan::Register),
                PlanKind::Disable => res matches Ok(HotkeyPlan::Disable),
            },
    {
        validate_shortcut(&settings.shortcut)?;
        if settings.mode != HotkeyMode::Toggle {
            return Err(HotkeyError::UnsupportedMode);
        }
        match &self.settings {
            Some(applied) => {
                if hotkey_settings_equal(applied, settings) {
                    let status = match self.status {
                        Some(s) => s,
                        None => HotkeyRegistrationStatus::Disabled,
                    };
                    return Ok(HotkeyPlan::Unchanged(registration_for(settings, status)));
                }
            },
            None => {},
        }
        if settings.enabled {
            Ok(HotkeyPlan::Register)
        } else {
            Ok(HotkeyPlan::Disable)
        }
    }

    /// Records that `settings` were applied. Enabled settings get the
    /// status that registering them with the platform gave; disabled ones
    /// are `Disabled`.
    pub fn record(&mut self, settings: &HotkeySettings, registered: HotkeyRegistrationStatus) -> (r:
        HotkeyRegistration)
        ensures
            final(self).applied() == Some(*settings),
            final(self).applied_status() == recorded_status(*settings, registered),
            registration_of(*settings, recorded_status(*settings, registered), r),
    {
        let status = if settings.enabled {
            registered
        } else {
            HotkeyRegistrationStatus::Disabled
        };
        self.settings = Some(settings.duplicate());
        self.status = Some(status);
        registration_for(settings, status)
    }

    /// The registration of the applied settings, if any.
    pub fn current(&self) -> (r: Option<HotkeyRegistration>)
        ensures
            match self.applied() {
                None => r is None,
                Some(a) => r matches Some(reg) && registration_of(a, self.applied_status(), reg),
            },
    {
        match &self.settings {
            Some(settings) => {
                let status = match self.status {
                    Some(s) => s,
                    None => HotkeyRegistrationStatus::Disabled,
                };
                Some(registration_for(settings, status))
            },
            None => None,
        }
    }
}

/// Applying settings that were just applied changes nothing: the plan for
/// them is to keep the registration that recording them gave.
pub proof fn law_reapply_is_unchanged(
    state: HotkeyState,
    settings: HotkeySettings,
    status: HotkeyRegistrationStatus,
    again: HotkeySettings,
)
    requires
        state.applied() == Some(settings),
        state.applied_status() == status,
        same_hotkey_settings(settings, again),
        parsed_shortcut(again.shortcut@) is Some,
        again.mode == HotkeyMode::Toggle,
    ensures
        state.planned(again) == PlanKind::Unchanged,
        forall|r: HotkeyRegistration|
            registration_of(again, state.applied_status(), r) ==> registration_of(
                settings,
                status,
                r,
            ),
{
}

/// Applying settings and then applying them again: once the plan to
/// register or disable them was carried out and recorded, planning the same
/// settings again keeps the recorded registration, with no new
/// registration; its status is `Disabled` for disabled settings and what
/// the platform gave otherwise.
pub proof fn law_apply_then_reapply(
    before: HotkeyState,
    after: HotkeyState,
    settings: HotkeySettings,
    registered: HotkeyRegistrationStatus,
)
    requires
        before.planned(settings) == PlanKind::Register || before.planned(settings)
            == PlanKind::Disable,
        after.applied() == Some(settings),
        after.applied_status() == recorded_status(settings, registered),
    ensures
        after.planned(settings) == PlanKind::Unchanged,
        !settings.enabled ==> after.applied_status() == HotkeyRegistrationStatus::Disabled,
        settings.enabled ==> after.applied_status() == registered,
        before.planned(settings) == PlanKind::Disable <==> !settings.enabled,
{
}

} // verus!
