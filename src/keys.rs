//! Decoding of user-written modifier and key names, and their display form.
use vstd::prelude::*;
use vstd::string::*;

verus! {

/// One modifier key of a hot-key.
#[derive(Clone, Copy, Debug, PartialEq, Eq, Structural)]
pub enum Modifier {
    Alt,
    Control,
    Shift,
    Meta,
}

/// The set of modifiers of a hot-key, one flag per modifier.
#[derive(Clone, Copy, Debug, PartialEq, Eq, Structural)]
pub struct ModifierSet {
    pub alt: bool,
    pub control: bool,
    pub shift: bool,
    pub meta: bool,
}

/// A physical key that a hot-key can be bound to.
#[derive(Clone, Copy, Debug, PartialEq, Eq, Structural)]
pub enum KeyCode {
    /// A letter key, named by its upper-case letter `'A'..='Z'`.
    Letter(char),
    /// A digit key of the main row, `0..=9`.
    Digit(u8),
    /// A function key, `1..=12`.
    Function(u8),
    Space,
    Enter,
    Escape,
    Tab,
}

/// The upper-case form of a text, as `str::to_uppercase` computes it.
pub uninterp spec fn upper_of(s: Seq<char>) -> Seq<char>;

/// Relies on `str::to_uppercase`: the result depends on the characters alone.
#[verifier::external_body]
fn uppercase(s: &str) -> (r: String)
    ensures
        r@ == upper_of(s@),
{
    s.to_uppercase()
}

pub open spec fn modifier_of_upper(u: Seq<char>) -> Option<Modifier> {
    if u == "ALT"@ || u == "OPTION"@ {
        Some(Modifier::Alt)
    } else if u == "CTRL"@ || u == "CONTROL"@ {
        Some(Modifier::Control)
    } else if u == "SHIFT"@ {
        Some(Modifier::Shift)
    } else if u == "META"@ || u == "COMMAND"@ || u == "CMD"@ || u == "SUPER"@ {
        Some(Modifier::Meta)
    } else {
        None
    }
}

/// The modifier that a name denotes, whatever its case.
pub open spec fn modifier_of(name: Seq<char>) -> Option<Modifier> {
    modifier_of_upper(upper_of(name))
}

/// Some name among the first `n` of `names` denotes `m`.
pub open spec fn names_include_upto(names: Seq<Seq<char>>, m: Modifier, n: int) -> bool {
    exists|i: int| 0 <= i < n && i < names.len() && modifier_of(#[trigger] names[i]) == Some(m)
}

pub open spec fn names_include(names: Seq<Seq<char>>, m: Modifier) -> bool {
    names_include_upto(names, m, names.len() as int)
}

/// The modifiers that the names denote; unknown names add nothing.
pub open spec fn modifier_set_of(names: Seq<Seq<char>>) -> ModifierSet {
    ModifierSet {
        alt: names_include(names, Modifier::Alt),
        control: names_include(names, Modifier::Control),
        shift: names_include(names, Modifier::Shift),
        meta: names_include(names, Modifier::Meta),
    }
}

/// No names means no modifiers at all, told apart from a set with none.
pub open spec fn parsed_modifiers(names: Seq<Seq<char>>) -> Option<ModifierSet> {
    if names.len() == 0 {
        None
    } else {
        Some(modifier_set_of(names))
    }
}

pub open spec fn texts(names: Seq<String>) -> Seq<Seq<char>> {
    names.map_values(|s: String| s@)
}

pub open spec fn is_letter(c: char) -> bool {
    'A' as u32 <= c as u32 && c as u32 <= 'Z' as u32
}

pub open spec fn is_digit(c: char) -> bool {
    '0' as u32 <= c as u32 && c as u32 <= '9' as u32
}

pub open spec fn digit_value(c: char) -> u8 {
    (c as u32 - '0' as u32) as u8
}

/// The number of a function key name `F1` .. `F12`.
pub open spec fn function_number(u: Seq<char>) -> Option<u8> {
    if u.len() == 2 && u[0] == 'F' && is_digit(u[1]) && u[1] != '0' {
        Some(digit_value(u[1]))
    } else if u.len() == 3 && u[0] == 'F' && u[1] == '1' && '0' as u32 <= u[2] as u32 && u[2]
        as u32 <= '2' as u32 {
        Some((10 + digit_value(u[2])) as u8)
    } else {
        None
    }
}

/// The key that an upper-case name denotes.
pub open spec fn key_of_upper(u: Seq<char>) -> Option<KeyCode> {
    if u.len() == 1 && is_letter(u[0]) {
        Some(KeyCode::Letter(u[0]))
    } else if u.len() == 1 && is_digit(u[0]) {
        Some(KeyCode::Digit(digit_value(u[0])))
    } else if u.len() == 6 && u.take(5) == "DIGIT"@ && is_digit(u[5]) {
        Some(KeyCode::Digit(digit_value(u[5])))
    } else if function_number(u) is Some {
        Some(KeyCode::Function(function_number(u)->0))
    } else if u == "SPACE"@ {
        Some(KeyCode::Space)
    } else if u == "ENTER"@ {
        Some(KeyCode::Enter)
    } else if u == "ESCAPE"@ || u == "ESC"@ {
        Some(KeyCode::Escape)
    } else if u == "TAB"@ {
        Some(KeyCode::Tab)
    } else {
        None
    }
}

/// The key that a name denotes, whatever its case.
pub open spec fn key_of(name: Seq<char>) -> Option<KeyCode> {
    key_of_upper(upper_of(name))
}

/// The display glyphs of a modifier set, in the order Alt, Control, Shift, Meta.
pub open spec fn glyphs(m: ModifierSet) -> Seq<char> {
    (if m.alt { seq!['\u{2325}'] } else { Seq::empty() })
        + (if m.control { seq!['\u{2303}'] } else { Seq::empty() })
        + (if m.shift { seq!['\u{21E7}'] } else { Seq::empty() })
        + (if m.meta { seq!['\u{2318}'] } else { Seq::empty() })
}

/// The display form of a binding: the glyphs of its modifiers, then the key as written.
pub open spec fn display_of(names: Seq<Seq<char>>, key: Seq<char>) -> Seq<char> {
    glyphs(modifier_set_of(names)) + key
}

fn same_text(a: &str, b: &str) -> (r: bool)
    ensures
        r == (a@ == b@),
{
    let n = a.unicode_len();
    if n != b.unicode_len() {
        return false;
    }
    let mut i: usize = 0;
    while i < n
        invariant
            n == a@.len(),
            n == b@.len(),
            i <= n,
            forall|j: int| 0 <= j < i ==> a@[j] == b@[j],
        decreases n - i,
    {
        if a.get_char(i) != b.get_char(i) {
            return false;
        }
        i += 1;
    }
    proof {
        assert(a@ =~= b@);
    }
    true
}

/// The modifier that an already upper-cased name denotes.
pub fn modifier_of_upper_text(u: &str) -> (r: Option<Modifier>)
    ensures
        r == modifier_of_upper(u@),
{
    if same_text(u, "ALT") || same_text(u, "OPTION") {
        Some(Modifier::Alt)
    } else if same_text(u, "CTRL") || same_text(u, "CONTROL") {
        Some(Modifier::Control)
    } else if same_text(u, "SHIFT") {
        Some(Modifier::Shift)
    } else if same_text(u, "META") || same_text(u, "COMMAND") || same_text(u, "CMD") || same_text(
        u,
        "SUPER",
    ) {
        Some(Modifier::Meta)
    } else {
        None
    }
}

fn digit_of(c: char) -> (r: u8)
    requires
        is_digit(c),
    ensures
        r == digit_value(c),
{
    (c as u32 - '0' as u32) as u8
}

/// The key that an already upper-cased name denotes.
pub fn key_of_upper_text(u: &str) -> (r: Option<KeyCode>)
    ensures
        r == key_of_upper(u@),
{
    let n = u.unicode_len();
    if n == 1 {
        let c = u.get_char(0);
        if 'A' as u32 <= c as u32 && c as u32 <= 'Z' as u32 {
            return Some(KeyCode::Letter(c));
        }
        if '0' as u32 <= c as u32 && c as u32 <= '9' as u32 {
            return Some(KeyCode::Digit(digit_of(c)));
        }
    }
    if n == 6 {
        let c = u.get_char(5);
        if same_text(u.substring_char(0, 5), "DIGIT") && '0' as u32 <= c as u32 && c as u32
            <= '9' as u32 {
            return Some(KeyCode::Digit(digit_of(c)));
        }
    }
    if n == 2 && u.get_char(0) == 'F' {
        let c = u.get_char(1);
        if '1' as u32 <= c as u32 && c as u32 <= '9' as u32 {
            return Some(KeyCode::Function(digit_of(c)));
        }
    }
    if n == 3 && u.get_char(0) == 'F' && u.get_char(1) == '1' {
        let c = u.get_char(2);
        if '0' as u32 <= c as u32 && c as u32 <= '2' as u32 {
            return Some(KeyCode::Function(10 + digit_of(c)));
        }
    }
    if same_text(u, "SPACE") {
        Some(KeyCode::Space)
    } else if same_text(u, "ENTER") {
        Some(KeyCode::Enter)
    } else if same_text(u, "ESCAPE") || same_text(u, "ESC") {
        Some(KeyCode::Escape)
    } else if same_text(u, "TAB") {
        Some(KeyCode::Tab)
    } else {
        None
    }
}

/// Decodes a key name, whatever its case; `None` for a name outside the key table.
pub fn parse_key(key: &str) -> (r: Option<KeyCode>)
    ensures
        r == key_of(key@),
{
    let u = uppercase(key);
    key_of_upper_text(u.as_str())
}

/// Folds the names into a modifier set, ignoring the names it does not know.
fn collect_modifiers(mods: &[String]) -> (r: ModifierSet)
    ensures
        r == modifier_set_of(texts(mods@)),
{
    let ghost names = texts(mods@);
    let mut set = ModifierSet { alt: false, control: false, shift: false, meta: false };
    let mut i: usize = 0;
    while i < mods.len()
        invariant
            names == texts(mods@),
            i <= mods@.len(),
            set.alt == names_include_upto(names, Modifier::Alt, i as int),
            set.control == names_include_upto(names, Modifier::Control, i as int),
            set.shift == names_include_upto(names, Modifier::Shift, i as int),
            set.meta == names_include_upto(names, Modifier::Meta, i as int),
        decreases mods@.len() - i,
    {
        let u = uppercase(mods[i].as_str());
        let m = modifier_of_upper_text(u.as_str());
        proof {
            assert(names[i as int] == mods@[i as int]@);
            assert(m == modifier_of(names[i as int]));
            assert forall|k: Modifier| #[trigger]
                names_include_upto(names, k, i + 1) == (names_include_upto(names, k, i as int)
                    || m == Some(k)) by {
                if m == Some(k) {
                    assert(names_include_upto(names, k, i + 1));
                }
                if names_include_upto(names, k, i + 1) && m != Some(k) {
                    let j = choose|j: int|
                        0 <= j < i + 1 && j < names.len() && modifier_of(#[trigger] names[j])
                            == Some(k);
                    assert(j < i);
                }
            }
        }
        match m {
            Some(Modifier::Alt) => { set.alt = true; },
            Some(Modifier::Control) => { set.control = true; },
            Some(Modifier::Shift) => { set.shift = true; },
            Some(Modifier::Meta) => { set.meta = true; },
            None => {},
        }
        i += 1;
    }
    set
}

/// Decodes modifier names, whatever their case and however often each comes;
/// `None` when there are no names at all.
pub fn parse_modifiers(mods: &[String]) -> (r: Option<ModifierSet>)
    ensures
        r == parsed_modifiers(texts(mods@)),
{
    if mods.len() == 0 {
        return None;
    }
    Some(collect_modifiers(mods))
}

/// The text shown for a binding, in menus and after a rebind: one glyph per
/// modifier present, in the order Alt, Control, Shift, Meta, then the key as written.
pub fn format_shortcut_display(modifiers: &[String], key: &str) -> (r: String)
    ensures
        r@ == display_of(texts(modifiers@), key@),
{
    let set = collect_modifiers(modifiers);
    let mut out = String::new();
    proof {
        reveal_strlit("\u{2325}");
        reveal_strlit("\u{2303}");
        reveal_strlit("\u{21E7}");
        reveal_strlit("\u{2318}");
    }
    if set.alt {
        out.append("\u{2325}");
    }
    if set.control {
        out.append("\u{2303}");
    }
    if set.shift {
        out.append("\u{21E7}");
    }
    if set.meta {
        out.append("\u{2318}");
    }
    out.append(key);
    proof {
        assert(out@ =~= glyphs(set) + key@);
    }
    out
}

/// Key names that differ only in case decode to the same key: decoding looks at
/// the upper-case form of a name alone.
pub proof fn lemma_key_ignores_case(a: Seq<char>, b: Seq<char>)
    requires
        upper_of(a) == upper_of(b),
    ensures
        key_of(a) == key_of(b),
{
}

/// Two lists of modifier names decode alike when every name of each has a name
/// of the same upper-case form in the other: case and repetition do not matter.
pub proof fn lemma_modifiers_ignore_case_and_repeats(a: Seq<Seq<char>>, b: Seq<Seq<char>>)
    requires
        forall|i: int|
            0 <= i < a.len() ==> exists|j: int| 0 <= j < b.len() && upper_of(b[j]) == upper_of(#[trigger] a[i]),
        forall|j: int|
            0 <= j < b.len() ==> exists|i: int| 0 <= i < a.len() && upper_of(a[i]) == upper_of(#[trigger] b[j]),
    ensures
        parsed_modifiers(a) == parsed_modifiers(b),
{
    assert forall|m: Modifier| names_include(a, m) ==> names_include(b, m) by {
        if names_include(a, m) {
            let i = choose|i: int| 0 <= i < a.len() && i < a.len() && modifier_of(#[trigger] a[i]) == Some(m);
            let j = choose|j: int| 0 <= j < b.len() && upper_of(b[j]) == upper_of(a[i]);
            assert(modifier_of(b[j]) == Some(m));
        }
    }
    assert forall|m: Modifier| names_include(b, m) ==> names_include(a, m) by {
        if names_include(b, m) {
            let j = choose|j: int| 0 <= j < b.len() && j < b.len() && modifier_of(#[trigger] b[j]) == Some(m);
            let i = choose|i: int| 0 <= i < a.len() && upper_of(a[i]) == upper_of(b[j]);
            assert(modifier_of(a[i]) == Some(m));
        }
    }
    if a.len() > 0 {
        let j = choose|j: int| 0 <= j < b.len() && upper_of(b[j]) == upper_of(a[0]);
    }
    if b.len() > 0 {
        let i = choose|i: int| 0 <= i < a.len() && upper_of(a[i]) == upper_of(b[0]);
    }
    assert(modifier_set_of(a) == modifier_set_of(b));
}

} // verus!
