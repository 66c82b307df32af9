//! Keystrokes and their textual form.
//!
//! A keystroke is a set of held modifiers plus a key name. Its textual form
//! is the modifier names and the key joined by `-`, as in `cmd-shift-p`;
//! [`Keystroke::parse`] reads that form back. Composed test input is written
//! as space-separated keystroke tokens, parsed by the event injector.

use vstd::prelude::*;

verus! {

/// The modifier keys held during a keystroke.
#[derive(Clone, Copy, Debug, PartialEq, Eq, Structural)]
pub struct Modifiers {
    pub control: bool,
    pub alt: bool,
    pub shift: bool,
    /// The platform command key: `cmd`, `super` or `win`.
    pub platform: bool,
    /// The `fn` key.
    pub function: bool,
}

impl Modifiers {
    /// No modifier held.
    pub fn none() -> (m: Modifiers)
        ensures
            m == Modifiers::none_spec(),
    {
        Modifiers { control: false, alt: false, shift: false, platform: false, function: false }
    }

    /// The value with no modifier held.
    pub open spec fn none_spec() -> Modifiers {
        Modifiers { control: false, alt: false, shift: false, platform: false, function: false }
    }
}

impl Default for Modifiers {
    /// No modifier held.
    fn default() -> (m: Modifiers)
        ensures
            m == Modifiers::none_spec(),
    {
        Modifiers::none()
    }
}

/// One keyboard input: the held modifiers and the name of the key.
pub struct Keystroke {
    pub modifiers: Modifiers,
    pub key: String,
}

/// The mathematical form of a keystroke: the key as a character sequence.
pub ghost struct KeystrokeView {
    pub modifiers: Modifiers,
    pub key: Seq<char>,
}

impl View for Keystroke {
    type V = KeystrokeView;

    open spec fn view(&self) -> KeystrokeView {
        KeystrokeView { modifiers: self.modifiers, key: self.key@ }
    }
}

/// A keystroke token that [`Keystroke::parse`] rejects. Feeding one to the
/// harness is a test-authoring error.
#[derive(Clone, Copy, Debug, PartialEq, Eq, Structural)]
pub struct InvalidKeystroke;

/// The names that may stand before a `-` in a keystroke token.
pub open spec fn is_modifier_name(s: Seq<char>) -> bool {
    ||| s == "ctrl"@
    ||| s == "alt"@
    ||| s == "shift"@
    ||| s == "fn"@
    ||| s == "cmd"@
    ||| s == "super"@
    ||| s == "win"@
}

/// The modifier set after one modifier name has been read.
pub open spec fn apply_modifier(m: Modifiers, s: Seq<char>) -> Modifiers {
    if s == "ctrl"@ {
        Modifiers { control: true, ..m }
    } else if s == "alt"@ {
        Modifiers { alt: true, ..m }
    } else if s == "shift"@ {
        Modifiers { shift: true, ..m }
    } else if s == "fn"@ {
        Modifiers { function: true, ..m }
    } else {
        Modifiers { platform: true, ..m }
    }
}

/// The position of the first occurrence of `c` in `s` at or after `i`.
pub open spec fn first_at(s: Seq<char>, i: int, c: char) -> Option<int>
    decreases s.len() - i,
{
    if i < 0 || i >= s.len() {
        None
    } else if s[i] == c {
        Some(i)
    } else {
        first_at(s, i + 1, c)
    }
}

/// What `first_at` finds: the first occurrence, or none at all.
pub proof fn lemma_first_at(s: Seq<char>, i: int, c: char)
    requires
        0 <= i <= s.len(),
    ensures
        match first_at(s, i, c) {
            Some(d) => i <= d < s.len() && s[d] == c && (forall|j: int| i <= j < d ==> s[j] != c),
            None => forall|j: int| i <= j < s.len() ==> s[j] != c,
        },
    decreases s.len() - i,
{
    if i < s.len() && s[i] != c {
        lemma_first_at(s, i + 1, c);
    }
}

/// The occurrence `first_at` names is determined: a `c` at `d` with none
/// before it is the first.
pub proof fn lemma_first_at_is(s: Seq<char>, i: int, c: char, d: int)
    requires
        0 <= i <= d < s.len(),
        s[d] == c,
        forall|j: int| i <= j < d ==> s[j] != c,
    ensures
        first_at(s, i, c) == Some(d),
    decreases d - i,
{
    if i < d {
        lemma_first_at_is(s, i + 1, c, d);
    }
}

/// No `c` from `i` on means `first_at` finds nothing.
pub proof fn lemma_first_at_none(s: Seq<char>, i: int, c: char)
    requires
        0 <= i <= s.len(),
        forall|j: int| i <= j < s.len() ==> s[j] != c,
    ensures
        first_at(s, i, c) is None,
    decreases s.len() - i,
{
    if i < s.len() {
        lemma_first_at_none(s, i + 1, c);
    }
}

/// The grammar of a keystroke token, read from position `i` with the
/// modifiers seen so far. A token is zero or more modifier names, each
/// followed by `-`, then a non-empty key that is not itself a modifier
/// name; a token whose whole remainder is `-` names the dash key. Anything
/// else is malformed.
pub open spec fn parse_from(s: Seq<char>, i: int, m: Modifiers) -> Option<KeystrokeView>
    decreases s.len() - i,
{
    if !(0 <= i <= s.len()) {
        None
    } else if s.len() - i == 1 && s[i] == '-' {
        Some(KeystrokeView { modifiers: m, key: seq!['-'] })
    } else {
        match first_at(s, i, '-') {
            None => {
                let key = s.subrange(i, s.len() as int);
                if key.len() == 0 || is_modifier_name(key) {
                    None
                } else {
                    Some(KeystrokeView { modifiers: m, key })
                }
            },
            Some(d) => {
                if i <= d < s.len() && is_modifier_name(s.subrange(i, d)) {
                    parse_from(s, d + 1, apply_modifier(m, s.subrange(i, d)))
                } else {
                    None
                }
            },
        }
    }
}

/// The keystroke a whole token stands for, if it is well formed.
pub open spec fn parse_keystroke(s: Seq<char>) -> Option<KeystrokeView> {
    parse_from(s, 0, Modifiers::none_spec())
}

/// The keystrokes of a space-separated token list, read from position `i`.
/// The list is split at every space, so a leading, trailing or doubled
/// space yields an empty, malformed token.
pub open spec fn parse_keystrokes_from(s: Seq<char>, i: int) -> Option<Seq<KeystrokeView>>
    decreases s.len() - i,
{
    if !(0 <= i <= s.len()) {
        None
    } else {
        match first_at(s, i, ' ') {
            None => {
                match parse_keystroke(s.subrange(i, s.len() as int)) {
                    Some(k) => Some(seq![k]),
                    None => None,
                }
            },
            Some(d) => {
                if i <= d < s.len() {
                    match parse_keystroke(s.subrange(i, d)) {
                        Some(k) => {
                            match parse_keystrokes_from(s, d + 1) {
                                Some(rest) => Some(seq![k] + rest),
                                None => None,
                            }
                        },
                        None => None,
                    }
                } else {
                    None
                }
            },
        }
    }
}

/// The keystrokes a whole space-separated token list stands for, if every
/// token is well formed.
pub open spec fn parse_keystrokes(s: Seq<char>) -> Option<Seq<KeystrokeView>> {
    parse_keystrokes_from(s, 0)
}

/// Character-wise string equality.
pub(crate) fn str_eq(a: &str, b: &str) -> (r: bool)
    ensures
        r == (a@ == b@),
{
    let na = a.unicode_len();
    let nb = b.unicode_len();
    if na != nb {
        return false;
    }
    let mut i: usize = 0;
    while i < na
        invariant
            i <= na,
            na == a@.len(),
            na == b@.len(),
            forall|j: int| 0 <= j < i ==> a@[j] == b@[j],
        decreases na - i,
    {
        if a.get_char(i) != b.get_char(i) {
            return false;
        }
        i = i + 1;
    }
    proof {
        assert(a@ =~= b@);
    }
    true
}

/// Whether the token is one of the modifier names.
fn is_modifier_token(t: &str) -> (r: bool)
    ensures
        r == is_modifier_name(t@),
{
    str_eq(t, "ctrl") || str_eq(t, "alt") || str_eq(t, "shift") || str_eq(t, "fn") || str_eq(
        t,
        "cmd",
    ) || str_eq(t, "super") || str_eq(t, "win")
}

/// Set the modifier the token names.
fn apply_modifier_token(m: Modifiers, t: &str) -> (r: Modifiers)
    requires
        is_modifier_name(t@),
    ensures
        r == apply_modifier(m, t@),
{
    if str_eq(t, "ctrl") {
        Modifiers { control: true, ..m }
    } else if str_eq(t, "alt") {
        Modifiers { alt: true, ..m }
    } else if str_eq(t, "shift") {
        Modifiers { shift: true, ..m }
    } else if str_eq(t, "fn") {
        Modifiers { function: true, ..m }
    } else {
        Modifiers { platform: true, ..m }
    }
}

/// The position of the first `c` at or after `start`, or the string's
/// length if there is none.
fn find_char(source: &str, start: usize, c: char) -> (r: usize)
    requires
        start <= source@.len(),
    ensures
        match first_at(source@, start as int, c) {
            Some(d) => r == d,
            None => r == source@.len(),
        },
{
    let n = source.unicode_len();
    let mut d = start;
    while d < n
        invariant
            start <= d <= n,
            n == source@.len(),
            forall|j: int| start <= j < d ==> source@[j] != c,
        decreases n - d,
    {
        if source.get_char(d) == c {
            proof {
                lemma_first_at_is(source@, start as int, c, d as int);
            }
            return d;
        }
        d = d + 1;
    }
    proof {
        lemma_first_at_none(source@, start as int, c);
    }
    n
}

impl Keystroke {
    /// Read one keystroke token, such as `cmd-shift-p` or `escape`: zero or
    /// more modifier names, each followed by `-`, then the key. A malformed
    /// token is rejected, exactly when the grammar in [`parse_keystroke`]
    /// rejects its characters.
    pub fn parse(source: &str) -> (r: Result<Keystroke, InvalidKeystroke>)
        ensures
            match parse_keystroke(source@) {
                Some(k) => r matches Ok(ks) && ks@ == k,
                None => r is Err,
            },
    {
        parse_rec(source, 0, Modifiers::none())
    }
}

/// Read the rest of a token from `start`, with the modifiers read so far.
fn parse_rec(source: &str, start: usize, m: Modifiers) -> (r: Result<Keystroke, InvalidKeystroke>)
    requires
        start <= source@.len(),
    ensures
        match parse_from(source@, start as int, m) {
            Some(k) => r matches Ok(ks) && ks@ == k,
            None => r is Err,
        },
    decreases source@.len() - start,
{
    let n = source.unicode_len();
    if n - start == 1 && source.get_char(start) == '-' {
        let key = "-".to_owned();
        proof {
            reveal_strlit("-");
            assert(key@ =~= seq!['-']);
        }
        return Ok(Keystroke { modifiers: m, key });
    }
    let d = find_char(source, start, '-');
    proof {
        lemma_first_at(source@, start as int, '-');
    }
    if d == n {
        if start == n {
            return Err(InvalidKeystroke);
        }
        let key = source.substring_char(start, n);
        if is_modifier_token(key) {
            return Err(InvalidKeystroke);
        }
        Ok(Keystroke { modifiers: m, key: key.to_owned() })
    } else {
        let seg = source.substring_char(start, d);
        if is_modifier_token(seg) {
            let m2 = apply_modifier_token(m, seg);
            parse_rec(source, d + 1, m2)
        } else {
            Err(InvalidKeystroke)
        }
    }
}

/// Read a whole space-separated token list, such as `cmd-p escape`, into
/// keystrokes, in the order written. The list is rejected exactly when one
/// of its tokens is malformed.
pub fn parse_keystroke_sequence(source: &str) -> (r: Result<Vec<Keystroke>, InvalidKeystroke>)
    ensures
        match parse_keystrokes(source@) {
            Some(ks) => r matches Ok(v) && v@.map_values(|k: Keystroke| k@) == ks,
            None => r is Err,
        },
{
    let ghost s = source@;
    let ghost full = parse_keystrokes(s);
    let n = source.unicode_len();
    let mut i: usize = 0;
    let mut out: Vec<Keystroke> = Vec::new();
    loop
        invariant_except_break
            i <= n,
            n == s.len(),
            s == source@,
            full == parse_keystrokes(s),
            (match parse_keystrokes_from(s, i as int) {
                Some(rest) => full matches Some(all) && all == out@.map_values(|k: Keystroke| k@)
                    + rest,
                None => full is None,
            }),
        ensures
            full matches Some(all) && out@.map_values(|k: Keystroke| k@) == all,
        decreases n - i,
    {
        let d = find_char(source, i, ' ');
        proof {
            lemma_first_at(s, i as int, ' ');
        }
        let token = source.substring_char(i, d);
        let parsed = Keystroke::parse(token);
        let k = match parsed {
            Ok(k) => k,
            Err(e) => {
                return Err(e);
            },
        };
        let ghost done_pre = out@.map_values(|k: Keystroke| k@);
        out.push(k);
        proof {
            assert(out@.map_values(|k: Keystroke| k@) =~= done_pre.push(k@));
        }
        if d == n {
            proof {
                let all = full->0;
                assert(out@.map_values(|kk: Keystroke| kk@) =~= done_pre + seq![k@]);
                assert(all =~= out@.map_values(|kk: Keystroke| kk@));
            }
            break;
        } else {
            proof {
                if parse_keystrokes_from(s, d + 1) is Some {
                    let rest0 = parse_keystrokes_from(s, i as int)->0;
                    let rest1 = parse_keystrokes_from(s, d + 1)->0;
                    assert(rest0 == seq![k@] + rest1);
                    let all = full->0;
                    assert(all =~= out@.map_values(|kk: Keystroke| kk@) + rest1);
                } else {
                    assert(parse_keystrokes_from(s, i as int) is None);
                }
            }
            i = d + 1;
        }
    }
    Ok(out)
}

} // verus!
