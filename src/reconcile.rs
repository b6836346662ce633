use vstd::prelude::*;

use crate::convert::{converts_nothing, convert_spec, lemma_unconverted_extension};
use crate::keymap::KeyMap;

verus! {

/// A keystroke, as the host hands it over.
#[derive(Clone, Copy, PartialEq, Eq, Structural)]
pub enum Key {
    /// A typed character.
    Char(char),
    /// The backspace key.
    Backspace,
    /// Anything unrelated to typing: a click, a shortcut, a focus change.
    Other,
}

/// Whether `c` may be part of a pattern: a Latin letter, a digit or one of
/// the marks `.`, `:`, `$` and `_`.
pub open spec fn is_input_char(c: char) -> bool {
    ('a' <= c && c <= 'z') || ('A' <= c && c <= 'Z') || ('0' <= c && c <= '9') || c == '.' || c
        == ':' || c == '$' || c == '_'
}

/// Whether `c` ends a word: a space, a line break, a tab, or a printable
/// ASCII sign that no pattern uses.
pub open spec fn is_boundary_char(c: char) -> bool {
    c == ' ' || c == '\n' || c == '\t' || c == '\r' || ('!' <= c && c <= '~' && !is_input_char(c))
}

/// Whether `c` may be part of a pattern.
pub fn input_char(c: char) -> (r: bool)
    ensures
        r == is_input_char(c),
{
    ('a' <= c && c <= 'z') || ('A' <= c && c <= 'Z') || ('0' <= c && c <= '9') || c == '.' || c
        == ':' || c == '$' || c == '_'
}

/// Whether `c` ends a word.
pub fn boundary_char(c: char) -> (r: bool)
    ensures
        r == is_boundary_char(c),
{
    c == ' ' || c == '\n' || c == '\t' || c == '\r' || ('!' <= c && c <= '~' && !input_char(c))
}

/// What the host is to do with its text after a keystroke: take back the
/// last `retract` characters, type `emit`, then let the key itself through
/// where `pass_key` holds.
pub struct Edit {
    pub retract: usize,
    pub emit: Vec<char>,
    pub pass_key: bool,
}

/// What an [`Edit`] says.
pub struct EditView {
    pub retract: nat,
    pub emit: Seq<char>,
    pub pass_key: bool,
}

impl View for Edit {
    type V = EditView;

    open spec fn view(&self) -> EditView {
        EditView { retract: self.retract as nat, emit: self.emit@, pass_key: self.pass_key }
    }
}

impl Edit {
    /// Applies this edit, made for `key`, to the host's text `screen`.
    pub fn apply(&self, screen: &mut Vec<char>, key: Key)
        ensures
            final(screen)@ == apply_edit(old(screen)@, key, self@),
    {
        let n = screen.len();
        if self.retract <= n {
            screen.truncate(n - self.retract);
        } else {
            screen.clear();
        }
        let ghost kept = screen@;
        let mut i: usize = 0;
        while i < self.emit.len()
            invariant
                i <= self.emit@.len(),
                screen@ == kept + self.emit@.subrange(0, i as int),
            decreases self.emit@.len() - i,
        {
            screen.push(self.emit[i]);
            i = i + 1;
            assert(screen@ =~= kept + self.emit@.subrange(0, i as int));
        }
        assert(self.emit@.subrange(0, self.emit@.len() as int) =~= self.emit@);
        if self.pass_key {
            match key {
                Key::Char(c) => screen.push(c),
                Key::Backspace => {
                    screen.pop();
                },
                Key::Other => {},
            }
        }
    }
}

/// An edit that does nothing but, maybe, let the key through.
pub open spec fn pass_only(pass_key: bool) -> EditView {
    EditView { retract: 0, emit: Seq::empty(), pass_key }
}

/// The text `screen` after the key `key` came and the host applied `e`.
pub open spec fn apply_edit(screen: Seq<char>, key: Key, e: EditView) -> Seq<char> {
    let kept = if e.retract <= screen.len() {
        screen.subrange(0, screen.len() - e.retract)
    } else {
        Seq::empty()
    };
    let shown = kept + e.emit;
    if e.pass_key {
        match key {
            Key::Char(c) => shown.push(c),
            Key::Backspace => if shown.len() > 0 {
                shown.drop_last()
            } else {
                shown
            },
            Key::Other => shown,
        }
    } else {
        shown
    }
}

/// Whether `screen` ends with `tail`.
pub open spec fn ends_with(screen: Seq<char>, tail: Seq<char>) -> bool {
    tail.len() <= screen.len() && screen.subrange(screen.len() - tail.len(), screen.len() as int)
        == tail
}

/// The raw buffer after `key`: a pattern character is appended, a
/// backspace takes the last one off, anything else ends the word.
pub open spec fn raw_after(raw: Seq<char>, key: Key) -> Seq<char> {
    match key {
        Key::Char(c) => if is_input_char(c) {
            raw.push(c)
        } else {
            Seq::empty()
        },
        Key::Backspace => if raw.len() > 0 {
            raw.drop_last()
        } else {
            raw
        },
        Key::Other => Seq::empty(),
    }
}

/// The edit that `key` calls for, where `raw` is the word typed so far and
/// `emitted` what stands for it on screen.
///
/// - A pattern character: the whole new word is converted again. Where no
///   pattern occurs in it the key stands as typed; where the conversion is
///   what is shown already nothing changes; else what was shown is taken
///   back and the new conversion typed.
/// - A boundary: where the word converts something, its conversion is
///   taken back and typed once more, then the boundary goes through. The
///   word ends.
/// - A backspace: the shorter word is converted again and replaces what was
///   shown; with no word, one character of text committed before is taken
///   back.
/// - Anything else: the key goes through and the word is dropped.
pub open spec fn edit_after(km: KeyMap, raw: Seq<char>, emitted: Seq<char>, key: Key) -> EditView {
    match key {
        Key::Char(c) => if is_input_char(c) {
            let new = convert_spec(km, raw.push(c));
            if converts_nothing(km, raw.push(c)) {
                pass_only(true)
            } else if new == emitted {
                pass_only(false)
            } else {
                EditView { retract: emitted.len(), emit: new, pass_key: false }
            }
        } else if is_boundary_char(c) && raw.len() > 0 && !converts_nothing(km, raw) {
            EditView { retract: emitted.len(), emit: convert_spec(km, raw), pass_key: true }
        } else {
            pass_only(true)
        },
        Key::Backspace => if raw.len() > 0 {
            EditView {
                retract: emitted.len(),
                emit: convert_spec(km, raw.drop_last()),
                pass_key: false,
            }
        } else {
            EditView { retract: 1, emit: Seq::empty(), pass_key: false }
        },
        Key::Other => pass_only(true),
    }
}

/// What stands on screen follows the word: where the host's text ends with
/// the text emitted for the word, it still does after any keystroke, once
/// the host has applied the edit that the keystroke called for.
pub proof fn lemma_edit_keeps_screen(
    km: KeyMap,
    raw: Seq<char>,
    emitted: Seq<char>,
    key: Key,
    screen: Seq<char>,
)
    requires
        emitted == convert_spec(km, raw),
        ends_with(screen, emitted),
    ensures
        ends_with(
            apply_edit(screen, key, edit_after(km, raw, emitted, key)),
            convert_spec(km, raw_after(raw, key)),
        ),
{
    let e = edit_after(km, raw, emitted, key);
    let after = apply_edit(screen, key, e);
    let target = convert_spec(km, raw_after(raw, key));
    let prefix = screen.subrange(0, screen.len() - emitted.len());
    assert(screen =~= prefix + emitted);
    if target.len() == 0 {
        assert(after.subrange(after.len() as int, after.len() as int) =~= target);
    } else {
        match key {
            Key::Char(c) => {
                let t = raw.push(c);
                if converts_nothing(km, t) {
                    lemma_unconverted_extension(km, raw, c);
                    assert(after =~= prefix + t);
                    assert(after.subrange(after.len() - target.len(), after.len() as int)
                        =~= target);
                } else if convert_spec(km, t) == emitted {
                    assert(after =~= screen);
                } else {
                    assert(screen.subrange(0, screen.len() - emitted.len()) =~= prefix);
                    assert(after =~= prefix + target);
                    assert(after.subrange(after.len() - target.len(), after.len() as int)
                        =~= target);
                }
            },
            Key::Backspace => {
                assert(after =~= prefix + target);
                assert(after.subrange(after.len() - target.len(), after.len() as int) =~= target);
            },
            Key::Other => {},
        }
    }
}

/// Whether `a` and `b` hold the same characters.
fn same_chars(a: &Vec<char>, b: &Vec<char>) -> (r: bool)
    ensures
        r == (a@ == b@),
{
    if a.len() != b.len() {
        return false;
    }
    let mut i: usize = 0;
    while i < a.len()
        invariant
            a@.len() == b@.len(),
            i <= a@.len(),
            forall|j: int| 0 <= j < i ==> a@[j] == b@[j],
        decreases a@.len() - i,
    {
        if a[i] != b[i] {
            return false;
        }
        i = i + 1;
    }
    assert(a@ =~= b@);
    true
}

/// The word being typed: the Latin characters since the last boundary,
/// and the Bengali text that stands for them on screen.
pub struct ConversionState {
    raw: Vec<char>,
    emitted: Vec<char>,
}

impl ConversionState {
    /// The Latin characters typed since the last boundary.
    pub closed spec fn raw_view(&self) -> Seq<char> {
        self.raw@
    }

    /// The text that was last emitted for them.
    pub closed spec fn emitted_view(&self) -> Seq<char> {
        self.emitted@
    }

    /// The text on screen is the conversion of the raw buffer.
    pub open spec fn wf(&self, km: KeyMap) -> bool {
        self.emitted_view() == convert_spec(km, self.raw_view())
    }

    /// An empty word.
    pub fn new() -> (r: ConversionState)
        ensures
            r.raw_view() == Seq::<char>::empty(),
            r.emitted_view() == Seq::<char>::empty(),
    {
        ConversionState { raw: Vec::new(), emitted: Vec::new() }
    }

    /// The Latin characters typed since the last boundary.
    pub fn raw(&self) -> (r: &Vec<char>)
        ensures
            r@ == self.raw_view(),
    {
        &self.raw
    }

    /// The text that was last emitted for them.
    pub fn emitted(&self) -> (r: &Vec<char>)
        ensures
            r@ == self.emitted_view(),
    {
        &self.emitted
    }

    /// Forgets the word, as when the user turns conversion off.
    pub fn reset(&mut self)
        ensures
            final(self).raw_view() == Seq::<char>::empty(),
            final(self).emitted_view() == Seq::<char>::empty(),
    {
        self.raw.clear();
        self.emitted.clear();
    }

    /// Takes `key` into the word, and says how the host is to change its
    /// text so that it shows the conversion of the new word.
    pub fn handle(&mut self, km: &KeyMap, key: Key) -> (e: Edit)
        requires
            old(self).wf(*km),
        ensures
            final(self).wf(*km),
            final(self).raw_view() == raw_after(old(self).raw_view(), key),
            e@ == edit_after(*km, old(self).raw_view(), old(self).emitted_view(), key),
    {
        match key {
            Key::Char(c) => {
                if input_char(c) {
                    self.append(km, c)
                } else if boundary_char(c) {
                    self.commit(km)
                } else {
                    self.reset();
                    Edit { retract: 0, emit: Vec::new(), pass_key: true }
                }
            },
            Key::Backspace => self.backspace(km),
            Key::Other => {
                self.reset();
                Edit { retract: 0, emit: Vec::new(), pass_key: true }
            },
        }
    }

    fn append(&mut self, km: &KeyMap, c: char) -> (e: Edit)
        requires
            old(self).wf(*km),
            is_input_char(c),
        ensures
            final(self).wf(*km),
            final(self).raw_view() == raw_after(old(self).raw_view(), Key::Char(c)),
            e@ == edit_after(*km, old(self).raw_view(), old(self).emitted_view(), Key::Char(c)),
    {
        self.raw.push(c);
        let new = km.convert(&self.raw);
        if !km.converts_anything(&self.raw) {
            self.emitted = new;
            Edit { retract: 0, emit: Vec::new(), pass_key: true }
        } else if same_chars(&new, &self.emitted) {
            Edit { retract: 0, emit: Vec::new(), pass_key: false }
        } else {
            let retract = self.emitted.len();
            self.emitted = new.clone();
            Edit { retract, emit: new, pass_key: false }
        }
    }

    fn backspace(&mut self, km: &KeyMap) -> (e: Edit)
        requires
            old(self).wf(*km),
        ensures
            final(self).wf(*km),
            final(self).raw_view() == raw_after(old(self).raw_view(), Key::Backspace),
            e@ == edit_after(*km, old(self).raw_view(), old(self).emitted_view(), Key::Backspace),
    {
        if self.raw.len() > 0 {
            self.raw.pop();
            let new = km.convert(&self.raw);
            let retract = self.emitted.len();
            self.emitted = new.clone();
            Edit { retract, emit: new, pass_key: false }
        } else {
            Edit { retract: 1, emit: Vec::new(), pass_key: false }
        }
    }

    fn commit(&mut self, km: &KeyMap) -> (e: Edit)
        requires
            old(self).wf(*km),
        ensures
            final(self).raw_view() == Seq::<char>::empty(),
            final(self).emitted_view() == Seq::<char>::empty(),
            old(self).raw_view().len() > 0 && !converts_nothing(*km, old(self).raw_view()) ==> e@
                == (EditView {
                retract: old(self).emitted_view().len(),
                emit: convert_spec(*km, old(self).raw_view()),
                pass_key: true,
            }),
            !(old(self).raw_view().len() > 0 && !converts_nothing(*km, old(self).raw_view())) ==> e@
                == pass_only(true),
    {
        let e = if self.raw.len() > 0 && km.converts_anything(&self.raw) {
            let new = km.convert(&self.raw);
            Edit { retract: self.emitted.len(), emit: new, pass_key: true }
        } else {
            Edit { retract: 0, emit: Vec::new(), pass_key: true }
        };
        self.reset();
        e
    }
}

} // verus!
