use vstd::prelude::*;

use crate::keymap::{BengaliChar, GlyphView, KeyMap, MAX_PATTERN_LEN};

verus! {

/// The greatest `n` or below such that the `n` characters of `s` from `i`
/// form a pattern of `pats`; 0 where none does.
pub open spec fn longest_match_upto(pats: Map<Seq<char>, GlyphView>, s: Seq<char>, i: int, n: nat) -> nat
    decreases n,
{
    if n == 0 {
        0
    } else if i + n <= s.len() && pats.contains_key(s.subrange(i, i + n)) {
        n
    } else {
        longest_match_upto(pats, s, i, (n - 1) as nat)
    }
}

/// The length of the longest pattern of `km` that starts at `i` in `s`; 0
/// where none does.
pub open spec fn longest_match(km: KeyMap, s: Seq<char>, i: int) -> nat {
    longest_match_upto(km.patterns_view(), s, i, MAX_PATTERN_LEN as nat)
}

/// The text that the pattern `key` gives, after a consonant or not: the
/// vowel sign where a vowel with one follows a consonant, else its glyph.
pub open spec fn unit_text(km: KeyMap, key: Seq<char>, after_consonant: bool) -> Seq<char> {
    let g = km.patterns_view()[key];
    if g.is_vowel && after_consonant && km.diacritics_view().contains_key(key) {
        km.diacritics_view()[key]
    } else {
        g.text
    }
}

/// The conversion of `s` from position `i`, where `after_consonant` says
/// whether the unit before `i` was a consonant.
pub open spec fn convert_from(km: KeyMap, s: Seq<char>, i: int, after_consonant: bool) -> Seq<char>
    decreases s.len() - i,
{
    if i < 0 || i >= s.len() {
        Seq::empty()
    } else {
        let l = longest_match(km, s, i);
        if l == 0 {
            seq![s[i]] + convert_from(km, s, i + 1, false)
        } else {
            proof {
                lemma_longest_match_bounds(km, s, i);
            }
            let key = s.subrange(i, i + l);
            unit_text(km, key, after_consonant) + convert_from(
                km,
                s,
                i + l,
                km.patterns_view()[key].is_consonant,
            )
        }
    }
}

/// The Bengali text that the Latin characters `s` become under `km`.
pub open spec fn convert_spec(km: KeyMap, s: Seq<char>) -> Seq<char> {
    convert_from(km, s, 0, false)
}

/// Whether no pattern of `km` starts at any position of `s`.
pub open spec fn converts_nothing(km: KeyMap, s: Seq<char>) -> bool {
    forall|i: int| 0 <= i < s.len() ==> #[trigger] longest_match(km, s, i) == 0
}

proof fn lemma_longest_match_upto(pats: Map<Seq<char>, GlyphView>, s: Seq<char>, i: int, n: nat)
    ensures
        longest_match_upto(pats, s, i, n) <= n,
        longest_match_upto(pats, s, i, n) > 0 ==> {
            &&& i + longest_match_upto(pats, s, i, n) <= s.len()
            &&& pats.contains_key(s.subrange(i, i + longest_match_upto(pats, s, i, n)))
        },
        forall|m: int|
            longest_match_upto(pats, s, i, n) < m <= n && i + m <= s.len() ==> !pats.contains_key(
                #[trigger] s.subrange(i, i + m),
            ),
    decreases n,
{
    if n > 0 {
        lemma_longest_match_upto(pats, s, i, (n - 1) as nat);
    }
}

/// Bounds on the longest match at `i`.
pub proof fn lemma_longest_match_bounds(km: KeyMap, s: Seq<char>, i: int)
    ensures
        longest_match(km, s, i) <= MAX_PATTERN_LEN,
        longest_match(km, s, i) > 0 ==> {
            &&& i + longest_match(km, s, i) <= s.len()
            &&& km.patterns_view().contains_key(s.subrange(i, i + longest_match(km, s, i)))
        },
{
    lemma_longest_match_upto(km.patterns_view(), s, i, MAX_PATTERN_LEN as nat);
}

/// Maximal munch: the tokenizer's choice at any position is a pattern of
/// the table, and no longer run of characters from there is one.
pub proof fn lemma_maximal_munch(km: KeyMap, s: Seq<char>, i: int)
    requires
        km.wf(),
        0 <= i < s.len(),
    ensures
        longest_match(km, s, i) > 0 ==> km.patterns_view().contains_key(
            s.subrange(i, i + longest_match(km, s, i)),
        ),
        forall|m: int|
            longest_match(km, s, i) < m && i + m <= s.len() ==> !km.patterns_view().contains_key(
                #[trigger] s.subrange(i, i + m),
            ),
{
    lemma_longest_match_upto(km.patterns_view(), s, i, MAX_PATTERN_LEN as nat);
    assert forall|m: int|
        longest_match(km, s, i) < m && i + m <= s.len() implies !km.patterns_view().contains_key(
        #[trigger] s.subrange(i, i + m),
    ) by {
        if m > MAX_PATTERN_LEN && km.patterns_view().contains_key(s.subrange(i, i + m)) {
            assert(s.subrange(i, i + m).len() == m);
        }
    }
}

/// Conversion is a function of the table and the input alone: two
/// conversions of one buffer give the same text.
pub proof fn lemma_convert_deterministic(km: KeyMap, s: Seq<char>, r1: Seq<char>, r2: Seq<char>)
    requires
        r1 == convert_spec(km, s),
        r2 == convert_spec(km, s),
    ensures
        r1 == r2,
{
}

proof fn lemma_passthrough_from(km: KeyMap, s: Seq<char>, i: int, after_consonant: bool)
    requires
        converts_nothing(km, s),
        0 <= i <= s.len(),
    ensures
        convert_from(km, s, i, after_consonant) == s.subrange(i, s.len() as int),
    decreases s.len() - i,
{
    if i < s.len() {
        assert(longest_match(km, s, i) == 0);
        lemma_passthrough_from(km, s, i + 1, false);
        assert(seq![s[i]] + s.subrange(i + 1, s.len() as int) =~= s.subrange(i, s.len() as int));
    } else {
        assert(s.subrange(i, s.len() as int) =~= Seq::<char>::empty());
    }
}

/// Where no pattern starts anywhere in `s`, conversion gives `s` back.
pub proof fn lemma_converts_nothing_passthrough(km: KeyMap, s: Seq<char>)
    requires
        converts_nothing(km, s),
    ensures
        convert_spec(km, s) == s,
{
    lemma_passthrough_from(km, s, 0, false);
    assert(s.subrange(0, s.len() as int) =~= s);
}

/// Passthrough: a run of characters in which no pattern of the table
/// occurs converts to itself.
pub proof fn lemma_passthrough(km: KeyMap, s: Seq<char>)
    requires
        forall|i: int, m: int|
            0 <= i && 1 <= m && i + m <= s.len() ==> !km.patterns_view().contains_key(
                #[trigger] s.subrange(i, i + m),
            ),
    ensures
        convert_spec(km, s) == s,
{
    assert forall|i: int| 0 <= i < s.len() implies #[trigger] longest_match(km, s, i) == 0 by {
        lemma_longest_match_bounds(km, s, i);
    }
    lemma_converts_nothing_passthrough(km, s);
}

/// Appends the characters of `text` to `out`.
fn push_text(out: &mut Vec<char>, text: &String)
    ensures
        final(out)@ == old(out)@ + text@,
{
    let t = text.as_str();
    let n = t.unicode_len();
    let mut i: usize = 0;
    while i < n
        invariant
            n == t@.len(),
            t@ == text@,
            i <= n,
            out@ == old(out)@ + t@.subrange(0, i as int),
        decreases n - i,
    {
        out.push(t.get_char(i));
        i = i + 1;
        assert(out@ =~= old(out)@ + t@.subrange(0, i as int));
    }
    assert(t@.subrange(0, n as int) =~= t@);
}

/// A pattern that fits in `s` at `i` fits in any extension of `s` there.
proof fn lemma_converts_nothing_prefix(km: KeyMap, s: Seq<char>, c: char)
    requires
        converts_nothing(km, s.push(c)),
    ensures
        converts_nothing(km, s),
{
    assert forall|i: int| 0 <= i < s.len() implies #[trigger] longest_match(km, s, i) == 0 by {
        let t = s.push(c);
        assert(longest_match(km, t, i) == 0);
        lemma_longest_match_upto(km.patterns_view(), t, i, MAX_PATTERN_LEN as nat);
        lemma_longest_match_upto(km.patterns_view(), s, i, MAX_PATTERN_LEN as nat);
        let l = longest_match(km, s, i);
        if l > 0 {
            assert(t.subrange(i, i + l) =~= s.subrange(i, i + l));
        }
    }
}

/// Typing one more character after a run that converts nothing, where the
/// whole still converts nothing, leaves both runs unconverted.
pub proof fn lemma_unconverted_extension(km: KeyMap, s: Seq<char>, c: char)
    requires
        converts_nothing(km, s.push(c)),
    ensures
        convert_spec(km, s) == s,
        convert_spec(km, s.push(c)) == s.push(c),
{
    lemma_converts_nothing_prefix(km, s, c);
    lemma_converts_nothing_passthrough(km, s);
    lemma_converts_nothing_passthrough(km, s.push(c));
}

impl KeyMap {
    /// Whether some pattern starts somewhere in `buf`.
    pub fn converts_anything(&self, buf: &Vec<char>) -> (r: bool)
        ensures
            r == !converts_nothing(*self, buf@),
    {
        let len = buf.len();
        let mut i: usize = 0;
        while i < len
            invariant
                len == buf@.len(),
                i <= len,
                forall|j: int| 0 <= j < i ==> #[trigger] longest_match(*self, buf@, j) == 0,
            decreases len - i,
        {
            if self.longest_match(buf, i) > 0 {
                return true;
            }
            i = i + 1;
        }
        false
    }

    /// The length of the longest pattern that starts at `start` in `buf`,
    /// or 0 where none does.
    pub fn longest_match(&self, buf: &Vec<char>, start: usize) -> (r: usize)
        ensures
            r == longest_match(*self, buf@, start as int),
    {
        let mut n: usize = MAX_PATTERN_LEN;
        while n > 0
            invariant
                n <= MAX_PATTERN_LEN,
                longest_match(*self, buf@, start as int) == longest_match_upto(
                    self.patterns_view(),
                    buf@,
                    start as int,
                    n as nat,
                ),
            decreases n,
        {
            if n <= buf.len() && start <= buf.len() - n {
                if self.find(buf, start, n).is_some() {
                    return n;
                }
            }
            n = n - 1;
        }
        0
    }

    /// The conversion of the whole of `buffer`: at each position the
    /// longest pattern that starts there, or the character itself where
    /// none does; a vowel right after a consonant takes its vowel sign.
    pub fn convert(&self, buffer: &Vec<char>) -> (r: Vec<char>)
        ensures
            r@ == convert_spec(*self, buffer@),
    {
        let len = buffer.len();
        let mut out: Vec<char> = Vec::new();
        let mut i: usize = 0;
        let mut after_consonant = false;
        while i < len
            invariant
                len == buffer@.len(),
                i <= len,
                out@ + convert_from(*self, buffer@, i as int, after_consonant) == convert_spec(
                    *self,
                    buffer@,
                ),
            decreases len - i,
        {
            let l = self.longest_match(buffer, i);
            proof {
                lemma_longest_match_bounds(*self, buffer@, i as int);
            }
            let ghost rest = convert_from(*self, buffer@, i as int, after_consonant);
            if l == 0 {
                out.push(buffer[i]);
                i = i + 1;
                after_consonant = false;
            } else {
                let g: &BengaliChar = self.find(buffer, i, l).unwrap();
                let mut text: &String = &g.bengali;
                if g.is_vowel && after_consonant {
                    match self.find_diacritic(buffer, i, l) {
                        Some(d) => {
                            text = d;
                        },
                        None => {},
                    }
                }
                push_text(&mut out, text);
                after_consonant = g.is_consonant;
                i = i + l;
            }
        }
        assert(out@ + Seq::<char>::empty() =~= out@);
        out
    }
}

} // verus!
