use vstd::prelude::*;

use crate::keymap::{consonant, other, vowel, GlyphView, KeyMap};
use crate::reconcile::{
    apply_edit, edit_after, ends_with, lemma_edit_keeps_screen, raw_after, ConversionState, Key,
};

verus! {

/// `m` with the conjuncts of the extended layout.
pub open spec fn with_conjuncts(m: Map<Seq<char>, GlyphView>) -> Map<Seq<char>, GlyphView> {
    m
        .insert("kShN"@, consonant("ক্ষ্ণ"@))
        .insert("kShw"@, consonant("ক্ষ্ব"@))
        .insert("kShm"@, consonant("ক্ষ্ম"@))
        .insert("kSh"@, consonant("ক্ষ"@))
        .insert("kkh"@, consonant("ক্ষ"@))
        .insert("NgkSh"@, consonant("ঙ্ক্ষ"@))
        .insert("Ngkt"@, consonant("ঙ্ক্ত"@))
        .insert("Ngkh"@, consonant("ঙ্খ"@))
        .insert("Nggh"@, consonant("ঙ্ঘ"@))
        .insert("Ngk"@, consonant("ঙ্ক"@))
        .insert("Ngg"@, consonant("ঙ্গ"@))
        .insert("Ngm"@, consonant("ঙ্ম"@))
        .insert("cCw"@, consonant("চ্ছ্ব"@))
        .insert("cC"@, consonant("চ্ছ"@))
        .insert("cY"@, consonant("চ্ঞ"@))
        .insert("cw"@, consonant("চ্ব"@))
        .insert("cc"@, consonant("চ্চ"@))
        .insert("jjw"@, consonant("জ্জ্ব"@))
        .insert("jjh"@, consonant("জ্ঝ"@))
        .insert("jY"@, consonant("জ্ঞ"@))
        .insert("gg"@, consonant("জ্ঞ"@))
        .insert("jw"@, consonant("জ্ব"@))
        .insert("jj"@, consonant("জ্জ"@))
        .insert("Yjh"@, consonant("ঞ্ঝ"@))
        .insert("Yc"@, consonant("ঞ্চ"@))
        .insert("nc"@, consonant("ঞ্চ"@))
        .insert("YC"@, consonant("ঞ্ছ"@))
        .insert("nC"@, consonant("ঞ্ছ"@))
        .insert("Yj"@, consonant("ঞ্জ"@))
        .insert("nj"@, consonant("ঞ্জ"@))
        .insert("TT"@, consonant("ট্ট"@))
        .insert("Tw"@, consonant("ট্ব"@))
        .insert("Tm"@, consonant("ট্ম"@))
        .insert("DD"@, consonant("ড্ড"@))
        .insert("Dw"@, consonant("ড্ব"@))
        .insert("NTh"@, consonant("ণ্ঠ"@))
        .insert("NDh"@, consonant("ণ্ঢ"@))
        .insert("NT"@, consonant("ণ্ট"@))
        .insert("ND"@, consonant("ণ্ড"@))
        .insert("NN"@, consonant("ণ্ণ"@))
        .insert("Nw"@, consonant("ণ্ব"@))
        .insert("Nm"@, consonant("ণ্ম"@))
        .insert("ttw"@, consonant("ত্ত্ব"@))
        .insert("tth"@, consonant("ত্থ"@))
        .insert("tk"@, consonant("ৎক"@))
        .insert("tt"@, consonant("ত্ত"@))
        .insert("tn"@, consonant("ত্ন"@))
        .insert("tw"@, consonant("ত্ব"@))
        .insert("tm"@, consonant("ত্ম"@))
        .insert("tl"@, consonant("ৎল"@))
        .insert("ts"@, consonant("ৎস"@))
        .insert("thw"@, consonant("থ্ব"@))
        .insert("ddw"@, consonant("দ্দ্ব"@))
        .insert("ddh"@, consonant("দ্ধ"@))
        .insert("dgh"@, consonant("দ্ঘ"@))
        .insert("dg"@, consonant("দ্গ"@))
        .insert("dd"@, consonant("দ্দ"@))
        .insert("dw"@, consonant("দ্ব"@))
        .insert("dv"@, consonant("দ্ভ"@))
        .insert("dm"@, consonant("দ্ম"@))
        .insert("dhn"@, consonant("ধ্ন"@))
        .insert("dhw"@, consonant("ধ্ব"@))
        .insert("dhm"@, consonant("ধ্ম"@))
        .insert("nTh"@, consonant("ন্ঠ"@))
        .insert("ntw"@, consonant("ন্ত্ব"@))
        .insert("ndw"@, consonant("ন্দ্ব"@))
        .insert("nT"@, consonant("ন্ট"@))
        .insert("nD"@, consonant("ন্ড"@))
        .insert("nt"@, consonant("ন্ত"@))
        .insert("nth"@, consonant("ন্থ"@))
        .insert("nd"@, consonant("ন্দ"@))
        .insert("ndh"@, consonant("ন্ধ"@))
        .insert("nn"@, consonant("ন্ন"@))
        .insert("nw"@, consonant("ন্ব"@))
        .insert("nm"@, consonant("ন্ম"@))
        .insert("pT"@, consonant("প্ট"@))
        .insert("pt"@, consonant("প্ত"@))
        .insert("pn"@, consonant("প্ন"@))
        .insert("pp"@, consonant("প্প"@))
        .insert("pl"@, consonant("প্ল"@))
        .insert("ps"@, consonant("প্স"@))
        .insert("fl"@, consonant("ফ্ল"@))
        .insert("bj"@, consonant("ব্জ"@))
        .insert("bd"@, consonant("ব্দ"@))
        .insert("bdh"@, consonant("ব্ধ"@))
        .insert("bb"@, consonant("ব্ব"@))
        .insert("bl"@, consonant("ব্ল"@))
        .insert("vw"@, consonant("ভ্ব"@))
        .insert("mn"@, consonant("ম্ন"@))
        .insert("mp"@, consonant("ম্প"@))
        .insert("mf"@, consonant("ম্ফ"@))
        .insert("mb"@, consonant("ম্ব"@))
        .insert("mv"@, consonant("ম্ভ"@))
        .insert("mm"@, consonant("ম্ম"@))
        .insert("ml"@, consonant("ম্ল"@))
        .insert("lk"@, consonant("ল্ক"@))
        .insert("lg"@, consonant("ল্গ"@))
        .insert("lT"@, consonant("ল্ট"@))
        .insert("lD"@, consonant("ল্ড"@))
        .insert("lp"@, consonant("ল্প"@))
        .insert("lf"@, consonant("ল্ফ"@))
        .insert("lw"@, consonant("ল্ব"@))
        .insert("lv"@, consonant("ল্ভ"@))
        .insert("lm"@, consonant("ল্ম"@))
        .insert("ll"@, consonant("ল্ল"@))
        .insert("shc"@, consonant("শ্চ"@))
        .insert("shC"@, consonant("শ্ছ"@))
        .insert("shn"@, consonant("শ্ন"@))
        .insert("shw"@, consonant("শ্ব"@))
        .insert("shm"@, consonant("শ্ম"@))
        .insert("shl"@, consonant("শ্ল"@))
        .insert("ShTh"@, consonant("ষ্ঠ"@))
        .insert("Shk"@, consonant("ষ্ক"@))
        .insert("ShT"@, consonant("ষ্ট"@))
        .insert("ShN"@, consonant("ষ্ণ"@))
        .insert("Shp"@, consonant("ষ্প"@))
        .insert("Shf"@, consonant("ষ্ফ"@))
        .insert("Shw"@, consonant("ষ্ব"@))
        .insert("Shm"@, consonant("ষ্ম"@))
        .insert("skh"@, consonant("স্খ"@))
        .insert("spl"@, consonant("স্প্ল"@))
        .insert("stw"@, consonant("স্ত্ব"@))
        .insert("sth"@, consonant("স্থ"@))
        .insert("sk"@, consonant("স্ক"@))
        .insert("sT"@, consonant("স্ট"@))
        .insert("st"@, consonant("স্ত"@))
        .insert("sn"@, consonant("স্ন"@))
        .insert("sp"@, consonant("স্প"@))
        .insert("sf"@, consonant("স্ফ"@))
        .insert("sw"@, consonant("স্ব"@))
        .insert("sm"@, consonant("স্ম"@))
        .insert("sl"@, consonant("স্ল"@))
        .insert("hN"@, consonant("হ্ণ"@))
        .insert("hn"@, consonant("হ্ন"@))
        .insert("hw"@, consonant("হ্ব"@))
        .insert("hm"@, consonant("হ্ম"@))
        .insert("hl"@, consonant("হ্ল"@))
        .insert("kk"@, consonant("ক্ক"@))
        .insert("kT"@, consonant("ক্ট"@))
        .insert("kt"@, consonant("ক্ত"@))
        .insert("kw"@, consonant("ক্ব"@))
        .insert("km"@, consonant("ক্ম"@))
        .insert("kl"@, consonant("ক্ল"@))
        .insert("ks"@, consonant("ক্স"@))
        .insert("gN"@, consonant("গ্ণ"@))
        .insert("gdh"@, consonant("গ্ধ"@))
        .insert("gn"@, consonant("গ্ন"@))
        .insert("gw"@, consonant("গ্ব"@))
        .insert("gm"@, consonant("গ্ম"@))
        .insert("gl"@, consonant("গ্ল"@))
        .insert("ghn"@, consonant("ঘ্ন"@))
}

/// `m` with the consonants and the consonant signs of the extended layout.
pub open spec fn with_consonants(m: Map<Seq<char>, GlyphView>) -> Map<Seq<char>, GlyphView> {
    m
        .insert("kh"@, consonant("খ"@))
        .insert("k"@, consonant("ক"@))
        .insert("gh"@, consonant("ঘ"@))
        .insert("g"@, consonant("গ"@))
        .insert("Ng"@, consonant("ঙ"@))
        .insert("ch"@, consonant("ছ"@))
        .insert("C"@, consonant("ছ"@))
        .insert("c"@, consonant("চ"@))
        .insert("jh"@, consonant("ঝ"@))
        .insert("j"@, consonant("জ"@))
        .insert("Y"@, consonant("ঞ"@))
        .insert("Th"@, consonant("ঠ"@))
        .insert("T"@, consonant("ট"@))
        .insert("Dh"@, consonant("ঢ"@))
        .insert("D"@, consonant("ড"@))
        .insert("N"@, consonant("ণ"@))
        .insert("th"@, consonant("থ"@))
        .insert("t"@, consonant("ত"@))
        .insert("dh"@, consonant("ধ"@))
        .insert("d"@, consonant("দ"@))
        .insert("n"@, consonant("ন"@))
        .insert("ph"@, consonant("ফ"@))
        .insert("f"@, consonant("ফ"@))
        .insert("p"@, consonant("প"@))
        .insert("bh"@, consonant("ভ"@))
        .insert("v"@, consonant("ভ"@))
        .insert("b"@, consonant("ব"@))
        .insert("m"@, consonant("ম"@))
        .insert("z"@, consonant("য"@))
        .insert("r"@, consonant("র"@))
        .insert("l"@, consonant("ল"@))
        .insert("Sh"@, consonant("ষ"@))
        .insert("sh"@, consonant("শ"@))
        .insert("S"@, consonant("শ"@))
        .insert("s"@, consonant("স"@))
        .insert("h"@, consonant("হ"@))
        .insert("Rh"@, consonant("ঢ়"@))
        .insert("R"@, consonant("ড়"@))
        .insert("y"@, consonant("য়"@))
        .insert(".t"@, consonant("ৎ"@))
        .insert("ng"@, other("ং"@))
        .insert(":"@, other("ঃ"@))
        .insert("H"@, other("ঃ"@))
        .insert(".n"@, other("ঁ"@))
}

/// `m` with the independent vowels of the extended layout.
pub open spec fn with_vowels(m: Map<Seq<char>, GlyphView>) -> Map<Seq<char>, GlyphView> {
    m
        .insert("o"@, vowel("অ"@))
        .insert("a"@, vowel("আ"@))
        .insert("i"@, vowel("ই"@))
        .insert("I"@, vowel("ঈ"@))
        .insert("u"@, vowel("উ"@))
        .insert("U"@, vowel("ঊ"@))
        .insert("rri"@, vowel("ঋ"@))
        .insert("e"@, vowel("এ"@))
        .insert("oi"@, vowel("ঐ"@))
        .insert("O"@, vowel("ও"@))
        .insert("ou"@, vowel("ঔ"@))
}

/// `d` with the vowel signs of the extended layout.
pub open spec fn with_vowel_signs(d: Map<Seq<char>, Seq<char>>) -> Map<Seq<char>, Seq<char>> {
    d
        .insert("a"@, "া"@)
        .insert("i"@, "ি"@)
        .insert("I"@, "ী"@)
        .insert("u"@, "ু"@)
        .insert("U"@, "ূ"@)
        .insert("rri"@, "ৃ"@)
        .insert("e"@, "ে"@)
        .insert("oi"@, "ৈ"@)
        .insert("O"@, "ো"@)
        .insert("ou"@, "ৌ"@)
}

/// `m` with the digits, punctuation and other signs of the extended layout.
pub open spec fn with_others(m: Map<Seq<char>, GlyphView>) -> Map<Seq<char>, GlyphView> {
    m
        .insert("aya"@, other("অ্যা"@))
        .insert("."@, other("।"@))
        .insert("_"@, other("্"@))
        .insert("$"@, other("৳"@))
        .insert("0"@, other("০"@))
        .insert("1"@, other("১"@))
        .insert("2"@, other("২"@))
        .insert("3"@, other("৩"@))
        .insert("4"@, other("৪"@))
        .insert("5"@, other("৫"@))
        .insert("6"@, other("৬"@))
        .insert("7"@, other("৭"@))
        .insert("8"@, other("৮"@))
        .insert("9"@, other("৯"@))
}
/// The patterns of the extended layout: the standard one with many more
/// conjuncts and the virama sign.
pub open spec fn extended_patterns() -> Map<Seq<char>, GlyphView> {
    with_others(with_vowels(with_consonants(with_conjuncts(Map::empty()))))
}

/// The vowel signs of the extended layout.
pub open spec fn extended_diacritics() -> Map<Seq<char>, Seq<char>> {
    with_vowel_signs(Map::empty())
}

/// Takes `key` into the word being typed on the terminal line `line`, and
/// brings the line up to date: it then ends with the conversion of the word.
pub fn process_input(
    state: &mut ConversionState,
    line: &mut Vec<char>,
    key: Key,
    keyboard: &BengaliKeyboard,
)
    requires
        old(state).wf(keyboard.keymap_view()),
        ends_with(old(line)@, old(state).emitted_view()),
    ensures
        final(state).wf(keyboard.keymap_view()),
        final(state).raw_view() == raw_after(old(state).raw_view(), key),
        final(line)@ == apply_edit(
            old(line)@,
            key,
            edit_after(keyboard.keymap_view(), old(state).raw_view(), old(state).emitted_view(), key),
        ),
        ends_with(final(line)@, final(state).emitted_view()),
{
    let edit = state.handle(keyboard.keymap(), key);
    edit.apply(line, key);
    proof {
        lemma_edit_keeps_screen(
            keyboard.keymap_view(),
            old(state).raw_view(),
            old(state).emitted_view(),
            key,
            old(line)@,
        );
    }
}

/// The extended layout, as the terminal keyboard uses it. Its table tags
/// each pattern with a role and holds the vowel signs, so that conversion
/// with it writes a vowel after a consonant as a sign, as with the standard
/// layout.
pub struct BengaliKeyboard {
    patterns: KeyMap,
}

impl BengaliKeyboard {
    /// The table of this keyboard.
    pub closed spec fn keymap_view(&self) -> KeyMap {
        self.patterns
    }

    /// The keyboard with the extended layout.
    pub fn new() -> (r: BengaliKeyboard)
        ensures
            r.keymap_view().wf(),
            r.keymap_view().patterns_view() == extended_patterns(),
            r.keymap_view().diacritics_view() == extended_diacritics(),
    {
        let mut patterns = KeyMap::empty();
        Self::add_complex_letters(&mut patterns);
        Self::add_consonants(&mut patterns);
        Self::add_vowels(&mut patterns);
        Self::add_others(&mut patterns);
        BengaliKeyboard { patterns }
    }

    /// The table of this keyboard.
    pub fn keymap(&self) -> (r: &KeyMap)
        ensures
            *r == self.keymap_view(),
    {
        &self.patterns
    }

    /// The Bengali text bound to exactly `input`, if any.
    pub fn find_exact_match(&self, input: &str) -> (r: Option<String>)
        ensures
            match r {
                Some(t) => {
                    &&& self.keymap_view().patterns_view().contains_key(input@)
                    &&& self.keymap_view().patterns_view()[input@].text == t@
                },
                None => !self.keymap_view().patterns_view().contains_key(input@),
            },
    {
        self.patterns.lookup_exact(input)
    }

    /// Adds the independent vowels and their vowel signs.
    fn add_vowels(patterns: &mut KeyMap)
        requires
            old(patterns).wf(),
        ensures
            final(patterns).wf(),
            final(patterns).patterns_view() == with_vowels(old(patterns).patterns_view()),
            final(patterns).diacritics_view() == with_vowel_signs(old(patterns).diacritics_view()),
    {
        proof {
            reveal_strlit("o"); reveal_strlit("a"); reveal_strlit("i"); reveal_strlit("I"); reveal_strlit("u");
            reveal_strlit("U"); reveal_strlit("rri"); reveal_strlit("e"); reveal_strlit("oi");
            reveal_strlit("O"); reveal_strlit("ou");
        }
        patterns.add("o", "অ", false, true);
        patterns.add("a", "আ", false, true);
        patterns.add("i", "ই", false, true);
        patterns.add("I", "ঈ", false, true);
        patterns.add("u", "উ", false, true);
        patterns.add("U", "ঊ", false, true);
        patterns.add("rri", "ঋ", false, true);
        patterns.add("e", "এ", false, true);
        patterns.add("oi", "ঐ", false, true);
        patterns.add("O", "ও", false, true);
        patterns.add("ou", "ঔ", false, true);
        // Vowel signs, used after a consonant
        patterns.add_diacritic("a", "া");
        patterns.add_diacritic("i", "ি");
        patterns.add_diacritic("I", "ী");
        patterns.add_diacritic("u", "ু");
        patterns.add_diacritic("U", "ূ");
        patterns.add_diacritic("rri", "ৃ");
        patterns.add_diacritic("e", "ে");
        patterns.add_diacritic("oi", "ৈ");
        patterns.add_diacritic("O", "ো");
        patterns.add_diacritic("ou", "ৌ");
    }

    /// Adds the consonants and the consonant signs.
    fn add_consonants(patterns: &mut KeyMap)
        requires
            old(patterns).wf(),
        ensures
            final(patterns).wf(),
            final(patterns).patterns_view() == with_consonants(old(patterns).patterns_view()),
            final(patterns).diacritics_view() == old(patterns).diacritics_view(),
    {
        proof {
            reveal_strlit("kh"); reveal_strlit("k"); reveal_strlit("gh"); reveal_strlit("g");
            reveal_strlit("Ng"); reveal_strlit("ch"); reveal_strlit("C"); reveal_strlit("c");
            reveal_strlit("jh"); reveal_strlit("j"); reveal_strlit("Y"); reveal_strlit("Th");
            reveal_strlit("T"); reveal_strlit("Dh"); reveal_strlit("D"); reveal_strlit("N"); reveal_strlit("th");
            reveal_strlit("t"); reveal_strlit("dh"); reveal_strlit("d"); reveal_strlit("n"); reveal_strlit("ph");
            reveal_strlit("f"); reveal_strlit("p"); reveal_strlit("bh"); reveal_strlit("v"); reveal_strlit("b");
            reveal_strlit("m"); reveal_strlit("z"); reveal_strlit("r"); reveal_strlit("l"); reveal_strlit("Sh");
            reveal_strlit("sh"); reveal_strlit("S"); reveal_strlit("s"); reveal_strlit("h"); reveal_strlit("Rh");
            reveal_strlit("R"); reveal_strlit("y"); reveal_strlit(".t"); reveal_strlit("ng");
            reveal_strlit(":"); reveal_strlit("H"); reveal_strlit(".n");
        }
        patterns.add("kh", "খ", true, false);
        patterns.add("k", "ক", true, false);
        patterns.add("gh", "ঘ", true, false);
        patterns.add("g", "গ", true, false);
        patterns.add("Ng", "ঙ", true, false);
        patterns.add("ch", "ছ", true, false);
        patterns.add("C", "ছ", true, false);
        patterns.add("c", "চ", true, false);
        patterns.add("jh", "ঝ", true, false);
        patterns.add("j", "জ", true, false);
        patterns.add("Y", "ঞ", true, false);
        patterns.add("Th", "ঠ", true, false);
        patterns.add("T", "ট", true, false);
        patterns.add("Dh", "ঢ", true, false);
        patterns.add("D", "ড", true, false);
        patterns.add("N", "ণ", true, false);
        patterns.add("th", "থ", true, false);
        patterns.add("t", "ত", true, false);
        patterns.add("dh", "ধ", true, false);
        patterns.add("d", "দ", true, false);
        patterns.add("n", "ন", true, false);
        patterns.add("ph", "ফ", true, false);
        patterns.add("f", "ফ", true, false);
        patterns.add("p", "প", true, false);
        patterns.add("bh", "ভ", true, false);
        patterns.add("v", "ভ", true, false);
        patterns.add("b", "ব", true, false);
        patterns.add("m", "ম", true, false);
        patterns.add("z", "য", true, false);
        patterns.add("r", "র", true, false);
        patterns.add("l", "ল", true, false);
        patterns.add("Sh", "ষ", true, false);
        patterns.add("sh", "শ", true, false);
        patterns.add("S", "শ", true, false);
        patterns.add("s", "স", true, false);
        patterns.add("h", "হ", true, false);
        patterns.add("Rh", "ঢ়", true, false);
        patterns.add("R", "ড়", true, false);
        patterns.add("y", "য়", true, false);
        patterns.add(".t", "ৎ", true, false);
        patterns.add("ng", "ং", false, false);
        patterns.add(":", "ঃ", false, false);
        patterns.add("H", "ঃ", false, false);
        patterns.add(".n", "ঁ", false, false);
    }

    /// Adds the conjuncts.
    fn add_complex_letters(patterns: &mut KeyMap)
        requires
            old(patterns).wf(),
        ensures
            final(patterns).wf(),
            final(patterns).patterns_view() == with_conjuncts(old(patterns).patterns_view()),
            final(patterns).diacritics_view() == old(patterns).diacritics_view(),
    {
        proof {
            reveal_strlit("kShN"); reveal_strlit("kShw"); reveal_strlit("kShm"); reveal_strlit("kSh");
            reveal_strlit("kkh"); reveal_strlit("NgkSh"); reveal_strlit("Ngkt"); reveal_strlit("Ngkh");
            reveal_strlit("Nggh"); reveal_strlit("Ngk"); reveal_strlit("Ngg"); reveal_strlit("Ngm");
            reveal_strlit("cCw"); reveal_strlit("cC"); reveal_strlit("cY"); reveal_strlit("cw");
            reveal_strlit("cc"); reveal_strlit("jjw"); reveal_strlit("jjh"); reveal_strlit("jY");
            reveal_strlit("gg"); reveal_strlit("jw"); reveal_strlit("jj"); reveal_strlit("Yjh");
            reveal_strlit("Yc"); reveal_strlit("nc"); reveal_strlit("YC"); reveal_strlit("nC");
            reveal_strlit("Yj"); reveal_strlit("nj"); reveal_strlit("TT"); reveal_strlit("Tw");
            reveal_strlit("Tm"); reveal_strlit("DD"); reveal_strlit("Dw"); reveal_strlit("NTh");
            reveal_strlit("NDh"); reveal_strlit("NT"); reveal_strlit("ND"); reveal_strlit("NN");
            reveal_strlit("Nw"); reveal_strlit("Nm"); reveal_strlit("ttw"); reveal_strlit("tth");
            reveal_strlit("tk"); reveal_strlit("tt"); reveal_strlit("tn"); reveal_strlit("tw");
            reveal_strlit("tm"); reveal_strlit("tl"); reveal_strlit("ts"); reveal_strlit("thw");
            reveal_strlit("ddw"); reveal_strlit("ddh"); reveal_strlit("dgh"); reveal_strlit("dg");
            reveal_strlit("dd"); reveal_strlit("dw"); reveal_strlit("dv"); reveal_strlit("dm");
            reveal_strlit("dhn"); reveal_strlit("dhw"); reveal_strlit("dhm"); reveal_strlit("nTh");
            reveal_strlit("ntw"); reveal_strlit("ndw"); reveal_strlit("nT"); reveal_strlit("nD");
            reveal_strlit("nt"); reveal_strlit("nth"); reveal_strlit("nd"); reveal_strlit("ndh");
            reveal_strlit("nn"); reveal_strlit("nw"); reveal_strlit("nm"); reveal_strlit("pT");
            reveal_strlit("pt"); reveal_strlit("pn"); reveal_strlit("pp"); reveal_strlit("pl");
            reveal_strlit("ps"); reveal_strlit("fl"); reveal_strlit("bj"); reveal_strlit("bd");
            reveal_strlit("bdh"); reveal_strlit("bb"); reveal_strlit("bl"); reveal_strlit("vw");
            reveal_strlit("mn"); reveal_strlit("mp"); reveal_strlit("mf"); reveal_strlit("mb");
            reveal_strlit("mv"); reveal_strlit("mm"); reveal_strlit("ml"); reveal_strlit("lk");
            reveal_strlit("lg"); reveal_strlit("lT"); reveal_strlit("lD"); reveal_strlit("lp");
            reveal_strlit("lf"); reveal_strlit("lw"); reveal_strlit("lv"); reveal_strlit("lm");
            reveal_strlit("ll"); reveal_strlit("shc"); reveal_strlit("shC"); reveal_strlit("shn");
            reveal_strlit("shw"); reveal_strlit("shm"); reveal_strlit("shl"); reveal_strlit("ShTh");
            reveal_strlit("Shk"); reveal_strlit("ShT"); reveal_strlit("ShN"); reveal_strlit("Shp");
            reveal_strlit("Shf"); reveal_strlit("Shw"); reveal_strlit("Shm"); reveal_strlit("skh");
            reveal_strlit("spl"); reveal_strlit("stw"); reveal_strlit("sth"); reveal_strlit("sk");
            reveal_strlit("sT"); reveal_strlit("st"); reveal_strlit("sn"); reveal_strlit("sp");
            reveal_strlit("sf"); reveal_strlit("sw"); reveal_strlit("sm"); reveal_strlit("sl");
            reveal_strlit("hN"); reveal_strlit("hn"); reveal_strlit("hw"); reveal_strlit("hm");
            reveal_strlit("hl"); reveal_strlit("kk"); reveal_strlit("kT"); reveal_strlit("kt");
            reveal_strlit("kw"); reveal_strlit("km"); reveal_strlit("kl"); reveal_strlit("ks");
            reveal_strlit("gN"); reveal_strlit("gdh"); reveal_strlit("gn"); reveal_strlit("gw");
            reveal_strlit("gm"); reveal_strlit("gl"); reveal_strlit("ghn");
        }
        patterns.add("kShN", "ক্ষ্ণ", true, false);
        patterns.add("kShw", "ক্ষ্ব", true, false);
        patterns.add("kShm", "ক্ষ্ম", true, false);
        patterns.add("kSh", "ক্ষ", true, false);
        patterns.add("kkh", "ক্ষ", true, false);
        patterns.add("NgkSh", "ঙ্ক্ষ", true, false);
        patterns.add("Ngkt", "ঙ্ক্ত", true, false);
        patterns.add("Ngkh", "ঙ্খ", true, false);
        patterns.add("Nggh", "ঙ্ঘ", true, false);
        patterns.add("Ngk", "ঙ্ক", true, false);
        patterns.add("Ngg", "ঙ্গ", true, false);
        patterns.add("Ngm", "ঙ্ম", true, false);
        patterns.add("cCw", "চ্ছ্ব", true, false);
        patterns.add("cC", "চ্ছ", true, false);
        patterns.add("cY", "চ্ঞ", true, false);
        patterns.add("cw", "চ্ব", true, false);
        patterns.add("cc", "চ্চ", true, false);
        patterns.add("jjw", "জ্জ্ব", true, false);
        patterns.add("jjh", "জ্ঝ", true, false);
        patterns.add("jY", "জ্ঞ", true, false);
        patterns.add("gg", "জ্ঞ", true, false);
        patterns.add("jw", "জ্ব", true, false);
        patterns.add("jj", "জ্জ", true, false);
        patterns.add("Yjh", "ঞ্ঝ", true, false);
        patterns.add("Yc", "ঞ্চ", true, false);
        patterns.add("nc", "ঞ্চ", true, false);
        patterns.add("YC", "ঞ্ছ", true, false);
        patterns.add("nC", "ঞ্ছ", true, false);
        patterns.add("Yj", "ঞ্জ", true, false);
        patterns.add("nj", "ঞ্জ", true, false);
        patterns.add("TT", "ট্ট", true, false);
        patterns.add("Tw", "ট্ব", true, false);
        patterns.add("Tm", "ট্ম", true, false);
        patterns.add("DD", "ড্ড", true, false);
        patterns.add("Dw", "ড্ব", true, false);
        patterns.add("NTh", "ণ্ঠ", true, false);
        patterns.add("NDh", "ণ্ঢ", true, false);
        patterns.add("NT", "ণ্ট", true, false);
        patterns.add("ND", "ণ্ড", true, false);
        patterns.add("NN", "ণ্ণ", true, false);
        patterns.add("Nw", "ণ্ব", true, false);
        patterns.add("Nm", "ণ্ম", true, false);
        patterns.add("ttw", "ত্ত্ব", true, false);
        patterns.add("tth", "ত্থ", true, false);
        patterns.add("tk", "ৎক", true, false);
        patterns.add("tt", "ত্ত", true, false);
        patterns.add("tn", "ত্ন", true, false);
        patterns.add("tw", "ত্ব", true, false);
        patterns.add("tm", "ত্ম", true, false);
        patterns.add("tl", "ৎল", true, false);
        patterns.add("ts", "ৎস", true, false);
        patterns.add("thw", "থ্ব", true, false);
        patterns.add("ddw", "দ্দ্ব", true, false);
        patterns.add("ddh", "দ্ধ", true, false);
        patterns.add("dgh", "দ্ঘ", true, false);
        patterns.add("dg", "দ্গ", true, false);
        patterns.add("dd", "দ্দ", true, false);
        patterns.add("dw", "দ্ব", true, false);
        patterns.add("dv", "দ্ভ", true, false);
        patterns.add("dm", "দ্ম", true, false);
        patterns.add("dhn", "ধ্ন", true, false);
        patterns.add("dhw", "ধ্ব", true, false);
        patterns.add("dhm", "ধ্ম", true, false);
        patterns.add("nTh", "ন্ঠ", true, false);
        patterns.add("ntw", "ন্ত্ব", true, false);
        patterns.add("ndw", "ন্দ্ব", true, false);
        patterns.add("nT", "ন্ট", true, false);
        patterns.add("nD", "ন্ড", true, false);
        patterns.add("nt", "ন্ত", true, false);
        patterns.add("nth", "ন্থ", true, false);
        patterns.add("nd", "ন্দ", true, false);
        patterns.add("ndh", "ন্ধ", true, false);
        patterns.add("nn", "ন্ন", true, false);
        patterns.add("nw", "ন্ব", true, false);
        patterns.add("nm", "ন্ম", true, false);
        patterns.add("pT", "প্ট", true, false);
        patterns.add("pt", "প্ত", true, false);
        patterns.add("pn", "প্ন", true, false);
        patterns.add("pp", "প্প", true, false);
        patterns.add("pl", "প্ল", true, false);
        patterns.add("ps", "প্স", true, false);
        patterns.add("fl", "ফ্ল", true, false);
        patterns.add("bj", "ব্জ", true, false);
        patterns.add("bd", "ব্দ", true, false);
        patterns.add("bdh", "ব্ধ", true, false);
        patterns.add("bb", "ব্ব", true, false);
        patterns.add("bl", "ব্ল", true, false);
        patterns.add("vw", "ভ্ব", true, false);
        patterns.add("mn", "ম্ন", true, false);
        patterns.add("mp", "ম্প", true, false);
        patterns.add("mf", "ম্ফ", true, false);
        patterns.add("mb", "ম্ব", true, false);
        patterns.add("mv", "ম্ভ", true, false);
        patterns.add("mm", "ম্ম", true, false);
        patterns.add("ml", "ম্ল", true, false);
        patterns.add("lk", "ল্ক", true, false);
        patterns.add("lg", "ল্গ", true, false);
        patterns.add("lT", "ল্ট", true, false);
        patterns.add("lD", "ল্ড", true, false);
        patterns.add("lp", "ল্প", true, false);
        patterns.add("lf", "ল্ফ", true, false);
        patterns.add("lw", "ল্ব", true, false);
        patterns.add("lv", "ল্ভ", true, false);
        patterns.add("lm", "ল্ম", true, false);
        patterns.add("ll", "ল্ল", true, false);
        patterns.add("shc", "শ্চ", true, false);
        patterns.add("shC", "শ্ছ", true, false);
        patterns.add("shn", "শ্ন", true, false);
        patterns.add("shw", "শ্ব", true, false);
        patterns.add("shm", "শ্ম", true, false);
        patterns.add("shl", "শ্ল", true, false);
        patterns.add("ShTh", "ষ্ঠ", true, false);
        patterns.add("Shk", "ষ্ক", true, false);
        patterns.add("ShT", "ষ্ট", true, false);
        patterns.add("ShN", "ষ্ণ", true, false);
        patterns.add("Shp", "ষ্প", true, false);
        patterns.add("Shf", "ষ্ফ", true, false);
        patterns.add("Shw", "ষ্ব", true, false);
        patterns.add("Shm", "ষ্ম", true, false);
        patterns.add("skh", "স্খ", true, false);
        patterns.add("spl", "স্প্ল", true, false);
        patterns.add("stw", "স্ত্ব", true, false);
        patterns.add("sth", "স্থ", true, false);
        patterns.add("sk", "স্ক", true, false);
        patterns.add("sT", "স্ট", true, false);
        patterns.add("st", "স্ত", true, false);
        patterns.add("sn", "স্ন", true, false);
        patterns.add("sp", "স্প", true, false);
        patterns.add("sf", "স্ফ", true, false);
        patterns.add("sw", "স্ব", true, false);
        patterns.add("sm", "স্ম", true, false);
        patterns.add("sl", "স্ল", true, false);
        patterns.add("hN", "হ্ণ", true, false);
        patterns.add("hn", "হ্ন", true, false);
        patterns.add("hw", "হ্ব", true, false);
        patterns.add("hm", "হ্ম", true, false);
        patterns.add("hl", "হ্ল", true, false);
        patterns.add("kk", "ক্ক", true, false);
        patterns.add("kT", "ক্ট", true, false);
        patterns.add("kt", "ক্ত", true, false);
        patterns.add("kw", "ক্ব", true, false);
        patterns.add("km", "ক্ম", true, false);
        patterns.add("kl", "ক্ল", true, false);
        patterns.add("ks", "ক্স", true, false);
        patterns.add("gN", "গ্ণ", true, false);
        patterns.add("gdh", "গ্ধ", true, false);
        patterns.add("gn", "গ্ন", true, false);
        patterns.add("gw", "গ্ব", true, false);
        patterns.add("gm", "গ্ম", true, false);
        patterns.add("gl", "গ্ল", true, false);
        patterns.add("ghn", "ঘ্ন", true, false);
    }

    /// Adds the digits, punctuation and other signs.
    fn add_others(patterns: &mut KeyMap)
        requires
            old(patterns).wf(),
        ensures
            final(patterns).wf(),
            final(patterns).patterns_view() == with_others(old(patterns).patterns_view()),
            final(patterns).diacritics_view() == old(patterns).diacritics_view(),
    {
        proof {
            reveal_strlit("aya"); reveal_strlit("."); reveal_strlit("_"); reveal_strlit("$");
            reveal_strlit("0"); reveal_strlit("1"); reveal_strlit("2"); reveal_strlit("3"); reveal_strlit("4");
            reveal_strlit("5"); reveal_strlit("6"); reveal_strlit("7"); reveal_strlit("8"); reveal_strlit("9");
        }
        patterns.add("aya", "অ্যা", false, false);
        patterns.add(".", "।", false, false);
        patterns.add("_", "্", false, false);
        patterns.add("$", "৳", false, false);
        patterns.add("0", "০", false, false);
        patterns.add("1", "১", false, false);
        patterns.add("2", "২", false, false);
        patterns.add("3", "৩", false, false);
        patterns.add("4", "৪", false, false);
        patterns.add("5", "৫", false, false);
        patterns.add("6", "৬", false, false);
        patterns.add("7", "৭", false, false);
        patterns.add("8", "৮", false, false);
        patterns.add("9", "৯", false, false);
    }
}

} // verus!
