use vstd::prelude::*;

verus! {

/// The longest pattern that a layout may hold, in characters.
pub const MAX_PATTERN_LEN: usize = 5;

/// The Bengali text bound to a pattern, with its role.
#[derive(Clone)]
pub struct BengaliChar {
    pub bengali: String,
    pub is_consonant: bool,
    pub is_vowel: bool,
}

/// What a [`BengaliChar`] stands for.
pub struct GlyphView {
    pub text: Seq<char>,
    pub is_consonant: bool,
    pub is_vowel: bool,
}

impl View for BengaliChar {
    type V = GlyphView;

    open spec fn view(&self) -> GlyphView {
        GlyphView { text: self.bengali@, is_consonant: self.is_consonant, is_vowel: self.is_vowel }
    }
}

/// The characters of a string, as a vector.
pub fn chars_of(s: &str) -> (r: Vec<char>)
    ensures
        r@ == s@,
{
    let n = s.unicode_len();
    let mut r: Vec<char> = Vec::new();
    let mut i: usize = 0;
    while i < n
        invariant
            n == s@.len(),
            i <= n,
            r@ == s@.subrange(0, i as int),
        decreases n - i,
    {
        r.push(s.get_char(i));
        i = i + 1;
    }
    assert(r@ =~= s@);
    r
}

/// The map that a list of entries describes: a later entry for a pattern
/// replaces an earlier one.
pub open spec fn entries_map<V: View>(s: Seq<(Vec<char>, V)>) -> Map<Seq<char>, V::V>
    decreases s.len(),
{
    if s.len() == 0 {
        Map::empty()
    } else {
        entries_map(s.drop_last()).insert(s.last().0@, s.last().1@)
    }
}

/// The lookup of a pattern among the first `n` entries, from the last one back.
proof fn lemma_entries_map_find<V: View>(s: Seq<(Vec<char>, V)>, k: Seq<char>, n: int)
    requires
        0 <= n <= s.len(),
        forall|j: int| n <= j < s.len() ==> s[j].0@ != k,
    ensures
        entries_map(s).contains_key(k) == entries_map(s.subrange(0, n)).contains_key(k),
        entries_map(s).contains_key(k) ==> entries_map(s)[k] == entries_map(s.subrange(0, n))[k],
    decreases s.len() - n,
{
    if n < s.len() {
        lemma_entries_map_find(s.drop_last(), k, n);
        assert(s.drop_last().subrange(0, n) =~= s.subrange(0, n));
    } else {
        assert(s.subrange(0, n) =~= s);
    }
}

/// Whether `key` is the run of `len` characters of `buf` from `start`.
fn key_at(key: &Vec<char>, buf: &Vec<char>, start: usize, len: usize) -> (r: bool)
    requires
        start + len <= buf@.len(),
    ensures
        r == (key@ == buf@.subrange(start as int, start + len)),
{
    if key.len() != len {
        return false;
    }
    let n = buf.len();
    let mut i: usize = 0;
    while i < len
        invariant
            n == buf@.len(),
            key@.len() == len,
            start + len <= buf@.len(),
            i <= len,
            forall|j: int| 0 <= j < i ==> key@[j] == buf@[start + j],
        decreases len - i,
    {
        if key[i] != buf[start + i] {
            return false;
        }
        i = i + 1;
    }
    assert(key@ =~= buf@.subrange(start as int, start + len));
    true
}

/// The index of the entry that binds the run of `len` characters of `buf`
/// from `start`, the latest one where several do.
fn find_entry<V: View>(entries: &Vec<(Vec<char>, V)>, buf: &Vec<char>, start: usize, len: usize) -> (r:
    Option<usize>)
    requires
        start + len <= buf@.len(),
    ensures
        match r {
            Some(j) => {
                &&& j < entries@.len()
                &&& entries_map(entries@).contains_key(buf@.subrange(start as int, start + len))
                &&& entries_map(entries@)[buf@.subrange(start as int, start + len)]
                    == entries@[j as int].1@
            },
            None => !entries_map(entries@).contains_key(buf@.subrange(start as int, start + len)),
        },
{
    let ghost k = buf@.subrange(start as int, start + len);
    let mut n = entries.len();
    while n > 0
        invariant
            start + len <= buf@.len(),
            k == buf@.subrange(start as int, start + len),
            n <= entries@.len(),
            forall|j: int| n <= j < entries@.len() ==> entries@[j].0@ != k,
        decreases n,
    {
        if key_at(&entries[n - 1].0, buf, start, len) {
            let ghost s = entries@.subrange(0, n as int);
            proof {
                lemma_entries_map_find(entries@, k, n as int);
                assert(s.drop_last() =~= entries@.subrange(0, n - 1));
            }
            return Some(n - 1);
        }
        n = n - 1;
    }
    proof {
        lemma_entries_map_find(entries@, k, 0);
        assert(entries@.subrange(0, 0) =~= Seq::<(Vec<char>, V)>::empty());
    }
    None
}

/// A vowel glyph.
pub open spec fn vowel(text: Seq<char>) -> GlyphView {
    GlyphView { text, is_consonant: false, is_vowel: true }
}

/// A consonant glyph.
pub open spec fn consonant(text: Seq<char>) -> GlyphView {
    GlyphView { text, is_consonant: true, is_vowel: false }
}

/// A glyph that is neither consonant nor vowel: a digit, a sign, a mark.
pub open spec fn other(text: Seq<char>) -> GlyphView {
    GlyphView { text, is_consonant: false, is_vowel: false }
}

/// The patterns of the standard layout.
pub open spec fn standard_patterns() -> Map<Seq<char>, GlyphView> {
    Map::empty()
        .insert("o"@, vowel("অ"@))
        .insert("a"@, vowel("আ"@))
        .insert("i"@, vowel("ই"@))
        .insert("I"@, vowel("ঈ"@))
        .insert("u"@, vowel("উ"@))
        .insert("U"@, vowel("ঊ"@))
        .insert("rri"@, vowel("ঋ"@))
        .insert("e"@, vowel("এ"@))
        .insert("oi"@, vowel("ঐ"@))
        .insert("O"@, vowel("ও"@))
        .insert("ou"@, vowel("ঔ"@))
        .insert("kh"@, consonant("খ"@))
        .insert("k"@, consonant("ক"@))
        .insert("gh"@, consonant("ঘ"@))
        .insert("g"@, consonant("গ"@))
        .insert("Ng"@, consonant("ঙ"@))
        .insert("ch"@, consonant("ছ"@))
        .insert("C"@, consonant("ছ"@))
        .insert("c"@, consonant("চ"@))
        .insert("jh"@, consonant("ঝ"@))
        .insert("j"@, consonant("জ"@))
        .insert("Y"@, consonant("ঞ"@))
        .insert("Th"@, consonant("ঠ"@))
        .insert("T"@, consonant("ট"@))
        .insert("Dh"@, consonant("ঢ"@))
        .insert("D"@, consonant("ড"@))
        .insert("N"@, consonant("ণ"@))
        .insert("th"@, consonant("থ"@))
        .insert("t"@, consonant("ত"@))
        .insert("dh"@, consonant("ধ"@))
        .insert("d"@, consonant("দ"@))
        .insert("n"@, consonant("ন"@))
        .insert("ph"@, consonant("ফ"@))
        .insert("f"@, consonant("ফ"@))
        .insert("p"@, consonant("প"@))
        .insert("bh"@, consonant("ভ"@))
        .insert("v"@, consonant("ভ"@))
        .insert("b"@, consonant("ব"@))
        .insert("m"@, consonant("ম"@))
        .insert("z"@, consonant("য"@))
        .insert("r"@, consonant("র"@))
        .insert("l"@, consonant("ল"@))
        .insert("Sh"@, consonant("ষ"@))
        .insert("sh"@, consonant("শ"@))
        .insert("S"@, consonant("শ"@))
        .insert("s"@, consonant("স"@))
        .insert("h"@, consonant("হ"@))
        .insert("Rh"@, consonant("ঢ়"@))
        .insert("R"@, consonant("ড়"@))
        .insert("y"@, consonant("য়"@))
        .insert(".t"@, consonant("ৎ"@))
        .insert("ng"@, other("ং"@))
        .insert(":"@, other("ঃ"@))
        .insert("H"@, other("ঃ"@))
        .insert(".n"@, other("ঁ"@))
        .insert("kSh"@, consonant("ক্ষ"@))
        .insert("kkh"@, consonant("ক্ষ"@))
        .insert("jY"@, consonant("জ্ঞ"@))
        .insert("gg"@, consonant("জ্ঞ"@))
        .insert("kk"@, consonant("ক্ক"@))
        .insert("kT"@, consonant("ক্ট"@))
        .insert("kt"@, consonant("ক্ত"@))
        .insert("kw"@, consonant("ক্ব"@))
        .insert("km"@, consonant("ক্ম"@))
        .insert("kl"@, consonant("ক্ল"@))
        .insert("ks"@, consonant("ক্স"@))
        .insert("tt"@, consonant("ত্ত"@))
        .insert("tn"@, consonant("ত্ন"@))
        .insert("tw"@, consonant("ত্ব"@))
        .insert("tm"@, consonant("ত্ম"@))
        .insert("dd"@, consonant("দ্দ"@))
        .insert("dw"@, consonant("দ্ব"@))
        .insert("dm"@, consonant("দ্ম"@))
        .insert("nn"@, consonant("ন্ন"@))
        .insert("nt"@, consonant("ন্ত"@))
        .insert("nd"@, consonant("ন্দ"@))
        .insert("nw"@, consonant("ন্ব"@))
        .insert("nm"@, consonant("ন্ম"@))
        .insert("pp"@, consonant("প্প"@))
        .insert("pt"@, consonant("প্ত"@))
        .insert("pl"@, consonant("প্ল"@))
        .insert("bb"@, consonant("ব্ব"@))
        .insert("bd"@, consonant("ব্দ"@))
        .insert("bl"@, consonant("ব্ল"@))
        .insert("mm"@, consonant("ম্ম"@))
        .insert("mp"@, consonant("ম্প"@))
        .insert("mb"@, consonant("ম্ব"@))
        .insert("ml"@, consonant("ম্ল"@))
        .insert("ll"@, consonant("ল্ল"@))
        .insert("lk"@, consonant("ল্ক"@))
        .insert("lg"@, consonant("ল্গ"@))
        .insert("lp"@, consonant("ল্প"@))
        .insert("lw"@, consonant("ল্ব"@))
        .insert("lm"@, consonant("ল্ম"@))
        .insert("sk"@, consonant("স্ক"@))
        .insert("st"@, consonant("স্ত"@))
        .insert("sn"@, consonant("স্ন"@))
        .insert("sp"@, consonant("স্প"@))
        .insert("sw"@, consonant("স্ব"@))
        .insert("sm"@, consonant("স্ম"@))
        .insert("sl"@, consonant("স্ল"@))
        .insert("0"@, other("০"@))
        .insert("1"@, other("১"@))
        .insert("2"@, other("২"@))
        .insert("3"@, other("৩"@))
        .insert("4"@, other("৪"@))
        .insert("5"@, other("৫"@))
        .insert("6"@, other("৬"@))
        .insert("7"@, other("৭"@))
        .insert("8"@, other("৮"@))
        .insert("9"@, other("৯"@))
        .insert("."@, other("।"@))
        .insert("$"@, other("৳"@))
        .insert("aya"@, other("অ্যা"@))
}

/// The vowel signs of the standard layout.
pub open spec fn standard_diacritics() -> Map<Seq<char>, Seq<char>> {
    Map::empty()
        .insert("a"@, "া"@)
        .insert("i"@, "ি"@)
        .insert("I"@, "ী"@)
        .insert("u"@, "ু"@)
        .insert("U"@, "ূ"@)
        .insert("rri"@, "ৃ"@)
        .insert("e"@, "ে"@)
        .insert("oi"@, "ৈ"@)
        .insert("O"@, "ো"@)
        .insert("ou"@, "ৌ"@)
}

/// A pattern table: each Latin pattern bound to its Bengali text, and for
/// each vowel pattern the sign that it takes after a consonant.
pub struct KeyMap {
    patterns: Vec<(Vec<char>, BengaliChar)>,
    vowel_diacritics: Vec<(Vec<char>, String)>,
}

impl KeyMap {
    /// Each pattern with its glyph.
    pub closed spec fn patterns_view(&self) -> Map<Seq<char>, GlyphView> {
        entries_map(self.patterns@)
    }

    /// Each vowel pattern with the sign that it takes after a consonant.
    pub closed spec fn diacritics_view(&self) -> Map<Seq<char>, Seq<char>> {
        entries_map(self.vowel_diacritics@)
    }

    /// Every pattern is 1 to [`MAX_PATTERN_LEN`] characters long, and no
    /// glyph is both a consonant and a vowel.
    pub open spec fn wf(&self) -> bool {
        &&& forall|k: Seq<char>| #[trigger]
            self.patterns_view().contains_key(k) ==> 1 <= k.len() <= MAX_PATTERN_LEN
        &&& forall|k: Seq<char>| #[trigger]
            self.patterns_view().contains_key(k) ==> !(self.patterns_view()[k].is_consonant
                && self.patterns_view()[k].is_vowel)
    }

    /// The standard layout: vowels, their vowel signs, consonants,
    /// conjuncts, digits and signs.
    pub fn new() -> (r: KeyMap)
        ensures
            r.wf(),
            r.patterns_view() == standard_patterns(),
            r.diacritics_view() == standard_diacritics(),
    {
        let mut km = KeyMap::empty();
        // Independent vowels
        proof {
            reveal_strlit("o"); reveal_strlit("a"); reveal_strlit("i"); reveal_strlit("I"); reveal_strlit("u");
            reveal_strlit("U"); reveal_strlit("rri"); reveal_strlit("e"); reveal_strlit("oi");
            reveal_strlit("O"); reveal_strlit("ou");
        }
        km.add("o", "অ", false, true);
        km.add("a", "আ", false, true);
        km.add("i", "ই", false, true);
        km.add("I", "ঈ", false, true);
        km.add("u", "উ", false, true);
        km.add("U", "ঊ", false, true);
        km.add("rri", "ঋ", false, true);
        km.add("e", "এ", false, true);
        km.add("oi", "ঐ", false, true);
        km.add("O", "ও", false, true);
        km.add("ou", "ঔ", false, true);
        // Vowel signs, used after a consonant
        km.add_diacritic("a", "া");
        km.add_diacritic("i", "ি");
        km.add_diacritic("I", "ী");
        km.add_diacritic("u", "ু");
        km.add_diacritic("U", "ূ");
        km.add_diacritic("rri", "ৃ");
        km.add_diacritic("e", "ে");
        km.add_diacritic("oi", "ৈ");
        km.add_diacritic("O", "ো");
        km.add_diacritic("ou", "ৌ");
        // Consonants
        proof {
            reveal_strlit("kh"); reveal_strlit("k"); reveal_strlit("gh"); reveal_strlit("g");
            reveal_strlit("Ng"); reveal_strlit("ch"); reveal_strlit("C"); reveal_strlit("c");
            reveal_strlit("jh"); reveal_strlit("j"); reveal_strlit("Y"); reveal_strlit("Th");
            reveal_strlit("T"); reveal_strlit("Dh"); reveal_strlit("D"); reveal_strlit("N"); reveal_strlit("th");
            reveal_strlit("t"); reveal_strlit("dh"); reveal_strlit("d"); reveal_strlit("n"); reveal_strlit("ph");
            reveal_strlit("f"); reveal_strlit("p"); reveal_strlit("bh"); reveal_strlit("v"); reveal_strlit("b");
            reveal_strlit("m"); reveal_strlit("z"); reveal_strlit("r"); reveal_strlit("l"); reveal_strlit("Sh");
            reveal_strlit("sh"); reveal_strlit("S"); reveal_strlit("s"); reveal_strlit("h"); reveal_strlit("Rh");
            reveal_strlit("R"); reveal_strlit("y"); reveal_strlit(".t"); reveal_strlit("ng");
            reveal_strlit(":"); reveal_strlit("H"); reveal_strlit(".n");
        }
        km.add("kh", "খ", true, false);
        km.add("k", "ক", true, false);
        km.add("gh", "ঘ", true, false);
        km.add("g", "গ", true, false);
        km.add("Ng", "ঙ", true, false);
        km.add("ch", "ছ", true, false);
        km.add("C", "ছ", true, false);
        km.add("c", "চ", true, false);
        km.add("jh", "ঝ", true, false);
        km.add("j", "জ", true, false);
        km.add("Y", "ঞ", true, false);
        km.add("Th", "ঠ", true, false);
        km.add("T", "ট", true, false);
        km.add("Dh", "ঢ", true, false);
        km.add("D", "ড", true, false);
        km.add("N", "ণ", true, false);
        km.add("th", "থ", true, false);
        km.add("t", "ত", true, false);
        km.add("dh", "ধ", true, false);
        km.add("d", "দ", true, false);
        km.add("n", "ন", true, false);
        km.add("ph", "ফ", true, false);
        km.add("f", "ফ", true, false);
        km.add("p", "প", true, false);
        km.add("bh", "ভ", true, false);
        km.add("v", "ভ", true, false);
        km.add("b", "ব", true, false);
        km.add("m", "ম", true, false);
        km.add("z", "য", true, false);
        km.add("r", "র", true, false);
        km.add("l", "ল", true, false);
        km.add("Sh", "ষ", true, false);
        km.add("sh", "শ", true, false);
        km.add("S", "শ", true, false);
        km.add("s", "স", true, false);
        km.add("h", "হ", true, false);
        km.add("Rh", "ঢ়", true, false);
        km.add("R", "ড়", true, false);
        km.add("y", "য়", true, false);
        km.add(".t", "ৎ", true, false);
        km.add("ng", "ং", false, false);
        km.add(":", "ঃ", false, false);
        km.add("H", "ঃ", false, false);
        km.add(".n", "ঁ", false, false);
        // Conjuncts
        proof {
            reveal_strlit("kSh"); reveal_strlit("kkh"); reveal_strlit("jY"); reveal_strlit("gg");
            reveal_strlit("kk"); reveal_strlit("kT"); reveal_strlit("kt"); reveal_strlit("kw");
            reveal_strlit("km"); reveal_strlit("kl"); reveal_strlit("ks"); reveal_strlit("tt");
            reveal_strlit("tn"); reveal_strlit("tw"); reveal_strlit("tm"); reveal_strlit("dd");
            reveal_strlit("dw"); reveal_strlit("dm"); reveal_strlit("nn"); reveal_strlit("nt");
            reveal_strlit("nd"); reveal_strlit("nw"); reveal_strlit("nm"); reveal_strlit("pp");
            reveal_strlit("pt"); reveal_strlit("pl"); reveal_strlit("bb"); reveal_strlit("bd");
            reveal_strlit("bl"); reveal_strlit("mm"); reveal_strlit("mp"); reveal_strlit("mb");
            reveal_strlit("ml"); reveal_strlit("ll"); reveal_strlit("lk"); reveal_strlit("lg");
            reveal_strlit("lp"); reveal_strlit("lw"); reveal_strlit("lm"); reveal_strlit("sk");
            reveal_strlit("st"); reveal_strlit("sn"); reveal_strlit("sp"); reveal_strlit("sw");
            reveal_strlit("sm"); reveal_strlit("sl");
        }
        km.add("kSh", "ক্ষ", true, false);
        km.add("kkh", "ক্ষ", true, false);
        km.add("jY", "জ্ঞ", true, false);
        km.add("gg", "জ্ঞ", true, false);
        km.add("kk", "ক্ক", true, false);
        km.add("kT", "ক্ট", true, false);
        km.add("kt", "ক্ত", true, false);
        km.add("kw", "ক্ব", true, false);
        km.add("km", "ক্ম", true, false);
        km.add("kl", "ক্ল", true, false);
        km.add("ks", "ক্স", true, false);
        km.add("tt", "ত্ত", true, false);
        km.add("tn", "ত্ন", true, false);
        km.add("tw", "ত্ব", true, false);
        km.add("tm", "ত্ম", true, false);
        km.add("dd", "দ্দ", true, false);
        km.add("dw", "দ্ব", true, false);
        km.add("dm", "দ্ম", true, false);
        km.add("nn", "ন্ন", true, false);
        km.add("nt", "ন্ত", true, false);
        km.add("nd", "ন্দ", true, false);
        km.add("nw", "ন্ব", true, false);
        km.add("nm", "ন্ম", true, false);
        km.add("pp", "প্প", true, false);
        km.add("pt", "প্ত", true, false);
        km.add("pl", "প্ল", true, false);
        km.add("bb", "ব্ব", true, false);
        km.add("bd", "ব্দ", true, false);
        km.add("bl", "ব্ল", true, false);
        km.add("mm", "ম্ম", true, false);
        km.add("mp", "ম্প", true, false);
        km.add("mb", "ম্ব", true, false);
        km.add("ml", "ম্ল", true, false);
        km.add("ll", "ল্ল", true, false);
        km.add("lk", "ল্ক", true, false);
        km.add("lg", "ল্গ", true, false);
        km.add("lp", "ল্প", true, false);
        km.add("lw", "ল্ব", true, false);
        km.add("lm", "ল্ম", true, false);
        km.add("sk", "স্ক", true, false);
        km.add("st", "স্ত", true, false);
        km.add("sn", "স্ন", true, false);
        km.add("sp", "স্প", true, false);
        km.add("sw", "স্ব", true, false);
        km.add("sm", "স্ম", true, false);
        km.add("sl", "স্ল", true, false);
        // Digits and other signs
        proof {
            reveal_strlit("0"); reveal_strlit("1"); reveal_strlit("2"); reveal_strlit("3"); reveal_strlit("4");
            reveal_strlit("5"); reveal_strlit("6"); reveal_strlit("7"); reveal_strlit("8"); reveal_strlit("9");
            reveal_strlit("."); reveal_strlit("$"); reveal_strlit("aya");
        }
        km.add("0", "০", false, false);
        km.add("1", "১", false, false);
        km.add("2", "২", false, false);
        km.add("3", "৩", false, false);
        km.add("4", "৪", false, false);
        km.add("5", "৫", false, false);
        km.add("6", "৬", false, false);
        km.add("7", "৭", false, false);
        km.add("8", "৮", false, false);
        km.add("9", "৯", false, false);
        km.add(".", "।", false, false);
        km.add("$", "৳", false, false);
        km.add("aya", "অ্যা", false, false);
        km
    }

    /// A table with no pattern.
    pub fn empty() -> (r: KeyMap)
        ensures
            r.wf(),
            r.patterns_view() == Map::<Seq<char>, GlyphView>::empty(),
            r.diacritics_view() == Map::<Seq<char>, Seq<char>>::empty(),
    {
        KeyMap { patterns: Vec::new(), vowel_diacritics: Vec::new() }
    }

    /// Binds `pattern` to `bengali`, replacing an earlier binding.
    pub fn add(&mut self, pattern: &str, bengali: &str, is_consonant: bool, is_vowel: bool)
        requires
            old(self).wf(),
            1 <= pattern@.len() <= MAX_PATTERN_LEN,
            !(is_consonant && is_vowel),
        ensures
            final(self).wf(),
            final(self).patterns_view() == old(self).patterns_view().insert(
                pattern@,
                GlyphView { text: bengali@, is_consonant, is_vowel },
            ),
            final(self).diacritics_view() == old(self).diacritics_view(),
    {
        let key = chars_of(pattern);
        let glyph = BengaliChar { bengali: String::from_str(bengali), is_consonant, is_vowel };
        let ghost before = self.patterns@;
        self.patterns.push((key, glyph));
        assert(self.patterns@.drop_last() =~= before);
        assert(self.patterns_view() == entries_map(before).insert(pattern@, glyph@));
        assert forall|k: Seq<char>| #[trigger] self.patterns_view().contains_key(k) implies 1
            <= k.len() <= MAX_PATTERN_LEN && !(self.patterns_view()[k].is_consonant
            && self.patterns_view()[k].is_vowel) by {
            if k != pattern@ {
                assert(old(self).patterns_view().contains_key(k));
            }
        }
    }

    /// The glyph bound to the run of `len` characters of `buf` from `start`.
    pub fn find(&self, buf: &Vec<char>, start: usize, len: usize) -> (r: Option<&BengaliChar>)
        requires
            start + len <= buf@.len(),
        ensures
            match r {
                Some(g) => {
                    &&& self.patterns_view().contains_key(buf@.subrange(start as int, start + len))
                    &&& self.patterns_view()[buf@.subrange(start as int, start + len)] == g@
                },
                None => !self.patterns_view().contains_key(
                    buf@.subrange(start as int, start + len),
                ),
            },
    {
        match find_entry(&self.patterns, buf, start, len) {
            Some(j) => Some(&self.patterns[j].1),
            None => None,
        }
    }

    /// The vowel sign of the vowel pattern that is the run of `len`
    /// characters of `buf` from `start`.
    pub fn find_diacritic(&self, buf: &Vec<char>, start: usize, len: usize) -> (r: Option<&String>)
        requires
            start + len <= buf@.len(),
        ensures
            match r {
                Some(d) => {
                    &&& self.diacritics_view().contains_key(buf@.subrange(start as int, start + len))
                    &&& self.diacritics_view()[buf@.subrange(start as int, start + len)] == d@
                },
                None => !self.diacritics_view().contains_key(
                    buf@.subrange(start as int, start + len),
                ),
            },
    {
        match find_entry(&self.vowel_diacritics, buf, start, len) {
            Some(j) => Some(&self.vowel_diacritics[j].1),
            None => None,
        }
    }

    /// The glyph bound to exactly `pattern`, if any.
    pub fn lookup(&self, pattern: &str) -> (r: Option<&BengaliChar>)
        ensures
            match r {
                Some(g) => {
                    &&& self.patterns_view().contains_key(pattern@)
                    &&& self.patterns_view()[pattern@] == g@
                },
                None => !self.patterns_view().contains_key(pattern@),
            },
    {
        let key = chars_of(pattern);
        proof {
            assert(key@.subrange(0, key@.len() as int) =~= key@);
        }
        self.find(&key, 0, key.len())
    }

    /// The Bengali text bound to exactly `pattern`, if any.
    pub fn lookup_exact(&self, pattern: &str) -> (r: Option<String>)
        ensures
            match r {
                Some(t) => {
                    &&& self.patterns_view().contains_key(pattern@)
                    &&& self.patterns_view()[pattern@].text == t@
                },
                None => !self.patterns_view().contains_key(pattern@),
            },
    {
        match self.lookup(pattern) {
            Some(g) => Some(g.bengali.clone()),
            None => None,
        }
    }

    /// Gives the vowel pattern `pattern` the sign `sign` after a consonant.
    pub fn add_diacritic(&mut self, pattern: &str, sign: &str)
        requires
            old(self).wf(),
        ensures
            final(self).wf(),
            final(self).patterns_view() == old(self).patterns_view(),
            final(self).diacritics_view() == old(self).diacritics_view().insert(pattern@, sign@),
    {
        let key = chars_of(pattern);
        let ghost before = self.vowel_diacritics@;
        self.vowel_diacritics.push((key, String::from_str(sign)));
        assert(self.vowel_diacritics@.drop_last() =~= before);
        assert(self.patterns_view() == old(self).patterns_view());
    }
}

} // verus!
