//! Configuration for the Paraformer-style backend: the API key and the
//! language hints, together with the comma-separated-hints parser.

use vstd::prelude::*;
use vstd::string::StrSliceExecFns;
use vstd::string::StringExecFns;

verus! {

/// A language hint accepted by the recognition model.
#[derive(Clone, Copy, Debug, PartialEq, Eq, Structural)]
pub enum LanguageHint {
    Zh,
    En,
    Ja,
    Yue,
    Ko,
    De,
    Fr,
    Ru,
}

/// The wire code of a hint, as it appears in configuration text.
pub open spec fn hint_code(h: LanguageHint) -> Seq<char> {
    match h {
        LanguageHint::Zh => seq!['z', 'h'],
        LanguageHint::En => seq!['e', 'n'],
        LanguageHint::Ja => seq!['j', 'a'],
        LanguageHint::Yue => seq!['y', 'u', 'e'],
        LanguageHint::Ko => seq!['k', 'o'],
        LanguageHint::De => seq!['d', 'e'],
        LanguageHint::Fr => seq!['f', 'r'],
        LanguageHint::Ru => seq!['r', 'u'],
    }
}

/// The hint whose code is exactly `s`, if any.
pub open spec fn hint_of_code(s: Seq<char>) -> Option<LanguageHint> {
    if s == hint_code(LanguageHint::Zh) {
        Some(LanguageHint::Zh)
    } else if s == hint_code(LanguageHint::En) {
        Some(LanguageHint::En)
    } else if s == hint_code(LanguageHint::Ja) {
        Some(LanguageHint::Ja)
    } else if s == hint_code(LanguageHint::Yue) {
        Some(LanguageHint::Yue)
    } else if s == hint_code(LanguageHint::Ko) {
        Some(LanguageHint::Ko)
    } else if s == hint_code(LanguageHint::De) {
        Some(LanguageHint::De)
    } else if s == hint_code(LanguageHint::Fr) {
        Some(LanguageHint::Fr)
    } else if s == hint_code(LanguageHint::Ru) {
        Some(LanguageHint::Ru)
    } else {
        None
    }
}

/// Whitespace stripped from the ends of each entry.
pub open spec fn is_space(c: char) -> bool {
    c == ' ' || c == '\t' || c == '\r' || c == '\n'
}

/// One entry character after normalization: ASCII upper case folded to lower
/// case, and `_` written as `-`.
pub open spec fn norm_char_spec(c: char) -> char {
    match c {
        'A' => 'a',
        'B' => 'b',
        'C' => 'c',
        'D' => 'd',
        'E' => 'e',
        'F' => 'f',
        'G' => 'g',
        'H' => 'h',
        'I' => 'i',
        'J' => 'j',
        'K' => 'k',
        'L' => 'l',
        'M' => 'm',
        'N' => 'n',
        'O' => 'o',
        'P' => 'p',
        'Q' => 'q',
        'R' => 'r',
        'S' => 's',
        'T' => 't',
        'U' => 'u',
        'V' => 'v',
        'W' => 'w',
        'X' => 'x',
        'Y' => 'y',
        'Z' => 'z',
        '_' => '-',
        _ => c,
    }
}

/// The text split at every comma; splitting keeps empty pieces, so the
/// result is never empty.
pub open spec fn split_commas(s: Seq<char>) -> Seq<Seq<char>>
    decreases s.len(),
{
    if s.len() == 0 {
        seq![Seq::<char>::empty()]
    } else if s[0] == ',' {
        seq![Seq::<char>::empty()] + split_commas(s.drop_first())
    } else {
        let rest = split_commas(s.drop_first());
        seq![seq![s[0]] + rest[0]] + rest.drop_first()
    }
}

/// Leading whitespace removed.
pub open spec fn trim_front(s: Seq<char>) -> Seq<char>
    decreases s.len(),
{
    if s.len() > 0 && is_space(s[0]) {
        trim_front(s.drop_first())
    } else {
        s
    }
}

/// Trailing whitespace removed.
pub open spec fn trim_back(s: Seq<char>) -> Seq<char>
    decreases s.len(),
{
    if s.len() > 0 && is_space(s[s.len() - 1]) {
        trim_back(s.drop_last())
    } else {
        s
    }
}

/// Both ends trimmed.
pub open spec fn trim_spec(s: Seq<char>) -> Seq<char> {
    trim_back(trim_front(s))
}

/// An entry after normalization, ready to be matched against the codes.
pub open spec fn normalize_spec(s: Seq<char>) -> Seq<char> {
    s.map_values(|c: char| norm_char_spec(c))
}

/// Classifies the entries left to right. An entry is skipped when it trims
/// to nothing, accepted when its normalized form is a known code not yet
/// seen, and reported (in its trimmed original spelling) otherwise — both
/// for an unknown code and for a duplicate. `seen` carries the hints
/// accepted so far.
pub open spec fn classify_entries(entries: Seq<Seq<char>>, seen: Seq<LanguageHint>) -> (Seq<
    LanguageHint,
>, Seq<Seq<char>>)
    decreases entries.len(),
{
    if entries.len() == 0 {
        (Seq::empty(), Seq::empty())
    } else {
        let t = trim_spec(entries[0]);
        if t.len() == 0 {
            classify_entries(entries.drop_first(), seen)
        } else {
            match hint_of_code(normalize_spec(t)) {
                Some(h) => {
                    if seen.contains(h) {
                        let r = classify_entries(entries.drop_first(), seen);
                        (r.0, seq![t] + r.1)
                    } else {
                        let r = classify_entries(entries.drop_first(), seen.push(h));
                        (seq![h] + r.0, r.1)
                    }
                },
                None => {
                    let r = classify_entries(entries.drop_first(), seen);
                    (r.0, seq![t] + r.1)
                },
            }
        }
    }
}

/// The valid hints and the rejected entries of a comma-separated hint list.
pub open spec fn parse_csv_spec(s: Seq<char>) -> (Seq<LanguageHint>, Seq<Seq<char>>) {
    classify_entries(split_commas(s), Seq::empty())
}

/// The valid hints of a comma-separated list, unknown and duplicate entries
/// silently dropped.
pub open spec fn parse_csv_lenient_spec(s: Seq<char>) -> Seq<LanguageHint> {
    lenient_entries(split_commas(s))
}

/// Left-to-right lenient classification: every entry whose normalized,
/// trimmed form is a known code is kept, duplicates included.
pub open spec fn lenient_entries(entries: Seq<Seq<char>>) -> Seq<LanguageHint>
    decreases entries.len(),
{
    if entries.len() == 0 {
        Seq::empty()
    } else {
        let t = trim_spec(entries[0]);
        let rest = lenient_entries(entries.drop_first());
        if t.len() == 0 {
            rest
        } else {
            match hint_of_code(normalize_spec(t)) {
                Some(h) => seq![h] + rest,
                None => rest,
            }
        }
    }
}

/// The configured hints joined with `", "`.
pub open spec fn join_codes(hints: Seq<LanguageHint>) -> Seq<char>
    decreases hints.len(),
{
    if hints.len() == 0 {
        Seq::empty()
    } else if hints.len() == 1 {
        hint_code(hints[0])
    } else {
        hint_code(hints[0]) + seq![',', ' '] + join_codes(hints.drop_first())
    }
}

impl LanguageHint {
    /// The wire code of this hint.
    pub fn code(&self) -> (r: &'static str)
        ensures
            r@ == hint_code(*self),
    {
        proof {
            reveal_strlit("zh");
            reveal_strlit("en");
            reveal_strlit("ja");
            reveal_strlit("yue");
            reveal_strlit("ko");
            reveal_strlit("de");
            reveal_strlit("fr");
            reveal_strlit("ru");
        }
        match self {
            LanguageHint::Zh => "zh",
            LanguageHint::En => "en",
            LanguageHint::Ja => "ja",
            LanguageHint::Yue => "yue",
            LanguageHint::Ko => "ko",
            LanguageHint::De => "de",
            LanguageHint::Fr => "fr",
            LanguageHint::Ru => "ru",
        }
    }

    /// Parses a wire code; the code must already be normalized.
    pub fn from_str(s: &str) -> (r: Result<LanguageHint, ()>)
        ensures
            match r {
                Ok(h) => hint_of_code(s@) == Some(h),
                Err(()) => hint_of_code(s@) is None,
            },
    {
        let chars = chars_of(s);
        match hint_of(&chars) {
            Some(h) => Ok(h),
            None => Err(()),
        }
    }
}

/// A text without commas is a single entry.
proof fn lemma_split_no_comma(s: Seq<char>)
    requires
        forall|i: int| 0 <= i < s.len() ==> s[i] != ',',
    ensures
        split_commas(s) == seq![s],
    decreases s.len(),
{
    if s.len() == 0 {
        assert(s =~= Seq::<char>::empty());
        assert(split_commas(s) =~= seq![s]);
    } else {
        lemma_split_no_comma(s.drop_first());
        let rest = split_commas(s.drop_first());
        assert(rest[0] == s.drop_first());
        assert(seq![s[0]] + rest[0] =~= s);
        assert(rest.drop_first() =~= Seq::<Seq<char>>::empty());
        assert(split_commas(s) =~= seq![s]);
    }
}

/// Splitting at the first comma: the prefix is the first entry and the
/// remainder splits on its own.
proof fn lemma_split_first_comma(s: Seq<char>, j: int)
    requires
        0 <= j < s.len(),
        s[j] == ',',
        forall|i: int| 0 <= i < j ==> s[i] != ',',
    ensures
        split_commas(s) == seq![s.take(j)] + split_commas(s.skip(j + 1)),
    decreases j,
{
    if j == 0 {
        assert(s.take(0) =~= Seq::<char>::empty());
        assert(s.skip(1) =~= s.drop_first());
        assert(split_commas(s) =~= seq![s.take(0)] + split_commas(s.skip(1)));
    } else {
        let d = s.drop_first();
        assert(d[j - 1] == ',');
        lemma_split_first_comma(d, j - 1);
        let rest = split_commas(d);
        assert(rest == seq![d.take(j - 1)] + split_commas(d.skip(j)));
        assert(rest[0] == d.take(j - 1));
        assert(seq![s[0]] + d.take(j - 1) =~= s.take(j));
        assert(d.skip(j) =~= s.skip(j + 1));
        assert(rest.drop_first() =~= split_commas(s.skip(j + 1)));
        assert(split_commas(s) =~= seq![s.take(j)] + split_commas(s.skip(j + 1)));
    }
}

/// Dropping exactly the leading whitespace is what `trim_front` does.
proof fn lemma_trim_front(s: Seq<char>, a: int)
    requires
        0 <= a <= s.len(),
        forall|i: int| 0 <= i < a ==> is_space(s[i]),
        a < s.len() ==> !is_space(s[a]),
    ensures
        trim_front(s) == s.skip(a),
    decreases a,
{
    if a == 0 {
        assert(s.skip(0) =~= s);
    } else {
        assert(is_space(s[0]));
        lemma_trim_front(s.drop_first(), a - 1);
        assert(s.drop_first().skip(a - 1) =~= s.skip(a));
    }
}

/// Dropping exactly the trailing whitespace is what `trim_back` does.
proof fn lemma_trim_back(s: Seq<char>, b: int)
    requires
        0 <= b <= s.len(),
        forall|i: int| b <= i < s.len() ==> is_space(s[i]),
        b > 0 ==> !is_space(s[b - 1]),
    ensures
        trim_back(s) == s.take(b),
    decreases s.len() - b,
{
    if b == s.len() {
        assert(s.take(b) =~= s);
    } else {
        assert(is_space(s[s.len() - 1]));
        lemma_trim_back(s.drop_last(), b);
        assert(s.drop_last().take(b) =~= s.take(b));
    }
}

/// The trimmed form of a subrange, located by index scans: `[pos, j)` is the
/// raw entry, `[a, b)` its content after the whitespace at both ends.
proof fn lemma_trim_subrange(s: Seq<char>, pos: int, j: int, a: int, b: int)
    requires
        0 <= pos <= a <= b <= j <= s.len(),
        forall|i: int| pos <= i < a ==> is_space(s[i]),
        forall|i: int| b <= i < j ==> is_space(s[i]),
        a < b ==> !is_space(s[a]) && !is_space(s[b - 1]),
        a == b ==> a == j,
    ensures
        trim_spec(s.subrange(pos, j)) == s.subrange(a, b),
{
    let raw = s.subrange(pos, j);
    if a == b {
        // everything from pos on is whitespace
        lemma_trim_front(raw, j - pos);
        assert(raw.skip(j - pos) =~= Seq::<char>::empty());
        lemma_trim_back(Seq::<char>::empty(), 0);
        assert(s.subrange(a, b) =~= Seq::<char>::empty());
    } else {
        lemma_trim_front(raw, a - pos);
        let mid = raw.skip(a - pos);
        assert(mid =~= s.subrange(a, j));
        lemma_trim_back(mid, b - a);
        assert(mid.take(b - a) =~= s.subrange(a, b));
    }
}

/// Whether the already-accepted hints contain `h`.
fn contains_hint(v: &Vec<LanguageHint>, h: LanguageHint) -> (r: bool)
    ensures
        r == v@.contains(h),
{
    let mut i: usize = 0;
    while i < v.len()
        invariant
            i <= v.len(),
            forall|k: int| 0 <= k < i ==> v@[k] != h,
        decreases v.len() - i,
    {
        if v[i] == h {
            return true;
        }
        i = i + 1;
    }
    false
}

/// The views of the rejected entries, for speaking about `Vec<String>`
/// results.
pub open spec fn views_of(v: Seq<String>) -> Seq<Seq<char>> {
    v.map_values(|x: String| x@)
}

/// Scans from `pos` to the next comma (or the end), then locates the trimmed
/// content `[a, b)` of the entry `[pos, j)`, and classifies it, extending
/// `valid` or `invalid` as `classify_entries` prescribes for this entry.
fn classify_one(
    input: &str,
    chars: &Vec<char>,
    pos: usize,
    valid: &mut Vec<LanguageHint>,
    invalid: &mut Vec<String>,
) -> (j: usize)
    requires
        chars@ == input@,
        pos <= chars@.len(),
    ensures
        pos <= j <= chars@.len(),
        forall|i: int| pos <= i < j ==> chars@[i] != ',',
        j < chars@.len() ==> chars@[j as int] == ',',
        ({
            let step = classify_entries(
                seq![input@.subrange(pos as int, j as int)],
                old(valid)@,
            );
            final(valid)@ == old(valid)@ + step.0 && views_of(final(invalid)@) == views_of(
                old(invalid)@,
            ) + step.1
        }),
{
    let ghost orig_valid = valid@;
    let ghost orig_invalid = invalid@;
    let n = chars.len();
    let mut j: usize = pos;
    while j < n && chars[j] != ','
        invariant
            chars@ == input@,
            pos <= j <= n,
            n == chars@.len(),
            forall|i: int| pos <= i < j ==> chars@[i] != ',',
        decreases n - j,
    {
        j = j + 1;
    }
    let mut a: usize = pos;
    while a < j && is_space_exec(chars[a])
        invariant
            chars@ == input@,
            pos <= a <= j <= n,
            n == chars@.len(),
            forall|i: int| pos <= i < a ==> is_space(chars@[i]),
        decreases j - a,
    {
        a = a + 1;
    }
    let mut b: usize = j;
    while b > a && is_space_exec(chars[b - 1])
        invariant
            chars@ == input@,
            a <= b <= j <= n,
            n == chars@.len(),
            forall|i: int| b <= i < j ==> is_space(chars@[i]),
        decreases b,
    {
        b = b - 1;
    }
    proof {
        lemma_trim_subrange(input@, pos as int, j as int, a as int, b as int);
    }
    let ghost entry = input@.subrange(pos as int, j as int);
    let ghost t = input@.subrange(a as int, b as int);
    assert(trim_spec(entry) == t);
    if a == b {
        proof {
            lemma_classify_empty(orig_valid);
            let step = classify_entries(seq![entry], orig_valid);
            assert(seq![entry].drop_first() =~= Seq::<Seq<char>>::empty());
            assert(step.0 =~= Seq::<LanguageHint>::empty());
            assert(step.1 =~= Seq::<Seq<char>>::empty());
            assert(valid@ =~= orig_valid + step.0);
            assert(views_of(invalid@) =~= views_of(orig_invalid) + step.1);
        }
        return j;
    }
    let mut norm: Vec<char> = Vec::new();
    let mut i: usize = a;
    while i < b
        invariant
            chars@ == input@,
            a <= i <= b <= n,
            n == chars@.len(),
            norm@.len() == i - a,
            forall|k: int| 0 <= k < i - a ==> norm@[k] == norm_char_spec(chars@[a + k]),
        decreases b - i,
    {
        let c = norm_char(chars[i]);
        norm.push(c);
        i = i + 1;
    }
    assert(norm@ =~= normalize_spec(t));
    let hint = hint_of(&norm);
    proof {
        assert(seq![entry].drop_first() =~= Seq::<Seq<char>>::empty());
    }
    match hint {
        Some(h) => {
            if contains_hint(valid, h) {
                let piece = input.substring_char(a, b);
                invalid.push(piece.to_owned());
                proof {
                    lemma_classify_empty(orig_valid);
                    let step = classify_entries(seq![entry], orig_valid);
                    assert(step.0 =~= Seq::<LanguageHint>::empty());
                    assert(step.1 =~= seq![t]);
                    assert(valid@ =~= orig_valid + step.0);
                    assert(views_of(invalid@) =~= views_of(orig_invalid) + step.1);
                }
            } else {
                valid.push(h);
                proof {
                    lemma_classify_empty(orig_valid.push(h));
                    let step = classify_entries(seq![entry], orig_valid);
                    assert(step.0 =~= seq![h]);
                    assert(step.1 =~= Seq::<Seq<char>>::empty());
                    assert(valid@ =~= orig_valid + step.0);
                    assert(views_of(invalid@) =~= views_of(orig_invalid) + step.1);
                }
            }
        },
        None => {
            let piece = input.substring_char(a, b);
            invalid.push(piece.to_owned());
            proof {
                lemma_classify_empty(orig_valid);
                let step = classify_entries(seq![entry], orig_valid);
                assert(step.0 =~= Seq::<LanguageHint>::empty());
                assert(step.1 =~= seq![t]);
                assert(valid@ =~= orig_valid + step.0);
                assert(views_of(invalid@) =~= views_of(orig_invalid) + step.1);
            }
        },
    }
    j
}

/// Classifying no entries yields nothing.
proof fn lemma_classify_empty(seen: Seq<LanguageHint>)
    ensures
        classify_entries(Seq::<Seq<char>>::empty(), seen) == (
            Seq::<LanguageHint>::empty(),
            Seq::<Seq<char>>::empty(),
        ),
{
}

/// The lenient classification of no entries yields nothing.
proof fn lemma_lenient_empty()
    ensures
        lenient_entries(Seq::<Seq<char>>::empty()) == Seq::<LanguageHint>::empty(),
{
}

/// Peeling one entry off the strict classification: the remainder is
/// classified with the hints the first entry contributed added to `seen`.
proof fn lemma_classify_cons(e: Seq<char>, rest: Seq<Seq<char>>, seen: Seq<LanguageHint>)
    ensures
        ({
            let step = classify_entries(seq![e], seen);
            let next = classify_entries(rest, seen + step.0);
            classify_entries(seq![e] + rest, seen) == (step.0 + next.0, step.1 + next.1)
        }),
{
    let all = seq![e] + rest;
    assert(all.drop_first() =~= rest);
    assert(all[0] == e);
    assert(seq![e].drop_first() =~= Seq::<Seq<char>>::empty());
    let t = trim_spec(e);
    lemma_classify_empty(seen);
    let step = classify_entries(seq![e], seen);
    if t.len() == 0 {
        assert(step.0 =~= Seq::<LanguageHint>::empty());
        assert(step.1 =~= Seq::<Seq<char>>::empty());
        assert(seen + step.0 =~= seen);
        let next = classify_entries(rest, seen + step.0);
        assert(step.0 + next.0 =~= next.0);
        assert(step.1 + next.1 =~= next.1);
    } else {
        match hint_of_code(normalize_spec(t)) {
            Some(h) => {
                if seen.contains(h) {
                    assert(step.0 =~= Seq::<LanguageHint>::empty());
                    assert(step.1 =~= seq![t]);
                    assert(seen + step.0 =~= seen);
                    let next = classify_entries(rest, seen + step.0);
                    assert(step.0 + next.0 =~= next.0);
                    assert(classify_entries(all, seen).1 =~= step.1 + next.1);
                } else {
                    lemma_classify_empty(seen.push(h));
                    assert(step.0 =~= seq![h]);
                    assert(step.1 =~= Seq::<Seq<char>>::empty());
                    assert(seen + step.0 =~= seen.push(h));
                    let next = classify_entries(rest, seen + step.0);
                    assert(classify_entries(all, seen).0 =~= step.0 + next.0);
                    assert(step.1 + next.1 =~= next.1);
                }
            },
            None => {
                assert(step.0 =~= Seq::<LanguageHint>::empty());
                assert(step.1 =~= seq![t]);
                assert(seen + step.0 =~= seen);
                let next = classify_entries(rest, seen + step.0);
                assert(step.0 + next.0 =~= next.0);
                assert(classify_entries(all, seen).1 =~= step.1 + next.1);
            },
        }
    }
}

/// Peeling one entry off the lenient classification.
proof fn lemma_lenient_cons(e: Seq<char>, rest: Seq<Seq<char>>)
    ensures
        lenient_entries(seq![e] + rest) == lenient_entries(seq![e]) + lenient_entries(rest),
{
    let all = seq![e] + rest;
    assert(all.drop_first() =~= rest);
    assert(all[0] == e);
    assert(seq![e].drop_first() =~= Seq::<Seq<char>>::empty());
    let t = trim_spec(e);
    lemma_lenient_empty();
    if t.len() == 0 {
        assert(lenient_entries(seq![e]) =~= Seq::<LanguageHint>::empty());
        assert(lenient_entries(all) =~= lenient_entries(seq![e]) + lenient_entries(rest));
    } else {
        match hint_of_code(normalize_spec(t)) {
            Some(h) => {
                assert(lenient_entries(seq![e]) =~= seq![h]);
                assert(lenient_entries(all) =~= lenient_entries(seq![e]) + lenient_entries(rest));
            },
            None => {
                assert(lenient_entries(seq![e]) =~= Seq::<LanguageHint>::empty());
                assert(lenient_entries(all) =~= lenient_entries(seq![e]) + lenient_entries(rest));
            },
        }
    }
}

/// The characters of a string slice, in order.
pub fn chars_of(s: &str) -> (r: Vec<char>)
    ensures
        r@ == s@,
{
    let n = s.unicode_len();
    let mut r: Vec<char> = Vec::new();
    let mut i: usize = 0;
    while i < n
        invariant
            n == s@.len(),
            i <= n,
            r@ == s@.take(i as int),
        decreases n - i,
    {
        let c = s.get_char(i);
        r.push(c);
        i = i + 1;
        proof {
            assert(r@ =~= s@.take(i as int));
        }
    }
    proof {
        assert(r@ =~= s@);
    }
    r
}

/// Normalizes one character as `norm_char_spec` describes.
fn norm_char(c: char) -> (r: char)
    ensures
        r == norm_char_spec(c),
{
    match c {
        'A' => 'a',
        'B' => 'b',
        'C' => 'c',
        'D' => 'd',
        'E' => 'e',
        'F' => 'f',
        'G' => 'g',
        'H' => 'h',
        'I' => 'i',
        'J' => 'j',
        'K' => 'k',
        'L' => 'l',
        'M' => 'm',
        'N' => 'n',
        'O' => 'o',
        'P' => 'p',
        'Q' => 'q',
        'R' => 'r',
        'S' => 's',
        'T' => 't',
        'U' => 'u',
        'V' => 'v',
        'W' => 'w',
        'X' => 'x',
        'Y' => 'y',
        'Z' => 'z',
        '_' => '-',
        _ => c,
    }
}

fn is_space_exec(c: char) -> (r: bool)
    ensures
        r == is_space(c),
{
    c == ' ' || c == '\t' || c == '\r' || c == '\n'
}

/// The hint whose code the normalized entry spells, if any.
fn hint_of(v: &Vec<char>) -> (r: Option<LanguageHint>)
    ensures
        r == hint_of_code(v@),
{
    let r = if v.len() == 2 {
        if v[0] == 'z' && v[1] == 'h' {
            Some(LanguageHint::Zh)
        } else if v[0] == 'e' && v[1] == 'n' {
            Some(LanguageHint::En)
        } else if v[0] == 'j' && v[1] == 'a' {
            Some(LanguageHint::Ja)
        } else if v[0] == 'k' && v[1] == 'o' {
            Some(LanguageHint::Ko)
        } else if v[0] == 'd' && v[1] == 'e' {
            Some(LanguageHint::De)
        } else if v[0] == 'f' && v[1] == 'r' {
            Some(LanguageHint::Fr)
        } else if v[0] == 'r' && v[1] == 'u' {
            Some(LanguageHint::Ru)
        } else {
            None
        }
    } else if v.len() == 3 {
        if v[0] == 'y' && v[1] == 'u' && v[2] == 'e' {
            Some(LanguageHint::Yue)
        } else {
            None
        }
    } else {
        None
    };
    proof {
        match r {
            Some(h) => {
                assert(v@ =~= hint_code(h));
            },
            None => {
            },
        }
    }
    r
}

/// Configuration of the Paraformer-style backend profile.
pub struct ParaformerV2Config {
    pub dashscope_api_key: String,
    pub language_hints: Vec<LanguageHint>,
}

impl Clone for ParaformerV2Config {
    fn clone(&self) -> (r: Self)
        ensures
            r.dashscope_api_key == self.dashscope_api_key,
            r.language_hints@ == self.language_hints@,
    {
        ParaformerV2Config {
            dashscope_api_key: self.dashscope_api_key.clone(),
            language_hints: clone_hints(&self.language_hints),
        }
    }
}

/// An element-wise copy of a hint list (hints are plain values).
fn clone_hints(v: &Vec<LanguageHint>) -> (r: Vec<LanguageHint>)
    ensures
        r@ == v@,
{
    let mut r: Vec<LanguageHint> = Vec::new();
    let mut i: usize = 0;
    while i < v.len()
        invariant
            i <= v.len(),
            r@ == v@.take(i as int),
        decreases v.len() - i,
    {
        r.push(v[i]);
        i = i + 1;
        proof {
            assert(r@ =~= v@.take(i as int));
        }
    }
    proof {
        assert(r@ =~= v@);
    }
    r
}

impl ParaformerV2Config {
    /// Builds a configuration from already-parsed parts.
    pub fn from_parts(dashscope_api_key: String, language_hints: Vec<LanguageHint>) -> (r: Self)
        ensures
            r == (ParaformerV2Config { dashscope_api_key, language_hints }),
    {
        ParaformerV2Config { dashscope_api_key, language_hints }
    }

    /// Builds a configuration from text typed by a user, dropping entries
    /// that are not valid hints.
    pub fn from_ui(dashscope_api_key: String, language_hints_csv: &str) -> (r: Self)
        ensures
            r.dashscope_api_key == dashscope_api_key,
            r.language_hints@ == parse_csv_lenient_spec(language_hints_csv@),
    {
        ParaformerV2Config {
            dashscope_api_key,
            language_hints: parse_language_hints_csv_lenient(language_hints_csv),
        }
    }

    /// Parses a comma-separated hint list strictly: the result is the valid
    /// hints in order exactly when no entry is unknown, duplicated or
    /// malformed; otherwise it is the offending entries, trimmed, in order.
    pub fn parse_language_hints_csv(input: &str) -> (r: Result<Vec<LanguageHint>, Vec<String>>)
        ensures
            parse_csv_spec(input@).1.len() == 0 ==> (r matches Ok(v) && v@ == parse_csv_spec(
                input@,
            ).0),
            parse_csv_spec(input@).1.len() > 0 ==> (r matches Err(e) && views_of(e@)
                == parse_csv_spec(input@).1),
    {
        let chars = chars_of(input);
        let n = chars.len();
        let mut valid: Vec<LanguageHint> = Vec::new();
        let mut invalid: Vec<String> = Vec::new();
        let mut pos: usize = 0;
        let mut done = false;
        proof {
            assert(input@.skip(0) =~= input@);
            assert(valid@ =~= Seq::<LanguageHint>::empty());
            assert(views_of(invalid@) =~= Seq::<Seq<char>>::empty());
            let full = classify_entries(split_commas(input@), Seq::empty());
            assert(valid@ + full.0 =~= full.0);
            assert(views_of(invalid@) + full.1 =~= full.1);
        }
        while !done
            invariant
                chars@ == input@,
                n == chars@.len(),
                pos <= n,
                ({
                    let full = classify_entries(split_commas(input@), Seq::empty());
                    let rem = if done {
                        (Seq::<LanguageHint>::empty(), Seq::<Seq<char>>::empty())
                    } else {
                        classify_entries(split_commas(input@.skip(pos as int)), valid@)
                    };
                    full.0 == valid@ + rem.0 && full.1 == views_of(invalid@) + rem.1
                }),
            decreases n - pos, (if done { 0int } else { 1int }),
        {
            let ghost pre_valid = valid@;
            let ghost pre_invalid = invalid@;
            let j = classify_one(input, &chars, pos, &mut valid, &mut invalid);
            proof {
                let s1 = input@.skip(pos as int);
                let entry = input@.subrange(pos as int, j as int);
                let rest: Seq<Seq<char>> = if j < n {
                    lemma_split_first_comma(s1, j - pos);
                    assert(s1.take(j - pos) =~= entry);
                    assert(s1.skip(j - pos + 1) =~= input@.skip(j + 1));
                    split_commas(input@.skip(j + 1))
                } else {
                    lemma_split_no_comma(s1);
                    assert(s1 =~= entry);
                    assert(seq![entry] =~= seq![entry] + Seq::<Seq<char>>::empty());
                    Seq::<Seq<char>>::empty()
                };
                assert(split_commas(s1) == seq![entry] + rest);
                lemma_classify_cons(entry, rest, pre_valid);
                let step = classify_entries(seq![entry], pre_valid);
                let next = classify_entries(rest, pre_valid + step.0);
                assert(valid@ + next.0 =~= pre_valid + (step.0 + next.0));
                assert(views_of(invalid@) + next.1 =~= views_of(pre_invalid) + (step.1 + next.1));
                if j == n {
                    assert(next.0 =~= Seq::<LanguageHint>::empty());
                    assert(next.1 =~= Seq::<Seq<char>>::empty());
                    assert(valid@ + Seq::<LanguageHint>::empty() =~= valid@);
                    assert(views_of(invalid@) + Seq::<Seq<char>>::empty() =~= views_of(invalid@));
                }
            }
            if j < n {
                pos = j + 1;
            } else {
                done = true;
            }
        }
        proof {
            let full = classify_entries(split_commas(input@), Seq::empty());
            assert(valid@ + Seq::<LanguageHint>::empty() =~= valid@);
            assert(views_of(invalid@) + Seq::<Seq<char>>::empty() =~= views_of(invalid@));
            assert(full.0 == valid@);
            assert(full.1 == views_of(invalid@));
        }
        if invalid.len() == 0 {
            Ok(valid)
        } else {
            Err(invalid)
        }
    }

    /// The configured hints rendered back to text, joined with `", "`.
    pub fn language_hints_csv(&self) -> (r: String)
        ensures
            r@ == join_codes(self.language_hints@),
    {
        let ghost hints = self.language_hints@;
        let mut r = String::new();
        let mut i: usize = 0;
        proof {
            assert(hints.take(0) =~= Seq::<LanguageHint>::empty());
        }
        while i < self.language_hints.len()
            invariant
                i <= hints.len(),
                hints == self.language_hints@,
                r@ == join_codes(hints.take(i as int)),
            decreases hints.len() - i,
        {
            proof {
                reveal_strlit(", ");
            }
            if i > 0 {
                r.append(", ");
            }
            let code = self.language_hints[i].code();
            r.append(code);
            proof {
                lemma_join_codes_push(hints, i as int);
            }
            i = i + 1;
        }
        proof {
            assert(hints.take(hints.len() as int) =~= hints);
        }
        r
    }
}

/// How one more code extends the joined text of a prefix.
proof fn lemma_join_codes_push(hints: Seq<LanguageHint>, i: int)
    requires
        0 <= i < hints.len(),
    ensures
        join_codes(hints.take(i + 1)) == if i == 0 {
            hint_code(hints[0])
        } else {
            join_codes(hints.take(i)) + seq![',', ' '] + hint_code(hints[i])
        },
    decreases i,
{
    let s = hints.take(i + 1);
    if i == 0 {
        assert(s.len() == 1);
        assert(join_codes(s) == hint_code(s[0]));
    } else {
        let d = hints.drop_first();
        assert(s.len() >= 2);
        assert(join_codes(s) == hint_code(s[0]) + seq![',', ' '] + join_codes(s.drop_first()));
        assert(s.drop_first() =~= d.take(i));
        lemma_join_codes_push(d, i - 1);
        if i == 1 {
            assert(d.take(1) =~= seq![d[0]]);
            assert(join_codes(d.take(1)) == hint_code(d[0]));
            assert(hints.take(1) =~= seq![hints[0]]);
            assert(join_codes(hints.take(1)) == hint_code(hints[0]));
            assert(join_codes(s) =~= join_codes(hints.take(1)) + seq![',', ' '] + hint_code(
                hints[1],
            ));
        } else {
            let p = hints.take(i);
            assert(p.len() >= 2);
            assert(join_codes(p) == hint_code(p[0]) + seq![',', ' '] + join_codes(p.drop_first()));
            assert(p.drop_first() =~= d.take(i - 1));
            assert(join_codes(d.take(i)) == join_codes(d.take(i - 1)) + seq![',', ' '] + hint_code(
                d[i - 1],
            ));
            assert(join_codes(s) =~= join_codes(p) + seq![',', ' '] + hint_code(hints[i]));
        }
    }
}

/// Parses a comma-separated hint list leniently: entries that are not valid
/// hints are dropped, duplicates kept.
pub fn parse_language_hints_csv_lenient(input: &str) -> (r: Vec<LanguageHint>)
    ensures
        r@ == parse_csv_lenient_spec(input@),
{
    let chars = chars_of(input);
    let n = chars.len();
    let mut valid: Vec<LanguageHint> = Vec::new();
    let mut pos: usize = 0;
    let mut done = false;
    proof {
        assert(input@.skip(0) =~= input@);
        assert(valid@ =~= Seq::<LanguageHint>::empty());
        let full = lenient_entries(split_commas(input@));
        assert(valid@ + full =~= full);
    }
    while !done
        invariant
            chars@ == input@,
            n == chars@.len(),
            pos <= n,
            ({
                let full = lenient_entries(split_commas(input@));
                let rem = if done {
                    Seq::<LanguageHint>::empty()
                } else {
                    lenient_entries(split_commas(input@.skip(pos as int)))
                };
                full == valid@ + rem
            }),
        decreases n - pos, (if done { 0int } else { 1int }),
    {
        let ghost pre_valid = valid@;
        let j = lenient_one(input, &chars, pos, &mut valid);
        proof {
            let s1 = input@.skip(pos as int);
            let entry = input@.subrange(pos as int, j as int);
            let rest: Seq<Seq<char>> = if j < n {
                lemma_split_first_comma(s1, j - pos);
                assert(s1.take(j - pos) =~= entry);
                assert(s1.skip(j - pos + 1) =~= input@.skip(j + 1));
                split_commas(input@.skip(j + 1))
            } else {
                lemma_split_no_comma(s1);
                assert(s1 =~= entry);
                assert(seq![entry] =~= seq![entry] + Seq::<Seq<char>>::empty());
                Seq::<Seq<char>>::empty()
            };
            assert(split_commas(s1) == seq![entry] + rest);
            lemma_lenient_cons(entry, rest);
            let step = lenient_entries(seq![entry]);
            let next = lenient_entries(rest);
            assert(valid@ + next =~= pre_valid + (step + next));
            if j == n {
                assert(next =~= Seq::<LanguageHint>::empty());
                assert(valid@ + Seq::<LanguageHint>::empty() =~= valid@);
            }
        }
        if j < n {
            pos = j + 1;
        } else {
            done = true;
        }
    }
    proof {
        assert(valid@ + Seq::<LanguageHint>::empty() =~= valid@);
    }
    valid
}

/// Scans one entry as `classify_one` does, but keeps every well-formed hint,
/// duplicates included.
fn lenient_one(input: &str, chars: &Vec<char>, pos: usize, valid: &mut Vec<LanguageHint>) -> (j:
    usize)
    requires
        chars@ == input@,
        pos <= chars@.len(),
    ensures
        pos <= j <= chars@.len(),
        forall|i: int| pos <= i < j ==> chars@[i] != ',',
        j < chars@.len() ==> chars@[j as int] == ',',
        final(valid)@ == old(valid)@ + lenient_entries(
            seq![input@.subrange(pos as int, j as int)],
        ),
{
    let ghost orig_valid = valid@;
    let n = chars.len();
    let mut j: usize = pos;
    while j < n && chars[j] != ','
        invariant
            chars@ == input@,
            pos <= j <= n,
            n == chars@.len(),
            forall|i: int| pos <= i < j ==> chars@[i] != ',',
        decreases n - j,
    {
        j = j + 1;
    }
    let mut a: usize = pos;
    while a < j && is_space_exec(chars[a])
        invariant
            chars@ == input@,
            pos <= a <= j <= n,
            n == chars@.len(),
            forall|i: int| pos <= i < a ==> is_space(chars@[i]),
        decreases j - a,
    {
        a = a + 1;
    }
    let mut b: usize = j;
    while b > a && is_space_exec(chars[b - 1])
        invariant
            chars@ == input@,
            a <= b <= j <= n,
            n == chars@.len(),
            forall|i: int| b <= i < j ==> is_space(chars@[i]),
        decreases b,
    {
        b = b - 1;
    }
    proof {
        lemma_trim_subrange(input@, pos as int, j as int, a as int, b as int);
    }
    let ghost entry = input@.subrange(pos as int, j as int);
    let ghost t = input@.subrange(a as int, b as int);
    proof {
        lemma_lenient_empty();
        assert(seq![entry].drop_first() =~= Seq::<Seq<char>>::empty());
    }
    if a == b {
        proof {
            assert(lenient_entries(seq![entry]) =~= Seq::<LanguageHint>::empty());
            assert(valid@ =~= orig_valid + lenient_entries(seq![entry]));
        }
        return j;
    }
    let mut norm: Vec<char> = Vec::new();
    let mut i: usize = a;
    while i < b
        invariant
            chars@ == input@,
            a <= i <= b <= n,
            n == chars@.len(),
            norm@.len() == i - a,
            forall|k: int| 0 <= k < i - a ==> norm@[k] == norm_char_spec(chars@[a + k]),
        decreases b - i,
    {
        let c = norm_char(chars[i]);
        norm.push(c);
        i = i + 1;
    }
    assert(norm@ =~= normalize_spec(t));
    match hint_of(&norm) {
        Some(h) => {
            valid.push(h);
            proof {
                assert(lenient_entries(seq![entry]) =~= seq![h]);
                assert(valid@ =~= orig_valid + lenient_entries(seq![entry]));
            }
        },
        None => {
            proof {
                assert(lenient_entries(seq![entry]) =~= Seq::<LanguageHint>::empty());
                assert(valid@ =~= orig_valid + lenient_entries(seq![entry]));
            }
        },
    }
    j
}

/// Constructs Paraformer-style adapter handles for one profile; building the
/// handle is side-effect-free, only connecting opens the duplex link.
pub struct ParaformerV2ClientFactory {
    pub options: ParaformerV2Config,
}

impl ParaformerV2ClientFactory {
    pub fn new(options: ParaformerV2Config) -> (r: Self)
        ensures
            r.options == options,
    {
        ParaformerV2ClientFactory { options }
    }
}

impl Clone for ParaformerV2ClientFactory {
    fn clone(&self) -> (r: Self)
        ensures
            r.options.dashscope_api_key == self.options.dashscope_api_key,
            r.options.language_hints@ == self.options.language_hints@,
    {
        ParaformerV2ClientFactory { options: self.options.clone() }
    }
}

} // verus!
