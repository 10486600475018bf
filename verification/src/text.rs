//! Character-level text helpers shared by the tokenizer, parser and
//! resolver: string equality, trimming, joining, decimal rendering and
//! whitespace splitting, each against an exact sequence-level spec.
use vstd::prelude::*;

verus! {

/// The whitespace characters this library recognises (ASCII).
pub open spec fn is_space(c: char) -> bool {
    c == ' ' || c == '\t' || c == '\n' || c == '\r'
}

/// Executable mirror of [`is_space`].
pub fn space_char(c: char) -> (r: bool)
    ensures
        r == is_space(c),
{
    c == ' ' || c == '\t' || c == '\n' || c == '\r'
}

/// Relies on `String::from_iter` over `Chars`: collecting characters
/// yields the string of exactly those characters.
#[verifier::external_body]
pub fn chars_to_string(v: &Vec<char>) -> (r: String)
    ensures
        r@ == v@,
{
    v.iter().collect()
}

/// Copies a string slice into its character vector.
pub fn str_to_chars(s: &str) -> (v: Vec<char>)
    ensures
        v@ == s@,
{
    let n = s.unicode_len();
    let mut v: Vec<char> = Vec::new();
    let mut i: usize = 0;
    while i < n
        invariant
            i <= n,
            n == s@.len(),
            v@ == s@.subrange(0, i as int),
        decreases n - i,
    {
        v.push(s.get_char(i));
        i = i + 1;
        proof {
            assert(v@ =~= s@.subrange(0, i as int));
        }
    }
    proof {
        assert(v@ =~= s@);
    }
    v
}

/// Character-wise string equality.
pub fn str_eq(a: &str, b: &str) -> (r: bool)
    ensures
        r == (a@ == b@),
{
    let an = a.unicode_len();
    let bn = b.unicode_len();
    if an != bn {
        proof {
            assert(a@ != b@) by {
                if a@ == b@ {
                    assert(a@.len() == b@.len());
                }
            }
        }
        return false;
    }
    let mut i: usize = 0;
    while i < an
        invariant
            i <= an,
            an == a@.len(),
            an == b@.len(),
            forall|j: int| 0 <= j < i ==> a@[j] == b@[j],
        decreases an - i,
    {
        if a.get_char(i) != b.get_char(i) {
            proof {
                assert(a@[i as int] != b@[i as int]);
            }
            return false;
        }
        i = i + 1;
    }
    proof {
        assert(a@ =~= b@);
    }
    true
}

/// Index of the first character that is not whitespace, or the length.
pub open spec fn first_non_space(s: Seq<char>) -> int
    decreases s.len(),
{
    if s.len() == 0 {
        0
    } else if !is_space(s[0]) {
        0
    } else {
        1 + first_non_space(s.drop_first())
    }
}

/// Index one past the last character that is not whitespace, or zero.
pub open spec fn last_non_space_end(s: Seq<char>) -> int
    decreases s.len(),
{
    if s.len() == 0 {
        0
    } else if !is_space(s[s.len() - 1]) {
        s.len() as int
    } else {
        last_non_space_end(s.drop_last())
    }
}

/// What trimming leading and trailing whitespace leaves.
pub open spec fn trim_spec(s: Seq<char>) -> Seq<char> {
    if first_non_space(s) == s.len() {
        Seq::empty()
    } else {
        s.subrange(first_non_space(s), last_non_space_end(s))
    }
}

pub proof fn lemma_first_non_space(s: Seq<char>)
    ensures
        0 <= first_non_space(s) <= s.len(),
        forall|j: int| 0 <= j < first_non_space(s) ==> is_space(s[j]),
        first_non_space(s) < s.len() ==> !is_space(s[first_non_space(s)]),
    decreases s.len(),
{
    if s.len() > 0 && is_space(s[0]) {
        lemma_first_non_space(s.drop_first());
        assert forall|j: int| 0 <= j < first_non_space(s) implies is_space(s[j]) by {
            if j > 0 {
                assert(s.drop_first()[j - 1] == s[j]);
            }
        }
    }
}

proof fn lemma_last_non_space_end(s: Seq<char>)
    ensures
        0 <= last_non_space_end(s) <= s.len(),
        forall|j: int| last_non_space_end(s) <= j < s.len() ==> is_space(s[j]),
        last_non_space_end(s) > 0 ==> !is_space(s[last_non_space_end(s) - 1]),
    decreases s.len(),
{
    if s.len() > 0 && is_space(s[s.len() - 1]) {
        lemma_last_non_space_end(s.drop_last());
        assert forall|j: int| last_non_space_end(s) <= j < s.len() implies is_space(s[j]) by {
            if j < s.len() - 1 {
                assert(s.drop_last()[j] == s[j]);
            }
        }
    }
}

proof fn lemma_first_le_last(s: Seq<char>)
    ensures
        first_non_space(s) < s.len() ==> first_non_space(s) < last_non_space_end(s),
{
    lemma_first_non_space(s);
    lemma_last_non_space_end(s);
    if first_non_space(s) < s.len() {
        if last_non_space_end(s) <= first_non_space(s) {
            assert(is_space(s[first_non_space(s)]));
        }
    }
}

/// Removes leading and trailing whitespace.
pub fn trim(s: &str) -> (r: String)
    ensures
        r@ == trim_spec(s@),
{
    let n = s.unicode_len();
    let mut start: usize = 0;
    while start < n && space_char(s.get_char(start))
        invariant
            start <= n,
            n == s@.len(),
            forall|j: int| 0 <= j < start ==> is_space(s@[j]),
        decreases n - start,
    {
        start = start + 1;
    }
    proof {
        lemma_first_non_space(s@);
        // start is the first non-space index
        assert(first_non_space(s@) == start) by {
            if first_non_space(s@) < start {
                assert(is_space(s@[first_non_space(s@)]));
            }
            if start < first_non_space(s@) {
                assert(is_space(s@[start as int]));
            }
        }
    }
    if start == n {
        let r = String::new();
        return r;
    }
    let mut end: usize = n;
    while end > start && space_char(s.get_char(end - 1))
        invariant
            start <= end <= n,
            n == s@.len(),
            start < n,
            forall|j: int| end <= j < n ==> is_space(s@[j]),
        decreases end,
    {
        end = end - 1;
    }
    proof {
        lemma_last_non_space_end(s@);
        lemma_first_le_last(s@);
        assert(last_non_space_end(s@) == end) by {
            if last_non_space_end(s@) < end {
                assert(!is_space(s@[end - 1]));
                assert(last_non_space_end(s@) <= end - 1 < s@.len());
            }
            if end < last_non_space_end(s@) {
                assert(!is_space(s@[last_non_space_end(s@) - 1]));
                assert(end <= last_non_space_end(s@) - 1 < s@.len());
            }
        }
        assert(!is_space(s@[start as int]));
        assert(end > start) by {
            if end == start {
                assert(is_space(s@[start as int]));
            }
        }
    }
    let piece = s.substring_char(start, end);
    piece.to_owned()
}

/// The decimal digit character for one digit value.
pub open spec fn digit_char(d: int) -> char {
    if d == 0 {
        '0'
    } else if d == 1 {
        '1'
    } else if d == 2 {
        '2'
    } else if d == 3 {
        '3'
    } else if d == 4 {
        '4'
    } else if d == 5 {
        '5'
    } else if d == 6 {
        '6'
    } else if d == 7 {
        '7'
    } else if d == 8 {
        '8'
    } else {
        '9'
    }
}

/// The decimal rendering of a natural number.
pub open spec fn dec_spec(n: int) -> Seq<char>
    decreases n,
{
    if n < 10 {
        seq![digit_char(n)]
    } else {
        dec_spec(n / 10).push(digit_char(n % 10))
    }
}

fn digit_to_char(d: u64) -> (c: char)
    requires
        d < 10,
    ensures
        c == digit_char(d as int),
{
    if d == 0 {
        '0'
    } else if d == 1 {
        '1'
    } else if d == 2 {
        '2'
    } else if d == 3 {
        '3'
    } else if d == 4 {
        '4'
    } else if d == 5 {
        '5'
    } else if d == 6 {
        '6'
    } else if d == 7 {
        '7'
    } else if d == 8 {
        '8'
    } else {
        '9'
    }
}

fn dec_chars(n: u64) -> (v: Vec<char>)
    ensures
        v@ == dec_spec(n as int),
    decreases n,
{
    if n < 10 {
        let mut v: Vec<char> = Vec::new();
        v.push(digit_to_char(n));
        proof {
            assert(v@ =~= dec_spec(n as int));
        }
        v
    } else {
        let mut v = dec_chars(n / 10);
        v.push(digit_to_char(n % 10));
        v
    }
}

/// Renders a number in decimal.
pub fn u64_to_string(n: u64) -> (r: String)
    ensures
        r@ == dec_spec(n as int),
{
    let v = dec_chars(n);
    chars_to_string(&v)
}

/// The words of a string: its maximal runs of non-whitespace characters.
pub open spec fn split_ws_spec(s: Seq<char>) -> Seq<Seq<char>>
    decreases s.len(),
    via split_ws_spec_dec
{
    if s.len() == 0 {
        Seq::empty()
    } else if is_space(s[0]) {
        split_ws_spec(s.drop_first())
    } else {
        let w = word_len(s);
        seq![s.subrange(0, w)] + split_ws_spec(s.subrange(w, s.len() as int))
    }
}

#[via_fn]
proof fn split_ws_spec_dec(s: Seq<char>) {
    lemma_word_len(s);
}

/// Length of the leading run of non-whitespace characters.
pub open spec fn word_len(s: Seq<char>) -> int
    decreases s.len(),
{
    if s.len() == 0 || is_space(s[0]) {
        0
    } else {
        1 + word_len(s.drop_first())
    }
}

proof fn lemma_word_len(s: Seq<char>)
    ensures
        0 <= word_len(s) <= s.len(),
        forall|j: int| 0 <= j < word_len(s) ==> !is_space(s[j]),
        word_len(s) < s.len() ==> is_space(s[word_len(s)]),
    decreases s.len(),
{
    if s.len() > 0 && !is_space(s[0]) {
        lemma_word_len(s.drop_first());
        assert forall|j: int| 0 <= j < word_len(s) implies !is_space(s[j]) by {
            if j > 0 {
                assert(s.drop_first()[j - 1] == s[j]);
            }
        }
    }
}

/// Splits a character vector into its whitespace-separated words,
/// starting at `from`.
fn split_ws_from(chars: &Vec<char>, from: usize) -> (r: Vec<String>)
    requires
        from <= chars@.len(),
    ensures
        r@.map_values(|w: String| w@) == split_ws_spec(chars@.subrange(from as int, chars@.len() as int)),
    decreases chars@.len() - from,
{
    let ghost s = chars@.subrange(from as int, chars@.len() as int);
    if from == chars.len() {
        let r: Vec<String> = Vec::new();
        proof {
            assert(r@.map_values(|w: String| w@) =~= split_ws_spec(s));
        }
        return r;
    }
    if space_char(chars[from]) {
        proof {
            assert(s.drop_first() =~= chars@.subrange(from + 1, chars@.len() as int));
        }
        return split_ws_from(chars, from + 1);
    }
    // scan the word
    let mut end: usize = from;
    while end < chars.len() && !space_char(chars[end])
        invariant
            from <= end <= chars@.len(),
            forall|j: int| from <= j < end ==> !is_space(chars@[j]),
        decreases chars@.len() - end,
    {
        end = end + 1;
    }
    proof {
        lemma_word_len(s);
        assert(word_len(s) == end - from) by {
            assert(forall|j: int| 0 <= j < s.len() ==> s[j] == chars@[from + j]);
            if word_len(s) < end - from {
                assert(is_space(s[word_len(s)]));
                assert(is_space(chars@[from + word_len(s)]));
            }
            if end - from < word_len(s) {
                assert(!is_space(s[end - from]));
                assert(end < chars@.len());
                assert(!is_space(chars@[end as int]));
            }
        }
    }
    let mut word: Vec<char> = Vec::new();
    let mut i: usize = from;
    while i < end
        invariant
            from <= i <= end <= chars@.len(),
            word@ == chars@.subrange(from as int, i as int),
        decreases end - i,
    {
        word.push(chars[i]);
        i = i + 1;
        proof {
            assert(word@ =~= chars@.subrange(from as int, i as int));
        }
    }
    let w = chars_to_string(&word);
    let rest = split_ws_from(chars, end);
    let mut r: Vec<String> = Vec::new();
    r.push(w);
    let mut k: usize = 0;
    while k < rest.len()
        invariant
            k <= rest@.len(),
            r@.len() == k + 1,
            r@[0] == w,
            forall|j: int| 0 <= j < k ==> r@[j + 1] == rest@[j],
        decreases rest@.len() - k,
    {
        let item = rest[k].clone();
        proof {
            assert(item == rest@[k as int]);
        }
        r.push(item);
        k = k + 1;
    }
    proof {
        assert(s.subrange(0, word_len(s)) =~= chars@.subrange(from as int, end as int));
        assert(s.subrange(word_len(s), s.len() as int) =~= chars@.subrange(
            end as int,
            chars@.len() as int,
        ));
        assert(r@.map_values(|x: String| x@) =~= seq![s.subrange(0, word_len(s))]
            + rest@.map_values(|x: String| x@));
    }
    r
}

/// Splits a string into its whitespace-separated words.
pub fn split_whitespace_words(s: &str) -> (r: Vec<String>)
    ensures
        r@.map_values(|w: String| w@) == split_ws_spec(s@),
{
    let chars = str_to_chars(s);
    let r = split_ws_from(&chars, 0);
    proof {
        assert(chars@.subrange(0, chars@.len() as int) =~= s@);
    }
    r
}

/// The words of a string joined with a single separating space.
pub open spec fn join_spec(words: Seq<Seq<char>>, sep: Seq<char>) -> Seq<char>
    decreases words.len(),
{
    if words.len() == 0 {
        Seq::empty()
    } else if words.len() == 1 {
        words[0]
    } else {
        words[0] + sep + join_spec(words.drop_first(), sep)
    }
}

/// Joins strings with a separator.
pub fn join_strings(words: &Vec<String>, sep: &str) -> (r: String)
    ensures
        r@ == join_spec(words@.map_values(|w: String| w@), sep@),
{
    let ghost ws = words@.map_values(|w: String| w@);
    let mut r = String::new();
    let mut i: usize = 0;
    while i < words.len()
        invariant
            i <= words@.len(),
            ws == words@.map_values(|w: String| w@),
            ws.len() == words@.len(),
            i == 0 ==> r@ == Seq::<char>::empty(),
            i > 0 ==> join_spec(ws, sep@) == r@ + join_sep_rest(ws, sep@, i as int),
        decreases words@.len() - i,
    {
        if i > 0 {
            r.append(sep);
        }
        r.append(words[i].as_str());
        proof {
            assert(ws[i as int] == words@[i as int]@);
            lemma_join_step(ws, sep@, i as int);
        }
        i = i + 1;
    }
    proof {
        if words@.len() > 0 {
            assert(join_sep_rest(ws, sep@, ws.len() as int) =~= Seq::<char>::empty());
            assert(r@ =~= join_spec(ws, sep@));
        } else {
            assert(r@ =~= join_spec(ws, sep@));
        }
    }
    r
}

/// What remains of a join after the first `i` words (with their separators)
/// have been emitted.
pub open spec fn join_sep_rest(words: Seq<Seq<char>>, sep: Seq<char>, i: int) -> Seq<char>
    decreases words.len() - i,
{
    if i < 0 || i >= words.len() {
        Seq::empty()
    } else {
        sep + words[i] + join_sep_rest(words, sep, i + 1)
    }
}

proof fn lemma_join_tail(words: Seq<Seq<char>>, sep: Seq<char>)
    requires
        words.len() > 0,
    ensures
        join_spec(words, sep) == words[0] + join_sep_rest(words, sep, 1),
    decreases words.len(),
{
    if words.len() == 1 {
        assert(join_sep_rest(words, sep, 1) =~= Seq::<char>::empty());
        assert(words[0] + join_sep_rest(words, sep, 1) =~= words[0]);
    } else {
        lemma_join_tail(words.drop_first(), sep);
        assert(words.drop_first()[0] == words[1]);
        assert(join_sep_rest(words.drop_first(), sep, 1) =~= join_sep_rest(words, sep, 2)) by {
            lemma_join_rest_shift(words, sep, 2);
        }
        assert(words[0] + sep + (words[1] + join_sep_rest(words, sep, 2)) =~= words[0] + (sep
            + words[1] + join_sep_rest(words, sep, 2)));
    }
}

proof fn lemma_join_rest_shift(words: Seq<Seq<char>>, sep: Seq<char>, i: int)
    requires
        1 <= i,
        words.len() >= 1,
    ensures
        join_sep_rest(words.drop_first(), sep, i - 1) =~= join_sep_rest(words, sep, i),
    decreases words.len() - i,
{
    if i < words.len() {
        lemma_join_rest_shift(words, sep, i + 1);
        assert(words.drop_first()[i - 1] == words[i]);
        assert(join_sep_rest(words.drop_first(), sep, i - 1) == sep + words.drop_first()[i - 1]
            + join_sep_rest(words.drop_first(), sep, i));
        assert(join_sep_rest(words, sep, i) == sep + words[i] + join_sep_rest(words, sep, i + 1));
        assert(sep + words[i] + join_sep_rest(words.drop_first(), sep, i) =~= sep + words[i]
            + join_sep_rest(words, sep, i + 1));
    }
}

proof fn lemma_join_step(words: Seq<Seq<char>>, sep: Seq<char>, i: int)
    requires
        0 <= i < words.len(),
    ensures
        i == 0 ==> join_spec(words, sep) == words[0] + join_sep_rest(words, sep, 1),
        i > 0 ==> join_sep_rest(words, sep, i) == sep + words[i] + join_sep_rest(words, sep, i + 1),
{
    if i == 0 {
        lemma_join_tail(words, sep);
    }
}

/// ASCII case folding of one character, as a code point: uppercase
/// letters map to their lowercase forms, all else is unchanged.
pub open spec fn fold_char(c: char) -> int {
    if 65 <= c as int <= 90 {
        c as int + 32
    } else {
        c as int
    }
}

fn fold_char_exec(c: char) -> (r: u32)
    ensures
        r as int == fold_char(c),
{
    let u = c as u32;
    if 65 <= u && u <= 90 {
        u + 32
    } else {
        u
    }
}

/// Whether two strings are equal under ASCII case folding.
pub open spec fn ieq_spec(a: Seq<char>, b: Seq<char>) -> bool {
    a.len() == b.len() && forall|j: int| 0 <= j < a.len() ==> fold_char(a[j]) == fold_char(b[j])
}

/// Case-insensitive (ASCII) string equality.
pub fn str_ieq(a: &str, b: &str) -> (r: bool)
    ensures
        r == ieq_spec(a@, b@),
{
    let an = a.unicode_len();
    let bn = b.unicode_len();
    if an != bn {
        return false;
    }
    let mut i: usize = 0;
    while i < an
        invariant
            i <= an,
            an == a@.len(),
            an == b@.len(),
            forall|j: int| 0 <= j < i ==> fold_char(a@[j]) == fold_char(b@[j]),
        decreases an - i,
    {
        if fold_char_exec(a.get_char(i)) != fold_char_exec(b.get_char(i)) {
            return false;
        }
        i = i + 1;
    }
    true
}

} // verus!
