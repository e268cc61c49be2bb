//! Character-level text handling: Unicode whitespace, trimming, splitting
//! into words, joining, ASCII lowercasing, substring search and decimal
//! parsing, each stated over `Seq<char>`.
use vstd::prelude::*;

verus! {

broadcast use vstd::string::group_string_axioms;

/// `char::is_whitespace`: the Unicode `White_Space` property.
pub open spec fn is_white_space(c: char) -> bool {
    let n = c as int;
    ||| 0x09 <= n <= 0x0D
    ||| n == 0x20
    ||| n == 0x85
    ||| n == 0xA0
    ||| n == 0x1680
    ||| 0x2000 <= n <= 0x200A
    ||| n == 0x2028
    ||| n == 0x2029
    ||| n == 0x202F
    ||| n == 0x205F
    ||| n == 0x3000
}

/// Every character is whitespace (the empty text included).
pub open spec fn all_white_space(s: Seq<char>) -> bool {
    forall|i: int| 0 <= i < s.len() ==> is_white_space(#[trigger] s[i])
}

/// Some character is whitespace.
pub open spec fn has_white_space(s: Seq<char>) -> bool {
    exists|i: int| 0 <= i < s.len() && is_white_space(#[trigger] s[i])
}

/// The text without its leading whitespace.
pub open spec fn trim_start(s: Seq<char>) -> Seq<char>
    decreases s.len(),
{
    if s.len() > 0 && is_white_space(s[0]) {
        trim_start(s.drop_first())
    } else {
        s
    }
}

/// The text without its trailing whitespace.
pub open spec fn trim_end(s: Seq<char>) -> Seq<char>
    decreases s.len(),
{
    if s.len() > 0 && is_white_space(s.last()) {
        trim_end(s.drop_last())
    } else {
        s
    }
}

/// `str::trim`: the text without leading and trailing whitespace.
pub open spec fn trim(s: Seq<char>) -> Seq<char> {
    trim_end(trim_start(s))
}

/// `str::split_whitespace`: the maximal runs of non-whitespace characters, in order.
pub open spec fn words(s: Seq<char>) -> Seq<Seq<char>>
    decreases s.len(),
{
    if s.len() == 0 {
        Seq::empty()
    } else {
        let p = s.drop_last();
        let c = s.last();
        if is_white_space(c) {
            words(p)
        } else if p.len() > 0 && !is_white_space(p.last()) {
            let w = words(p);
            w.update(w.len() - 1, w.last().push(c))
        } else {
            words(p).push(seq![c])
        }
    }
}

/// The pieces written one after the other with `sep` between two neighbours.
pub open spec fn join(pieces: Seq<Seq<char>>, sep: Seq<char>) -> Seq<char>
    decreases pieces.len(),
{
    if pieces.len() == 0 {
        Seq::empty()
    } else if pieces.len() == 1 {
        pieces[0]
    } else {
        join(pieces.drop_last(), sep) + sep + pieces.last()
    }
}

/// The words of a text joined by single spaces.
pub open spec fn collapse_white_space(s: Seq<char>) -> Seq<char> {
    join(words(s), seq![' '])
}

/// `char::to_ascii_lowercase`.
pub open spec fn ascii_lower(c: char) -> char {
    if 'A' <= c && c <= 'Z' {
        ((c as int) + 32) as char
    } else {
        c
    }
}

/// `str::to_ascii_lowercase`.
pub open spec fn ascii_lowercase(s: Seq<char>) -> Seq<char> {
    Seq::new(s.len(), |i: int| ascii_lower(s[i]))
}

/// `pattern` occurs in `s` starting at `at`.
pub open spec fn occurs_at(s: Seq<char>, pattern: Seq<char>, at: int) -> bool {
    &&& 0 <= at
    &&& at + pattern.len() <= s.len()
    &&& forall|k: int| 0 <= k < pattern.len() ==> s[at + k] == pattern[k]
}

/// `str::contains` with a text pattern.
pub open spec fn contains_text(s: Seq<char>, pattern: Seq<char>) -> bool {
    exists|at: int| occurs_at(s, pattern, at)
}

pub open spec fn is_digit(c: char) -> bool {
    '0' <= c && c <= '9'
}

pub open spec fn all_digits(d: Seq<char>) -> bool {
    forall|i: int| 0 <= i < d.len() ==> is_digit(#[trigger] d[i])
}

/// The number that a string of decimal digits denotes.
pub open spec fn digits_value(d: Seq<char>) -> int
    decreases d.len(),
{
    if d.len() == 0 {
        0
    } else {
        digits_value(d.drop_last()) * 10 + (d.last() as int - '0' as int)
    }
}

/// `u32::from_str`: an optional `+`, then one or more decimal digits whose
/// value fits in 32 bits.
pub open spec fn parse_u32(s: Seq<char>) -> Option<u32> {
    let d = if s.len() > 0 && s[0] == '+' {
        s.drop_first()
    } else {
        s
    };
    if d.len() > 0 && all_digits(d) && digits_value(d) <= u32::MAX {
        Some(digits_value(d) as u32)
    } else {
        None
    }
}

/// `String::push`: the character is appended to the end of the string.
pub assume_specification[ String::push ](string: &mut String, ch: char)
    ensures
        final(string)@ == old(string)@.push(ch),
;

/// The characters of a string, in order.
pub fn chars_of(s: &str) -> (chars: Vec<char>)
    ensures
        chars@ == s@,
{
    let mut chars: Vec<char> = Vec::new();
    for c in it: s.chars()
        invariant
            it.seq() == s@,
            chars@ == it.seq().take(it.index() as int),
    {
        chars.push(c);
        assert(chars@ == it.seq().take(it.index() + 1));
    }
    assert(chars@ == s@.take(s@.len() as int));
    chars
}

/// A string made of the given characters.
pub fn string_from_chars(chars: &[char]) -> (s: String)
    ensures
        s@ == chars@,
{
    let mut s = String::new();
    let mut i: usize = 0;
    while i < chars.len()
        invariant
            i <= chars@.len(),
            s@ == chars@.take(i as int),
        decreases chars@.len() - i,
    {
        s.push(chars[i]);
        assert(chars@.take(i as int).push(chars@[i as int]) == chars@.take(i + 1));
        i = i + 1;
    }
    assert(chars@.take(chars@.len() as int) == chars@);
    s
}

pub fn white_space(c: char) -> (b: bool)
    ensures
        b == is_white_space(c),
{
    let n = c as u32;
    (0x09 <= n && n <= 0x0D) || n == 0x20 || n == 0x85 || n == 0xA0 || n == 0x1680 || (0x2000 <= n
        && n <= 0x200A) || n == 0x2028 || n == 0x2029 || n == 0x202F || n == 0x205F || n == 0x3000
}

pub fn any_white_space(s: &[char]) -> (b: bool)
    ensures
        b == has_white_space(s@),
{
    let mut i: usize = 0;
    while i < s.len()
        invariant
            i <= s@.len(),
            forall|j: int| 0 <= j < i ==> !is_white_space(#[trigger] s@[j]),
        decreases s@.len() - i,
    {
        if white_space(s[i]) {
            return true;
        }
        i = i + 1;
    }
    false
}

pub fn only_white_space(s: &[char]) -> (b: bool)
    ensures
        b == all_white_space(s@),
{
    let mut i: usize = 0;
    while i < s.len()
        invariant
            i <= s@.len(),
            forall|j: int| 0 <= j < i ==> is_white_space(#[trigger] s@[j]),
        decreases s@.len() - i,
    {
        if !white_space(s[i]) {
            return false;
        }
        i = i + 1;
    }
    true
}

pub fn same_chars(a: &[char], b: &[char]) -> (same: bool)
    ensures
        same == (a@ == b@),
{
    if a.len() != b.len() {
        return false;
    }
    let mut i: usize = 0;
    while i < a.len()
        invariant
            i <= a@.len() == b@.len(),
            forall|j: int| 0 <= j < i ==> a@[j] == b@[j],
        decreases a@.len() - i,
    {
        if a[i] != b[i] {
            return false;
        }
        i = i + 1;
    }
    assert(a@ =~= b@);
    true
}

proof fn lemma_trim_start_skip(s: Seq<char>, k: int)
    requires
        0 <= k <= s.len(),
        forall|j: int| 0 <= j < k ==> is_white_space(#[trigger] s[j]),
        k == s.len() || !is_white_space(s[k]),
    ensures
        trim_start(s) == s.skip(k),
    decreases k,
{
    if k == 0 {
        assert(s.skip(0) == s);
    } else {
        assert(is_white_space(s[0]));
        let t = s.drop_first();
        assert forall|j: int| 0 <= j < k - 1 implies is_white_space(#[trigger] t[j]) by {
            assert(t[j] == s[j + 1]);
        }
        lemma_trim_start_skip(t, k - 1);
        assert(t.skip(k - 1) == s.skip(k));
    }
}

proof fn lemma_trim_end_take(s: Seq<char>, m: int)
    requires
        0 <= m <= s.len(),
        forall|j: int| m <= j < s.len() ==> is_white_space(#[trigger] s[j]),
        m == 0 || !is_white_space(s[m - 1]),
    ensures
        trim_end(s) == s.take(m),
    decreases s.len() - m,
{
    if m == s.len() {
        assert(s.take(m) == s);
        if s.len() > 0 {
            assert(!is_white_space(s.last()));
        }
    } else {
        assert(is_white_space(s.last()));
        let t = s.drop_last();
        lemma_trim_end_take(t, m);
        assert(t.take(m) == s.take(m));
    }
}

/// `str::trim` on characters.
pub fn trim_chars(s: &[char]) -> (t: Vec<char>)
    ensures
        t@ == trim(s@),
{
    let n = s.len();
    let mut start: usize = 0;
    while start < n && white_space(s[start])
        invariant
            start <= n == s@.len(),
            forall|j: int| 0 <= j < start ==> is_white_space(#[trigger] s@[j]),
        decreases n - start,
    {
        start = start + 1;
    }
    proof {
        lemma_trim_start_skip(s@, start as int);
    }
    let mut end: usize = n;
    while end > start && white_space(s[end - 1])
        invariant
            start <= end <= n == s@.len(),
            forall|j: int| end <= j < n ==> is_white_space(#[trigger] s@[j]),
        decreases end,
    {
        end = end - 1;
    }
    let ghost rest = s@.skip(start as int);
    proof {
        assert forall|j: int| end - start <= j < rest.len() implies is_white_space(
            #[trigger] rest[j],
        ) by {
            assert(rest[j] == s@[start + j]);
        }
        if end > start {
            assert(rest[end - start - 1] == s@[end - 1]);
        }
        lemma_trim_end_take(rest, end - start);
        assert(rest.take(end - start) == s@.subrange(start as int, end as int));
    }
    let mut t: Vec<char> = Vec::new();
    let mut i: usize = start;
    while i < end
        invariant
            start <= i <= end <= n == s@.len(),
            t@ == s@.subrange(start as int, i as int),
        decreases end - i,
    {
        t.push(s[i]);
        assert(t@ == s@.subrange(start as int, i + 1));
        i = i + 1;
    }
    t
}

proof fn lemma_words_extend(s: Seq<char>, i: int)
    requires
        0 <= i < s.len(),
    ensures
        s.take(i + 1).drop_last() == s.take(i),
        s.take(i + 1).last() == s[i],
{
}

/// The pieces' character sequences.
pub open spec fn pieces_view(pieces: Seq<Vec<char>>) -> Seq<Seq<char>> {
    pieces.map_values(|p: Vec<char>| p@)
}

/// `str::split_whitespace` on characters.
pub fn split_words(s: &[char]) -> (pieces: Vec<Vec<char>>)
    ensures
        pieces_view(pieces@) == words(s@),
{
    let mut pieces: Vec<Vec<char>> = Vec::new();
    let mut current: Vec<char> = Vec::new();
    let mut in_word = false;
    let mut i: usize = 0;
    while i < s.len()
        invariant
            i <= s@.len(),
            in_word == (i > 0 && !is_white_space(s@[i - 1])),
            in_word ==> words(s@.take(i as int)) == pieces_view(pieces@).push(current@),
            !in_word ==> words(s@.take(i as int)) == pieces_view(pieces@),
        decreases s@.len() - i,
    {
        let c = s[i];
        proof {
            lemma_words_extend(s@, i as int);
        }
        let ghost prefix = s@.take(i as int);
        let ghost next = s@.take(i + 1);
        if white_space(c) {
            if in_word {
                let ghost before = pieces@;
                let word = current;
                current = Vec::new();
                pieces.push(word);
                assert(pieces_view(pieces@) =~= pieces_view(before).push(word@));
            }
            assert(words(next) == words(prefix));
            in_word = false;
        } else {
            if in_word {
                let ghost before = current@;
                current.push(c);
                assert(prefix.len() > 0 && !is_white_space(prefix.last()));
                assert(words(next) == pieces_view(pieces@).push(current@)) by {
                    let w = words(prefix);
                    assert(w == pieces_view(pieces@).push(before));
                    assert(w.update(w.len() - 1, w.last().push(c)) =~= pieces_view(
                        pieces@,
                    ).push(current@));
                }
            } else {
                current = Vec::new();
                current.push(c);
                assert(current@ == seq![c]);
                assert(words(next) == pieces_view(pieces@).push(current@));
            }
            in_word = true;
        }
        i = i + 1;
    }
    if in_word {
        let ghost before = pieces@;
        pieces.push(current);
        assert(pieces_view(pieces@) =~= pieces_view(before).push(current@));
    }
    assert(s@.take(s@.len() as int) == s@);
    pieces
}

/// Joins the pieces with `sep` between neighbours.
pub fn join_pieces(pieces: &Vec<Vec<char>>, sep: &[char]) -> (joined: Vec<char>)
    ensures
        joined@ == join(pieces_view(pieces@), sep@),
{
    let mut joined: Vec<char> = Vec::new();
    let mut i: usize = 0;
    while i < pieces.len()
        invariant
            i <= pieces@.len(),
            joined@ == join(pieces_view(pieces@).take(i as int), sep@),
        decreases pieces@.len() - i,
    {
        let ghost done = pieces_view(pieces@).take(i as int);
        let ghost next = pieces_view(pieces@).take(i + 1);
        assert(next.drop_last() == done);
        assert(next.last() == pieces@[i as int]@);
        if i > 0 {
            joined.extend_from_slice(sep);
        }
        let ghost mid = joined@;
        joined.extend_from_slice(pieces[i].as_slice());
        proof {
            if i > 0 {
                assert(mid =~= join(done, sep@) + sep@);
            } else {
                assert(mid =~= Seq::<char>::empty());
            }
            assert(joined@ =~= mid + pieces@[i as int]@);
        }
        i = i + 1;
    }
    assert(pieces_view(pieces@).take(pieces@.len() as int) == pieces_view(pieces@));
    joined
}

/// The words of a text joined by single spaces.
pub fn collapse_chars(s: &[char]) -> (collapsed: Vec<char>)
    ensures
        collapsed@ == collapse_white_space(s@),
{
    let pieces = split_words(s);
    let sep: Vec<char> = vec![' '];
    assert(sep@ == seq![' ']);
    join_pieces(&pieces, sep.as_slice())
}

pub fn lower_ascii(s: &[char]) -> (lowered: Vec<char>)
    ensures
        lowered@ == ascii_lowercase(s@),
{
    let mut lowered: Vec<char> = Vec::new();
    let mut i: usize = 0;
    while i < s.len()
        invariant
            i <= s@.len(),
            lowered@ == ascii_lowercase(s@).take(i as int),
        decreases s@.len() - i,
    {
        let c = s[i];
        let l = if 'A' <= c && c <= 'Z' {
            let code = c as u8;
            (code + 32) as char
        } else {
            c
        };
        assert(l == ascii_lower(c));
        lowered.push(l);
        assert(lowered@ =~= ascii_lowercase(s@).take(i + 1));
        i = i + 1;
    }
    assert(ascii_lowercase(s@).take(s@.len() as int) =~= ascii_lowercase(s@));
    lowered
}

pub fn find_text(s: &[char], pattern: &[char]) -> (found: bool)
    ensures
        found == contains_text(s@, pattern@),
{
    if pattern.len() > s.len() {
        assert forall|at: int| !occurs_at(s@, pattern@, at) by {}
        return false;
    }
    let n = s.len();
    let last = n - pattern.len();
    let mut at: usize = 0;
    loop
        invariant
            n == s@.len(),
            last + pattern@.len() == s@.len(),
            at <= last,
            forall|a: int| 0 <= a < at ==> !occurs_at(s@, pattern@, a),
        decreases last - at,
    {
        let mut k: usize = 0;
        let mut matched = true;
        while k < pattern.len()
            invariant
                n == s@.len(),
                last + pattern@.len() == s@.len(),
                at <= last,
                at + pattern@.len() <= s@.len(),
                k <= pattern@.len(),
                matched ==> forall|j: int| 0 <= j < k ==> s@[at + j] == pattern@[j],
                !matched ==> !occurs_at(s@, pattern@, at as int),
            decreases pattern@.len() - k,
        {
            if s[at + k] != pattern[k] {
                matched = false;
            }
            k = k + 1;
        }
        if matched {
            assert(occurs_at(s@, pattern@, at as int));
            return true;
        }
        if at == last {
            assert forall|a: int| !occurs_at(s@, pattern@, a) by {
                if a > last {
                    assert(a + pattern@.len() > s@.len());
                }
            }
            return false;
        }
        at = at + 1;
    }
}

proof fn lemma_digits_value_prefix(d: Seq<char>, i: int)
    requires
        0 <= i <= d.len(),
        all_digits(d),
    ensures
        digits_value(d.take(i)) <= digits_value(d),
        0 <= digits_value(d.take(i)),
    decreases d.len(),
{
    if d.len() == 0 {
        assert(d.take(i) == d);
    } else if i == d.len() {
        assert(d.take(i) == d);
        lemma_digits_value_prefix(d.drop_last(), 0);
        assert(d.drop_last().take(0) =~= Seq::<char>::empty());
        assert(is_digit(d.last()));
    } else {
        let p = d.drop_last();
        assert(all_digits(p)) by {
            assert forall|j: int| 0 <= j < p.len() implies is_digit(#[trigger] p[j]) by {
                assert(p[j] == d[j]);
            }
        }
        lemma_digits_value_prefix(p, i);
        assert(p.take(i) == d.take(i));
        lemma_digits_value_prefix(p, p.len() as int);
        assert(p.take(p.len() as int) == p);
        assert(is_digit(d.last()));
    }
}

/// `u32::from_str` on characters.
pub fn parse_decimal_u32(s: &[char]) -> (value: Option<u32>)
    ensures
        value == parse_u32(s@),
{
    let start: usize = if s.len() > 0 && s[0] == '+' {
        1
    } else {
        0
    };
    let ghost d = if s@.len() > 0 && s@[0] == '+' {
        s@.drop_first()
    } else {
        s@
    };
    assert(d == s@.skip(start as int));
    assert(parse_u32(s@) == (if d.len() > 0 && all_digits(d) && digits_value(d) <= u32::MAX {
        Some(digits_value(d) as u32)
    } else {
        None
    }));
    if start == s.len() {
        return None;
    }
    let mut acc: u64 = 0;
    let mut i: usize = start;
    while i < s.len()
        invariant
            start <= i <= s@.len(),
            d == s@.skip(start as int),
            parse_u32(s@) == (if d.len() > 0 && all_digits(d) && digits_value(d) <= u32::MAX {
                Some(digits_value(d) as u32)
            } else {
                None
            }),
            forall|j: int| start <= j < i ==> is_digit(#[trigger] s@[j]),
            acc == digits_value(d.take(i - start)),
            acc <= u32::MAX,
        decreases s@.len() - i,
    {
        let c = s[i];
        if !('0' <= c && c <= '9') {
            assert(d[i - start] == s@[i as int]);
            assert(!is_digit(d[i - start]));
            assert(!all_digits(d));
            assert(parse_u32(s@) is None);
            return None;
        }
        let digit = (c as u32) - ('0' as u32);
        let next = acc * 10 + digit as u64;
        proof {
            let t = d.take(i - start + 1);
            assert(t.drop_last() == d.take(i - start));
            assert(t.last() == c);
        }
        if next > 0xFFFF_FFFF {
            proof {
                let t = d.take(i - start + 1);
                assert(digits_value(t) == next);
                if all_digits(d) {
                    lemma_digits_value_prefix(d, i - start + 1);
                }
                assert(!all_digits(d) || digits_value(d) > u32::MAX);
                assert(parse_u32(s@) is None);
            }
            return None;
        }
        acc = next;
        i = i + 1;
    }
    proof {
        assert(d.take(d.len() as int) == d);
        assert(all_digits(d)) by {
            assert forall|j: int| 0 <= j < d.len() implies is_digit(#[trigger] d[j]) by {
                assert(d[j] == s@[start + j]);
            }
        }
    }
    Some(acc as u32)
}


/// A word: at least one character, none of them whitespace.
pub open spec fn is_word(w: Seq<char>) -> bool {
    w.len() > 0 && !has_white_space(w)
}

proof fn lemma_words_are_words(s: Seq<char>)
    ensures
        forall|i: int| 0 <= i < words(s).len() ==> is_word(#[trigger] words(s)[i]),
        s.len() > 0 && !is_white_space(s.last()) ==> words(s).len() > 0 && words(s).last().last()
            == s.last(),
    decreases s.len(),
{
    if s.len() > 0 {
        let p = s.drop_last();
        let c = s.last();
        lemma_words_are_words(p);
        if is_white_space(c) {
        } else if p.len() > 0 && !is_white_space(p.last()) {
            let w = words(p);
            let grown = w.last().push(c);
            assert(is_word(grown)) by {
                assert forall|k: int| 0 <= k < grown.len() implies !is_white_space(
                    #[trigger] grown[k],
                ) by {
                    if k < w.last().len() {
                        assert(is_word(w[w.len() - 1]));
                        assert(grown[k] == w.last()[k]);
                    }
                }
            }
            assert forall|i: int| 0 <= i < words(s).len() implies is_word(#[trigger] words(s)[i]) by {
                if i < w.len() - 1 {
                    assert(words(s)[i] == w[i]);
                }
            }
        } else {
            let w = words(p);
            assert(is_word(seq![c])) by {
                assert forall|k: int| 0 <= k < 1 implies !is_white_space(
                    #[trigger] seq![c][k],
                ) by {}
            }
            assert forall|i: int| 0 <= i < words(s).len() implies is_word(#[trigger] words(s)[i]) by {
                if i < w.len() {
                    assert(words(s)[i] == w[i]);
                }
            }
        }
    }
}

/// Appending a word after whitespace (or at the start) appends it to the
/// words.
proof fn lemma_words_append_word(z: Seq<char>, w: Seq<char>)
    requires
        is_word(w),
        z.len() == 0 || is_white_space(z.last()),
    ensures
        words(z + w) == words(z).push(w),
    decreases w.len(),
{
    let c = w.last();
    let w0 = w.drop_last();
    assert(!is_white_space(c)) by {
        assert(w[w.len() - 1] == c);
    }
    assert((z + w).drop_last() == z + w0);
    assert((z + w).last() == c);
    if w0.len() == 0 {
        assert(z + w0 == z);
        assert(w == seq![c]);
    } else {
        assert(is_word(w0)) by {
            assert forall|k: int| 0 <= k < w0.len() implies !is_white_space(#[trigger] w0[k]) by {
                assert(w0[k] == w[k]);
            }
        }
        lemma_words_append_word(z, w0);
        assert((z + w0).last() == w0.last());
        assert(!is_white_space(w0.last())) by {
            assert(w0.last() == w[w0.len() - 1]);
        }
        assert(words(z + w0).last() == w0);
        assert(words(z + w) == words(z + w0).update(words(z + w0).len() - 1, w0.push(c)));
        assert(w0.push(c) == w);
        assert(words(z).push(w0).update(words(z).len() as int, w) =~= words(z).push(w));
    }
}

proof fn lemma_words_of_join(pieces: Seq<Seq<char>>)
    requires
        forall|i: int| 0 <= i < pieces.len() ==> is_word(#[trigger] pieces[i]),
    ensures
        words(join(pieces, seq![' '])) == pieces,
    decreases pieces.len(),
{
    if pieces.len() == 0 {
        assert(words(Seq::<char>::empty()) == Seq::<Seq<char>>::empty());
    } else if pieces.len() == 1 {
        assert(is_word(pieces[0]));
        lemma_words_append_word(Seq::empty(), pieces[0]);
        assert(Seq::<char>::empty() + pieces[0] == pieces[0]);
        assert(words(Seq::<char>::empty()).push(pieces[0]) =~= pieces);
    } else {
        let prev = pieces.drop_last();
        assert forall|i: int| 0 <= i < prev.len() implies is_word(#[trigger] prev[i]) by {
            assert(prev[i] == pieces[i]);
        }
        lemma_words_of_join(prev);
        let z = join(prev, seq![' ']) + seq![' '];
        assert(z.last() == ' ');
        assert(z.drop_last() == join(prev, seq![' ']));
        assert(words(z) == words(join(prev, seq![' '])));
        assert(is_word(pieces[pieces.len() - 1]));
        lemma_words_append_word(z, pieces.last());
        assert(join(pieces, seq![' ']) == z + pieces.last());
        assert(prev.push(pieces.last()) =~= pieces);
    }
}

/// Collapsing whitespace keeps the words of the text, in order.
pub proof fn law_collapse_keeps_words(s: Seq<char>)
    ensures
        words(collapse_white_space(s)) == words(s),
{
    lemma_words_are_words(s);
    lemma_words_of_join(words(s));
}

/// Collapsing whitespace twice is collapsing it once.
pub proof fn law_collapse_idempotent(s: Seq<char>)
    ensures
        collapse_white_space(collapse_white_space(s)) == collapse_white_space(s),
{
    law_collapse_keeps_words(s);
}

proof fn lemma_trim_start_shape(s: Seq<char>)
    ensures
        trim_start(s).len() == 0 || !is_white_space(trim_start(s)[0]),
        trim_start(s).len() <= s.len(),
    decreases s.len(),
{
    if s.len() > 0 && is_white_space(s[0]) {
        lemma_trim_start_shape(s.drop_first());
    }
}

proof fn lemma_trim_end_shape(s: Seq<char>)
    ensures
        trim_end(s) == s.take(trim_end(s).len() as int),
        trim_end(s).len() <= s.len(),
        trim_end(s).len() == 0 || !is_white_space(trim_end(s).last()),
    decreases s.len(),
{
    if s.len() > 0 && is_white_space(s.last()) {
        let p = s.drop_last();
        lemma_trim_end_shape(p);
        assert(p.take(trim_end(p).len() as int) == s.take(trim_end(p).len() as int));
    } else {
        assert(s.take(s.len() as int) == s);
    }
}

/// Trimmed text neither starts nor ends with whitespace.
pub proof fn law_trim_shape(s: Seq<char>)
    ensures
        trim(s).len() == 0 || (!is_white_space(trim(s)[0]) && !is_white_space(trim(s).last())),
{
    let u = trim_start(s);
    lemma_trim_start_shape(s);
    lemma_trim_end_shape(u);
    if trim(s).len() > 0 {
        assert(trim(s)[0] == u[0]);
    }
}

/// Trimming twice is trimming once.
pub proof fn law_trim_idempotent(s: Seq<char>)
    ensures
        trim(trim(s)) == trim(s),
{
    let t = trim(s);
    law_trim_shape(s);
    assert(trim_start(t) == t);
    assert(trim_end(t) == t);
}

} // verus!
