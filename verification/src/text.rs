use vstd::prelude::*;

verus! {

/// Whether a character has the Unicode `White_Space` property.
pub open spec fn is_space(c: char) -> bool {
    let u = c as u32;
    ||| 0x09 <= u <= 0x0D
    ||| u == 0x20
    ||| u == 0x85
    ||| u == 0xA0
    ||| u == 0x1680
    ||| 0x2000 <= u <= 0x200A
    ||| u == 0x2028
    ||| u == 0x2029
    ||| u == 0x202F
    ||| u == 0x205F
    ||| u == 0x3000
}

/// Decides `is_space`.
pub fn char_is_space(c: char) -> (b: bool)
    ensures
        b == is_space(c),
{
    let u = c as u32;
    (0x09 <= u && u <= 0x0D) || u == 0x20 || u == 0x85 || u == 0xA0 || u == 0x1680 || (0x2000 <= u
        && u <= 0x200A) || u == 0x2028 || u == 0x2029 || u == 0x202F || u == 0x205F || u == 0x3000
}

/// Appends one character to a string (`String::push`).
#[verifier::external_body]
pub(crate) fn push_char(s: &mut String, c: char)
    ensures
        final(s)@ == old(s)@.push(c),
{
    s.push(c);
}

/// Whether every character of `s` is white space (so that trimming leaves nothing).
pub open spec fn is_blank(s: Seq<char>) -> bool {
    forall|i: int| 0 <= i < s.len() ==> is_space(#[trigger] s[i])
}

/// Decides `is_blank` for a string slice.
pub fn str_is_blank(s: &str) -> (b: bool)
    ensures
        b == is_blank(s@),
{
    let n = s.unicode_len();
    let mut i: usize = 0;
    while i < n
        invariant
            n == s@.len(),
            i <= n,
            forall|j: int| 0 <= j < i ==> is_space(#[trigger] s@[j]),
        decreases n - i,
    {
        let c = s.get_char(i);
        if !char_is_space(c) {
            return false;
        }
        i = i + 1;
    }
    true
}

/// The number of white-space characters that `s` starts with.
pub open spec fn leading_spaces(s: Seq<char>) -> nat
    decreases s.len(),
{
    if s.len() > 0 && is_space(s[0]) {
        1 + leading_spaces(s.drop_first())
    } else {
        0
    }
}

/// The number of white-space characters that `s` ends with.
pub open spec fn trailing_spaces(s: Seq<char>) -> nat
    decreases s.len(),
{
    if s.len() > 0 && is_space(s.last()) {
        1 + trailing_spaces(s.drop_last())
    } else {
        0
    }
}

/// `s` without its leading and trailing white space.
pub open spec fn trimmed(s: Seq<char>) -> Seq<char> {
    if is_blank(s) {
        Seq::empty()
    } else {
        s.subrange(leading_spaces(s) as int, s.len() - trailing_spaces(s))
    }
}

proof fn lemma_leading_spaces(s: Seq<char>, i: int)
    requires
        0 <= i <= s.len(),
        forall|j: int| 0 <= j < i ==> is_space(#[trigger] s[j]),
        i < s.len() ==> !is_space(s[i]),
    ensures
        leading_spaces(s) == i,
    decreases i,
{
    if i > 0 {
        let t = s.drop_first();
        assert forall|j: int| 0 <= j < i - 1 implies is_space(#[trigger] t[j]) by {
            assert(t[j] == s[j + 1]);
        }
        lemma_leading_spaces(t, i - 1);
    }
}

proof fn lemma_trailing_spaces(s: Seq<char>, k: int)
    requires
        0 <= k <= s.len(),
        forall|j: int| s.len() - k <= j < s.len() ==> is_space(#[trigger] s[j]),
        k < s.len() ==> !is_space(s[s.len() - k - 1]),
    ensures
        trailing_spaces(s) == k,
    decreases k,
{
    if k > 0 {
        let t = s.drop_last();
        assert forall|j: int| t.len() - (k - 1) <= j < t.len() implies is_space(#[trigger] t[j]) by {
            assert(t[j] == s[j]);
        }
        lemma_trailing_spaces(t, k - 1);
    }
}

/// The text of `s` without leading and trailing white space (`str::trim`).
pub fn trim_text(s: &str) -> (t: String)
    ensures
        t@ == trimmed(s@),
{
    let n = s.unicode_len();
    let mut a: usize = 0;
    while a < n && char_is_space(s.get_char(a))
        invariant
            n == s@.len(),
            a <= n,
            forall|j: int| 0 <= j < a ==> is_space(#[trigger] s@[j]),
        decreases n - a,
    {
        a = a + 1;
    }
    if a == n {
        assert(is_blank(s@));
        return String::new();
    }
    assert(!is_blank(s@));
    proof {
        lemma_leading_spaces(s@, a as int);
    }
    let mut b: usize = n;
    while b > a && char_is_space(s.get_char(b - 1))
        invariant
            n == s@.len(),
            a < n,
            !is_space(s@[a as int]),
            a <= b <= n,
            forall|j: int| b <= j < n ==> is_space(#[trigger] s@[j]),
        decreases b,
    {
        b = b - 1;
    }
    proof {
        lemma_trailing_spaces(s@, (n - b) as int);
    }
    let piece = s.substring_char(a, b);
    piece.to_string()
}

/// The words of `s`: its maximal runs of characters other than white space,
/// in order (`str::split_whitespace`).
pub open spec fn words(s: Seq<char>) -> Seq<Seq<char>>
    decreases s.len(),
{
    if s.len() == 0 {
        Seq::empty()
    } else {
        let p = s.drop_last();
        let c = s.last();
        if is_space(c) {
            words(p)
        } else if p.len() > 0 && !is_space(p.last()) {
            let w = words(p);
            w.update(w.len() - 1, w.last().push(c))
        } else {
            words(p).push(seq![c])
        }
    }
}

proof fn lemma_words_nonempty(s: Seq<char>)
    requires
        s.len() > 0,
        !is_space(s.last()),
    ensures
        words(s).len() > 0,
    decreases s.len(),
{
    let p = s.drop_last();
    if p.len() > 0 && !is_space(p.last()) {
        lemma_words_nonempty(p);
    }
}

/// The views of a sequence of strings.
pub open spec fn texts(v: Seq<String>) -> Seq<Seq<char>> {
    v.map_values(|w: String| w@)
}

/// Splits `s` into its words.
pub fn split_words(s: &str) -> (ws: Vec<String>)
    ensures
        texts(ws@) == words(s@),
{
    let n = s.unicode_len();
    let mut ws: Vec<String> = Vec::new();
    let mut i: usize = 0;
    while i < n
        invariant
            n == s@.len(),
            i <= n,
            texts(ws@) == words(s@.take(i as int)),
        decreases n - i,
    {
        let c = s.get_char(i);
        let ghost pre = s@.take(i as int);
        let ghost cur = s@.take(i + 1);
        assert(cur.drop_last() == pre);
        assert(cur.last() == c);
        if char_is_space(c) {
        } else if i > 0 && !char_is_space(s.get_char(i - 1)) {
            assert(pre.last() == s@[i - 1]);
            proof {
                lemma_words_nonempty(pre);
            }
            let mut last = ws.pop().unwrap();
            push_char(&mut last, c);
            ws.push(last);
            assert(texts(ws@) =~= words(cur));
        } else {
            let mut w = String::new();
            push_char(&mut w, c);
            ws.push(w);
            assert(texts(ws@) =~= words(cur));
        }
        i = i + 1;
    }
    assert(s@.take(n as int) == s@);
    ws
}

} // verus!

verus! {

/// The decimal digit for `d < 10`.
pub open spec fn digit_char(d: nat) -> char {
    ((d + 0x30) as u32) as char
}

/// The decimal representation of a natural number, without leading zeros.
pub open spec fn nat_digits(n: nat) -> Seq<char>
    decreases n,
{
    if n < 10 {
        seq![digit_char(n)]
    } else {
        nat_digits(n / 10).push(digit_char(n % 10))
    }
}

/// The decimal representation of an integer, as `Display` writes it.
pub open spec fn int_text(n: int) -> Seq<char> {
    if n < 0 {
        seq!['-'] + nat_digits((-n) as nat)
    } else {
        nat_digits(n as nat)
    }
}

fn digit_of(d: u64) -> (c: char)
    requires
        d < 10,
    ensures
        c == digit_char(d as nat),
{
    let b: u8 = (d as u8) + 0x30;
    b as char
}

fn append_digits(out: &mut String, m: u64)
    ensures
        final(out)@ == old(out)@ + nat_digits(m as nat),
    decreases m,
{
    if m < 10 {
        push_char(out, digit_of(m));
    } else {
        append_digits(out, m / 10);
        push_char(out, digit_of(m % 10));
    }
}

/// Writes an `i64` in decimal.
pub fn i64_text(n: i64) -> (s: String)
    ensures
        s@ == int_text(n as int),
{
    let mut s = String::new();
    if n < 0 {
        push_char(&mut s, '-');
        let wide: i128 = n as i128;
        let m: u64 = (0 - wide) as u64;
        append_digits(&mut s, m);
    } else {
        append_digits(&mut s, n as u64);
    }
    s
}

/// Whether `c` is an ASCII decimal digit.
pub open spec fn is_digit(c: char) -> bool {
    '0' <= c <= '9'
}

/// The value of a string of decimal digits.
pub open spec fn digits_value(s: Seq<char>) -> nat
    decreases s.len(),
{
    if s.len() == 0 {
        0
    } else {
        digits_value(s.drop_last()) * 10 + ((s.last() as u32) - 0x30) as nat
    }
}

/// The part of `s` that must be digits for `usize::from_str`: `s` without a
/// leading `+`, where one stands before at least one more character.
pub open spec fn literal_digits(s: Seq<char>) -> Seq<char> {
    if s.len() >= 2 && s[0] == '+' {
        s.drop_first()
    } else {
        s
    }
}

/// Whether `d` is a non-empty run of ASCII digits.
pub open spec fn all_digits(d: Seq<char>) -> bool {
    d.len() > 0 && forall|i: int| 0 <= i < d.len() ==> is_digit(#[trigger] d[i])
}

/// The number that `usize::from_str` reads in `s`, before its range is checked:
/// an optional `+` followed by at least one ASCII digit, and nothing else.
pub open spec fn unsigned_literal(s: Seq<char>) -> Option<nat> {
    let d = literal_digits(s);
    if all_digits(d) {
        Some(digits_value(d))
    } else {
        None
    }
}

/// What `s.parse::<usize>().ok()` gives.
pub open spec fn parsed_usize(s: Seq<char>) -> Option<usize> {
    match unsigned_literal(s) {
        Some(v) => if v <= usize::MAX {
            Some(v as usize)
        } else {
            None
        },
        None => None,
    }
}

proof fn lemma_digits_value_grows(s: Seq<char>, i: int)
    requires
        0 <= i <= s.len(),
    ensures
        digits_value(s.take(i)) <= digits_value(s),
    decreases s.len() - i,
{
    if i < s.len() {
        lemma_digits_value_grows(s, i + 1);
        assert(s.take(i + 1).drop_last() == s.take(i));
    } else {
        assert(s.take(i) == s);
    }
}

/// Reads an unsigned decimal number the way `str::parse::<usize>` does.
pub fn parse_usize(s: &str) -> (r: Option<usize>)
    ensures
        r == parsed_usize(s@),
{
    let n = s.unicode_len();
    let mut start: usize = 0;
    if n >= 2 && s.get_char(0) == '+' {
        start = 1;
    }
    let ghost d = literal_digits(s@);
    assert(d == s@.subrange(start as int, n as int));
    if start == n {
        return None;
    }
    let mut acc: usize = 0;
    let mut i: usize = start;
    while i < n
        invariant
            n == s@.len(),
            start <= i <= n,
            start < n,
            d == s@.subrange(start as int, n as int),
            d == literal_digits(s@),
            forall|j: int| start <= j < i ==> is_digit(#[trigger] s@[j]),
            acc == digits_value(d.take(i - start)),
        decreases n - i,
    {
        let c = s.get_char(i);
        let ghost k = i - start;
        assert(d[k] == c);
        assert(d.take(k + 1).drop_last() == d.take(k));
        if !('0' <= c && c <= '9') {
            assert(!is_digit(d[k]));
            assert(!all_digits(d));
            return None;
        }
        assert(d.take(k + 1).last() == c);
        assert(digits_value(d.take(k + 1)) == acc * 10 + ((c as u32) - 0x30) as nat);
        let dv: usize = ((c as u32) - 0x30) as usize;
        match acc.checked_mul(10) {
            None => {
                proof {
                    lemma_digits_value_grows(d, k + 1);
                }
                return None;
            },
            Some(m) => match m.checked_add(dv) {
                None => {
                    proof {
                        lemma_digits_value_grows(d, k + 1);
                    }
                    return None;
                },
                Some(v) => {
                    acc = v;
                },
            },
        }
        i = i + 1;
    }
    assert(d.take(n - start) == d);
    Some(acc)
}

} // verus!

verus! {

/// Compares two texts character by character.
pub fn same_text(a: &str, b: &str) -> (r: bool)
    ensures
        r == (a@ == b@),
{
    let n = a.unicode_len();
    let m = b.unicode_len();
    if n != m {
        return false;
    }
    let mut i: usize = 0;
    while i < n
        invariant
            n == a@.len(),
            m == b@.len(),
            n == m,
            i <= n,
            forall|j: int| 0 <= j < i ==> a@[j] == b@[j],
        decreases n - i,
    {
        if a.get_char(i) != b.get_char(i) {
            return false;
        }
        i = i + 1;
    }
    assert(a@ =~= b@);
    true
}

/// What `s.parse::<bool>().ok()` gives.
pub open spec fn parsed_bool(s: Seq<char>) -> Option<bool> {
    if s == "true"@ {
        Some(true)
    } else if s == "false"@ {
        Some(false)
    } else {
        None
    }
}

/// Reads `true` or `false` the way `str::parse::<bool>` does.
pub fn parse_bool(s: &str) -> (r: Option<bool>)
    ensures
        r == parsed_bool(s@),
{
    if same_text(s, "true") {
        Some(true)
    } else if same_text(s, "false") {
        Some(false)
    } else {
        None
    }
}

/// The texts of `parts` with `sep` between each two of them (`join`).
pub open spec fn joined(parts: Seq<Seq<char>>, sep: Seq<char>) -> Seq<char>
    decreases parts.len(),
{
    if parts.len() == 0 {
        Seq::empty()
    } else if parts.len() == 1 {
        parts[0]
    } else {
        joined(parts.drop_last(), sep) + sep + parts.last()
    }
}

/// Joins texts with a separator.
pub fn join_texts(parts: &[String], sep: &str) -> (r: String)
    ensures
        r@ == joined(texts(parts@), sep@),
{
    let n = parts.len();
    let mut r = String::new();
    let mut i: usize = 0;
    while i < n
        invariant
            n == parts@.len(),
            i <= n,
            r@ == joined(texts(parts@.take(i as int)), sep@),
        decreases n - i,
    {
        let ghost before = texts(parts@.take(i as int));
        let ghost after = texts(parts@.take(i + 1));
        assert(after.drop_last() =~= before);
        assert(after.last() == parts@[i as int]@);
        if i > 0 {
            r.append(sep);
        } else {
            assert(after =~= seq![parts@[0]@]);
        }
        r.append(parts[i].as_str());
        i = i + 1;
    }
    assert(parts@.take(n as int) =~= parts@);
    r
}

} // verus!

verus! {

/// `String::from_utf8`: the text of bytes that are UTF-8, and nothing for
/// bytes that are not.
#[verifier::external_body]
pub(crate) fn utf8_string(bytes: Vec<u8>) -> (r: Option<String>)
    ensures
        r is Some <==> vstd::utf8::valid_utf8(bytes@),
        r matches Some(s) ==> s@ == vstd::utf8::decode_utf8(bytes@),
{
    String::from_utf8(bytes).ok()
}

} // verus!
