//! Verified text helpers: ASCII-whitespace trimming, the optional `v` version
//! prefix, decimal rendering, splitting and single-quote escaping.

use vstd::prelude::*;

verus! {

/// The whitespace characters that command output is trimmed of.
pub open spec fn is_space(c: char) -> bool {
    c == ' ' || c == '\t' || c == '\n' || c == '\r'
}

/// `s` with leading whitespace removed.
pub open spec fn spec_trim_front(s: Seq<char>) -> Seq<char>
    decreases s.len(),
{
    if s.len() > 0 && is_space(s[0]) {
        spec_trim_front(s.subrange(1, s.len() as int))
    } else {
        s
    }
}

/// `s` with trailing whitespace removed.
pub open spec fn spec_trim_back(s: Seq<char>) -> Seq<char>
    decreases s.len(),
{
    if s.len() > 0 && is_space(s[s.len() - 1]) {
        spec_trim_back(s.subrange(0, s.len() - 1))
    } else {
        s
    }
}

/// `s` with leading and trailing whitespace removed.
pub open spec fn spec_trim(s: Seq<char>) -> Seq<char> {
    spec_trim_back(spec_trim_front(s))
}

proof fn lemma_trim_front_range(s: Seq<char>, k: int)
    requires
        0 <= k <= s.len(),
        forall|j: int| 0 <= j < k ==> is_space(s[j]),
        k < s.len() ==> !is_space(s[k]),
    ensures
        spec_trim_front(s) == s.subrange(k, s.len() as int),
    decreases k,
{
    if k == 0 {
        assert(s.subrange(0, s.len() as int) =~= s);
    } else {
        let t = s.subrange(1, s.len() as int);
        lemma_trim_front_range(t, k - 1);
        assert(t.subrange(k - 1, t.len() as int) =~= s.subrange(k, s.len() as int));
    }
}

proof fn lemma_trim_back_range(s: Seq<char>, k: int)
    requires
        0 <= k <= s.len(),
        forall|j: int| k <= j < s.len() ==> is_space(s[j]),
        k > 0 ==> !is_space(s[k - 1]),
    ensures
        spec_trim_back(s) == s.subrange(0, k),
    decreases s.len() - k,
{
    if k == s.len() {
        if s.len() > 0 && is_space(s[s.len() - 1]) {
            let t = s.subrange(0, s.len() - 1);
            lemma_trim_back_range(t, k - 1);
        } else {
            assert(s.subrange(0, s.len() as int) =~= s);
        }
    } else {
        let t = s.subrange(0, s.len() - 1);
        lemma_trim_back_range(t, k);
        assert(t.subrange(0, k) =~= s.subrange(0, k));
    }
}

fn is_space_char(c: char) -> (r: bool)
    ensures
        r == is_space(c),
{
    c == ' ' || c == '\t' || c == '\n' || c == '\r'
}

/// `s` with leading and trailing ASCII whitespace removed.
pub fn trim(s: &str) -> (r: String)
    ensures
        r@ == spec_trim(s@),
{
    let len = s.unicode_len();
    let mut start: usize = 0;
    while start < len && is_space_char(s.get_char(start))
        invariant
            0 <= start <= len,
            len == s@.len(),
            forall|j: int| 0 <= j < start ==> is_space(s@[j]),
        decreases len - start,
    {
        start = start + 1;
    }
    proof {
        lemma_trim_front_range(s@, start as int);
    }
    let mut end: usize = len;
    while end > start && is_space_char(s.get_char(end - 1))
        invariant
            start <= end <= len,
            len == s@.len(),
            forall|j: int| 0 <= j < start ==> is_space(s@[j]),
            start < s@.len() ==> !is_space(s@[start as int]),
            forall|j: int| end <= j < len ==> is_space(s@[j]),
        decreases end,
    {
        end = end - 1;
    }
    let r = s.substring_char(start, end);
    proof {
        let f = s@.subrange(start as int, s@.len() as int);
        lemma_trim_back_range(f, end - start);
        assert(f.subrange(0, end - start) =~= s@.subrange(start as int, end as int));
    }
    r.to_owned()
}

/// `s` with a single leading `v` removed, if one is there.
pub open spec fn spec_strip_v(s: Seq<char>) -> Seq<char> {
    if s.len() > 0 && s[0] == 'v' {
        s.subrange(1, s.len() as int)
    } else {
        s
    }
}

/// Strips one optional leading `v` from a version string.
pub fn strip_v_prefix(s: &str) -> (r: String)
    ensures
        r@ == spec_strip_v(s@),
{
    let len = s.unicode_len();
    if len > 0 && s.get_char(0) == 'v' {
        s.substring_char(1, len).to_owned()
    } else {
        s.to_owned()
    }
}

/// `s` with a `v` put in front.
pub open spec fn spec_prefix_v(s: Seq<char>) -> Seq<char> {
    seq!['v'] + s
}

/// Puts the presentation prefix `v` in front of a version string.
pub fn prefix_v(s: &str) -> (r: String)
    ensures
        r@ == spec_prefix_v(s@),
{
    proof {
        reveal_strlit("v");
        assert("v"@ =~= seq!['v']);
    }
    let r = String::from_str("v").concat(s);
    proof {
        assert(r@ =~= spec_prefix_v(s@));
    }
    r
}

/// The decimal digit character for `d`, which must be below ten.
pub open spec fn digit_char(d: int) -> char {
    if d == 0 {
        '0'
    } else if d == 1 {
        '1'
    } else if d == 2 {
        '2'
    } else if d == 3 {
        '3'
    } else if d == 4 {
        '4'
    } else if d == 5 {
        '5'
    } else if d == 6 {
        '6'
    } else if d == 7 {
        '7'
    } else if d == 8 {
        '8'
    } else {
        '9'
    }
}

/// The decimal rendering of `n`, without padding or sign.
pub open spec fn spec_decimal(n: nat) -> Seq<char>
    decreases n,
{
    if n < 10 {
        seq![digit_char(n as int)]
    } else {
        spec_decimal(n / 10) + seq![digit_char((n % 10) as int)]
    }
}

/// A decimal rendering always opens with a digit, never with a letter.
pub proof fn lemma_decimal_starts_with_digit(n: nat)
    ensures
        spec_decimal(n).len() > 0,
        spec_decimal(n)[0] != 'v',
        !is_space(spec_decimal(n)[0]),
    decreases n,
{
    if n >= 10 {
        lemma_decimal_starts_with_digit(n / 10);
    }
}

fn digit_str(d: u64) -> (r: &'static str)
    requires
        d < 10,
    ensures
        r@ =~= seq![digit_char(d as int)],
{
    proof {
        reveal_strlit("0");
        reveal_strlit("1");
        reveal_strlit("2");
        reveal_strlit("3");
        reveal_strlit("4");
        reveal_strlit("5");
        reveal_strlit("6");
        reveal_strlit("7");
        reveal_strlit("8");
        reveal_strlit("9");
    }
    if d == 0 {
        "0"
    } else if d == 1 {
        "1"
    } else if d == 2 {
        "2"
    } else if d == 3 {
        "3"
    } else if d == 4 {
        "4"
    } else if d == 5 {
        "5"
    } else if d == 6 {
        "6"
    } else if d == 7 {
        "7"
    } else if d == 8 {
        "8"
    } else {
        "9"
    }
}

/// Renders `n` in decimal.
pub fn u64_to_string(n: u64) -> (r: String)
    ensures
        r@ == spec_decimal(n as nat),
    decreases n,
{
    if n < 10 {
        digit_str(n).to_owned()
    } else {
        let mut r = u64_to_string(n / 10);
        r.append(digit_str(n % 10));
        r
    }
}

/// `s` cut at every occurrence of `sep`; empty segments are kept, so the
/// result always holds one more segment than `s` holds separators.
pub open spec fn spec_split(s: Seq<char>, sep: char) -> Seq<Seq<char>>
    decreases s.len(),
{
    if s.len() == 0 {
        seq![Seq::<char>::empty()]
    } else if s[0] == sep {
        seq![Seq::<char>::empty()] + spec_split(s.subrange(1, s.len() as int), sep)
    } else {
        let r = spec_split(s.subrange(1, s.len() as int), sep);
        seq![seq![s[0]] + r[0]] + r.subrange(1, r.len() as int)
    }
}

pub proof fn lemma_split_len(s: Seq<char>, sep: char)
    ensures
        spec_split(s, sep).len() >= 1,
    decreases s.len(),
{
    if s.len() > 0 {
        lemma_split_len(s.subrange(1, s.len() as int), sep);
    }
}

proof fn lemma_split_none(s: Seq<char>, sep: char)
    requires
        forall|j: int| 0 <= j < s.len() ==> s[j] != sep,
    ensures
        spec_split(s, sep) =~~= seq![s],
    decreases s.len(),
{
    if s.len() == 0 {
        assert(spec_split(s, sep) =~~= seq![s]);
    } else {
        let t = s.subrange(1, s.len() as int);
        lemma_split_none(t, sep);
        let r = spec_split(t, sep);
        assert(r =~~= seq![t]);
        assert(seq![s[0]] + r[0] =~= s);
        assert(r.subrange(1, r.len() as int) =~= Seq::<Seq<char>>::empty());
        assert(spec_split(s, sep) =~~= seq![s]);
    }
}

proof fn lemma_split_at_first(s: Seq<char>, sep: char, i: int)
    requires
        0 <= i < s.len(),
        s[i] == sep,
        forall|j: int| 0 <= j < i ==> s[j] != sep,
    ensures
        spec_split(s, sep) =~~= seq![s.subrange(0, i)] + spec_split(
            s.subrange(i + 1, s.len() as int),
            sep,
        ),
    decreases i,
{
    let t = s.subrange(1, s.len() as int);
    if i == 0 {
        assert(s.subrange(0, 0) =~= Seq::<char>::empty());
        assert(spec_split(s, sep) =~~= seq![s.subrange(0, 0)] + spec_split(
            s.subrange(1, s.len() as int),
            sep,
        ));
    } else {
        lemma_split_at_first(t, sep, i - 1);
        lemma_split_len(t.subrange(i, t.len() as int), sep);
        let rest = spec_split(t.subrange(i, t.len() as int), sep);
        let r = spec_split(t, sep);
        assert(r =~~= seq![t.subrange(0, i - 1)] + rest);
        assert(seq![s[0]] + r[0] =~= s.subrange(0, i));
        assert(t.subrange(i, t.len() as int) =~= s.subrange(i + 1, s.len() as int));
        assert(r.subrange(1, r.len() as int) =~~= rest);
        assert(spec_split(s, sep) =~~= seq![s.subrange(0, i)] + rest);
    }
}

/// Splits `s` at every occurrence of `sep`.
pub fn split_char(s: &str, sep: char) -> (r: Vec<String>)
    ensures
        r@.len() == spec_split(s@, sep).len(),
        forall|j: int| 0 <= j < r@.len() ==> r@[j]@ == spec_split(s@, sep)[j],
    decreases s@.len(),
{
    let len = s.unicode_len();
    let mut i: usize = 0;
    while i < len && s.get_char(i) != sep
        invariant
            0 <= i <= len,
            len == s@.len(),
            forall|j: int| 0 <= j < i ==> s@[j] != sep,
        decreases len - i,
    {
        i = i + 1;
    }
    if i == len {
        proof {
            lemma_split_none(s@, sep);
        }
        let mut r: Vec<String> = Vec::new();
        r.push(s.to_owned());
        r
    } else {
        let head = s.substring_char(0, i).to_owned();
        let rest = s.substring_char(i + 1, len);
        let tail = split_char(rest, sep);
        proof {
            lemma_split_at_first(s@, sep, i as int);
        }
        let ghost whole = spec_split(s@, sep);
        let mut r: Vec<String> = Vec::new();
        r.push(head);
        let mut k: usize = 0;
        let n = tail.len();
        while k < n
            invariant
                0 <= k <= n,
                n == tail@.len(),
                r@.len() == 1 + k,
                whole == spec_split(s@, sep),
                whole.len() == 1 + n,
                r@[0]@ == whole[0],
                forall|j: int| 0 <= j < n ==> tail@[j]@ == whole[j + 1],
                forall|j: int| 1 <= j < r@.len() ==> r@[j]@ == whole[j],
            decreases n - k,
        {
            let seg = tail[k].clone();
            r.push(seg);
            k = k + 1;
        }
        r
    }
}

/// What one character contributes to the single-quote escaped form: a quote
/// becomes backslash-quote, everything else stands as it is.
pub open spec fn escape_char(c: char) -> Seq<char> {
    if c == '\'' {
        seq!['\\', '\'']
    } else {
        seq![c]
    }
}

/// `s` with every single quote turned into backslash-quote.
pub open spec fn spec_escape_single_quotes(s: Seq<char>) -> Seq<char>
    decreases s.len(),
{
    if s.len() == 0 {
        Seq::empty()
    } else {
        escape_char(s[0]) + spec_escape_single_quotes(s.subrange(1, s.len() as int))
    }
}

proof fn lemma_escape_snoc(s: Seq<char>, c: char)
    ensures
        spec_escape_single_quotes(s + seq![c]) == spec_escape_single_quotes(s) + escape_char(c),
    decreases s.len(),
{
    let w = s + seq![c];
    if s.len() == 0 {
        assert(w.subrange(1, w.len() as int) =~= Seq::<char>::empty());
        assert(spec_escape_single_quotes(w) == escape_char(w[0]) + spec_escape_single_quotes(
            w.subrange(1, w.len() as int),
        ));
        assert(w[0] == c);
        assert(escape_char(c) + Seq::<char>::empty() =~= escape_char(c));
        assert(Seq::<char>::empty() + escape_char(c) =~= escape_char(c));
    } else {
        let t = s.subrange(1, s.len() as int);
        lemma_escape_snoc(t, c);
        assert(w.subrange(1, w.len() as int) =~= t + seq![c]);
        assert(spec_escape_single_quotes(w) == escape_char(s[0]) + (spec_escape_single_quotes(t)
            + escape_char(c)));
        assert(escape_char(s[0]) + (spec_escape_single_quotes(t) + escape_char(c)) =~= (escape_char(
            s[0],
        ) + spec_escape_single_quotes(t)) + escape_char(c));
    }
}

/// Escapes single quotes in `s` for inclusion inside a single-quoted shell
/// word: each `'` becomes `\'`.
pub fn escape_single_quotes(s: &str) -> (r: String)
    ensures
        r@ == spec_escape_single_quotes(s@),
{
    let len = s.unicode_len();
    let mut r = String::new();
    let mut i: usize = 0;
    proof {
        assert(s@.subrange(0, 0) =~= Seq::<char>::empty());
    }
    while i < len
        invariant
            0 <= i <= len,
            len == s@.len(),
            r@ == spec_escape_single_quotes(s@.subrange(0, i as int)),
        decreases len - i,
    {
        let c = s.get_char(i);
        if c == '\'' {
            proof {
                reveal_strlit("\\'");
            }
            r.append("\\'");
        } else {
            let piece = s.substring_char(i, i + 1);
            r.append(piece);
        }
        proof {
            lemma_escape_snoc(s@.subrange(0, i as int), s@[i as int]);
            assert(s@.subrange(0, i + 1 as int) =~= s@.subrange(0, i as int) + seq![s@[i as int]]);
        }
        i = i + 1;
    }
    proof {
        assert(s@.subrange(0, len as int) =~= s@);
    }
    r
}

/// True when the two string slices hold the same characters.
pub fn str_eq(a: &str, b: &str) -> (r: bool)
    ensures
        r == (a@ == b@),
{
    let oa = a.to_owned();
    let ob = b.to_owned();
    oa == ob
}

} // verus!
