use vstd::prelude::*;

verus! {

/// What `str::to_lowercase` returns for a string: its Unicode lowercase
/// mapping, context-sensitive for the final sigma.
pub uninterp spec fn lowercase_of(s: Seq<char>) -> Seq<char>;

/// Whether `c` has the Unicode `White_Space` property, which is what
/// `char::is_whitespace` tests: the ASCII tab, line feed, vertical tab, form
/// feed, carriage return and space, next line, no-break space, ogham space
/// mark, the spaces from en quad to hair space, line and paragraph
/// separators, narrow no-break space, medium mathematical space and
/// ideographic space.
pub open spec fn whitespace_char(c: char) -> bool {
    let n = c as int;
    ||| 0x09 <= n <= 0x0D
    ||| n == 0x20
    ||| n == 0x85
    ||| n == 0xA0
    ||| n == 0x1680
    ||| 0x2000 <= n <= 0x200A
    ||| n == 0x2028
    ||| n == 0x2029
    ||| n == 0x202F
    ||| n == 0x205F
    ||| n == 0x3000
}

/// Appends one character to a string.
///
/// Trusted wrapper around `String::push`, which appends the given char to
/// the end of the string; the contract states exactly that.
#[verifier::external_body]
pub fn push_char(s: &mut String, c: char)
    ensures
        final(s)@ == old(s)@.push(c),
{
    s.push(c);
}

/// The lowercase form of a string.
///
/// Trusted wrapper around `str::to_lowercase`; the contract only ties the
/// result to the argument through the name `lowercase_of`, the Unicode
/// mapping itself is not stated.
#[verifier::external_body]
pub fn to_lowercase(s: &str) -> (res: String)
    ensures
        res@ == lowercase_of(s@),
{
    s.to_lowercase()
}

/// Whether a character is whitespace, as `char::is_whitespace` decides.
pub fn is_whitespace(c: char) -> (res: bool)
    ensures
        res == whitespace_char(c),
{
    ('\u{09}' <= c && c <= '\u{0D}') || c == ' ' || c == '\u{85}' || c == '\u{A0}'
        || c == '\u{1680}' || ('\u{2000}' <= c && c <= '\u{200A}') || c == '\u{2028}'
        || c == '\u{2029}' || c == '\u{202F}' || c == '\u{205F}' || c == '\u{3000}'
}

/// The characters of a string slice, in order.
pub fn chars_of(s: &str) -> (res: Vec<char>)
    ensures
        res@ == s@,
{
    let mut res: Vec<char> = Vec::new();
    for c in it: s.chars()
        invariant
            res@ == it.seq().take(it.index() as int),
    {
        res.push(c);
    }
    res
}

/// A string holding the characters `chars[from..to]`.
pub fn string_from_range(chars: &Vec<char>, from: usize, to: usize) -> (res: String)
    requires
        from <= to <= chars.len(),
    ensures
        res@ == chars@.subrange(from as int, to as int),
{
    let mut res = String::new();
    let mut i = from;
    while i < to
        invariant
            from <= i <= to <= chars.len(),
            res@ == chars@.subrange(from as int, i as int),
        decreases to - i,
    {
        push_char(&mut res, chars[i]);
        assert(chars@.subrange(from as int, i + 1) == chars@.subrange(from as int, i as int).push(chars@[i as int]));
        i += 1;
    }
    res
}

/// A string holding exactly the given characters.
pub fn string_from_chars(chars: &Vec<char>) -> (res: String)
    ensures
        res@ == chars@,
{
    let res = string_from_range(chars, 0, chars.len());
    assert(chars@.subrange(0, chars@.len() as int) == chars@);
    res
}

/// An owned copy of a string slice.
pub fn owned(s: &str) -> (res: String)
    ensures
        res@ == s@,
{
    let mut res = String::new();
    res.append(s);
    res
}

/// `s` with the leading whitespace removed.
pub open spec fn trim_start_spec(s: Seq<char>) -> Seq<char>
    decreases s.len(),
{
    if s.len() > 0 && whitespace_char(s[0]) {
        trim_start_spec(s.drop_first())
    } else {
        s
    }
}

/// `s` with the trailing whitespace removed.
pub open spec fn trim_end_spec(s: Seq<char>) -> Seq<char>
    decreases s.len(),
{
    if s.len() > 0 && whitespace_char(s.last()) {
        trim_end_spec(s.drop_last())
    } else {
        s
    }
}

/// `s` with leading and trailing whitespace removed, as `str::trim` does.
pub open spec fn trim_spec(s: Seq<char>) -> Seq<char> {
    trim_end_spec(trim_start_spec(s))
}

proof fn lemma_trim_start_skip(s: Seq<char>, i: int)
    requires
        0 <= i < s.len(),
        whitespace_char(s[i]),
    ensures
        trim_start_spec(s.skip(i)) == trim_start_spec(s.skip(i + 1)),
{
    assert(s.skip(i).drop_first() == s.skip(i + 1));
}

proof fn lemma_trim_end_take(s: Seq<char>, j: int)
    requires
        0 < j <= s.len(),
        whitespace_char(s[j - 1]),
    ensures
        trim_end_spec(s.take(j)) == trim_end_spec(s.take(j - 1)),
{
    assert(s.take(j).drop_last() == s.take(j - 1));
}

/// `s` without leading and trailing whitespace.
pub fn trim(s: &str) -> (res: String)
    ensures
        res@ == trim_spec(s@),
{
    let chars = chars_of(s);
    let n = chars.len();
    let mut i: usize = 0;
    assert(chars@.skip(0) == chars@);
    while i < n && is_whitespace(chars[i])
        invariant
            i <= n == chars@.len(),
            trim_start_spec(chars@) == trim_start_spec(chars@.skip(i as int)),
        decreases n - i,
    {
        proof {
            lemma_trim_start_skip(chars@, i as int);
        }
        i += 1;
    }
    let ghost rest = chars@.skip(i as int);
    assert(trim_start_spec(rest) == rest);
    let mut j: usize = n;
    assert(rest.take(rest.len() as int) == rest);
    while j > i && is_whitespace(chars[j - 1])
        invariant
            i <= j <= n == chars@.len(),
            rest == chars@.skip(i as int),
            trim_end_spec(rest) == trim_end_spec(rest.take(j - i)),
        decreases j,
    {
        proof {
            lemma_trim_end_take(rest, j - i);
        }
        j -= 1;
    }
    assert(trim_end_spec(rest.take(j - i)) == rest.take(j - i));
    assert(rest.take(j - i) == chars@.subrange(i as int, j as int));
    string_from_range(&chars, i, j)
}

/// The state of a left-to-right split of `s` at each `sep`: the finished
/// pieces, and the piece still being read.
pub open spec fn split_state(s: Seq<char>, sep: char) -> (Seq<Seq<char>>, Seq<char>)
    decreases s.len(),
{
    if s.len() == 0 {
        (Seq::empty(), Seq::empty())
    } else {
        let (done, cur) = split_state(s.drop_last(), sep);
        if s.last() == sep {
            (done.push(cur), Seq::empty())
        } else {
            (done, cur.push(s.last()))
        }
    }
}

/// The pieces of `s` between occurrences of `sep`, as `str::split` with a
/// char pattern yields them (there is always at least one piece).
pub open spec fn split_spec(s: Seq<char>, sep: char) -> Seq<Seq<char>> {
    let (done, cur) = split_state(s, sep);
    done.push(cur)
}

/// The pieces of `parts` joined with `sep` between each two of them.
pub open spec fn join_spec(parts: Seq<Seq<char>>, sep: char) -> Seq<char>
    decreases parts.len(),
{
    if parts.len() == 0 {
        Seq::empty()
    } else if parts.len() == 1 {
        parts[0]
    } else {
        join_spec(parts.drop_last(), sep).push(sep) + parts.last()
    }
}

/// A split always has at least one piece.
pub proof fn lemma_split_nonempty(s: Seq<char>, sep: char)
    ensures
        split_spec(s, sep).len() >= 1,
{
    let (done, cur) = split_state(s, sep);
    assert(split_spec(s, sep) == done.push(cur));
}

/// The pieces that `s` splits into at `sep`.
pub fn split(s: &str, sep: char) -> (res: Vec<String>)
    ensures
        res.deep_view() == split_spec(s@, sep),
{
    let chars = chars_of(s);
    let mut done: Vec<String> = Vec::new();
    let mut cur: Vec<char> = Vec::new();
    let mut i: usize = 0;
    while i < chars.len()
        invariant
            i <= chars.len(),
            chars@ == s@,
            (done.deep_view(), cur@) == split_state(chars@.take(i as int), sep),
        decreases chars.len() - i,
    {
        assert(chars@.take(i + 1).drop_last() == chars@.take(i as int));
        if chars[i] == sep {
            let piece = string_from_chars(&cur);
            done.push(piece);
            cur = Vec::new();
            assert(done.deep_view() == split_state(chars@.take(i as int), sep).0.push(piece@));
        } else {
            cur.push(chars[i]);
        }
        i += 1;
    }
    assert(chars@.take(chars.len() as int) == chars@);
    let last = string_from_chars(&cur);
    let ghost before = done.deep_view();
    done.push(last);
    assert(done.deep_view() == before.push(last@));
    done
}

} // verus!
verus! {

/// Splitting at `sep` and joining the pieces with `sep` gives back `s`.
pub proof fn lemma_split_join(s: Seq<char>, sep: char)
    ensures
        join_spec(split_spec(s, sep), sep) == s,
    decreases s.len(),
{
    if s.len() > 0 {
        let t = s.drop_last();
        lemma_split_join(t, sep);
        let (d, c) = split_state(t, sep);
        assert(t.push(s.last()) == s);
        if s.last() == sep {
            assert(split_spec(s, sep) == d.push(c).push(Seq::<char>::empty()));
            assert(split_spec(s, sep).drop_last() == d.push(c));
            assert(join_spec(split_spec(s, sep), sep) == t.push(sep) + Seq::<char>::empty());
            assert(t.push(sep) + Seq::<char>::empty() == s);
        } else {
            assert(split_spec(s, sep) == d.push(c.push(s.last())));
            if d.len() == 0 {
                assert(d.push(c)[0] == c);
                assert(d.push(c.push(s.last()))[0] == c.push(s.last()));
            } else {
                assert(d.push(c.push(s.last())).drop_last() == d);
                assert(d.push(c).drop_last() == d);
                assert(join_spec(d, sep).push(sep) + c.push(s.last())
                    == (join_spec(d, sep).push(sep) + c).push(s.last()));
            }
        }
    } else {
        assert(split_spec(s, sep) == seq![Seq::<char>::empty()]);
        assert(s == Seq::<char>::empty());
    }
}

/// No piece of a split contains the separator.
pub proof fn lemma_split_pieces_lack_sep(s: Seq<char>, sep: char)
    ensures
        forall|k: int, j: int|
            0 <= k < split_spec(s, sep).len() && 0 <= j < split_spec(s, sep)[k].len()
                ==> split_spec(s, sep)[k][j] != sep,
    decreases s.len(),
{
    if s.len() > 0 {
        let t = s.drop_last();
        lemma_split_pieces_lack_sep(t, sep);
        let (d, c) = split_state(t, sep);
        assert(forall|k: int| 0 <= k < d.len() ==> d[k] == split_spec(t, sep)[k]);
        assert(c == split_spec(t, sep)[d.len() as int]);
    }
}

/// The ASCII digit for `d`, which is below ten.
pub open spec fn digit_char(d: int) -> char {
    (48 + d) as char
}

/// The decimal digits of `n`, most significant first, without leading zeros.
pub open spec fn decimal_spec(n: nat) -> Seq<char>
    decreases n,
{
    if n < 10 {
        seq![digit_char(n as int)]
    } else {
        decimal_spec(n / 10).push(digit_char((n % 10) as int))
    }
}

/// The decimal text of an integer: its digits, after a `-` when it is
/// negative, as `Display` writes an integer.
pub open spec fn signed_decimal_spec(n: int) -> Seq<char> {
    if n < 0 {
        seq!['-'] + decimal_spec((-n) as nat)
    } else {
        decimal_spec(n as nat)
    }
}

fn push_decimal(s: &mut String, n: u64)
    ensures
        final(s)@ == old(s)@ + decimal_spec(n as nat),
    decreases n,
{
    if n >= 10 {
        push_decimal(s, n / 10);
    }
    let d: u8 = (n % 10) as u8;
    let c: char = (48u8 + d) as char;
    assert(c == digit_char((n % 10) as int));
    push_char(s, c);
}

/// The decimal text of `n`.
pub fn signed_decimal(n: i64) -> (res: String)
    ensures
        res@ == signed_decimal_spec(n as int),
{
    let mut res = String::new();
    if n < 0 {
        push_char(&mut res, '-');
        let m: u64 = if n == i64::MIN {
            9223372036854775808u64
        } else {
            (-n) as u64
        };
        push_decimal(&mut res, m);
    } else {
        push_decimal(&mut res, n as u64);
    }
    res
}

/// The decimal text of `n`.
pub fn decimal(n: u64) -> (res: String)
    ensures
        res@ == decimal_spec(n as nat),
{
    let mut res = String::new();
    push_decimal(&mut res, n);
    assert(res@ =~= decimal_spec(n as nat));
    res
}

/// Whether `s` begins with `prefix`.
pub fn starts_with(s: &str, prefix: &str) -> (res: bool)
    ensures
        res == (prefix@.len() <= s@.len() && s@.take(prefix@.len() as int) == prefix@),
{
    let a = chars_of(s);
    let b = chars_of(prefix);
    if b.len() > a.len() {
        return false;
    }
    let mut i: usize = 0;
    while i < b.len()
        invariant
            i <= b.len() <= a.len(),
            a@ == s@,
            b@ == prefix@,
            a@.take(i as int) == b@.take(i as int),
        decreases b.len() - i,
    {
        if a[i] != b[i] {
            assert(a@.take(b.len() as int)[i as int] != b@[i as int]);
            return false;
        }
        assert(a@.take(i + 1) == a@.take(i as int).push(a@[i as int]));
        assert(b@.take(i + 1) == b@.take(i as int).push(b@[i as int]));
        i += 1;
    }
    assert(b@.take(b.len() as int) == b@);
    true
}

} // verus!
verus! {

/// Whether two strings hold the same characters.
pub fn same_text(a: &str, b: &str) -> (res: bool)
    ensures
        res == (a@ == b@),
{
    let la = chars_of(a).len();
    let lb = chars_of(b).len();
    if la != lb {
        return false;
    }
    let res = starts_with(a, b);
    assert(a@.take(a@.len() as int) =~= a@);
    res
}

/// Whether `list` holds a string equal to `s`.
pub fn contains_text(list: &Vec<String>, s: &str) -> (res: bool)
    ensures
        res == list.deep_view().contains(s@),
{
    let mut i: usize = 0;
    while i < list.len()
        invariant
            i <= list.len(),
            forall|j: int| 0 <= j < i ==> list.deep_view()[j] != s@,
        decreases list.len() - i,
    {
        if same_text(list[i].as_str(), s) {
            assert(list.deep_view()[i as int] == s@);
            return true;
        }
        i += 1;
    }
    assert(!list.deep_view().contains(s@));
    false
}

} // verus!
verus! {

/// Whether `a` comes strictly before `b` in lexicographic order of code
/// points, the order in which `str`'s `Ord` compares strings (UTF-8 byte
/// order and code point order agree).
pub open spec fn lex_lt(a: Seq<char>, b: Seq<char>) -> bool
    decreases a.len(),
{
    if b.len() == 0 {
        false
    } else if a.len() == 0 {
        true
    } else if a[0] != b[0] {
        (a[0] as int) < (b[0] as int)
    } else {
        lex_lt(a.drop_first(), b.drop_first())
    }
}

/// No text comes before itself.
pub proof fn lemma_lex_lt_irreflexive(a: Seq<char>)
    ensures
        !lex_lt(a, a),
    decreases a.len(),
{
    if a.len() > 0 {
        lemma_lex_lt_irreflexive(a.drop_first());
    }
}

/// If `a` comes before `b`, `b` does not come before `a`.
pub proof fn lemma_lex_lt_asymmetric(a: Seq<char>, b: Seq<char>)
    requires
        lex_lt(a, b),
    ensures
        !lex_lt(b, a),
    decreases a.len(),
{
    if a.len() > 0 && b.len() > 0 && a[0] == b[0] {
        lemma_lex_lt_asymmetric(a.drop_first(), b.drop_first());
    }
}

/// The lexicographic order is transitive.
pub proof fn lemma_lex_lt_transitive(a: Seq<char>, b: Seq<char>, c: Seq<char>)
    requires
        lex_lt(a, b),
        lex_lt(b, c),
    ensures
        lex_lt(a, c),
    decreases a.len(),
{
    if a.len() > 0 && a[0] == b[0] && b[0] == c[0] {
        lemma_lex_lt_transitive(a.drop_first(), b.drop_first(), c.drop_first());
    }
}

/// Of two different texts, one comes before the other.
pub proof fn lemma_lex_lt_total(a: Seq<char>, b: Seq<char>)
    requires
        a != b,
    ensures
        lex_lt(a, b) || lex_lt(b, a),
    decreases a.len(),
{
    if a.len() > 0 && b.len() > 0 {
        if a[0] == b[0] {
            if a.drop_first() == b.drop_first() {
                assert(a =~= seq![a[0]] + a.drop_first());
                assert(b =~= seq![b[0]] + b.drop_first());
            }
            lemma_lex_lt_total(a.drop_first(), b.drop_first());
        } else {
            assert((a[0] as int) != (b[0] as int));
        }
    } else if a.len() == 0 && b.len() == 0 {
        assert(a =~= b);
    }
}

/// Whether `a` and `b` agree on their first `k` characters and then `a`
/// has the smaller code point at position `k`, or ends there while `b` goes
/// on.
pub open spec fn differs_first_at(a: Seq<char>, b: Seq<char>, k: int) -> bool {
    &&& 0 <= k <= a.len()
    &&& k <= b.len()
    &&& a.take(k) == b.take(k)
    &&& ((k < a.len() && k < b.len() && (a[k] as int) < (b[k] as int)) || (k == a.len() && k
        < b.len()))
}

proof fn lemma_lex_lt_witness(a: Seq<char>, b: Seq<char>) -> (k: int)
    requires
        lex_lt(a, b),
    ensures
        differs_first_at(a, b, k),
    decreases a.len(),
{
    if a.len() == 0 {
        assert(a.take(0) =~= b.take(0));
        0
    } else if a[0] != b[0] {
        assert(a.take(0) =~= b.take(0));
        0
    } else {
        let j = lemma_lex_lt_witness(a.drop_first(), b.drop_first());
        assert(a.take(j + 1) =~= seq![a[0]] + a.drop_first().take(j));
        assert(b.take(j + 1) =~= seq![b[0]] + b.drop_first().take(j));
        j + 1
    }
}

proof fn lemma_lex_lt_from_witness(a: Seq<char>, b: Seq<char>, k: int)
    requires
        differs_first_at(a, b, k),
    ensures
        lex_lt(a, b),
    decreases a.len(),
{
    if k > 0 {
        assert(a.take(k)[0] == b.take(k)[0]);
        assert(a.drop_first().take(k - 1) =~= a.take(k).drop_first());
        assert(b.drop_first().take(k - 1) =~= b.take(k).drop_first());
        lemma_lex_lt_from_witness(a.drop_first(), b.drop_first(), k - 1);
    }
}

/// `a` comes before `b` exactly when, at the first position where they
/// differ, `a` has the smaller code point, or when `a` is a proper prefix of
/// `b`.
pub proof fn lemma_lex_lt_first_difference(a: Seq<char>, b: Seq<char>)
    ensures
        lex_lt(a, b) <==> exists|k: int| #[trigger] differs_first_at(a, b, k),
{
    if lex_lt(a, b) {
        let k = lemma_lex_lt_witness(a, b);
    }
    if exists|k: int| #[trigger] differs_first_at(a, b, k) {
        let k = choose|k: int| #[trigger] differs_first_at(a, b, k);
        lemma_lex_lt_from_witness(a, b, k);
    }
}

/// Whether `a` comes strictly before `b` in lexicographic order.
pub fn text_lt(a: &Vec<char>, b: &Vec<char>) -> (res: bool)
    ensures
        res == lex_lt(a@, b@),
{
    let mut i: usize = 0;
    assert(a@.skip(0) == a@);
    assert(b@.skip(0) == b@);
    while i < a.len() && i < b.len() && a[i] == b[i]
        invariant
            i <= a.len(),
            i <= b.len(),
            lex_lt(a@, b@) == lex_lt(a@.skip(i as int), b@.skip(i as int)),
        decreases a.len() - i,
    {
        assert(a@.skip(i as int).drop_first() == a@.skip(i + 1));
        assert(b@.skip(i as int).drop_first() == b@.skip(i + 1));
        i += 1;
    }
    if i == b.len() {
        false
    } else if i == a.len() {
        true
    } else {
        a[i] < b[i]
    }
}

} // verus!
verus! {

/// The strings `parts[from..]` joined with `sep` between each two of them.
pub fn join_from(parts: &Vec<String>, from: usize, sep: char) -> (res: String)
    requires
        from <= parts.len(),
    ensures
        res@ == join_spec(parts.deep_view().skip(from as int), sep),
{
    let ghost d = parts.deep_view();
    let mut res = String::new();
    let mut i: usize = from;
    assert(d.subrange(from as int, from as int) =~= Seq::<Seq<char>>::empty());
    while i < parts.len()
        invariant
            from <= i <= parts.len(),
            d == parts.deep_view(),
            res@ == join_spec(d.subrange(from as int, i as int), sep),
        decreases parts.len() - i,
    {
        let ghost before = d.subrange(from as int, i as int);
        let ghost after = d.subrange(from as int, i + 1);
        assert(after.drop_last() == before);
        assert(after.last() == parts[i as int]@);
        if i == from {
            res = owned(parts[i].as_str());
        } else {
            push_char(&mut res, sep);
            res.append(parts[i].as_str());
        }
        i += 1;
    }
    assert(d.subrange(from as int, parts.len() as int) == d.skip(from as int));
    res
}

} // verus!
