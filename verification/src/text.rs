//! Small string helpers shared by the protocol code.
use vstd::prelude::*;

verus! {

/// The texts of a list of strings.
pub open spec fn texts(v: Seq<String>) -> Seq<Seq<char>> {
    v.map_values(|s: String| s@)
}

/// Whether an optional string is present and holds the text `s`.
pub open spec fn is_some_text(o: Option<String>, s: Seq<char>) -> bool {
    match o {
        Some(x) => x@ == s,
        None => false,
    }
}

/// Whether two strings hold the same text.
pub fn same_text(a: &str, b: &str) -> (r: bool)
    ensures
        r == (a@ == b@),
{
    a.to_string() == b.to_string()
}

/// Concatenates two strings.
pub fn join2(a: &str, b: &str) -> (s: String)
    ensures
        s@ == a@ + b@,
{
    let mut s = a.to_string();
    s.append(b);
    s
}

/// Concatenates three strings.
pub fn join3(a: &str, b: &str, c: &str) -> (s: String)
    ensures
        s@ == a@ + b@ + c@,
{
    let mut s = a.to_string();
    s.append(b);
    s.append(c);
    s
}

/// Concatenates four strings.
pub fn join4(a: &str, b: &str, c: &str, d: &str) -> (s: String)
    ensures
        s@ == a@ + b@ + c@ + d@,
{
    let mut s = a.to_string();
    s.append(b);
    s.append(c);
    s.append(d);
    s
}

/// Whether `c` has the Unicode White_Space property, as `char::is_whitespace`
/// defines it.
pub open spec fn is_ws(c: char) -> bool {
    let v = c as u32;
    (0x9 <= v && v <= 0xd) || v == 0x20 || v == 0x85 || v == 0xa0 || v == 0x1680 || (0x2000 <= v
        && v <= 0x200a) || v == 0x2028 || v == 0x2029 || v == 0x202f || v == 0x205f || v == 0x3000
}

/// Whether `c` is a whitespace character.
pub fn is_whitespace_char(c: char) -> (r: bool)
    ensures
        r == is_ws(c),
{
    let v = c as u32;
    (0x9 <= v && v <= 0xd) || v == 0x20 || v == 0x85 || v == 0xa0 || v == 0x1680 || (0x2000 <= v
        && v <= 0x200a) || v == 0x2028 || v == 0x2029 || v == 0x202f || v == 0x205f || v == 0x3000
}

/// The maximal runs of non-whitespace characters of `s`, in order, as
/// `str::split_whitespace` yields them.
pub open spec fn words(s: Seq<char>) -> Seq<Seq<char>>
    decreases s.len(),
{
    if s.len() == 0 {
        Seq::empty()
    } else {
        let w = words(s.drop_last());
        let c = s.last();
        if is_ws(c) {
            w
        } else if s.len() >= 2 && !is_ws(s[s.len() - 2]) {
            w.update(w.len() - 1, w.last().push(c))
        } else {
            w.push(seq![c])
        }
    }
}

/// The words of `s` end with the run that reaches its end, if any.
proof fn lemma_words_open(s: Seq<char>, start: int)
    requires
        0 <= start < s.len(),
        start == 0 || is_ws(s[start - 1]),
        forall|j: int| start <= j < s.len() ==> !is_ws(#[trigger] s[j]),
    ensures
        words(s).len() == words(s.take(start)).len() + 1,
        words(s).take(words(s).len() - 1) == words(s.take(start)),
        words(s).last() == s.subrange(start, s.len() as int),
    decreases s.len(),
{
    if s.len() - 1 == start {
        assert(s.drop_last() =~= s.take(start));
        assert(s.subrange(start, s.len() as int) =~= seq![s.last()]);
        let w = words(s.drop_last());
        assert(w.push(seq![s.last()]).take(w.len() as int) =~= w);
    } else {
        lemma_words_open(s.drop_last(), start);
        assert(s.drop_last().take(start) =~= s.take(start));
        let w = words(s.drop_last());
        assert(s.subrange(start, s.len() as int) =~= s.drop_last().subrange(start, s.len() - 1).push(
            s.last(),
        ));
        let w2 = w.update(w.len() - 1, w.last().push(s.last()));
        assert(w2.take(w2.len() - 1) =~= w.take(w.len() - 1));
    }
}

/// Splits `s` on whitespace, as `str::split_whitespace` does.
pub fn split_whitespace(s: &str) -> (r: Vec<String>)
    ensures
        texts(r@) == words(s@),
{
    let n = s.unicode_len();
    let mut out: Vec<String> = Vec::new();
    let mut i: usize = 0;
    let mut start: usize = 0;
    let mut open = false;
    while i < n
        invariant
            n == s@.len(),
            i <= n,
            start <= i,
            open ==> start < i && (start == 0 || is_ws(s@[start - 1])) && forall|j: int|
                start <= j < i ==> !is_ws(#[trigger] s@[j]),
            open ==> texts(out@) == words(s@.take(start as int)),
            !open ==> texts(out@) == words(s@.take(i as int)),
            !open ==> (i == 0 || is_ws(s@[i - 1])),
        decreases n - i,
    {
        let c = s.get_char(i);
        proof {
            assert(s@.take(i + 1).drop_last() =~= s@.take(i as int));
        }
        if is_whitespace_char(c) {
            if open {
                let w = s.substring_char(start, i).to_string();
                proof {
                    lemma_words_open(s@.take(i as int), start as int);
                    assert(s@.take(i as int).take(start as int) =~= s@.take(start as int));
                    assert(s@.take(i as int).subrange(start as int, i as int) =~= s@.subrange(
                        start as int,
                        i as int,
                    ));
                    let ws = words(s@.take(i as int));
                    assert(ws =~= ws.take(ws.len() - 1).push(ws.last()));
                }
                out.push(w);
                proof {
                    assert(texts(out@) =~= words(s@.take(i as int)));
                }
                open = false;
            }
        } else {
            if !open {
                open = true;
                start = i;
            }
        }
        i = i + 1;
    }
    if open {
        let w = s.substring_char(start, n).to_string();
        proof {
            assert(s@.take(n as int) =~= s@);
            lemma_words_open(s@, start as int);
            let ws = words(s@);
            assert(ws =~= ws.take(ws.len() - 1).push(ws.last()));
        }
        out.push(w);
        proof {
            assert(texts(out@) =~= words(s@));
        }
    } else {
        proof {
            assert(s@.take(n as int) =~= s@);
        }
    }
    out
}

/// Whether `s` begins with `prefix`.
pub fn starts_with(s: &str, prefix: &str) -> (r: bool)
    ensures
        r == (prefix@.len() <= s@.len() && s@.subrange(0, prefix@.len() as int) == prefix@),
{
    let n = s.unicode_len();
    let m = prefix.unicode_len();
    if m > n {
        return false;
    }
    same_text(s.substring_char(0, m), prefix)
}

/// Whether `s` ends with `suffix`.
pub fn ends_with(s: &str, suffix: &str) -> (r: bool)
    ensures
        r == (suffix@.len() <= s@.len() && s@.subrange(s@.len() - suffix@.len(), s@.len() as int)
            == suffix@),
{
    let n = s.unicode_len();
    let m = suffix.unicode_len();
    if m > n {
        return false;
    }
    same_text(s.substring_char(n - m, n), suffix)
}

/// Whether `needle` occurs in `s` starting at position `i`.
pub open spec fn occurs_at(s: Seq<char>, needle: Seq<char>, i: int) -> bool {
    0 <= i && i + needle.len() <= s.len() && s.subrange(i, i + needle.len()) == needle
}

/// Whether `needle` occurs somewhere in `s`.
pub fn contains_text(s: &str, needle: &str) -> (r: bool)
    ensures
        r == exists|i: int| occurs_at(s@, needle@, i),
{
    let n = s.unicode_len();
    let m = needle.unicode_len();
    if m > n {
        proof {
            assert forall|i: int| !occurs_at(s@, needle@, i) by {}
        }
        return false;
    }
    let last = n - m;
    let mut i: usize = 0;
    loop
        invariant
            n == s@.len(),
            m == needle@.len(),
            m <= n,
            last == n - m,
            i <= last,
            forall|j: int| 0 <= j < i ==> !occurs_at(s@, needle@, j),
        decreases last - i,
    {
        if same_text(s.substring_char(i, i + m), needle) {
            assert(occurs_at(s@, needle@, i as int));
            return true;
        }
        if i == last {
            proof {
                assert forall|j: int| !occurs_at(s@, needle@, j) by {
                    if 0 <= j && j + m <= n {
                        assert(j <= i);
                    }
                }
            }
            return false;
        }
        i = i + 1;
    }
}



/// The character of a decimal digit.
pub open spec fn digit_char(d: int) -> char {
    if d == 0 {
        '0'
    } else if d == 1 {
        '1'
    } else if d == 2 {
        '2'
    } else if d == 3 {
        '3'
    } else if d == 4 {
        '4'
    } else if d == 5 {
        '5'
    } else if d == 6 {
        '6'
    } else if d == 7 {
        '7'
    } else if d == 8 {
        '8'
    } else {
        '9'
    }
}

/// The decimal digits of `n`, most significant first, without leading zeros.
pub open spec fn decimal_text(n: nat) -> Seq<char>
    decreases n,
{
    if n < 10 {
        seq![digit_char(n as int)]
    } else {
        decimal_text(n / 10) + seq![digit_char((n % 10) as int)]
    }
}

/// The text of one decimal digit.
fn digit_str(d: u64) -> (s: &'static str)
    requires
        d < 10,
    ensures
        s@ == seq![digit_char(d as int)],
{
    proof {
        reveal_strlit("0");
        reveal_strlit("1");
        reveal_strlit("2");
        reveal_strlit("3");
        reveal_strlit("4");
        reveal_strlit("5");
        reveal_strlit("6");
        reveal_strlit("7");
        reveal_strlit("8");
        reveal_strlit("9");
    }
    if d == 0 {
        "0"
    } else if d == 1 {
        "1"
    } else if d == 2 {
        "2"
    } else if d == 3 {
        "3"
    } else if d == 4 {
        "4"
    } else if d == 5 {
        "5"
    } else if d == 6 {
        "6"
    } else if d == 7 {
        "7"
    } else if d == 8 {
        "8"
    } else {
        "9"
    }
}

/// `n` written in decimal.
pub fn decimal(n: u64) -> (s: String)
    ensures
        s@ == decimal_text(n as nat),
    decreases n,
{
    if n < 10 {
        digit_str(n).to_string()
    } else {
        let mut s = decimal(n / 10);
        s.append(digit_str(n % 10));
        s
    }
}

/// Whether every character of `s` is whitespace (so that trimming leaves nothing).
pub open spec fn is_blank_text(s: Seq<char>) -> bool {
    forall|i: int| 0 <= i < s.len() ==> is_ws(#[trigger] s[i])
}

/// Whether `s` holds nothing but whitespace.
pub fn is_blank(s: &str) -> (r: bool)
    ensures
        r == is_blank_text(s@),
{
    let n = s.unicode_len();
    let mut i: usize = 0;
    while i < n
        invariant
            n == s@.len(),
            i <= n,
            forall|j: int| 0 <= j < i ==> is_ws(#[trigger] s@[j]),
        decreases n - i,
    {
        if !is_whitespace_char(s.get_char(i)) {
            return false;
        }
        i = i + 1;
    }
    true
}

/// Whether position `i` of `s` holds its first line feed.
pub open spec fn is_first_line_feed(s: Seq<char>, i: int) -> bool {
    0 <= i < s.len() && s[i] == '\n' && forall|j: int| 0 <= j < i ==> s[j] != '\n'
}

/// A line without the carriage return that ended it.
pub open spec fn without_carriage_return(line: Seq<char>) -> Seq<char> {
    if line.len() > 0 && line.last() == '\r' {
        line.drop_last()
    } else {
        line
    }
}

/// The first line of `s` as `str::lines` yields it: the text before the first
/// line feed, less a carriage return just before that line feed; all of `s`
/// when it has no line feed; nothing when `s` is empty.
pub open spec fn first_line_of(s: Seq<char>) -> Option<Seq<char>> {
    if s.len() == 0 {
        None
    } else if exists|i: int| is_first_line_feed(s, i) {
        Some(without_carriage_return(s.take(choose|i: int| is_first_line_feed(s, i))))
    } else {
        Some(s)
    }
}

/// There is one first line feed.
proof fn lemma_first_line_feed_unique(s: Seq<char>, i: int)
    requires
        is_first_line_feed(s, i),
    ensures
        (choose|k: int| is_first_line_feed(s, k)) == i,
{
    let k = choose|k: int| is_first_line_feed(s, k);
    assert(is_first_line_feed(s, k));
    if k < i {
        assert(s[k] != '\n');
    } else if k > i {
        assert(s[i] != '\n');
    }
}

/// The first line of `s`, as `str::lines` yields it.
pub fn first_line(s: &str) -> (r: Option<String>)
    ensures
        match first_line_of(s@) {
            Some(l) => r matches Some(t) && t@ == l,
            None => r is None,
        },
{
    let n = s.unicode_len();
    if n == 0 {
        return None;
    }
    let mut i: usize = 0;
    while i < n
        invariant
            n == s@.len(),
            i <= n,
            forall|j: int| 0 <= j < i ==> s@[j] != '\n',
        decreases n - i,
    {
        if s.get_char(i) == '\n' {
            proof {
                assert(is_first_line_feed(s@, i as int));
                lemma_first_line_feed_unique(s@, i as int);
                assert(first_line_of(s@) == Some(without_carriage_return(s@.take(i as int))));
            }
            if i > 0 && s.get_char(i - 1) == '\r' {
                let line = s.substring_char(0, i - 1).to_string();
                proof {
                    assert(s@.take(i as int).last() == s@[i - 1]);
                    assert(line@ =~= s@.take(i as int).drop_last());
                }
                return Some(line);
            } else {
                let line = s.substring_char(0, i).to_string();
                proof {
                    if i > 0 {
                        assert(s@.take(i as int).last() == s@[i - 1]);
                    }
                    assert(line@ =~= s@.take(i as int));
                }
                return Some(line);
            }
        }
        i = i + 1;
    }
    proof {
        assert forall|k: int| !is_first_line_feed(s@, k) by {
            if 0 <= k < n {
                assert(s@[k] != '\n');
            }
        }
    }
    Some(s.to_string())
}

/// `s` without its leading whitespace.
pub open spec fn trim_start_of(s: Seq<char>) -> Seq<char>
    decreases s.len(),
{
    if s.len() > 0 && is_ws(s[0]) {
        trim_start_of(s.drop_first())
    } else {
        s
    }
}

/// `s` without its trailing whitespace.
pub open spec fn trim_end_of(s: Seq<char>) -> Seq<char>
    decreases s.len(),
{
    if s.len() > 0 && is_ws(s.last()) {
        trim_end_of(s.drop_last())
    } else {
        s
    }
}

/// `s` without leading and trailing whitespace, as `str::trim` leaves it.
pub open spec fn trimmed(s: Seq<char>) -> Seq<char> {
    trim_end_of(trim_start_of(s))
}

/// `s` without leading and trailing whitespace.
pub fn trim(s: &str) -> (r: String)
    ensures
        r@ == trimmed(s@),
{
    let n = s.unicode_len();
    let mut i: usize = 0;
    proof {
        assert(s@.subrange(0, n as int) =~= s@);
    }
    while i < n && is_whitespace_char(s.get_char(i))
        invariant
            n == s@.len(),
            i <= n,
            trim_start_of(s@) == trim_start_of(s@.subrange(i as int, n as int)),
        decreases n - i,
    {
        proof {
            let t = s@.subrange(i as int, n as int);
            assert(t.drop_first() =~= s@.subrange(i + 1, n as int));
        }
        i = i + 1;
    }
    let mut j: usize = n;
    proof {
        assert(trim_start_of(s@.subrange(i as int, n as int)) == s@.subrange(i as int, n as int));
    }
    while j > i && is_whitespace_char(s.get_char(j - 1))
        invariant
            n == s@.len(),
            i <= j <= n,
            trim_end_of(s@.subrange(i as int, n as int)) == trim_end_of(
                s@.subrange(i as int, j as int),
            ),
        decreases j,
    {
        proof {
            let t = s@.subrange(i as int, j as int);
            assert(t.drop_last() =~= s@.subrange(i as int, j - 1));
        }
        j = j - 1;
    }
    proof {
        assert(trim_end_of(s@.subrange(i as int, j as int)) == s@.subrange(i as int, j as int));
    }
    s.substring_char(i, j).to_string()
}

/// The texts of `parts` joined, with `sep` between each two.
pub open spec fn joined(parts: Seq<Seq<char>>, sep: Seq<char>) -> Seq<char>
    decreases parts.len(),
{
    if parts.len() == 0 {
        Seq::empty()
    } else if parts.len() == 1 {
        parts[0]
    } else {
        joined(parts.drop_last(), sep) + sep + parts.last()
    }
}

/// Joins `parts` with `sep` between each two, as `[String]::join` does.
pub fn join_with(parts: &Vec<String>, sep: &str) -> (r: String)
    ensures
        r@ == joined(texts(parts@), sep@),
{
    let ghost ps = texts(parts@);
    let mut out = String::new();
    let mut i: usize = 0;
    while i < parts.len()
        invariant
            i <= parts@.len(),
            ps == texts(parts@),
            out@ == joined(ps.take(i as int), sep@),
        decreases parts@.len() - i,
    {
        if i > 0 {
            out.append(sep);
        }
        out.append(parts[i].as_str());
        proof {
            let t = ps.take(i + 1);
            assert(t.drop_last() =~= ps.take(i as int));
            assert(t.last() == parts@[i as int]@);
            if i == 0 {
                assert(t.len() == 1);
            }
        }
        i = i + 1;
    }
    proof {
        assert(ps.take(parts@.len() as int) =~= ps);
    }
    out
}

/// Whether `w` is a non-empty text without whitespace.
pub open spec fn is_word(w: Seq<char>) -> bool {
    w.len() > 0 && forall|i: int| 0 <= i < w.len() ==> !is_ws(#[trigger] w[i])
}

/// A word on its own splits into itself, and after a space it adds itself to
/// the words before the space.
proof fn lemma_words_after_space(s: Seq<char>, w: Seq<char>)
    requires
        is_word(w),
    ensures
        words(s + seq![' '] + w) == words(s).push(w),
        words(w) == seq![w],
    decreases w.len(),
{
    let t = s + seq![' '];
    let u = t + w;
    assert(t.drop_last() =~= s);
    assert(t.last() == ' ');
    assert(is_ws(' '));
    assert(words(t) == words(s));
    assert(u.last() == w.last());
    if w.len() == 1 {
        assert(u.drop_last() =~= t);
        assert(u[u.len() - 2] == ' ');
        assert(words(u) == words(t).push(seq![w.last()]));
        assert(w =~= seq![w.last()]);
        assert(w.drop_last() =~= Seq::<char>::empty());
        assert(words(Seq::<char>::empty()) == Seq::<Seq<char>>::empty());
        assert(words(w) == words(w.drop_last()).push(seq![w.last()]));
        assert(Seq::<Seq<char>>::empty().push(w) =~= seq![w]);
    } else {
        let v = w.drop_last();
        assert forall|i: int| 0 <= i < v.len() implies !is_ws(#[trigger] v[i]) by {
            assert(v[i] == w[i]);
        }
        lemma_words_after_space(s, v);
        assert(u.drop_last() =~= t + v);
        assert(u[u.len() - 2] == w[w.len() - 2]);
        assert(!is_ws(w[w.len() - 2]));
        assert(!is_ws(w.last()));
        let wu = words(t + v);
        assert(words(u) == wu.update(wu.len() - 1, wu.last().push(w.last())));
        assert(v.push(w.last()) =~= w);
        assert(words(s).push(v).update(words(s).len() as int, w) =~= words(s).push(w));
        assert(words(w) == words(v).update(words(v).len() - 1, words(v).last().push(w.last())));
        assert(seq![v].update(0, w) =~= seq![w]);
    }
}

/// Law: joining words with single spaces and splitting on whitespace gives
/// the words back.
pub proof fn law_split_undoes_join(parts: Seq<Seq<char>>)
    requires
        forall|i: int| 0 <= i < parts.len() ==> is_word(#[trigger] parts[i]),
    ensures
        words(joined(parts, seq![' '])) == parts,
    decreases parts.len(),
{
    if parts.len() == 0 {
        assert(words(Seq::<char>::empty()) =~= Seq::<Seq<char>>::empty());
    } else if parts.len() == 1 {
        assert(is_word(parts[0]));
        lemma_words_after_space(Seq::empty(), parts[0]);
        assert(parts =~= seq![parts[0]]);
    } else {
        let init = parts.drop_last();
        assert forall|i: int| 0 <= i < init.len() implies is_word(#[trigger] init[i]) by {
            assert(init[i] == parts[i]);
        }
        law_split_undoes_join(init);
        assert(is_word(parts[parts.len() - 1]));
        lemma_words_after_space(joined(init, seq![' ']), parts.last());
        assert(init.push(parts.last()) =~= parts);
    }
}

} // verus!
