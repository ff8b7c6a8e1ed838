//! Verified character-level text utilities: substring search, placeholder
//! replacement, splitting on a separator, trimming, padding, and decimal
//! rendering. All contracts are stated over `Seq<char>` views.

use vstd::prelude::*;

verus! {

/// The whitespace characters that `trim_spaces` removes.
pub open spec fn is_space_char(c: char) -> bool {
    c == ' ' || c == '\t' || c == '\n' || c == '\r'
}

/// `pat` occurs in `s` starting at index `i`.
pub open spec fn occurs_at(s: Seq<char>, pat: Seq<char>, i: int) -> bool {
    0 <= i && i + pat.len() <= s.len() && s.subrange(i, i + pat.len() as int) == pat
}

/// `pat` occurs somewhere in `s`.
pub open spec fn has_sub(s: Seq<char>, pat: Seq<char>) -> bool {
    exists|i: int| occurs_at(s, pat, i)
}

/// The result of replacing every leftmost non-overlapping occurrence of `pat`
/// in `s` by `rep`; `s` itself when `pat` is empty.
pub open spec fn replaced(s: Seq<char>, pat: Seq<char>, rep: Seq<char>) -> Seq<char>
    decreases s.len(),
{
    if pat.len() == 0 || s.len() < pat.len() {
        s
    } else if s.subrange(0, pat.len() as int) == pat {
        rep + replaced(s.skip(pat.len() as int), pat, rep)
    } else {
        seq![s[0]] + replaced(s.skip(1), pat, rep)
    }
}

proof fn lemma_skip_skip(s: Seq<char>, i: int, j: int)
    requires
        0 <= i,
        0 <= j,
        i + j <= s.len(),
    ensures
        s.skip(i).skip(j) == s.skip(i + j),
{
    assert(s.skip(i).skip(j) =~= s.skip(i + j));
}

proof fn lemma_skip_subrange(s: Seq<char>, i: int, m: int)
    requires
        0 <= i,
        0 <= m,
        i + m <= s.len(),
    ensures
        s.skip(i).subrange(0, m) == s.subrange(i, i + m),
{
    assert(s.skip(i).subrange(0, m) =~= s.subrange(i, i + m));
}

/// Whether `pat` occurs in `s` at position `i`, decided character by character.
pub fn str_occurs_at(s: &str, i: usize, pat: &str) -> (r: bool)
    requires
        i + pat@.len() <= s@.len(),
    ensures
        r == occurs_at(s@, pat@, i as int),
{
    let n = s.unicode_len();
    let m = pat.unicode_len();
    let mut j: usize = 0;
    while j < m
        invariant
            j <= m,
            m == pat@.len(),
            n == s@.len(),
            i + m <= s@.len(),
            forall|k: int| 0 <= k < j ==> s@[i + k] == pat@[k],
        decreases m - j,
    {
        if s.get_char(i + j) != pat.get_char(j) {
            assert(s@.subrange(i as int, i + m) != pat@) by {
                assert(s@.subrange(i as int, i + m)[j as int] == s@[i + j]);
            }
            return false;
        }
        j += 1;
    }
    assert(s@.subrange(i as int, i + m) =~= pat@);
    true
}

/// The position of the first occurrence of `pat` in `s` at or after `from`,
/// if there is one.
pub fn find_sub_from(s: &str, pat: &str, from: usize) -> (r: Option<usize>)
    requires
        pat@.len() >= 1,
    ensures
        match r {
            Some(i) => from <= i && occurs_at(s@, pat@, i as int) && forall|j: int|
                from <= j < i ==> !occurs_at(s@, pat@, j),
            None => forall|j: int| from <= j ==> !occurs_at(s@, pat@, j),
        },
{
    let n = s.unicode_len();
    let m = pat.unicode_len();
    if from > n || m > n - from {
        return None;
    }
    let mut i: usize = from;
    while i <= n - m
        invariant
            from <= i,
            m == pat@.len(),
            n == s@.len(),
            1 <= m <= n,
            i <= n,
            forall|j: int| from <= j < i ==> !occurs_at(s@, pat@, j),
        decreases n - i,
    {
        if str_occurs_at(s, i, pat) {
            return Some(i);
        }
        i += 1;
    }
    None
}

/// Whether `pat` occurs anywhere in `s`.
pub fn contains_sub(s: &str, pat: &str) -> (r: bool)
    ensures
        r == has_sub(s@, pat@),
{
    if pat.unicode_len() == 0 {
        assert(occurs_at(s@, pat@, 0)) by {
            assert(s@.subrange(0, 0) =~= pat@);
        }
        return true;
    }
    match find_sub_from(s, pat, 0) {
        Some(i) => {
            assert(occurs_at(s@, pat@, i as int));
            true
        },
        None => {
            assert(forall|j: int| !occurs_at(s@, pat@, j));
            false
        },
    }
}

/// Replaces every leftmost non-overlapping occurrence of `pat` in `s` by
/// `rep`, as `replaced` describes.
pub fn replace_sub(s: &str, pat: &str, rep: &str) -> (r: String)
    ensures
        r@ == replaced(s@, pat@, rep@),
{
    let n = s.unicode_len();
    let m = pat.unicode_len();
    if m == 0 {
        return s.to_owned();
    }
    let mut out = String::new();
    let mut i: usize = 0;
    proof {
        assert(s@.skip(0) =~= s@);
        assert(out@ + replaced(s@, pat@, rep@) =~= replaced(s@, pat@, rep@));
    }
    while i < n
        invariant
            i <= n,
            n == s@.len(),
            m == pat@.len(),
            m >= 1,
            replaced(s@, pat@, rep@) == out@ + replaced(s@.skip(i as int), pat@, rep@),
        decreases n - i,
    {
        let ghost pre = out@;
        if m <= n - i && str_occurs_at(s, i, pat) {
            proof {
                lemma_skip_subrange(s@, i as int, m as int);
                lemma_skip_skip(s@, i as int, m as int);
                assert(replaced(s@.skip(i as int), pat@, rep@) == rep@ + replaced(
                    s@.skip(i + m),
                    pat@,
                    rep@,
                ));
            }
            out.append(rep);
            proof {
                assert(out@ + replaced(s@.skip(i + m), pat@, rep@) =~= pre + (rep@ + replaced(
                    s@.skip(i + m),
                    pat@,
                    rep@,
                )));
            }
            i += m;
        } else {
            proof {
                lemma_skip_skip(s@, i as int, 1);
                if m <= n - i {
                    lemma_skip_subrange(s@, i as int, m as int);
                    assert(s@.skip(i as int).subrange(0, m as int) != pat@);
                    assert(seq![s@.skip(i as int)[0]] =~= seq![s@[i as int]]);
                } else {
                    assert(replaced(s@.skip(i as int), pat@, rep@) == s@.skip(i as int));
                    assert(replaced(s@.skip(i + 1), pat@, rep@) == s@.skip(i + 1));
                    assert(s@.skip(i as int) =~= seq![s@[i as int]] + s@.skip(i + 1));
                }
                assert(replaced(s@.skip(i as int), pat@, rep@) == seq![s@[i as int]] + replaced(
                    s@.skip(i + 1),
                    pat@,
                    rep@,
                ));
            }
            let c = s.substring_char(i, i + 1);
            out.append(c);
            proof {
                assert(c@ =~= seq![s@[i as int]]);
                assert(out@ + replaced(s@.skip(i + 1), pat@, rep@) =~= pre + (seq![s@[i as int]]
                    + replaced(s@.skip(i + 1), pat@, rep@)));
            }
            i += 1;
        }
    }
    proof {
        assert(s@.skip(n as int) =~= Seq::<char>::empty());
        assert(out@ + replaced(s@.skip(n as int), pat@, rep@) =~= out@);
    }
    out
}

/// `c` stands at position `i` of `s`, and nowhere earlier.
pub open spec fn first_char_at(s: Seq<char>, c: char, i: int) -> bool {
    0 <= i < s.len() && s[i] == c && (forall|j: int| 0 <= j < i ==> s[j] != c)
}

/// `c` occurs somewhere in `s`.
pub open spec fn has_char(s: Seq<char>, c: char) -> bool {
    exists|i: int| 0 <= i < s.len() && s[i] == c
}

/// The segments of `s` between occurrences of the separator `c`, in order;
/// a single segment equal to `s` when `c` does not occur.
pub open spec fn split_on(s: Seq<char>, c: char) -> Seq<Seq<char>>
    decreases s.len(),
{
    if exists|i: int| first_char_at(s, c, i) {
        let i = choose|i: int| first_char_at(s, c, i);
        if 0 <= i < s.len() {
            seq![s.take(i)] + split_on(s.skip(i + 1), c)
        } else {
            seq![s]
        }
    } else {
        seq![s]
    }
}

/// The first occurrence of a character is the one that `choose` picks.
pub proof fn lemma_first_char_at_unique(s: Seq<char>, c: char, i: int)
    requires
        first_char_at(s, c, i),
    ensures
        exists|j: int| first_char_at(s, c, j),
        (choose|j: int| first_char_at(s, c, j)) == i,
{
    let j = choose|j: int| first_char_at(s, c, j);
    if j < i {
        assert(s[j] != c);
    }
    if i < j {
        assert(s[i] != c);
    }
}

proof fn lemma_split_on_step(s: Seq<char>, c: char, i: int)
    requires
        first_char_at(s, c, i),
    ensures
        split_on(s, c) == seq![s.take(i)] + split_on(s.skip(i + 1), c),
{
    let i0 = choose|i0: int| first_char_at(s, c, i0);
    assert(i0 == i) by {
        if i0 < i {
            assert(s[i0] != c);
        }
        if i < i0 {
            assert(s[i] != c);
        }
    }
}

proof fn lemma_split_on_whole(s: Seq<char>, c: char)
    requires
        !has_char(s, c),
    ensures
        split_on(s, c) == seq![s],
{
    assert forall|i: int| !first_char_at(s, c, i) by {
        if 0 <= i < s.len() {
            assert(!(s[i] == c));
        }
    }
}

/// The position of the first occurrence of `c` in `s` at or after `from`, if
/// there is one.
pub fn find_char_from(s: &str, c: char, from: usize) -> (r: Option<usize>)
    ensures
        match r {
            Some(i) => from <= i < s@.len() && s@[i as int] == c && forall|j: int|
                from <= j < i ==> s@[j] != c,
            None => forall|j: int| from <= j < s@.len() ==> s@[j] != c,
        },
{
    let n = s.unicode_len();
    let mut i: usize = from;
    while i < n
        invariant
            from <= i,
            n == s@.len(),
            forall|j: int| from <= j < i ==> s@[j] != c,
        decreases n - i,
    {
        if s.get_char(i) == c {
            return Some(i);
        }
        i += 1;
    }
    None
}

/// Splits `s` at every occurrence of `c`, as `split_on` describes.
pub fn split_char(s: &str, c: char) -> (r: Vec<String>)
    ensures
        r.deep_view() == split_on(s@, c),
{
    let n = s.unicode_len();
    let mut parts: Vec<String> = Vec::new();
    let mut start: usize = 0;
    proof {
        assert(s@.skip(0) =~= s@);
        assert(parts.deep_view() + split_on(s@, c) =~= split_on(s@, c));
    }
    loop
        invariant
            start <= n,
            n == s@.len(),
            split_on(s@, c) == parts.deep_view() + split_on(s@.skip(start as int), c),
        decreases n - start,
    {
        let ghost pre = parts.deep_view();
        match find_char_from(s, c, start) {
            Some(i) => {
                proof {
                    assert(first_char_at(s@.skip(start as int), c, i - start)) by {
                        assert(s@.skip(start as int)[i - start] == s@[i as int]);
                        assert forall|j: int| 0 <= j < i - start implies s@.skip(
                            start as int,
                        )[j] != c by {
                            assert(s@.skip(start as int)[j] == s@[start + j]);
                        }
                    }
                    lemma_split_on_step(s@.skip(start as int), c, i - start);
                    assert(s@.skip(start as int).take(i - start) =~= s@.subrange(
                        start as int,
                        i as int,
                    ));
                    lemma_skip_skip(s@, start as int, i + 1 - start);
                }
                let seg = s.substring_char(start, i);
                parts.push(seg.to_owned());
                proof {
                    assert(parts.deep_view() =~= pre + seq![s@.subrange(start as int, i as int)]);
                    assert(pre + (seq![s@.subrange(start as int, i as int)] + split_on(
                        s@.skip(i + 1),
                        c,
                    )) =~= parts.deep_view() + split_on(s@.skip(i + 1), c));
                }
                start = i + 1;
            },
            None => {
                proof {
                    lemma_split_on_whole(s@.skip(start as int), c);
                    assert(s@.skip(start as int) =~= s@.subrange(start as int, n as int));
                }
                let seg = s.substring_char(start, n);
                parts.push(seg.to_owned());
                proof {
                    assert(parts.deep_view() =~= pre + seq![s@.subrange(start as int, n as int)]);
                    assert(pre + seq![s@.skip(start as int)] =~= parts.deep_view());
                }
                return parts;
            },
        }
    }
}

/// `s` without leading whitespace.
pub open spec fn trimmed_start(s: Seq<char>) -> Seq<char>
    decreases s.len(),
{
    if s.len() > 0 && is_space_char(s[0]) {
        trimmed_start(s.skip(1))
    } else {
        s
    }
}

/// `s` without trailing whitespace.
pub open spec fn trimmed_end(s: Seq<char>) -> Seq<char>
    decreases s.len(),
{
    if s.len() > 0 && is_space_char(s[s.len() - 1]) {
        trimmed_end(s.take(s.len() - 1))
    } else {
        s
    }
}

/// `s` without leading and trailing whitespace.
pub open spec fn trimmed(s: Seq<char>) -> Seq<char> {
    trimmed_end(trimmed_start(s))
}

proof fn lemma_trimmed_start_skip(s: Seq<char>, i: int)
    requires
        0 <= i <= s.len(),
        forall|j: int| 0 <= j < i ==> is_space_char(s[j]),
        i < s.len() ==> !is_space_char(s[i]),
    ensures
        trimmed_start(s) == s.skip(i),
    decreases i,
{
    if i == 0 {
        assert(s.skip(0) =~= s);
    } else {
        assert(is_space_char(s[0]));
        lemma_skip_skip(s, 1, i - 1);
        assert forall|j: int| 0 <= j < i - 1 implies is_space_char(s.skip(1)[j]) by {
            assert(s.skip(1)[j] == s[j + 1]);
        }
        assert(i - 1 < s.skip(1).len() ==> !is_space_char(s.skip(1)[i - 1]));
        lemma_trimmed_start_skip(s.skip(1), i - 1);
    }
}

proof fn lemma_trimmed_end_take(s: Seq<char>, i: int)
    requires
        0 <= i <= s.len(),
        forall|j: int| i <= j < s.len() ==> is_space_char(s[j]),
        i > 0 ==> !is_space_char(s[i - 1]),
    ensures
        trimmed_end(s) == s.take(i),
    decreases s.len() - i,
{
    if i == s.len() {
        assert(s.take(i) =~= s);
    } else {
        assert(is_space_char(s[s.len() - 1]));
        assert(s.take(s.len() - 1).take(i) =~= s.take(i));
        lemma_trimmed_end_take(s.take(s.len() - 1), i);
    }
}

/// Whether `c` counts as whitespace for `trim_spaces`.
pub fn is_space(c: char) -> (r: bool)
    ensures
        r == is_space_char(c),
{
    c == ' ' || c == '\t' || c == '\n' || c == '\r'
}

/// `s` without leading and trailing whitespace, as `trimmed` describes.
pub fn trim_spaces(s: &str) -> (r: String)
    ensures
        r@ == trimmed(s@),
{
    let n = s.unicode_len();
    let mut lo: usize = 0;
    while lo < n && is_space(s.get_char(lo))
        invariant
            lo <= n,
            n == s@.len(),
            forall|j: int| 0 <= j < lo ==> is_space_char(s@[j]),
        decreases n - lo,
    {
        lo += 1;
    }
    proof {
        lemma_trimmed_start_skip(s@, lo as int);
    }
    let mut hi: usize = n;
    while hi > lo && is_space(s.get_char(hi - 1))
        invariant
            lo <= hi <= n,
            n == s@.len(),
            forall|j: int| hi <= j < n ==> is_space_char(s@[j]),
        decreases hi,
    {
        hi -= 1;
    }
    proof {
        assert forall|j: int| hi - lo <= j < s@.skip(lo as int).len() implies is_space_char(
            s@.skip(lo as int)[j],
        ) by {
            assert(s@.skip(lo as int)[j] == s@[lo + j]);
        }
        if hi > lo {
            assert(s@.skip(lo as int)[hi - lo - 1] == s@[hi - 1]);
        }
        lemma_trimmed_end_take(s@.skip(lo as int), hi - lo);
        assert(s@.skip(lo as int).take(hi - lo) =~= s@.subrange(lo as int, hi as int));
    }
    let r = s.substring_char(lo, hi);
    r.to_owned()
}

/// `s` padded on the right with spaces to at least `width` characters.
pub open spec fn padded(s: Seq<char>, width: int) -> Seq<char> {
    if s.len() >= width {
        s
    } else {
        s + Seq::new((width - s.len()) as nat, |i: int| ' ')
    }
}

/// Pads `s` on the right with spaces to at least `width` characters.
pub fn pad_right(s: &str, width: usize) -> (r: String)
    ensures
        r@ == padded(s@, width as int),
{
    let n = s.unicode_len();
    let mut out = s.to_owned();
    if n >= width {
        return out;
    }
    let mut k: usize = n;
    while k < width
        invariant
            n <= k <= width,
            out@ == s@ + Seq::new((k - n) as nat, |i: int| ' '),
        decreases width - k,
    {
        let ghost pre = out@;
        out.append(" ");
        proof {
            reveal_strlit(" ");
            assert(out@ =~= s@ + Seq::new((k + 1 - n) as nat, |i: int| ' '));
        }
        k += 1;
    }
    out
}

/// The decimal digits of `n`, most significant first.
pub open spec fn decimal_digits(n: nat) -> Seq<char>
    decreases n,
{
    if n < 10 {
        seq![digit_char(n)]
    } else {
        decimal_digits(n / 10) + seq![digit_char(n % 10)]
    }
}

/// The character for the decimal digit `d`.
pub open spec fn digit_char(d: nat) -> char {
    if d == 0 {
        '0'
    } else if d == 1 {
        '1'
    } else if d == 2 {
        '2'
    } else if d == 3 {
        '3'
    } else if d == 4 {
        '4'
    } else if d == 5 {
        '5'
    } else if d == 6 {
        '6'
    } else if d == 7 {
        '7'
    } else if d == 8 {
        '8'
    } else {
        '9'
    }
}

fn digit_str(d: usize) -> (r: &'static str)
    requires
        d < 10,
    ensures
        r@ == seq![digit_char(d as nat)],
{
    if d == 0 {
        proof {
            reveal_strlit("0");
            assert("0"@ =~= seq![digit_char(0)]);
        }
        "0"
    } else if d == 1 {
        proof {
            reveal_strlit("1");
            assert("1"@ =~= seq![digit_char(1)]);
        }
        "1"
    } else if d == 2 {
        proof {
            reveal_strlit("2");
            assert("2"@ =~= seq![digit_char(2)]);
        }
        "2"
    } else if d == 3 {
        proof {
            reveal_strlit("3");
            assert("3"@ =~= seq![digit_char(3)]);
        }
        "3"
    } else if d == 4 {
        proof {
            reveal_strlit("4");
            assert("4"@ =~= seq![digit_char(4)]);
        }
        "4"
    } else if d == 5 {
        proof {
            reveal_strlit("5");
            assert("5"@ =~= seq![digit_char(5)]);
        }
        "5"
    } else if d == 6 {
        proof {
            reveal_strlit("6");
            assert("6"@ =~= seq![digit_char(6)]);
        }
        "6"
    } else if d == 7 {
        proof {
            reveal_strlit("7");
            assert("7"@ =~= seq![digit_char(7)]);
        }
        "7"
    } else if d == 8 {
        proof {
            reveal_strlit("8");
            assert("8"@ =~= seq![digit_char(8)]);
        }
        "8"
    } else {
        proof {
            reveal_strlit("9");
            assert("9"@ =~= seq![digit_char(9)]);
        }
        "9"
    }
}

/// Renders `n` in decimal, as `decimal_digits` describes.
pub fn to_decimal(n: usize) -> (r: String)
    ensures
        r@ == decimal_digits(n as nat),
    decreases n,
{
    if n < 10 {
        digit_str(n).to_owned()
    } else {
        let mut r = to_decimal(n / 10);
        let d = digit_str(n % 10);
        r.append(d);
        proof {
            assert(r@ =~= decimal_digits(n as nat / 10) + seq![digit_char(n as nat % 10)]);
        }
        r
    }
}

/// The given items, each preceded by a newline, in order.
pub open spec fn joined_lines(items: Seq<Seq<char>>) -> Seq<char>
    decreases items.len(),
{
    if items.len() == 0 {
        Seq::empty()
    } else {
        seq!['\n'] + items[0] + joined_lines(items.skip(1))
    }
}

/// Appends each item on a line of its own, as `joined_lines` describes.
pub fn joined_lines_exec(items: &Vec<String>) -> (r: String)
    ensures
        r@ == joined_lines(items.deep_view()),
{
    let ghost all = items.deep_view();
    let mut out = String::new();
    let n = items.len();
    let mut i: usize = 0;
    proof {
        assert(all.skip(0) =~= all);
        assert(out@ + joined_lines(all) =~= joined_lines(all));
    }
    while i < n
        invariant
            i <= n,
            n == items@.len(),
            all == items.deep_view(),
            joined_lines(all) == out@ + joined_lines(all.skip(i as int)),
        decreases n - i,
    {
        let ghost pre = out@;
        proof {
            assert(all.skip(i as int).len() > 0);
            assert(all.skip(i as int)[0] == all[i as int]);
            assert(all.skip(i as int).skip(1) =~= all.skip(i + 1));
            reveal_strlit("\n");
            assert("\n"@ =~= seq!['\n']);
        }
        out.append("\n");
        out.append(items[i].as_str());
        proof {
            assert(out@ + joined_lines(all.skip(i + 1)) =~= pre + (seq!['\n'] + all[i as int]
                + joined_lines(all.skip(i + 1))));
        }
        i += 1;
    }
    proof {
        assert(all.skip(n as int) =~= Seq::<Seq<char>>::empty());
        assert(out@ + joined_lines(all.skip(n as int)) =~= out@);
    }
    out
}

/// A count of thousandths rendered as a decimal number, with trailing
/// fractional zeros dropped: 700 reads "0.7", 1250 reads "1.25", 2000 "2".
pub open spec fn spec_thousandths_text(t: nat) -> Seq<char> {
    let whole = decimal_digits(t / 1000);
    let r = t % 1000;
    if r == 0 {
        whole
    } else {
        let d3 = seq![digit_char(r / 100), digit_char((r / 10) % 10), digit_char(r % 10)];
        let frac = if r % 10 != 0 {
            d3
        } else if r % 100 != 0 {
            d3.take(2)
        } else {
            d3.take(1)
        };
        whole + "."@ + frac
    }
}

/// Renders a count of thousandths, as `spec_thousandths_text` describes.
pub fn thousandths_text(t: u32) -> (r: String)
    ensures
        r@ == spec_thousandths_text(t as nat),
{
    let mut out = to_decimal((t / 1000) as usize);
    let rem = t % 1000;
    if rem == 0 {
        return out;
    }
    out.append(".");
    let d1 = digit_str((rem / 100) as usize);
    let d2 = digit_str(((rem / 10) % 10) as usize);
    let d3 = digit_str((rem % 10) as usize);
    let ghost trio = seq![
        digit_char((rem / 100) as nat),
        digit_char(((rem / 10) % 10) as nat),
        digit_char((rem % 10) as nat),
    ];
    if rem % 10 != 0 {
        out.append(d1);
        out.append(d2);
        out.append(d3);
        proof {
            assert(out@ =~= spec_thousandths_text(t as nat));
        }
    } else if rem % 100 != 0 {
        out.append(d1);
        out.append(d2);
        proof {
            assert(trio.take(2) =~= seq![
                digit_char((rem / 100) as nat),
                digit_char(((rem / 10) % 10) as nat),
            ]);
            assert(out@ =~= spec_thousandths_text(t as nat));
        }
    } else {
        out.append(d1);
        proof {
            assert(trio.take(1) =~= seq![digit_char((rem / 100) as nat)]);
            assert(out@ =~= spec_thousandths_text(t as nat));
        }
    }
    out
}

/// Compares two string slices character by character.
pub fn str_eq(a: &str, b: &str) -> (r: bool)
    ensures
        r == (a@ == b@),
{
    let n = a.unicode_len();
    if n != b.unicode_len() {
        return false;
    }
    let mut i: usize = 0;
    while i < n
        invariant
            i <= n,
            n == a@.len(),
            n == b@.len(),
            forall|k: int| 0 <= k < i ==> a@[k] == b@[k],
        decreases n - i,
    {
        if a.get_char(i) != b.get_char(i) {
            return false;
        }
        i += 1;
    }
    assert(a@ =~= b@);
    true
}

} // verus!
