//! Character-level text helpers: whitespace, trimming, lines and indentation.
use vstd::prelude::*;
use vstd::string::*;


verus! {

/// The parts joined, with `sep` between each two neighbours.
pub open spec fn join_texts(parts: Seq<Seq<char>>, sep: Seq<char>) -> Seq<char>
    decreases parts.len(),
{
    if parts.len() == 0 {
        Seq::empty()
    } else if parts.len() == 1 {
        parts[0]
    } else {
        join_texts(parts.subrange(0, parts.len() - 1), sep) + sep + parts[parts.len() - 1]
    }
}

/// The views of a sequence of strings.
pub open spec fn texts_of(v: Seq<String>) -> Seq<Seq<char>> {
    v.map_values(|s: String| s@)
}

/// Joins `parts` with `sep` between each two neighbours.
pub fn join_strings(parts: &Vec<String>, sep: &str) -> (r: String)
    ensures
        r@ == join_texts(texts_of(parts@), sep@),
{
    let mut out = String::new();
    let mut i: usize = 0;
    while i < parts.len()
        invariant
            0 <= i <= parts.len(),
            out@ == join_texts(texts_of(parts@).subrange(0, i as int), sep@),
        decreases parts.len() - i,
    {
        let ghost before = out@;
        if i > 0 {
            out.append(sep);
        }
        out.append(parts[i].as_str());
        proof {
            let ps = texts_of(parts@);
            assert(ps.subrange(0, i + 1).subrange(0, i as int) =~= ps.subrange(0, i as int));
            if i == 0 {
                assert(before =~= Seq::<char>::empty());
                assert(out@ =~= ps[0]);
            }
        }
        i += 1;
    }
    proof {
        assert(texts_of(parts@).subrange(0, parts@.len() as int) =~= texts_of(parts@));
    }
    out
}

/// The concatenation of two texts.
pub fn cat(a: &str, b: &str) -> (r: String)
    ensures
        r@ == a@ + b@,
{
    let mut s = String::from_str(a);
    s.append(b);
    s
}

/// The concatenation of three texts.
pub fn cat3(a: &str, b: &str, c: &str) -> (r: String)
    ensures
        r@ == a@ + b@ + c@,
{
    let mut s = String::from_str(a);
    s.append(b);
    s.append(c);
    s
}

/// Unicode `White_Space` characters.
pub open spec fn is_ws(c: char) -> bool {
    let v = c as u32;
    (9 <= v && v <= 13) || v == 32 || v == 0x85 || v == 0xa0 || v == 0x1680 || (0x2000 <= v
        && v <= 0x200a) || v == 0x2028 || v == 0x2029 || v == 0x202f || v == 0x205f || v
        == 0x3000
}

/// Whether `c` is a Unicode whitespace character.
pub fn is_whitespace(c: char) -> (r: bool)
    ensures
        r == is_ws(c),
{
    let v = c as u32;
    (9 <= v && v <= 13) || v == 32 || v == 0x85 || v == 0xa0 || v == 0x1680 || (0x2000 <= v
        && v <= 0x200a) || v == 0x2028 || v == 0x2029 || v == 0x202f || v == 0x205f || v
        == 0x3000
}

/// Number of whitespace characters at the start of `s`.
pub open spec fn lead_ws(s: Seq<char>) -> nat
    decreases s.len(),
{
    if s.len() > 0 && is_ws(s[0]) {
        1 + lead_ws(s.drop_first())
    } else {
        0
    }
}

/// Number of whitespace characters at the end of `s`.
pub open spec fn trail_ws(s: Seq<char>) -> nat
    decreases s.len(),
{
    if s.len() > 0 && is_ws(s.last()) {
        1 + trail_ws(s.drop_last())
    } else {
        0
    }
}

/// `s` without leading whitespace.
pub open spec fn trim_start(s: Seq<char>) -> Seq<char> {
    s.subrange(lead_ws(s) as int, s.len() as int)
}

/// `s` without trailing whitespace.
pub open spec fn trim_end(s: Seq<char>) -> Seq<char> {
    s.subrange(0, s.len() - trail_ws(s))
}

/// `s` without leading or trailing whitespace.
pub open spec fn trim(s: Seq<char>) -> Seq<char> {
    trim_end(trim_start(s))
}

/// A line is blank when it holds whitespace only.
pub open spec fn is_blank(s: Seq<char>) -> bool {
    lead_ws(s) == s.len()
}

/// The whitespace run that starts a line.
pub open spec fn indent_of(s: Seq<char>) -> Seq<char> {
    s.subrange(0, lead_ws(s) as int)
}

proof fn lemma_lead_ws_bound(s: Seq<char>)
    ensures
        lead_ws(s) <= s.len(),
        forall|k: int| 0 <= k < lead_ws(s) ==> is_ws(#[trigger] s[k]),
        lead_ws(s) < s.len() ==> !is_ws(s[lead_ws(s) as int]),
    decreases s.len(),
{
    if s.len() > 0 && is_ws(s[0]) {
        lemma_lead_ws_bound(s.drop_first());
        assert forall|k: int| 0 <= k < lead_ws(s) implies is_ws(#[trigger] s[k]) by {
            if k > 0 {
                assert(s[k] == s.drop_first()[k - 1]);
            }
        }
    }
}

proof fn lemma_trail_ws_bound(s: Seq<char>)
    ensures
        trail_ws(s) <= s.len(),
        forall|k: int| s.len() - trail_ws(s) <= k < s.len() ==> is_ws(#[trigger] s[k]),
        trail_ws(s) < s.len() ==> !is_ws(s[s.len() - trail_ws(s) - 1]),
    decreases s.len(),
{
    if s.len() > 0 && is_ws(s.last()) {
        lemma_trail_ws_bound(s.drop_last());
        assert forall|k: int| s.len() - trail_ws(s) <= k < s.len() implies is_ws(
            #[trigger] s[k],
        ) by {
            if k < s.len() - 1 {
                assert(s[k] == s.drop_last()[k]);
            }
        }
    }
}

/// One step of counting the whitespace that starts `s`: position `i` ends the
/// run exactly when it does not hold whitespace.
proof fn lemma_lead_ws_step(s: Seq<char>, i: int)
    requires
        0 <= i < s.len(),
        forall|k: int| 0 <= k < i ==> is_ws(#[trigger] s[k]),
    ensures
        is_ws(s[i]) ==> lead_ws(s) >= i + 1,
        !is_ws(s[i]) ==> lead_ws(s) == i,
    decreases i,
{
    if i > 0 {
        lemma_lead_ws_step(s.drop_first(), i - 1);
        assert(s.drop_first()[i - 1] == s[i]);
    }
}

proof fn lemma_trail_ws_step(s: Seq<char>, i: int)
    requires
        0 <= i < s.len(),
        forall|k: int| s.len() - i <= k < s.len() ==> is_ws(#[trigger] s[k]),
    ensures
        is_ws(s[s.len() - 1 - i]) ==> trail_ws(s) >= i + 1,
        !is_ws(s[s.len() - 1 - i]) ==> trail_ws(s) == i,
    decreases i,
{
    if i > 0 {
        let t = s.drop_last();
        assert forall|k: int| t.len() - (i - 1) <= k < t.len() implies is_ws(#[trigger] t[k]) by {
            assert(t[k] == s[k]);
        }
        lemma_trail_ws_step(t, i - 1);
        assert(t[t.len() - 1 - (i - 1)] == s[s.len() - 1 - i]);
    }
}

/// Number of leading whitespace characters of `s`.
pub fn count_lead_ws(s: &str) -> (r: usize)
    ensures
        r == lead_ws(s@),
{
    let n = s.unicode_len();
    let mut i: usize = 0;
    while i < n
        invariant
            n == s@.len(),
            0 <= i <= n,
            forall|k: int| 0 <= k < i ==> is_ws(#[trigger] s@[k]),
        decreases n - i,
    {
        let c = s.get_char(i);
        proof {
            lemma_lead_ws_step(s@, i as int);
        }
        if !is_whitespace(c) {
            return i;
        }
        i += 1;
    }
    proof {
        lemma_lead_ws_bound(s@);
        if lead_ws(s@) < s@.len() {
            assert(is_ws(s@[lead_ws(s@) as int]));
        }
    }
    i
}

/// Number of trailing whitespace characters of `s`.
pub fn count_trail_ws(s: &str) -> (r: usize)
    ensures
        r == trail_ws(s@),
{
    let n = s.unicode_len();
    let mut i: usize = 0;
    while i < n
        invariant
            n == s@.len(),
            0 <= i <= n,
            forall|k: int| n - i <= k < n ==> is_ws(#[trigger] s@[k]),
        decreases n - i,
    {
        let c = s.get_char(n - 1 - i);
        proof {
            lemma_trail_ws_step(s@, i as int);
        }
        if !is_whitespace(c) {
            return i;
        }
        i += 1;
    }
    proof {
        lemma_trail_ws_bound(s@);
        if trail_ws(s@) < s@.len() {
            assert(is_ws(s@[s@.len() - trail_ws(s@) - 1]));
        }
    }
    i
}

/// `s` without leading or trailing whitespace.
pub fn trim_str(s: &str) -> (r: String)
    ensures
        r@ == trim(s@),
{
    let n = s.unicode_len();
    let lead = count_lead_ws(s);
    proof {
        lemma_lead_ws_bound(s@);
    }
    let rest = s.substring_char(lead, n);
    let trail = count_trail_ws(rest);
    proof {
        lemma_trail_ws_bound(rest@);
    }
    let inner = rest.substring_char(0, rest.unicode_len() - trail);
    String::from_str(inner)
}

/// `s` without trailing whitespace.
pub fn trim_end_str(s: &str) -> (r: String)
    ensures
        r@ == trim_end(s@),
{
    let n = s.unicode_len();
    let trail = count_trail_ws(s);
    proof {
        lemma_trail_ws_bound(s@);
    }
    String::from_str(s.substring_char(0, n - trail))
}

/// Position of the first `c` in `s`, or its length when there is none.
pub open spec fn first_of(s: Seq<char>, c: char) -> nat
    decreases s.len(),
{
    if s.len() == 0 {
        0
    } else if s[0] == c {
        0
    } else {
        1 + first_of(s.drop_first(), c)
    }
}

/// The first `c` in `s` stands at `k` when no `c` precedes `k`.
pub proof fn lemma_first_of(s: Seq<char>, c: char, k: int)
    requires
        0 <= k <= s.len(),
        forall|i: int| 0 <= i < k ==> #[trigger] s[i] != c,
        k == s.len() || s[k] == c,
    ensures
        first_of(s, c) == k,
    decreases k,
{
    if k > 0 {
        assert forall|i: int| 0 <= i < k - 1 implies #[trigger] s.drop_first()[i] != c by {
            assert(s.drop_first()[i] == s[i + 1]);
        }
        lemma_first_of(s.drop_first(), c, k - 1);
    }
}

/// The pieces of `s` between occurrences of `c`; a text without any is one piece.
pub open spec fn split_on(s: Seq<char>, c: char) -> Seq<Seq<char>>
    decreases s.len(),
{
    let k = first_of(s, c);
    if k >= s.len() {
        seq![s]
    } else {
        seq![s.subrange(0, k as int)] + split_on(s.subrange(k as int + 1, s.len() as int), c)
    }
}

/// The lines of `s`: the pieces between line feeds.
pub open spec fn split_lines(s: Seq<char>) -> Seq<Seq<char>> {
    split_on(s, '\n')
}

/// Position of the first `c` in `s`, or its length when there is none.
pub fn find_char(s: &str, c: char) -> (r: usize)
    ensures
        r == first_of(s@, c),
        r <= s@.len(),
{
    let n = s.unicode_len();
    let mut i: usize = 0;
    while i < n
        invariant
            n == s@.len(),
            0 <= i <= n,
            forall|k: int| 0 <= k < i ==> #[trigger] s@[k] != c,
        decreases n - i,
    {
        if s.get_char(i) == c {
            proof {
                lemma_first_of(s@, c, i as int);
            }
            return i;
        }
        i += 1;
    }
    proof {
        lemma_first_of(s@, c, n as int);
    }
    n
}

/// Splits `s` at each line feed.
pub fn split_lines_str(s: &str) -> (r: Vec<String>)
    ensures
        texts_of(r@) == split_lines(s@),
{
    split_str(s, '\n')
}

/// Splits `s` at each occurrence of `c`.
pub fn split_str(s: &str, c: char) -> (r: Vec<String>)
    ensures
        texts_of(r@) == split_on(s@, c),
{
    let mut out: Vec<String> = Vec::new();
    let mut rest = String::from_str(s);
    loop
        invariant
            split_on(s@, c) == texts_of(out@) + split_on(rest@, c),
        decreases rest@.len(),
    {
        let ghost before = out@;
        let k = find_char(rest.as_str(), c);
        let n = rest.as_str().unicode_len();
        if k >= n {
            out.push(rest);
            proof {
                assert(texts_of(out@) =~= texts_of(before) + split_on(rest@, c));
            }
            return out;
        }
        let line = String::from_str(rest.as_str().substring_char(0, k));
        let next = String::from_str(rest.as_str().substring_char(k + 1, n));
        out.push(line);
        proof {
            assert(split_on(rest@, c) == seq![line@] + split_on(next@, c));
            assert(texts_of(out@) =~= texts_of(before).push(line@));
            assert(texts_of(out@) + split_on(next@, c) =~= texts_of(before) + split_on(rest@, c));
        }
        rest = next;
    }
}

/// The shortest indentation among the non-blank lines, the first one on a tie.
pub open spec fn min_indent(ls: Seq<Seq<char>>) -> Option<Seq<char>>
    decreases ls.len(),
{
    if ls.len() == 0 {
        None
    } else {
        let prev = min_indent(ls.drop_last());
        let l = ls.last();
        if is_blank(l) {
            prev
        } else {
            match prev {
                None => Some(indent_of(l)),
                Some(p) => if lead_ws(l) < p.len() {
                    Some(indent_of(l))
                } else {
                    Some(p)
                },
            }
        }
    }
}

/// The indentation common to a docstring: the shortest leading whitespace run
/// among its non-blank lines, or nothing when every line is blank.
pub open spec fn docstring_indent(doc: Seq<char>) -> Seq<char> {
    match min_indent(split_lines(doc)) {
        Some(p) => p,
        None => Seq::empty(),
    }
}

/// `line` without the prefix `p`, or unchanged when it does not start with it.
pub open spec fn strip_indent(line: Seq<char>, p: Seq<char>) -> Seq<char> {
    if p.len() <= line.len() && line.subrange(0, p.len() as int) == p {
        line.subrange(p.len() as int, line.len() as int)
    } else {
        line
    }
}

/// Each line without the prefix `p`.
pub open spec fn strip_lines(ls: Seq<Seq<char>>, p: Seq<char>) -> Seq<Seq<char>> {
    ls.map_values(|l: Seq<char>| strip_indent(l, p))
}

/// A docstring with its common indentation removed from each line, trimmed.
pub open spec fn dedent(doc: Seq<char>) -> Seq<char> {
    trim(join_texts(strip_lines(split_lines(doc), docstring_indent(doc)), "\n"@))
}

proof fn lemma_blank_ws(s: Seq<char>)
    ensures
        lead_ws(s) <= s.len(),
        indent_of(s).len() == lead_ws(s),
{
    lemma_lead_ws_bound(s);
}

/// The indentation common to the non-blank lines of a docstring.
pub fn detect_docstring_indent_prefix(docstring: &str) -> (r: String)
    ensures
        r@ == docstring_indent(docstring@),
{
    let lines = split_lines_str(docstring);
    let ghost ls = texts_of(lines@);
    let mut best: Option<String> = None;
    let mut i: usize = 0;
    while i < lines.len()
        invariant
            ls == texts_of(lines@),
            0 <= i <= lines.len(),
            match best {
                None => min_indent(ls.subrange(0, i as int)) is None,
                Some(b) => min_indent(ls.subrange(0, i as int)) == Some(b@),
            },
        decreases lines.len() - i,
    {
        let line = lines[i].as_str();
        let lead = count_lead_ws(line);
        let n = line.unicode_len();
        proof {
            lemma_blank_ws(line@);
            let sub = ls.subrange(0, i + 1);
            assert(sub.drop_last() =~= ls.subrange(0, i as int));
            assert(sub.last() == line@);
        }
        if lead < n {
            let take = match &best {
                None => true,
                Some(b) => lead < b.as_str().unicode_len(),
            };
            if take {
                best = Some(String::from_str(line.substring_char(0, lead)));
            }
        }
        i += 1;
    }
    proof {
        assert(ls.subrange(0, lines@.len() as int) =~= ls);
    }
    match best {
        Some(b) => b,
        None => String::new(),
    }
}

/// Position of the last `c` in `s`, or -1 when there is none.
pub open spec fn last_of(s: Seq<char>, c: char) -> int
    decreases s.len(),
{
    if s.len() == 0 {
        -1
    } else if s.last() == c {
        s.len() - 1
    } else {
        last_of(s.drop_last(), c)
    }
}

proof fn lemma_last_of(s: Seq<char>, c: char, k: int)
    requires
        -1 <= k < s.len(),
        forall|i: int| k < i < s.len() ==> #[trigger] s[i] != c,
        k == -1 || s[k] == c,
    ensures
        last_of(s, c) == k,
    decreases s.len(),
{
    if s.len() > 0 && k < s.len() - 1 {
        assert forall|i: int| k < i < s.len() - 1 implies #[trigger] s.drop_last()[i] != c by {
            assert(s.drop_last()[i] == s[i]);
        }
        lemma_last_of(s.drop_last(), c, k);
    }
}

/// Position of the last `c` in `s`, if any.
pub fn rfind_char(s: &str, c: char) -> (r: Option<usize>)
    ensures
        match r {
            Some(k) => k as int == last_of(s@, c) && k < s@.len(),
            None => last_of(s@, c) == -1,
        },
{
    let n = s.unicode_len();
    let mut i: usize = n;
    while i > 0
        invariant
            n == s@.len(),
            0 <= i <= n,
            forall|k: int| i <= k < n ==> #[trigger] s@[k] != c,
        decreases i,
    {
        if s.get_char(i - 1) == c {
            proof {
                lemma_last_of(s@, c, i - 1);
            }
            return Some(i - 1);
        }
        i -= 1;
    }
    proof {
        lemma_last_of(s@, c, -1);
    }
    None
}

/// Whether two texts are equal.
pub fn str_eq(a: &str, b: &str) -> (r: bool)
    ensures
        r == (a@ == b@),
{
    let same_len = a.unicode_len() == b.unicode_len();
    if !same_len {
        return false;
    }
    let r = starts_with_str(a, b);
    proof {
        assert(a@.subrange(0, a@.len() as int) =~= a@);
    }
    r
}

/// Whether `p` occurs in `s`.
pub open spec fn occurs_in(p: Seq<char>, s: Seq<char>) -> bool {
    exists|i: int| 0 <= i && i + p.len() <= s.len() && #[trigger] s.subrange(i, i + p.len()) == p
}

/// An occurrence of `p` in `s` is kept when text is added on either side.
pub proof fn lemma_occurs_in_context(p: Seq<char>, s: Seq<char>, before: Seq<char>, after: Seq<char>)
    requires
        occurs_in(p, s),
    ensures
        occurs_in(p, before + s + after),
{
    let i = choose|i: int| 0 <= i && i + p.len() <= s.len() && #[trigger] s.subrange(i, i + p.len()) == p;
    let all = before + s + after;
    let j = before.len() + i;
    assert(all.subrange(j, j + p.len()) =~= s.subrange(i, i + p.len()));
}

/// Whether `s` starts with `p`.
pub fn starts_with_str(s: &str, p: &str) -> (r: bool)
    ensures
        r == (p@.len() <= s@.len() && s@.subrange(0, p@.len() as int) == p@),
{
    let n = s.unicode_len();
    let m = p.unicode_len();
    if m > n {
        return false;
    }
    let mut i: usize = 0;
    while i < m
        invariant
            n == s@.len(),
            m == p@.len(),
            m <= n,
            0 <= i <= m,
            forall|k: int| 0 <= k < i ==> s@[k] == p@[k],
        decreases m - i,
    {
        if s.get_char(i) != p.get_char(i) {
            proof {
                assert(s@.subrange(0, m as int)[i as int] != p@[i as int]);
            }
            return false;
        }
        i += 1;
    }
    proof {
        assert(s@.subrange(0, m as int) =~= p@);
    }
    true
}

/// Removes the docstring's common indentation from each of its lines and
/// trims the result.
pub fn dedent_docstring(docstring: &str) -> (r: String)
    ensures
        r@ == dedent(docstring@),
{
    let indent = detect_docstring_indent_prefix(docstring);
    let lines = split_lines_str(docstring);
    let ghost ls = texts_of(lines@);
    let p = indent.as_str();
    let mut stripped: Vec<String> = Vec::new();
    let mut i: usize = 0;
    while i < lines.len()
        invariant
            ls == texts_of(lines@),
            ls == split_lines(docstring@),
            p@ == docstring_indent(docstring@),
            0 <= i <= lines.len(),
            texts_of(stripped@) == strip_lines(ls.subrange(0, i as int), p@),
        decreases lines.len() - i,
    {
        let line = lines[i].as_str();
        let s = if starts_with_str(line, p) {
            String::from_str(line.substring_char(p.unicode_len(), line.unicode_len()))
        } else {
            String::from_str(line)
        };
        let ghost before = stripped@;
        stripped.push(s);
        proof {
            assert(ls[i as int] == line@);
            assert(s@ == strip_indent(line@, p@));
            assert(texts_of(stripped@) =~= texts_of(before).push(s@));
            assert(texts_of(stripped@) =~= strip_lines(ls.subrange(0, i + 1), p@));
        }
        i += 1;
    }
    proof {
        assert(ls.subrange(0, lines@.len() as int) =~= ls);
    }
    let joined = join_strings(&stripped, "\n");
    trim_str(joined.as_str())
}

/// A hexadecimal digit.
pub open spec fn hex_digit(n: u32) -> char {
    if n < 10 {
        ((n as u8) + 48) as char
    } else {
        ((n as u8) + 87) as char
    }
}

/// How a character is written inside a double-quoted Python string literal:
/// backslash, double quote and control characters are escaped.
pub open spec fn escape_char(c: char) -> Seq<char> {
    let v = c as u32;
    if c == '\\' {
        seq!['\\', '\\']
    } else if c == '"' {
        seq!['\\', '"']
    } else if c == '\n' {
        seq!['\\', 'n']
    } else if c == '\r' {
        seq!['\\', 'r']
    } else if c == '\t' {
        seq!['\\', 't']
    } else if v < 32 || v == 127 {
        seq!['\\', 'x', hex_digit(v / 16), hex_digit(v % 16)]
    } else {
        seq![c]
    }
}

/// The body of a double-quoted Python string literal that denotes `s`.
pub open spec fn escaped(s: Seq<char>) -> Seq<char>
    decreases s.len(),
{
    if s.len() == 0 {
        Seq::empty()
    } else {
        escaped(s.drop_last()) + escape_char(s.last())
    }
}

fn push_hex(out: &mut String, n: u32)
    requires
        n < 16,
    ensures
        final(out)@ == old(out)@.push(hex_digit(n)),
{
    if n < 10 {
        out.push(((n as u8) + 48) as char);
    } else {
        out.push(((n as u8) + 87) as char);
    }
}

/// Writes `s` as the body of a double-quoted Python string literal.
pub fn escape_str(s: &str) -> (r: String)
    ensures
        r@ == escaped(s@),
{
    let n = s.unicode_len();
    let mut out = String::new();
    let mut i: usize = 0;
    while i < n
        invariant
            n == s@.len(),
            0 <= i <= n,
            out@ == escaped(s@.subrange(0, i as int)),
        decreases n - i,
    {
        let c = s.get_char(i);
        let ghost before = out@;
        proof {
            assert(s@.subrange(0, i + 1).drop_last() =~= s@.subrange(0, i as int));
        }
        let v = c as u32;
        if c == '\\' {
            out.push('\\');
            out.push('\\');
        } else if c == '"' {
            out.push('\\');
            out.push('"');
        } else if c == '\n' {
            out.push('\\');
            out.push('n');
        } else if c == '\r' {
            out.push('\\');
            out.push('r');
        } else if c == '\t' {
            out.push('\\');
            out.push('t');
        } else if v < 32 || v == 127 {
            out.push('\\');
            out.push('x');
            push_hex(&mut out, v / 16);
            push_hex(&mut out, v % 16);
        } else {
            out.push(c);
        }
        proof {
            assert(out@ =~= before + escape_char(c));
        }
        i += 1;
    }
    proof {
        assert(s@.subrange(0, n as int) =~= s@);
    }
    out
}

} // verus!
