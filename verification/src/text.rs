//! Text primitives the builder needs: decimal rendering, padding, trimming,
//! splitting into lines, searching and unsigned parsing, each specified over
//! the character sequence of the strings involved.
use vstd::prelude::*;

verus! {

broadcast use vstd::string::group_string_axioms;

// ───────────────────────── decimal rendering ─────────────────────────

/// The ASCII digit for `d` (for `d < 10`).
pub open spec fn digit_char(d: nat) -> char {
    if d == 0 {
        '0'
    } else if d == 1 {
        '1'
    } else if d == 2 {
        '2'
    } else if d == 3 {
        '3'
    } else if d == 4 {
        '4'
    } else if d == 5 {
        '5'
    } else if d == 6 {
        '6'
    } else if d == 7 {
        '7'
    } else if d == 8 {
        '8'
    } else {
        '9'
    }
}

/// Decimal notation of `n`, without sign or leading zeros.
pub open spec fn decimal(n: nat) -> Seq<char>
    decreases n,
{
    if n < 10 {
        seq![digit_char(n)]
    } else {
        decimal(n / 10).push(digit_char(n % 10))
    }
}

fn digit_str(d: u64) -> (s: &'static str)
    requires
        d < 10,
    ensures
        s@ == seq![digit_char(d as nat)],
{
    proof {
        reveal_strlit("0");
        reveal_strlit("1");
        reveal_strlit("2");
        reveal_strlit("3");
        reveal_strlit("4");
        reveal_strlit("5");
        reveal_strlit("6");
        reveal_strlit("7");
        reveal_strlit("8");
        reveal_strlit("9");
    }
    if d == 0 {
        "0"
    } else if d == 1 {
        "1"
    } else if d == 2 {
        "2"
    } else if d == 3 {
        "3"
    } else if d == 4 {
        "4"
    } else if d == 5 {
        "5"
    } else if d == 6 {
        "6"
    } else if d == 7 {
        "7"
    } else if d == 8 {
        "8"
    } else {
        "9"
    }
}

/// Renders `n` in decimal, as `format!("{}", n)` does.
pub fn u64_to_string(n: u64) -> (s: String)
    ensures
        s@ == decimal(n as nat),
    decreases n,
{
    if n < 10 {
        let mut s = String::new();
        s.append(digit_str(n));
        s
    } else {
        let mut s = u64_to_string(n / 10);
        s.append(digit_str(n % 10));
        s
    }
}

// ───────────────────────── padding ─────────────────────────

/// `n` spaces.
pub open spec fn spaces(n: nat) -> Seq<char>
    decreases n,
{
    if n == 0 {
        Seq::empty()
    } else {
        spaces((n - 1) as nat).push(' ')
    }
}

/// `s` left-aligned in a field of `width` characters, as `{:<width}` formats it.
pub open spec fn pad_right(s: Seq<char>, width: nat) -> Seq<char> {
    if s.len() >= width {
        s
    } else {
        s + spaces((width - s.len()) as nat)
    }
}

/// Left-aligns `s` in a field of `width` characters, filling with spaces.
pub fn pad_right_str(s: &str, width: usize) -> (r: String)
    ensures
        r@ == pad_right(s@, width as nat),
{
    proof {
        reveal_strlit(" ");
    }
    let mut r = s.to_string();
    let len = s.unicode_len();
    if len >= width {
        return r;
    }
    let mut i: usize = len;
    while i < width
        invariant
            len == s@.len(),
            len <= i <= width,
            r@ == s@ + spaces((i - len) as nat),
        decreases width - i,
    {
        proof {
            reveal_strlit(" ");
        }
        r.append(" ");
        proof {
            assert(spaces((i + 1 - len) as nat) == spaces((i - len) as nat).push(' '));
            assert(s@ + spaces((i - len) as nat).push(' ') =~= (s@ + spaces((i - len) as nat)).push(
                ' ',
            ));
        }
        i = i + 1;
    }
    r
}

// ───────────────────────── searching ─────────────────────────

/// `pat` occurs in `s` starting at position `i`.
pub open spec fn occurs_at(s: Seq<char>, pat: Seq<char>, i: int) -> bool {
    0 <= i && i + pat.len() <= s.len() && s.subrange(i, i + pat.len()) == pat
}

/// `pat` occurs somewhere in `s`.
pub open spec fn contains_str(s: Seq<char>, pat: Seq<char>) -> bool {
    exists|i: int| occurs_at(s, pat, i)
}

/// First position at or after `k` where `pat` occurs in `s`.
pub open spec fn find_from(s: Seq<char>, pat: Seq<char>, k: int) -> Option<int>
    decreases s.len() + 1 - k,
{
    if k < 0 || k + pat.len() > s.len() {
        None
    } else if occurs_at(s, pat, k) {
        Some(k)
    } else {
        find_from(s, pat, k + 1)
    }
}

/// First position where `pat` occurs in `s`, as `str::find` gives it.
pub open spec fn find_str(s: Seq<char>, pat: Seq<char>) -> Option<int> {
    find_from(s, pat, 0)
}

/// `s` begins with `pat`.
pub open spec fn starts_with(s: Seq<char>, pat: Seq<char>) -> bool {
    pat.len() <= s.len() && s.subrange(0, pat.len() as int) == pat
}

/// `s` ends with `pat`.
pub open spec fn ends_with(s: Seq<char>, pat: Seq<char>) -> bool {
    pat.len() <= s.len() && s.subrange(s.len() - pat.len(), s.len() as int) == pat
}

proof fn lemma_find_from(s: Seq<char>, pat: Seq<char>, k: int)
    requires
        0 <= k,
    ensures
        match find_from(s, pat, k) {
            Some(i) => k <= i && occurs_at(s, pat, i) && forall|j: int|
                k <= j < i ==> !occurs_at(s, pat, j),
            None => forall|j: int| k <= j ==> !occurs_at(s, pat, j),
        },
    decreases s.len() + 1 - k,
{
    if k + pat.len() > s.len() {
    } else if occurs_at(s, pat, k) {
    } else {
        lemma_find_from(s, pat, k + 1);
    }
}

/// What `str::find` promises, restated over positions.
pub proof fn lemma_find_str(s: Seq<char>, pat: Seq<char>)
    ensures
        match find_str(s, pat) {
            Some(i) => occurs_at(s, pat, i) && forall|j: int| 0 <= j < i ==> !occurs_at(s, pat, j),
            None => !contains_str(s, pat),
        },
{
    lemma_find_from(s, pat, 0);
}

/// Reads the characters of a string slice into a vector.
pub fn chars_of(s: &str) -> (v: Vec<char>)
    ensures
        v@ == s@,
{
    let mut v: Vec<char> = Vec::new();
    for c in it: s.chars()
        invariant
            it.seq() == s@,
            v@ == it.seq().take(it.index() as int),
    {
        v.push(c);
        proof {
            assert(it.seq().take(it.index() + 1) =~= it.seq().take(it.index() as int).push(c));
        }
    }
    proof {
        assert(s@.take(s@.len() as int) =~= s@);
    }
    v
}

fn occurs_at_exec(s: &Vec<char>, pat: &Vec<char>, i: usize) -> (b: bool)
    ensures
        b == occurs_at(s@, pat@, i as int),
{
    if i > s.len() || pat.len() > s.len() - i {
        return false;
    }
    let mut j: usize = 0;
    while j < pat.len()
        invariant
            i + pat@.len() <= s@.len(),
            j <= pat@.len(),
            forall|k: int| 0 <= k < j ==> s@[i + k] == pat@[k],
        decreases pat.len() - j,
    {
        assert(i + j < s.len());
        if s[i + j] != pat[j] {
            proof {
                assert(s@.subrange(i as int, i + pat@.len())[j as int] != pat@[j as int]);
            }
            return false;
        }
        j = j + 1;
    }
    proof {
        assert(s@.subrange(i as int, i + pat@.len()) =~= pat@);
    }
    true
}

fn find_in_chars(s: &Vec<char>, pat: &Vec<char>) -> (r: Option<usize>)
    ensures
        r matches Some(i) ==> find_str(s@, pat@) == Some(i as int),
        r is None ==> find_str(s@, pat@) is None,
{
    proof {
        lemma_find_from(s@, pat@, 0);
    }
    if pat.len() > s.len() {
        return None;
    }
    if pat.len() == 0 {
        proof {
            assert(s@.subrange(0, 0) =~= pat@);
        }
        return Some(0);
    }
    let last = s.len() - pat.len();
    let mut i: usize = 0;
    while i <= last
        invariant
            last + pat@.len() == s@.len(),
            pat@.len() >= 1,
            last < s.len(),
            i <= last + 1,
            find_from(s@, pat@, 0) == find_from(s@, pat@, i as int),
        decreases last + 1 - i,
    {
        if occurs_at_exec(s, pat, i) {
            return Some(i);
        }
        i = i + 1;
    }
    None
}

/// Position of the first occurrence of `pat` in `s`, counted in characters.
pub fn find(s: &str, pat: &str) -> (r: Option<usize>)
    ensures
        r matches Some(i) ==> find_str(s@, pat@) == Some(i as int),
        r is None ==> find_str(s@, pat@) is None,
{
    let sc = chars_of(s);
    let pc = chars_of(pat);
    find_in_chars(&sc, &pc)
}

/// Whether `pat` occurs in `s`.
pub fn contains(s: &str, pat: &str) -> (b: bool)
    ensures
        b == contains_str(s@, pat@),
{
    proof {
        lemma_find_str(s@, pat@);
    }
    find(s, pat).is_some()
}

/// Whether `s` begins with `pat`.
pub fn has_prefix(s: &str, pat: &str) -> (b: bool)
    ensures
        b == starts_with(s@, pat@),
{
    let sc = chars_of(s);
    let pc = chars_of(pat);
    occurs_at_exec(&sc, &pc, 0)
}

/// Whether `s` ends with `pat`.
pub fn has_suffix(s: &str, pat: &str) -> (b: bool)
    ensures
        b == ends_with(s@, pat@),
{
    let sc = chars_of(s);
    let pc = chars_of(pat);
    if pc.len() > sc.len() {
        return false;
    }
    occurs_at_exec(&sc, &pc, sc.len() - pc.len())
}

/// The characters of `s` from position `from` on.
pub fn suffix_from(s: &str, from: usize) -> (r: String)
    requires
        from <= s@.len(),
    ensures
        r@ == s@.subrange(from as int, s@.len() as int),
{
    let n = s.unicode_len();
    s.substring_char(from, n).to_string()
}

/// The first `to` characters of `s`.
pub fn prefix_to(s: &str, to: usize) -> (r: String)
    requires
        to <= s@.len(),
    ensures
        r@ == s@.subrange(0, to as int),
{
    s.substring_char(0, to).to_string()
}


// ───────────────────────── splitting ─────────────────────────

/// First position at or after `k` holding `c`.
pub open spec fn char_pos(s: Seq<char>, c: char, k: int) -> Option<int>
    decreases s.len() - k,
{
    if k < 0 || k >= s.len() {
        None
    } else if s[k] == c {
        Some(k)
    } else {
        char_pos(s, c, k + 1)
    }
}

/// Where `s` first holds `c` at or after `k`.
pub proof fn lemma_char_pos(s: Seq<char>, c: char, k: int)
    requires
        0 <= k,
    ensures
        match char_pos(s, c, k) {
            Some(i) => k <= i < s.len() && s[i] == c && forall|j: int| k <= j < i ==> s[j] != c,
            None => forall|j: int| k <= j < s.len() ==> s[j] != c,
        },
    decreases s.len() - k,
{
    if k < s.len() && s[k] != c {
        lemma_char_pos(s, c, k + 1);
    }
}

proof fn lemma_char_pos_found(s: Seq<char>, c: char, i: int)
    requires
        0 <= i < s.len(),
        s[i] == c,
        forall|j: int| 0 <= j < i ==> s[j] != c,
    ensures
        char_pos(s, c, 0) == Some(i),
{
    lemma_char_pos(s, c, 0);
}

/// The pieces of `s` between occurrences of `c`, as `str::split(c)` yields them.
pub open spec fn split_on(s: Seq<char>, c: char) -> Seq<Seq<char>>
    decreases s.len(),
{
    match char_pos(s, c, 0) {
        Some(i) => {
            proof {
                lemma_char_pos(s, c, 0);
            }
            seq![s.subrange(0, i)] + split_on(s.subrange(i + 1, s.len() as int), c)
        },
        None => seq![s],
    }
}

/// Views of a vector of strings.
pub open spec fn views(v: Seq<String>) -> Seq<Seq<char>> {
    v.map_values(|x: String| x@)
}

/// Splits `s` at every occurrence of `c`.
pub fn split_char(s: &str, c: char) -> (parts: Vec<String>)
    ensures
        views(parts@) == split_on(s@, c),
{
    let cs = chars_of(s);
    let n = cs.len();
    let mut parts: Vec<String> = Vec::new();
    let mut start: usize = 0;
    let mut i: usize = 0;
    proof {
        assert(s@.subrange(0, n as int) =~= s@);
        assert(views(parts@) + split_on(s@, c) =~= split_on(s@, c));
    }
    while i < n
        invariant
            n == s@.len(),
            cs@ == s@,
            start <= i <= n,
            forall|j: int| start <= j < i ==> s@[j] != c,
            split_on(s@, c) == views(parts@) + split_on(s@.subrange(start as int, n as int), c),
        decreases n - i,
    {
        if cs[i] == c {
            let piece = s.substring_char(start, i).to_string();
            proof {
                let t = s@.subrange(start as int, n as int);
                lemma_char_pos_found(t, c, i - start);
                assert(t.subrange(0, i - start) =~= s@.subrange(start as int, i as int));
                assert(t.subrange(i - start + 1, t.len() as int) =~= s@.subrange(i + 1, n as int));
                assert(split_on(t, c) == seq![s@.subrange(start as int, i as int)] + split_on(
                    s@.subrange(i + 1, n as int),
                    c,
                ));
                assert(views(parts@.push(piece)) =~= views(parts@).push(piece@));
                assert(views(parts@) + split_on(t, c) =~= views(parts@).push(piece@) + split_on(
                    s@.subrange(i + 1, n as int),
                    c,
                ));
            }
            parts.push(piece);
            start = i + 1;
        }
        i = i + 1;
    }
    let last = s.substring_char(start, n).to_string();
    proof {
        let t = s@.subrange(start as int, n as int);
        lemma_char_pos(t, c, 0);
        assert(split_on(t, c) == seq![t]);
        assert(views(parts@.push(last)) =~= views(parts@).push(last@));
        assert(views(parts@) + seq![t] =~= views(parts@).push(t));
    }
    parts.push(last);
    parts
}

/// Splitting always gives at least one piece.
pub proof fn lemma_split_nonempty(s: Seq<char>, c: char)
    ensures
        split_on(s, c).len() >= 1,
    decreases s.len(),
{
    lemma_char_pos(s, c, 0);
    match char_pos(s, c, 0) {
        Some(i) => {
            lemma_split_nonempty(s.subrange(i + 1, s.len() as int), c);
        },
        None => {},
    }
}

/// `l` without one trailing carriage return.
pub open spec fn strip_cr(l: Seq<char>) -> Seq<char> {
    if l.len() > 0 && l.last() == '\r' {
        l.drop_last()
    } else {
        l
    }
}

/// The lines of `s`, as `str::lines` yields them: split at `\n`, a `\r`
/// before a `\n` dropped, and no empty line after a final `\n`.
pub open spec fn str_lines(s: Seq<char>) -> Seq<Seq<char>> {
    let p = split_on(s, '\n');
    let init = p.drop_last().map_values(|l: Seq<char>| strip_cr(l));
    if p.last().len() == 0 {
        init
    } else {
        init.push(p.last())
    }
}

fn strip_cr_exec(l: &String) -> (r: String)
    ensures
        r@ == strip_cr(l@),
{
    let n = l.as_str().unicode_len();
    if n > 0 && l.as_str().get_char(n - 1) == '\r' {
        l.as_str().substring_char(0, n - 1).to_string()
    } else {
        l.clone()
    }
}

/// Splits `s` into lines.
pub fn lines(s: &str) -> (ls: Vec<String>)
    ensures
        views(ls@) == str_lines(s@),
{
    let parts = split_char(s, '\n');
    proof {
        lemma_split_nonempty(s@, '\n');
    }
    let ghost p = split_on(s@, '\n');
    let k = parts.len() - 1;
    let mut ls: Vec<String> = Vec::new();
    let mut i: usize = 0;
    while i < k
        invariant
            k + 1 == parts@.len(),
            views(parts@) == p,
            i <= k,
            views(ls@) == p.take(i as int).map_values(|l: Seq<char>| strip_cr(l)),
        decreases k - i,
    {
        let line = strip_cr_exec(&parts[i]);
        proof {
            assert(p[i as int] == parts@[i as int]@);
            assert(p.take(i + 1).map_values(|l: Seq<char>| strip_cr(l)) =~= p.take(
                i as int,
            ).map_values(|l: Seq<char>| strip_cr(l)).push(strip_cr(p[i as int])));
            assert(views(ls@.push(line)) =~= views(ls@).push(line@));
        }
        ls.push(line);
        i = i + 1;
    }
    proof {
        assert(p.take(k as int) =~= p.drop_last());
        assert(p.last() == parts@[k as int]@);
    }
    let last_len = parts[k].as_str().unicode_len();
    if last_len > 0 {
        let last = parts[k].clone();
        proof {
            assert(views(ls@.push(last)) =~= views(ls@).push(last@));
        }
        ls.push(last);
    }
    ls
}

// ───────────────────────── trimming ─────────────────────────

/// `c` is white space in the sense of `char::is_whitespace` (the Unicode
/// `White_Space` property).
pub open spec fn is_space(c: char) -> bool {
    let u = c as int;
    ||| 0x09 <= u <= 0x0D
    ||| u == 0x20
    ||| u == 0x85
    ||| u == 0xA0
    ||| u == 0x1680
    ||| 0x2000 <= u <= 0x200A
    ||| u == 0x2028
    ||| u == 0x2029
    ||| u == 0x202F
    ||| u == 0x205F
    ||| u == 0x3000
}

fn is_space_exec(c: char) -> (b: bool)
    ensures
        b == is_space(c),
{
    let u = c as u32;
    (0x09 <= u && u <= 0x0D) || u == 0x20 || u == 0x85 || u == 0xA0 || u == 0x1680 || (0x2000 <= u
        && u <= 0x200A) || u == 0x2028 || u == 0x2029 || u == 0x202F || u == 0x205F || u == 0x3000
}

/// `s` without leading white space.
pub open spec fn trim_start(s: Seq<char>) -> Seq<char>
    decreases s.len(),
{
    if s.len() > 0 && is_space(s[0]) {
        trim_start(s.drop_first())
    } else {
        s
    }
}

/// `s` without trailing white space.
pub open spec fn trim_end(s: Seq<char>) -> Seq<char>
    decreases s.len(),
{
    if s.len() > 0 && is_space(s.last()) {
        trim_end(s.drop_last())
    } else {
        s
    }
}

/// `s` without leading and trailing white space, as `str::trim` gives it.
pub open spec fn trim(s: Seq<char>) -> Seq<char> {
    trim_end(trim_start(s))
}

/// Removes leading and trailing white space.
pub fn trim_str(s: &str) -> (r: String)
    ensures
        r@ == trim(s@),
{
    let cs = chars_of(s);
    let n = cs.len();
    let mut lo: usize = 0;
    proof {
        assert(s@.subrange(0, n as int) =~= s@);
    }
    while lo < n && is_space_exec(cs[lo])
        invariant
            n == s@.len(),
            cs@ == s@,
            lo <= n,
            trim_start(s@) == trim_start(s@.subrange(lo as int, n as int)),
        decreases n - lo,
    {
        proof {
            assert(s@.subrange(lo as int, n as int).drop_first() =~= s@.subrange(lo + 1, n as int));
        }
        lo = lo + 1;
    }
    let mut hi: usize = n;
    while hi > lo && is_space_exec(cs[hi - 1])
        invariant
            n == s@.len(),
            cs@ == s@,
            lo <= hi <= n,
            trim_start(s@) == s@.subrange(lo as int, n as int),
            trim(s@) == trim_end(s@.subrange(lo as int, hi as int)),
        decreases hi - lo,
    {
        proof {
            assert(s@.subrange(lo as int, hi as int).drop_last() =~= s@.subrange(
                lo as int,
                hi - 1,
            ));
        }
        hi = hi - 1;
    }
    s.substring_char(lo, hi).to_string()
}

/// `s` with every leading repetition of `pat` removed, as `trim_start_matches` gives it.
pub open spec fn strip_all_prefix(s: Seq<char>, pat: Seq<char>) -> Seq<char>
    decreases s.len(),
{
    if pat.len() > 0 && starts_with(s, pat) {
        strip_all_prefix(s.subrange(pat.len() as int, s.len() as int), pat)
    } else {
        s
    }
}

/// `s` with every trailing repetition of `pat` removed, as `trim_end_matches` gives it.
pub open spec fn strip_all_suffix(s: Seq<char>, pat: Seq<char>) -> Seq<char>
    decreases s.len(),
{
    if pat.len() > 0 && ends_with(s, pat) {
        strip_all_suffix(s.subrange(0, s.len() - pat.len()), pat)
    } else {
        s
    }
}

/// Removes every leading repetition of `pat`.
pub fn trim_start_matches(s: &str, pat: &str) -> (r: String)
    ensures
        r@ == strip_all_prefix(s@, pat@),
{
    let sc = chars_of(s);
    let pc = chars_of(pat);
    let n = sc.len();
    let m = pc.len();
    if m == 0 {
        return s.to_string();
    }
    let mut lo: usize = 0;
    proof {
        assert(s@.subrange(0, n as int) =~= s@);
    }
    while lo <= n && m <= n - lo && occurs_at_exec(&sc, &pc, lo)
        invariant
            n == s@.len(),
            m == pat@.len(),
            m > 0,
            sc@ == s@,
            pc@ == pat@,
            lo <= n,
            strip_all_prefix(s@, pat@) == strip_all_prefix(s@.subrange(lo as int, n as int), pat@),
        decreases n - lo,
    {
        proof {
            let t = s@.subrange(lo as int, n as int);
            assert(t.subrange(0, m as int) =~= s@.subrange(lo as int, lo + m));
            assert(t.subrange(m as int, t.len() as int) =~= s@.subrange(lo + m, n as int));
        }
        lo = lo + m;
    }
    proof {
        let t = s@.subrange(lo as int, n as int);
        if starts_with(t, pat@) {
            assert(t.subrange(0, m as int) =~= s@.subrange(lo as int, lo + m));
        }
    }
    s.substring_char(lo, n).to_string()
}

/// Removes every trailing repetition of `pat`.
pub fn trim_end_matches(s: &str, pat: &str) -> (r: String)
    ensures
        r@ == strip_all_suffix(s@, pat@),
{
    let sc = chars_of(s);
    let pc = chars_of(pat);
    let n = sc.len();
    let m = pc.len();
    if m == 0 {
        return s.to_string();
    }
    let mut hi: usize = n;
    proof {
        assert(s@.subrange(0, n as int) =~= s@);
    }
    while m <= hi && occurs_at_exec(&sc, &pc, hi - m)
        invariant
            n == s@.len(),
            m == pat@.len(),
            m > 0,
            sc@ == s@,
            pc@ == pat@,
            hi <= n,
            strip_all_suffix(s@, pat@) == strip_all_suffix(s@.subrange(0, hi as int), pat@),
        decreases hi,
    {
        proof {
            let t = s@.subrange(0, hi as int);
            assert(t.subrange(t.len() - m, t.len() as int) =~= s@.subrange(hi - m, hi as int));
            assert(t.subrange(0, t.len() - m) =~= s@.subrange(0, hi - m));
        }
        hi = hi - m;
    }
    proof {
        let t = s@.subrange(0, hi as int);
        if ends_with(t, pat@) {
            assert(t.subrange(t.len() - m, t.len() as int) =~= s@.subrange(hi - m, hi as int));
        }
    }
    s.substring_char(0, hi).to_string()
}

// ───────────────────────── parsing ─────────────────────────

/// `c` is an ASCII decimal digit.
pub open spec fn is_digit(c: char) -> bool {
    '0' <= c && c <= '9'
}

/// Value of a string of decimal digits.
pub open spec fn digits_value(d: Seq<char>) -> nat
    decreases d.len(),
{
    if d.len() == 0 {
        0
    } else {
        digits_value(d.drop_last()) * 10 + ((d.last() as int) - ('0' as int)) as nat
    }
}

/// `s` without one leading `+`.
pub open spec fn unsigned_digits(s: Seq<char>) -> Seq<char> {
    if s.len() > 0 && s[0] == '+' {
        s.drop_first()
    } else {
        s
    }
}

/// Every character of `d` is an ASCII digit.
pub open spec fn all_digits(d: Seq<char>) -> bool {
    forall|i: int| 0 <= i < d.len() ==> is_digit(#[trigger] d[i])
}

/// The unsigned number that `s` denotes, if it is one not above `max`: what
/// `str::parse` gives for an unsigned type whose largest value is `max`
/// (an optional `+`, then one or more ASCII digits).
pub open spec fn parse_unsigned(s: Seq<char>, max: nat) -> Option<nat> {
    let d = unsigned_digits(s);
    if d.len() > 0 && all_digits(d) && digits_value(d) <= max {
        Some(digits_value(d))
    } else {
        None
    }
}

/// Parses an unsigned decimal number not above `max`.
pub fn parse_unsigned_str(s: &str, max: u64) -> (r: Option<u64>)
    requires
        max <= 0xFFFF_FFFF,
    ensures
        match parse_unsigned(s@, max as nat) {
            Some(v) => r == Some(v as u64),
            None => r is None,
        },
{
    let cs = chars_of(s);
    let n = cs.len();
    let start: usize = if n > 0 && cs[0] == '+' {
        1
    } else {
        0
    };
    let ghost d = unsigned_digits(s@);
    proof {
        assert(d =~= s@.subrange(start as int, n as int));
    }
    if start >= n {
        return None;
    }
    let mut acc: u64 = 0;
    let mut i: usize = start;
    while i < n
        invariant
            n == s@.len(),
            cs@ == s@,
            start <= i <= n,
            d == s@.subrange(start as int, n as int),
            d == unsigned_digits(s@),
            max <= 0xFFFF_FFFF,
            acc <= max,
            acc == digits_value(s@.subrange(start as int, i as int)),
            forall|j: int| start <= j < i ==> is_digit(#[trigger] s@[j]),
        decreases n - i,
    {
        let c = cs[i];
        if !('0' <= c && c <= '9') {
            proof {
                assert(d[i - start] == s@[i as int]);
                assert(!is_digit(d[i - start]));
                assert(!(forall|k: int| 0 <= k < d.len() ==> is_digit(#[trigger] d[k])));
                assert(parse_unsigned(s@, max as nat) is None);
            }
            return None;
        }
        let dv = (c as u32 - '0' as u32) as u64;
        proof {
            assert(s@.subrange(start as int, i + 1).drop_last() =~= s@.subrange(
                start as int,
                i as int,
            ));
            assert(s@.subrange(start as int, i + 1).last() == c);
            assert(digits_value(s@.subrange(start as int, i + 1)) == acc * 10 + dv);
        }
        let next = acc * 10 + dv;
        if next > max {
            proof {
                lemma_digits_value_grows(s@.subrange(start as int, n as int), i + 1 - start);
                assert(s@.subrange(start as int, n as int).take(i + 1 - start) =~= s@.subrange(
                    start as int,
                    i + 1,
                ));
                assert(s@.subrange(start as int, n as int).take((n - start) as int) =~= d);
            }
            return None;
        }
        acc = next;
        i = i + 1;
    }
    proof {
        assert forall|j: int| 0 <= j < d.len() implies is_digit(#[trigger] d[j]) by {
            assert(d[j] == s@[start + j]);
        }
    }
    Some(acc)
}

proof fn lemma_digits_value_grows(d: Seq<char>, k: int)
    requires
        0 <= k <= d.len(),
    ensures
        digits_value(d.take(k)) <= digits_value(d),
    decreases d.len() - k,
{
    if k < d.len() {
        lemma_digits_value_grows(d, k + 1);
        assert(d.take(k + 1).drop_last() =~= d.take(k));
    } else {
        assert(d.take(k) =~= d);
    }
}

proof fn lemma_digit_char(d: nat)
    requires
        d < 10,
    ensures
        (digit_char(d) as int) - ('0' as int) == d,
        is_digit(digit_char(d)),
        digit_char(d) != '+',
{
}

proof fn lemma_decimal_digits(n: nat)
    ensures
        decimal(n).len() > 0,
        forall|i: int| 0 <= i < decimal(n).len() ==> is_digit(#[trigger] decimal(n)[i]),
        digits_value(decimal(n)) == n,
        decimal(n)[0] != '+',
    decreases n,
{
    if n >= 10 {
        lemma_decimal_digits(n / 10);
        lemma_digit_char(n % 10);
        assert(decimal(n).drop_last() =~= decimal(n / 10));
        assert(decimal(n).last() == digit_char(n % 10));
        assert(digits_value(decimal(n)) == digits_value(decimal(n / 10)) * 10 + (n % 10));
        assert((n / 10) * 10 + n % 10 == n);
    } else {
        lemma_digit_char(n);
        assert(decimal(n).drop_last() =~= Seq::<char>::empty());
        assert(digits_value(Seq::<char>::empty()) == 0);
        assert(decimal(n).last() == digit_char(n));
        assert(digits_value(decimal(n)) == digits_value(decimal(n).drop_last()) * 10 + n);
    }
}

/// Parsing the decimal rendering of a number gives the number back.
pub proof fn lemma_parse_decimal(n: nat, max: nat)
    requires
        n <= max,
    ensures
        parse_unsigned(decimal(n), max) == Some(n),
{
    lemma_decimal_digits(n);
}

} // verus!
