//! Line-oriented "label: value" tool output, turned into labelled rows.
use vstd::prelude::*;

verus! {

/// The Unicode `White_Space` property of a character.
pub open spec fn white_space(c: char) -> bool {
    let n = c as u32;
    (0x9 <= n <= 0xd) || n == 0x20 || n == 0x85 || n == 0xa0 || n == 0x1680 || (0x2000 <= n
        <= 0x200a) || n == 0x2028 || n == 0x2029 || n == 0x202f || n == 0x205f || n == 0x3000
}

/// Relies on `char::is_whitespace`: true exactly for the characters with the
/// Unicode `White_Space` property (PropList.txt).
#[verifier::external_body]
fn is_space(c: char) -> (r: bool)
    ensures
        r == white_space(c),
{
    c.is_whitespace()
}

/// The first index at or after `i` whose character is not white space
/// (`s.len()` when there is none).
pub open spec fn skip_space(s: Seq<char>, i: int) -> int
    decreases s.len() - i,
{
    if 0 <= i < s.len() && white_space(s[i]) {
        skip_space(s, i + 1)
    } else {
        i
    }
}

/// Walking back from `j`, but not below `lo`, over characters whose
/// white-space property is `w`: the index where the walk stops.
pub open spec fn back_while(s: Seq<char>, lo: int, j: int, w: bool) -> int
    decreases j - lo,
{
    if lo < j <= s.len() && white_space(s[j - 1]) == w {
        back_while(s, lo, j - 1, w)
    } else {
        j
    }
}

/// `s` without its leading and trailing white space.
pub open spec fn trimmed(s: Seq<char>) -> Seq<char> {
    let a = skip_space(s, 0);
    s.subrange(a, back_while(s, a, s.len() as int, true))
}

/// The index of the first `c` at or after `i` (`s.len()` when there is none).
pub open spec fn index_from(s: Seq<char>, c: char, i: int) -> int
    decreases s.len() - i,
{
    if i < 0 || i >= s.len() {
        s.len() as int
    } else if s[i] == c {
        i
    } else {
        index_from(s, c, i + 1)
    }
}

/// What follows the first line of `s`: empty where `s` is one line.
pub open spec fn after_header(s: Seq<char>) -> Seq<char> {
    let k = index_from(s, '\n', 0);
    if k < s.len() {
        s.subrange(k + 1, s.len() as int)
    } else {
        Seq::empty()
    }
}

/// A line split on its first colon into trimmed label and value; `None`
/// when the line holds no colon.
pub open spec fn label_of(s: Seq<char>) -> Option<(Seq<char>, Seq<char>)> {
    let k = index_from(s, ':', 0);
    if k < s.len() {
        Some((trimmed(s.subrange(0, k)), trimmed(s.subrange(k + 1, s.len() as int))))
    } else {
        None
    }
}

proof fn lemma_skip_space_bounds(s: Seq<char>, i: int)
    requires
        0 <= i <= s.len(),
    ensures
        i <= skip_space(s, i) <= s.len(),
    decreases s.len() - i,
{
    if i < s.len() && white_space(s[i]) {
        lemma_skip_space_bounds(s, i + 1);
    }
}

proof fn lemma_back_while_bounds(s: Seq<char>, lo: int, j: int, w: bool)
    requires
        0 <= lo <= j <= s.len(),
    ensures
        lo <= back_while(s, lo, j, w) <= j,
    decreases j - lo,
{
    if lo < j && white_space(s[j - 1]) == w {
        lemma_back_while_bounds(s, lo, j - 1, w);
    }
}

proof fn lemma_index_from(s: Seq<char>, c: char, i: int)
    requires
        0 <= i <= s.len(),
    ensures
        i <= index_from(s, c, i) <= s.len(),
        index_from(s, c, i) < s.len() ==> s[index_from(s, c, i)] == c,
        forall|k: int| i <= k < index_from(s, c, i) ==> s[k] != c,
    decreases s.len() - i,
{
    if i < s.len() && s[i] != c {
        lemma_index_from(s, c, i + 1);
    }
}

fn skip_space_exec(s: &str, len: usize) -> (r: usize)
    requires
        len == s@.len(),
    ensures
        r == skip_space(s@, 0),
        r <= len,
{
    proof {
        lemma_skip_space_bounds(s@, 0);
    }
    let mut i: usize = 0;
    while i < len && is_space(s.get_char(i))
        invariant
            len == s@.len(),
            i <= len,
            skip_space(s@, i as int) == skip_space(s@, 0),
        decreases len - i,
    {
        i = i + 1;
    }
    i
}

fn back_while_exec(s: &str, lo: usize, hi: usize, w: bool) -> (r: usize)
    requires
        lo <= hi <= s@.len(),
    ensures
        r == back_while(s@, lo as int, hi as int, w),
        lo <= r <= hi,
{
    proof {
        lemma_back_while_bounds(s@, lo as int, hi as int, w);
    }
    let mut j: usize = hi;
    while j > lo && is_space(s.get_char(j - 1)) == w
        invariant
            lo <= j <= hi <= s@.len(),
            back_while(s@, lo as int, j as int, w) == back_while(s@, lo as int, hi as int, w),
        decreases j,
    {
        j = j - 1;
    }
    j
}

/// `s` without its leading and trailing white space.
pub fn trim(s: &str) -> (r: String)
    ensures
        r@ == trimmed(s@),
{
    let len = s.unicode_len();
    let a = skip_space_exec(s, len);
    let b = back_while_exec(s, a, len, true);
    s.substring_char(a, b).to_string()
}

/// Splits `line` on its first colon into a trimmed label and value; a line
/// without a colon gives `None`.
pub fn split_label(line: &str) -> (r: Option<(String, String)>)
    ensures
        match r {
            Some(p) => label_of(line@) == Some((p.0@, p.1@)),
            None => label_of(line@) is None,
        },
{
    let len = line.unicode_len();
    let mut k: usize = 0;
    while k < len && line.get_char(k) != ':'
        invariant
            len == line@.len(),
            k <= len,
            index_from(line@, ':', k as int) == index_from(line@, ':', 0),
        decreases len - k,
    {
        k = k + 1;
    }
    if k == len {
        None
    } else {
        let label = trim(line.substring_char(0, k));
        let value = trim(line.substring_char(k + 1, len));
        Some((label, value))
    }
}

/// The views of a sequence of strings.
pub open spec fn views(v: Seq<String>) -> Seq<Seq<char>> {
    v.map_values(|x: String| x@)
}

/// The views of a sequence of string pairs.
pub open spec fn pair_views(v: Seq<(String, String)>) -> Seq<(Seq<char>, Seq<char>)> {
    v.map_values(|p: (String, String)| (p.0@, p.1@))
}

/// Whether a non-empty `sep` occurs in `s` at index `i`.
pub open spec fn sep_at(s: Seq<char>, sep: Seq<char>, i: int) -> bool {
    &&& sep.len() > 0
    &&& 0 <= i
    &&& i + sep.len() <= s.len()
    &&& s.subrange(i, i + sep.len()) == sep
}

/// The pieces of `s` from a piece that begins at `start`, scanning on from `i`.
pub open spec fn pieces(s: Seq<char>, sep: Seq<char>, start: int, i: int) -> Seq<Seq<char>>
    decreases s.len() - i,
{
    if i < 0 || i >= s.len() {
        seq![s.subrange(start, s.len() as int)]
    } else if sep_at(s, sep, i) {
        seq![s.subrange(start, i)] + pieces(s, sep, i + sep.len(), i + sep.len())
    } else {
        pieces(s, sep, start, i + 1)
    }
}

/// `s` cut at each occurrence of `sep`, scanning from the left; an empty
/// `sep` leaves `s` whole.
pub open spec fn split_on(s: Seq<char>, sep: Seq<char>) -> Seq<Seq<char>> {
    pieces(s, sep, 0, 0)
}

/// The labelled rows among `lines`, in order; lines without a colon are left out.
pub open spec fn rows(lines: Seq<Seq<char>>) -> Seq<(Seq<char>, Seq<char>)>
    decreases lines.len(),
{
    if lines.len() == 0 {
        Seq::empty()
    } else {
        let front = rows(lines.drop_last());
        match label_of(lines.last()) {
            Some(p) => front.push(p),
            None => front,
        }
    }
}

/// The labelled rows of a block whose first line is a header.
pub open spec fn data_rows_of(lines: Seq<Seq<char>>) -> Seq<(Seq<char>, Seq<char>)> {
    if lines.len() == 0 {
        Seq::empty()
    } else {
        rows(lines.drop_first())
    }
}

/// The last maximal run of non-white-space characters in `s`, if any.
pub open spec fn last_word(s: Seq<char>) -> Option<Seq<char>> {
    let e = back_while(s, 0, s.len() as int, true);
    if e == 0 {
        None
    } else {
        Some(s.subrange(back_while(s, 0, e, false), e))
    }
}

fn sep_matches(s: &str, len: usize, sep: &str, n: usize, i: usize) -> (r: bool)
    requires
        len == s@.len(),
        n == sep@.len(),
        i < len,
    ensures
        r == sep_at(s@, sep@, i as int),
{
    if n == 0 || n > len - i {
        return false;
    }
    let mut k: usize = 0;
    while k < n && s.get_char(i + k) == sep.get_char(k)
        invariant
            len == s@.len(),
            n == sep@.len(),
            i + n <= len,
            k <= n,
            forall|m: int| 0 <= m < k ==> s@[i + m] == sep@[m],
        decreases n - k,
    {
        k = k + 1;
    }
    if k == n {
        assert(s@.subrange(i as int, i + n) =~= sep@);
        true
    } else {
        assert(s@.subrange(i as int, i + n)[k as int] != sep@[k as int]);
        false
    }
}

/// `text` cut at each occurrence of `sep`.
pub fn split_text(text: &str, sep: &str) -> (r: Vec<String>)
    ensures
        views(r@) == split_on(text@, sep@),
{
    let len = text.unicode_len();
    let n = sep.unicode_len();
    let mut done: Vec<String> = Vec::new();
    let mut start: usize = 0;
    let mut i: usize = 0;
    while i < len
        invariant
            len == text@.len(),
            n == sep@.len(),
            start <= i <= len,
            views(done@) + pieces(text@, sep@, start as int, i as int) == split_on(text@, sep@),
        decreases len - i,
    {
        if sep_matches(text, len, sep, n, i) {
            let piece = text.substring_char(start, i).to_string();
            proof {
                let p = pieces(text@, sep@, (i + n) as int, (i + n) as int);
                assert(views(done@.push(piece)) =~= views(done@).push(piece@));
                assert(views(done@).push(piece@) + p =~= views(done@) + (seq![piece@] + p));
            }
            done.push(piece);
            i = i + n;
            start = i;
        } else {
            i = i + 1;
        }
    }
    let last = text.substring_char(start, len).to_string();
    proof {
        assert(views(done@.push(last)) =~= views(done@) + seq![last@]);
    }
    done.push(last);
    done
}

/// The labelled rows of `lines` from index `first` on.
fn rows_from(lines: &Vec<String>, first: usize) -> (r: Vec<(String, String)>)
    requires
        first <= lines@.len(),
    ensures
        pair_views(r@) == rows(views(lines@).subrange(first as int, lines@.len() as int)),
{
    let mut out: Vec<(String, String)> = Vec::new();
    let mut i: usize = first;
    proof {
        assert(views(lines@).subrange(first as int, first as int) =~= Seq::<Seq<char>>::empty());
        assert(pair_views(out@) =~= Seq::<(Seq<char>, Seq<char>)>::empty());
    }
    while i < lines.len()
        invariant
            first <= i <= lines@.len(),
            pair_views(out@) == rows(views(lines@).subrange(first as int, i as int)),
        decreases lines@.len() - i,
    {
        let ghost before = out@;
        let split = split_label(lines[i].as_str());
        proof {
            let ls = views(lines@).subrange(first as int, i + 1);
            assert(ls.drop_last() =~= views(lines@).subrange(first as int, i as int));
            assert(ls.last() == lines@[i as int]@);
        }
        match split {
            Some(p) => {
                out.push(p);
                proof {
                    assert(pair_views(out@) =~= pair_views(before).push((p.0@, p.1@)));
                }
            },
            None => {},
        }
        i = i + 1;
    }
    out
}

/// The labelled rows of `text` cut at `sep`, every line counted as data.
pub fn labelled_rows(text: &str, sep: &str) -> (r: Vec<(String, String)>)
    ensures
        pair_views(r@) == rows(split_on(text@, sep@)),
{
    let lines = split_text(text, sep);
    let r = rows_from(&lines, 0);
    assert(views(lines@).subrange(0, lines@.len() as int) =~= views(lines@));
    r
}

/// The labelled rows of a newline-separated block whose first line is a
/// header: the header is dropped, never taken for data.
pub fn data_rows(text: &str) -> (r: Vec<(String, String)>)
    ensures
        pair_views(r@) == data_rows_of(split_on(text@, seq!['\n'])),
{
    let nl = "\n";
    proof {
        reveal_strlit("\n");
        assert(nl@ =~= seq!['\n']);
    }
    let lines = split_text(text, nl);
    if lines.len() == 0 {
        Vec::new()
    } else {
        let r = rows_from(&lines, 1);
        assert(views(lines@).subrange(1, lines@.len() as int) =~= views(lines@).drop_first());
        r
    }
}

/// The last white-space-delimited word of `text`, if it holds one.
pub fn last_word_of(text: &str) -> (r: Option<String>)
    ensures
        match r {
            Some(w) => last_word(text@) == Some(w@),
            None => last_word(text@) is None,
        },
{
    let len = text.unicode_len();
    let e = back_while_exec(text, 0, len, true);
    if e == 0 {
        None
    } else {
        let b = back_while_exec(text, 0, e, false);
        Some(text.substring_char(b, e).to_string())
    }
}

/// A line whose first colon stands at `k` splits there into its trimmed
/// prefix and trimmed suffix; a line with no colon gives nothing.
pub proof fn lemma_colon_split(s: Seq<char>, k: int)
    ensures
        0 <= k < s.len() && s[k] == ':' && (forall|i: int| 0 <= i < k ==> s[i] != ':')
            ==> label_of(s) == Some(
            (trimmed(s.subrange(0, k)), trimmed(s.subrange(k + 1, s.len() as int))),
        ),
        (forall|i: int| 0 <= i < s.len() ==> s[i] != ':') ==> label_of(s) is None,
{
    lemma_index_from(s, ':', 0);
    let c = index_from(s, ':', 0);
    if 0 <= k < s.len() && s[k] == ':' && (forall|i: int| 0 <= i < k ==> s[i] != ':') {
        if c < k {
            assert(s[c] == ':');
        }
        if c > k {
            assert(s[k] != ':');
        }
    }
    if c < s.len() {
        assert(s[c] == ':');
    }
}

/// Of a block of one or more lines, the header (line 0) is never data:
/// exactly lines 1 to the end are parsed, whatever the header holds, and a
/// block of one line gives no rows.
pub proof fn lemma_header_discard(lines: Seq<Seq<char>>, header: Seq<char>)
    requires
        lines.len() >= 1,
    ensures
        data_rows_of(lines) == rows(lines.subrange(1, lines.len() as int)),
        data_rows_of(lines.update(0, header)) == data_rows_of(lines),
        lines.len() == 1 ==> data_rows_of(lines).len() == 0,
{
    assert(lines.drop_first() =~= lines.subrange(1, lines.len() as int));
    assert(lines.update(0, header).drop_first() =~= lines.drop_first());
    if lines.len() == 1 {
        assert(lines.drop_first().len() == 0);
    }
}

/// The last white-space-delimited word after the first line of `text`, if
/// any; the first line is a header and never gives the word.
pub fn last_word_after_header(text: &str) -> (r: Option<String>)
    ensures
        match r {
            Some(w) => last_word(after_header(text@)) == Some(w@),
            None => last_word(after_header(text@)) is None,
        },
{
    let len = text.unicode_len();
    let mut k: usize = 0;
    while k < len && text.get_char(k) != '\n'
        invariant
            len == text@.len(),
            k <= len,
            index_from(text@, '\n', k as int) == index_from(text@, '\n', 0),
        decreases len - k,
    {
        k = k + 1;
    }
    if k == len {
        assert(after_header(text@) =~= Seq::<char>::empty());
        assert(back_while(Seq::<char>::empty(), 0, 0, true) == 0);
        None
    } else {
        last_word_of(text.substring_char(k + 1, len))
    }
}

/// A line written `label : value`, where the label holds no colon and
/// neither part begins or ends in white space, splits into exactly that
/// label and value (the value may hold colons of its own).
pub proof fn lemma_label_line(label: Seq<char>, value: Seq<char>)
    requires
        label.len() > 0,
        value.len() > 0,
        !white_space(label[0]),
        !white_space(label.last()),
        !white_space(value[0]),
        !white_space(value.last()),
        forall|i: int| 0 <= i < label.len() ==> label[i] != ':',
    ensures
        label_of(label + seq![' ', ':', ' '] + value) == Some((label, value)),
{
    let s = label + seq![' ', ':', ' '] + value;
    let k: int = label.len() + 1int;
    assert(s[k as int] == ':');
    assert forall|i: int| 0 <= i < k implies s[i] != ':' by {
        if i < label.len() {
            assert(s[i] == label[i]);
        } else {
            assert(s[i] == ' ');
        }
    }
    lemma_colon_split(s, k);
    let p = s.subrange(0, k);
    assert(p =~= label.push(' '));
    assert(white_space(' '));
    assert(skip_space(p, 0) == 0);
    assert(back_while(p, 0, k, true) == back_while(p, 0, k - 1, true));
    assert(back_while(p, 0, k - 1, true) == k - 1);
    assert(p.subrange(0, k - 1) =~= label);
    let q = s.subrange(k + 1, s.len() as int);
    assert(q =~= seq![' '] + value);
    assert(skip_space(q, 0) == skip_space(q, 1));
    assert(skip_space(q, 1) == 1);
    assert(back_while(q, 1, q.len() as int, true) == q.len());
    assert(q.subrange(1, q.len() as int) =~= value);
}

} // verus!
