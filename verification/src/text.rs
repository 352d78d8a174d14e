//! Text primitives on which the protocol layer rests: comparing, searching,
//! splitting into space-separated fields and joining.
//!
//! Every specification is stated over `Seq<char>`, the view of `&str` and
//! `String`.
use vstd::prelude::*;
use vstd::string::*;

verus! {

/// The number of characters of `s` that stand before its first space; the
/// whole length when `s` holds no space.
pub open spec fn head_len(s: Seq<char>) -> nat
    decreases s.len(),
{
    if s.len() == 0 || s[0] == ' ' {
        0
    } else {
        1 + head_len(s.skip(1))
    }
}

/// The first field of `s`: the text before its first space.
pub open spec fn head(s: Seq<char>) -> Seq<char> {
    s.take(head_len(s) as int)
}

/// Whether `s` holds a space at all, that is, whether anything follows its
/// first field.
pub open spec fn has_tail(s: Seq<char>) -> bool {
    head_len(s) < s.len()
}

/// The text after the first space of `s`; empty when `s` holds no space.
pub open spec fn tail(s: Seq<char>) -> Seq<char> {
    if has_tail(s) {
        s.skip(head_len(s) as int + 1)
    } else {
        Seq::empty()
    }
}

/// The fields of `s`: the pieces between its spaces, in order. Two
/// neighbouring spaces enclose an empty field, and a text without a space is
/// its own single field, so there is always at least one.
pub open spec fn fields(s: Seq<char>) -> Seq<Seq<char>>
    decreases s.len(),
{
    if has_tail(s) {
        seq![head(s)] + fields(s.skip(head_len(s) as int + 1))
    } else {
        seq![s]
    }
}

/// Whether `pat` stands in `s` at position `i`.
pub open spec fn occurs_at(s: Seq<char>, pat: Seq<char>, i: int) -> bool {
    &&& 0 <= i
    &&& i + pat.len() <= s.len()
    &&& s.subrange(i, i + pat.len()) == pat
}

/// Whether `pat` stands somewhere in `s`.
pub open spec fn contains_text(s: Seq<char>, pat: Seq<char>) -> bool {
    exists|i: int| occurs_at(s, pat, i)
}

/// The parts written one after another with `sep` between neighbours.
pub open spec fn join(parts: Seq<Seq<char>>, sep: Seq<char>) -> Seq<char>
    decreases parts.len(),
{
    if parts.len() == 0 {
        Seq::empty()
    } else if parts.len() == 1 {
        parts[0]
    } else {
        join(parts.drop_last(), sep) + sep + parts.last()
    }
}

/// The position of the first of `parts` that equals `token`; their number
/// when none does.
pub open spec fn position_of(parts: Seq<Seq<char>>, token: Seq<char>) -> nat
    decreases parts.len(),
{
    if parts.len() == 0 || parts[0] == token {
        0
    } else {
        1 + position_of(parts.skip(1), token)
    }
}

/// `position_of` is the first position that holds the token, or the length.
pub proof fn lemma_position_of(parts: Seq<Seq<char>>, token: Seq<char>)
    ensures
        position_of(parts, token) <= parts.len(),
        forall|j: int| 0 <= j < position_of(parts, token) ==> parts[j] != token,
        position_of(parts, token) < parts.len() ==> parts[position_of(parts, token) as int]
            == token,
    decreases parts.len(),
{
    if parts.len() == 0 || parts[0] == token {
    } else {
        let rest = parts.skip(1);
        lemma_position_of(rest, token);
        assert forall|j: int| 0 <= j < position_of(parts, token) implies parts[j] != token by {
            if j > 0 {
                assert(rest[j - 1] == parts[j]);
            }
        }
        if position_of(parts, token) < parts.len() {
            assert(rest[position_of(rest, token) as int] == parts[position_of(parts, token) as int]);
        }
    }
}

/// A position with no equal part before it, which holds the token or is the
/// end, is `position_of`.
pub proof fn lemma_position_of_is(parts: Seq<Seq<char>>, token: Seq<char>, n: int)
    requires
        0 <= n <= parts.len(),
        forall|j: int| 0 <= j < n ==> parts[j] != token,
        n < parts.len() ==> parts[n] == token,
    ensures
        position_of(parts, token) == n,
    decreases parts.len(),
{
    if n == 0 {
    } else {
        let rest = parts.skip(1);
        assert(parts[0] != token);
        assert forall|j: int| 0 <= j < n - 1 implies rest[j] != token by {
            assert(rest[j] == parts[j + 1]);
        }
        if n - 1 < rest.len() {
            assert(rest[n - 1] == parts[n]);
        }
        lemma_position_of_is(rest, token, n - 1);
    }
}

/// `head_len` is the position of the first space, or the length.
pub proof fn lemma_head_len(s: Seq<char>)
    ensures
        head_len(s) <= s.len(),
        forall|j: int| 0 <= j < head_len(s) ==> s[j] != ' ',
        head_len(s) < s.len() ==> s[head_len(s) as int] == ' ',
    decreases s.len(),
{
    if s.len() == 0 || s[0] == ' ' {
    } else {
        let rest = s.skip(1);
        lemma_head_len(rest);
        assert forall|j: int| 0 <= j < head_len(s) implies s[j] != ' ' by {
            if j > 0 {
                assert(rest[j - 1] == s[j]);
            }
        }
        if head_len(s) < s.len() {
            assert(rest[head_len(rest) as int] == s[head_len(s) as int]);
        }
    }
}

/// A position with no space before it, which holds a space or is the end,
/// is `head_len`.
pub proof fn lemma_head_len_is(s: Seq<char>, n: int)
    requires
        0 <= n <= s.len(),
        forall|j: int| 0 <= j < n ==> s[j] != ' ',
        n < s.len() ==> s[n] == ' ',
    ensures
        head_len(s) == n,
    decreases s.len(),
{
    if n == 0 {
    } else {
        let rest = s.skip(1);
        assert(s[0] != ' ');
        assert forall|j: int| 0 <= j < n - 1 implies rest[j] != ' ' by {
            assert(rest[j] == s[j + 1]);
        }
        if n - 1 < rest.len() {
            assert(rest[n - 1] == s[n]);
        }
        lemma_head_len_is(rest, n - 1);
    }
}

/// Splitting never yields nothing, and the first field is `head`.
pub proof fn lemma_fields_first(s: Seq<char>)
    ensures
        fields(s).len() >= 1,
        fields(s)[0] == head(s),
        has_tail(s) ==> fields(s).skip(1) == fields(tail(s)),
        !has_tail(s) ==> fields(s) == seq![s],
{
    lemma_head_len(s);
    if has_tail(s) {
        assert(fields(s).skip(1) =~= fields(tail(s)));
    } else {
        assert(s.take(s.len() as int) =~= s);
    }
}

/// Joining the fields of a text with single spaces gives the text back.
pub proof fn lemma_join_fields(s: Seq<char>)
    ensures
        join(fields(s), seq![' ']) == s,
    decreases s.len(),
{
    lemma_head_len(s);
    if has_tail(s) {
        let n = head_len(s) as int;
        let rest = s.skip(n + 1);
        lemma_join_fields(rest);
        lemma_join_front(head(s), fields(rest), seq![' ']);
        assert(head(s) + seq![' '] + rest =~= s);
    } else {
    }
}

/// Joining with one more part in front.
pub proof fn lemma_join_front(first: Seq<char>, parts: Seq<Seq<char>>, sep: Seq<char>)
    requires
        parts.len() >= 1,
    ensures
        join(seq![first] + parts, sep) == first + sep + join(parts, sep),
    decreases parts.len(),
{
    let all = seq![first] + parts;
    assert(all.last() == parts.last());
    if parts.len() == 1 {
        assert(all.drop_last() =~= seq![first]);
        assert(join(all.drop_last(), sep) == first);
    } else {
        assert(all.drop_last() =~= seq![first] + parts.drop_last());
        lemma_join_front(first, parts.drop_last(), sep);
        assert(first + sep + join(parts.drop_last(), sep) + sep + parts.last() =~= first + sep + (
        join(parts.drop_last(), sep) + sep + parts.last()));
    }
}

/// The characters of `s`, one by one.
pub fn chars_of(s: &str) -> (chars: Vec<char>)
    ensures
        chars@ == s@,
{
    let mut chars: Vec<char> = Vec::new();
    for c in it: s.chars()
        invariant
            it.seq() == s@,
            chars@ == it.seq().take(it.index() as int),
    {
        chars.push(c);
    }
    chars
}

/// Whether two texts are the same, character for character.
pub fn same_text(a: &str, b: &str) -> (same: bool)
    ensures
        same == (a@ == b@),
{
    let x = chars_of(a);
    let y = chars_of(b);
    if x.len() != y.len() {
        return false;
    }
    let mut i: usize = 0;
    while i < x.len()
        invariant
            x@ == a@,
            y@ == b@,
            x.len() == y.len(),
            i <= x.len(),
            forall|j: int| 0 <= j < i ==> x@[j] == y@[j],
        decreases x.len() - i,
    {
        if x[i] != y[i] {
            return false;
        }
        i += 1;
    }
    assert(x@ =~= y@);
    true
}

/// Whether the character `c` occurs in `s`.
pub fn has_char(s: &str, c: char) -> (found: bool)
    ensures
        found == s@.contains(c),
{
    let chars = chars_of(s);
    let mut i: usize = 0;
    while i < chars.len()
        invariant
            chars@ == s@,
            i <= chars.len(),
            forall|j: int| 0 <= j < i ==> chars@[j] != c,
        decreases chars.len() - i,
    {
        if chars[i] == c {
            return true;
        }
        i += 1;
    }
    false
}

/// Whether `pat` stands in `chars` at position `at`.
fn matches_at(chars: &Vec<char>, pat: &Vec<char>, at: usize) -> (hit: bool)
    requires
        at + pat.len() <= chars.len(),
    ensures
        hit == occurs_at(chars@, pat@, at as int),
{
    let mut k: usize = 0;
    while k < pat.len()
        invariant
            at + pat.len() <= chars.len(),
            k <= pat.len(),
            forall|j: int| 0 <= j < k ==> chars@[at + j] == pat@[j],
        decreases pat.len() - k,
    {
        if chars[at + k] != pat[k] {
            assert(chars@.subrange(at as int, at + pat.len())[k as int] != pat@[k as int]);
            return false;
        }
        k += 1;
    }
    assert(chars@.subrange(at as int, at + pat.len()) =~= pat@);
    true
}

/// Whether the text `pat` occurs in `s`. The empty text occurs in every text.
pub fn has_text(s: &str, pat: &str) -> (found: bool)
    ensures
        found == contains_text(s@, pat@),
{
    let chars = chars_of(s);
    let want = chars_of(pat);
    if want.len() > chars.len() {
        return false;
    }
    let mut i: usize = 0;
    while want.len() <= chars.len() - i
        invariant
            chars@ == s@,
            want@ == pat@,
            i <= chars.len(),
            forall|j: int| 0 <= j < i ==> !occurs_at(chars@, want@, j),
        decreases chars.len() - i,
    {
        if matches_at(&chars, &want, i) {
            return true;
        }
        assert(want.len() > 0) by {
            if want.len() == 0 {
                assert(chars@.subrange(i as int, i as int) =~= want@);
            }
        }
        i += 1;
    }
    false
}

/// The position of the first space of `chars` at or after `from`, or the
/// length when there is none.
fn find_space(chars: &Vec<char>, from: usize) -> (end: usize)
    requires
        from <= chars.len(),
    ensures
        from <= end <= chars.len(),
        end - from == head_len(chars@.skip(from as int)),
{
    let mut i: usize = from;
    while i < chars.len() && chars[i] != ' '
        invariant
            from <= i <= chars.len(),
            forall|j: int| from <= j < i ==> chars@[j] != ' ',
        decreases chars.len() - i,
    {
        i += 1;
    }
    proof {
        lemma_head_len_is(chars@.skip(from as int), i - from);
    }
    i
}

/// The first field of `line`: its text before the first space.
pub fn head_of(line: &str) -> (first: String)
    ensures
        first@ == head(line@),
{
    let chars = chars_of(line);
    assert(line@.skip(0) =~= line@);
    let end = find_space(&chars, 0);
    let first = String::from_str(line.substring_char(0, end));
    assert(first@ =~= head(line@));
    first
}

/// The text of `line` after its first space; empty when it holds none.
pub fn tail_of(line: &str) -> (rest: String)
    ensures
        rest@ == tail(line@),
{
    let chars = chars_of(line);
    assert(line@.skip(0) =~= line@);
    let end = find_space(&chars, 0);
    if end < chars.len() {
        let rest = String::from_str(line.substring_char(end + 1, chars.len()));
        assert(rest@ =~= tail(line@));
        rest
    } else {
        String::new()
    }
}

/// The position of the first of `parts` that equals `token`; their number
/// when none does.
pub fn find_field(parts: &Vec<String>, token: &str) -> (at: usize)
    ensures
        at == position_of(parts.deep_view(), token@),
{
    let mut i: usize = 0;
    while i < parts.len() && !same_text(parts[i].as_str(), token)
        invariant
            i <= parts.len(),
            forall|j: int| 0 <= j < i ==> parts.deep_view()[j] != token@,
        decreases parts.len() - i,
    {
        i += 1;
    }
    proof {
        lemma_position_of_is(parts.deep_view(), token@, i as int);
    }
    i
}

/// Splits `line` at every space.
pub fn split_fields(line: &str) -> (out: Vec<String>)
    ensures
        out.deep_view() == fields(line@),
{
    let chars = chars_of(line);
    let n = chars.len();
    let mut out: Vec<String> = Vec::new();
    let mut start: usize = 0;
    assert(line@.skip(0) =~= line@);
    assert(out.deep_view() =~= Seq::<Seq<char>>::empty());
    loop
        invariant
            chars@ == line@,
            n == chars.len(),
            start <= n,
            out.deep_view() + fields(line@.skip(start as int)) == fields(line@),
        decreases n - start,
    {
        let ghost rest = line@.skip(start as int);
        let ghost done = out.deep_view();
        let end = find_space(&chars, start);
        let piece = String::from_str(line.substring_char(start, end));
        assert(piece@ =~= head(rest));
        out.push(piece);
        assert(out.deep_view() =~= done.push(head(rest)));
        if end >= n {
            assert(head(rest) =~= rest);
            assert(done.push(rest) =~= done + seq![rest]);
            return out;
        }
        assert(rest.skip(end - start + 1) =~= line@.skip(end + 1));
        assert(done.push(head(rest)) + fields(line@.skip(end + 1)) =~= done + (seq![head(rest)]
            + fields(rest.skip(end - start + 1))));
        start = end + 1;
    }
}

/// Writes `parts` one after another with `sep` between neighbours.
pub fn join_text(parts: &Vec<String>, sep: &str) -> (out: String)
    ensures
        out@ == join(parts.deep_view(), sep@),
{
    let mut out = String::new();
    let mut i: usize = 0;
    assert(parts.deep_view().take(0) =~= Seq::<Seq<char>>::empty());
    while i < parts.len()
        invariant
            i <= parts.len(),
            out@ == join(parts.deep_view().take(i as int), sep@),
        decreases parts.len() - i,
    {
        let ghost before = parts.deep_view().take(i as int);
        let ghost after = parts.deep_view().take(i + 1);
        assert(after.drop_last() =~= before);
        assert(after.last() == parts[i as int]@);
        if i > 0 {
            out.append(sep);
        } else {
            assert(out@ + parts[i as int]@ =~= parts[i as int]@);
        }
        out.append(parts[i].as_str());
        i += 1;
    }
    assert(parts.deep_view().take(parts.len() as int) =~= parts.deep_view());
    out
}

/// Owned copies of borrowed texts.
pub fn to_strings(texts: &[&str]) -> (out: Vec<String>)
    ensures
        out.deep_view() == texts.deep_view(),
{
    let mut out: Vec<String> = Vec::new();
    let mut i: usize = 0;
    while i < texts.len()
        invariant
            i <= texts.len(),
            out.deep_view() == texts.deep_view().take(i as int),
        decreases texts.len() - i,
    {
        let ghost before = out.deep_view();
        out.push(String::from_str(texts[i]));
        assert(out.deep_view() =~= before.push(texts[i as int]@));
        assert(texts.deep_view().take(i + 1) =~= before.push(texts[i as int]@));
        i += 1;
    }
    assert(texts.deep_view().take(texts.len() as int) =~= texts.deep_view());
    out
}

} // verus!
