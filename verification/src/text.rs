//! Text framing shared by the message codecs: fields separated by `'|'`,
//! UTF-8 conversion between text and wire bytes, and small string builders.
use vstd::prelude::*;
use vstd::string::*;
use vstd::utf8::*;

verus! {

/// The character that separates the fields of a message on the wire.
pub open spec fn bar() -> char {
    '|'
}

/// True when `s` holds no field separator.
pub open spec fn bar_free(s: Seq<char>) -> bool {
    !s.contains(bar())
}

/// The pieces of `s` when it is cut at every `sep`, as `str::split(sep)` yields them.
/// There is always at least one piece.
pub open spec fn split_on(s: Seq<char>, sep: char) -> Seq<Seq<char>>
    decreases s.len(),
{
    if s.len() == 0 {
        seq![Seq::<char>::empty()]
    } else {
        let prev = split_on(s.drop_last(), sep);
        if s.last() == sep {
            prev.push(Seq::<char>::empty())
        } else {
            prev.update(prev.len() - 1, prev.last().push(s.last()))
        }
    }
}

/// Text that holds the separator is cut into at least two pieces.
pub proof fn lemma_split_on_contains(s: Seq<char>, sep: char)
    requires
        s.contains(sep),
    ensures
        split_on(s, sep).len() >= 2,
    decreases s.len(),
{
    lemma_split_on_nonempty(s.drop_last(), sep);
    if s.last() != sep {
        assert(s.drop_last().contains(sep)) by {
            let k = choose|k: int| 0 <= k < s.len() && s[k] == sep;
            assert(k < s.len() - 1);
            assert(s.drop_last()[k] == sep);
        }
        lemma_split_on_contains(s.drop_last(), sep);
    }
}

/// The fields of `s` when it is cut at every `'|'`.
pub open spec fn split_fields(s: Seq<char>) -> Seq<Seq<char>> {
    split_on(s, bar())
}

pub proof fn lemma_split_on_nonempty(s: Seq<char>, sep: char)
    ensures
        split_on(s, sep).len() >= 1,
    decreases s.len(),
{
    if s.len() > 0 {
        lemma_split_on_nonempty(s.drop_last(), sep);
    }
}

/// The fields written one after the other with a `'|'` between two neighbours.
pub open spec fn join_fields(fields: Seq<Seq<char>>) -> Seq<char>
    decreases fields.len(),
{
    if fields.len() == 0 {
        Seq::<char>::empty()
    } else if fields.len() == 1 {
        fields[0]
    } else {
        join_fields(fields.drop_last()) + seq![bar()] + fields.last()
    }
}

/// The concatenation of all fields, with nothing between them.
pub open spec fn concat_fields(fields: Seq<Seq<char>>) -> Seq<char>
    decreases fields.len(),
{
    if fields.len() == 0 {
        Seq::<char>::empty()
    } else {
        concat_fields(fields.drop_last()) + fields.last()
    }
}

pub proof fn lemma_split_nonempty(s: Seq<char>)
    ensures
        split_fields(s).len() >= 1,
{
    lemma_split_on_nonempty(s, bar());
}

/// Appending separator-free text extends the last field.
pub proof fn lemma_split_append_free(s: Seq<char>, t: Seq<char>)
    requires
        bar_free(t),
    ensures
        split_fields(s + t).len() == split_fields(s).len(),
        split_fields(s + t) == split_fields(s).update(
            split_fields(s).len() - 1,
            split_fields(s).last() + t,
        ),
    decreases t.len(),
{
    lemma_split_nonempty(s);
    if t.len() == 0 {
        assert(s + t =~= s);
        assert(split_fields(s).last() + t =~= split_fields(s).last());
        assert(split_fields(s).update(split_fields(s).len() - 1, split_fields(s).last())
            =~= split_fields(s));
    } else {
        let t0 = t.drop_last();
        assert(!t0.contains(bar())) by {
            if t0.contains(bar()) {
                let k = choose|k: int| 0 <= k < t0.len() && t0[k] == bar();
                assert(t[k] == bar());
            }
        }
        lemma_split_append_free(s, t0);
        assert((s + t).drop_last() =~= s + t0);
        assert((s + t).last() == t.last());
        assert(t.last() != bar()) by {
            assert(t[t.len() - 1] == t.last());
        }
        lemma_split_nonempty(s + t0);
        assert(split_fields(s).last() + t0 + seq![t.last()] =~= split_fields(s).last() + t);
        assert((split_fields(s).last() + t0).push(t.last()) =~= split_fields(s).last() + t);
        assert(split_fields(s + t) =~= split_fields(s).update(
            split_fields(s).len() - 1,
            split_fields(s).last() + t,
        ));
    }
}

/// Splitting undoes joining, as long as no field holds a separator.
pub proof fn lemma_split_join(fields: Seq<Seq<char>>)
    requires
        fields.len() >= 1,
        forall|i: int| 0 <= i < fields.len() ==> bar_free(#[trigger] fields[i]),
    ensures
        split_fields(join_fields(fields)) == fields,
    decreases fields.len(),
{
    if fields.len() == 1 {
        let f = fields[0];
        lemma_split_append_free(Seq::<char>::empty(), f);
        assert(Seq::<char>::empty() + f =~= f);
        assert(split_fields(Seq::<char>::empty()) =~= seq![Seq::<char>::empty()]);
        assert(seq![Seq::<char>::empty()].update(0, Seq::<char>::empty() + f) =~= fields);
    } else {
        let init = fields.drop_last();
        let f = fields.last();
        assert(forall|i: int| 0 <= i < init.len() ==> bar_free(#[trigger] init[i])) by {
            assert forall|i: int| 0 <= i < init.len() implies bar_free(#[trigger] init[i]) by {
                assert(init[i] == fields[i]);
            }
        }
        lemma_split_join(init);
        let j = join_fields(init);
        let js = j + seq![bar()];
        assert(js.drop_last() =~= j);
        assert(split_fields(js) == split_fields(j).push(Seq::<char>::empty()));
        assert(bar_free(f)) by {
            assert(fields[fields.len() - 1] == f);
        }
        lemma_split_append_free(js, f);
        assert(Seq::<char>::empty() + f =~= f);
        assert(split_fields(js + f) =~= fields);
    }
}

/// Splitting the concatenation of a prefix that ends in a separator and some text.
pub proof fn lemma_split_after_bar(s: Seq<char>, t: Seq<char>)
    ensures
        split_fields(s + seq![bar()] + t) == split_fields(s) + split_fields(t),
    decreases t.len(),
{
    lemma_split_nonempty(s);
    lemma_split_nonempty(t);
    let sb = s + seq![bar()];
    assert(sb.drop_last() =~= s);
    if t.len() == 0 {
        assert(sb + t =~= sb);
        assert(split_fields(sb) =~= split_fields(s) + split_fields(t));
    } else {
        lemma_split_after_bar(s, t.drop_last());
        assert((sb + t).drop_last() =~= sb + t.drop_last());
        assert((sb + t).last() == t.last());
        let p = split_fields(s);
        let q = split_fields(t.drop_last());
        lemma_split_nonempty(t.drop_last());
        if t.last() == bar() {
            assert((p + q).push(Seq::<char>::empty()) =~= p + q.push(Seq::<char>::empty()));
        } else {
            assert((p + q).update((p + q).len() - 1, (p + q).last().push(t.last())) =~= p + q.update(
                q.len() - 1,
                q.last().push(t.last()),
            ));
        }
    }
}

/// Splitting text that holds no separator gives that text as the only field.
pub proof fn lemma_split_free(s: Seq<char>)
    requires
        bar_free(s),
    ensures
        split_fields(s) == seq![s],
{
    lemma_split_append_free(Seq::<char>::empty(), s);
    assert(Seq::<char>::empty() + s =~= s);
    assert(seq![Seq::<char>::empty()].update(0, Seq::<char>::empty() + s) =~= seq![s]);
}

/// Joining the fields of a split gives the text back.
pub proof fn lemma_join_split(s: Seq<char>)
    ensures
        join_fields(split_fields(s)) == s,
    decreases s.len(),
{
    if s.len() > 0 {
        lemma_join_split(s.drop_last());
        lemma_split_nonempty(s.drop_last());
        let p = split_fields(s.drop_last());
        if s.last() == bar() {
            assert(p.push(Seq::<char>::empty()).drop_last() =~= p);
            assert(join_fields(p.push(Seq::<char>::empty())) =~= s);
        } else {
            let q = p.update(p.len() - 1, p.last().push(s.last()));
            if p.len() == 1 {
                assert(q[0] =~= s);
            } else {
                assert(q.drop_last() =~= p.drop_last());
                assert(join_fields(q) =~= join_fields(p) + seq![s.last()]);
                assert(join_fields(q) =~= s);
            }
        }
    }
}

/// The text that `String::from_utf8_lossy` makes of a byte sequence.
pub uninterp spec fn lossy_utf8_text(bytes: Seq<u8>) -> Seq<char>;

/// Calls `String::from_utf8_lossy`. Its documentation says that bytes that are
/// valid UTF-8 come back as the text they encode; other bytes get replacement
/// characters, which is left to the name `lossy_utf8_text`.
#[verifier::external_body]
pub fn text_from_bytes_lossy(bytes: &[u8]) -> (res: String)
    ensures
        res@ == lossy_utf8_text(bytes@),
        valid_utf8(bytes@) ==> res@ == decode_utf8(bytes@),
{
    String::from_utf8_lossy(bytes).into_owned()
}

/// Calls `String::from_utf8`, which accepts exactly the valid UTF-8 byte sequences
/// and then returns the text they encode.
#[verifier::external_body]
pub fn text_from_bytes(bytes: Vec<u8>) -> (res: Option<String>)
    ensures
        res is Some <==> valid_utf8(bytes@),
        res matches Some(s) ==> s@ == decode_utf8(bytes@),
{
    match String::from_utf8(bytes) {
        Ok(s) => Some(s),
        Err(_) => None,
    }
}

/// Calls `String::push`, which appends one character.
#[verifier::external_body]
pub fn push_char(s: &mut String, c: char)
    ensures
        final(s)@ == old(s)@.push(c),
{
    s.push(c);
}

/// Appends `other` to `s`.
pub fn push_str(s: &mut String, other: &str)
    ensures
        final(s)@ == old(s)@ + other@,
{
    s.append(other);
}

/// The UTF-8 bytes of a text, as `str::as_bytes` gives them.
pub fn text_bytes(s: &str) -> (res: Vec<u8>)
    ensures
        res@ == encode_utf8(s@),
{
    s.as_bytes_vec()
}

/// Compares two texts character by character.
pub fn text_eq(a: &str, b: &str) -> (res: bool)
    ensures
        res == (a@ == b@),
{
    let n = a.unicode_len();
    let m = b.unicode_len();
    if n != m {
        return false;
    }
    let mut i: usize = 0;
    while i < n
        invariant
            n == a@.len(),
            m == b@.len(),
            n == m,
            i <= n,
            forall|j: int| 0 <= j < i ==> a@[j] == b@[j],
        decreases n - i,
    {
        if a.get_char(i) != b.get_char(i) {
            return false;
        }
        i = i + 1;
    }
    assert(a@ =~= b@);
    true
}

/// An owned copy of `s`.
pub fn owned(s: &str) -> (res: String)
    ensures
        res@ == s@,
{
    s.to_owned()
}

/// Cuts `s` at every `sep`, as `str::split(sep)` does.
pub fn split_char(s: &str, sep: char) -> (res: Vec<String>)
    ensures
        res@.len() == split_on(s@, sep).len(),
        forall|i: int| 0 <= i < res@.len() ==> #[trigger] res@[i]@ == split_on(s@, sep)[i],
{
    let n = s.unicode_len();
    let mut out: Vec<String> = Vec::new();
    let mut start: usize = 0;
    let mut i: usize = 0;
    proof {
        assert(s@.take(0) =~= Seq::<char>::empty());
    }
    while i < n
        invariant
            n == s@.len(),
            start <= i <= n,
            out@.len() + 1 == split_on(s@.take(i as int), sep).len(),
            forall|k: int| 0 <= k < out@.len() ==> #[trigger] out@[k]@ == split_on(s@.take(i as int), sep)[k],
            split_on(s@.take(i as int), sep).last() == s@.subrange(start as int, i as int),
        decreases n - i,
    {
        let c = s.get_char(i);
        let ghost prev = split_on(s@.take(i as int), sep);
        proof {
            lemma_split_on_nonempty(s@.take(i as int), sep);
            assert(s@.take(i + 1).drop_last() =~= s@.take(i as int));
            assert(s@.take(i + 1).last() == c);
        }
        if c == sep {
            let piece = s.substring_char(start, i);
            out.push(piece.to_owned());
            start = i + 1;
            i = i + 1;
            proof {
                assert(s@.subrange(start as int, i as int) =~= Seq::<char>::empty());
                assert(split_on(s@.take(i as int), sep) == prev.push(Seq::<char>::empty()));
            }
        } else {
            i = i + 1;
            proof {
                assert(s@.subrange(start as int, i as int) =~= s@.subrange(
                    start as int,
                    i - 1,
                ).push(c));
            }
        }
    }
    let last = s.substring_char(start, n);
    out.push(last.to_owned());
    proof {
        assert(s@.take(n as int) =~= s@);
        assert(out@.len() == split_on(s@, sep).len());
    }
    out
}

/// Cuts `s` at every `'|'`, as `str::split('|')` does.
pub fn split_bars(s: &str) -> (res: Vec<String>)
    ensures
        res@.len() == split_fields(s@).len(),
        forall|i: int| 0 <= i < res@.len() ==> #[trigger] res@[i]@ == split_fields(s@)[i],
{
    split_char(s, '|')
}

/// Whether `t` occurs in `s` as a run of consecutive characters.
pub open spec fn has_substring(s: Seq<char>, t: Seq<char>) -> bool {
    exists|i: int| 0 <= i && i + t.len() <= s.len() && #[trigger] s.subrange(i, i + t.len()) == t
}

/// Whether `t` occurs in `s`, as `str::contains` with a text pattern decides.
pub fn text_contains_str(s: &str, t: &str) -> (res: bool)
    ensures
        res == has_substring(s@, t@),
{
    let n = s.unicode_len();
    let m = t.unicode_len();
    if m > n {
        proof {
            assert forall|i: int| 0 <= i && i + t@.len() <= s@.len() implies #[trigger] s@.subrange(i, i + t@.len()) != t@ by {}
        }
        return false;
    }
    let mut i: usize = 0;
    while i <= n - m
        invariant
            n == s@.len(),
            m == t@.len(),
            m <= n,
            i <= n - m + 1,
            forall|k: int| 0 <= k < i ==> #[trigger] s@.subrange(k, k + m) != t@,
        decreases n - i,
    {
        let mut j: usize = 0;
        let mut same = true;
        while j < m
            invariant
                n == s@.len(),
                m == t@.len(),
                i + m <= n,
                j <= m,
                same == (forall|q: int| 0 <= q < j ==> s@[i + q] == t@[q]),
            decreases m - j,
        {
            if s.get_char(i + j) != t.get_char(j) {
                same = false;
            }
            j = j + 1;
        }
        if same {
            proof {
                assert(s@.subrange(i as int, i + m) =~= t@);
            }
            return true;
        }
        proof {
            assert(s@.subrange(i as int, i + m) != t@) by {
                let q = choose|q: int| 0 <= q < m && s@[i + q] != t@[q];
                assert(s@.subrange(i as int, i + m)[q] == s@[i + q]);
            }
        }
        i = i + 1;
    }
    proof {
        assert forall|k: int| 0 <= k && k + t@.len() <= s@.len() implies #[trigger] s@.subrange(k, k + t@.len()) != t@ by {
            assert(k < i);
        }
    }
    false
}

/// The lines written one after the other with a newline between two neighbours, as
/// `join("\n")` writes them.
pub open spec fn join_lines(lines: Seq<Seq<char>>) -> Seq<char>
    decreases lines.len(),
{
    if lines.len() == 0 {
        Seq::<char>::empty()
    } else if lines.len() == 1 {
        lines[0]
    } else {
        join_lines(lines.drop_last()) + seq!['\n'] + lines.last()
    }
}

/// The texts of `lines` joined with newlines.
pub fn join_newline(lines: &Vec<String>) -> (res: String)
    ensures
        res@ == join_lines(lines@.map_values(|x: String| x@)),
{
    let ghost views = lines@.map_values(|x: String| x@);
    let mut s = String::new();
    let mut i: usize = 0;
    while i < lines.len()
        invariant
            i <= lines@.len(),
            views == lines@.map_values(|x: String| x@),
            s@ == join_lines(views.take(i as int)),
        decreases lines.len() - i,
    {
        proof {
            assert(views.take(i + 1).drop_last() =~= views.take(i as int));
            assert(views.take(i + 1).last() == lines@[i as int]@);
        }
        if i > 0 {
            push_char(&mut s, '\n');
        } else {
            proof {
                assert(s@ =~= Seq::<char>::empty());
            }
        }
        push_str(&mut s, lines[i].as_str());
        i = i + 1;
    }
    proof {
        assert(views.take(lines@.len() as int) =~= views);
    }
    s
}

/// The texts of `parts` one after the other, as `concat()` writes them.
pub fn concat_texts(parts: &Vec<String>) -> (res: String)
    ensures
        res@ == concat_fields(parts@.map_values(|x: String| x@)),
{
    let ghost views = parts@.map_values(|x: String| x@);
    let mut s = String::new();
    let mut i: usize = 0;
    while i < parts.len()
        invariant
            i <= parts@.len(),
            views == parts@.map_values(|x: String| x@),
            s@ == concat_fields(views.take(i as int)),
        decreases parts.len() - i,
    {
        proof {
            assert(views.take(i + 1).drop_last() =~= views.take(i as int));
            assert(views.take(i + 1).last() == parts@[i as int]@);
        }
        push_str(&mut s, parts[i].as_str());
        i = i + 1;
    }
    proof {
        assert(views.take(parts@.len() as int) =~= views);
    }
    s
}

} // verus!
