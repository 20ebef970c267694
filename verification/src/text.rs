use vstd::prelude::*;

verus! {

broadcast use vstd::string::group_string_axioms;

/// The text of each string in a sequence of strings.
pub open spec fn texts(v: Seq<String>) -> Seq<Seq<char>> {
    v.map_values(|s: String| s@)
}

/// Calls `String::push`; its contract claims that afterwards the string
/// holds its former text followed by `c`.
#[verifier::external_body]
fn push_char(s: &mut String, c: char)
    ensures
        final(s)@ == old(s)@.push(c),
{
    s.push(c);
}

/// The characters of a string, in order.
pub fn chars_of(s: &str) -> (v: Vec<char>)
    ensures
        v@ == s@,
{
    let mut v: Vec<char> = Vec::new();
    for c in it: s.chars()
        invariant
            v@ == it.history(),
    {
        v.push(c);
    }
    assert(v@ =~= s@);
    v
}


/// A string cut at every `'\n'`: the pieces between the line feeds, in order.
/// There is always one piece more than there are line feeds.
pub open spec fn split_at_newlines(s: Seq<char>) -> Seq<Seq<char>>
    decreases s.len(),
{
    if s.len() == 0 {
        seq![Seq::<char>::empty()]
    } else {
        let pieces = split_at_newlines(s.drop_last());
        if s.last() == '\n' {
            pieces.push(Seq::<char>::empty())
        } else {
            pieces.update(pieces.len() - 1, pieces.last().push(s.last()))
        }
    }
}

/// A line without the `'\r'` of a `"\r\n"` line ending.
pub open spec fn strip_carriage_return(l: Seq<char>) -> Seq<char> {
    if l.len() > 0 && l.last() == '\r' {
        l.drop_last()
    } else {
        l
    }
}

/// The lines of a text, as `str::lines` yields them: the text is cut at each
/// `'\n'`, a `'\r'` just before a `'\n'` belongs to the line ending, and an
/// empty piece after the last `'\n'` is no line.
pub open spec fn text_lines(s: Seq<char>) -> Seq<Seq<char>> {
    let pieces = split_at_newlines(s);
    let ended = pieces.drop_last().map_values(|l: Seq<char>| strip_carriage_return(l));
    if pieces.last().len() == 0 {
        ended
    } else {
        ended.push(pieces.last())
    }
}

pub proof fn lemma_split_at_newlines_nonempty(s: Seq<char>)
    ensures
        split_at_newlines(s).len() >= 1,
    decreases s.len(),
{
    if s.len() > 0 {
        lemma_split_at_newlines_nonempty(s.drop_last());
    }
}

/// The characters `v[lo..hi]` as a string.
fn string_from_chars(v: &Vec<char>, lo: usize, hi: usize) -> (res: String)
    requires
        lo <= hi <= v.len(),
    ensures
        res@ == v@.subrange(lo as int, hi as int),
{
    let mut res = String::new();
    let mut i = lo;
    while i < hi
        invariant
            lo <= i <= hi <= v.len(),
            res@ == v@.subrange(lo as int, i as int),
        decreases hi - i,
    {
        push_char(&mut res, v[i]);
        assert(v@.subrange(lo as int, i + 1) =~= v@.subrange(lo as int, i as int).push(v@[i as int]));
        i = i + 1;
    }
    res
}

/// The lines of a text (`str::lines`).
pub fn split_lines(s: &str) -> (lines: Vec<String>)
    ensures
        texts(lines@) == text_lines(s@),
{
    let chars = chars_of(s);
    let mut lines: Vec<String> = Vec::new();
    let mut start: usize = 0;
    let mut i: usize = 0;
    assert(s@.take(0) =~= Seq::<char>::empty());
    while i < chars.len()
        invariant
            chars@ == s@,
            start <= i <= chars.len(),
            texts(lines@) == split_at_newlines(s@.take(i as int)).drop_last().map_values(
                |l: Seq<char>| strip_carriage_return(l),
            ),
            split_at_newlines(s@.take(i as int)).last() == s@.subrange(start as int, i as int),
        decreases chars.len() - i,
    {
        let ghost before = s@.take(i as int);
        let ghost pieces = split_at_newlines(before);
        proof {
            lemma_split_at_newlines_nonempty(before);
            assert(s@.take(i + 1).drop_last() =~= before);
        }
        let c = chars[i];
        if c == '\n' {
            let end = if i > start && chars[i - 1] == '\r' {
                i - 1
            } else {
                i
            };
            let line = string_from_chars(&chars, start, end);
            assert(line@ == strip_carriage_return(pieces.last())) by {
                if i > start && chars[i - 1] == '\r' {
                    assert(s@.subrange(start as int, i as int).drop_last() =~= s@.subrange(
                        start as int,
                        i - 1,
                    ));
                }
            }
            let ghost old_lines = lines@;
            lines.push(line);
            assert(texts(lines@) =~= texts(old_lines).push(line@));
            assert(pieces.map_values(|l: Seq<char>| strip_carriage_return(l)) =~= pieces.drop_last().map_values(
                |l: Seq<char>| strip_carriage_return(l),
            ).push(strip_carriage_return(pieces.last())));
            i = i + 1;
            start = i;
            assert(split_at_newlines(s@.take(i as int)) == pieces.push(Seq::<char>::empty()));
            assert(pieces.push(Seq::<char>::empty()).drop_last() =~= pieces);
            assert(texts(lines@) =~= split_at_newlines(s@.take(i as int)).drop_last().map_values(
                |l: Seq<char>| strip_carriage_return(l),
            ));
            assert(s@.subrange(start as int, i as int) =~= Seq::<char>::empty());
        } else {
            i = i + 1;
            let ghost after = split_at_newlines(s@.take(i as int));
            assert(after == pieces.update(pieces.len() - 1, pieces.last().push(c)));
            assert(after.drop_last() =~= pieces.drop_last());
            assert(s@.subrange(start as int, i as int) =~= pieces.last().push(c));
        }
    }
    assert(s@.take(i as int) =~= s@);
    proof {
        lemma_split_at_newlines_nonempty(s@);
    }
    if start < chars.len() {
        let last = string_from_chars(&chars, start, chars.len());
        lines.push(last);
        assert(texts(lines@) =~= text_lines(s@));
    } else {
        assert(texts(lines@) =~= text_lines(s@));
    }
    lines
}


/// The lines joined into one text, with `sep` between each two of them.
pub open spec fn join_lines(lines: Seq<Seq<char>>, sep: Seq<char>) -> Seq<char>
    decreases lines.len(),
{
    if lines.len() == 0 {
        Seq::<char>::empty()
    } else if lines.len() == 1 {
        lines[0]
    } else {
        join_lines(lines.drop_last(), sep) + sep + lines.last()
    }
}

/// Joins the lines with `sep` between each two of them (`[String]::join`).
pub fn join(lines: &Vec<String>, sep: &str) -> (res: String)
    ensures
        res@ == join_lines(texts(lines@), sep@),
{
    let mut res = String::new();
    let mut i: usize = 0;
    assert(texts(lines@).take(0) =~= Seq::<Seq<char>>::empty());
    while i < lines.len()
        invariant
            i <= lines.len(),
            res@ == join_lines(texts(lines@).take(i as int), sep@),
        decreases lines.len() - i,
    {
        let ghost done = texts(lines@).take(i as int);
        if i != 0 {
            res.append(sep);
        }
        res.append(lines[i].as_str());
        i = i + 1;
        assert(texts(lines@).take(i as int).drop_last() =~= done);
    }
    assert(texts(lines@).take(lines.len() as int) =~= texts(lines@));
    res
}

/// `open`, then `body`, then `close`, as one string.
pub fn enclose(open: &str, body: &str, close: &str) -> (res: String)
    ensures
        res@ == open@ + body@ + close@,
{
    let mut res = String::from_str(open);
    res.append(body);
    res.append(close);
    res
}

/// Whether two optional strings hold the same text, or are both absent.
pub fn option_string_eq(a: &Option<String>, b: &Option<String>) -> (r: bool)
    ensures
        r == (option_text(*a) == option_text(*b)),
{
    match (a, b) {
        (Some(x), Some(y)) => *x == *y,
        (None, None) => true,
        _ => false,
    }
}

/// The text of an optional string.
pub open spec fn option_text(o: Option<String>) -> Option<Seq<char>> {
    match o {
        Some(s) => Some(s@),
        None => None,
    }
}

/// Whether two lists of strings hold the same texts in the same order.
pub fn strings_eq(a: &Vec<String>, b: &Vec<String>) -> (r: bool)
    ensures
        r == (texts(a@) == texts(b@)),
{
    if a.len() != b.len() {
        assert(texts(a@).len() != texts(b@).len());
        return false;
    }
    let mut i: usize = 0;
    while i < a.len()
        invariant
            i <= a.len() == b.len(),
            forall|j: int| 0 <= j < i ==> a@[j]@ == b@[j]@,
        decreases a.len() - i,
    {
        if a[i] != b[i] {
            assert(texts(a@)[i as int] != texts(b@)[i as int]);
            return false;
        }
        i = i + 1;
    }
    assert(texts(a@) =~= texts(b@));
    true
}


/// A copy of a list of strings.
pub fn clone_strings(v: &Vec<String>) -> (res: Vec<String>)
    ensures
        texts(res@) == texts(v@),
{
    let mut res: Vec<String> = Vec::new();
    let mut i: usize = 0;
    while i < v.len()
        invariant
            i <= v.len(),
            texts(res@) == texts(v@).take(i as int),
        decreases v.len() - i,
    {
        let item = v[i].clone();
        let ghost before = res@;
        res.push(item);
        assert(texts(res@) =~= texts(before).push(item@));
        i = i + 1;
        assert(texts(res@) =~= texts(v@).take(i as int));
    }
    assert(texts(v@).take(v.len() as int) =~= texts(v@));
    res
}

/// A copy of an optional string.
pub fn clone_option_string(o: &Option<String>) -> (res: Option<String>)
    ensures
        option_text(res) == option_text(*o),
{
    match o {
        Some(s) => Some(s.clone()),
        None => None,
    }
}

} // verus!
