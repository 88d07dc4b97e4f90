use vstd::prelude::*;
use vstd::std_specs::iter::IteratorSpec;
use vstd::string::*;

verus! {

/// The character sequences of a sequence of strings, in order.
pub open spec fn texts_of(parts: Seq<String>) -> Seq<Seq<char>> {
    Seq::new(parts.len(), |i: int| parts[i]@)
}

/// `parts` written one after the other with `sep` between neighbours.
pub open spec fn join(parts: Seq<Seq<char>>, sep: Seq<char>) -> Seq<char>
    decreases parts.len(),
{
    if parts.len() == 0 {
        Seq::empty()
    } else if parts.len() == 1 {
        parts[0]
    } else {
        join(parts.drop_last(), sep) + sep + parts.last()
    }
}

/// Joining one more part appends the separator and the part, unless it is the first.
pub proof fn lemma_join_push(parts: Seq<Seq<char>>, sep: Seq<char>, part: Seq<char>)
    ensures
        join(parts.push(part), sep) == if parts.len() == 0 {
            part
        } else {
            join(parts, sep) + sep + part
        },
{
    let longer = parts.push(part);
    assert(longer.drop_last() =~= parts);
    assert(longer.last() == part);
    if parts.len() == 0 {
        assert(longer[0] == part);
    }
}

/// Joins the strings of `parts`, putting `sep` between neighbours.
pub fn join_strings(parts: &Vec<String>, sep: &str) -> (out: String)
    ensures
        out@ == join(texts_of(parts@), sep@),
{
    let mut out = String::new();
    let mut i: usize = 0;
    while i < parts.len()
        invariant
            i <= parts.len(),
            out@ == join(texts_of(parts@).take(i as int), sep@),
        decreases parts.len() - i,
    {
        proof {
            let all = texts_of(parts@);
            lemma_join_push(all.take(i as int), sep@, all[i as int]);
            assert(all.take(i as int).push(all[i as int]) =~= all.take(i as int + 1));
            assert(Seq::<char>::empty() + all[i as int] =~= all[i as int]);
        }
        if i > 0 {
            out.append(sep);
        }
        out.append(parts[i].as_str());
        i = i + 1;
    }
    proof {
        assert(texts_of(parts@).take(parts.len() as int) =~= texts_of(parts@));
    }
    out
}

/// Where the first line of `text` ends: the index of its first line feed, or
/// its length where it has none.
pub open spec fn first_break(text: Seq<char>) -> int
    decreases text.len(),
{
    if text.len() == 0 || text[0] == '\n' {
        0
    } else {
        1 + first_break(text.skip(1))
    }
}

/// Where the content of a line ends whose line feed, if it has one, is at
/// `at`: a carriage return just before a line feed belongs to the line's end.
pub open spec fn line_end(text: Seq<char>, at: int) -> int {
    if 0 < at < text.len() && text[at - 1] == '\r' {
        at - 1
    } else {
        at
    }
}

/// `text` with each of its lines indented by four spaces and ended by a line
/// feed.
///
/// A line ends at a line feed, or at a carriage return followed by one; the
/// last line need not be ended. An empty text has no lines.
pub open spec fn indented(text: Seq<char>) -> Seq<char>
    decreases text.len(),
{
    if text.len() == 0 {
        Seq::empty()
    } else {
        let at = first_break(text);
        let line = text.subrange(0, line_end(text, at));
        if 0 <= at < text.len() {
            "    "@ + line + "\n"@ + indented(text.skip(at + 1))
        } else {
            "    "@ + line + "\n"@
        }
    }
}

/// The texts of `parts`, each indented line by line, one after the other.
pub open spec fn indented_all(parts: Seq<Seq<char>>) -> Seq<char>
    decreases parts.len(),
{
    if parts.len() == 0 {
        Seq::empty()
    } else {
        indented_all(parts.drop_last()) + indented(parts.last())
    }
}

/// The first line of a text ends at `n` if no line feed comes before `n` and
/// the text ends or has a line feed there.
pub proof fn lemma_first_break(text: Seq<char>, n: int)
    requires
        0 <= n <= text.len(),
        forall|j: int| 0 <= j < n ==> text[j] != '\n',
        n == text.len() || text[n] == '\n',
    ensures
        first_break(text) == n,
    decreases n,
{
    if n > 0 {
        let rest = text.skip(1);
        assert forall|j: int| 0 <= j < n - 1 implies rest[j] != '\n' by {
            assert(rest[j] == text[j + 1]);
        }
        lemma_first_break(rest, n - 1);
    }
}

/// Indents each line of `text` by four spaces and ends it with a line feed.
pub fn indent_lines(text: &str) -> (out: String)
    ensures
        out@ == indented(text@),
{
    broadcast use {next_postcondition, axiom_spec_iter};

    let n = text.unicode_len();
    let mut out = String::new();
    let mut chars = text.chars();
    let mut start: usize = 0;
    let mut i: usize = 0;
    let mut after_cr = false;
    assert(text@.skip(0) =~= text@);
    assert(Seq::<char>::empty() + indented(text@) =~= indented(text@));
    while i < n
        invariant
            n == text@.len(),
            start <= i <= n,
            chars.remaining() == text@.skip(i as int),
            forall|j: int| start <= j < i ==> text@[j] != '\n',
            after_cr == (i > start && text@[i - 1] == '\r'),
            out@ + indented(text@.skip(start as int)) == indented(text@),
        decreases n - i,
    {
        let ghost line_text = text@.skip(start as int);
        match chars.next() {
            None => {},
            Some(c) => {
                assert(c == text@[i as int]);
                assert(chars.remaining() =~= text@.skip(i as int + 1));
                if c == '\n' {
                    let end = if after_cr {
                        i - 1
                    } else {
                        i
                    };
                    let line = text.substring_char(start, end);
                    proof {
                        lemma_first_break(line_text, i - start);
                        assert(line_end(line_text, i - start) == end - start);
                        assert(line_text.subrange(0, end - start) =~= line@);
                        assert(line_text.skip(i - start + 1) =~= text@.skip(i as int + 1));
                        assert(out@ + "    "@ + line@ + "\n"@ + indented(text@.skip(i as int + 1))
                            =~= out@ + indented(line_text));
                    }
                    out.append("    ");
                    out.append(line);
                    out.append("\n");
                    start = i + 1;
                    after_cr = false;
                } else {
                    after_cr = c == '\r';
                }
            },
        }
        i = i + 1;
    }
    if start < n {
        let line = text.substring_char(start, n);
        proof {
            let line_text = text@.skip(start as int);
            lemma_first_break(line_text, n - start);
            assert(line_text.subrange(0, n - start) =~= line@);
            assert(out@ + "    "@ + line@ + "\n"@ =~= out@ + indented(line_text));
        }
        out.append("    ");
        out.append(line);
        out.append("\n");
    } else {
        assert(text@.skip(start as int) =~= Seq::<char>::empty());
        assert(out@ + Seq::<char>::empty() =~= out@);
    }
    out
}

/// Indents each text of `parts` line by line and writes them one after the
/// other.
pub fn indent_all(parts: &Vec<String>) -> (out: String)
    ensures
        out@ == indented_all(texts_of(parts@)),
{
    let mut out = String::new();
    let mut i: usize = 0;
    while i < parts.len()
        invariant
            i <= parts.len(),
            out@ == indented_all(texts_of(parts@).take(i as int)),
        decreases parts.len() - i,
    {
        proof {
            let all = texts_of(parts@);
            assert(all.take(i as int + 1).drop_last() =~= all.take(i as int));
            assert(all.take(i as int + 1).last() == parts@[i as int]@);
        }
        let block = indent_lines(parts[i].as_str());
        out.append(block.as_str());
        i = i + 1;
    }
    proof {
        assert(texts_of(parts@).take(parts.len() as int) =~= texts_of(parts@));
    }
    out
}

} // verus!
