use vstd::prelude::*;

verus! {

/// `s` with every line feed taken out, the other characters kept in order.
pub open spec fn without_newlines(s: Seq<char>) -> Seq<char>
    decreases s.len(),
{
    if s.len() == 0 {
        Seq::empty()
    } else if s.last() == '\n' {
        without_newlines(s.drop_last())
    } else {
        without_newlines(s.drop_last()).push(s.last())
    }
}

/// A text in which no line feed occurs.
pub open spec fn has_no_newline(s: Seq<char>) -> bool {
    forall|i: int| 0 <= i < s.len() ==> s[i] != '\n'
}

proof fn lemma_step_without_newlines(s: Seq<char>, i: int)
    requires
        0 <= i < s.len(),
    ensures
        s.subrange(0, i + 1).drop_last() == s.subrange(0, i),
        s.subrange(0, i + 1).last() == s[i],
        without_newlines(s.subrange(0, i + 1)) == if s[i] == '\n' {
            without_newlines(s.subrange(0, i))
        } else {
            without_newlines(s.subrange(0, i)).push(s[i])
        },
{
    assert(s.subrange(0, i + 1).drop_last() =~= s.subrange(0, i));
}

/// A text without line feeds is left as it is.
pub proof fn lemma_without_newlines_of_clean(s: Seq<char>)
    requires
        has_no_newline(s),
    ensures
        without_newlines(s) == s,
    decreases s.len(),
{
    if s.len() > 0 {
        lemma_without_newlines_of_clean(s.drop_last());
        assert(s.drop_last().push(s.last()) =~= s);
    }
}

/// Taking the line feeds out leaves none behind.
pub proof fn lemma_without_newlines_clean(s: Seq<char>)
    ensures
        has_no_newline(without_newlines(s)),
        without_newlines(s).len() <= s.len(),
    decreases s.len(),
{
    if s.len() > 0 {
        lemma_without_newlines_clean(s.drop_last());
    }
}

/// Taking the line feeds out twice is the same as taking them out once.
pub proof fn lemma_without_newlines_idempotent(s: Seq<char>)
    ensures
        without_newlines(without_newlines(s)) == without_newlines(s),
{
    lemma_without_newlines_clean(s);
    lemma_without_newlines_of_clean(without_newlines(s));
}

/// Removes every line feed from `text`, as `str::replace(text, "\n", "")` does.
pub fn strip_newlines(text: &str) -> (res: String)
    ensures
        res@ == without_newlines(text@),
{
    let n = text.unicode_len();
    let mut res = String::new();
    let mut start: usize = 0;
    let mut i: usize = 0;
    while i < n
        invariant
            n == text@.len(),
            start <= i <= n,
            res@ + text@.subrange(start as int, i as int) == without_newlines(
                text@.subrange(0, i as int),
            ),
        decreases n - i,
    {
        let c = text.get_char(i);
        proof {
            lemma_step_without_newlines(text@, i as int);
        }
        if c == '\n' {
            let seg = text.substring_char(start, i);
            res.append(seg);
            start = i + 1;
            assert(text@.subrange(start as int, start as int) =~= Seq::<char>::empty());
        } else {
            assert(text@.subrange(start as int, i + 1) =~= text@.subrange(
                start as int,
                i as int,
            ).push(c));
        }
        i = i + 1;
    }
    let tail = text.substring_char(start, n);
    res.append(tail);
    assert(text@.subrange(0, n as int) =~= text@);
    res
}

} // verus!
