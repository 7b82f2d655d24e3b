//! Printing a value so that a shell reads it as one argument.

use vstd::prelude::*;

use crate::text::chars_of;

verus! {

/// One character inside single quotes: a single quote closes them, is given in
/// double quotes, and opens them again.
pub open spec fn escaped_char(c: char) -> Seq<char> {
    if c == '\'' {
        seq!['\'', '"', '\'', '"', '\'']
    } else {
        seq![c]
    }
}

pub open spec fn escaped(v: Seq<char>) -> Seq<char>
    decreases v.len(),
{
    if v.len() == 0 {
        Seq::empty()
    } else {
        escaped(v.drop_last()) + escaped_char(v.last())
    }
}

/// The value in single quotes.
pub open spec fn single_quoted(v: Seq<char>) -> Seq<char> {
    seq!['\''] + escaped(v) + seq!['\'']
}

/// Wraps a value so a shell reads it as one argument, whatever it contains.
pub fn shell_single_quote(value: &str) -> (r: String)
    ensures
        r@ == single_quoted(value@),
{
    let v = chars_of(value);
    let mut s = String::new();
    s.push('\'');
    proof {
        assert(s@ =~= seq!['\''] + escaped(value@.take(0)));
    }
    let mut i: usize = 0;
    while i < v.len()
        invariant
            i <= v@.len(),
            v@ == value@,
            s@ == seq!['\''] + escaped(value@.take(i as int)),
        decreases v@.len() - i,
    {
        let ghost before = s@;
        let c: char = v[i];
        if c == '\'' {
            s.push('\'');
            s.push('"');
            s.push('\'');
            s.push('"');
            s.push('\'');
        } else {
            s.push(c);
        }
        proof {
            assert(s@ =~= before + escaped_char(c));
            assert(value@.take(i + 1).drop_last() =~= value@.take(i as int));
            assert(value@.take(i + 1).last() == c);
            assert(s@ =~= seq!['\''] + escaped(value@.take(i + 1)));
        }
        i = i + 1;
    }
    s.push('\'');
    proof {
        assert(value@.take(value@.len() as int) =~= value@);
        assert(s@ =~= single_quoted(value@));
    }
    s
}

/// How a POSIX shell reads on: outside quotes, in single quotes, in double ones.
pub enum Quoting {
    Outside,
    Single,
    Double,
}

/// The one argument that a shell reads from a text made of nothing but quoted
/// parts set against each other; `None` where the text is anything else. Single
/// quotes keep every character; double quotes keep those a shell does not
/// expand.
pub open spec fn shell_word(s: Seq<char>, q: Quoting) -> Option<Seq<char>>
    decreases s.len(),
{
    if s.len() == 0 {
        if q is Outside {
            Some(Seq::empty())
        } else {
            None
        }
    } else {
        let c = s[0];
        let rest = s.skip(1);
        match q {
            Quoting::Outside => if c == '\'' {
                shell_word(rest, Quoting::Single)
            } else if c == '"' {
                shell_word(rest, Quoting::Double)
            } else {
                None
            },
            Quoting::Single => if c == '\'' {
                shell_word(rest, Quoting::Outside)
            } else {
                kept(c, shell_word(rest, Quoting::Single))
            },
            Quoting::Double => if c == '"' {
                shell_word(rest, Quoting::Outside)
            } else if c == '\\' || c == '$' || c == '`' {
                None
            } else {
                kept(c, shell_word(rest, Quoting::Double))
            },
        }
    }
}

pub open spec fn kept(c: char, rest: Option<Seq<char>>) -> Option<Seq<char>> {
    match rest {
        Some(r) => Some(seq![c] + r),
        None => None,
    }
}

proof fn lemma_escaped_first(v: Seq<char>)
    requires
        v.len() > 0,
    ensures
        escaped(v) == escaped_char(v[0]) + escaped(v.skip(1)),
    decreases v.len(),
{
    if v.len() == 1 {
        assert(v.drop_last() =~= Seq::<char>::empty());
        assert(v.skip(1) =~= Seq::<char>::empty());
        assert(escaped(v.drop_last()) =~= Seq::<char>::empty());
        assert(escaped(v) =~= escaped_char(v[0]) + escaped(v.skip(1)));
    } else {
        lemma_escaped_first(v.drop_last());
        assert(v.drop_last().skip(1) =~= v.skip(1).drop_last());
        assert(escaped(v) =~= escaped_char(v[0]) + (escaped(v.skip(1).drop_last()) + escaped_char(
            v.last(),
        )));
    }
}

proof fn lemma_inside(v: Seq<char>)
    ensures
        shell_word(escaped(v) + seq!['\''], Quoting::Single) == Some(v),
    decreases v.len(),
{
    let t = escaped(v) + seq!['\''];
    reveal_with_fuel(shell_word, 2);
    if v.len() == 0 {
        assert(t =~= seq!['\'']);
        assert(t.skip(1) =~= Seq::<char>::empty());
        assert(shell_word(t.skip(1), Quoting::Outside) == Some(Seq::<char>::empty()));
        assert(v =~= Seq::<char>::empty());
    } else {
        let rest = escaped(v.skip(1)) + seq!['\''];
        lemma_escaped_first(v);
        lemma_inside(v.skip(1));
        assert(seq![v[0]] + v.skip(1) =~= v);
        assert(t =~= escaped_char(v[0]) + rest);
        if v[0] == '\'' {
            let a = t.skip(1);
            let b = a.skip(1);
            let c = b.skip(1);
            let d = c.skip(1);
            assert(d.skip(1) =~= rest);
            assert(t[0] == '\'' && a[0] == '"' && b[0] == '\'' && c[0] == '"' && d[0] == '\'');
            assert(shell_word(d, Quoting::Outside) == shell_word(rest, Quoting::Single));
            assert(shell_word(c, Quoting::Double) == shell_word(d, Quoting::Outside));
            assert(shell_word(b, Quoting::Double) == kept('\'', shell_word(c, Quoting::Double)));
            assert(shell_word(a, Quoting::Outside) == shell_word(b, Quoting::Double));
            assert(shell_word(t, Quoting::Single) == shell_word(a, Quoting::Outside));
        } else {
            assert(t.skip(1) =~= rest);
        }
    }
}

/// Whatever a value contains, a shell reads its quoted form back as exactly that
/// value, as one argument.
pub proof fn a_quoted_value_is_one_argument(v: Seq<char>)
    ensures
        shell_word(single_quoted(v), Quoting::Outside) == Some(v),
{
    lemma_inside(v);
    assert(single_quoted(v).skip(1) =~= escaped(v) + seq!['\'']);
}

} // verus!
