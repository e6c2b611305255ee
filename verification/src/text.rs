//! Putting SQL text together.

use vstd::prelude::*;
use vstd::string::*;

verus! {

/// `text` with every single quote written twice.
pub open spec fn doubled(text: Seq<char>) -> Seq<char>
    decreases text.len(),
{
    if text.len() == 0 {
        Seq::empty()
    } else if text.last() == '\'' {
        doubled(text.drop_last()).push('\'').push('\'')
    } else {
        doubled(text.drop_last()).push(text.last())
    }
}

/// The parts one after the other, with `separator` between two of them.
pub open spec fn joined(parts: Seq<Seq<char>>, separator: Seq<char>) -> Seq<char>
    decreases parts.len(),
{
    if parts.len() == 0 {
        Seq::empty()
    } else if parts.len() == 1 {
        parts[0]
    } else {
        joined(parts.drop_last(), separator) + separator + parts.last()
    }
}

/// The texts that the strings hold.
pub open spec fn texts(parts: Seq<String>) -> Seq<Seq<char>> {
    parts.map_values(|part: String| part@)
}

/// Writes every single quote of `text` twice.
pub fn double_quotes(text: &str) -> (escaped: String)
    ensures
        escaped@ == doubled(text@),
{
    let length: usize = text.unicode_len();
    let mut escaped = String::new();
    let mut copied: usize = 0;
    let mut seen: usize = 0;
    assert(text@.take(0) =~= Seq::empty());
    for c in iter: text.chars()
        invariant
            iter.seq() == text@,
            length == text@.len(),
            seen == iter.index(),
            copied <= seen <= length,
            doubled(text@.take(seen as int)) == escaped@ + text@.subrange(
                copied as int,
                seen as int,
            ),
    {
        let ghost before = text@.subrange(copied as int, seen as int);
        assert(text@.take(seen + 1).drop_last() =~= text@.take(seen as int));
        assert(text@.subrange(copied as int, seen + 1) =~= before.push(c));
        seen = seen + 1;
        if c == '\'' {
            escaped.append(text.substring_char(copied, seen));
            escaped.append("'");
            copied = seen;
            proof {
                reveal_strlit("'");
            }
            assert(text@.subrange(copied as int, seen as int) =~= Seq::empty());
        }
        assert(doubled(text@.take(seen as int)) =~= escaped@ + text@.subrange(
            copied as int,
            seen as int,
        ));
    }
    escaped.append(text.substring_char(copied, length));
    assert(text@.take(length as int) =~= text@);
    escaped
}

/// Puts the parts one after the other, with `separator` between two of them.
pub fn join(parts: &Vec<String>, separator: &str) -> (text: String)
    ensures
        text@ == joined(texts(parts@), separator@),
{
    let mut text = String::new();
    let mut i: usize = 0;
    while i < parts.len()
        invariant
            i <= parts.len(),
            text@ == joined(texts(parts@).take(i as int), separator@),
        decreases parts.len() - i,
    {
        let ghost before = texts(parts@).take(i as int);
        let ghost after = texts(parts@).take(i + 1);
        assert(after.drop_last() =~= before);
        if i > 0 {
            text.append(separator);
        }
        text.append(parts[i].as_str());
        i = i + 1;
        assert(text@ =~= joined(after, separator@));
    }
    assert(texts(parts@).take(parts@.len() as int) =~= texts(parts@));
    text
}

/// Reads the rest of an SQL string literal behind its opening quote: the text
/// that it stands for and what follows its closing quote. A quote written
/// twice stands for one quote; any other quote closes the literal.
pub open spec fn read_literal(sql: Seq<char>) -> Option<(Seq<char>, Seq<char>)>
    decreases sql.len(),
{
    if sql.len() == 0 {
        None
    } else if sql[0] != '\'' {
        match read_literal(sql.skip(1)) {
            Some((text, rest)) => Some((seq![sql[0]] + text, rest)),
            None => None,
        }
    } else if sql.len() > 1 && sql[1] == '\'' {
        match read_literal(sql.skip(2)) {
            Some((text, rest)) => Some((seq!['\''] + text, rest)),
            None => None,
        }
    } else {
        Some((Seq::empty(), sql.skip(1)))
    }
}

proof fn doubled_from_front(text: Seq<char>)
    requires
        text.len() > 0,
    ensures
        doubled(text) == doubled(seq![text[0]]) + doubled(text.skip(1)),
    decreases text.len(),
{
    if text.len() == 1 {
        assert(text =~= seq![text[0]]);
        assert(text.skip(1) =~= Seq::empty());
    } else {
        doubled_from_front(text.drop_last());
        assert(text.drop_last().skip(1) =~= text.skip(1).drop_last());
        assert(doubled(text) =~= doubled(seq![text[0]]) + doubled(text.skip(1)));
    }
}

/// A text put between quotes with its own quotes doubled is read back as that
/// text, and the literal ends where it was meant to end: no text reaches past
/// its closing quote into the SQL that follows.
pub proof fn literal_reads_back(text: Seq<char>, rest: Seq<char>)
    requires
        rest.len() == 0 || rest[0] != '\'',
    ensures
        read_literal(doubled(text) + seq!['\''] + rest) == Some((text, rest)),
    decreases text.len(),
{
    let sql = doubled(text) + seq!['\''] + rest;
    if text.len() == 0 {
        assert(sql.skip(1) =~= rest);
    } else {
        doubled_from_front(text);
        literal_reads_back(text.skip(1), rest);
        let first = seq![text[0]];
        let inner = doubled(text.skip(1)) + seq!['\''] + rest;
        assert(first.drop_last() =~= Seq::empty());
        assert(doubled(first) =~= if text[0] == '\'' {
            seq!['\'', '\'']
        } else {
            first
        }) by {
            reveal_with_fuel(doubled, 2);
        }
        assert(sql =~= doubled(first) + inner);
        if text[0] == '\'' {
            assert(sql.skip(2) =~= inner);
        } else {
            assert(sql.skip(1) =~= inner);
        }
        assert(first + text.skip(1) =~= text);
    }
}

/// Two different texts never turn into the same escaped text.
pub proof fn doubled_is_injective(a: Seq<char>, b: Seq<char>)
    requires
        doubled(a) == doubled(b),
    ensures
        a == b,
{
    literal_reads_back(a, Seq::empty());
    literal_reads_back(b, Seq::empty());
}

/// Escaping goes character by character: a quote adds two quotes, and any
/// other character adds itself.
pub proof fn doubled_by_character(text: Seq<char>, c: char)
    ensures
        doubled(Seq::empty()) == Seq::<char>::empty(),
        c == '\'' ==> doubled(text.push(c)) == doubled(text) + seq!['\'', '\''],
        c != '\'' ==> doubled(text.push(c)) == doubled(text) + seq![c],
{
    assert(text.push(c).drop_last() =~= text);
    assert(doubled(text.push(c)) =~= doubled(text) + if c == '\'' {
        seq!['\'', '\'']
    } else {
        seq![c]
    });
}

/// A text without quotes is left as it is.
pub proof fn doubled_without_quotes(text: Seq<char>)
    requires
        forall|i: int| 0 <= i < text.len() ==> text[i] != '\'',
    ensures
        doubled(text) == text,
    decreases text.len(),
{
    if text.len() > 0 {
        doubled_without_quotes(text.drop_last());
        assert(text.drop_last().push(text.last()) =~= text);
    } else {
        assert(text =~= Seq::empty());
    }
}

/// Joining goes part by part: no part gives no text, one part is itself, and
/// each further part comes behind a separator.
pub proof fn joined_by_part(parts: Seq<Seq<char>>, part: Seq<char>, separator: Seq<char>)
    ensures
        joined(Seq::empty(), separator) == Seq::<char>::empty(),
        joined(seq![part], separator) == part,
        parts.len() > 0 ==> joined(parts.push(part), separator) == joined(parts, separator)
            + separator + part,
{
    assert(parts.push(part).drop_last() =~= parts);
}

/// The texts of strings are the characters of each, in their order.
pub proof fn texts_are_the_strings(parts: Seq<String>)
    ensures
        texts(parts).len() == parts.len(),
        forall|i: int| 0 <= i < parts.len() ==> #[trigger] texts(parts)[i] == parts[i]@,
{
}

} // verus!
