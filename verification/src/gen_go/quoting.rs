//! Strings written out as Go reads them: between double quotes, with a
//! backslash before what would end the string or break the line.

use vstd::prelude::*;

verus! {

/// How one character stands inside a Go string: the backslash, the double
/// quote, the line feed, the carriage return and the tab are written as an
/// escape of two characters, every other character as itself.
pub open spec fn escape_char(c: char) -> Seq<char> {
    if c == '\\' {
        seq!['\\', '\\']
    } else if c == '"' {
        seq!['\\', '"']
    } else if c == '\n' {
        seq!['\\', 'n']
    } else if c == '\r' {
        seq!['\\', 'r']
    } else if c == '\t' {
        seq!['\\', 't']
    } else {
        seq![c]
    }
}

/// The characters of a string as they stand inside a Go string.
pub open spec fn escaped(s: Seq<char>) -> Seq<char>
    decreases s.len(),
{
    if s.len() == 0 {
        Seq::empty()
    } else {
        escape_char(s[0]) + escaped(s.drop_first())
    }
}

/// A string as a Go constant.
pub open spec fn quoted(s: Seq<char>) -> Seq<char> {
    seq!['"'] + escaped(s) + seq!['"']
}

/// The character that Go reads from the character behind a backslash.
pub open spec fn unescape_char(c: char) -> char {
    if c == 'n' {
        '\n'
    } else if c == 'r' {
        '\r'
    } else if c == 't' {
        '\t'
    } else {
        c
    }
}

/// What Go reads from the inside of a string constant: everything up to the
/// first double quote that no backslash stands before.
pub open spec fn go_string_body(text: Seq<char>) -> Seq<char>
    decreases text.len(),
{
    if text.len() == 0 || text[0] == '"' {
        Seq::empty()
    } else if text[0] == '\\' && text.len() >= 2 {
        seq![unescape_char(text[1])] + go_string_body(text.skip(2))
    } else {
        seq![text[0]] + go_string_body(text.skip(1))
    }
}

/// The string that Go reads from the text of a string constant.
pub open spec fn go_string_value(text: Seq<char>) -> Seq<char> {
    go_string_body(text.skip(1))
}

/// Go reads the inside of a string as far as it was written, whatever comes
/// behind the closing quote.
pub proof fn lemma_body_round_trip(s: Seq<char>, behind: Seq<char>)
    ensures
        go_string_body(escaped(s) + seq!['"'] + behind) == s,
    decreases s.len(),
{
    let text = escaped(s) + seq!['"'] + behind;
    if s.len() == 0 {
        assert(text[0] == '"');
        assert(go_string_body(text) =~= s);
    } else {
        let c = s[0];
        let rest = s.drop_first();
        let tail = escaped(rest) + seq!['"'] + behind;
        lemma_body_round_trip(rest, behind);
        assert(text =~= escape_char(c) + tail);
        if escape_char(c).len() == 2 {
            assert(text[0] == '\\');
            assert(unescape_char(text[1]) == c);
            assert(text.skip(2) =~= tail);
        } else {
            assert(text[0] == c);
            assert(text.skip(1) =~= tail);
        }
        assert(s =~= seq![c] + rest);
    }
}

/// Go reads from a string constant the string that was written.
pub proof fn lemma_string_round_trip(s: Seq<char>)
    ensures
        go_string_value(quoted(s)) == s,
{
    lemma_body_round_trip(s, Seq::empty());
    let inside = escaped(s) + seq!['"'] + Seq::<char>::empty();
    assert(quoted(s).skip(1) =~= inside);
}

/// Writes the characters of a string as they stand inside a Go string.
pub fn escape(s: &str) -> (r: String)
    ensures
        r@ == escaped(s@),
{
    let n: usize = s.unicode_len();
    let mut out = String::new();
    let mut i: usize = 0;
    assert(s@.skip(0) =~= s@);
    assert(out@ + escaped(s@) =~= escaped(s@));
    while i < n
        invariant
            n == s@.len(),
            i <= n,
            out@ + escaped(s@.skip(i as int)) == escaped(s@),
        decreases n - i,
    {
        let c = s.get_char(i);
        let ghost before = out@;
        proof {
            let rest = s@.skip(i as int);
            assert(rest[0] == c);
            assert(rest.drop_first() =~= s@.skip(i + 1));
            reveal_strlit("\\\\");
            reveal_strlit("\\\"");
            reveal_strlit("\\n");
            reveal_strlit("\\r");
            reveal_strlit("\\t");
            assert("\\\\"@ =~= seq!['\\', '\\']);
            assert("\\\""@ =~= seq!['\\', '"']);
            assert("\\n"@ =~= seq!['\\', 'n']);
            assert("\\r"@ =~= seq!['\\', 'r']);
            assert("\\t"@ =~= seq!['\\', 't']);
            assert(s@.subrange(i as int, i + 1) =~= seq![c]);
        }
        if c == '\\' {
            out.append("\\\\");
        } else if c == '"' {
            out.append("\\\"");
        } else if c == '\n' {
            out.append("\\n");
        } else if c == '\r' {
            out.append("\\r");
        } else if c == '\t' {
            out.append("\\t");
        } else {
            out.append(s.substring_char(i, i + 1));
        }
        proof {
            assert(out@ == before + escape_char(c));
            assert((before + escape_char(c)) + escaped(s@.skip(i + 1)) =~= before + (escape_char(c)
                + escaped(s@.skip(i + 1))));
        }
        i += 1;
    }
    assert(escaped(s@.skip(n as int)) =~= Seq::<char>::empty());
    assert(out@ + Seq::<char>::empty() =~= out@);
    out
}

/// Writes a string as a Go constant.
pub fn quote(s: &str) -> (r: String)
    ensures
        r@ == quoted(s@),
{
    proof {
        reveal_strlit("\"");
        assert("\""@ =~= seq!['"']);
    }
    let mut out = String::from_str("\"");
    out.append(escape(s).as_str());
    out.append("\"");
    out
}

} // verus!
