//! The remote playlist listing: the command that lists the playlist directory
//! of the player, and the reading of its output into playlist names.

use vstd::prelude::*;
use vstd::std_specs::iter::IteratorSpec;
use crate::text::push_char;

verus! {

/// Index of the first `'\n'` in `s`, or `s.len()` when there is none.
pub open spec fn first_newline(s: Seq<char>) -> int
    decreases s.len(),
{
    if s.len() == 0 {
        0
    } else if s[0] == '\n' {
        0
    } else {
        1 + first_newline(s.drop_first())
    }
}

/// `line` without one trailing carriage return.
pub open spec fn strip_cr(line: Seq<char>) -> Seq<char> {
    if line.len() > 0 && line.last() == '\r' {
        line.drop_last()
    } else {
        line
    }
}

/// No character of `s` is a newline.
pub open spec fn newline_free(s: Seq<char>) -> bool {
    forall|i: int| 0 <= i < s.len() ==> s[i] != '\n'
}

/// The lines of a text, as `str::lines` reads them: the text is cut at each
/// `'\n'`, a `'\r'` right before a cut is dropped, and a final newline does not
/// start another line.
pub open spec fn lines_of(s: Seq<char>) -> Seq<Seq<char>>
    decreases s.len(),
{
    if s.len() == 0 {
        seq![]
    } else {
        let i = first_newline(s);
        if 0 <= i < s.len() {
            seq![strip_cr(s.take(i))] + lines_of(s.skip(i + 1))
        } else {
            seq![s]
        }
    }
}

proof fn lemma_first_newline_after_free(cur: Seq<char>, rest: Seq<char>)
    requires
        newline_free(cur),
    ensures
        first_newline(cur + rest) == cur.len() + first_newline(rest),
    decreases cur.len(),
{
    if cur.len() > 0 {
        assert((cur + rest).drop_first() =~= cur.drop_first() + rest);
        assert((cur + rest)[0] == cur[0]);
        lemma_first_newline_after_free(cur.drop_first(), rest);
    } else {
        assert(cur + rest =~= rest);
    }
}

/// Cutting at a newline that follows a newline-free prefix.
proof fn lemma_lines_cut(cur: Seq<char>, rest: Seq<char>)
    requires
        newline_free(cur),
        rest.len() > 0,
        rest[0] == '\n',
    ensures
        lines_of(cur + rest) == seq![strip_cr(cur)] + lines_of(rest.drop_first()),
{
    lemma_first_newline_after_free(cur, rest);
    let s = cur + rest;
    assert(first_newline(rest) == 0);
    assert(s.take(cur.len() as int) =~= cur);
    assert(s.skip(cur.len() as int + 1) =~= rest.drop_first());
}

/// The last line, which no newline ends.
proof fn lemma_lines_tail(cur: Seq<char>)
    requires
        newline_free(cur),
    ensures
        lines_of(cur) == (if cur.len() == 0 { Seq::<Seq<char>>::empty() } else { seq![cur] }),
{
    lemma_first_newline_after_free(cur, Seq::<char>::empty());
    assert(cur + Seq::<char>::empty() =~= cur);
}

/// The command that lists the playlists stored on the player.
pub fn playlist_listing_command() -> (cmd: &'static str)
    ensures
        cmd@ == "ls -1 /data/playlist"@,
{
    "ls -1 /data/playlist"
}

/// Reads the output of the listing command: one playlist name per line.
pub fn parse_playlist_listing(output: &str) -> (names: Vec<String>)
    ensures
        names.deep_view() == lines_of(output@),
{
    let mut names: Vec<String> = Vec::new();
    let mut cur = String::new();
    let mut pending_cr = false;
    let ghost s = output@;
    assert(Seq::<char>::empty() + s.skip(0) =~= s);
    assert(names.deep_view() =~= Seq::<Seq<char>>::empty());
    for c in it: output.chars()
        invariant
            it.seq() == s,
            newline_free(cur@),
            pending_cr ==> newline_free(cur@.push('\r')),
            !pending_cr ==> cur@.len() == 0 || cur@.last() != '\r',
            lines_of(s) == names.deep_view() + lines_of(
                (if pending_cr { cur@.push('\r') } else { cur@ }) + s.skip(it.index()),
            ),
    {
        let ghost rest = s.skip(it.index());
        let ghost logical = if pending_cr { cur@.push('\r') } else { cur@ };
        assert(rest[0] == c);
        assert(s.skip(it.index() + 1) =~= rest.drop_first());
        if c == '\n' {
            proof {
                lemma_lines_cut(logical, rest);
                if pending_cr {
                    assert(logical.drop_last() =~= cur@);
                }
                assert(strip_cr(logical) == cur@);
            }
            let ghost before = names.deep_view();
            let ghost line = cur@;
            names.push(cur);
            cur = String::new();
            pending_cr = false;
            proof {
                assert(Seq::<char>::empty() + rest.drop_first() =~= rest.drop_first());
                assert(names.deep_view() =~= before.push(line));
                assert(before + (seq![line] + lines_of(rest.drop_first()))
                    =~= before.push(line) + lines_of(rest.drop_first()));
            }
        } else {
            if pending_cr {
                push_char(&mut cur, '\r');
            }
            if c == '\r' {
                pending_cr = true;
            } else {
                push_char(&mut cur, c);
                pending_cr = false;
            }
            proof {
                assert(logical + rest =~= (if pending_cr { cur@.push('\r') } else { cur@ }) + rest.drop_first());
            }
        }
    }
    if pending_cr {
        push_char(&mut cur, '\r');
    }
    proof {
        assert(cur@ + s.skip(s.len() as int) =~= cur@);
        lemma_lines_tail(cur@);
    }
    if !cur.as_str().is_empty() {
        names.push(cur);
    }
    names
}

/// The text that lists `names` one per line, each line ended by a newline,
/// as `ls -1` prints them.
pub open spec fn one_per_line(names: Seq<Seq<char>>) -> Seq<char>
    decreases names.len(),
{
    if names.len() == 0 {
        Seq::empty()
    } else {
        names[0] + seq!['\n'] + one_per_line(names.drop_first())
    }
}

/// A name that a listing line gives back unchanged: no newline in it and no
/// carriage return at its end.
pub open spec fn plain_name(name: Seq<char>) -> bool {
    newline_free(name) && !(name.len() > 0 && name.last() == '\r')
}

/// Reading a listing gives back the names that were listed, one per line,
/// whenever no name holds a newline or ends with a carriage return.
pub proof fn lemma_listing_round_trip(names: Seq<Seq<char>>)
    requires
        forall|i: int| 0 <= i < names.len() ==> plain_name(#[trigger] names[i]),
    ensures
        lines_of(one_per_line(names)) == names,
    decreases names.len(),
{
    if names.len() > 0 {
        let rest = names.drop_first();
        assert forall|i: int| 0 <= i < rest.len() implies plain_name(#[trigger] rest[i]) by {
            assert(rest[i] == names[i + 1]);
        }
        lemma_listing_round_trip(rest);
        let tail = seq!['\n'] + one_per_line(rest);
        assert(names[0] + seq!['\n'] + one_per_line(rest) =~= names[0] + tail);
        assert(plain_name(names[0]));
        lemma_lines_cut(names[0], tail);
        assert(tail.drop_first() =~= one_per_line(rest));
        assert(names =~= seq![names[0]] + rest);
    }
}

/// How a listing splits into lines: an empty text has none; a text without
/// newline is one line; a newline ends the line before it, and so does a
/// carriage return followed by a newline, which both stay out of the line; the
/// rest of the text gives the following lines.
pub proof fn lemma_lines_split(line: Seq<char>, rest: Seq<char>)
    requires
        forall|i: int| 0 <= i < line.len() ==> line[i] != '\n',
    ensures
        lines_of(Seq::empty()) == Seq::<Seq<char>>::empty(),
        line.len() > 0 ==> lines_of(line) == seq![line],
        lines_of(line + seq!['\r', '\n'] + rest) == seq![line] + lines_of(rest),
        (line.len() == 0 || line.last() != '\r') ==> lines_of(line + seq!['\n'] + rest) == seq![
            line,
        ] + lines_of(rest),
{
    lemma_lines_tail(line);
    let with_cr = line.push('\r');
    assert(newline_free(with_cr)) by {
        assert forall|i: int| 0 <= i < with_cr.len() implies with_cr[i] != '\n' by {
            if i < line.len() {
                assert(with_cr[i] == line[i]);
            }
        }
    }
    lemma_lines_cut(with_cr, seq!['\n'] + rest);
    assert(line + seq!['\r', '\n'] + rest =~= with_cr + (seq!['\n'] + rest));
    assert((seq!['\n'] + rest).drop_first() =~= rest);
    assert(with_cr.drop_last() =~= line);
    lemma_lines_cut(line, seq!['\n'] + rest);
    assert(line + seq!['\n'] + rest =~= line + (seq!['\n'] + rest));
}

} // verus!
