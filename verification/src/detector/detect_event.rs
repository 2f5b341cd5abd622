//! What a look at the watched file can give, and the text of a line.

use vstd::prelude::*;

verus! {

/// Whether `c` is one of the characters that end a line.
pub open spec fn is_line_end(c: char) -> bool {
    c == '\n' || c == '\r'
}

/// `line` without the carriage returns and line feeds at its end.
pub open spec fn stripped(line: Seq<char>) -> Seq<char>
    decreases line.len(),
{
    if line.len() > 0 && is_line_end(line.last()) {
        stripped(line.drop_last())
    } else {
        line
    }
}

/// What stripping keeps is the start of the line, what it drops is line
/// ends only, and what it keeps does not end in one.
pub proof fn lemma_stripped(line: Seq<char>)
    ensures
        stripped(line).len() <= line.len(),
        stripped(line) == line.subrange(0, stripped(line).len() as int),
        forall|i: int| stripped(line).len() <= i < line.len() ==> is_line_end(#[trigger] line[i]),
        stripped(line).len() > 0 ==> !is_line_end(stripped(line).last()),
    decreases line.len(),
{
    if line.len() > 0 && is_line_end(line.last()) {
        let shorter = line.drop_last();
        lemma_stripped(shorter);
        let kept = stripped(shorter).len() as int;
        assert(shorter.subrange(0, kept) =~= line.subrange(0, kept));
    } else {
        assert(line =~= line.subrange(0, line.len() as int));
    }
}

/// A start of `line` that does not end in a line end, and after which only
/// line ends follow, is the stripped line.
pub proof fn lemma_stripped_is(line: Seq<char>, kept: int)
    requires
        0 <= kept <= line.len(),
        kept > 0 ==> !is_line_end(line[kept - 1]),
        forall|i: int| kept <= i < line.len() ==> is_line_end(#[trigger] line[i]),
    ensures
        stripped(line) == line.subrange(0, kept),
    decreases line.len(),
{
    if kept == line.len() {
        assert(line =~= line.subrange(0, kept));
    } else {
        assert(is_line_end(line[line.len() - 1]));
        let shorter = line.drop_last();
        lemma_stripped_is(shorter, kept);
        assert(shorter.subrange(0, kept) =~= line.subrange(0, kept));
    }
}

/// Stripping twice changes nothing more.
pub proof fn lemma_stripped_twice(line: Seq<char>)
    ensures
        stripped(stripped(line)) == stripped(line),
{
    lemma_stripped(line);
    let once = stripped(line);
    lemma_stripped_is(once, once.len() as int);
    assert(once =~= once.subrange(0, once.len() as int));
}

/// Strips the carriage returns and line feeds from the end of `line`.
pub fn strip_line_end(line: &str) -> (text: String)
    ensures
        text@ == stripped(line@),
{
    let mut kept: usize = line.unicode_len();
    while kept > 0 && (line.get_char(kept - 1) == '\n' || line.get_char(kept - 1) == '\r')
        invariant
            kept <= line@.len(),
            forall|i: int| kept <= i < line@.len() ==> is_line_end(#[trigger] line@[i]),
        decreases kept,
    {
        kept -= 1;
    }
    proof {
        lemma_stripped_is(line@, kept as int);
    }
    line.substring_char(0, kept).to_owned()
}

/// What a detector makes of one look at its file.
#[derive(Clone, Debug, PartialEq, Eq)]
pub enum DetectEvent {
    /// A line, without its line end.
    NewLine(String),
    /// The file is shorter than it was: it has been replaced.
    Rotated,
    /// Nothing new.
    EndOfFile,
}

} // verus!
