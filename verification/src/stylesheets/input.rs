//! Rule text, held for reading by position.
use vstd::prelude::*;
use vstd::string::{StrSliceExecFns, StringExecFns};
use crate::stylesheets::grammar::{in_class, skip, trim_end, CharClass};

verus! {

/// A place in a text: a line and a column.
#[derive(Clone, Copy, Debug, PartialEq, Eq, Structural)]
pub struct SourceLocation {
    /// The number of line feeds before the place.
    pub line: usize,
    /// The number of characters between the start of the line and the place,
    /// plus one.
    pub column: usize,
}

/// The number of line feeds among the first `position` characters.
pub open spec fn lines_before(s: Seq<char>, position: int) -> nat
    decreases position,
{
    if position <= 0 || position > s.len() {
        0
    } else if s[position - 1] == '\n' {
        lines_before(s, position - 1) + 1
    } else {
        lines_before(s, position - 1)
    }
}

/// The number of characters between the last line feed before `position`, or
/// the start of the text, and `position`.
pub open spec fn characters_on_line(s: Seq<char>, position: int) -> nat
    decreases position,
{
    if position <= 0 || position > s.len() || s[position - 1] == '\n' {
        0
    } else {
        characters_on_line(s, position - 1) + 1
    }
}

/// The line and column of the place before the character at `position`. A
/// column that a machine word cannot hold is given as the greatest that it
/// can.
pub open spec fn source_location_at(s: Seq<char>, position: int) -> SourceLocation {
    SourceLocation {
        line: lines_before(s, position) as usize,
        column: if characters_on_line(s, position) < usize::MAX {
            (characters_on_line(s, position) + 1) as usize
        } else {
            usize::MAX
        },
    }
}

/// A text and its characters, one by one.
pub struct Input<'a> {
    text: &'a str,
    chars: Vec<char>,
}

impl<'a> Input<'a> {
    #[verifier::type_invariant]
    spec fn well_formed(&self) -> bool {
        self.chars@ == self.text@
    }

    /// The characters of the text.
    pub closed spec fn view(&self) -> Seq<char> {
        self.text@
    }

    /// The text, ready for reading.
    pub fn new(text: &'a str) -> (input: Input<'a>)
        ensures
            input@ == text@,
    {
        let mut chars: Vec<char> = Vec::new();
        for c in it: text.chars()
            invariant
                chars@ == it.seq().take(it.index() as int),
                it.seq() == text@,
        {
            chars.push(c);
        }
        assert(chars@ =~= text@);
        Input { text, chars }
    }

    /// The number of characters of the text.
    pub fn len(&self) -> (len: usize)
        ensures
            len == self@.len(),
    {
        proof {
            use_type_invariant(self);
        }
        self.chars.len()
    }

    /// The character at the given position.
    pub fn at(&self, index: usize) -> (c: char)
        requires
            index < self@.len(),
        ensures
            c == self@[index as int],
    {
        proof {
            use_type_invariant(self);
        }
        self.chars[index]
    }

    /// Whether the character `c` stands at the given position.
    pub fn has_at(&self, index: usize, c: char) -> (found: bool)
        ensures
            found == (index < self@.len() && self@[index as int] == c),
    {
        proof {
            use_type_invariant(self);
        }
        index < self.chars.len() && self.chars[index] == c
    }

    /// The first position at or after `from` whose character is not of the
    /// class, or the length of the text.
    pub fn skip(&self, from: usize, class: CharClass) -> (end: usize)
        requires
            from <= self@.len(),
        ensures
            end == skip(self@, from as int, class),
            from <= end <= self@.len(),
    {
        proof {
            use_type_invariant(self);
        }
        let mut i: usize = from;
        while i < self.chars.len() && in_class(class, self.chars[i])
            invariant
                from <= i <= self.chars.len(),
                self.chars@ == self@,
                skip(self@, from as int, class) == skip(self@, i as int, class),
            decreases self.chars.len() - i,
        {
            i += 1;
        }
        i
    }

    /// The end of the text from `from` to `to`, without the white space at
    /// its end.
    pub fn trim_end(&self, from: usize, to: usize) -> (end: usize)
        requires
            from <= to <= self@.len(),
        ensures
            end == trim_end(self@, from as int, to as int),
            from <= end <= to,
    {
        proof {
            use_type_invariant(self);
        }
        let mut i: usize = to;
        while i > from && in_class(CharClass::Whitespace, self.chars[i - 1])
            invariant
                from <= i <= to <= self.chars.len(),
                self.chars@ == self@,
                trim_end(self@, from as int, to as int) == trim_end(self@, from as int, i as int),
            decreases i,
        {
            i -= 1;
        }
        i
    }

    /// The line and column of the place before the character at `position`.
    pub fn source_location(&self, position: usize) -> (location: SourceLocation)
        requires
            position <= self@.len(),
        ensures
            location == source_location_at(self@, position as int),
    {
        proof {
            use_type_invariant(self);
        }
        let mut line: usize = 0;
        let mut column: usize = 0;
        let mut i: usize = 0;
        while i < position
            invariant
                i <= position <= self.chars.len(),
                self.chars@ == self@,
                line == lines_before(self@, i as int),
                column == characters_on_line(self@, i as int),
                line <= i,
                column <= i,
            decreases position - i,
        {
            if self.chars[i] == '\n' {
                line += 1;
                column = 0;
            } else {
                column += 1;
            }
            i += 1;
        }
        SourceLocation {
            line,
            column: if column < usize::MAX {
                column + 1
            } else {
                usize::MAX
            },
        }
    }

    /// The text from `from` up to `to`.
    pub fn slice(&self, from: usize, to: usize) -> (text: String)
        requires
            from <= to <= self@.len(),
        ensures
            text@ == self@.subrange(from as int, to as int),
    {
        String::from_str(self.text.substring_char(from, to))
    }

    /// The text from `from` up to `to`, without the white space at its end.
    pub fn trimmed(&self, from: usize, to: usize) -> (text: String)
        requires
            from <= to <= self@.len(),
        ensures
            text@ == crate::stylesheets::grammar::trimmed(self@, from as int, to as int),
    {
        let end = self.trim_end(from, to);
        self.slice(from, end)
    }
}

} // verus!
