use vstd::prelude::*;
use crate::machine::{Machine, MachineState};

verus! {

/// `c` has the Unicode `White_Space` property.
pub open spec fn is_white_space(c: char) -> bool {
    let v = c as u32;
    (0x9 <= v <= 0xd) || v == 0x20 || v == 0x85 || v == 0xa0 || v == 0x1680
        || (0x2000 <= v <= 0x200a) || v == 0x2028 || v == 0x2029 || v == 0x202f
        || v == 0x205f || v == 0x3000
}

/// Whether `c` has the Unicode `White_Space` property.
pub fn char_is_whitespace(c: char) -> (r: bool)
    ensures
        r == is_white_space(c),
{
    let v = c as u32;
    (0x9 <= v && v <= 0xd) || v == 0x20 || v == 0x85 || v == 0xa0 || v == 0x1680
        || (0x2000 <= v && v <= 0x200a) || v == 0x2028 || v == 0x2029 || v == 0x202f
        || v == 0x205f || v == 0x3000
}

/// `v` is a Unicode scalar value, the code of some `char`.
pub open spec fn is_scalar_value(v: u32) -> bool {
    v < 0x110000 && !(0xd800 <= v <= 0xdfff)
}

/// Relies on `char::from_u32`, which returns the character with code `v`
/// exactly when `v` is a Unicode scalar value.
#[verifier::external_body]
fn char_from_code(v: u32) -> (r: Option<char>)
    ensures
        match r {
            Some(c) => is_scalar_value(v) && c as u32 == v,
            None => !is_scalar_value(v),
        },
{
    char::from_u32(v)
}

/// A line holds nothing but white space (it is empty once trimmed).
pub open spec fn is_blank(line: Seq<char>) -> bool {
    forall|i: int| 0 <= i < line.len() ==> is_white_space(#[trigger] line[i])
}

/// `line` without its carriage returns.
pub open spec fn strip_cr(line: Seq<char>) -> Seq<char>
    decreases line.len(),
{
    if line.len() == 0 {
        Seq::empty()
    } else {
        let rest = strip_cr(line.drop_last());
        if line.last() == '\r' { rest } else { rest.push(line.last()) }
    }
}

/// Whether a console line holds nothing but white space.
pub fn line_is_blank(line: &Vec<char>) -> (r: bool)
    ensures
        r == is_blank(line@),
{
    let mut i: usize = 0;
    while i < line.len()
        invariant
            i <= line@.len(),
            forall|j: int| 0 <= j < i ==> is_white_space(#[trigger] line@[j]),
        decreases line@.len() - i,
    {
        if !char_is_whitespace(line[i]) {
            return false;
        }
        i = i + 1;
    }
    true
}

/// The characters of `line` in order, carriage returns left out.
pub fn strip_carriage_returns(line: &Vec<char>) -> (r: Vec<char>)
    ensures
        r@ == strip_cr(line@),
{
    let mut out: Vec<char> = Vec::new();
    let mut i: usize = 0;
    while i < line.len()
        invariant
            i <= line@.len(),
            out@ == strip_cr(line@.subrange(0, i as int)),
        decreases line@.len() - i,
    {
        assert(line@.subrange(0, i as int + 1).drop_last() =~= line@.subrange(0, i as int));
        if line[i] != '\r' {
            out.push(line[i]);
        }
        i = i + 1;
    }
    assert(line@.subrange(0, line@.len() as int) =~= line@);
    out
}

/// How the character with a given code appears on the console.
#[derive(Debug, Clone, Copy, PartialEq, Eq, Structural)]
pub enum Emission {
    /// The character itself.
    Char(char),
    /// No character has this code: the number is shown in braces.
    Placeholder(u16),
}

/// How `out` shows the code `code`: as its character where there is one,
/// else as a bracketed number.
pub fn render_output(code: u16) -> (r: Emission)
    ensures
        match r {
            Emission::Char(c) => is_scalar_value(code as u32) && c as u32 == code as u32,
            Emission::Placeholder(n) => !is_scalar_value(code as u32) && n == code,
        },
{
    match char_from_code(code as u32) {
        Some(c) => Emission::Char(c),
        None => Emission::Placeholder(code),
    }
}

impl Machine {
    /// Offers a console line to a machine waiting for input. It is taken
    /// exactly when no input is pending and the line is not blank; its
    /// characters, carriage returns left out, then become the pending input.
    pub fn provide_line(&mut self, line: &Vec<char>) -> (accepted: bool)
        requires
            old(self).wf(),
        ensures
            final(self).wf(),
            accepted == (old(self)@.pending.len() == 0 && !is_blank(line@)),
            accepted ==> final(self)@ == (MachineState { pending: strip_cr(line@), ..old(self)@ }),
            !accepted ==> final(self)@ == old(self)@,
    {
        if self.input_pos < self.input.len() || line_is_blank(line) {
            return false;
        }
        self.input = strip_carriage_returns(line);
        self.input_pos = 0;
        assert(self@.pending =~= strip_cr(line@));
        true
    }
}

} // verus!
