//! What a human command prints, and the exit code it leaves behind.

use vstd::prelude::*;

use crate::text::texts;

verus! {

/// One printed line (it may hold line breaks), on stdout or on stderr, or text on
/// stdout as it stands, with no line break of its own after it.
pub enum Say {
    Out(String),
    Warn(String),
    Part(String),
}

/// What a printed line says, and where.
pub enum SayV {
    Out(Seq<char>),
    Warn(Seq<char>),
    Part(Seq<char>),
}

impl View for Say {
    type V = SayV;

    open spec fn view(&self) -> SayV {
        match self {
            Say::Out(s) => SayV::Out(s@),
            Say::Warn(s) => SayV::Warn(s@),
            Say::Part(s) => SayV::Part(s@),
        }
    }
}

/// The lines a command prints, in order.
pub struct Console {
    pub lines: Vec<Say>,
}

impl View for Console {
    type V = Seq<SayV>;

    open spec fn view(&self) -> Seq<SayV> {
        self.lines@.map_values(|s: Say| s@)
    }
}

/// Each text as a line on stdout.
pub open spec fn outs(lines: Seq<Seq<char>>) -> Seq<SayV> {
    lines.map_values(|s: Seq<char>| SayV::Out(s))
}

impl Console {
    pub fn new() -> (r: Console)
        ensures
            r@ == Seq::<SayV>::empty(),
    {
        let r = Console { lines: Vec::new() };
        proof {
            assert(r@ =~= Seq::<SayV>::empty());
        }
        r
    }

    /// Prints a line on stdout.
    pub fn out(&mut self, s: String)
        ensures
            final(self)@ == old(self)@.push(SayV::Out(s@)),
    {
        self.lines.push(Say::Out(s));
        proof {
            assert(self@ =~= old(self)@.push(SayV::Out(s@)));
        }
    }

    /// Prints a line on stderr.
    pub fn warn(&mut self, s: String)
        ensures
            final(self)@ == old(self)@.push(SayV::Warn(s@)),
    {
        self.lines.push(Say::Warn(s));
        proof {
            assert(self@ =~= old(self)@.push(SayV::Warn(s@)));
        }
    }

    /// Prints text on stdout as it stands.
    pub fn part(&mut self, s: String)
        ensures
            final(self)@ == old(self)@.push(SayV::Part(s@)),
    {
        self.lines.push(Say::Part(s));
        proof {
            assert(self@ =~= old(self)@.push(SayV::Part(s@)));
        }
    }

    /// Prints all of `more`, in order.
    pub fn extend(&mut self, more: Console)
        ensures
            final(self)@ == old(self)@ + more@,
    {
        let mut tail = more.lines;
        self.lines.append(&mut tail);
        proof {
            assert(self@ =~= old(self)@ + more@);
        }
    }

    /// Prints each line on stdout, in order.
    pub fn extend_out(&mut self, more: &Vec<String>)
        ensures
            final(self)@ == old(self)@ + outs(texts(more@)),
    {
        let ghost before = self@;
        let mut i: usize = 0;
        proof {
            assert(before + outs(texts(more@)).take(0) =~= before);
        }
        while i < more.len()
            invariant
                i <= more@.len(),
                self@ == before + outs(texts(more@)).take(i as int),
            decreases more@.len() - i,
        {
            self.out(crate::text::owned(more[i].as_str()));
            proof {
                assert(self@ =~= before + outs(texts(more@)).take(i + 1));
            }
            i = i + 1;
        }
        proof {
            assert(outs(texts(more@)).take(more@.len() as int) =~= outs(texts(more@)));
        }
    }
}

/// The end of a human command: what it printed and its exit code.
pub struct Outcome {
    pub console: Console,
    pub exit: u8,
}

#[verifier::ext_equal]
pub struct OutcomeV {
    pub says: Seq<SayV>,
    pub exit: u8,
}

impl View for Outcome {
    type V = OutcomeV;

    open spec fn view(&self) -> OutcomeV {
        OutcomeV { says: self.console@, exit: self.exit }
    }
}

/// A single line on stderr and an exit code.
pub open spec fn failed(line: Seq<char>, exit: u8) -> OutcomeV {
    OutcomeV { says: seq![SayV::Warn(line)], exit }
}

/// A single line on stdout and a successful exit.
pub open spec fn said(line: Seq<char>) -> OutcomeV {
    OutcomeV { says: seq![SayV::Out(line)], exit: 0 }
}

pub fn fail_with(line: String, exit: u8) -> (r: Outcome)
    ensures
        r@ == failed(line@, exit),
{
    let mut console = Console::new();
    console.warn(line);
    Outcome { console, exit }
}

pub fn say_out(line: String) -> (r: Outcome)
    ensures
        r@ == said(line@),
{
    let mut console = Console::new();
    console.out(line);
    Outcome { console, exit: 0 }
}

/// A failure is one line on stderr under its exit code, and a success one line on
/// stdout under zero.
pub proof fn a_failure_goes_to_stderr(line: Seq<char>, exit: u8)
    ensures
        failed(line, exit).exit == exit,
        failed(line, exit).says.len() == 1,
        failed(line, exit).says[0] == SayV::Warn(line),
        said(line).exit == 0,
        said(line).says.len() == 1,
        said(line).says[0] == SayV::Out(line),
{
}

} // verus!
