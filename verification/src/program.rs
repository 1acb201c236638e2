//! How the chat client and server report an error and how they end on one.
use vstd::prelude::*;
use crate::text::join3;

verus! {

/// A named program that reports its errors under its name.
pub struct Program {
    name: String,
}

impl View for Program {
    type V = Seq<char>;

    closed spec fn view(&self) -> Seq<char> {
        self.name@
    }
}

/// The line that reports the error `mesg` of the program named `name`.
pub open spec fn error_line(name: Seq<char>, mesg: Seq<char>) -> Seq<char> {
    name + ": Erreur rencontré : "@ + mesg
}

impl Program {
    /// A program with the given name.
    pub fn new(name: String) -> (p: Program)
        ensures
            p@ == name@,
    {
        Program { name }
    }

    /// The line to print for the error `mesg`.
    pub fn print_error(&self, mesg: String) -> (line: String)
        ensures
            line@ == error_line(self@, mesg@),
    {
        join3(self.name.as_str(), ": Erreur rencontré : ", mesg.as_str())
    }

    /// Reporting an error and failing: the line to print, then the status the
    /// program exits with.
    pub fn print_fail(&self, mesg: String) -> (res: (String, i32))
        ensures
            res.0@ == error_line(self@, mesg@),
            res.1 == -1,
    {
        let line = self.print_error(mesg);
        (line, self.fail())
    }

    /// The status with which the program exits when it fails.
    pub fn fail(&self) -> (status: i32)
        ensures
            status == -1,
    {
        -1
    }
}

/// The error line starts with the program's name and ends with the message,
/// joined by `": Erreur rencontré : "`; different messages of one program give different
/// lines.
pub proof fn lemma_error_line_shape(name: Seq<char>, mesg: Seq<char>, other: Seq<char>)
    ensures
        error_line(name, mesg) == name + ": Erreur rencontré : "@ + mesg,
        error_line(name, mesg).subrange(0, name.len() as int) == name,
        error_line(name, mesg).subrange(error_line(name, mesg).len() - mesg.len(), error_line(name, mesg).len() as int) == mesg,
        error_line(name, mesg) == error_line(name, other) ==> mesg == other,
{
    let l = error_line(name, mesg);
    let k = error_line(name, other);
    assert(l.subrange(0, name.len() as int) =~= name);
    assert(l.subrange(l.len() - mesg.len(), l.len() as int) =~= mesg);
    if l == k {
        assert(k.subrange(k.len() - other.len(), k.len() as int) =~= other);
        assert(mesg =~= other);
    }
}

} // verus!
