//! Buffered builtin output: an ordered sequence of lines, each tagged as
//! ordinary output or error output.

use vstd::prelude::*;
use vstd::string::StringExecFns;

verus! {

/// One line of builtin output. `is_err` tags the line for the error stream.
pub struct OutputLine {
    pub line: String,
    pub is_err: bool,
}

impl View for OutputLine {
    type V = (Seq<char>, bool);

    open spec fn view(&self) -> (Seq<char>, bool) {
        (self.line@, self.is_err)
    }
}

impl Clone for OutputLine {
    fn clone(&self) -> (r: Self)
        ensures
            r@ == self@,
    {
        OutputLine { line: self.line.clone(), is_err: self.is_err }
    }
}

/// The output buffer a builtin appends to; lines keep the order in which
/// they were added.
pub struct Output(Vec<OutputLine>);

impl View for Output {
    type V = Seq<(Seq<char>, bool)>;

    closed spec fn view(&self) -> Seq<(Seq<char>, bool)> {
        self.0@.map_values(|l: OutputLine| l@)
    }
}

impl Output {
    /// An empty buffer.
    pub fn new() -> (r: Self)
        ensures
            r@ == Seq::<(Seq<char>, bool)>::empty(),
    {
        let r = Output(Vec::new());
        proof {
            assert(r@ =~= Seq::<(Seq<char>, bool)>::empty());
        }
        r
    }

    /// Append one line with its error tag.
    pub fn add(&mut self, line: &str, is_err: bool)
        ensures
            final(self)@ == old(self)@.push((line@, is_err)),
    {
        let owned = String::from_str(line);
        self.0.push(OutputLine { line: owned, is_err });
        proof {
            assert(self@ =~= old(self)@.push((line@, is_err)));
        }
    }

    /// A copy of the buffered lines, in order.
    pub fn get(&self) -> (r: Vec<OutputLine>)
        ensures
            r@.map_values(|l: OutputLine| l@) == self@,
    {
        let mut r: Vec<OutputLine> = Vec::new();
        let mut i: usize = 0;
        while i < self.0.len()
            invariant
                i <= self.0.len(),
                r@.len() == i,
                forall|j: int| 0 <= j < i ==> (#[trigger] r@[j])@ == self@[j],
            decreases self.0.len() - i,
        {
            r.push(self.0[i].clone());
            i += 1;
        }
        proof {
            assert(r@.map_values(|l: OutputLine| l@) =~= self@);
        }
        r
    }

    /// Drop every buffered line.
    pub fn clear(&mut self)
        ensures
            final(self)@ == Seq::<(Seq<char>, bool)>::empty(),
    {
        self.0.clear();
        proof {
            assert(self@ =~= Seq::<(Seq<char>, bool)>::empty());
        }
    }
}

} // verus!
