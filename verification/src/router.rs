//! Output routing: pick the buffered lines of one tag and render them as
//! the text written to that tag's sink, each line followed by a newline.
//! Opening files and writing is the caller's; which characters reach
//! which sink is decided here.

use vstd::prelude::*;
use vstd::string::StringExecFns;
use crate::output::{Output, OutputLine};

verus! {

/// The lines of `ls` whose error tag equals `err`, in order.
pub open spec fn tagged_lines(ls: Seq<(Seq<char>, bool)>, err: bool) -> Seq<Seq<char>>
    decreases ls.len(),
{
    if ls.len() == 0 {
        Seq::empty()
    } else {
        let rest = tagged_lines(ls.drop_last(), err);
        if ls.last().1 == err {
            rest.push(ls.last().0)
        } else {
            rest
        }
    }
}

/// The lines concatenated, each followed by one newline.
pub open spec fn rendered(ls: Seq<Seq<char>>) -> Seq<char>
    decreases ls.len(),
{
    if ls.len() == 0 {
        Seq::empty()
    } else {
        rendered(ls.drop_last()) + ls.last() + "\n"@
    }
}

/// The text for the sink of one tag: every line of that tag, in order,
/// each followed by a newline.
#[verifier::loop_isolation(false)]
pub fn render_output(lines: &Vec<OutputLine>, err: bool) -> (r: String)
    ensures
        r@ == rendered(tagged_lines(lines@.map_values(|l: OutputLine| l@), err)),
{
    let ghost lv = lines@.map_values(|l: OutputLine| l@);
    let mut r = String::new();
    let mut i: usize = 0;
    while i < lines.len()
        invariant
            i <= lines.len(),
            r@ == rendered(tagged_lines(lv.subrange(0, i as int), err)),
        decreases lines.len() - i,
    {
        let ghost pre = lv.subrange(0, i as int);
        let ghost post = lv.subrange(0, i + 1);
        proof {
            assert(post.drop_last() =~= pre);
            assert(post.last() == lv[i as int]);
            assert(lv[i as int] == lines@[i as int]@);
        }
        if lines[i].is_err == err {
            r.append(lines[i].line.as_str());
            r.append("\n");
            proof {
                let sel = tagged_lines(post, err);
                assert(sel == tagged_lines(pre, err).push(lv[i as int].0));
                assert(sel.drop_last() =~= tagged_lines(pre, err));
                assert(sel.last() == lv[i as int].0);
                assert(sel.len() > 0);
                assert(r@ == rendered(sel));
            }
        }
        i += 1;
    }
    proof {
        assert(lv.subrange(0, lines@.len() as int) =~= lv);
    }
    r
}

/// The text for the sink of one tag, straight from the output buffer.
pub fn render_tagged(output: &Output, err: bool) -> (r: String)
    ensures
        r@ == rendered(tagged_lines(output@, err)),
{
    let lines = output.get();
    render_output(&lines, err)
}

} // verus!
