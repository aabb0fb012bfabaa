//! Joining failure texts with a single newline between them: no leading
//! newline, no trailing newline, input order kept.

use vstd::prelude::*;
use vstd::string::StringExecFns;

verus! {

/// The texts of `msgs` joined by one `'\n'` between neighbours. One
/// text stands alone; none at all give the empty text.
pub open spec fn joined_lines(msgs: Seq<Seq<char>>) -> Seq<char>
    decreases msgs.len(),
{
    if msgs.len() == 0 {
        Seq::empty()
    } else if msgs.len() == 1 {
        msgs[0]
    } else {
        joined_lines(msgs.drop_last()).push('\n') + msgs.last()
    }
}

/// The views of a vector of strings, in order.
pub open spec fn text_views(msgs: Seq<String>) -> Seq<Seq<char>> {
    msgs.map_values(|m: String| m@)
}

/// Builds the newline-joined message of `msgs`.
pub fn join_lines(msgs: &Vec<String>) -> (r: String)
    ensures
        r@ == joined_lines(text_views(msgs@)),
{
    proof {
        reveal_strlit("\n");
    }
    let ghost views = text_views(msgs@);
    let mut r = String::new();
    let mut i: usize = 0;
    while i < msgs.len()
        invariant
            i <= msgs.len(),
            views == text_views(msgs@),
            views.len() == msgs@.len(),
            r@ == joined_lines(views.take(i as int)),
        decreases msgs.len() - i,
    {
        proof {
            reveal_strlit("\n");
            assert(views.take(i + 1).drop_last() =~= views.take(i as int));
            assert("\n"@ =~= seq!['\n']);
        }
        if i > 0 {
            r.append("\n");
        }
        r.append(msgs[i].as_str());
        proof {
            assert(views.take(i + 1).last() == views[i as int]);
            if i == 0 {
                assert(joined_lines(views.take(1)) == views.take(1)[0]);
            }
        }
        i = i + 1;
    }
    proof {
        assert(views.take(msgs@.len() as int) =~= views);
    }
    r
}

} // verus!
