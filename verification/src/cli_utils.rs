//! Utilities interfacing with command line tools.
use crate::text::owned;
use vstd::prelude::*;

verus! {

/// A node name as `uname -n` prints it, without the one line break that ends it.
pub open spec fn node_name_of(output: Seq<char>) -> Seq<char> {
    if output.len() > 0 && (output.last() == '\n' || output.last() == '\r') {
        output.drop_last()
    } else {
        output
    }
}

/// The node name in the output of `uname -n`: the output without its final line break.
pub fn node_name_from_output(output: &str) -> (res: String)
    ensures
        res@ == node_name_of(output@),
{
    let n = output.unicode_len();
    if n > 0 {
        let last = output.get_char(n - 1);
        if last == '\n' || last == '\r' {
            let s = output.substring_char(0, n - 1);
            proof {
                assert(s@ =~= output@.drop_last());
            }
            return owned(s);
        }
    }
    owned(output)
}

} // verus!
