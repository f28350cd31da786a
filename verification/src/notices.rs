//! The lines that report success to the user, and the short form of the
//! paths they name.

use vstd::prelude::*;
use vstd::string::StringExecFns;

verus! {

/// Whether path `i` has a component `j` and it is the one of the first
/// path.
pub open spec fn agrees_at(paths: Seq<Vec<String>>, i: int, j: int) -> bool {
    j < paths[i]@.len() && j < paths[0]@.len() && paths[i]@[j]@ == paths[0]@[j]@
}

/// Whether the first `k` components are the same in all paths.
pub open spec fn shared_prefix(paths: Seq<Vec<String>>, k: int) -> bool {
    forall|i: int, j: int| 0 <= i < paths.len() && 0 <= j < k ==> agrees_at(paths, i, j)
}

/// The number of leading components that all the paths share: the length
/// of their common ancestor. No paths share nothing.
pub fn common_ancestor(paths: &Vec<Vec<String>>) -> (k: usize)
    ensures
        shared_prefix(paths@, k as int),
        paths@.len() > 0 ==> !shared_prefix(paths@, k + 1),
        paths@.len() == 0 ==> k == 0,
{
    let n = paths.len();
    if n == 0 {
        return 0;
    }
    let first = &paths[0];
    let len = first.len();
    let mut k: usize = 0;
    while k < len
        invariant
            n == paths@.len(),
            n > 0,
            *first == paths@[0],
            len == first@.len(),
            k <= len,
            shared_prefix(paths@, k as int),
        decreases len - k,
    {
        let mut i: usize = 1;
        assert(agrees_at(paths@, 0, k as int));
        while i < n
            invariant
                n == paths@.len(),
                n > 0,
                *first == paths@[0],
                len == first@.len(),
                k < len,
                1 <= i <= n,
                shared_prefix(paths@, k as int),
                forall|x: int| 0 <= x < i ==> agrees_at(paths@, x, k as int),
            decreases n - i,
        {
            let p = &paths[i];
            if k >= p.len() {
                assert(!agrees_at(paths@, i as int, k as int));
                return k;
            }
            let same = p[k] == first[k];
            if !same {
                assert(!agrees_at(paths@, i as int, k as int));
                return k;
            }
            assert(agrees_at(paths@, i as int, k as int));
            i += 1;
        }
        k += 1;
    }
    assert(!agrees_at(paths@, 0, k as int));
    k
}

/// A path as it is shown beside others: without the first `k` components,
/// which they share. A path with no more than `k` components is shown
/// whole.
pub fn display_path(path: &Vec<String>, k: usize) -> (shown: Vec<String>)
    ensures
        shown@.len() == if k < path@.len() {
            path@.len() - k
        } else {
            path@.len() as int
        },
        forall|i: int|
            0 <= i < shown@.len() ==> (#[trigger] shown@[i])@ == path@[if k < path@.len() {
                i + k
            } else {
                i
            }]@,
{
    let n = path.len();
    let start = if k < n {
        k
    } else {
        0
    };
    let mut shown: Vec<String> = Vec::new();
    let mut i: usize = start;
    while i < n
        invariant
            n == path@.len(),
            start <= i <= n,
            shown@.len() == i - start,
            forall|x: int| 0 <= x < shown@.len() ==> (#[trigger] shown@[x])@ == path@[x + start]@,
        decreases n - i,
    {
        shown.push(path[i].clone());
        i += 1;
    }
    shown
}

/// The items with `", "` between them.
pub open spec fn comma_list(items: Seq<String>) -> Seq<char>
    decreases items.len(),
{
    if items.len() == 0 {
        Seq::empty()
    } else if items.len() == 1 {
        items[0]@
    } else {
        comma_list(items.drop_last()) + seq![',', ' '] + items.last()@
    }
}

/// The line that reports a successful assembly.
pub open spec fn assembled_text(input: Seq<char>, output: Seq<char>) -> Seq<char> {
    "successfully assembled "@ + input + " into "@ + output + seq!['\n']
}

/// The line that reports a successful assembly of `input` into `output`.
pub fn assembled_message(input: &str, output: &str) -> (s: String)
    ensures
        s@ == assembled_text(input@, output@),
{
    proof {
        reveal_strlit("\n");
        assert("\n"@ =~= seq!['\n']);
    }
    let mut s = String::from_str("successfully assembled ");
    s.append(input);
    s.append(" into ");
    s.append(output);
    s.append("\n");
    s
}

/// The line that reports a successful link.
pub open spec fn linked_text(inputs: Seq<String>, output: Seq<char>) -> Seq<char> {
    "successfully linked object files ["@ + comma_list(inputs) + "] to "@ + output + seq!['\n']
}

/// The line that reports a successful link of `inputs` into `output`.
pub fn linked_message(inputs: &Vec<String>, output: &str) -> (s: String)
    ensures
        s@ == linked_text(inputs@, output@),
{
    proof {
        reveal_strlit("\n");
        reveal_strlit(", ");
        assert("\n"@ =~= seq!['\n']);
        assert(", "@ =~= seq![',', ' ']);
    }
    let mut s = String::from_str("successfully linked object files [");
    let ghost head = s@;
    let n = inputs.len();
    let mut i: usize = 0;
    assert(s@ =~= head + comma_list(inputs@.take(0)));
    while i < n
        invariant
            n == inputs@.len(),
            i <= n,
            ", "@ == seq![',', ' '],
            s@ == head + comma_list(inputs@.take(i as int)),
        decreases n - i,
    {
        assert(inputs@.take(i + 1).drop_last() =~= inputs@.take(i as int));
        assert(inputs@.take(i + 1).last() == inputs@[i as int]);
        if i > 0 {
            s.append(", ");
        }
        s.append(inputs[i].as_str());
        assert(s@ =~= head + comma_list(inputs@.take(i + 1)));
        i += 1;
    }
    assert(inputs@.take(n as int) =~= inputs@);
    s.append("] to ");
    s.append(output);
    s.append("\n");
    s
}

} // verus!
