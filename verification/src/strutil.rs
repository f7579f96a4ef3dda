//! Small string utilities: joining a list of strings with a separator.
use vstd::prelude::*;

verus! {

/// The strings of `parts` joined with `sep` between consecutive parts.
pub open spec fn join_seq(parts: Seq<Seq<char>>, sep: Seq<char>) -> Seq<char>
    decreases parts.len(),
{
    if parts.len() == 0 {
        Seq::empty()
    } else if parts.len() == 1 {
        parts[0]
    } else {
        join_seq(parts.drop_last(), sep) + sep + parts.last()
    }
}

/// Deep and shallow views of a list of strings agree elementwise.
pub proof fn lemma_string_vec_deep_view(v: Vec<String>)
    ensures
        v.deep_view().len() == v@.len(),
        forall|k: int| 0 <= k < v@.len() ==> v.deep_view()[k] == #[trigger] v@[k]@,
{
}

/// Join the strings of `parts` with `sep` between consecutive parts.
pub fn join_strings(parts: &Vec<String>, sep: &str) -> (r: String)
    ensures
        r@ == join_seq(parts.deep_view(), sep@),
{
    let mut r = String::new();
    let n: usize = parts.len();
    let mut i: usize = 0;
    proof {
        lemma_string_vec_deep_view(*parts);
    }
    while i < n
        invariant
            0 <= i <= n,
            n == parts@.len(),
            parts.deep_view().len() == n,
            r@ == join_seq(parts.deep_view().take(i as int), sep@),
        decreases n - i,
    {
        proof {
            assert(parts.deep_view()[i as int] == parts@[i as int].deep_view());
            assert(parts.deep_view().take(i + 1).drop_last() =~= parts.deep_view().take(i as int));
            assert(parts.deep_view().take(i + 1).last() == parts.deep_view()[i as int]);
        }
        if i > 0 {
            r.append(sep);
        }
        r.append(parts[i].as_str());
        i += 1;
    }
    proof {
        assert(parts.deep_view().take(n as int) =~= parts.deep_view());
    }
    r
}

} // verus!
