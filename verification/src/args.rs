//! The argument list of a dump call.
//!
//! The caller lends its arguments for one call only, while the worker that
//! hands them to the remote service may outlive that loan. So the worker gets
//! a copy that owns its strings, and lends them out again for the remote
//! call. Either way every token arrives as it was given.

use vstd::prelude::*;

verus! {

/// An independently owned copy of `args`: as many tokens, each with the same
/// text, in the same order.
pub fn owned_args(args: &[&str]) -> (owned: Vec<String>)
    ensures
        owned@.len() == args@.len(),
        forall|i: int| 0 <= i < args@.len() ==> owned@[i]@ == args@[i]@,
        owned.deep_view() == args.deep_view(),
{
    let mut owned: Vec<String> = Vec::new();
    let mut i: usize = 0;
    while i < args.len()
        invariant
            i <= args@.len(),
            owned@.len() == i,
            forall|k: int| 0 <= k < i ==> owned@[k]@ == args@[k]@,
        decreases args@.len() - i,
    {
        owned.push(args[i].to_owned());
        i += 1;
    }
    proof {
        assert(owned.deep_view() =~= args.deep_view());
    }
    owned
}

/// The tokens of `owned`, lent out as string slices in the same order.
pub fn borrowed_args<'a>(owned: &'a Vec<String>) -> (args: Vec<&'a str>)
    ensures
        args@.len() == owned@.len(),
        forall|i: int| 0 <= i < owned@.len() ==> args@[i]@ == owned@[i]@,
        args.deep_view() == owned.deep_view(),
{
    let mut args: Vec<&'a str> = Vec::new();
    let mut i: usize = 0;
    while i < owned.len()
        invariant
            i <= owned@.len(),
            args@.len() == i,
            forall|k: int| 0 <= k < i ==> args@[k]@ == owned@[k]@,
        decreases owned@.len() - i,
    {
        args.push(owned[i].as_str());
        i += 1;
    }
    proof {
        assert(args.deep_view() =~= owned.deep_view());
    }
    args
}

} // verus!
