//! Finding the value of a named flag in an ordered argument list.

use vstd::prelude::*;

verus! {

/// The arguments of a command line as sequences of characters.
pub open spec fn arg_views(args: Seq<String>) -> Seq<Seq<char>> {
    Seq::new(args.len(), |i: int| args[i]@)
}

/// `flag` occurs somewhere in `args`.
pub open spec fn has_flag(args: Seq<Seq<char>>, flag: Seq<char>) -> bool {
    exists|i: int| 0 <= i < args.len() && #[trigger] args[i] == flag
}

/// `i` is the position of the first occurrence of `flag` in `args`.
pub open spec fn is_first_at(args: Seq<Seq<char>>, flag: Seq<char>, i: int) -> bool {
    &&& 0 <= i < args.len()
    &&& args[i] == flag
    &&& forall|j: int| 0 <= j < i ==> #[trigger] args[j] != flag
}

/// The position of the first occurrence of `flag`, where there is one.
pub open spec fn first_index(args: Seq<Seq<char>>, flag: Seq<char>) -> int {
    choose|i: int| is_first_at(args, flag, i)
}

/// The positional convention: where `flag` occurs, a value token stands
/// right behind its first occurrence.
pub open spec fn value_follows(args: Seq<Seq<char>>, flag: Seq<char>) -> bool {
    has_flag(args, flag) ==> first_index(args, flag) + 1 < args.len()
}

/// The token right behind the first occurrence of `flag`, or `None` where
/// `flag` does not occur.
pub open spec fn flag_value(args: Seq<Seq<char>>, flag: Seq<char>) -> Option<Seq<char>> {
    if has_flag(args, flag) {
        Some(args[first_index(args, flag) + 1])
    } else {
        None
    }
}

/// A first occurrence is the only one: `first_index` is that position.
pub proof fn lemma_first_index(args: Seq<Seq<char>>, flag: Seq<char>, i: int)
    requires
        is_first_at(args, flag, i),
    ensures
        has_flag(args, flag),
        first_index(args, flag) == i,
{
    let k = first_index(args, flag);
    assert(is_first_at(args, flag, k));
    if k < i {
        assert(args[k] != flag);
    }
    if i < k {
        assert(args[i] != flag);
    }
}

/// A flag that occurs has a first occurrence, at or before any position
/// that holds it.
pub proof fn lemma_first_exists(args: Seq<Seq<char>>, flag: Seq<char>, n: int)
    requires
        0 <= n < args.len(),
        args[n] == flag,
    ensures
        is_first_at(args, flag, first_index(args, flag)),
        first_index(args, flag) <= n,
    decreases n,
{
    if exists|j: int| 0 <= j < n && #[trigger] args[j] == flag {
        let j = choose|j: int| 0 <= j < n && #[trigger] args[j] == flag;
        lemma_first_exists(args, flag, j);
    } else {
        assert(is_first_at(args, flag, n));
        lemma_first_index(args, flag, n);
    }
}

/// Tokens appended to a list change no answer of the scan for a flag that
/// the list holds with its value: the first occurrence and the token behind
/// it stay where they are.
pub proof fn lemma_scan_of_extended(args: Seq<Seq<char>>, more: Seq<Seq<char>>, flag: Seq<char>)
    requires
        has_flag(args, flag),
        value_follows(args, flag),
    ensures
        has_flag(args + more, flag),
        value_follows(args + more, flag),
        first_index(args + more, flag) == first_index(args, flag),
        flag_value(args + more, flag) == flag_value(args, flag),
{
    let n = choose|n: int| 0 <= n < args.len() && #[trigger] args[n] == flag;
    lemma_first_exists(args, flag, n);
    let i = first_index(args, flag);
    let longer = args + more;
    assert(longer[i] == args[i]);
    assert forall|j: int| 0 <= j < i implies #[trigger] longer[j] != flag by {
        assert(longer[j] == args[j]);
    }
    assert(is_first_at(longer, flag, i));
    lemma_first_index(longer, flag, i);
    assert(longer[i + 1] == args[i + 1]);
}

/// Whether `args` keeps the positional convention for `flag`: true unless
/// the first occurrence of `flag` is the last token.
pub fn has_value_after(args: &[String], flag: &str) -> (ok: bool)
    ensures
        ok == value_follows(arg_views(args@), flag@),
{
    let ghost views = arg_views(args@);
    let wanted: String = flag.to_owned();
    let mut i: usize = 0;
    while i < args.len()
        invariant
            i <= args.len(),
            views == arg_views(args@),
            wanted@ == flag@,
            forall|j: int| 0 <= j < i ==> #[trigger] views[j] != flag@,
        decreases args.len() - i,
    {
        if args[i] == wanted {
            proof {
                assert(views[i as int] == flag@);
                lemma_first_index(views, flag@, i as int);
            }
            return i + 1 < args.len();
        }
        i += 1;
    }
    true
}

/// Returns the token right behind the first occurrence of `arg` in `args`,
/// or `None` where `arg` does not occur. The scan stops at the first match.
/// The list has to keep the positional convention for `arg`, which
/// `has_value_after` tests.
pub fn parse_arg(args: &[String], arg: &str) -> (found: Option<String>)
    requires
        value_follows(arg_views(args@), arg@),
    ensures
        found.is_some() == has_flag(arg_views(args@), arg@),
        match found {
            Some(value) => Some(value@) == flag_value(arg_views(args@), arg@),
            None => flag_value(arg_views(args@), arg@).is_none(),
        },
{
    let ghost views = arg_views(args@);
    let wanted: String = arg.to_owned();
    let mut i: usize = 0;
    while i < args.len()
        invariant
            i <= args.len(),
            views == arg_views(args@),
            wanted@ == arg@,
            value_follows(views, arg@),
            forall|j: int| 0 <= j < i ==> #[trigger] views[j] != arg@,
        decreases args.len() - i,
    {
        if args[i] == wanted {
            proof {
                assert(views[i as int] == arg@);
                lemma_first_index(views, arg@, i as int);
            }
            let value = args[i + 1].clone();
            assert(value@ == views[i + 1]);
            return Some(value);
        }
        i += 1;
    }
    None
}

} // verus!
