//! The command line.

use vstd::prelude::*;

use crate::text;

verus! {

/// The first position of a flag among the arguments, from position `i` on.
pub open spec fn flag_at(args: Seq<Seq<char>>, flag: Seq<char>, i: int) -> Option<int>
    decreases args.len() - i,
{
    if i < 0 || i >= args.len() {
        None
    } else if args[i] == flag {
        Some(i)
    } else {
        flag_at(args, flag, i + 1)
    }
}

/// What follows the first occurrence of a flag, if anything does.
pub open spec fn value_of_flag(args: Seq<Seq<char>>, flag: Seq<char>) -> Option<Seq<char>> {
    match flag_at(args, flag, 0) {
        Some(i) => if i + 1 < args.len() {
            Some(args[i + 1])
        } else {
            None
        },
        None => None,
    }
}

/// What follows the first occurrence of a flag, if anything does.
pub fn parse_arg(args: &[String], flag: &str) -> (r: Option<String>)
    ensures
        r.deep_view() == value_of_flag(args.deep_view(), flag@),
{
    let ghost all = args.deep_view();
    let mut i: usize = 0;
    while i < args.len()
        invariant
            i <= args@.len(),
            all == args.deep_view(),
            all.len() == args@.len(),
            flag_at(all, flag@, 0) == flag_at(all, flag@, i as int),
        decreases args.len() - i,
    {
        if text::same(args[i].as_str(), flag) {
            if i + 1 < args.len() {
                return Some(args[i + 1].clone());
            }
            return None;
        }
        i += 1;
    }
    None
}

proof fn flag_is_first(args: Seq<Seq<char>>, flag: Seq<char>, from: int)
    requires
        0 <= from <= args.len(),
    ensures
        match flag_at(args, flag, from) {
            Some(i) => from <= i < args.len() && args[i] == flag && forall|k: int|
                from <= k < i ==> #[trigger] args[k] != flag,
            None => forall|k: int| from <= k < args.len() ==> #[trigger] args[k] != flag,
        },
    decreases args.len() - from,
{
    if from < args.len() {
        flag_is_first(args, flag, from + 1);
    }
}

/// The value of a flag is the argument after the first occurrence of the flag; a flag that
/// is not there, or that comes last, has none.
pub proof fn flags_have_their_values(args: Seq<Seq<char>>, flag: Seq<char>, i: int)
    ensures
        0 <= i < args.len() && args[i] == flag && (forall|k: int|
            0 <= k < i ==> #[trigger] args[k] != flag) ==> value_of_flag(args, flag) == (if i + 1
            < args.len() {
            Some(args[i + 1])
        } else {
            None
        }),
        !args.contains(flag) ==> value_of_flag(args, flag) is None,
{
    flag_is_first(args, flag, 0);
    if let Some(j) = flag_at(args, flag, 0) {
        assert(args.contains(args[j]));
        if 0 <= i < args.len() && args[i] == flag && (forall|k: int|
            0 <= k < i ==> #[trigger] args[k] != flag) {
            if j < i {
                assert(args[j] != flag);
            }
            if i < j {
                assert(args[i] != flag);
            }
        }
    }
}

} // verus!
