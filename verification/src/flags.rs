//! The flags of a message as a list in which they are looked up, added and taken away.

use vstd::prelude::*;
use vstd::string::*;

use crate::text;
use crate::text::same;
use crate::types::MailFlag;

verus! {

broadcast use {
    vstd::string::group_string_axioms,
    text::views_push,
    text::views_empty,
};

/// The model of a flag.
pub type FlagModel = MailFlag<Seq<char>>;

/// Whether two flags are the same.
pub fn same_flag(a: &MailFlag, b: &MailFlag) -> (r: bool)
    ensures
        r == (a@ == b@),
{
    match a {
        MailFlag::Seen => match b {
            MailFlag::Seen => true,
            _ => false,
        },
        MailFlag::Answered => match b {
            MailFlag::Answered => true,
            _ => false,
        },
        MailFlag::Flagged => match b {
            MailFlag::Flagged => true,
            _ => false,
        },
        MailFlag::Deleted => match b {
            MailFlag::Deleted => true,
            _ => false,
        },
        MailFlag::Draft => match b {
            MailFlag::Draft => true,
            _ => false,
        },
        MailFlag::Recent => match b {
            MailFlag::Recent => true,
            _ => false,
        },
        MailFlag::Custom(x) => match b {
            MailFlag::Custom(y) => same(x.as_str(), y.as_str()),
            _ => false,
        },
    }
}

/// Whether the flag is among the flags.
pub fn has_flag(flags: &Vec<MailFlag>, flag: &MailFlag) -> (r: bool)
    ensures
        r == text::views(flags@).contains(flag@),
{
    let ghost all = text::views(flags@);
    let mut i: usize = 0;
    while i < flags.len()
        invariant
            i <= flags.len(),
            all == text::views(flags@),
            forall|j: int| 0 <= j < i ==> all[j] != flag@,
        decreases flags.len() - i,
    {
        assert(all[i as int] == flags[i as int]@);
        if same_flag(&flags[i], flag) {
            return true;
        }
        i += 1;
    }
    false
}

/// The flags without this one.
pub open spec fn without(flags: Seq<FlagModel>, flag: FlagModel) -> Seq<FlagModel>
    decreases flags.len(),
{
    if flags.len() == 0 {
        seq![]
    } else if flags[0] == flag {
        without(flags.drop_first(), flag)
    } else {
        seq![flags[0]] + without(flags.drop_first(), flag)
    }
}

/// Takes the flag away.
pub fn remove_flag(flags: &mut Vec<MailFlag>, flag: &MailFlag)
    ensures
        text::views(final(flags)@) == without(text::views(old(flags)@), flag@),
{
    let ghost all = text::views(flags@);
    let ghost mut kept: Seq<FlagModel> = seq![];
    let mut i: usize = 0;
    proof {
        assert(kept + all.skip(0) =~= all);
        assert(kept + without(all.skip(0), flag@) =~= without(all, flag@)) by {
            assert(all.skip(0) =~= all);
        }
    }
    let ghost mut n: int = 0;
    while i < flags.len()
        invariant
            i <= flags.len(),
            0 <= n <= all.len(),
            kept.len() == i,
            text::views(flags@) == kept + all.skip(n),
            kept + without(all.skip(n), flag@) == without(all, flag@),
        decreases flags.len() - i,
    {
        let ghost before = flags@;
        proof {
            assert(text::views(flags@)[i as int] == flags[i as int]@);
            assert(all.skip(n)[0] == flags[i as int]@);
            assert(all.skip(n).drop_first() =~= all.skip(n + 1));
        }
        if same_flag(&flags[i], flag) {
            flags.remove(i);
            proof {
                assert(text::views(flags@) =~= text::views(before).remove(i as int));
                assert(text::views(flags@) =~= kept + all.skip(n + 1));
            }
        } else {
            proof {
                let f = flags[i as int]@;
                let rest = without(all.skip(n + 1), flag@);
                assert(kept + (seq![f] + rest) =~= kept.push(f) + rest);
                assert(kept + all.skip(n) =~= kept.push(f) + all.skip(n + 1));
                kept = kept.push(f);
            }
            i += 1;
        }
        proof {
            n = n + 1;
        }
    }
    proof {
        assert(all.skip(n).len() == 0);
        assert(text::views(flags@) =~= kept);
        assert(kept + Seq::<FlagModel>::empty() =~= kept);
    }
}

/// Adds the flag where it is not there, and takes it away where it is.
pub open spec fn toggled(flags: Seq<FlagModel>, flag: FlagModel) -> Seq<FlagModel> {
    if flags.contains(flag) {
        without(flags, flag)
    } else {
        flags.push(flag)
    }
}

/// The flags without one hold every other one that they held, and not that one.
pub proof fn without_holds(flags: Seq<FlagModel>, flag: FlagModel, other: FlagModel)
    ensures
        without(flags, flag).contains(other) == (other != flag && flags.contains(other)),
    decreases flags.len(),
{
    if flags.len() > 0 {
        let rest = flags.drop_first();
        without_holds(rest, flag, other);
        let out = without(flags, flag);
        assert(flags.contains(other) == (flags[0] == other || rest.contains(other))) by {
            if rest.contains(other) {
                let k = choose|k: int| 0 <= k < rest.len() && rest[k] == other;
                assert(flags[k + 1] == other);
            }
            if flags.contains(other) && flags[0] != other {
                let k = choose|k: int| 0 <= k < flags.len() && flags[k] == other;
                assert(rest[k - 1] == other);
            }
        }
        if flags[0] != flag {
            let tail = without(rest, flag);
            assert(out.contains(other) == (flags[0] == other || tail.contains(other))) by {
                if tail.contains(other) {
                    let k = choose|k: int| 0 <= k < tail.len() && tail[k] == other;
                    assert(out[k + 1] == other);
                }
                if flags[0] == other {
                    assert(out[0] == other);
                }
                if out.contains(other) && flags[0] != other {
                    let k = choose|k: int| 0 <= k < out.len() && out[k] == other;
                    assert(tail[k - 1] == other);
                }
            }
        }
    }
}

/// To toggle a flag changes whether it is held, and nothing about any other flag.
pub proof fn toggle_changes_one(flags: Seq<FlagModel>, flag: FlagModel, other: FlagModel)
    ensures
        toggled(flags, flag).contains(flag) != flags.contains(flag),
        other != flag ==> toggled(flags, flag).contains(other) == flags.contains(other),
{
    without_holds(flags, flag, flag);
    without_holds(flags, flag, other);
    if !flags.contains(flag) {
        let out = flags.push(flag);
        assert(out[flags.len() as int] == flag);
        if flags.contains(other) {
            let k = choose|k: int| 0 <= k < flags.len() && flags[k] == other;
            assert(out[k] == other);
        }
        if out.contains(other) && other != flag {
            let k = choose|k: int| 0 <= k < out.len() && out[k] == other;
            assert(flags[k] == other);
        }
    }
}

/// To toggle a flag twice leaves the message with the flags that it had.
pub proof fn toggle_twice(flags: Seq<FlagModel>, flag: FlagModel, other: FlagModel)
    ensures
        toggled(toggled(flags, flag), flag).contains(other) == flags.contains(other),
{
    toggle_changes_one(flags, flag, other);
    toggle_changes_one(toggled(flags, flag), flag, other);
}

} // verus!
