//! Finding the microcontroller's serial adapter among the device names.
use vstd::prelude::*;
use vstd::string::StrSliceExecFns;

verus! {

/// Serial adapters of the kind the microcontroller presents are named `ttyACM<n>`.
pub open spec fn spec_is_adapter(name: Seq<char>) -> bool {
    name.len() >= 6 && name.subrange(0, 6) == seq!['t', 't', 'y', 'A', 'C', 'M']
}

pub fn is_adapter_name(name: &str) -> (r: bool)
    ensures
        r == spec_is_adapter(name@),
{
    let prefix: [char; 6] = ['t', 't', 'y', 'A', 'C', 'M'];
    proof {
        assert(prefix@ =~= seq!['t', 't', 'y', 'A', 'C', 'M']);
    }
    if name.unicode_len() < 6 {
        return false;
    }
    let mut i: usize = 0;
    while i < 6
        invariant
            i <= 6,
            name@.len() >= 6,
            prefix@ == seq!['t', 't', 'y', 'A', 'C', 'M'],
            name@.subrange(0, i as int) == prefix@.subrange(0, i as int),
        decreases 6 - i,
    {
        if name.get_char(i) != prefix[i] {
            proof {
                assert(name@.subrange(0, 6)[i as int] != prefix@[i as int]);
            }
            return false;
        }
        proof {
            assert(name@.subrange(0, i + 1) =~= prefix@.subrange(0, i + 1));
        }
        i = i + 1;
    }
    proof {
        assert(prefix@.subrange(0, 6) =~= prefix@);
    }
    true
}

/// The index of the first adapter among `names`, or none if there is none.
pub fn find_adapter(names: &Vec<String>) -> (r: Option<usize>)
    ensures
        match r {
            Some(i) => i < names@.len() && spec_is_adapter(names@[i as int]@)
                && forall|j: int| 0 <= j < i ==> !spec_is_adapter(#[trigger] names@[j]@),
            None => forall|j: int| 0 <= j < names@.len() ==> !spec_is_adapter(#[trigger] names@[j]@),
        },
{
    let mut i: usize = 0;
    while i < names.len()
        invariant
            i <= names@.len(),
            forall|j: int| 0 <= j < i ==> !spec_is_adapter(#[trigger] names@[j]@),
        decreases names@.len() - i,
    {
        if is_adapter_name(names[i].as_str()) {
            return Some(i);
        }
        i = i + 1;
    }
    None
}

} // verus!
