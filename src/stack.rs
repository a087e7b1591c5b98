use vstd::prelude::*;

verus! {

/// What the stack-size query reports when the program declared no budget.
pub const UNCONFIGURED_STACK_SIZE: i32 = -1;

/// The value the query reports for a declared budget: the budget itself, or the
/// negative sentinel when none was declared.
pub open spec fn reported_stack_size(declared: Option<u32>) -> i32 {
    match declared {
        Some(b) => b as i32,
        None => UNCONFIGURED_STACK_SIZE,
    }
}

/// The budget boot code settles on from the query's answer: a non-negative
/// answer as it is, the host's default otherwise.
pub open spec fn settled_stack_size(reported: i32, host_default: u32) -> u32 {
    if reported < 0 {
        host_default
    } else {
        reported as u32
    }
}

/// The stack budget in bytes that boot code reads once, before the stack is set
/// up: the program's declared budget, or `UNCONFIGURED_STACK_SIZE`. The value is
/// passed through unchecked.
pub fn get_stack_size(declared: Option<u32>) -> (r: i32)
    requires
        declared matches Some(b) ==> b <= i32::MAX,
    ensures
        r == reported_stack_size(declared),
        declared matches Some(b) ==> r == b,
        declared is None ==> r < 0,
{
    match declared {
        Some(b) => b as i32,
        None => UNCONFIGURED_STACK_SIZE,
    }
}

/// The budget boot code uses given the query's answer `reported`: the host's
/// default where no budget was declared.
pub fn settle_stack_size(reported: i32, host_default: u32) -> (r: u32)
    ensures
        r == settled_stack_size(reported, host_default),
{
    if reported < 0 {
        host_default
    } else {
        reported as u32
    }
}

/// Boot code ends with the declared budget where there is one, and with the
/// host's default where there is none.
pub proof fn lemma_settled_budget(declared: Option<u32>, host_default: u32)
    requires
        declared matches Some(b) ==> b <= i32::MAX,
    ensures
        settled_stack_size(reported_stack_size(declared), host_default) == match declared {
            Some(b) => b,
            None => host_default,
        },
{
}

} // verus!
