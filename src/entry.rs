use vstd::prelude::*;

verus! {

/// The entry point that boot code calls once: forwards its three words to the
/// program's entry function `main` unchanged and returns what `main` returns,
/// unchanged, as the process's result.
pub fn start_rust<F: FnOnce(u32, u32, u32) -> u32>(main: F, a0: u32, a1: u32, a2: u32) -> (r: u32)
    requires
        main.requires((a0, a1, a2)),
    ensures
        main.ensures((a0, a1, a2), r),
{
    main(a0, a1, a2)
}

} // verus!
