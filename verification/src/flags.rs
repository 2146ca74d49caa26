use vstd::prelude::*;

verus! {

/// The two signals between the update and the replacement of the updater's own file.
///
/// `need_update_myself` is raised by staging when the manifest replaces the running
/// executable. `update_myself_now` is raised once every other file has been copied:
/// only then may the running executable be swapped.
#[derive(Clone, Copy, Debug, PartialEq, Eq, Structural)]
pub struct SelfUpdateFlags {
    pub need_update_myself: bool,
    pub update_myself_now: bool,
}

impl SelfUpdateFlags {
    /// Both signals lowered, as they are when a process starts.
    pub fn new() -> (flags: SelfUpdateFlags)
        ensures
            !flags.need_update_myself,
            !flags.update_myself_now,
    {
        SelfUpdateFlags { need_update_myself: false, update_myself_now: false }
    }
}

/// Records whether the running executable is among the files to replace.
pub fn set_need_update_myself(flags: &mut SelfUpdateFlags, value: bool)
    ensures
        final(flags).need_update_myself == value,
        final(flags).update_myself_now == old(flags).update_myself_now,
{
    flags.need_update_myself = value;
}

/// Whether the running executable is among the files to replace.
pub fn need_update_myself(flags: &SelfUpdateFlags) -> (r: bool)
    ensures
        r == flags.need_update_myself,
{
    flags.need_update_myself
}

/// Whether the running executable may be swapped now.
pub fn update_myself_now(flags: &SelfUpdateFlags) -> (r: bool)
    ensures
        r == flags.update_myself_now,
{
    flags.update_myself_now
}

/// Allows the swap of the running executable and returns the signal as it then stands.
pub fn mark_update_myself_now(flags: &mut SelfUpdateFlags) -> (r: bool)
    ensures
        r,
        final(flags).update_myself_now,
        final(flags).need_update_myself == old(flags).need_update_myself,
{
    flags.update_myself_now = true;
    flags.update_myself_now
}

} // verus!
