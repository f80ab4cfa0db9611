use vstd::prelude::*;

verus! {

/// The fewest joints the panel lets the user choose.
pub const MIN_JOINT_COUNT: usize = 2;

/// The most joints the panel lets the user choose.
pub const MAX_JOINT_COUNT: usize = 5;

/// The joint count the panel starts with: the requested count brought into
/// the panel's range.
pub fn clamp_joint_count(joint_count: usize) -> (clamped: usize)
    ensures
        clamped == (if joint_count < MIN_JOINT_COUNT {
            MIN_JOINT_COUNT
        } else if joint_count > MAX_JOINT_COUNT {
            MAX_JOINT_COUNT
        } else {
            joint_count
        }),
{
    if joint_count < MIN_JOINT_COUNT {
        MIN_JOINT_COUNT
    } else if joint_count > MAX_JOINT_COUNT {
        MAX_JOINT_COUNT
    } else {
        joint_count
    }
}

} // verus!
