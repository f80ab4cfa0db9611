use vstd::prelude::*;

use crate::robot::joint::Joint;

verus! {

/// The fewest segments an arm may have.
pub const MIN_SEGMENT_COUNT: usize = 2;

/// The most segments an arm may have.
pub const MAX_SEGMENT_COUNT: usize = 5;

/// Whether an arm with this many segments can be built.
pub fn is_supported_segment_count(segment_count: usize) -> (supported: bool)
    ensures
        supported == (MIN_SEGMENT_COUNT <= segment_count <= MAX_SEGMENT_COUNT),
{
    MIN_SEGMENT_COUNT <= segment_count && segment_count <= MAX_SEGMENT_COUNT
}

/// The joints of an arm with the given number of segments: one at the base
/// and one at the end of each segment, numbered along the chain.
pub fn arm_joints(segment_count: usize) -> (joints: Vec<Joint>)
    requires
        segment_count < usize::MAX,
    ensures
        joints.len() == segment_count + 1,
        forall|i: int| 0 <= i < joints.len() ==> #[trigger] joints[i].id == i,
{
    let mut joints: Vec<Joint> = Vec::new();
    let mut id: usize = 0;
    while id <= segment_count
        invariant
            id <= segment_count + 1,
            segment_count < usize::MAX,
            joints.len() == id,
            forall|i: int| 0 <= i < joints.len() ==> #[trigger] joints[i].id == i,
        decreases segment_count + 1 - id,
    {
        joints.push(Joint::new(id));
        id = id + 1;
    }
    joints
}

/// The counts of an arm agree: one angle and one limit per segment, one
/// joint more than segments, and one computed position per joint.
pub open spec fn counts_agree(
    segment_count: nat,
    angle_count: nat,
    limit_count: nat,
    joint_count: nat,
    position_count: nat,
) -> bool {
    &&& angle_count == segment_count
    &&& limit_count == segment_count
    &&& joint_count == segment_count + 1
    &&& position_count == segment_count + 1
}

/// The count checks of an arm's validation.
pub fn layout_is_consistent(
    segment_count: usize,
    angle_count: usize,
    limit_count: usize,
    joint_count: usize,
    position_count: usize,
) -> (consistent: bool)
    ensures
        consistent == counts_agree(
            segment_count as nat,
            angle_count as nat,
            limit_count as nat,
            joint_count as nat,
            position_count as nat,
        ),
{
    angle_count == segment_count && limit_count == segment_count && joint_count >= 1
        && joint_count - 1 == segment_count && position_count >= 1 && position_count - 1
        == segment_count
}

} // verus!
