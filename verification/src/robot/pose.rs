use vstd::prelude::*;

verus! {

/// The positions of an arm's joints, from the base to the end effector, and
/// the end effector itself.
///
/// The pose is generic in the position type: the application fills it with
/// floating-point points; the rules kept here do not depend on what a
/// position is.
#[derive(Debug, Clone, PartialEq)]
pub struct RobotPose<P> {
    pub joint_positions: Vec<P>,
    pub end_effector: P,
}

impl<P: Copy> RobotPose<P> {
    /// A well-formed pose has at least one joint, and its end effector is its
    /// last joint.
    pub open spec fn wf(&self) -> bool {
        &&& self.joint_positions.len() > 0
        &&& self.end_effector == self.joint_positions@.last()
    }

    /// A pose with every joint at the base.
    pub fn new(base_position: P, joint_count: usize) -> (pose: Self)
        requires
            joint_count > 0,
        ensures
            pose.joint_positions@ == Seq::new(joint_count as nat, |i: int| base_position),
            pose.end_effector == base_position,
            pose.wf(),
    {
        let mut joint_positions: Vec<P> = Vec::new();
        let mut count: usize = 0;
        while count < joint_count
            invariant
                count <= joint_count,
                joint_positions@ == Seq::new(count as nat, |i: int| base_position),
            decreases joint_count - count,
        {
            joint_positions.push(base_position);
            count = count + 1;
        }
        RobotPose { joint_positions, end_effector: base_position }
    }

    /// A pose through the given positions; the last one is the end effector.
    pub fn from_positions(positions: Vec<P>) -> (pose: Self)
        requires
            positions.len() > 0,
        ensures
            pose.joint_positions@ == positions@,
            pose.end_effector == positions@.last(),
            pose.wf(),
    {
        let end_effector: P = positions[positions.len() - 1];
        RobotPose { joint_positions: positions, end_effector }
    }

    pub fn joint_count(&self) -> (count: usize)
        ensures
            count == self.joint_positions.len(),
    {
        self.joint_positions.len()
    }

    pub fn joint_position(&self, index: usize) -> (position: Option<P>)
        ensures
            position == (if index < self.joint_positions.len() {
                Some(self.joint_positions@[index as int])
            } else {
                None
            }),
    {
        if index < self.joint_positions.len() {
            Some(self.joint_positions[index])
        } else {
            None
        }
    }

    pub fn end_effector(&self) -> (position: P)
        ensures
            position == self.end_effector,
    {
        self.end_effector
    }

    /// Moves one joint; moving the last joint moves the end effector with it.
    /// An index past the last joint changes nothing.
    pub fn set_joint_position(&mut self, index: usize, position: P) -> (updated: bool)
        ensures
            updated == (index < old(self).joint_positions.len()),
            updated ==> final(self).joint_positions@ == old(self).joint_positions@.update(
                index as int,
                position,
            ),
            updated ==> final(self).end_effector == (if index + 1 == old(
                self,
            ).joint_positions.len() {
                position
            } else {
                old(self).end_effector
            }),
            !updated ==> *final(self) == *old(self),
            old(self).wf() ==> final(self).wf(),
    {
        if index < self.joint_positions.len() {
            self.joint_positions.set(index, position);
            if index + 1 == self.joint_positions.len() {
                self.end_effector = position;
            }
            true
        } else {
            false
        }
    }

    /// Moves every joint at once; the positions must be as many as the
    /// joints, and the last one becomes the end effector.
    pub fn set_positions(&mut self, positions: &[P]) -> (updated: bool)
        ensures
            updated == (positions@.len() == old(self).joint_positions.len()),
            updated ==> final(self).joint_positions@ == positions@,
            updated ==> final(self).end_effector == (if positions@.len() > 0 {
                positions@.last()
            } else {
                old(self).end_effector
            }),
            !updated ==> *final(self) == *old(self),
            old(self).wf() ==> final(self).wf(),
    {
        if positions.len() != self.joint_positions.len() {
            return false;
        }
        let mut index: usize = 0;
        while index < positions.len()
            invariant
                index <= positions@.len(),
                self.joint_positions.len() == positions@.len(),
                self.end_effector == old(self).end_effector,
                forall|i: int| 0 <= i < index ==> self.joint_positions@[i] == positions@[i],
            decreases positions@.len() - index,
        {
            self.joint_positions.set(index, positions[index]);
            index = index + 1;
        }
        assert(self.joint_positions@ =~= positions@);
        if positions.len() > 0 {
            self.end_effector = positions[positions.len() - 1];
        }
        true
    }

    /// Moves the end effector, and the last joint with it.
    pub fn set_end_effector(&mut self, position: P)
        ensures
            final(self).end_effector == position,
            final(self).joint_positions@ == (if old(self).joint_positions.len() > 0 {
                old(self).joint_positions@.update(
                    old(self).joint_positions.len() - 1,
                    position,
                )
            } else {
                old(self).joint_positions@
            }),
            old(self).wf() ==> final(self).wf(),
    {
        self.end_effector = position;
        let count: usize = self.joint_positions.len();
        if count > 0 {
            self.joint_positions.set(count - 1, position);
        }
    }

    /// Moves every joint, and the end effector, back to the base.
    pub fn reset(&mut self, base_position: P)
        ensures
            final(self).joint_positions@ == Seq::new(
                old(self).joint_positions.len() as nat,
                |i: int| base_position,
            ),
            final(self).end_effector == base_position,
            old(self).wf() ==> final(self).wf(),
    {
        let mut index: usize = 0;
        while index < self.joint_positions.len()
            invariant
                index <= self.joint_positions.len(),
                self.joint_positions.len() == old(self).joint_positions.len(),
                forall|i: int| 0 <= i < index ==> self.joint_positions@[i] == base_position,
            decreases self.joint_positions.len() - index,
        {
            self.joint_positions.set(index, base_position);
            index = index + 1;
        }
        assert(self.joint_positions@ =~= Seq::new(
            old(self).joint_positions.len() as nat,
            |i: int| base_position,
        ));
        self.end_effector = base_position;
    }
}

} // verus!
