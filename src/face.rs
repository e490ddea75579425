use vstd::prelude::*;

verus! {

/// A triangle of three joints, named by their indices.
#[derive(Clone, Copy, Debug, PartialEq, Eq, Structural)]
pub struct Face {
    pub joint0: u16,
    pub joint1: u16,
    pub joint2: u16,
}

impl Face {
    pub fn new(joint0: u16, joint1: u16, joint2: u16) -> (r: Face)
        ensures
            r == (Face { joint0, joint1, joint2 }),
    {
        Face { joint0, joint1, joint2 }
    }

    /// Whether all three corners are joints of a fabric with `joint_count` joints.
    pub open spec fn within(&self, joint_count: nat) -> bool {
        &&& (self.joint0 as nat) < joint_count
        &&& (self.joint1 as nat) < joint_count
        &&& (self.joint2 as nat) < joint_count
    }
}

} // verus!
