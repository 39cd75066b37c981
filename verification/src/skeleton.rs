use vstd::prelude::*;

verus! {

/// The classes of skeleton enemies.
#[derive(Debug, Clone, Copy, PartialEq, Eq, Hash, Structural)]
pub enum SkeletonClass {
    Minon,
    Warrior,
    Shaman,
    Archer,
}

impl SkeletonClass {
    /// The display name of the class.
    pub open spec fn name(self) -> Seq<char> {
        match self {
            SkeletonClass::Minon => "Minon"@,
            SkeletonClass::Warrior => "Warrior"@,
            SkeletonClass::Shaman => "Shaman"@,
            SkeletonClass::Archer => "Archer"@,
        }
    }

    /// The display name of the class, as a string.
    pub fn to_string(&self) -> (s: String)
        ensures
            s@ == self.name(),
    {
        String::from_str(self.as_str())
    }

    /// The display name of the class, borrowed.
    pub fn as_str(&self) -> (s: &'static str)
        ensures
            s@ == self.name(),
    {
        match self {
            SkeletonClass::Minon => "Minon",
            SkeletonClass::Warrior => "Warrior",
            SkeletonClass::Shaman => "Shaman",
            SkeletonClass::Archer => "Archer",
        }
    }
}

/// Two skeleton classes share a display name only when they are the same class.
pub proof fn lemma_skeleton_names_distinct(a: SkeletonClass, b: SkeletonClass)
    ensures
        a.name() == b.name() <==> a == b,
{
    reveal_strlit("Minon");
    reveal_strlit("Warrior");
    reveal_strlit("Shaman");
    reveal_strlit("Archer");
    if a.name() == b.name() {
        assert(a.name().len() == b.name().len());
        assert(a.name()[0] == b.name()[0]);
    }
}

} // verus!
