use vstd::prelude::*;

verus! {

/// The classes a hero can be played as.
#[derive(Debug, Clone, Copy, PartialEq, Eq, Hash, Structural)]
pub enum HeroClass {
    Barbarian,
    Knight,
    Mage,
    Rogue,
}

/// Number of hero classes.
pub const HERO_CLASS_COUNT: usize = 4;

impl HeroClass {
    /// The display name of the class.
    pub open spec fn name(self) -> Seq<char> {
        match self {
            HeroClass::Barbarian => "Barbarian"@,
            HeroClass::Knight => "Knight"@,
            HeroClass::Mage => "Mage"@,
            HeroClass::Rogue => "Rogue"@,
        }
    }

    /// Every class, in the order in which the game lists them.
    pub open spec fn all_spec() -> Seq<HeroClass> {
        seq![HeroClass::Barbarian, HeroClass::Knight, HeroClass::Mage, HeroClass::Rogue]
    }

    /// The display name of the class, as a string.
    pub fn to_string(&self) -> (s: String)
        ensures
            s@ == self.name(),
    {
        String::from_str(self.as_str())
    }

    /// The display name of the class, borrowed.
    pub fn as_str(&self) -> (s: &'static str)
        ensures
            s@ == self.name(),
    {
        match self {
            HeroClass::Barbarian => "Barbarian",
            HeroClass::Knight => "Knight",
            HeroClass::Mage => "Mage",
            HeroClass::Rogue => "Rogue",
        }
    }
}

/// Every class, in the order in which the game lists them.
pub fn hero_classes() -> (v: Vec<HeroClass>)
    ensures
        v@ == HeroClass::all_spec(),
{
    let v = vec![HeroClass::Barbarian, HeroClass::Knight, HeroClass::Mage, HeroClass::Rogue];
    assert(v@ =~= HeroClass::all_spec());
    v
}

/// The class at position `i` of the list of classes; the server draws `i`
/// at random for each player that joins.
pub fn hero_class_at(i: usize) -> (c: HeroClass)
    requires
        i < HERO_CLASS_COUNT,
    ensures
        c == HeroClass::all_spec()[i as int],
{
    match i {
        0 => HeroClass::Barbarian,
        1 => HeroClass::Knight,
        2 => HeroClass::Mage,
        _ => HeroClass::Rogue,
    }
}

/// Two classes share a display name only when they are the same class.
pub proof fn lemma_hero_names_distinct(a: HeroClass, b: HeroClass)
    ensures
        a.name() == b.name() <==> a == b,
{
    reveal_strlit("Barbarian");
    reveal_strlit("Knight");
    reveal_strlit("Mage");
    reveal_strlit("Rogue");
    if a.name() == b.name() {
        assert(a.name().len() == b.name().len());
    }
}

/// The list of classes holds every class exactly once, so each index drawn
/// below its length names one class and every class can be drawn.
pub proof fn lemma_hero_classes_complete(c: HeroClass)
    ensures
        HeroClass::all_spec().len() == HERO_CLASS_COUNT,
        HeroClass::all_spec().contains(c),
        forall|i: int, j: int|
            0 <= i < HERO_CLASS_COUNT && 0 <= j < HERO_CLASS_COUNT
                && HeroClass::all_spec()[i] == HeroClass::all_spec()[j] ==> i == j,
{
    let s = HeroClass::all_spec();
    match c {
        HeroClass::Barbarian => assert(s[0] == c),
        HeroClass::Knight => assert(s[1] == c),
        HeroClass::Mage => assert(s[2] == c),
        HeroClass::Rogue => assert(s[3] == c),
    }
}

} // verus!
