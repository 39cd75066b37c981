use vstd::prelude::*;

use crate::hero::HeroClass;

verus! {

/// The animation clips a hero plays.
#[derive(Debug, Clone, Copy, PartialEq, Eq, Hash, Structural)]
pub enum Animation {
    Idle,
    Walking,
    Running,
    Jump,
    Drink,
    Attack,
    Interact,
}

impl Animation {
    /// The name of the clip inside a character's model file.
    pub open spec fn clip(self) -> Seq<char> {
        match self {
            Animation::Idle => "Idle_36"@,
            Animation::Walking => "Walking_B_73"@,
            Animation::Running => "Running_A_48"@,
            Animation::Jump => "Jump_Full_Short_39"@,
            Animation::Drink => "Use_Item_71"@,
            Animation::Attack => "1H_Melee_Attack_Slice_Diagonal_1"@,
            Animation::Interact => "Interact_37"@,
        }
    }

    /// Whether the clip repeats: movement clips loop, one-shot actions do not.
    pub open spec fn loops(self) -> bool {
        match self {
            Animation::Idle | Animation::Walking | Animation::Running => true,
            _ => false,
        }
    }

    /// The name of the clip inside a character's model file.
    pub fn clip_name(&self) -> (s: &'static str)
        ensures
            s@ == self.clip(),
    {
        match self {
            Animation::Idle => "Idle_36",
            Animation::Walking => "Walking_B_73",
            Animation::Running => "Running_A_48",
            Animation::Jump => "Jump_Full_Short_39",
            Animation::Drink => "Use_Item_71",
            Animation::Attack => "1H_Melee_Attack_Slice_Diagonal_1",
            Animation::Interact => "Interact_37",
        }
    }

    /// Whether the clip repeats once it has played.
    pub fn is_looping(&self) -> (b: bool)
        ensures
            b == self.loops(),
            b <==> (*self == Animation::Idle || *self == Animation::Walking || *self
                == Animation::Running),
    {
        match self {
            Animation::Idle | Animation::Walking | Animation::Running => true,
            _ => false,
        }
    }
}

/// The path of a hero's model: `characters/<Class>/<Class>.glb`.
pub open spec fn model_path_spec(class: HeroClass) -> Seq<char> {
    "characters/"@ + class.name() + "/"@ + class.name() + ".glb"@
}

/// The path of an animation clip inside a hero's model:
/// `characters/<Class>/<Class>.glb/animations/<clip>.anim`.
pub open spec fn animation_path_spec(class: HeroClass, anim: Animation) -> Seq<char> {
    model_path_spec(class) + "/animations/"@ + anim.clip() + ".anim"@
}

/// Builds the path of a hero's model.
pub fn model_path(class: HeroClass) -> (path: String)
    ensures
        path@ == model_path_spec(class),
        path@ == "characters/"@ + class.name() + "/"@ + class.name() + ".glb"@,
{
    let name = class.as_str();
    let mut path = String::from_str("characters/");
    path.append(name);
    path.append("/");
    path.append(name);
    path.append(".glb");
    path
}

/// Builds the path of an animation clip of a hero's model.
pub fn animation_path(class: HeroClass, anim: Animation) -> (path: String)
    ensures
        path@ == animation_path_spec(class, anim),
        path@ == "characters/"@ + class.name() + "/"@ + class.name() + ".glb"@ + "/animations/"@
            + anim.clip() + ".anim"@,
{
    let mut path = model_path(class);
    path.append("/animations/");
    path.append(anim.clip_name());
    path.append(".anim");
    path
}

/// Every hero's model lives at `characters/<Class>/<Class>.glb`, and each of
/// its clips at that path followed by `/animations/<clip>.anim`.
pub proof fn lemma_asset_path_shape(class: HeroClass, anim: Animation)
    ensures
        model_path_spec(class) == "characters/"@ + class.name() + "/"@ + class.name() + ".glb"@,
        animation_path_spec(class, anim) == "characters/"@ + class.name() + "/"@ + class.name()
            + ".glb"@ + "/animations/"@ + anim.clip() + ".anim"@,
        model_path_spec(class).subrange(0, 12 + class.name().len() as int) == "characters/"@
            + class.name() + "/"@,
{
    reveal_strlit("characters/");
    reveal_strlit("/");
    let m = model_path_spec(class);
    assert(m.subrange(0, 12 + class.name().len() as int) =~= "characters/"@ + class.name() + "/"@);
}

/// Distinct hero classes have distinct model files.
pub proof fn lemma_model_paths_distinct(a: HeroClass, b: HeroClass)
    ensures
        model_path_spec(a) == model_path_spec(b) <==> a == b,
{
    reveal_strlit("Barbarian");
    reveal_strlit("Knight");
    reveal_strlit("Mage");
    reveal_strlit("Rogue");
    reveal_strlit("characters/");
    reveal_strlit("/");
    reveal_strlit(".glb");
    if model_path_spec(a) == model_path_spec(b) {
        assert(model_path_spec(a).len() == model_path_spec(b).len());
    }
}

/// An animation clip lives inside the model file of its hero.
pub proof fn lemma_animation_path_extends_model_path(class: HeroClass, anim: Animation)
    ensures
        animation_path_spec(class, anim).subrange(0, model_path_spec(class).len() as int)
            == model_path_spec(class),
{
    let m = model_path_spec(class);
    assert(animation_path_spec(class, anim).subrange(0, m.len() as int) =~= m);
}

/// Within one hero's model, distinct animations are distinct clips.
pub proof fn lemma_animation_paths_distinct(class: HeroClass, a: Animation, b: Animation)
    ensures
        animation_path_spec(class, a) == animation_path_spec(class, b) <==> a == b,
{
    reveal_strlit("Idle_36");
    reveal_strlit("Walking_B_73");
    reveal_strlit("Running_A_48");
    reveal_strlit("Jump_Full_Short_39");
    reveal_strlit("Use_Item_71");
    reveal_strlit("1H_Melee_Attack_Slice_Diagonal_1");
    reveal_strlit("Interact_37");
    let prefix = model_path_spec(class) + "/animations/"@;
    if animation_path_spec(class, a) == animation_path_spec(class, b) {
        let pa = animation_path_spec(class, a);
        let pb = animation_path_spec(class, b);
        assert(pa =~= prefix + a.clip() + ".anim"@);
        assert(pb =~= prefix + b.clip() + ".anim"@);
        assert(pa.len() == pb.len());
        assert(a.clip().len() == b.clip().len());
        assert(pa[prefix.len() as int] == a.clip()[0]);
        assert(pb[prefix.len() as int] == b.clip()[0]);
    }
}

} // verus!
