//! The plain enumerations and small records that the game's systems share.
use core::ops::RangeInclusive;
use vstd::prelude::*;

verus! {

/// Compares two strings by their characters.
pub(crate) fn str_eq(a: &str, b: &str) -> (r: bool)
    ensures
        r == (a@ == b@),
{
    a.to_owned() == b.to_owned()
}

#[derive(Debug, Eq, PartialEq, Hash, Structural)]
pub enum VaoType {
    Cube,
    Skybox,
    DebugLight,
    GroundPlane,
    BaseQuad,
}

#[derive(Debug, Eq, PartialEq, Hash, Structural)]
pub enum VboType {
    Cube,
    Skybox,
    DebugLight,
    GroundPlane,
    BaseQuad,
}

#[derive(Debug, Eq, PartialEq, Hash, Structural)]
pub enum EboType {
    Cube,
    Skybox,
    DebugLight,
}

#[derive(Debug, Eq, PartialEq, Hash, Structural)]
pub enum FboType {
    DepthMap,
    HDR,
    HdrMsaa,
}

#[derive(Debug, Eq, PartialEq, Hash, Structural)]
pub enum ShaderType {
    Skybox,
    DebugLight,
    Depth,
    GroundPlane,
    DebugShadowMap,
    Model,
    Text,
    Gizmo,
    Particles,
    GameUi,
    UiOverlay,
    HDR,
    Blur,
    StaticModel,
    AnimatedModel,
    Fxaa,
    BloomUpsample,
    BloomDownsample,
}

/// How strong the FXAA pass is.
#[derive(Clone, Copy, Debug, PartialEq, Eq, Structural)]
pub enum FxaaLevels {
    Off,
    Low,
    Med,
    High,
}

/// What a grid cell holds.
#[derive(Clone, Copy, Debug, PartialEq, Eq, Structural)]
pub enum CellType {
    Grass,
    Tree,
    Path,
}

/// The role a texture plays in a material.
#[derive(Clone, Copy, Debug, PartialEq, Eq, Structural)]
pub enum TextureType {
    Diffuse,
    Specular,
    Emissive,
    NormalMap,
    Roughness,
    Metalness,
    Displacement,
    Opacity,
}

#[derive(Clone, Copy, Debug, PartialEq, Eq, Structural)]
pub enum CameraState {
    Free,
    Third,
    Locked,
    Gallery,
}

/// Links an entity to the entity it hangs off.
pub struct Parent {
    pub parent_id: usize,
}

#[derive(Debug, Copy, Clone, PartialEq, Eq, Structural)]
pub enum LocoState {
    Init,
    Idle,
    Running,
    Airborne,
    Jumping,
}

#[derive(Debug, Copy, Clone, PartialEq, Eq, Structural)]
pub enum LifeState {
    Alive,
    Dying,
    Dead,
}

#[derive(Debug, PartialEq, Eq, Clone, Copy, Structural)]
pub enum ControlState {
    Player,
    Combat,
    Locked,
}

#[derive(Debug, PartialEq, Clone, Copy, Eq, Structural)]
pub enum CombatState {
    Basic,
    Defensive,
    Skill1,
    Skill2,
    Evade,
    Ultimate,
}

/// The animation clips an animated model can play.
#[derive(Clone, Debug, PartialEq, Hash, Eq, Copy, Structural)]
pub enum AnimationType {
    Run,
    Idle,
    Death,
    Dance,
    Slash,
    Slash2,
    Jump,
    Freefall,
    DashF,
    Block,
    Flinch,
    Basic1,
    Basic2,
    Basic3,
    OSBasic1,
    OSBasic2,
    OSBasic3,
    Roll,
    Stagger,
}

#[derive(Clone, Copy, Debug, PartialEq, Eq, Structural)]
pub enum Effect {
    Flashing,
}

/// The items an entity holds in its hands.
#[derive(Clone, Copy, Debug, PartialEq, Eq, Structural)]
pub struct ActiveItem {
    pub right_hand: Option<usize>,
    pub left_hand: Option<usize>,
}

/// The items an entity carries but does not hold.
pub struct Inventory {
    pub items: Vec<usize>,
}

/// The sounds the game can play.
#[derive(Clone, Copy, Debug, PartialEq, Hash, Eq, Structural)]
pub enum SoundType {
    Footstep,
    MooseHuff,
    Music,
    Jump,
    Land,
    StopRunning,
    Bloop,
}

/// How a texture is sampled.
#[derive(Clone, Copy, Debug, PartialEq, Hash, Eq, Structural)]
pub enum TextureProfile {
    BroadDefault,
    DecalCrisp,
    AlphaMasked,
}

/// A range of animation segments during which something is active, and whether it
/// has fired during the current pass through that range.
pub struct FrameActivation {
    pub segment_range: RangeInclusive<u32>,
    pub triggered: bool,
}

impl FrameActivation {
    /// Whether segment `seg` lies in the range (a range that has been iterated to its
    /// end no longer holds its end).
    pub open spec fn covers(&self, seg: u32) -> bool {
        let r = self.segment_range@;
        r.start <= seg && if r.exhausted {
            seg < r.end
        } else {
            seg <= r.end
        }
    }

    /// Notes the segment the clip is on this tick: the activation is on exactly while
    /// the clip is inside the range.
    pub fn observe_segment(&mut self, seg: u32)
        ensures
            final(self).triggered == old(self).covers(seg),
            final(self).segment_range == old(self).segment_range,
    {
        self.triggered = self.segment_range.contains(&seg);
    }
}

/// The activations of a clip from its configured segment ranges, each from its first
/// to its last segment, both included, and off.
pub fn activations_from_ranges(ranges: &Vec<(u32, u32)>) -> (r: Vec<FrameActivation>)
    ensures
        r@.len() == ranges@.len(),
        forall|i: int|
            0 <= i < r@.len() ==> {
                &&& (#[trigger] r@[i]).segment_range@.start == ranges@[i].0
                &&& r@[i].segment_range@.end == ranges@[i].1
                &&& !r@[i].segment_range@.exhausted
                &&& !r@[i].triggered
            },
{
    let mut r: Vec<FrameActivation> = Vec::new();
    let mut i: usize = 0;
    while i < ranges.len()
        invariant
            i <= ranges.len(),
            r@.len() == i,
            forall|k: int|
                0 <= k < i ==> {
                    &&& (#[trigger] r@[k]).segment_range@.start == ranges@[k].0
                    &&& r@[k].segment_range@.end == ranges@[k].1
                    &&& !r@[k].segment_range@.exhausted
                    &&& !r@[k].triggered
                },
        decreases ranges.len() - i,
    {
        let (a, b) = ranges[i];
        r.push(FrameActivation { segment_range: RangeInclusive::new(a, b), triggered: false });
        i = i + 1;
    }
    r
}

/// Whether any activation of the list is on.
pub fn any_triggered(list: &Vec<FrameActivation>) -> (b: bool)
    ensures
        b == exists|i: int| 0 <= i < list@.len() && (#[trigger] list@[i]).triggered,
{
    let mut i: usize = 0;
    while i < list.len()
        invariant
            i <= list.len(),
            forall|j: int| 0 <= j < i ==> !(#[trigger] list@[j]).triggered,
        decreases list.len() - i,
    {
        if list[i].triggered {
            return true;
        }
        i = i + 1;
    }
    false
}

#[derive(Clone, Copy, Debug, Hash, PartialEq, Eq, Structural)]
pub enum EmitterName {
    DesertSlide,
    DesertStep,
    DamageBlood,
    BodyPoof,
    DesertLand,
}

pub enum EmitterType {
    OneShot,
    Continuous,
}

/// The error of parsing a hitbox shape from an unknown name.
pub struct ParseHitboxShapeError;

#[derive(Clone, Copy, Debug, PartialEq, Hash, Eq, Structural)]
pub enum EquipSlot {
    RHand,
    LHand,
}


impl AnimationType {
    /// The display name of the value.
    pub open spec fn spec_name(self) -> Seq<char> {
        match self {
            AnimationType::Run => "Run"@,
            AnimationType::Idle => "Idle"@,
            AnimationType::Death => "Death"@,
            AnimationType::Dance => "Dance"@,
            AnimationType::Slash => "Slash"@,
            AnimationType::Slash2 => "Slash2"@,
            AnimationType::Jump => "Jump"@,
            AnimationType::Freefall => "Freefall"@,
            AnimationType::DashF => "DashF"@,
            AnimationType::Block => "Block"@,
            AnimationType::Flinch => "Flinch"@,
            AnimationType::Basic1 => "Basic1"@,
            AnimationType::Basic2 => "Basic2"@,
            AnimationType::Basic3 => "Basic3"@,
            AnimationType::OSBasic1 => "OSBasic1"@,
            AnimationType::OSBasic2 => "OSBasic2"@,
            AnimationType::OSBasic3 => "OSBasic3"@,
            AnimationType::Roll => "Roll"@,
            AnimationType::Stagger => "Stagger"@,
        }
    }

    /// The display name of the value.
    pub fn as_str(&self) -> (s: &'static str)
        ensures
            s@ == self.spec_name(),
    {
        match self {
            AnimationType::Run => "Run",
            AnimationType::Idle => "Idle",
            AnimationType::Death => "Death",
            AnimationType::Dance => "Dance",
            AnimationType::Slash => "Slash",
            AnimationType::Slash2 => "Slash2",
            AnimationType::Jump => "Jump",
            AnimationType::Freefall => "Freefall",
            AnimationType::DashF => "DashF",
            AnimationType::Block => "Block",
            AnimationType::Flinch => "Flinch",
            AnimationType::Basic1 => "Basic1",
            AnimationType::Basic2 => "Basic2",
            AnimationType::Basic3 => "Basic3",
            AnimationType::OSBasic1 => "OSBasic1",
            AnimationType::OSBasic2 => "OSBasic2",
            AnimationType::OSBasic3 => "OSBasic3",
            AnimationType::Roll => "Roll",
            AnimationType::Stagger => "Stagger",
        }
    }

    /// The display name of the value, as an owned string.
    pub fn to_string(&self) -> (s: String)
        ensures
            s@ == self.spec_name(),
    {
        self.as_str().to_owned()
    }

    /// The value whose name is `name`, for the names that parsing accepts.
    pub open spec fn spec_from_name(name: Seq<char>) -> Option<AnimationType> {
        if name == "Run"@ {
            Some(AnimationType::Run)
        } else if name == "Idle"@ {
            Some(AnimationType::Idle)
        } else if name == "Death"@ {
            Some(AnimationType::Death)
        } else if name == "Dance"@ {
            Some(AnimationType::Dance)
        } else if name == "Slash"@ {
            Some(AnimationType::Slash)
        } else if name == "Jump"@ {
            Some(AnimationType::Jump)
        } else if name == "Freefall"@ {
            Some(AnimationType::Freefall)
        } else if name == "Slash2"@ {
            Some(AnimationType::Slash2)
        } else if name == "DashF"@ {
            Some(AnimationType::DashF)
        } else if name == "Block"@ {
            Some(AnimationType::Block)
        } else if name == "Flinch"@ {
            Some(AnimationType::Flinch)
        } else if name == "Basic1"@ {
            Some(AnimationType::Basic1)
        } else if name == "Basic2"@ {
            Some(AnimationType::Basic2)
        } else if name == "Basic3"@ {
            Some(AnimationType::Basic3)
        } else if name == "OSBasic1"@ {
            Some(AnimationType::OSBasic1)
        } else if name == "OSBasic2"@ {
            Some(AnimationType::OSBasic2)
        } else if name == "OSBasic3"@ {
            Some(AnimationType::OSBasic3)
        } else if name == "Roll"@ {
            Some(AnimationType::Roll)
        } else if name == "Stagger"@ {
            Some(AnimationType::Stagger)
        } else {
            None
        }
    }

    /// The animation type of a name, if it names one; callers test a name with it
    /// before `from_str`, which accepts only names of animation types.
    pub fn try_from_name(input: &str) -> (r: Option<AnimationType>)
        ensures
            r == Self::spec_from_name(input@),
    {
        if str_eq(input, "Run") {
            Some(AnimationType::Run)
        } else if str_eq(input, "Idle") {
            Some(AnimationType::Idle)
        } else if str_eq(input, "Death") {
            Some(AnimationType::Death)
        } else if str_eq(input, "Dance") {
            Some(AnimationType::Dance)
        } else if str_eq(input, "Slash") {
            Some(AnimationType::Slash)
        } else if str_eq(input, "Jump") {
            Some(AnimationType::Jump)
        } else if str_eq(input, "Freefall") {
            Some(AnimationType::Freefall)
        } else if str_eq(input, "Slash2") {
            Some(AnimationType::Slash2)
        } else if str_eq(input, "DashF") {
            Some(AnimationType::DashF)
        } else if str_eq(input, "Block") {
            Some(AnimationType::Block)
        } else if str_eq(input, "Flinch") {
            Some(AnimationType::Flinch)
        } else if str_eq(input, "Basic1") {
            Some(AnimationType::Basic1)
        } else if str_eq(input, "Basic2") {
            Some(AnimationType::Basic2)
        } else if str_eq(input, "Basic3") {
            Some(AnimationType::Basic3)
        } else if str_eq(input, "OSBasic1") {
            Some(AnimationType::OSBasic1)
        } else if str_eq(input, "OSBasic2") {
            Some(AnimationType::OSBasic2)
        } else if str_eq(input, "OSBasic3") {
            Some(AnimationType::OSBasic3)
        } else if str_eq(input, "Roll") {
            Some(AnimationType::Roll)
        } else if str_eq(input, "Stagger") {
            Some(AnimationType::Stagger)
        } else {
            None
        }
    }

    /// Parses a name into a value. Only the names of the variants are accepted; any other input is refused by the precondition.
    pub fn from_str(input: &str) -> (r: Option<AnimationType>)
        requires
            Self::spec_from_name(input@) is Some,
        ensures
            r == Self::spec_from_name(input@),
    {
        Self::try_from_name(input)
    }
}

impl SoundType {
    /// The display name of the value.
    pub open spec fn spec_name(self) -> Seq<char> {
        match self {
            SoundType::Footstep => "Footstep"@,
            SoundType::MooseHuff => "MooseHuff"@,
            SoundType::Music => "Music"@,
            SoundType::Jump => "Jump"@,
            SoundType::Land => "Land"@,
            SoundType::StopRunning => "StopRunning"@,
            SoundType::Bloop => "Bloop"@,
        }
    }

    /// The display name of the value.
    pub fn as_str(&self) -> (s: &'static str)
        ensures
            s@ == self.spec_name(),
    {
        match self {
            SoundType::Footstep => "Footstep",
            SoundType::MooseHuff => "MooseHuff",
            SoundType::Music => "Music",
            SoundType::Jump => "Jump",
            SoundType::Land => "Land",
            SoundType::StopRunning => "StopRunning",
            SoundType::Bloop => "Bloop",
        }
    }

    /// The display name of the value, as an owned string.
    pub fn to_string(&self) -> (s: String)
        ensures
            s@ == self.spec_name(),
    {
        self.as_str().to_owned()
    }

    /// The value whose name is `name`, for the names that parsing accepts.
    pub open spec fn spec_from_name(name: Seq<char>) -> Option<SoundType> {
        if name == "Footstep"@ {
            Some(SoundType::Footstep)
        } else if name == "MooseHuff"@ {
            Some(SoundType::MooseHuff)
        } else if name == "Music"@ {
            Some(SoundType::Music)
        } else if name == "Bloop"@ {
            Some(SoundType::Bloop)
        } else {
            None
        }
    }

    /// Parses a name into a value. Only `Footstep`, `MooseHuff`, `Music` and `Bloop` are accepted; any other input is refused by the precondition.
    pub fn from_str(input: &str) -> (r: Option<SoundType>)
        requires
            Self::spec_from_name(input@) is Some,
        ensures
            r == Self::spec_from_name(input@),
    {
        if str_eq(input, "Footstep") {
            Some(SoundType::Footstep)
        } else if str_eq(input, "MooseHuff") {
            Some(SoundType::MooseHuff)
        } else if str_eq(input, "Music") {
            Some(SoundType::Music)
        } else if str_eq(input, "Bloop") {
            Some(SoundType::Bloop)
        } else {
            None
        }
    }
}

impl TextureProfile {
    /// The display name of the value.
    pub open spec fn spec_name(self) -> Seq<char> {
        match self {
            TextureProfile::BroadDefault => "BroadDefault"@,
            TextureProfile::DecalCrisp => "DecalCrisp"@,
            TextureProfile::AlphaMasked => "AlphaMasked"@,
        }
    }

    /// The display name of the value.
    pub fn as_str(&self) -> (s: &'static str)
        ensures
            s@ == self.spec_name(),
    {
        match self {
            TextureProfile::BroadDefault => "BroadDefault",
            TextureProfile::DecalCrisp => "DecalCrisp",
            TextureProfile::AlphaMasked => "AlphaMasked",
        }
    }

    /// The display name of the value, as an owned string.
    pub fn to_string(&self) -> (s: String)
        ensures
            s@ == self.spec_name(),
    {
        self.as_str().to_owned()
    }

    /// The value whose name is `name`, for the names that parsing accepts.
    pub open spec fn spec_from_name(name: Seq<char>) -> Option<TextureProfile> {
        if name == "BroadDefault"@ {
            Some(TextureProfile::BroadDefault)
        } else if name == "DecalCrisp"@ {
            Some(TextureProfile::DecalCrisp)
        } else if name == "AlphaMasked"@ {
            Some(TextureProfile::AlphaMasked)
        } else {
            None
        }
    }

    /// Parses a name into a value. Only the names of the variants are accepted; any other input is refused by the precondition.
    pub fn from_str(input: &str) -> (r: Option<TextureProfile>)
        requires
            Self::spec_from_name(input@) is Some,
        ensures
            r == Self::spec_from_name(input@),
    {
        Self::try_from_name(input)
    }

    /// The texture profile of a name, if it names one; callers test a name with it
    /// before `from_str`, which accepts only names of texture profiles.
    pub fn try_from_name(input: &str) -> (r: Option<TextureProfile>)
        ensures
            r == Self::spec_from_name(input@),
    {
        if str_eq(input, "BroadDefault") {
            Some(TextureProfile::BroadDefault)
        } else if str_eq(input, "DecalCrisp") {
            Some(TextureProfile::DecalCrisp)
        } else if str_eq(input, "AlphaMasked") {
            Some(TextureProfile::AlphaMasked)
        } else {
            None
        }
    }
}

impl TextureType {
    /// The display name of the value.
    pub open spec fn spec_name(self) -> Seq<char> {
        match self {
            TextureType::Diffuse => "Diffuse"@,
            TextureType::Specular => "Specular"@,
            TextureType::Emissive => "Emissive"@,
            TextureType::NormalMap => "Normal Map"@,
            TextureType::Roughness => "Roughness"@,
            TextureType::Metalness => "Metalness"@,
            TextureType::Displacement => "Displacement"@,
            TextureType::Opacity => "Opacity"@,
        }
    }

    /// The display name of the value.
    pub fn as_str(&self) -> (s: &'static str)
        ensures
            s@ == self.spec_name(),
    {
        match self {
            TextureType::Diffuse => "Diffuse",
            TextureType::Specular => "Specular",
            TextureType::Emissive => "Emissive",
            TextureType::NormalMap => "Normal Map",
            TextureType::Roughness => "Roughness",
            TextureType::Metalness => "Metalness",
            TextureType::Displacement => "Displacement",
            TextureType::Opacity => "Opacity",
        }
    }

    /// The display name of the value, as an owned string.
    pub fn to_string(&self) -> (s: String)
        ensures
            s@ == self.spec_name(),
    {
        self.as_str().to_owned()
    }
}

impl EmitterName {
    /// The display name of the value.
    pub open spec fn spec_name(self) -> Seq<char> {
        match self {
            EmitterName::DesertSlide => "DesertSlide"@,
            EmitterName::DesertStep => "DesertStep"@,
            EmitterName::DamageBlood => "DamageBlood"@,
            EmitterName::BodyPoof => "BodyPoof"@,
            EmitterName::DesertLand => "DesertLand"@,
        }
    }

    /// The display name of the value.
    pub fn as_str(&self) -> (s: &'static str)
        ensures
            s@ == self.spec_name(),
    {
        match self {
            EmitterName::DesertSlide => "DesertSlide",
            EmitterName::DesertStep => "DesertStep",
            EmitterName::DamageBlood => "DamageBlood",
            EmitterName::BodyPoof => "BodyPoof",
            EmitterName::DesertLand => "DesertLand",
        }
    }

    /// The display name of the value, as an owned string.
    pub fn to_string(&self) -> (s: String)
        ensures
            s@ == self.spec_name(),
    {
        self.as_str().to_owned()
    }
}

/// Parsing the display name of an animation type gives back that animation type.
pub proof fn lemma_animation_name_round_trip(a: AnimationType)
    ensures
        AnimationType::spec_from_name(a.spec_name()) == Some(a),
{
    reveal_strlit("Run");
    assert("Run"@.len() == 3);
    assert("Run"@[0] == 'R');
    assert("Run"@[1] == 'u');
    assert("Run"@[2] == 'n');
    reveal_strlit("Idle");
    assert("Idle"@.len() == 4);
    assert("Idle"@[0] == 'I');
    assert("Idle"@[1] == 'd');
    assert("Idle"@[2] == 'l');
    assert("Idle"@[3] == 'e');
    reveal_strlit("Death");
    assert("Death"@.len() == 5);
    assert("Death"@[0] == 'D');
    assert("Death"@[1] == 'e');
    assert("Death"@[2] == 'a');
    assert("Death"@[3] == 't');
    assert("Death"@[4] == 'h');
    reveal_strlit("Dance");
    assert("Dance"@.len() == 5);
    assert("Dance"@[0] == 'D');
    assert("Dance"@[1] == 'a');
    assert("Dance"@[2] == 'n');
    assert("Dance"@[3] == 'c');
    assert("Dance"@[4] == 'e');
    reveal_strlit("Slash");
    assert("Slash"@.len() == 5);
    assert("Slash"@[0] == 'S');
    assert("Slash"@[1] == 'l');
    assert("Slash"@[2] == 'a');
    assert("Slash"@[3] == 's');
    assert("Slash"@[4] == 'h');
    reveal_strlit("Slash2");
    assert("Slash2"@.len() == 6);
    assert("Slash2"@[0] == 'S');
    assert("Slash2"@[1] == 'l');
    assert("Slash2"@[2] == 'a');
    assert("Slash2"@[3] == 's');
    assert("Slash2"@[4] == 'h');
    assert("Slash2"@[5] == '2');
    reveal_strlit("Jump");
    assert("Jump"@.len() == 4);
    assert("Jump"@[0] == 'J');
    assert("Jump"@[1] == 'u');
    assert("Jump"@[2] == 'm');
    assert("Jump"@[3] == 'p');
    reveal_strlit("Freefall");
    assert("Freefall"@.len() == 8);
    assert("Freefall"@[0] == 'F');
    assert("Freefall"@[1] == 'r');
    assert("Freefall"@[2] == 'e');
    assert("Freefall"@[3] == 'e');
    assert("Freefall"@[4] == 'f');
    assert("Freefall"@[5] == 'a');
    assert("Freefall"@[6] == 'l');
    assert("Freefall"@[7] == 'l');
    reveal_strlit("DashF");
    assert("DashF"@.len() == 5);
    assert("DashF"@[0] == 'D');
    assert("DashF"@[1] == 'a');
    assert("DashF"@[2] == 's');
    assert("DashF"@[3] == 'h');
    assert("DashF"@[4] == 'F');
    reveal_strlit("Block");
    assert("Block"@.len() == 5);
    assert("Block"@[0] == 'B');
    assert("Block"@[1] == 'l');
    assert("Block"@[2] == 'o');
    assert("Block"@[3] == 'c');
    assert("Block"@[4] == 'k');
    reveal_strlit("Flinch");
    assert("Flinch"@.len() == 6);
    assert("Flinch"@[0] == 'F');
    assert("Flinch"@[1] == 'l');
    assert("Flinch"@[2] == 'i');
    assert("Flinch"@[3] == 'n');
    assert("Flinch"@[4] == 'c');
    assert("Flinch"@[5] == 'h');
    reveal_strlit("Basic1");
    assert("Basic1"@.len() == 6);
    assert("Basic1"@[0] == 'B');
    assert("Basic1"@[1] == 'a');
    assert("Basic1"@[2] == 's');
    assert("Basic1"@[3] == 'i');
    assert("Basic1"@[4] == 'c');
    assert("Basic1"@[5] == '1');
    reveal_strlit("Basic2");
    assert("Basic2"@.len() == 6);
    assert("Basic2"@[0] == 'B');
    assert("Basic2"@[1] == 'a');
    assert("Basic2"@[2] == 's');
    assert("Basic2"@[3] == 'i');
    assert("Basic2"@[4] == 'c');
    assert("Basic2"@[5] == '2');
    reveal_strlit("Basic3");
    assert("Basic3"@.len() == 6);
    assert("Basic3"@[0] == 'B');
    assert("Basic3"@[1] == 'a');
    assert("Basic3"@[2] == 's');
    assert("Basic3"@[3] == 'i');
    assert("Basic3"@[4] == 'c');
    assert("Basic3"@[5] == '3');
    reveal_strlit("OSBasic1");
    assert("OSBasic1"@.len() == 8);
    assert("OSBasic1"@[0] == 'O');
    assert("OSBasic1"@[1] == 'S');
    assert("OSBasic1"@[2] == 'B');
    assert("OSBasic1"@[3] == 'a');
    assert("OSBasic1"@[4] == 's');
    assert("OSBasic1"@[5] == 'i');
    assert("OSBasic1"@[6] == 'c');
    assert("OSBasic1"@[7] == '1');
    reveal_strlit("OSBasic2");
    assert("OSBasic2"@.len() == 8);
    assert("OSBasic2"@[0] == 'O');
    assert("OSBasic2"@[1] == 'S');
    assert("OSBasic2"@[2] == 'B');
    assert("OSBasic2"@[3] == 'a');
    assert("OSBasic2"@[4] == 's');
    assert("OSBasic2"@[5] == 'i');
    assert("OSBasic2"@[6] == 'c');
    assert("OSBasic2"@[7] == '2');
    reveal_strlit("OSBasic3");
    assert("OSBasic3"@.len() == 8);
    assert("OSBasic3"@[0] == 'O');
    assert("OSBasic3"@[1] == 'S');
    assert("OSBasic3"@[2] == 'B');
    assert("OSBasic3"@[3] == 'a');
    assert("OSBasic3"@[4] == 's');
    assert("OSBasic3"@[5] == 'i');
    assert("OSBasic3"@[6] == 'c');
    assert("OSBasic3"@[7] == '3');
    reveal_strlit("Roll");
    assert("Roll"@.len() == 4);
    assert("Roll"@[0] == 'R');
    assert("Roll"@[1] == 'o');
    assert("Roll"@[2] == 'l');
    assert("Roll"@[3] == 'l');
    reveal_strlit("Stagger");
    assert("Stagger"@.len() == 7);
    assert("Stagger"@[0] == 'S');
    assert("Stagger"@[1] == 't');
    assert("Stagger"@[2] == 'a');
    assert("Stagger"@[3] == 'g');
    assert("Stagger"@[4] == 'g');
    assert("Stagger"@[5] == 'e');
    assert("Stagger"@[6] == 'r');
}

/// Parsing the display name of a sound type gives back that sound type, for the
/// four sound types whose names parsing accepts.
pub proof fn lemma_sound_name_round_trip(s: SoundType)
    requires
        s is Footstep || s is MooseHuff || s is Music || s is Bloop,
    ensures
        SoundType::spec_from_name(s.spec_name()) == Some(s),
{
    reveal_strlit("Footstep");
    assert("Footstep"@.len() == 8);
    assert("Footstep"@[0] == 'F');
    assert("Footstep"@[1] == 'o');
    assert("Footstep"@[2] == 'o');
    assert("Footstep"@[3] == 't');
    assert("Footstep"@[4] == 's');
    assert("Footstep"@[5] == 't');
    assert("Footstep"@[6] == 'e');
    assert("Footstep"@[7] == 'p');
    reveal_strlit("MooseHuff");
    assert("MooseHuff"@.len() == 9);
    assert("MooseHuff"@[0] == 'M');
    assert("MooseHuff"@[1] == 'o');
    assert("MooseHuff"@[2] == 'o');
    assert("MooseHuff"@[3] == 's');
    assert("MooseHuff"@[4] == 'e');
    assert("MooseHuff"@[5] == 'H');
    assert("MooseHuff"@[6] == 'u');
    assert("MooseHuff"@[7] == 'f');
    assert("MooseHuff"@[8] == 'f');
    reveal_strlit("Music");
    assert("Music"@.len() == 5);
    assert("Music"@[0] == 'M');
    assert("Music"@[1] == 'u');
    assert("Music"@[2] == 's');
    assert("Music"@[3] == 'i');
    assert("Music"@[4] == 'c');
    reveal_strlit("Bloop");
    assert("Bloop"@.len() == 5);
    assert("Bloop"@[0] == 'B');
    assert("Bloop"@[1] == 'l');
    assert("Bloop"@[2] == 'o');
    assert("Bloop"@[3] == 'o');
    assert("Bloop"@[4] == 'p');
}

/// Parsing the display name of a texture profile gives back that texture profile.
pub proof fn lemma_texture_profile_name_round_trip(p: TextureProfile)
    ensures
        TextureProfile::spec_from_name(p.spec_name()) == Some(p),
{
    reveal_strlit("BroadDefault");
    assert("BroadDefault"@.len() == 12);
    assert("BroadDefault"@[0] == 'B');
    assert("BroadDefault"@[1] == 'r');
    assert("BroadDefault"@[2] == 'o');
    assert("BroadDefault"@[3] == 'a');
    assert("BroadDefault"@[4] == 'd');
    assert("BroadDefault"@[5] == 'D');
    assert("BroadDefault"@[6] == 'e');
    assert("BroadDefault"@[7] == 'f');
    assert("BroadDefault"@[8] == 'a');
    assert("BroadDefault"@[9] == 'u');
    assert("BroadDefault"@[10] == 'l');
    assert("BroadDefault"@[11] == 't');
    reveal_strlit("DecalCrisp");
    assert("DecalCrisp"@.len() == 10);
    assert("DecalCrisp"@[0] == 'D');
    assert("DecalCrisp"@[1] == 'e');
    assert("DecalCrisp"@[2] == 'c');
    assert("DecalCrisp"@[3] == 'a');
    assert("DecalCrisp"@[4] == 'l');
    assert("DecalCrisp"@[5] == 'C');
    assert("DecalCrisp"@[6] == 'r');
    assert("DecalCrisp"@[7] == 'i');
    assert("DecalCrisp"@[8] == 's');
    assert("DecalCrisp"@[9] == 'p');
    reveal_strlit("AlphaMasked");
    assert("AlphaMasked"@.len() == 11);
    assert("AlphaMasked"@[0] == 'A');
    assert("AlphaMasked"@[1] == 'l');
    assert("AlphaMasked"@[2] == 'p');
    assert("AlphaMasked"@[3] == 'h');
    assert("AlphaMasked"@[4] == 'a');
    assert("AlphaMasked"@[5] == 'M');
    assert("AlphaMasked"@[6] == 'a');
    assert("AlphaMasked"@[7] == 's');
    assert("AlphaMasked"@[8] == 'k');
    assert("AlphaMasked"@[9] == 'e');
    assert("AlphaMasked"@[10] == 'd');
}

} // verus!
