//! Entity archetypes: the hitbox shapes an entity type can have, how a new entity
//! type is accepted, where its files are placed and which clips it starts with, and
//! what each faction equips a new entity with.
use crate::config::AnimationPropHelper;
use crate::enums_types::{str_eq, AnimationType, ParseHitboxShapeError};
use crate::text::{chars_eq, chars_of, split_lines, split_words, text_lines, words};
use std::collections::HashMap;
use vstd::prelude::*;
use vstd::string::StringExecFns;

verus! {

/// The kinds of hitbox an entity type can have; the dimensions of each kind are kept
/// beside it by the caller.
#[derive(Debug, Clone, Copy, PartialEq, Eq, Structural)]
pub enum HitboxKind {
    Cylinder,
    Pill,
    BoxDim,
    Sphere,
    /// the mesh itself is the collider
    Mesh,
    /// a box generated around the mesh
    BoundingBox,
}

/// The hitbox kind a name denotes: each kind's name, capitalized or all lower case.
pub open spec fn spec_hitbox_from_name(s: Seq<char>) -> Option<HitboxKind> {
    if s == "Cylinder"@ || s == "cylinder"@ {
        Some(HitboxKind::Cylinder)
    } else if s == "Pill"@ || s == "pill"@ {
        Some(HitboxKind::Pill)
    } else if s == "BoxDim"@ || s == "boxdim"@ {
        Some(HitboxKind::BoxDim)
    } else if s == "Sphere"@ || s == "sphere"@ {
        Some(HitboxKind::Sphere)
    } else if s == "Mesh"@ || s == "mesh"@ {
        Some(HitboxKind::Mesh)
    } else if s == "BoundingBox"@ || s == "boundingbox"@ {
        Some(HitboxKind::BoundingBox)
    } else {
        None
    }
}

/// The hitbox kind an editor form names: the capitalized names only, and a mesh
/// collider for anything else.
pub open spec fn spec_hitbox_from_form(s: Seq<char>) -> HitboxKind {
    if s == "Cylinder"@ {
        HitboxKind::Cylinder
    } else if s == "Pill"@ {
        HitboxKind::Pill
    } else if s == "BoundingBox"@ {
        HitboxKind::BoundingBox
    } else if s == "Mesh"@ {
        HitboxKind::Mesh
    } else if s == "Sphere"@ {
        HitboxKind::Sphere
    } else if s == "BoxDim"@ {
        HitboxKind::BoxDim
    } else {
        HitboxKind::Mesh
    }
}

impl HitboxKind {
    /// Parses a hitbox kind from its name; other names are an error.
    pub fn from_str(s: &str) -> (r: Result<HitboxKind, ParseHitboxShapeError>)
        ensures
            r is Ok <==> spec_hitbox_from_name(s@) is Some,
            r matches Ok(k) ==> spec_hitbox_from_name(s@) == Some(k),
    {
        if str_eq(s, "Cylinder") || str_eq(s, "cylinder") {
            Ok(HitboxKind::Cylinder)
        } else if str_eq(s, "Pill") || str_eq(s, "pill") {
            Ok(HitboxKind::Pill)
        } else if str_eq(s, "BoxDim") || str_eq(s, "boxdim") {
            Ok(HitboxKind::BoxDim)
        } else if str_eq(s, "Sphere") || str_eq(s, "sphere") {
            Ok(HitboxKind::Sphere)
        } else if str_eq(s, "Mesh") || str_eq(s, "mesh") {
            Ok(HitboxKind::Mesh)
        } else if str_eq(s, "BoundingBox") || str_eq(s, "boundingbox") {
            Ok(HitboxKind::BoundingBox)
        } else {
            Err(ParseHitboxShapeError)
        }
    }

    /// The hitbox kind chosen in the entity type editor.
    pub fn from_form(s: &str) -> (k: HitboxKind)
        ensures
            k == spec_hitbox_from_form(s@),
    {
        if str_eq(s, "Cylinder") {
            HitboxKind::Cylinder
        } else if str_eq(s, "Pill") {
            HitboxKind::Pill
        } else if str_eq(s, "BoundingBox") {
            HitboxKind::BoundingBox
        } else if str_eq(s, "Mesh") {
            HitboxKind::Mesh
        } else if str_eq(s, "Sphere") {
            HitboxKind::Sphere
        } else if str_eq(s, "BoxDim") {
            HitboxKind::BoxDim
        } else {
            HitboxKind::Mesh
        }
    }
}

/// Why a new entity type is not registered.
#[derive(Debug, Clone, Copy, PartialEq, Eq, Structural)]
pub enum EntityTypeError {
    /// the entity type's name is empty
    Blank,
    /// an entity type of that name exists already and would be overwritten
    Duplicate,
}

/// Decides whether a new entity type named `entity_type` may be registered, given
/// whether one of that name is registered already.
pub fn check_new_entity_type(entity_type: &str, already_registered: bool) -> (r: Result<(), EntityTypeError>)
    ensures
        r is Ok <==> (entity_type@.len() > 0 && !already_registered),
        r == Err::<(), EntityTypeError>(EntityTypeError::Blank) <==> entity_type@.len() == 0,
        r == Err::<(), EntityTypeError>(EntityTypeError::Duplicate) <==> (entity_type@.len() > 0
            && already_registered),
{
    if entity_type.is_empty() {
        return Err(EntityTypeError::Blank);
    }
    if already_registered {
        return Err(EntityTypeError::Duplicate);
    }
    Ok(())
}

/// The controllers a new entity of a faction gets.
#[derive(Debug, Clone, Copy, PartialEq, Eq, Structural)]
pub struct FactionSetup {
    /// a player controller and the default pickup range
    pub player_controller: bool,
    /// an enemy controller, a destination and its archetype's aggro range
    pub enemy_controller: bool,
    /// a projectile controller
    pub projectile_controller: bool,
}

/// What a new entity of `faction` is equipped with.
pub open spec fn spec_faction_setup(faction: Seq<char>) -> FactionSetup {
    if faction == "Player"@ {
        FactionSetup { player_controller: true, enemy_controller: false, projectile_controller: true }
    } else if faction == "Enemy"@ {
        FactionSetup { player_controller: false, enemy_controller: true, projectile_controller: true }
    } else {
        FactionSetup { player_controller: false, enemy_controller: false, projectile_controller: false }
    }
}

/// What a new entity of `faction` is equipped with.
pub fn faction_setup(faction: &str) -> (s: FactionSetup)
    ensures
        s == spec_faction_setup(faction@),
{
    if str_eq(faction, "Player") {
        FactionSetup { player_controller: true, enemy_controller: false, projectile_controller: true }
    } else if str_eq(faction, "Enemy") {
        FactionSetup { player_controller: false, enemy_controller: true, projectile_controller: true }
    } else {
        FactionSetup { player_controller: false, enemy_controller: false, projectile_controller: false }
    }
}

/// Every name the entity type editor offers parses to the kind the editor picks for it.
pub proof fn lemma_form_names_parse(s: Seq<char>)
    requires
        spec_hitbox_from_name(s) is Some,
        s == "Cylinder"@ || s == "Pill"@ || s == "BoxDim"@ || s == "Sphere"@ || s == "Mesh"@ || s == "BoundingBox"@,
    ensures
        spec_hitbox_from_name(s) == Some(spec_hitbox_from_form(s)),
{
    reveal_strlit("Cylinder");
    reveal_strlit("cylinder");
    reveal_strlit("Pill");
    reveal_strlit("pill");
    reveal_strlit("BoxDim");
    reveal_strlit("boxdim");
    reveal_strlit("Sphere");
    reveal_strlit("sphere");
    reveal_strlit("Mesh");
    reveal_strlit("mesh");
    reveal_strlit("BoundingBox");
    reveal_strlit("boundingbox");
    assert("Cylinder"@.len() == 8 && "cylinder"@.len() == 8);
    assert("Pill"@.len() == 4 && "pill"@.len() == 4);
    assert("BoxDim"@.len() == 6 && "boxdim"@.len() == 6);
    assert("Sphere"@.len() == 6 && "sphere"@.len() == 6);
    assert("Mesh"@.len() == 4 && "mesh"@.len() == 4);
    assert("BoundingBox"@.len() == 11 && "boundingbox"@.len() == 11);
    assert("Cylinder"@[0] == 'C' && "cylinder"@[0] == 'c');
    assert("Pill"@[0] == 'P' && "pill"@[0] == 'p' && "Mesh"@[0] == 'M' && "mesh"@[0] == 'm');
    assert("BoxDim"@[0] == 'B' && "boxdim"@[0] == 'b' && "Sphere"@[0] == 'S' && "sphere"@[0] == 's');
    assert("BoundingBox"@[0] == 'B' && "boundingbox"@[0] == 'b');
}

/// Whether `needle` occurs in `text` as a run of consecutive characters.
pub open spec fn occurs_in(text: Seq<char>, needle: Seq<char>) -> bool {
    exists|i: int|
        0 <= i && i + needle.len() <= text.len() && #[trigger] text.subrange(i, i + needle.len())
            == needle
}

fn occurs_at(text: &Vec<char>, needle: &Vec<char>, i: usize) -> (b: bool)
    requires
        i + needle@.len() <= text@.len(),
        text@.len() <= usize::MAX,
    ensures
        b == (text@.subrange(i as int, i + needle@.len()) == needle@),
{
    let mut k: usize = 0;
    while k < needle.len()
        invariant
            i + needle@.len() <= text@.len(),
            text@.len() <= usize::MAX,
            k <= needle@.len(),
            forall|j: int| 0 <= j < k ==> text@[i + j] == needle@[j],
        decreases needle@.len() - k,
    {
        if text[i + k] != needle[k] {
            assert(text@.subrange(i as int, i + needle@.len())[k as int] != needle@[k as int]);
            return false;
        }
        k = k + 1;
    }
    assert(text@.subrange(i as int, i + needle@.len()) =~= needle@);
    true
}

fn occurs(text: &Vec<char>, needle: &Vec<char>) -> (b: bool)
    requires
        needle@.len() > 0,
    ensures
        b == occurs_in(text@, needle@),
{
    if needle.len() > text.len() {
        return false;
    }
    let last: usize = text.len() - needle.len();
    let mut i: usize = 0;
    while i <= last
        invariant
            last + needle@.len() == text@.len(),
            text@.len() <= usize::MAX,
            needle@.len() > 0,
            i <= last + 1,
            forall|j: int|
                0 <= j < i ==> #[trigger] text@.subrange(j, j + needle@.len()) != needle@,
        decreases last + 1 - i,
    {
        if occurs_at(text, needle, i) {
            return true;
        }
        i = i + 1;
    }
    false
}

/// Where the mesh and texture of a newly registered entity type are copied: under
/// `resources/models/animated/` when the mesh file holds animation data, else under
/// `resources/models/static/`, in a directory named after the entity type.
pub struct AssetPlacement {
    pub animated: bool,
    pub mesh_path: String,
    pub texture_path: String,
}

/// The directory the files of entity type `entity_type` are copied to.
pub open spec fn placement_dir(animated: bool, entity_type: Seq<char>) -> Seq<char> {
    "resources/models/"@ + (if animated {
        "animated/"@
    } else {
        "static/"@
    }) + entity_type + "/"@
}

/// Places the files of the new entity type `entity_type`, whose mesh file holds
/// `mesh_text` and whose texture file is named `texture_file_name`: the mesh goes to
/// `mesh.txt` and the texture keeps its name.
pub fn place_entity_assets(entity_type: &str, mesh_text: &str, texture_file_name: &str) -> (p:
    AssetPlacement)
    ensures
        p.animated == occurs_in(mesh_text@, "ANIMATION_DATA"@),
        p.mesh_path@ == placement_dir(p.animated, entity_type@) + "mesh.txt"@,
        p.texture_path@ == placement_dir(p.animated, entity_type@) + texture_file_name@,
{
    let text = chars_of(mesh_text);
    let marker = chars_of("ANIMATION_DATA");
    proof {
        reveal_strlit("ANIMATION_DATA");
    }
    let animated = occurs(&text, &marker);
    let mut dir = "resources/models/".to_string();
    if animated {
        dir.append("animated/");
    } else {
        dir.append("static/");
    }
    dir.append(entity_type);
    dir.append("/");
    let mesh_path = dir.clone().concat("mesh.txt");
    let texture_path = dir.concat(texture_file_name);
    AssetPlacement { animated, mesh_path, texture_path }
}

/// A line of a mesh file that names an idle clip: its first word is
/// "ANIMATION_NAME:" and its second "Idle".
pub open spec fn names_idle_clip(line: Seq<char>) -> bool {
    &&& words(line).len() >= 2
    &&& words(line)[0] == "ANIMATION_NAME:"@
    &&& words(line)[1] == "Idle"@
}

/// A line whose only word is "ANIMATION_NAME:": it names no clip.
pub open spec fn names_no_clip(line: Seq<char>) -> bool {
    words(line).len() == 1 && words(line)[0] == "ANIMATION_NAME:"@
}

/// How many of `lines` name an idle clip.
pub open spec fn idle_clip_count(lines: Seq<Seq<char>>) -> nat
    decreases lines.len(),
{
    if lines.len() == 0 {
        0
    } else {
        idle_clip_count(lines.drop_last()) + if names_idle_clip(lines.last()) {
            1nat
        } else {
            0nat
        }
    }
}

/// The settings of an idle clip that a new entity type starts with: no sounds, no
/// hurtbox frames and no hold frame.
pub open spec fn is_bare_idle_prop(p: AnimationPropHelper) -> bool {
    &&& p.name == AnimationType::Idle
    &&& p.one_shots@ == Map::<crate::enums_types::SoundType, Vec<u32>>::empty()
    &&& p.continuous_sounds@.len() == 0
    &&& p.hurtbox_activation@.len() == 0
    &&& p.hold_frame is None
}

/// The clip settings a new animated entity type starts with: a bare idle clip for
/// each line of its mesh file, `mesh_text`, that names an idle clip; None where no
/// line does.
pub fn idle_clip_props(mesh_text: &str) -> (r: Option<Vec<AnimationPropHelper>>)
    requires
        forall|i: int|
            0 <= i < text_lines(mesh_text@).len() ==> !names_no_clip(
                #[trigger] text_lines(mesh_text@)[i],
            ),
    ensures
        r is None <==> idle_clip_count(text_lines(mesh_text@)) == 0,
        r matches Some(v) ==> v@.len() == idle_clip_count(text_lines(mesh_text@)) && forall|k: int|
            0 <= k < v@.len() ==> is_bare_idle_prop(#[trigger] v@[k]),
{
    let text = chars_of(mesh_text);
    let lines = split_lines(&text);
    let name_key = chars_of("ANIMATION_NAME:");
    let idle = chars_of("Idle");
    let ghost all = text_lines(mesh_text@);
    let mut props: Vec<AnimationPropHelper> = Vec::new();
    let mut i: usize = 0;
    while i < lines.len()
        invariant
            lines@.len() == all.len(),
            forall|k: int| 0 <= k < lines@.len() ==> (#[trigger] lines@[k])@ == all[k],
            forall|k: int| 0 <= k < all.len() ==> !names_no_clip(#[trigger] all[k]),
            name_key@ == "ANIMATION_NAME:"@,
            idle@ == "Idle"@,
            i <= lines@.len(),
            props@.len() == idle_clip_count(all.take(i as int)),
            forall|k: int| 0 <= k < props@.len() ==> is_bare_idle_prop(#[trigger] props@[k]),
        decreases lines@.len() - i,
    {
        let parts = split_words(&lines[i]);
        proof {
            assert(all.take(i + 1).drop_last() =~= all.take(i as int));
            assert(all.take(i + 1).last() == all[i as int]);
        }
        if parts.len() > 0 && chars_eq(&parts[0], &name_key) {
            assert(parts.len() >= 2) by {
                assert(!names_no_clip(all[i as int]));
            }
            if chars_eq(&parts[1], &idle) {
                props.push(
                    AnimationPropHelper {
                        name: AnimationType::Idle,
                        one_shots: HashMap::new(),
                        continuous_sounds: Vec::new(),
                        hurtbox_activation: Vec::new(),
                        hold_frame: None,
                    },
                );
            }
        }
        i = i + 1;
    }
    assert(all.take(lines@.len() as int) =~= all);
    if props.len() > 0 {
        Some(props)
    } else {
        None
    }
}

} // verus!
