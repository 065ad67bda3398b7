//! The discrete parts of skeletal animation: which clip plays next, when a clip may
//! be interrupted or is held, how often a clip recomputes its pose, and where a
//! model keeps its textures.
use crate::assets::{decode_rgba_as, decoded_rgba_as, ImageData};
use crate::enums_types::{str_eq, AnimationType, TextureProfile, TextureType};
use crate::render_targets::{
    GL_CLAMP_TO_EDGE, GL_LINEAR, GL_LINEAR_MIPMAP_LINEAR, GL_NEAREST, GL_NEAREST_MIPMAP_LINEAR, GL_REPEAT,
};
use vstd::prelude::*;

verus! {

/// A texture loaded for a model.
#[derive(Debug, Clone)]
pub struct Texture {
    pub id: u32,
    pub _type: String,
    pub path: String,
}

/// The name of a bone, in the order the shader's bone array uses.
#[derive(Debug, Clone)]
pub struct BoneJoinInfo {
    pub name: String,
}

/// Whether a clip may be interrupted on segment `current_segment`: from its interrupt
/// frame on, or at any time when it has none.
pub fn can_interrupt(interrupt_frame: Option<u32>, current_segment: u32) -> (b: bool)
    ensures
        b == match interrupt_frame {
            Some(f) => current_segment >= f,
            None => true,
        },
{
    if let Some(f) = interrupt_frame {
        current_segment >= f
    } else {
        true
    }
}

/// Whether a clip stands still this tick: it is asked to hold and is on its hold frame.
pub fn is_held(hold_frame: Option<u32>, current_segment: u32, do_hold: bool) -> (b: bool)
    ensures
        b == (hold_frame == Some(current_segment) && do_hold),
{
    if let Some(h) = hold_frame {
        if current_segment == h && do_hold {
            return true;
        }
    }
    false
}

/// Counts a tick of a clip that recomputes its pose only every `lod_skip + 1` ticks.
/// Returns the new counter and whether the pose is recomputed this tick; with no
/// skipping the counter stays and the pose is always recomputed.
pub fn lod_tick(lod_counter: u32, lod_skip: u32) -> (r: (u32, bool))
    requires
        lod_skip < u32::MAX,
    ensures
        lod_skip == 0 ==> r == (lod_counter, true),
        lod_skip > 0 ==> r.0 == (if lod_counter == u32::MAX {
            0
        } else {
            lod_counter + 1
        }) && r.1 == (r.0 as int % (lod_skip as int + 1) == 0),
{
    if lod_skip > 0 {
        let counter = lod_counter.wrapping_add(1);
        (counter, counter % (lod_skip + 1) == 0)
    } else {
        (lod_counter, true)
    }
}

/// The clips that play once instead of looping.
pub open spec fn spec_is_one_shot_clip(name: Seq<char>) -> bool {
    name == "Death"@ || name == "Slash"@ || name == "Slash2"@ || name == "DashF"@ || name == "Jump"@
        || name == "Flinch"@ || name == "Block"@
}

/// Whether the clip named `name` plays once instead of looping.
pub fn is_one_shot_clip(name: &str) -> (b: bool)
    ensures
        b == spec_is_one_shot_clip(name@),
{
    str_eq(name, "Death") || str_eq(name, "Slash") || str_eq(name, "Slash2") || str_eq(name, "DashF")
        || str_eq(name, "Jump") || str_eq(name, "Flinch") || str_eq(name, "Block")
}

/// The slot of a model's texture array that holds a texture of this type; slot 0 is
/// left free.
pub open spec fn spec_texture_slot(t: TextureType) -> usize {
    match t {
        TextureType::Diffuse => 1,
        TextureType::Specular => 2,
        TextureType::Emissive => 3,
        TextureType::NormalMap => 4,
        TextureType::Roughness => 5,
        TextureType::Metalness => 6,
        TextureType::Displacement => 7,
        TextureType::Opacity => 8,
    }
}

/// The slot of a model's texture array that holds a texture of this type.
pub fn texture_slot(t: TextureType) -> (i: usize)
    ensures
        i == spec_texture_slot(t),
{
    match t {
        TextureType::Diffuse => 1,
        TextureType::Specular => 2,
        TextureType::Emissive => 3,
        TextureType::NormalMap => 4,
        TextureType::Roughness => 5,
        TextureType::Metalness => 6,
        TextureType::Displacement => 7,
        TextureType::Opacity => 8,
    }
}

/// The place of a texture type in the order of texture types, by which `get_tex`
/// reads it: 0 for Diffuse up to 7 for Opacity.
pub open spec fn texture_index(t: TextureType) -> usize {
    (spec_texture_slot(t) - 1) as usize
}

/// Every texture type has its own slot, and all slots lie within the texture array.
pub proof fn lemma_texture_slots_distinct(a: TextureType, b: TextureType)
    ensures
        1 <= spec_texture_slot(a) < 9,
        a != b ==> spec_texture_slot(a) != spec_texture_slot(b),
{
}

/// The textures of a model, by slot.
pub struct ModelTextures {
    pub textures: [Option<Texture>; 9],
}

impl ModelTextures {
    /// No textures.
    pub fn new() -> (m: Self)
        ensures
            forall|i: int| 0 <= i < 9 ==> m.textures@[i] is None,
    {
        ModelTextures { textures: [None, None, None, None, None, None, None, None, None] }
    }

    /// The texture by its type's place in the order of texture types (0 = Diffuse,
    /// 1 = Specular, ..., 7 = Opacity), if one is loaded: index `i` reads slot `i + 1`,
    /// where `set_texture` stores a texture of that type. Any other index gives none.
    pub fn get_tex(&self, index: usize) -> (r: Option<&Texture>)
        ensures
            index < 8 ==> r == match self.textures@[index + 1] {
                Some(t) => Some(&t),
                None => None::<&Texture>,
            },
            index >= 8 ==> r is None,
    {
        if index < 8 {
            self.textures[index + 1].as_ref()
        } else {
            None
        }
    }

    /// Stores `texture` in the slot of its type, replacing what was there.
    pub fn set_texture(&mut self, texture_type: TextureType, texture: Texture)
        ensures
            final(self).textures@ == old(self).textures@.update(
                spec_texture_slot(texture_type) as int,
                Some(texture),
            ),
    {
        let i = texture_slot(texture_type);
        self.textures.set(i, Some(texture));
    }
}

/// What a read gives back of a write: once a texture is stored for its type, reading
/// the type's index gives it back, and every other type's index reads what it read
/// before.
pub proof fn lemma_stored_texture_is_read_back(
    before: ModelTextures,
    after: ModelTextures,
    t: TextureType,
    x: Texture,
    other: TextureType,
)
    requires
        after.textures@ == before.textures@.update(spec_texture_slot(t) as int, Some(x)),
    ensures
        texture_index(t) < 8,
        after.textures@[texture_index(t) + 1] == Some(x),
        other != t ==> after.textures@[texture_index(other) + 1] == before.textures@[texture_index(
            other,
        ) + 1],
{
    lemma_texture_slots_distinct(t, other);
    lemma_texture_slots_distinct(other, t);
}

/// The clip an animator plays and the clip it blends into.
#[derive(Debug, Clone, Copy, PartialEq, Eq, Structural)]
pub struct AnimationSelection {
    pub current_animation: AnimationType,
    pub next_animation: AnimationType,
}

/// What asking for a new clip does beyond choosing the next clip.
#[derive(Debug, Clone, Copy, PartialEq, Eq, Structural)]
pub struct NextAnimationEffects {
    /// the blend starts over and root motion tracking is reset
    pub restart_blend: bool,
    /// the requested clip's playback time is set back to zero
    pub rewind_clip: bool,
}

impl AnimationSelection {
    /// An animator playing idle.
    pub fn new() -> (s: Self)
        ensures
            s.current_animation == AnimationType::Idle,
            s.next_animation == AnimationType::Idle,
    {
        AnimationSelection { current_animation: AnimationType::Idle, next_animation: AnimationType::Idle }
    }

    /// Switches the current clip at once.
    pub fn set_current_animation(&mut self, input: AnimationType)
        ensures
            final(self).current_animation == input,
            final(self).next_animation == old(self).next_animation,
    {
        self.current_animation = input;
    }

    /// Asks to blend into `input`, given whether the animator has that clip and
    /// whether that clip rewinds when it is switched to. A missing clip makes the
    /// animator blend back into its current clip; asking for the clip already next
    /// changes nothing.
    pub fn set_next_animation(&mut self, input: AnimationType, has_clip: bool, resets_on_change: bool) -> (fx: NextAnimationEffects)
        ensures
            !has_clip ==> final(self).next_animation == old(self).current_animation && fx == (
            NextAnimationEffects { restart_blend: true, rewind_clip: false }),
            has_clip && old(self).next_animation == input ==> *final(self) == *old(self) && fx == (
            NextAnimationEffects { restart_blend: false, rewind_clip: false }),
            has_clip && old(self).next_animation != input ==> final(self).next_animation == input && fx
                == (NextAnimationEffects { restart_blend: true, rewind_clip: resets_on_change }),
            final(self).current_animation == old(self).current_animation,
    {
        if !has_clip {
            self.next_animation = self.current_animation;
            return NextAnimationEffects { restart_blend: true, rewind_clip: false };
        }
        if self.next_animation == input {
            return NextAnimationEffects { restart_blend: false, rewind_clip: false };
        }
        self.next_animation = input;
        NextAnimationEffects { restart_blend: true, rewind_clip: resets_on_change }
    }
}

/// How a model texture is sampled: its wrap mode on both axes, its minifying and
/// magnifying filters, and whether mipmaps are generated.
#[derive(Debug, Clone, Copy, PartialEq, Eq, Structural)]
pub struct TextureSampling {
    pub wrap: u32,
    pub min_filter: u32,
    pub mag_filter: u32,
    pub mipmaps: bool,
}

/// The sampling of each texture profile: small decals are clamped and crisp without
/// mipmaps, broad textures repeat with nearest magnification over mipmaps, and
/// alpha-masked foliage is clamped and linearly filtered over mipmaps.
pub open spec fn spec_sampling(profile: TextureProfile) -> TextureSampling {
    match profile {
        TextureProfile::DecalCrisp => TextureSampling {
            wrap: GL_CLAMP_TO_EDGE,
            min_filter: GL_NEAREST,
            mag_filter: GL_NEAREST,
            mipmaps: false,
        },
        TextureProfile::BroadDefault => TextureSampling {
            wrap: GL_REPEAT,
            min_filter: GL_NEAREST_MIPMAP_LINEAR,
            mag_filter: GL_NEAREST,
            mipmaps: true,
        },
        TextureProfile::AlphaMasked => TextureSampling {
            wrap: GL_CLAMP_TO_EDGE,
            min_filter: GL_LINEAR_MIPMAP_LINEAR,
            mag_filter: GL_LINEAR,
            mipmaps: true,
        },
    }
}

/// The sampling of textures of this profile.
pub fn sampling_for_profile(profile: TextureProfile) -> (s: TextureSampling)
    ensures
        s == spec_sampling(profile),
{
    match profile {
        TextureProfile::DecalCrisp => TextureSampling {
            wrap: GL_CLAMP_TO_EDGE,
            min_filter: GL_NEAREST,
            mag_filter: GL_NEAREST,
            mipmaps: false,
        },
        TextureProfile::BroadDefault => TextureSampling {
            wrap: GL_REPEAT,
            min_filter: GL_NEAREST_MIPMAP_LINEAR,
            mag_filter: GL_NEAREST,
            mipmaps: true,
        },
        TextureProfile::AlphaMasked => TextureSampling {
            wrap: GL_CLAMP_TO_EDGE,
            min_filter: GL_LINEAR_MIPMAP_LINEAR,
            mag_filter: GL_LINEAR,
            mipmaps: true,
        },
    }
}

/// The texture used when a model's texture file cannot be opened: a diffuse texture
/// falls back to a single light grey pixel, saved under a name made of its color
/// values; other textures are left out.
pub fn fallback_texture(texture_type: TextureType) -> (r: Option<(ImageData, String)>)
    ensures
        texture_type is Diffuse ==> (r matches Some((img, name)) && img.width == 1 && img.height
            == 1 && img.rgba@ == seq![198u8, 198u8, 198u8, 255u8] && name@ == "198-198-198.png"@),
        !(texture_type is Diffuse) ==> r is None,
{
    if texture_type == TextureType::Diffuse {
        let rgba: Vec<u8> = vec![198, 198, 198, 255];
        assert(rgba@ =~= seq![198u8, 198u8, 198u8, 255u8]);
        Some((ImageData { width: 1, height: 1, rgba }, "198-198-198.png".to_string()))
    } else {
        None
    }
}

/// Where the pixels of a model texture come from.
#[derive(Debug)]
pub enum TextureImage {
    /// decoded from the texture's own file
    FromFile(ImageData),
    /// the fallback of an unreadable diffuse texture, to be saved beside the model
    /// under `file_name`
    Fallback { image: ImageData, file_name: String },
}

/// The fallback of a diffuse texture: one light grey opaque pixel, saved as
/// "198-198-198.png".
pub open spec fn is_grey_fallback(t: TextureImage) -> bool {
    &&& t matches TextureImage::Fallback { image, file_name }
    &&& image.width == 1
    &&& image.height == 1
    &&& image.rgba@ == seq![198u8, 198u8, 198u8, 255u8]
    &&& file_name@ == "198-198-198.png"@
}

/// What the texture file named `file_name` decodes to, in the format its extension
/// gives: None where it could not be read or decoded.
pub open spec fn decoded_file(file_name: Seq<char>, file_bytes: Option<&[u8]>) -> Option<(u32, u32, Seq<u8>)> {
    match file_bytes {
        Some(b) => decoded_rgba_as(file_name, b@),
        None => None,
    }
}

/// The pixels of a model texture, given what its file decoded to (None where the file
/// could not be read or decoded): the decoded image, else the fallback of a diffuse
/// texture, else nothing.
pub fn texture_image(decoded: Option<ImageData>, texture_type: TextureType) -> (r: Option<
    TextureImage,
>)
    ensures
        decoded matches Some(img) ==> r == Some(TextureImage::FromFile(img)),
        decoded is None ==> (r is Some <==> texture_type is Diffuse),
        decoded is None && r is Some ==> is_grey_fallback(r.unwrap()),
{
    match decoded {
        Some(img) => Some(TextureImage::FromFile(img)),
        None => match fallback_texture(texture_type) {
            Some((image, file_name)) => Some(TextureImage::Fallback { image, file_name }),
            None => None,
        },
    }
}

/// The pixels of the model texture in the file `file_name`, which holds `file_bytes`
/// (None where the file could not be read): the image the bytes decode to in the
/// format that the name's extension gives, else as `texture_image` says.
pub fn texture_from_file(
    file_name: &str,
    file_bytes: Option<&[u8]>,
    texture_type: TextureType,
) -> (r: Option<TextureImage>)
    ensures
        match decoded_file(file_name@, file_bytes) {
            Some((w, h, px)) => r matches Some(TextureImage::FromFile(img)) && img.width == w
                && img.height == h && img.rgba@ == px,
            None => (r is Some <==> texture_type is Diffuse) && (r is Some ==> is_grey_fallback(
                r.unwrap(),
            )),
        },
{
    let decoded = match file_bytes {
        Some(bytes) => match decode_rgba_as(file_name, bytes) {
            Ok(img) => Some(img),
            Err(_) => None,
        },
        None => None,
    };
    texture_image(decoded, texture_type)
}

} // verus!
