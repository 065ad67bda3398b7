use spaghetti_engine::animation::{
    can_interrupt, fallback_texture, is_held, is_one_shot_clip, lod_tick, sampling_for_profile,
    texture_from_file, texture_slot, AnimationSelection, ModelTextures, NextAnimationEffects,
    Texture, TextureImage, TextureSampling,
};
use spaghetti_engine::assets::{encode_image, load_image, ImageData, ImageLoadError, ImageSaveError};
use spaghetti_engine::command_buffer::{AnimOp, CommandBuffer, ImpulseKind};
use spaghetti_engine::enums_types::{AnimationType, TextureProfile, TextureType};
use spaghetti_engine::projectile::ProjectileController;

#[test]
fn clips_interrupt_from_their_interrupt_frame() {
    assert!(can_interrupt(None, 0));
    assert!(!can_interrupt(Some(10), 9));
    assert!(can_interrupt(Some(10), 10));
    assert!(can_interrupt(Some(10), 25));
}

#[test]
fn clips_hold_only_on_their_hold_frame_when_asked() {
    assert!(is_held(Some(4), 4, true));
    assert!(!is_held(Some(4), 4, false));
    assert!(!is_held(Some(4), 5, true));
    assert!(!is_held(None, 4, true));
}

#[test]
fn level_of_detail_skips_ticks() {
    assert_eq!(lod_tick(7, 0), (7, true));
    assert_eq!(lod_tick(0, 2), (1, false));
    assert_eq!(lod_tick(1, 2), (2, false));
    assert_eq!(lod_tick(2, 2), (3, true));
    assert_eq!(lod_tick(u32::MAX, 3), (0, true));
}

#[test]
fn one_shot_clips() {
    for name in ["Death", "Slash", "Slash2", "DashF", "Jump", "Flinch", "Block"] {
        assert!(is_one_shot_clip(name));
    }
    for name in ["Run", "Idle", "Dance", "Freefall", "death"] {
        assert!(!is_one_shot_clip(name));
    }
}

#[test]
fn textures_go_to_their_slots() {
    assert_eq!(texture_slot(TextureType::Diffuse), 1);
    assert_eq!(texture_slot(TextureType::Opacity), 8);
    let mut m = ModelTextures::new();
    assert!(m.get_tex(0).is_none());
    m.set_texture(
        TextureType::Specular,
        Texture { id: 12, _type: "texture_specular".to_string(), path: "spec.png".to_string() },
    );
    assert_eq!(m.get_tex(1).map(|t| t.id), Some(12));
    assert!(m.get_tex(0).is_none());
    m.set_texture(
        TextureType::Diffuse,
        Texture { id: 7, _type: "texture_diffuse".to_string(), path: "diffuse.png".to_string() },
    );
    assert_eq!(m.get_tex(0).map(|t| t.id), Some(7));
    assert!(m.textures[0].is_none());
    assert!(m.get_tex(8).is_none());
    assert!(m.get_tex(9).is_none());
    assert!(m.get_tex(100).is_none());
}

#[test]
fn asking_for_the_next_clip() {
    let mut s = AnimationSelection::new();
    assert_eq!(s.current_animation, AnimationType::Idle);
    let fx = s.set_next_animation(AnimationType::Slash, true, true);
    assert_eq!(fx, NextAnimationEffects { restart_blend: true, rewind_clip: true });
    assert_eq!(s.next_animation, AnimationType::Slash);
    let fx = s.set_next_animation(AnimationType::Slash, true, true);
    assert_eq!(fx, NextAnimationEffects { restart_blend: false, rewind_clip: false });
    let fx = s.set_next_animation(AnimationType::Run, false, false);
    assert_eq!(fx, NextAnimationEffects { restart_blend: true, rewind_clip: false });
    assert_eq!(s.next_animation, AnimationType::Idle);
    s.set_current_animation(AnimationType::Jump);
    assert_eq!(s.current_animation, AnimationType::Jump);
    assert_eq!(s.next_animation, AnimationType::Idle);
}

#[test]
fn commands_queue_in_order() {
    let mut cb = CommandBuffer::new();
    cb.next_anim(3, AnimationType::Run, None);
    cb.set_anim_hold(3, AnimationType::Block, true, Some(8));
    cb.set_anim_hold(3, AnimationType::Block, false, Some(8));
    cb.reset_attacks(4, None);
    cb.next_anim_from_lookup(4, "Slash".to_string(), None);
    cb.current_anim(5, AnimationType::Idle, None);
    assert_eq!(cb.anim.len(), 6);
    assert!(matches!(cb.anim[0].op, AnimOp::SetNextAnimation(AnimationType::Run)));
    assert!(matches!(cb.anim[1].op, AnimOp::DoHold(AnimationType::Block)));
    assert_eq!(cb.anim[1].weapon, Some(8));
    assert!(matches!(cb.anim[2].op, AnimOp::StopHold(AnimationType::Block)));
    assert!(matches!(cb.anim[3].op, AnimOp::ResetAttacks));
    assert!(matches!(&cb.anim[4].op, AnimOp::SetAnimFromString(s) if s == "Slash"));
    assert!(matches!(cb.anim[5].op, AnimOp::SetCurrentAnimation(AnimationType::Idle)));
    assert_eq!(cb.anim[5].target, 5);
    assert!(cb.combat.is_empty());
}

#[test]
fn impulse_precedence() {
    assert!(ImpulseKind::World.cancels(ImpulseKind::Locomotion));
    assert!(ImpulseKind::World.cancels(ImpulseKind::World));
    assert!(ImpulseKind::Action.cancels(ImpulseKind::HitReaction));
    assert!(!ImpulseKind::HitReaction.cancels(ImpulseKind::Action));
    assert!(!ImpulseKind::Action.cancels(ImpulseKind::Locomotion));
    assert!(!ImpulseKind::Locomotion.cancels(ImpulseKind::World));
}

#[test]
fn projectile_fires_once_per_frame_window() {
    let mut c = ProjectileController::new();
    assert!(!c.observe_frame(false));
    assert!(c.observe_frame(true));
    assert!(!c.observe_frame(true));
    assert!(!c.observe_frame(false));
    assert!(c.observe_frame(true));
}

#[test]
fn texture_profiles_pick_their_sampling() {
    assert_eq!(
        sampling_for_profile(TextureProfile::DecalCrisp),
        TextureSampling { wrap: 0x812F, min_filter: 0x2600, mag_filter: 0x2600, mipmaps: false }
    );
    assert_eq!(
        sampling_for_profile(TextureProfile::BroadDefault),
        TextureSampling { wrap: 0x2901, min_filter: 0x2702, mag_filter: 0x2600, mipmaps: true }
    );
    assert_eq!(
        sampling_for_profile(TextureProfile::AlphaMasked),
        TextureSampling { wrap: 0x812F, min_filter: 0x2703, mag_filter: 0x2601, mipmaps: true }
    );
}

#[test]
fn only_diffuse_textures_have_a_fallback() {
    let (img, name) = fallback_texture(TextureType::Diffuse).unwrap();
    assert_eq!((img.width, img.height), (1, 1));
    assert_eq!(img.rgba, vec![198, 198, 198, 255]);
    assert_eq!(name, "198-198-198.png");
    assert!(fallback_texture(TextureType::Specular).is_none());
    assert!(fallback_texture(TextureType::NormalMap).is_none());
    assert!(fallback_texture(TextureType::Opacity).is_none());
}

fn grey_png(width: u32, height: u32, levels: Vec<u8>) -> Vec<u8> {
    let img = image::GrayImage::from_raw(width, height, levels).unwrap();
    let mut out = std::io::Cursor::new(Vec::new());
    img.write_to(&mut out, image::ImageFormat::Png).unwrap();
    out.into_inner()
}

#[test]
fn texture_files_decode_to_rgba() {
    let bytes = grey_png(2, 1, vec![10, 200]);
    match texture_from_file("wall.png", Some(&bytes), TextureType::Specular) {
        Some(TextureImage::FromFile(img)) => {
            assert_eq!((img.width, img.height), (2, 1));
            assert_eq!(img.rgba, vec![10, 10, 10, 255, 200, 200, 200, 255]);
        }
        _ => panic!("the texture should decode"),
    }
}

#[test]
fn unreadable_textures_fall_back_for_diffuse_only() {
    let garbage: Vec<u8> = vec![1, 2, 3, 4, 5];
    match texture_from_file("a.png", Some(&garbage), TextureType::Diffuse) {
        Some(TextureImage::Fallback { image, file_name }) => {
            assert_eq!(image.rgba, vec![198, 198, 198, 255]);
            assert_eq!(file_name, "198-198-198.png");
        }
        _ => panic!("a diffuse texture falls back"),
    }
    assert!(texture_from_file("a.png", Some(&garbage), TextureType::Emissive).is_none());
    assert!(matches!(
        texture_from_file("missing.png", None, TextureType::Diffuse),
        Some(TextureImage::Fallback { .. })
    ));
    assert!(texture_from_file("missing.png", None, TextureType::Roughness).is_none());
}

#[test]
fn images_load_or_name_their_file() {
    let bytes = grey_png(1, 1, vec![7]);
    let img = load_image("dot.png", &bytes).unwrap();
    assert_eq!(img.rgba, vec![7, 7, 7, 255]);
    match load_image("broken.png", &[0u8, 1, 2]) {
        Err(ImageLoadError::Decode { path, .. }) => assert_eq!(path, "broken.png"),
        Ok(_) => panic!("these bytes are no image"),
    }
}

#[test]
fn texture_files_are_decoded_in_the_format_their_name_gives() {
    let bytes = grey_png(1, 1, vec![50]);
    assert!(matches!(
        texture_from_file("tex.PNG", Some(&bytes), TextureType::Diffuse),
        Some(TextureImage::FromFile(_))
    ));
    assert!(matches!(
        texture_from_file("tex.jpg", Some(&bytes), TextureType::Diffuse),
        Some(TextureImage::Fallback { .. })
    ));
    assert!(matches!(
        texture_from_file("tex", Some(&bytes), TextureType::Diffuse),
        Some(TextureImage::Fallback { .. })
    ));
    assert!(texture_from_file("tex.txt", Some(&bytes), TextureType::Specular).is_none());
    assert_eq!(load_image("tex.jpg", &bytes).unwrap().rgba, vec![50, 50, 50, 255]);
}

#[test]
fn encoded_images_decode_to_the_same_pixels() {
    let img = ImageData { width: 2, height: 1, rgba: vec![1, 2, 3, 255, 40, 50, 60, 255] };
    let bytes = encode_image("out.png", &img).unwrap();
    assert_ne!(bytes, img.rgba);
    assert_eq!(&bytes[1..4], b"PNG");
    let back = load_image("out.png", &bytes).unwrap();
    assert_eq!((back.width, back.height), (2, 1));
    assert_eq!(back.rgba, img.rgba);
}

#[test]
fn images_are_not_encoded_under_a_name_without_a_writable_format() {
    let img = ImageData { width: 1, height: 1, rgba: vec![9, 9, 9, 255] };
    match encode_image("out.xyz", &img) {
        Err(ImageSaveError::Encode { path, .. }) => assert_eq!(path, "out.xyz"),
        Ok(_) => panic!("no format is named by this extension"),
    }
    assert!(encode_image("out.jpg", &img).is_err());
}
