use rand::SeedableRng;
use rand_chacha::ChaCha8Rng;
use spaghetti_engine::enums_types::FxaaLevels;
use spaghetti_engine::render_targets::{
    bloom_mip_sizes, needs_byte_unpack_alignment, BloomMip, RenderTargetColorFormat, RenderTargetDepthFormat, RenderTargetPolicy,
    UiTextureDescriptor, UiTextureFilter, UiTextureFormat, UiTextureWrap, UiUploadBuffer,
};
use spaghetti_engine::spawn::{default_rounds, weapon_for_enemy, RoundData, RoundSchedule, RoundStep};
use std::collections::VecDeque;

#[test]
fn compatibility_mode_turns_every_extra_pass_off() {
    let p = RenderTargetPolicy::for_capabilities(true, false, 4, FxaaLevels::High);
    assert!(p.compatibility_mode);
    assert_eq!(p.color_format, RenderTargetColorFormat::Rgba8);
    assert!(!p.hdr_enabled && !p.bloom_enabled && !p.msaa_enabled && !p.fxaa_enabled && !p.mrt_enabled);
    let q = RenderTargetPolicy::for_capabilities(false, true, 4, FxaaLevels::High);
    assert_eq!(p, q);
}

#[test]
fn desktop_policy_picks_msaa_or_fxaa() {
    let p = RenderTargetPolicy::for_capabilities(false, false, 4, FxaaLevels::High);
    assert_eq!(p.color_format, RenderTargetColorFormat::Rgba16F);
    assert_eq!(p.depth_format, RenderTargetDepthFormat::DepthComponent24);
    assert!(p.hdr_enabled && p.bloom_enabled && p.mrt_enabled && p.msaa_enabled);
    assert!(!p.fxaa_enabled);
    let p = RenderTargetPolicy::for_capabilities(false, false, 1, FxaaLevels::Low);
    assert!(!p.msaa_enabled);
    assert!(p.fxaa_enabled);
    let p = RenderTargetPolicy::for_capabilities(false, false, 1, FxaaLevels::Off);
    assert!(!p.fxaa_enabled);
    assert_eq!(RenderTargetColorFormat::Rgba16F.label(), "RGBA16F");
    assert_eq!(RenderTargetDepthFormat::DepthComponent24.label(), "DEPTH_COMPONENT24");
}

#[test]
fn bloom_chain_halves_six_times_at_most() {
    assert_eq!(
        bloom_mip_sizes(1920, 1080),
        vec![(960, 540), (480, 270), (240, 135), (120, 67), (60, 33), (30, 16)]
    );
    assert_eq!(bloom_mip_sizes(16, 16), vec![(8, 8), (4, 4), (2, 2)]);
    assert!(bloom_mip_sizes(3, 100).is_empty());
    assert!(bloom_mip_sizes(u32::MAX, 100).is_empty());
}

#[test]
fn ui_texture_descriptors() {
    let d = UiTextureDescriptor::rgba_nearest_clamped(64, 32);
    assert_eq!(d.width, 64);
    assert_eq!(d.height, 32);
    assert_eq!(d.format, UiTextureFormat::Rgba);
    assert_eq!(d.min_filter, UiTextureFilter::Nearest);
    assert_eq!(d.mag_filter, UiTextureFilter::Nearest);
    assert_eq!(d.wrap_s, UiTextureWrap::ClampToEdge);
    assert_eq!(d.wrap_t, UiTextureWrap::ClampToEdge);
    assert_eq!(UiTextureDescriptor::alpha_linear_clamped(1, 1).format, UiTextureFormat::AlphaMask);
    assert_eq!(UiTextureDescriptor::rgba8_linear_clamped(1, 1).format, UiTextureFormat::Rgba8);
    assert_eq!(UiTextureDescriptor::rgba_linear_clamped(1, 1).min_filter, UiTextureFilter::Linear);
    assert!(needs_byte_unpack_alignment(UiTextureFormat::AlphaMask));
    assert!(!needs_byte_unpack_alignment(UiTextureFormat::Rgba));
    assert_eq!(UiUploadBuffer::from_id(42).id(), 42);
    let m = BloomMip::new(1, 2, 300, 200);
    assert_eq!((m.fbo(), m.tex(), m.w(), m.h()), (1, 2, 300, 200));
}

#[test]
fn a_round_waits_spawns_runs_and_finishes() {
    let mut s = RoundSchedule { rounds: VecDeque::new() };
    s.rounds.push_back(RoundData::new(2, None));
    s.rounds.push_back(RoundData::new(3, None));
    assert_eq!(s.update(false, true, true), RoundStep::Nothing);
    assert_eq!(s.update(true, false, true), RoundStep::Waiting);
    assert_eq!(s.update(true, true, true), RoundStep::Spawn);
    assert!(s.rounds[0].spawned());
    assert_eq!(s.rounds[0].amount(), 2);
    assert_eq!(s.update(true, true, false), RoundStep::InProgress);
    assert_eq!(s.update(true, true, true), RoundStep::Finished);
    assert_eq!(s.rounds.len(), 1);
    assert!(!s.rounds[0].spawned());
    assert_eq!(s.rounds[0].amount(), 3);
    assert_eq!(s.update(true, true, true), RoundStep::Spawn);
    assert_eq!(s.update(true, false, true), RoundStep::Finished);
    assert_eq!(s.update(true, true, true), RoundStep::Nothing);
}

#[test]
fn the_default_rounds() {
    let s = default_rounds();
    let amounts: Vec<u32> = s.rounds.iter().map(|r| r.amount()).collect();
    assert_eq!(amounts, vec![1, 2, 4]);
    assert!(s.rounds.iter().all(|r| !r.spawned()));
    assert_eq!(s.rounds[2].weapons().clone(), Some(vec![
        "OrcSword".to_string(),
        "OrcSword".to_string(),
        "DoubleAxe".to_string(),
        "FireStaff".to_string(),
    ]));
}

#[test]
fn enemies_carry_the_round_weapons_or_a_drawn_one() {
    let mut rng = ChaCha8Rng::seed_from_u64(7);
    let s = default_rounds();
    let types = vec!["OrcSword".to_string(), "DoubleAxe".to_string()];
    assert_eq!(weapon_for_enemy(&s.rounds[1], 1, &types, &mut rng), "DoubleAxe");
    assert_eq!(weapon_for_enemy(&s.rounds[2], 3, &types, &mut rng), "FireStaff");
    let free = RoundData::new(5, None);
    for i in 0..5 {
        let w = weapon_for_enemy(&free, i, &types, &mut rng);
        assert!(types.contains(&w));
    }
}
