use particle_life::boundary::BoundaryMode;
use particle_life::catalog::{PaletteType, PositionPattern, RuleType};
use particle_life::controls::{BrushTool, ModifierState};
use particle_life::defaults::{
    default_auto_scale_radii, default_gen_palette, default_gen_pattern, default_gen_rule,
    default_glow_enabled, default_phys_boundary_mode, default_phys_mirror_wrap_count,
    default_sim_num_particles, default_sim_num_types,
};
use particle_life::render_params::{InfiniteParamsUniform, MirrorParamsUniform};
use particle_life::video::VideoFormat;

#[test]
fn test_boundary_modes() {
    let all = BoundaryMode::all();
    assert_eq!(all.len(), 4);
    assert_eq!(BoundaryMode::Repel.display_name(), "Repel (Bounce)");
    assert_eq!(BoundaryMode::Wrap.display_name(), "Wrap Around");
    assert_eq!(BoundaryMode::MirrorWrap.display_name(), "Mirror Wrap");
    assert_eq!(BoundaryMode::InfiniteWrap.display_name(), "Infinite Tiling");
    assert!(!BoundaryMode::Repel.uses_wrap());
    assert!(BoundaryMode::Wrap.uses_wrap());
    assert!(BoundaryMode::MirrorWrap.uses_wrap());
    assert!(BoundaryMode::InfiniteWrap.uses_wrap());
    assert_eq!(BoundaryMode::default(), BoundaryMode::Repel);
}

#[test]
fn test_palette_catalog() {
    let all = PaletteType::all();
    assert_eq!(all.len(), 37);
    assert_eq!(all[0], PaletteType::Random);
    assert_eq!(PaletteType::Rainbow.display_name(), "Rainbow");
    assert_eq!(PaletteType::CMYKMisregister.display_name(), "CMYK Misregister");
    assert_eq!(PaletteType::Random.category(), "Default");
    assert_eq!(PaletteType::Grayscale.category(), "Static");
    assert_eq!(PaletteType::Blueprint.category(), "Generative");
    assert_eq!(PaletteType::Aurora.category(), "Experimental");
}

#[test]
fn test_position_catalog() {
    let all = PositionPattern::all();
    assert_eq!(all.len(), 28);
    assert_eq!(PositionPattern::RainbowDisk.display_name(), "Rainbow Disk");
    assert_eq!(PositionPattern::Disk.category(), "Classic");
    assert_eq!(PositionPattern::RainbowRing.category(), "Chromatic");
    assert_eq!(PositionPattern::PolarMaze.category(), "Geometric");
    assert_eq!(PositionPattern::OrbitalBelts.category(), "Dynamic");
    assert_eq!(PositionPattern::YinYang.required_types(), Some(2));
    assert_eq!(PositionPattern::TwinCrescents.required_types(), Some(2));
    assert_eq!(PositionPattern::Disk.required_types(), None);
}

#[test]
fn test_rule_catalog() {
    let all = RuleType::all();
    assert_eq!(all.len(), 31);
    assert_eq!(RuleType::RockPaperScissors.display_name(), "Rock–Paper–Scissors");
    assert_eq!(RuleType::Random.category(), "Default");
    assert_eq!(RuleType::Snake.category(), "Experimental");
}

#[test]
fn test_brush_tools() {
    let all = BrushTool::all();
    assert_eq!(all.len(), 5);
    assert_eq!(BrushTool::Draw.name(), "Draw");
    assert_eq!(BrushTool::Inactive.name(), "None");
    assert_eq!(BrushTool::Draw.icon(), "[+]");
    assert_eq!(BrushTool::Attract.icon(), "[>]");
    let mods = ModifierState::default();
    assert!(!mods.shift && !mods.ctrl && !mods.alt);
}

#[test]
fn test_video_formats() {
    let all = VideoFormat::all();
    assert_eq!(all.len(), 3);
    assert_eq!(VideoFormat::MP4.extension(), "mp4");
    assert_eq!(VideoFormat::WebM.extension(), "webm");
    assert_eq!(VideoFormat::GIF.extension(), "gif");
    assert_eq!(VideoFormat::MP4.name(), "MP4 (H.264)");
    assert_eq!(VideoFormat::default(), VideoFormat::MP4);
}

#[test]
fn test_config_defaults() {
    assert_eq!(default_sim_num_particles(), 64_000);
    assert_eq!(default_sim_num_types(), 7);
    assert_eq!(default_gen_rule(), RuleType::Random);
    assert_eq!(default_gen_palette(), PaletteType::Rainbow);
    assert_eq!(default_gen_pattern(), PositionPattern::Disk);
    assert!(default_glow_enabled());
    assert_eq!(default_phys_boundary_mode(), BoundaryMode::Wrap);
    assert_eq!(default_phys_mirror_wrap_count(), 5);
    assert!(default_auto_scale_radii());
}

#[test]
fn test_render_param_uniforms() {
    let mirror = MirrorParamsUniform::new(9);
    assert_eq!(mirror.num_copies, 9);
    let inf = InfiniteParamsUniform { start_x: -2, start_y: -1, num_copies_x: 4, num_copies_y: 3 };
    assert_eq!(inf.total_copies(), 12);
}
