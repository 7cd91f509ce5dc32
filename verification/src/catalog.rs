//! Catalogs of the data generators the simulator offers.
//!
//! The generators themselves produce floating-point colors, positions and
//! interaction matrices and live in the application shell; the catalog types
//! here name them, order them, and group them for selection menus.

use vstd::prelude::*;

verus! {

/// Types of color palette generators available.
#[derive(Debug, Clone, Copy, PartialEq, Eq, Structural)]
pub enum PaletteType {
    Random,
    Rainbow,
    NeonWarm,
    HeatmapClassic,
    HeatmapCool,
    HeatmapWarm,
    Pastel,
    ColdBlue,
    SciFiSpectrum,
    ThermalGlow,
    CrimsonFlame,
    Fire,
    VioletFade,
    Grayscale,
    DesertWarm,
    DualGradient,
    Candy,
    OrganicFlow,
    EarthFlow,
    GameBoyDMG,
    PaperAndInk,
    FluoroSport,
    MidnightCircuit,
    BioluminescentAbyss,
    Blueprint,
    CyberDark,
    HolographicFoil,
    MineralGemstones,
    VaporwavePastel,
    SolarizedDrift,
    Aurora,
    CyberNeon,
    GoldenAngleJitter,
    CMYKMisregister,
    AnodizedMetal,
    InkBleedWatercolor,
    HolographicFoil2,
}

impl Default for PaletteType {
    fn default() -> (r: Self)
        ensures
            r == PaletteType::Random,
    {
        PaletteType::Random
    }
}

impl PaletteType {
    /// Get all available variants, in declaration order.
    pub fn all() -> (r: Vec<PaletteType>)
        ensures
            r@ == seq![
                PaletteType::Random,
                PaletteType::Rainbow,
                PaletteType::NeonWarm,
                PaletteType::HeatmapClassic,
                PaletteType::HeatmapCool,
                PaletteType::HeatmapWarm,
                PaletteType::Pastel,
                PaletteType::ColdBlue,
                PaletteType::SciFiSpectrum,
                PaletteType::ThermalGlow,
                PaletteType::CrimsonFlame,
                PaletteType::Fire,
                PaletteType::VioletFade,
                PaletteType::Grayscale,
                PaletteType::DesertWarm,
                PaletteType::DualGradient,
                PaletteType::Candy,
                PaletteType::OrganicFlow,
                PaletteType::EarthFlow,
                PaletteType::GameBoyDMG,
                PaletteType::PaperAndInk,
                PaletteType::FluoroSport,
                PaletteType::MidnightCircuit,
                PaletteType::BioluminescentAbyss,
                PaletteType::Blueprint,
                PaletteType::CyberDark,
                PaletteType::HolographicFoil,
                PaletteType::MineralGemstones,
                PaletteType::VaporwavePastel,
                PaletteType::SolarizedDrift,
                PaletteType::Aurora,
                PaletteType::CyberNeon,
                PaletteType::GoldenAngleJitter,
                PaletteType::CMYKMisregister,
                PaletteType::AnodizedMetal,
                PaletteType::InkBleedWatercolor,
                PaletteType::HolographicFoil2,
            ],
    {
        let r = vec![
            PaletteType::Random,
            PaletteType::Rainbow,
            PaletteType::NeonWarm,
            PaletteType::HeatmapClassic,
            PaletteType::HeatmapCool,
            PaletteType::HeatmapWarm,
            PaletteType::Pastel,
            PaletteType::ColdBlue,
            PaletteType::SciFiSpectrum,
            PaletteType::ThermalGlow,
            PaletteType::CrimsonFlame,
            PaletteType::Fire,
            PaletteType::VioletFade,
            PaletteType::Grayscale,
            PaletteType::DesertWarm,
            PaletteType::DualGradient,
            PaletteType::Candy,
            PaletteType::OrganicFlow,
            PaletteType::EarthFlow,
            PaletteType::GameBoyDMG,
            PaletteType::PaperAndInk,
            PaletteType::FluoroSport,
            PaletteType::MidnightCircuit,
            PaletteType::BioluminescentAbyss,
            PaletteType::Blueprint,
            PaletteType::CyberDark,
            PaletteType::HolographicFoil,
            PaletteType::MineralGemstones,
            PaletteType::VaporwavePastel,
            PaletteType::SolarizedDrift,
            PaletteType::Aurora,
            PaletteType::CyberNeon,
            PaletteType::GoldenAngleJitter,
            PaletteType::CMYKMisregister,
            PaletteType::AnodizedMetal,
            PaletteType::InkBleedWatercolor,
            PaletteType::HolographicFoil2,
        ];
        assert(r@ =~= seq![
            PaletteType::Random,
                PaletteType::Rainbow,
                PaletteType::NeonWarm,
                PaletteType::HeatmapClassic,
                PaletteType::HeatmapCool,
                PaletteType::HeatmapWarm,
                PaletteType::Pastel,
                PaletteType::ColdBlue,
                PaletteType::SciFiSpectrum,
                PaletteType::ThermalGlow,
                PaletteType::CrimsonFlame,
                PaletteType::Fire,
                PaletteType::VioletFade,
                PaletteType::Grayscale,
                PaletteType::DesertWarm,
                PaletteType::DualGradient,
                PaletteType::Candy,
                PaletteType::OrganicFlow,
                PaletteType::EarthFlow,
                PaletteType::GameBoyDMG,
                PaletteType::PaperAndInk,
                PaletteType::FluoroSport,
                PaletteType::MidnightCircuit,
                PaletteType::BioluminescentAbyss,
                PaletteType::Blueprint,
                PaletteType::CyberDark,
                PaletteType::HolographicFoil,
                PaletteType::MineralGemstones,
                PaletteType::VaporwavePastel,
                PaletteType::SolarizedDrift,
                PaletteType::Aurora,
                PaletteType::CyberNeon,
                PaletteType::GoldenAngleJitter,
                PaletteType::CMYKMisregister,
                PaletteType::AnodizedMetal,
                PaletteType::InkBleedWatercolor,
                PaletteType::HolographicFoil2,
        ]);
        r
    }

    /// The display name of this palette (specification).
    pub open spec fn spec_display_name(self) -> Seq<char> {
        match self {
            PaletteType::Random => "Random"@,
            PaletteType::Rainbow => "Rainbow"@,
            PaletteType::NeonWarm => "Neon Warm"@,
            PaletteType::HeatmapClassic => "Heatmap Classic"@,
            PaletteType::HeatmapCool => "Heatmap Cool"@,
            PaletteType::HeatmapWarm => "Heatmap Warm"@,
            PaletteType::Pastel => "Pastel"@,
            PaletteType::ColdBlue => "Cold Blue"@,
            PaletteType::SciFiSpectrum => "Sci-Fi Spectrum"@,
            PaletteType::ThermalGlow => "Thermal Glow"@,
            PaletteType::CrimsonFlame => "Crimson Flame"@,
            PaletteType::Fire => "Fire"@,
            PaletteType::VioletFade => "Violet Fade"@,
            PaletteType::Grayscale => "Grayscale"@,
            PaletteType::DesertWarm => "Desert Warm"@,
            PaletteType::DualGradient => "Dual Gradient"@,
            PaletteType::Candy => "Candy"@,
            PaletteType::OrganicFlow => "Organic Flow"@,
            PaletteType::EarthFlow => "Earth Flow"@,
            PaletteType::GameBoyDMG => "Game Boy DMG"@,
            PaletteType::PaperAndInk => "Paper & Ink"@,
            PaletteType::FluoroSport => "Fluoro Sport"@,
            PaletteType::MidnightCircuit => "Midnight Circuit"@,
            PaletteType::BioluminescentAbyss => "BioLuminescent Abyss"@,
            PaletteType::Blueprint => "Blueprint"@,
            PaletteType::CyberDark => "Cyber Dark"@,
            PaletteType::HolographicFoil => "Holographic Foil"@,
            PaletteType::MineralGemstones => "Mineral Gemstones"@,
            PaletteType::VaporwavePastel => "Vaporwave Pastel"@,
            PaletteType::SolarizedDrift => "Solarized Drift"@,
            PaletteType::Aurora => "Aurora"@,
            PaletteType::CyberNeon => "Cyber Neon"@,
            PaletteType::GoldenAngleJitter => "Golden Angle Jitter"@,
            PaletteType::CMYKMisregister => "CMYK Misregister"@,
            PaletteType::AnodizedMetal => "Anodized Metal"@,
            PaletteType::InkBleedWatercolor => "Ink Bleed Watercolor"@,
            PaletteType::HolographicFoil2 => "Holographic Foil 2"@,
        }
    }

    /// The display name of this palette.
    pub fn display_name(&self) -> (r: &'static str)
        ensures
            r@ == self.spec_display_name(),
    {
        match self {
            PaletteType::Random => "Random",
            PaletteType::Rainbow => "Rainbow",
            PaletteType::NeonWarm => "Neon Warm",
            PaletteType::HeatmapClassic => "Heatmap Classic",
            PaletteType::HeatmapCool => "Heatmap Cool",
            PaletteType::HeatmapWarm => "Heatmap Warm",
            PaletteType::Pastel => "Pastel",
            PaletteType::ColdBlue => "Cold Blue",
            PaletteType::SciFiSpectrum => "Sci-Fi Spectrum",
            PaletteType::ThermalGlow => "Thermal Glow",
            PaletteType::CrimsonFlame => "Crimson Flame",
            PaletteType::Fire => "Fire",
            PaletteType::VioletFade => "Violet Fade",
            PaletteType::Grayscale => "Grayscale",
            PaletteType::DesertWarm => "Desert Warm",
            PaletteType::DualGradient => "Dual Gradient",
            PaletteType::Candy => "Candy",
            PaletteType::OrganicFlow => "Organic Flow",
            PaletteType::EarthFlow => "Earth Flow",
            PaletteType::GameBoyDMG => "Game Boy DMG",
            PaletteType::PaperAndInk => "Paper & Ink",
            PaletteType::FluoroSport => "Fluoro Sport",
            PaletteType::MidnightCircuit => "Midnight Circuit",
            PaletteType::BioluminescentAbyss => "BioLuminescent Abyss",
            PaletteType::Blueprint => "Blueprint",
            PaletteType::CyberDark => "Cyber Dark",
            PaletteType::HolographicFoil => "Holographic Foil",
            PaletteType::MineralGemstones => "Mineral Gemstones",
            PaletteType::VaporwavePastel => "Vaporwave Pastel",
            PaletteType::SolarizedDrift => "Solarized Drift",
            PaletteType::Aurora => "Aurora",
            PaletteType::CyberNeon => "Cyber Neon",
            PaletteType::GoldenAngleJitter => "Golden Angle Jitter",
            PaletteType::CMYKMisregister => "CMYK Misregister",
            PaletteType::AnodizedMetal => "Anodized Metal",
            PaletteType::InkBleedWatercolor => "Ink Bleed Watercolor",
            PaletteType::HolographicFoil2 => "Holographic Foil 2",
        }
    }

    /// The catalog category of this palette (specification).
    pub open spec fn spec_category(self) -> Seq<char> {
        match self {
            PaletteType::Random => "Default"@,
            PaletteType::Rainbow => "Static"@,
            PaletteType::NeonWarm => "Static"@,
            PaletteType::HeatmapClassic => "Static"@,
            PaletteType::HeatmapCool => "Static"@,
            PaletteType::HeatmapWarm => "Static"@,
            PaletteType::Pastel => "Static"@,
            PaletteType::ColdBlue => "Static"@,
            PaletteType::SciFiSpectrum => "Static"@,
            PaletteType::ThermalGlow => "Static"@,
            PaletteType::CrimsonFlame => "Static"@,
            PaletteType::Fire => "Static"@,
            PaletteType::VioletFade => "Static"@,
            PaletteType::Grayscale => "Static"@,
            PaletteType::DesertWarm => "Static"@,
            PaletteType::DualGradient => "Generative"@,
            PaletteType::Candy => "Generative"@,
            PaletteType::OrganicFlow => "Generative"@,
            PaletteType::EarthFlow => "Generative"@,
            PaletteType::GameBoyDMG => "Generative"@,
            PaletteType::PaperAndInk => "Generative"@,
            PaletteType::FluoroSport => "Generative"@,
            PaletteType::MidnightCircuit => "Generative"@,
            PaletteType::BioluminescentAbyss => "Generative"@,
            PaletteType::Blueprint => "Generative"@,
            PaletteType::CyberDark => "Generative"@,
            PaletteType::HolographicFoil => "Experimental"@,
            PaletteType::MineralGemstones => "Experimental"@,
            PaletteType::VaporwavePastel => "Experimental"@,
            PaletteType::SolarizedDrift => "Experimental"@,
            PaletteType::Aurora => "Experimental"@,
            PaletteType::CyberNeon => "Experimental"@,
            PaletteType::GoldenAngleJitter => "Experimental"@,
            PaletteType::CMYKMisregister => "Experimental"@,
            PaletteType::AnodizedMetal => "Experimental"@,
            PaletteType::InkBleedWatercolor => "Experimental"@,
            PaletteType::HolographicFoil2 => "Experimental"@,
        }
    }

    /// The catalog category of this palette.
    pub fn category(&self) -> (r: &'static str)
        ensures
            r@ == self.spec_category(),
    {
        match self {
            PaletteType::Random => "Default",
            PaletteType::Rainbow => "Static",
            PaletteType::NeonWarm => "Static",
            PaletteType::HeatmapClassic => "Static",
            PaletteType::HeatmapCool => "Static",
            PaletteType::HeatmapWarm => "Static",
            PaletteType::Pastel => "Static",
            PaletteType::ColdBlue => "Static",
            PaletteType::SciFiSpectrum => "Static",
            PaletteType::ThermalGlow => "Static",
            PaletteType::CrimsonFlame => "Static",
            PaletteType::Fire => "Static",
            PaletteType::VioletFade => "Static",
            PaletteType::Grayscale => "Static",
            PaletteType::DesertWarm => "Static",
            PaletteType::DualGradient => "Generative",
            PaletteType::Candy => "Generative",
            PaletteType::OrganicFlow => "Generative",
            PaletteType::EarthFlow => "Generative",
            PaletteType::GameBoyDMG => "Generative",
            PaletteType::PaperAndInk => "Generative",
            PaletteType::FluoroSport => "Generative",
            PaletteType::MidnightCircuit => "Generative",
            PaletteType::BioluminescentAbyss => "Generative",
            PaletteType::Blueprint => "Generative",
            PaletteType::CyberDark => "Generative",
            PaletteType::HolographicFoil => "Experimental",
            PaletteType::MineralGemstones => "Experimental",
            PaletteType::VaporwavePastel => "Experimental",
            PaletteType::SolarizedDrift => "Experimental",
            PaletteType::Aurora => "Experimental",
            PaletteType::CyberNeon => "Experimental",
            PaletteType::GoldenAngleJitter => "Experimental",
            PaletteType::CMYKMisregister => "Experimental",
            PaletteType::AnodizedMetal => "Experimental",
            PaletteType::InkBleedWatercolor => "Experimental",
            PaletteType::HolographicFoil2 => "Experimental",
        }
    }
}

/// Types of spawn-position patterns available.
#[derive(Debug, Clone, Copy, PartialEq, Eq, Structural)]
pub enum PositionPattern {
    Random,
    Disk,
    Ring,
    Rings,
    Spiral,
    Line,
    RainbowDisk,
    RainbowRing,
    RainbowRings,
    RainbowSpiral,
    RainbowLine,
    Stripes,
    Border,
    Grid,
    WavyBands,
    SimpleFlower,
    ChromaticFlower,
    YinYang,
    TwinCrescents,
    TwinSpirals,
    SpiralArms,
    PolarMaze,
    ChaoticBands,
    RadiantFans,
    SoftClusters,
    LinkedClusters,
    OrbitalBelts,
    BraidedBelts,
}

impl Default for PositionPattern {
    fn default() -> (r: Self)
        ensures
            r == PositionPattern::Random,
    {
        PositionPattern::Random
    }
}

impl PositionPattern {
    /// Get all available variants, in declaration order.
    pub fn all() -> (r: Vec<PositionPattern>)
        ensures
            r@ == seq![
                PositionPattern::Random,
                PositionPattern::Disk,
                PositionPattern::Ring,
                PositionPattern::Rings,
                PositionPattern::Spiral,
                PositionPattern::Line,
                PositionPattern::RainbowDisk,
                PositionPattern::RainbowRing,
                PositionPattern::RainbowRings,
                PositionPattern::RainbowSpiral,
                PositionPattern::RainbowLine,
                PositionPattern::Stripes,
                PositionPattern::Border,
                PositionPattern::Grid,
                PositionPattern::WavyBands,
                PositionPattern::SimpleFlower,
                PositionPattern::ChromaticFlower,
                PositionPattern::YinYang,
                PositionPattern::TwinCrescents,
                PositionPattern::TwinSpirals,
                PositionPattern::SpiralArms,
                PositionPattern::PolarMaze,
                PositionPattern::ChaoticBands,
                PositionPattern::RadiantFans,
                PositionPattern::SoftClusters,
                PositionPattern::LinkedClusters,
                PositionPattern::OrbitalBelts,
                PositionPattern::BraidedBelts,
            ],
    {
        let r = vec![
            PositionPattern::Random,
            PositionPattern::Disk,
            PositionPattern::Ring,
            PositionPattern::Rings,
            PositionPattern::Spiral,
            PositionPattern::Line,
            PositionPattern::RainbowDisk,
            PositionPattern::RainbowRing,
            PositionPattern::RainbowRings,
            PositionPattern::RainbowSpiral,
            PositionPattern::RainbowLine,
            PositionPattern::Stripes,
            PositionPattern::Border,
            PositionPattern::Grid,
            PositionPattern::WavyBands,
            PositionPattern::SimpleFlower,
            PositionPattern::ChromaticFlower,
            PositionPattern::YinYang,
            PositionPattern::TwinCrescents,
            PositionPattern::TwinSpirals,
            PositionPattern::SpiralArms,
            PositionPattern::PolarMaze,
            PositionPattern::ChaoticBands,
            PositionPattern::RadiantFans,
            PositionPattern::SoftClusters,
            PositionPattern::LinkedClusters,
            PositionPattern::OrbitalBelts,
            PositionPattern::BraidedBelts,
        ];
        assert(r@ =~= seq![
            PositionPattern::Random,
                PositionPattern::Disk,
                PositionPattern::Ring,
                PositionPattern::Rings,
                PositionPattern::Spiral,
                PositionPattern::Line,
                PositionPattern::RainbowDisk,
                PositionPattern::RainbowRing,
                PositionPattern::RainbowRings,
                PositionPattern::RainbowSpiral,
                PositionPattern::RainbowLine,
                PositionPattern::Stripes,
                PositionPattern::Border,
                PositionPattern::Grid,
                PositionPattern::WavyBands,
                PositionPattern::SimpleFlower,
                PositionPattern::ChromaticFlower,
                PositionPattern::YinYang,
                PositionPattern::TwinCrescents,
                PositionPattern::TwinSpirals,
                PositionPattern::SpiralArms,
                PositionPattern::PolarMaze,
                PositionPattern::ChaoticBands,
                PositionPattern::RadiantFans,
                PositionPattern::SoftClusters,
                PositionPattern::LinkedClusters,
                PositionPattern::OrbitalBelts,
                PositionPattern::BraidedBelts,
        ]);
        r
    }

    /// The display name of this pattern (specification).
    pub open spec fn spec_display_name(self) -> Seq<char> {
        match self {
            PositionPattern::Random => "Random"@,
            PositionPattern::Disk => "Disk"@,
            PositionPattern::Ring => "Ring"@,
            PositionPattern::Rings => "Rings"@,
            PositionPattern::Spiral => "Spiral"@,
            PositionPattern::Line => "Line"@,
            PositionPattern::RainbowDisk => "Rainbow Disk"@,
            PositionPattern::RainbowRing => "Rainbow Ring"@,
            PositionPattern::RainbowRings => "Rainbow Rings"@,
            PositionPattern::RainbowSpiral => "Rainbow Spiral"@,
            PositionPattern::RainbowLine => "Rainbow Line"@,
            PositionPattern::Stripes => "Stripes"@,
            PositionPattern::Border => "Border"@,
            PositionPattern::Grid => "Grid"@,
            PositionPattern::WavyBands => "Wavy Bands"@,
            PositionPattern::SimpleFlower => "Simple Flower"@,
            PositionPattern::ChromaticFlower => "Chromatic Flower"@,
            PositionPattern::YinYang => "Yin–Yang"@,
            PositionPattern::TwinCrescents => "Twin Crescents"@,
            PositionPattern::TwinSpirals => "Twin Spirals"@,
            PositionPattern::SpiralArms => "Spiral Arms"@,
            PositionPattern::PolarMaze => "Polar Maze"@,
            PositionPattern::ChaoticBands => "Chaotic Bands"@,
            PositionPattern::RadiantFans => "Radiant Fans"@,
            PositionPattern::SoftClusters => "Soft Clusters"@,
            PositionPattern::LinkedClusters => "Linked Clusters"@,
            PositionPattern::OrbitalBelts => "Orbital Belts"@,
            PositionPattern::BraidedBelts => "Braided Belts"@,
        }
    }

    /// The display name of this pattern.
    pub fn display_name(&self) -> (r: &'static str)
        ensures
            r@ == self.spec_display_name(),
    {
        match self {
            PositionPattern::Random => "Random",
            PositionPattern::Disk => "Disk",
            PositionPattern::Ring => "Ring",
            PositionPattern::Rings => "Rings",
            PositionPattern::Spiral => "Spiral",
            PositionPattern::Line => "Line",
            PositionPattern::RainbowDisk => "Rainbow Disk",
            PositionPattern::RainbowRing => "Rainbow Ring",
            PositionPattern::RainbowRings => "Rainbow Rings",
            PositionPattern::RainbowSpiral => "Rainbow Spiral",
            PositionPattern::RainbowLine => "Rainbow Line",
            PositionPattern::Stripes => "Stripes",
            PositionPattern::Border => "Border",
            PositionPattern::Grid => "Grid",
            PositionPattern::WavyBands => "Wavy Bands",
            PositionPattern::SimpleFlower => "Simple Flower",
            PositionPattern::ChromaticFlower => "Chromatic Flower",
            PositionPattern::YinYang => "Yin–Yang",
            PositionPattern::TwinCrescents => "Twin Crescents",
            PositionPattern::TwinSpirals => "Twin Spirals",
            PositionPattern::SpiralArms => "Spiral Arms",
            PositionPattern::PolarMaze => "Polar Maze",
            PositionPattern::ChaoticBands => "Chaotic Bands",
            PositionPattern::RadiantFans => "Radiant Fans",
            PositionPattern::SoftClusters => "Soft Clusters",
            PositionPattern::LinkedClusters => "Linked Clusters",
            PositionPattern::OrbitalBelts => "Orbital Belts",
            PositionPattern::BraidedBelts => "Braided Belts",
        }
    }

    /// The catalog category of this pattern (specification).
    pub open spec fn spec_category(self) -> Seq<char> {
        match self {
            PositionPattern::Random => "Default"@,
            PositionPattern::Disk => "Classic"@,
            PositionPattern::Ring => "Classic"@,
            PositionPattern::Rings => "Classic"@,
            PositionPattern::Spiral => "Classic"@,
            PositionPattern::Line => "Classic"@,
            PositionPattern::RainbowDisk => "Chromatic"@,
            PositionPattern::RainbowRing => "Chromatic"@,
            PositionPattern::RainbowRings => "Chromatic"@,
            PositionPattern::RainbowSpiral => "Chromatic"@,
            PositionPattern::RainbowLine => "Chromatic"@,
            PositionPattern::Stripes => "Geometric"@,
            PositionPattern::Border => "Geometric"@,
            PositionPattern::Grid => "Geometric"@,
            PositionPattern::WavyBands => "Geometric"@,
            PositionPattern::SimpleFlower => "Geometric"@,
            PositionPattern::ChromaticFlower => "Geometric"@,
            PositionPattern::YinYang => "Geometric"@,
            PositionPattern::TwinCrescents => "Geometric"@,
            PositionPattern::TwinSpirals => "Geometric"@,
            PositionPattern::SpiralArms => "Geometric"@,
            PositionPattern::PolarMaze => "Geometric"@,
            PositionPattern::ChaoticBands => "Dynamic"@,
            PositionPattern::RadiantFans => "Dynamic"@,
            PositionPattern::SoftClusters => "Dynamic"@,
            PositionPattern::LinkedClusters => "Dynamic"@,
            PositionPattern::OrbitalBelts => "Dynamic"@,
            PositionPattern::BraidedBelts => "Dynamic"@,
        }
    }

    /// The catalog category of this pattern.
    pub fn category(&self) -> (r: &'static str)
        ensures
            r@ == self.spec_category(),
    {
        match self {
            PositionPattern::Random => "Default",
            PositionPattern::Disk => "Classic",
            PositionPattern::Ring => "Classic",
            PositionPattern::Rings => "Classic",
            PositionPattern::Spiral => "Classic",
            PositionPattern::Line => "Classic",
            PositionPattern::RainbowDisk => "Chromatic",
            PositionPattern::RainbowRing => "Chromatic",
            PositionPattern::RainbowRings => "Chromatic",
            PositionPattern::RainbowSpiral => "Chromatic",
            PositionPattern::RainbowLine => "Chromatic",
            PositionPattern::Stripes => "Geometric",
            PositionPattern::Border => "Geometric",
            PositionPattern::Grid => "Geometric",
            PositionPattern::WavyBands => "Geometric",
            PositionPattern::SimpleFlower => "Geometric",
            PositionPattern::ChromaticFlower => "Geometric",
            PositionPattern::YinYang => "Geometric",
            PositionPattern::TwinCrescents => "Geometric",
            PositionPattern::TwinSpirals => "Geometric",
            PositionPattern::SpiralArms => "Geometric",
            PositionPattern::PolarMaze => "Geometric",
            PositionPattern::ChaoticBands => "Dynamic",
            PositionPattern::RadiantFans => "Dynamic",
            PositionPattern::SoftClusters => "Dynamic",
            PositionPattern::LinkedClusters => "Dynamic",
            PositionPattern::OrbitalBelts => "Dynamic",
            PositionPattern::BraidedBelts => "Dynamic",
        }
    }

    /// The number of particle types this pattern needs, if it is fixed
    /// rather than adapting to the configured count.
    pub fn required_types(&self) -> (r: Option<usize>)
        ensures
            r == if self is YinYang || self is TwinCrescents || self is TwinSpirals {
                Some(2usize)
            } else {
                None::<usize>
            },
    {
        match self {
            PositionPattern::YinYang
            | PositionPattern::TwinCrescents
            | PositionPattern::TwinSpirals => Some(2),
            _ => None,
        }
    }
}

/// Types of interaction-rule generators available.
#[derive(Debug, Clone, Copy, PartialEq, Eq, Structural)]
pub enum RuleType {
    Random,
    Symmetric,
    Snake,
    Chains1,
    Chains2,
    Chains3,
    RockPaperScissors,
    BipartiteAlliances,
    HubAndSpokes,
    ConcentricShells,
    AntiSymmetricSwirl,
    CheckerOffsets,
    DimersAndChains,
    TriadFlocks,
    SpiralConveyor,
    Patchwork,
    Wavefield,
    ChiralBandpass,
    RotatingConveyor,
    PrimeHop,
    ParityVortex,
    HelicalLadder,
    BiasedWave,
    ModularTriads,
    SkippedPursuit,
    BlueNoiseConveyor,
    OffsetPhasefield,
    RingRoad,
    TriSpiral,
    VortexAntivortex,
    DriftedPatchwork,
}

impl Default for RuleType {
    fn default() -> (r: Self)
        ensures
            r == RuleType::Random,
    {
        RuleType::Random
    }
}

impl RuleType {
    /// Get all available variants, in declaration order.
    pub fn all() -> (r: Vec<RuleType>)
        ensures
            r@ == seq![
                RuleType::Random,
                RuleType::Symmetric,
                RuleType::Snake,
                RuleType::Chains1,
                RuleType::Chains2,
                RuleType::Chains3,
                RuleType::RockPaperScissors,
                RuleType::BipartiteAlliances,
                RuleType::HubAndSpokes,
                RuleType::ConcentricShells,
                RuleType::AntiSymmetricSwirl,
                RuleType::CheckerOffsets,
                RuleType::DimersAndChains,
                RuleType::TriadFlocks,
                RuleType::SpiralConveyor,
                RuleType::Patchwork,
                RuleType::Wavefield,
                RuleType::ChiralBandpass,
                RuleType::RotatingConveyor,
                RuleType::PrimeHop,
                RuleType::ParityVortex,
                RuleType::HelicalLadder,
                RuleType::BiasedWave,
                RuleType::ModularTriads,
                RuleType::SkippedPursuit,
                RuleType::BlueNoiseConveyor,
                RuleType::OffsetPhasefield,
                RuleType::RingRoad,
                RuleType::TriSpiral,
                RuleType::VortexAntivortex,
                RuleType::DriftedPatchwork,
            ],
    {
        let r = vec![
            RuleType::Random,
            RuleType::Symmetric,
            RuleType::Snake,
            RuleType::Chains1,
            RuleType::Chains2,
            RuleType::Chains3,
            RuleType::RockPaperScissors,
            RuleType::BipartiteAlliances,
            RuleType::HubAndSpokes,
            RuleType::ConcentricShells,
            RuleType::AntiSymmetricSwirl,
            RuleType::CheckerOffsets,
            RuleType::DimersAndChains,
            RuleType::TriadFlocks,
            RuleType::SpiralConveyor,
            RuleType::Patchwork,
            RuleType::Wavefield,
            RuleType::ChiralBandpass,
            RuleType::RotatingConveyor,
            RuleType::PrimeHop,
            RuleType::ParityVortex,
            RuleType::HelicalLadder,
            RuleType::BiasedWave,
            RuleType::ModularTriads,
            RuleType::SkippedPursuit,
            RuleType::BlueNoiseConveyor,
            RuleType::OffsetPhasefield,
            RuleType::RingRoad,
            RuleType::TriSpiral,
            RuleType::VortexAntivortex,
            RuleType::DriftedPatchwork,
        ];
        assert(r@ =~= seq![
            RuleType::Random,
                RuleType::Symmetric,
                RuleType::Snake,
                RuleType::Chains1,
                RuleType::Chains2,
                RuleType::Chains3,
                RuleType::RockPaperScissors,
                RuleType::BipartiteAlliances,
                RuleType::HubAndSpokes,
                RuleType::ConcentricShells,
                RuleType::AntiSymmetricSwirl,
                RuleType::CheckerOffsets,
                RuleType::DimersAndChains,
                RuleType::TriadFlocks,
                RuleType::SpiralConveyor,
                RuleType::Patchwork,
                RuleType::Wavefield,
                RuleType::ChiralBandpass,
                RuleType::RotatingConveyor,
                RuleType::PrimeHop,
                RuleType::ParityVortex,
                RuleType::HelicalLadder,
                RuleType::BiasedWave,
                RuleType::ModularTriads,
                RuleType::SkippedPursuit,
                RuleType::BlueNoiseConveyor,
                RuleType::OffsetPhasefield,
                RuleType::RingRoad,
                RuleType::TriSpiral,
                RuleType::VortexAntivortex,
                RuleType::DriftedPatchwork,
        ]);
        r
    }

    /// The display name of this rule generator (specification).
    pub open spec fn spec_display_name(self) -> Seq<char> {
        match self {
            RuleType::Random => "Random"@,
            RuleType::Symmetric => "Symmetric"@,
            RuleType::Snake => "Snake"@,
            RuleType::Chains1 => "Chains 1"@,
            RuleType::Chains2 => "Chains 2"@,
            RuleType::Chains3 => "Chains 3"@,
            RuleType::RockPaperScissors => "Rock–Paper–Scissors"@,
            RuleType::BipartiteAlliances => "Bipartite Alliances"@,
            RuleType::HubAndSpokes => "Hub and Spokes"@,
            RuleType::ConcentricShells => "Concentric Shells"@,
            RuleType::AntiSymmetricSwirl => "Anti-symmetric Swirl"@,
            RuleType::CheckerOffsets => "Checker Offsets"@,
            RuleType::DimersAndChains => "Dimers & Chains"@,
            RuleType::TriadFlocks => "Triad Flocks"@,
            RuleType::SpiralConveyor => "Spiral Conveyor"@,
            RuleType::Patchwork => "Patchwork"@,
            RuleType::Wavefield => "Wavefield"@,
            RuleType::ChiralBandpass => "Chiral Bandpass"@,
            RuleType::RotatingConveyor => "Rotating Conveyor"@,
            RuleType::PrimeHop => "Prime Hop"@,
            RuleType::ParityVortex => "Parity Vortex"@,
            RuleType::HelicalLadder => "Helical Ladder"@,
            RuleType::BiasedWave => "Biased Wave"@,
            RuleType::ModularTriads => "Modular Triads"@,
            RuleType::SkippedPursuit => "Skipped Pursuit"@,
            RuleType::BlueNoiseConveyor => "Blue-Noise Conveyor"@,
            RuleType::OffsetPhasefield => "Offset Phasefield"@,
            RuleType::RingRoad => "Ring Road"@,
            RuleType::TriSpiral => "Tri-Spiral"@,
            RuleType::VortexAntivortex => "Vortex–Antivortex Lattice"@,
            RuleType::DriftedPatchwork => "Drifted Patchwork"@,
        }
    }

    /// The display name of this rule generator.
    pub fn display_name(&self) -> (r: &'static str)
        ensures
            r@ == self.spec_display_name(),
    {
        match self {
            RuleType::Random => "Random",
            RuleType::Symmetric => "Symmetric",
            RuleType::Snake => "Snake",
            RuleType::Chains1 => "Chains 1",
            RuleType::Chains2 => "Chains 2",
            RuleType::Chains3 => "Chains 3",
            RuleType::RockPaperScissors => "Rock–Paper–Scissors",
            RuleType::BipartiteAlliances => "Bipartite Alliances",
            RuleType::HubAndSpokes => "Hub and Spokes",
            RuleType::ConcentricShells => "Concentric Shells",
            RuleType::AntiSymmetricSwirl => "Anti-symmetric Swirl",
            RuleType::CheckerOffsets => "Checker Offsets",
            RuleType::DimersAndChains => "Dimers & Chains",
            RuleType::TriadFlocks => "Triad Flocks",
            RuleType::SpiralConveyor => "Spiral Conveyor",
            RuleType::Patchwork => "Patchwork",
            RuleType::Wavefield => "Wavefield",
            RuleType::ChiralBandpass => "Chiral Bandpass",
            RuleType::RotatingConveyor => "Rotating Conveyor",
            RuleType::PrimeHop => "Prime Hop",
            RuleType::ParityVortex => "Parity Vortex",
            RuleType::HelicalLadder => "Helical Ladder",
            RuleType::BiasedWave => "Biased Wave",
            RuleType::ModularTriads => "Modular Triads",
            RuleType::SkippedPursuit => "Skipped Pursuit",
            RuleType::BlueNoiseConveyor => "Blue-Noise Conveyor",
            RuleType::OffsetPhasefield => "Offset Phasefield",
            RuleType::RingRoad => "Ring Road",
            RuleType::TriSpiral => "Tri-Spiral",
            RuleType::VortexAntivortex => "Vortex–Antivortex Lattice",
            RuleType::DriftedPatchwork => "Drifted Patchwork",
        }
    }

    /// The catalog category of this rule generator (specification).
    pub open spec fn spec_category(self) -> Seq<char> {
        match self {
            RuleType::Random => "Default"@,
            RuleType::Symmetric => "Experimental"@,
            RuleType::Snake => "Experimental"@,
            RuleType::Chains1 => "Experimental"@,
            RuleType::Chains2 => "Experimental"@,
            RuleType::Chains3 => "Experimental"@,
            RuleType::RockPaperScissors => "Experimental"@,
            RuleType::BipartiteAlliances => "Experimental"@,
            RuleType::HubAndSpokes => "Experimental"@,
            RuleType::ConcentricShells => "Experimental"@,
            RuleType::AntiSymmetricSwirl => "Experimental"@,
            RuleType::CheckerOffsets => "Experimental"@,
            RuleType::DimersAndChains => "Experimental"@,
            RuleType::TriadFlocks => "Experimental"@,
            RuleType::SpiralConveyor => "Experimental"@,
            RuleType::Patchwork => "Experimental"@,
            RuleType::Wavefield => "Experimental"@,
            RuleType::ChiralBandpass => "Experimental"@,
            RuleType::RotatingConveyor => "Experimental"@,
            RuleType::PrimeHop => "Experimental"@,
            RuleType::ParityVortex => "Experimental"@,
            RuleType::HelicalLadder => "Experimental"@,
            RuleType::BiasedWave => "Experimental"@,
            RuleType::ModularTriads => "Experimental"@,
            RuleType::SkippedPursuit => "Experimental"@,
            RuleType::BlueNoiseConveyor => "Experimental"@,
            RuleType::OffsetPhasefield => "Experimental"@,
            RuleType::RingRoad => "Experimental"@,
            RuleType::TriSpiral => "Experimental"@,
            RuleType::VortexAntivortex => "Experimental"@,
            RuleType::DriftedPatchwork => "Experimental"@,
        }
    }

    /// The catalog category of this rule generator.
    pub fn category(&self) -> (r: &'static str)
        ensures
            r@ == self.spec_category(),
    {
        match self {
            RuleType::Random => "Default",
            RuleType::Symmetric => "Experimental",
            RuleType::Snake => "Experimental",
            RuleType::Chains1 => "Experimental",
            RuleType::Chains2 => "Experimental",
            RuleType::Chains3 => "Experimental",
            RuleType::RockPaperScissors => "Experimental",
            RuleType::BipartiteAlliances => "Experimental",
            RuleType::HubAndSpokes => "Experimental",
            RuleType::ConcentricShells => "Experimental",
            RuleType::AntiSymmetricSwirl => "Experimental",
            RuleType::CheckerOffsets => "Experimental",
            RuleType::DimersAndChains => "Experimental",
            RuleType::TriadFlocks => "Experimental",
            RuleType::SpiralConveyor => "Experimental",
            RuleType::Patchwork => "Experimental",
            RuleType::Wavefield => "Experimental",
            RuleType::ChiralBandpass => "Experimental",
            RuleType::RotatingConveyor => "Experimental",
            RuleType::PrimeHop => "Experimental",
            RuleType::ParityVortex => "Experimental",
            RuleType::HelicalLadder => "Experimental",
            RuleType::BiasedWave => "Experimental",
            RuleType::ModularTriads => "Experimental",
            RuleType::SkippedPursuit => "Experimental",
            RuleType::BlueNoiseConveyor => "Experimental",
            RuleType::OffsetPhasefield => "Experimental",
            RuleType::RingRoad => "Experimental",
            RuleType::TriSpiral => "Experimental",
            RuleType::VortexAntivortex => "Experimental",
            RuleType::DriftedPatchwork => "Experimental",
        }
    }
}

} // verus!
