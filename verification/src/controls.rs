//! Interaction tool types for brush editing.
//!
//! The pointer-driven brush state itself (positions, forces, velocities) is
//! floating point and lives in the application shell; the closed set of
//! tools and the keyboard modifier flags are modeled here.

use vstd::prelude::*;

verus! {

/// Brush tool types for user interaction.
#[derive(Debug, Clone, Copy, PartialEq, Eq, Structural)]
pub enum BrushTool {
    /// No active tool.
    Inactive,
    /// Draw/add particles at brush position.
    Draw,
    /// Erase/remove particles at brush position.
    Erase,
    /// Attract particles toward brush position.
    Attract,
    /// Repel particles away from brush position.
    Repel,
}

impl Default for BrushTool {
    fn default() -> (r: Self)
        ensures
            r == BrushTool::Inactive,
    {
        BrushTool::Inactive
    }
}

impl BrushTool {
    /// The display name of this tool.
    pub open spec fn spec_name(self) -> Seq<char> {
        match self {
            BrushTool::Inactive => "None"@,
            BrushTool::Draw => "Draw"@,
            BrushTool::Erase => "Erase"@,
            BrushTool::Attract => "Attract"@,
            BrushTool::Repel => "Repel"@,
        }
    }

    /// The icon of this tool.
    pub open spec fn spec_icon(self) -> Seq<char> {
        match self {
            BrushTool::Inactive => "[X]"@,
            BrushTool::Draw => "[+]"@,
            BrushTool::Erase => "\u{1f9f9}"@,
            BrushTool::Attract => "[>]"@,
            BrushTool::Repel => "[<]"@,
        }
    }

    /// Get all available brush tools.
    pub fn all() -> (r: Vec<BrushTool>)
        ensures
            r@ == seq![
                BrushTool::Inactive,
                BrushTool::Draw,
                BrushTool::Erase,
                BrushTool::Attract,
                BrushTool::Repel,
            ],
    {
        let r = vec![
            BrushTool::Inactive,
            BrushTool::Draw,
            BrushTool::Erase,
            BrushTool::Attract,
            BrushTool::Repel,
        ];
        assert(r@ =~= seq![
            BrushTool::Inactive,
            BrushTool::Draw,
            BrushTool::Erase,
            BrushTool::Attract,
            BrushTool::Repel,
        ]);
        r
    }

    /// Get the display name for this tool.
    pub fn name(&self) -> (r: &'static str)
        ensures
            r@ == self.spec_name(),
    {
        match self {
            BrushTool::Inactive => "None",
            BrushTool::Draw => "Draw",
            BrushTool::Erase => "Erase",
            BrushTool::Attract => "Attract",
            BrushTool::Repel => "Repel",
        }
    }

    /// Get the icon for this tool.
    pub fn icon(&self) -> (r: &'static str)
        ensures
            r@ == self.spec_icon(),
    {
        match self {
            BrushTool::Inactive => "[X]",
            BrushTool::Draw => "[+]",
            BrushTool::Erase => "\u{1f9f9}",
            BrushTool::Attract => "[>]",
            BrushTool::Repel => "[<]",
        }
    }
}

/// Keyboard modifier state.
#[derive(Debug, Clone, Copy, PartialEq, Eq, Structural)]
pub struct ModifierState {
    /// Shift key held.
    pub shift: bool,
    /// Control key held.
    pub ctrl: bool,
    /// Alt key held.
    pub alt: bool,
}

impl Default for ModifierState {
    fn default() -> (r: Self)
        ensures
            r == (ModifierState { shift: false, ctrl: false, alt: false }),
    {
        ModifierState { shift: false, ctrl: false, alt: false }
    }
}

} // verus!
