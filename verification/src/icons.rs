//! The icon set bundled with the application and the asset file of each icon.

use vstd::prelude::*;
use crate::format::push_str;

verus! {

/// The bundled icons.
#[derive(Debug, Clone, Copy, PartialEq, Eq, Hash, Structural)]
pub enum Icon {
    Arrow,
    Bottles,
    Checkmark,
    Chip,
    Computer,
    Controller,
    Cross,
    Custom,
    Disk,
    DoubleCheckmark,
    DownCaret,
    EllipsisVertical,
    Error,
    Folder,
    Gear,
    HollowGear,
    Info,
    Lightning,
    Pencil,
    Person,
    Play,
    Plus,
    Power,
    Run,
    Search,
    Stop,
    Timer,
    Wand,
    Warning,
}

/// Edge length of an icon, in logical pixels.
pub const SIZE: u32 = 24;

impl Icon {
    /// The asset name of the icon.
    pub open spec fn name_spec(self) -> Seq<char> {
        match self {
            Icon::Arrow => "arrow"@,
            Icon::Bottles => "bottles-symbolic"@,
            Icon::Checkmark => "checkmark"@,
            Icon::Chip => "chip"@,
            Icon::Computer => "computer"@,
            Icon::Controller => "controller"@,
            Icon::Cross => "cross"@,
            Icon::Custom => "custom"@,
            Icon::Disk => "disk"@,
            Icon::DoubleCheckmark => "double_checkmark"@,
            Icon::DownCaret => "down_caret"@,
            Icon::EllipsisVertical => "ellipsis_vertical"@,
            Icon::Error => "error"@,
            Icon::Folder => "folder"@,
            Icon::Gear => "gear"@,
            Icon::HollowGear => "hollow-gear"@,
            Icon::Info => "info"@,
            Icon::Lightning => "lightning"@,
            Icon::Pencil => "pencil"@,
            Icon::Person => "person"@,
            Icon::Play => "play"@,
            Icon::Plus => "plus"@,
            Icon::Power => "power"@,
            Icon::Run => "run"@,
            Icon::Search => "search"@,
            Icon::Stop => "stop"@,
            Icon::Timer => "timer"@,
            Icon::Wand => "wand"@,
            Icon::Warning => "warning"@,
        }
    }

    /// The asset name of the icon.
    pub fn name(self) -> (res: &'static str)
        ensures
            res@ == self.name_spec(),
    {
        match self {
            Icon::Arrow => "arrow",
            Icon::Bottles => "bottles-symbolic",
            Icon::Checkmark => "checkmark",
            Icon::Chip => "chip",
            Icon::Computer => "computer",
            Icon::Controller => "controller",
            Icon::Cross => "cross",
            Icon::Custom => "custom",
            Icon::Disk => "disk",
            Icon::DoubleCheckmark => "double_checkmark",
            Icon::DownCaret => "down_caret",
            Icon::EllipsisVertical => "ellipsis_vertical",
            Icon::Error => "error",
            Icon::Folder => "folder",
            Icon::Gear => "gear",
            Icon::HollowGear => "hollow-gear",
            Icon::Info => "info",
            Icon::Lightning => "lightning",
            Icon::Pencil => "pencil",
            Icon::Person => "person",
            Icon::Play => "play",
            Icon::Plus => "plus",
            Icon::Power => "power",
            Icon::Run => "run",
            Icon::Search => "search",
            Icon::Stop => "stop",
            Icon::Timer => "timer",
            Icon::Wand => "wand",
            Icon::Warning => "warning",
        }
    }

    /// Path of the icon's SVG file among the embedded assets.
    pub fn asset_path(self) -> (res: String)
        ensures
            res@ == "icons/"@ + self.name_spec() + ".svg"@,
    {
        let mut path = String::new();
        push_str(&mut path, "icons/");
        push_str(&mut path, self.name());
        push_str(&mut path, ".svg");
        path
    }
}

} // verus!
