use vstd::prelude::*;

verus! {

/// Named icons of the icon catalog that the widgets refer to.
#[derive(Clone, Copy, Debug, PartialEq, Eq, Structural)]
pub enum IconName {
    ArrowRight,
    Building,
    ChevronRight,
    File,
    Folder,
    FolderOpen,
    Heart,
    HeartOff,
    Star,
    StarOff,
    ThumbsDown,
    ThumbsUp,
    User,
}

/// Semantic colour slots of the theme.
#[derive(Clone, Copy, Debug, PartialEq, Eq, Structural)]
pub enum ThemeColor {
    MutedForeground,
    Foreground,
    Warning,
    Danger,
    Success,
    Primary,
    Accent,
}

/// Size class of a widget; `Custom` carries a size in whole pixels.
#[derive(Clone, Copy, Debug, PartialEq, Eq, Structural)]
pub enum Size {
    XSmall,
    Small,
    Medium,
    Large,
    Custom(u32),
}

} // verus!
