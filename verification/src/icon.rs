use crate::geometry::{px, rems_from_px, saturated, Hsla, Pixels, Rems, Transformation};
use crate::text::starts_with;
use vstd::prelude::*;

verus! {

/// The icons that ship with the application.
#[derive(Clone, Copy, Debug, PartialEq, Eq, Structural)]
pub enum IconName {
    Ai,
    AiAnthropic,
    AiBedrock,
    AiAnthropicHosted,
    AiDeepSeek,
    AiGoogle,
    AiLmStudio,
    AiMistral,
    AiOllama,
    AiOpenAi,
    AiZed,
    AnonymousAlien,
    AnonymousCat,
    AnonymousCrab,
    AnonymousCrown,
    AnonymousDragon,
    AnonymousGhost,
    AnonymousInvader,
    ArrowCircle,
    ArrowDown,
    ArrowDownFromLine,
    ArrowLeft,
    ArrowRight,
    ArrowUp,
    ArrowUpFromLine,
    ArrowUpRight,
    AtSign,
    AudioOff,
    AudioOn,
    Backspace,
    Bell,
    BellDot,
    BellOff,
    BellRing,
    Blocks,
    Bolt,
    Book,
    BookCopy,
    BookPlus,
    CaseSensitive,
    Check,
    ChevronDown,
    ChevronDownSmall,
    ChevronLeft,
    ChevronRight,
    ChevronUp,
    ChevronUpDown,
    Circle,
    Close,
    Code,
    Command,
    Context,
    Control,
    Copilot,
    CopilotDisabled,
    CopilotError,
    CopilotInit,
    Copy,
    CountdownTimer,
    CursorIBeam,
    Dash,
    DebugBreakpoint,
    DebugIgnoreBreakpoints,
    DebugPause,
    DebugContinue,
    DebugStepOver,
    DebugStepInto,
    DebugStepOut,
    DebugStepBack,
    DebugRestart,
    Debug,
    DebugStop,
    DebugDisconnect,
    DebugLogBreakpoint,
    DatabaseZap,
    Delete,
    Diff,
    Disconnected,
    Download,
    Ellipsis,
    EllipsisVertical,
    Envelope,
    Eraser,
    Escape,
    ExpandVertical,
    Exit,
    ExternalLink,
    Eye,
    File,
    FileCode,
    FileDoc,
    FileDiff,
    FileGeneric,
    FileGit,
    FileLock,
    FileRust,
    FileSearch,
    FileText,
    FileToml,
    FileTree,
    Filter,
    Folder,
    FolderOpen,
    FolderX,
    Font,
    FontSize,
    FontWeight,
    GenericClose,
    GenericMaximize,
    GenericMinimize,
    GenericRestore,
    Github,
    Globe,
    GitBranch,
    Hash,
    HistoryRerun,
    Indicator,
    Info,
    InlayHint,
    Keyboard,
    Library,
    LineHeight,
    Link,
    ListTree,
    ListX,
    LockOutlined,
    MagnifyingGlass,
    MailOpen,
    Maximize,
    Menu,
    MessageBubbles,
    MessageCircle,
    Mic,
    MicMute,
    Microscope,
    Minimize,
    Option,
    PageDown,
    PageUp,
    PanelLeft,
    PanelRight,
    Pencil,
    Person,
    PersonCircle,
    PhoneIncoming,
    Pin,
    Play,
    Plus,
    PocketKnife,
    Public,
    PullRequest,
    Quote,
    RefreshTitle,
    Regex,
    ReplNeutral,
    Replace,
    ReplaceAll,
    ReplaceNext,
    ReplyArrowRight,
    Rerun,
    Return,
    Reveal,
    RotateCcw,
    RotateCw,
    Route,
    Save,
    Screen,
    SearchCode,
    SearchSelection,
    SelectAll,
    Server,
    Settings,
    SettingsAlt,
    Shift,
    Slash,
    SlashSquare,
    Sliders,
    SlidersVertical,
    Snip,
    Space,
    Sparkle,
    SparkleAlt,
    SparkleFilled,
    Spinner,
    Split,
    SquareDot,
    SquareMinus,
    SquarePlus,
    Star,
    StarFilled,
    Stop,
    Strikethrough,
    Supermaven,
    SupermavenDisabled,
    SupermavenError,
    SupermavenInit,
    SwatchBook,
    Tab,
    Terminal,
    TextSnippet,
    ThumbsUp,
    ThumbsDown,
    Trash,
    TrashAlt,
    Triangle,
    TriangleRight,
    Undo,
    Unpin,
    Update,
    UserGroup,
    Visible,
    Wand,
    Warning,
    WholeWord,
    X,
    XCircle,
    ZedAssistant,
    ZedAssistant2,
    ZedAssistantFilled,
    ZedPredict,
    ZedPredictUp,
    ZedPredictDown,
    ZedPredictDisabled,
    ZedXCopilot,
}

/// A colour by the role it plays, resolved against the theme when drawn.
#[derive(Clone, Copy, Debug, PartialEq, Eq, Structural)]
pub enum Color {
    Default,
    Accent,
    Conflict,
    Created,
    Custom(Hsla),
    Deleted,
    Disabled,
    Error,
    Hidden,
    Hint,
    Ignored,
    Info,
    Modified,
    Muted,
    Placeholder,
    Player(u32),
    Selected,
    Success,
    Warning,
}

impl Default for Color {
    fn default() -> (r: Color)
        ensures
            r == Color::Default,
    {
        Color::Default
    }
}

/// The shape of an indicator.
#[derive(Clone, Copy, Debug, PartialEq, Eq, Structural)]
pub enum IndicatorKind {
    Dot,
    Bar,
}

/// A small mark drawn on top of something else to show a status.
#[derive(Clone, Copy, Debug, PartialEq, Eq)]
pub struct Indicator {
    pub kind: IndicatorKind,
    pub color: Color,
    pub border_color: Option<Color>,
}

/// The sizes an icon comes in.
#[derive(Clone, Copy, Debug, PartialEq, Eq, Structural)]
pub enum IconSize {
    /// 10px
    Indicator,
    /// 12px
    XSmall,
    /// 14px
    Small,
    /// 16px
    Medium,
    /// 48px
    XLarge,
    Custom(Rems),
}

impl Default for IconSize {
    fn default() -> (r: IconSize)
        ensures
            r == IconSize::Medium,
    {
        IconSize::Medium
    }
}

/// The side of an icon of the given size, in rems.
pub open spec fn icon_rems(size: IconSize) -> Rems {
    match size {
        IconSize::Indicator => Rems(625),
        IconSize::XSmall => Rems(750),
        IconSize::Small => Rems(875),
        IconSize::Medium => Rems(1000),
        IconSize::XLarge => Rems(3000),
        IconSize::Custom(size) => size,
    }
}

/// The padding on each side of the square that holds an icon of the given
/// size, where `base_00` and `base_02` are the two smallest steps of the
/// spacing scale in use.
pub open spec fn icon_padding(
    size: IconSize,
    rem_size: Pixels,
    base_00: Pixels,
    base_02: Pixels,
) -> Pixels {
    match size {
        IconSize::Indicator => base_00,
        IconSize::XSmall => base_02,
        IconSize::Small => base_02,
        IconSize::Medium => base_02,
        IconSize::XLarge => base_02,
        IconSize::Custom(size) => Pixels(saturated((size.0 * rem_size.0) / 1000)),
    }
}

impl IconSize {
    /// The side of an icon of this size, in rems.
    pub fn rems(self) -> (r: Rems)
        ensures
            r == icon_rems(self),
    {
        match self {
            IconSize::Indicator => rems_from_px(px(10)),
            IconSize::XSmall => rems_from_px(px(12)),
            IconSize::Small => rems_from_px(px(14)),
            IconSize::Medium => rems_from_px(px(16)),
            IconSize::XLarge => rems_from_px(px(48)),
            IconSize::Custom(size) => size,
        }
    }

    /// The square that holds an icon of this size when one rem is
    /// `rem_size`: the side of the icon, and the padding on each side.
    pub fn square_components(&self, rem_size: Pixels, base_00: Pixels, base_02: Pixels) -> (r: (
        Pixels,
        Pixels,
    ))
        ensures
            r.0 == Pixels(saturated((icon_rems(*self).0 * rem_size.0) / 1000)),
            r.1 == icon_padding(*self, rem_size, base_00, base_02),
    {
        let icon_size = self.rems().to_pixels(rem_size);
        let padding = match self {
            IconSize::Indicator => base_00,
            IconSize::XSmall => base_02,
            IconSize::Small => base_02,
            IconSize::Medium => base_02,
            IconSize::XLarge => base_02,
            IconSize::Custom(size) => size.to_pixels(rem_size),
        };
        (icon_size, padding)
    }

    /// The side of the square that holds an icon of this size, padding
    /// included.
    pub fn square(&self, rem_size: Pixels, base_00: Pixels, base_02: Pixels) -> (r: Pixels)
        ensures
            r == Pixels(
                saturated(
                    saturated((icon_rems(*self).0 * rem_size.0) / 1000) + saturated(
                        2 * icon_padding(*self, rem_size, base_00, base_02).0,
                    ),
                ),
            ),
    {
        let (icon_size, padding) = self.square_components(rem_size, base_00, base_02);
        icon_size.plus(padding.doubled())
    }
}

/// Where the drawing of an icon comes from.
#[derive(Debug, PartialEq, Eq)]
pub enum IconSource {
    /// One of the icons that ship with the application.
    Named(IconName),
    /// A drawing embedded in the application, by its path.
    Svg(String),
    /// An image file at the given path.
    Image(String),
}

/// Mathematical value of an [`IconSource`].
pub ghost enum IconSourceView {
    Named(IconName),
    Svg(Seq<char>),
    Image(Seq<char>),
}

impl View for IconSource {
    type V = IconSourceView;

    open spec fn view(&self) -> IconSourceView {
        match self {
            IconSource::Named(name) => IconSourceView::Named(*name),
            IconSource::Svg(path) => IconSourceView::Svg(path@),
            IconSource::Image(path) => IconSourceView::Image(path@),
        }
    }
}

/// Where the drawing at `path` comes from: the file icons are embedded
/// drawings, everything else is an image file.
pub open spec fn source_of_path(path: Seq<char>) -> IconSourceView {
    if "icons/file_icons"@.is_prefix_of(path) {
        IconSourceView::Svg(path)
    } else {
        IconSourceView::Image(path)
    }
}

impl IconSource {
    /// The source of the drawing at `path`.
    pub fn from_path(path: String) -> (r: IconSource)
        ensures
            r@ == source_of_path(path@),
    {
        if starts_with(path.as_str(), "icons/file_icons") {
            IconSource::Svg(path)
        } else {
            IconSource::Image(path)
        }
    }
}

/// An icon to draw.
#[derive(Debug, PartialEq, Eq)]
pub struct Icon {
    source: IconSource,
    color: Color,
    size: Rems,
    transformation: Transformation,
}

/// Mathematical value of an [`Icon`].
pub ghost struct IconView {
    pub source: IconSourceView,
    pub color: Color,
    pub size: Rems,
    pub transformation: Transformation,
}

/// The transformation that changes nothing.
pub open spec fn no_transformation() -> Transformation {
    Transformation {
        scale_x: 1000,
        scale_y: 1000,
        translate: crate::geometry::Point { x: Pixels(0), y: Pixels(0) },
        rotate: 0,
    }
}

impl View for Icon {
    type V = IconView;

    closed spec fn view(&self) -> IconView {
        IconView {
            source: self.source@,
            color: self.color,
            size: self.size,
            transformation: self.transformation,
        }
    }
}

impl Icon {
    /// The named icon in the default colour and size, not transformed.
    pub fn new(icon: IconName) -> (r: Icon)
        ensures
            r@ == (IconView {
                source: IconSourceView::Named(icon),
                color: Color::Default,
                size: Rems(1000),
                transformation: no_transformation(),
            }),
    {
        Icon {
            source: IconSource::Named(icon),
            color: Color::default(),
            size: IconSize::default().rems(),
            transformation: Transformation::default(),
        }
    }

    /// The drawing at `path` in the default colour and size, not
    /// transformed.
    pub fn from_path(path: String) -> (r: Icon)
        ensures
            r@ == (IconView {
                source: source_of_path(path@),
                color: Color::Default,
                size: Rems(1000),
                transformation: no_transformation(),
            }),
    {
        Icon {
            source: IconSource::from_path(path),
            color: Color::default(),
            size: IconSize::default().rems(),
            transformation: Transformation::default(),
        }
    }

    /// The same icon in `color`.
    pub fn color(self, color: Color) -> (r: Icon)
        ensures
            r@ == (IconView { color, ..self@ }),
    {
        let mut icon = self;
        icon.color = color;
        icon
    }

    /// The same icon in `size`.
    pub fn size(self, size: IconSize) -> (r: Icon)
        ensures
            r@ == (IconView { size: icon_rems(size), ..self@ }),
    {
        let mut icon = self;
        icon.size = size.rems();
        icon
    }

    /// The same icon with a side of `size` rems.
    pub fn custom_size(self, size: Rems) -> (r: Icon)
        ensures
            r@ == (IconView { size, ..self@ }),
    {
        let mut icon = self;
        icon.size = size;
        icon
    }

    /// The same icon under `transformation`.
    pub fn transform(self, transformation: Transformation) -> (r: Icon)
        ensures
            r@ == (IconView { transformation, ..self@ }),
    {
        let mut icon = self;
        icon.transformation = transformation;
        icon
    }
}

/// An icon with an indicator drawn over its corner.
#[derive(Debug, PartialEq, Eq)]
pub struct IconWithIndicator {
    icon: Icon,
    indicator: Option<Indicator>,
    indicator_border_color: Option<Hsla>,
}

/// Mathematical value of an [`IconWithIndicator`].
pub ghost struct IconWithIndicatorView {
    pub icon: IconView,
    pub indicator: Option<Indicator>,
    pub indicator_border_color: Option<Hsla>,
}

impl View for IconWithIndicator {
    type V = IconWithIndicatorView;

    closed spec fn view(&self) -> IconWithIndicatorView {
        IconWithIndicatorView {
            icon: self.icon@,
            indicator: self.indicator,
            indicator_border_color: self.indicator_border_color,
        }
    }
}

/// `indicator` in `color`, if there is one.
pub open spec fn recolored(indicator: Option<Indicator>, color: Color) -> Option<Indicator> {
    match indicator {
        Some(indicator) => Some(Indicator { color, ..indicator }),
        None => None,
    }
}

impl IconWithIndicator {
    /// `icon` with `indicator`, whose border takes the colour of the surface
    /// below.
    pub fn new(icon: Icon, indicator: Option<Indicator>) -> (r: IconWithIndicator)
        ensures
            r@ == (IconWithIndicatorView {
                icon: icon@,
                indicator,
                indicator_border_color: None,
            }),
    {
        IconWithIndicator { icon, indicator, indicator_border_color: None }
    }

    /// The same with `indicator` in the place of the indicator.
    pub fn indicator(self, indicator: Option<Indicator>) -> (r: IconWithIndicator)
        ensures
            r@ == (IconWithIndicatorView { indicator, ..self@ }),
    {
        let mut it = self;
        it.indicator = indicator;
        it
    }

    /// The same with the indicator, if there is one, in `color`.
    pub fn indicator_color(self, color: Color) -> (r: IconWithIndicator)
        ensures
            r@ == (IconWithIndicatorView { indicator: recolored(self@.indicator, color), ..self@ }),
    {
        let mut it = self;
        it.indicator = match it.indicator {
            Some(indicator) => Some(
                Indicator { kind: indicator.kind, color, border_color: indicator.border_color },
            ),
            None => None,
        };
        it
    }

    /// The same with the border of the indicator in `color`, or in the
    /// colour of the surface below if `color` is `None`.
    pub fn indicator_border_color(self, color: Option<Hsla>) -> (r: IconWithIndicator)
        ensures
            r@ == (IconWithIndicatorView { indicator_border_color: color, ..self@ }),
    {
        let mut it = self;
        it.indicator_border_color = color;
        it
    }
}

} // verus!
