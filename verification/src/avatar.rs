use crate::geometry::{px, saturated, AbsoluteLength, Hsla, Pixels};
use crate::icon::{IconName, Indicator};
use vstd::prelude::*;

verus! {

/// Where an image comes from: a URI or a path.
#[derive(Debug, PartialEq, Eq)]
pub struct ImageSource {
    pub location: String,
}

/// What an avatar shows.
#[derive(Debug, PartialEq, Eq)]
pub enum AvatarSource {
    /// An image
    Avatar(ImageSource),
    /// One of the icons for users without an image
    AnonymousAvatar(AnonymousAvatarIcon),
    /// A user's initials
    FallbackAvatar(String),
}

/// Mathematical value of an [`AvatarSource`].
pub ghost enum AvatarSourceView {
    Avatar(Seq<char>),
    AnonymousAvatar(AnonymousAvatarIcon),
    FallbackAvatar(Seq<char>),
}

impl View for AvatarSource {
    type V = AvatarSourceView;

    open spec fn view(&self) -> AvatarSourceView {
        match self {
            AvatarSource::Avatar(image) => AvatarSourceView::Avatar(image.location@),
            AvatarSource::AnonymousAvatar(icon) => AvatarSourceView::AnonymousAvatar(*icon),
            AvatarSource::FallbackAvatar(initials) => AvatarSourceView::FallbackAvatar(initials@),
        }
    }
}

impl Clone for AvatarSource {
    fn clone(&self) -> (r: Self)
        ensures
            r@ == self@,
    {
        match self {
            AvatarSource::Avatar(image) => AvatarSource::Avatar(
                ImageSource { location: image.location.clone() },
            ),
            AvatarSource::AnonymousAvatar(icon) => AvatarSource::AnonymousAvatar(*icon),
            AvatarSource::FallbackAvatar(initials) => AvatarSource::FallbackAvatar(initials.clone()),
        }
    }
}

/// The effects that can be applied to what an avatar shows.
#[derive(Clone, Copy, Debug, PartialEq, Eq, Structural)]
pub enum AvatarEffect {
    /// Drawn in shades of gray
    Grayscale,
}

/// The icons for users without an image.
#[derive(Clone, Copy, Debug, PartialEq, Eq, Structural)]
pub enum AnonymousAvatarIcon {
    /// A crown
    Crown,
    /// A cat
    Cat,
    /// A dragon
    Dragon,
    /// An alien
    Alien,
    /// A ghost
    Phantom,
    /// A crab, the icon of a user who is no player
    Crab,
    /// Another alien
    Invader,
}

impl Default for AnonymousAvatarIcon {
    fn default() -> (r: AnonymousAvatarIcon)
        ensures
            r == AnonymousAvatarIcon::Crab,
    {
        AnonymousAvatarIcon::Crab
    }
}

/// The icon at position `index` of the seven, counted round and round.
pub open spec fn anonymous_icon_at(index: nat) -> AnonymousAvatarIcon {
    let at = index % 7;
    if at == 0 {
        AnonymousAvatarIcon::Crown
    } else if at == 1 {
        AnonymousAvatarIcon::Cat
    } else if at == 2 {
        AnonymousAvatarIcon::Dragon
    } else if at == 3 {
        AnonymousAvatarIcon::Alien
    } else if at == 4 {
        AnonymousAvatarIcon::Phantom
    } else if at == 5 {
        AnonymousAvatarIcon::Crab
    } else {
        AnonymousAvatarIcon::Invader
    }
}

/// Position of an icon among the seven, from 0.
pub open spec fn anonymous_icon_index(icon: AnonymousAvatarIcon) -> u32 {
    match icon {
        AnonymousAvatarIcon::Crown => 0,
        AnonymousAvatarIcon::Cat => 1,
        AnonymousAvatarIcon::Dragon => 2,
        AnonymousAvatarIcon::Alien => 3,
        AnonymousAvatarIcon::Phantom => 4,
        AnonymousAvatarIcon::Crab => 5,
        AnonymousAvatarIcon::Invader => 6,
    }
}

/// The icon that draws an anonymous avatar.
pub open spec fn anonymous_icon_name(icon: AnonymousAvatarIcon) -> IconName {
    match icon {
        AnonymousAvatarIcon::Crown => IconName::AnonymousCrown,
        AnonymousAvatarIcon::Cat => IconName::AnonymousCat,
        AnonymousAvatarIcon::Dragon => IconName::AnonymousDragon,
        AnonymousAvatarIcon::Alien => IconName::AnonymousAlien,
        AnonymousAvatarIcon::Phantom => IconName::AnonymousGhost,
        AnonymousAvatarIcon::Crab => IconName::AnonymousCrab,
        AnonymousAvatarIcon::Invader => IconName::AnonymousInvader,
    }
}

/// Every position below seven gives the icon that has that position, and
/// every icon is the one found at its own position.
pub proof fn anonymous_icons_round_trip(icon: AnonymousAvatarIcon)
    ensures
        anonymous_icon_index(icon) < 7,
        anonymous_icon_at(anonymous_icon_index(icon) as nat) == icon,
{
}

impl AnonymousAvatarIcon {
    /// The icon at position `index` of the seven, counted round and round.
    pub fn from_index(index: usize) -> (r: AnonymousAvatarIcon)
        ensures
            r == anonymous_icon_at(index as nat),
    {
        let at = index % 7;
        if at == 0 {
            AnonymousAvatarIcon::Crown
        } else if at == 1 {
            AnonymousAvatarIcon::Cat
        } else if at == 2 {
            AnonymousAvatarIcon::Dragon
        } else if at == 3 {
            AnonymousAvatarIcon::Alien
        } else if at == 4 {
            AnonymousAvatarIcon::Phantom
        } else if at == 5 {
            AnonymousAvatarIcon::Crab
        } else {
            AnonymousAvatarIcon::Invader
        }
    }

    /// Position of the icon among the seven, from 0.
    pub fn index(self) -> (r: u32)
        ensures
            r == anonymous_icon_index(self),
    {
        match self {
            AnonymousAvatarIcon::Crown => 0,
            AnonymousAvatarIcon::Cat => 1,
            AnonymousAvatarIcon::Dragon => 2,
            AnonymousAvatarIcon::Alien => 3,
            AnonymousAvatarIcon::Phantom => 4,
            AnonymousAvatarIcon::Crab => 5,
            AnonymousAvatarIcon::Invader => 6,
        }
    }

    /// The icon that draws this avatar.
    pub fn icon_name(self) -> (r: IconName)
        ensures
            r == anonymous_icon_name(self),
    {
        match self {
            AnonymousAvatarIcon::Crown => IconName::AnonymousCrown,
            AnonymousAvatarIcon::Cat => IconName::AnonymousCat,
            AnonymousAvatarIcon::Dragon => IconName::AnonymousDragon,
            AnonymousAvatarIcon::Alien => IconName::AnonymousAlien,
            AnonymousAvatarIcon::Phantom => IconName::AnonymousGhost,
            AnonymousAvatarIcon::Crab => IconName::AnonymousCrab,
            AnonymousAvatarIcon::Invader => IconName::AnonymousInvader,
        }
    }

    /// The anonymous avatar that `icon` draws; an error if it draws none.
    pub fn try_from_icon_name(icon: IconName) -> (r: Result<AnonymousAvatarIcon, String>)
        ensures
            match r {
                Ok(avatar) => anonymous_icon_name(avatar) == icon,
                Err(message) => {
                    &&& forall|avatar: AnonymousAvatarIcon| anonymous_icon_name(avatar) != icon
                    &&& message@ == "Icon can't be turned into an AnonymousAvatarIcon."@
                },
            },
    {
        match icon {
            IconName::AnonymousCrown => Ok(AnonymousAvatarIcon::Crown),
            IconName::AnonymousCat => Ok(AnonymousAvatarIcon::Cat),
            IconName::AnonymousDragon => Ok(AnonymousAvatarIcon::Dragon),
            IconName::AnonymousAlien => Ok(AnonymousAvatarIcon::Alien),
            IconName::AnonymousGhost => Ok(AnonymousAvatarIcon::Phantom),
            IconName::AnonymousCrab => Ok(AnonymousAvatarIcon::Crab),
            IconName::AnonymousInvader => Ok(AnonymousAvatarIcon::Invader),
            _ => Err("Icon can't be turned into an AnonymousAvatarIcon.".to_owned()),
        }
    }
}

/// A user's avatar with the options it is drawn with.
#[derive(Debug, PartialEq, Eq)]
pub struct Avatar {
    source: AvatarSource,
    size: Option<AbsoluteLength>,
    border_color: Option<Hsla>,
    indicator: Option<Indicator>,
    grayscale: bool,
    loading: bool,
    player_index: Option<usize>,
}

/// Mathematical value of an [`Avatar`].
pub ghost struct AvatarView {
    pub source: AvatarSourceView,
    pub size: Option<AbsoluteLength>,
    pub border_color: Option<Hsla>,
    pub indicator: Option<Indicator>,
    pub grayscale: bool,
    pub loading: bool,
    pub player_index: Option<usize>,
}

impl View for Avatar {
    type V = AvatarView;

    closed spec fn view(&self) -> AvatarView {
        AvatarView {
            source: self.source@,
            size: self.size,
            border_color: self.border_color,
            indicator: self.indicator,
            grayscale: self.grayscale,
            loading: self.loading,
            player_index: self.player_index,
        }
    }
}

/// An avatar that shows `source` with every option at its default.
pub open spec fn plain_avatar(source: AvatarSourceView) -> AvatarView {
    AvatarView {
        source,
        size: None,
        border_color: None,
        indicator: None,
        grayscale: false,
        loading: false,
        player_index: None,
    }
}

/// The colour an avatar is drawn in, to be resolved against the theme.
#[derive(Clone, Copy, Debug, PartialEq, Eq, Structural)]
pub enum AvatarColor {
    /// This very colour
    Custom(Hsla),
    /// The cursor colour of the participant with this number
    Participant(u32),
    /// The colour of text
    Text,
}

/// The gray that grayscale avatars are drawn in.
pub open spec fn mid_gray() -> Hsla {
    Hsla { h: 0, s: 0, l: 500, a: 1000 }
}

/// The participant number that initials stand for: the low eight bits of
/// the first character's code point, 0 for no initials.
pub open spec fn initials_participant(initials: Seq<char>) -> u32 {
    if initials.len() == 0 {
        0
    } else {
        ((initials[0] as u32) % 256) as u32
    }
}

/// The colour an avatar is drawn in: gray if grayscale; else the colour of
/// its player, if it has one; else the colour that its icon or its initials
/// stand for; an image without a player takes the colour of text.
pub open spec fn avatar_color(v: AvatarView) -> AvatarColor {
    if v.grayscale {
        AvatarColor::Custom(mid_gray())
    } else {
        match v.player_index {
            Some(index) => AvatarColor::Participant((index as nat % 0x1_0000_0000) as u32),
            None => match v.source {
                AvatarSourceView::AnonymousAvatar(icon) => AvatarColor::Participant(
                    anonymous_icon_index(icon),
                ),
                AvatarSourceView::FallbackAvatar(initials) => AvatarColor::Participant(
                    initials_participant(initials),
                ),
                AvatarSourceView::Avatar(_) => AvatarColor::Text,
            },
        }
    }
}

/// What is drawn inside an avatar.
#[derive(Debug, PartialEq, Eq)]
pub enum AvatarContent {
    /// A pulsating placeholder
    Loading,
    /// The image, in shades of gray if `grayscale`
    Image { location: String, grayscale: bool },
    /// One of the icons for users without an image
    Anonymous(AnonymousAvatarIcon),
    /// The first letter of the initials, `?` if there are none
    Fallback(char),
}

/// Mathematical value of an [`AvatarContent`].
pub ghost enum AvatarContentView {
    Loading,
    Image { location: Seq<char>, grayscale: bool },
    Anonymous(AnonymousAvatarIcon),
    Fallback(char),
}

impl View for AvatarContent {
    type V = AvatarContentView;

    open spec fn view(&self) -> AvatarContentView {
        match self {
            AvatarContent::Loading => AvatarContentView::Loading,
            AvatarContent::Image { location, grayscale } => AvatarContentView::Image {
                location: location@,
                grayscale: *grayscale,
            },
            AvatarContent::Anonymous(icon) => AvatarContentView::Anonymous(*icon),
            AvatarContent::Fallback(letter) => AvatarContentView::Fallback(*letter),
        }
    }
}

/// What is drawn inside an avatar: the placeholder while it loads, else
/// what its source asks for.
pub open spec fn avatar_content(v: AvatarView) -> AvatarContentView {
    if v.loading {
        AvatarContentView::Loading
    } else {
        match v.source {
            AvatarSourceView::Avatar(location) => AvatarContentView::Image {
                location,
                grayscale: v.grayscale,
            },
            AvatarSourceView::AnonymousAvatar(icon) => AvatarContentView::Anonymous(icon),
            AvatarSourceView::FallbackAvatar(initials) => AvatarContentView::Fallback(
                if initials.len() == 0 {
                    '?'
                } else {
                    initials[0]
                },
            ),
        }
    }
}

/// The sizes an avatar is laid out with.
#[derive(Clone, Copy, Debug, PartialEq, Eq, Structural)]
pub struct AvatarLayout {
    /// Side of what is drawn inside
    pub content_size: Pixels,
    /// Width of the border: 2 pixels if the avatar has a border colour, else 0
    pub border_width: Pixels,
    /// Side of the whole: the content and the border on both sides
    pub container_size: Pixels,
}

/// The sizes an avatar is laid out with when one rem is `rem_size`. Without
/// a size of its own the avatar is 20 pixels wide.
pub open spec fn avatar_layout(v: AvatarView, rem_size: Pixels) -> AvatarLayout {
    let content = match v.size {
        Some(AbsoluteLength::Pixels(pixels)) => pixels.0,
        Some(AbsoluteLength::Rems(rems)) => saturated((rems.0 * rem_size.0) / 1000),
        None => 20000,
    };
    let border: u64 = if v.border_color is Some {
        2000
    } else {
        0
    };
    AvatarLayout {
        content_size: Pixels(content),
        border_width: Pixels(border),
        container_size: Pixels(saturated(content + 2 * border)),
    }
}

/// The first character of `text`, if it has one.
fn first_char(text: &str) -> (r: Option<char>)
    ensures
        match r {
            Some(c) => text@.len() > 0 && c == text@[0],
            None => text@.len() == 0,
        },
{
    let mut it = text.chars();
    it.next()
}

impl Avatar {
    /// An avatar that shows `image`.
    pub fn new(image: ImageSource) -> (r: Avatar)
        ensures
            r@ == plain_avatar(AvatarSourceView::Avatar(image.location@)),
    {
        Avatar {
            source: AvatarSource::Avatar(image),
            size: None,
            border_color: None,
            indicator: None,
            grayscale: false,
            loading: false,
            player_index: None,
        }
    }

    /// An avatar that shows initials: `fallback`, or none at all.
    pub fn with_fallback(fallback: Option<String>) -> (r: Avatar)
        ensures
            r@ == plain_avatar(
                AvatarSourceView::FallbackAvatar(
                    match fallback {
                        Some(initials) => initials@,
                        None => Seq::<char>::empty(),
                    },
                ),
            ),
    {
        let source = match fallback {
            Some(initials) => AvatarSource::FallbackAvatar(initials),
            None => AvatarSource::FallbackAvatar(String::new()),
        };
        Avatar {
            source,
            size: None,
            border_color: None,
            indicator: None,
            grayscale: false,
            loading: false,
            player_index: None,
        }
    }

    /// An avatar that shows an icon: the one at `player_index`, or the
    /// default one without a player.
    pub fn new_anonymous(player_index: Option<usize>) -> (r: Avatar)
        ensures
            r@ == (AvatarView {
                player_index,
                ..plain_avatar(
                    AvatarSourceView::AnonymousAvatar(
                        match player_index {
                            Some(index) => anonymous_icon_at(index as nat),
                            None => AnonymousAvatarIcon::Crab,
                        },
                    ),
                )
            }),
    {
        let icon = match player_index {
            Some(index) => AnonymousAvatarIcon::from_index(index),
            None => AnonymousAvatarIcon::default(),
        };
        Avatar {
            source: AvatarSource::AnonymousAvatar(icon),
            size: None,
            border_color: None,
            indicator: None,
            grayscale: false,
            loading: false,
            player_index,
        }
    }

    /// The same avatar for the player with number `index`.
    pub fn player_index(self, index: usize) -> (r: Avatar)
        ensures
            r@ == (AvatarView { player_index: Some(index), ..self@ }),
    {
        let mut avatar = self;
        avatar.player_index = Some(index);
        avatar
    }

    /// The same avatar showing `initials`, or `?` if they are empty.
    pub fn fallback_initials(self, initials: String) -> (r: Avatar)
        ensures
            r@ == (AvatarView {
                source: AvatarSourceView::FallbackAvatar(
                    if initials@.len() == 0 {
                        "?"@
                    } else {
                        initials@
                    },
                ),
                ..self@
            }),
    {
        let mut avatar = self;
        avatar.source = AvatarSource::FallbackAvatar(
            if initials.as_str().is_empty() {
                "?".to_owned()
            } else {
                initials
            },
        );
        avatar
    }

    /// The same avatar for the player with number `index`, showing the icon
    /// at `index` unless it shows initials.
    pub fn fallback_anonymous(self, index: u32) -> (r: Avatar)
        ensures
            r@ == (AvatarView {
                player_index: Some(index as usize),
                source: match self@.source {
                    AvatarSourceView::FallbackAvatar(_) => self@.source,
                    _ => AvatarSourceView::AnonymousAvatar(anonymous_icon_at(index as nat)),
                },
                ..self@
            }),
    {
        let mut avatar = self;
        avatar.player_index = Some(index as usize);
        let keeps = match &avatar.source {
            AvatarSource::FallbackAvatar(_) => true,
            _ => false,
        };
        if !keeps {
            avatar.source = AvatarSource::AnonymousAvatar(
                AnonymousAvatarIcon::from_index(index as usize),
            );
        }
        avatar
    }

    /// The same avatar, loading or not.
    pub fn loading(self, loading: bool) -> (r: Avatar)
        ensures
            r@ == (AvatarView { loading, ..self@ }),
    {
        let mut avatar = self;
        avatar.loading = loading;
        avatar
    }

    /// The same avatar, in shades of gray or not.
    pub fn grayscale(self, grayscale: bool) -> (r: Avatar)
        ensures
            r@ == (AvatarView { grayscale, ..self@ }),
    {
        let mut avatar = self;
        avatar.grayscale = grayscale;
        avatar
    }

    /// The same avatar with a border in `color`.
    pub fn border_color(self, color: Hsla) -> (r: Avatar)
        ensures
            r@ == (AvatarView { border_color: Some(color), ..self@ }),
    {
        let mut avatar = self;
        avatar.border_color = Some(color);
        avatar
    }

    /// The same avatar in `size`, or in the default size for `None`.
    pub fn size(self, size: Option<AbsoluteLength>) -> (r: Avatar)
        ensures
            r@ == (AvatarView { size, ..self@ }),
    {
        let mut avatar = self;
        avatar.size = size;
        avatar
    }

    /// The same avatar with `indicator` over its corner, or with none.
    pub fn indicator(self, indicator: Option<Indicator>) -> (r: Avatar)
        ensures
            r@ == (AvatarView { indicator, ..self@ }),
    {
        let mut avatar = self;
        avatar.indicator = indicator;
        avatar
    }

    /// The colour the avatar is drawn in.
    pub fn color(&self) -> (r: AvatarColor)
        ensures
            r == avatar_color(self@),
    {
        if self.grayscale {
            return AvatarColor::Custom(Hsla { h: 0, s: 0, l: 500, a: 1000 });
        }
        if let Some(index) = self.player_index {
            let wide: u64 = index as u64;
            return AvatarColor::Participant((wide % 0x1_0000_0000) as u32);
        }
        match &self.source {
            AvatarSource::AnonymousAvatar(icon) => AvatarColor::Participant(icon.index()),
            AvatarSource::FallbackAvatar(initials) => {
                match first_char(initials.as_str()) {
                    Some(c) => AvatarColor::Participant((c as u32) % 256),
                    None => AvatarColor::Participant(0),
                }
            },
            AvatarSource::Avatar(_) => AvatarColor::Text,
        }
    }

    /// What is drawn inside the avatar.
    pub fn content(&self) -> (r: AvatarContent)
        ensures
            r@ == avatar_content(self@),
    {
        if self.loading {
            return AvatarContent::Loading;
        }
        match &self.source {
            AvatarSource::Avatar(image) => AvatarContent::Image {
                location: image.location.clone(),
                grayscale: self.grayscale,
            },
            AvatarSource::AnonymousAvatar(icon) => AvatarContent::Anonymous(*icon),
            AvatarSource::FallbackAvatar(initials) => {
                match first_char(initials.as_str()) {
                    Some(c) => AvatarContent::Fallback(c),
                    None => AvatarContent::Fallback('?'),
                }
            },
        }
    }

    /// The sizes the avatar is laid out with when one rem is `rem_size`.
    pub fn layout(&self, rem_size: Pixels) -> (r: AvatarLayout)
        ensures
            r == avatar_layout(self@, rem_size),
    {
        let content_size = match self.size {
            Some(size) => size.to_pixels(rem_size),
            None => px(20),
        };
        let border_width = if self.border_color.is_some() {
            px(2)
        } else {
            px(0)
        };
        AvatarLayout {
            content_size,
            border_width,
            container_size: content_size.plus(border_width.doubled()),
        }
    }
}

} // verus!
