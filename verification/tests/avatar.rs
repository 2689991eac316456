use debugger_ui::avatar::{
    AnonymousAvatarIcon, Avatar, AvatarColor, AvatarContent, AvatarLayout, ImageSource,
};
use debugger_ui::geometry::{hsla, px, AbsoluteLength, Hsla, Pixels, Rems};
use debugger_ui::icon::{Color, IconName, Indicator, IndicatorKind};

fn image(location: &str) -> ImageSource {
    ImageSource { location: location.into() }
}

#[test]
fn anonymous_icons_go_round() {
    let all = [
        AnonymousAvatarIcon::Crown,
        AnonymousAvatarIcon::Cat,
        AnonymousAvatarIcon::Dragon,
        AnonymousAvatarIcon::Alien,
        AnonymousAvatarIcon::Phantom,
        AnonymousAvatarIcon::Crab,
        AnonymousAvatarIcon::Invader,
    ];
    for (index, icon) in all.iter().enumerate() {
        assert_eq!(AnonymousAvatarIcon::from_index(index), *icon);
        assert_eq!(AnonymousAvatarIcon::from_index(index + 7), *icon);
        assert_eq!(AnonymousAvatarIcon::from_index(index + 700), *icon);
        assert_eq!(icon.index() as usize, index);
        assert_eq!(AnonymousAvatarIcon::try_from_icon_name(icon.icon_name()), Ok(*icon));
    }
    assert_eq!(AnonymousAvatarIcon::from_index(usize::MAX), all[usize::MAX % 7]);
    assert_eq!(AnonymousAvatarIcon::default(), AnonymousAvatarIcon::Crab);
    assert_eq!(AnonymousAvatarIcon::Phantom.icon_name(), IconName::AnonymousGhost);
    assert_eq!(
        AnonymousAvatarIcon::try_from_icon_name(IconName::Check),
        Err("Icon can't be turned into an AnonymousAvatarIcon.".to_string())
    );
}

#[test]
fn avatar_content_follows_the_source() {
    assert_eq!(
        Avatar::new(image("path/to/image.png")).content(),
        AvatarContent::Image { location: "path/to/image.png".into(), grayscale: false }
    );
    assert_eq!(
        Avatar::new(image("path/to/image.png")).grayscale(true).content(),
        AvatarContent::Image { location: "path/to/image.png".into(), grayscale: true }
    );
    assert_eq!(Avatar::new(image("a.png")).loading(true).content(), AvatarContent::Loading);
    assert_eq!(Avatar::new(image("a.png")).loading(true).loading(false).content(),
        AvatarContent::Image { location: "a.png".into(), grayscale: false });
    assert_eq!(Avatar::with_fallback(None).content(), AvatarContent::Fallback('?'));
    assert_eq!(Avatar::with_fallback(Some("ada".into())).content(), AvatarContent::Fallback('a'));
    assert_eq!(
        Avatar::new_anonymous(None).content(),
        AvatarContent::Anonymous(AnonymousAvatarIcon::Crab)
    );
    assert_eq!(
        Avatar::new_anonymous(Some(9)).content(),
        AvatarContent::Anonymous(AnonymousAvatarIcon::Dragon)
    );
}

#[test]
fn fallbacks() {
    let avatar = Avatar::new(image("a.png")).fallback_initials("".into());
    assert_eq!(avatar, Avatar::with_fallback(Some("?".into())));
    let avatar = Avatar::new(image("a.png")).fallback_initials("mk".into());
    assert_eq!(avatar, Avatar::with_fallback(Some("mk".into())));

    // Initials stay; the player is still recorded.
    let avatar = Avatar::with_fallback(Some("mk".into())).fallback_anonymous(3);
    assert_eq!(avatar, Avatar::with_fallback(Some("mk".into())).player_index(3));
    assert_eq!(avatar.content(), AvatarContent::Fallback('m'));

    // Anything else becomes the icon of the player.
    let avatar = Avatar::new(image("a.png")).fallback_anonymous(3);
    assert_eq!(avatar, Avatar::new_anonymous(Some(3)));
    assert_eq!(avatar.content(), AvatarContent::Anonymous(AnonymousAvatarIcon::Alien));
    let avatar = Avatar::new_anonymous(None).fallback_anonymous(8);
    assert_eq!(avatar, Avatar::new_anonymous(Some(8)));
}

#[test]
fn avatar_colour() {
    let gray = AvatarColor::Custom(Hsla { h: 0, s: 0, l: 500, a: 1000 });
    assert_eq!(Avatar::new(image("a.png")).color(), AvatarColor::Text);
    assert_eq!(Avatar::new(image("a.png")).grayscale(true).color(), gray);
    assert_eq!(Avatar::new(image("a.png")).player_index(4).color(), AvatarColor::Participant(4));
    assert_eq!(Avatar::new(image("a.png")).player_index(4).grayscale(true).color(), gray);
    assert_eq!(Avatar::new_anonymous(None).color(), AvatarColor::Participant(5));
    assert_eq!(Avatar::new_anonymous(Some(13)).color(), AvatarColor::Participant(13));
    assert_eq!(Avatar::with_fallback(None).color(), AvatarColor::Participant(0));
    assert_eq!(
        Avatar::with_fallback(Some("a".into())).color(),
        AvatarColor::Participant(97)
    );
    // Only the low eight bits of the first character count.
    assert_eq!(
        Avatar::with_fallback(Some("\u{141}ukasz".into())).color(),
        AvatarColor::Participant(0x41)
    );
    if usize::BITS > 32 {
        let index = (1u64 << 32) as usize + 7;
        assert_eq!(
            Avatar::with_fallback(None).player_index(index).color(),
            AvatarColor::Participant(7)
        );
    }
}

#[test]
fn avatar_layout() {
    let rem = px(16);
    assert_eq!(
        Avatar::new(image("a.png")).layout(rem),
        AvatarLayout {
            content_size: Pixels(20_000),
            border_width: Pixels(0),
            container_size: Pixels(20_000)
        }
    );
    assert_eq!(
        Avatar::new(image("a.png")).border_color(hsla(0, 0, 0, 1000)).layout(rem),
        AvatarLayout {
            content_size: Pixels(20_000),
            border_width: Pixels(2_000),
            container_size: Pixels(24_000)
        }
    );
    assert_eq!(
        Avatar::new(image("a.png"))
            .size(Some(AbsoluteLength::Rems(Rems(1_500))))
            .border_color(hsla(0, 0, 0, 1000))
            .layout(rem),
        AvatarLayout {
            content_size: Pixels(24_000),
            border_width: Pixels(2_000),
            container_size: Pixels(28_000)
        }
    );
    assert_eq!(
        Avatar::new(image("a.png"))
            .size(Some(AbsoluteLength::Pixels(Pixels(u64::MAX - 1))))
            .border_color(hsla(0, 0, 0, 1000))
            .size(Some(AbsoluteLength::Pixels(Pixels(u64::MAX - 1))))
            .layout(rem)
            .container_size,
        Pixels(u64::MAX)
    );
    assert_eq!(
        Avatar::new(image("a.png")).size(Some(AbsoluteLength::Pixels(px(32)))).size(None).layout(rem),
        Avatar::new(image("a.png")).layout(rem)
    );
}

#[test]
fn avatar_indicator_is_kept() {
    let indicator = Indicator { kind: IndicatorKind::Dot, color: Color::Success, border_color: None };
    let with = Avatar::new(image("a.png")).indicator(Some(indicator));
    assert_ne!(with, Avatar::new(image("a.png")));
    assert_eq!(with.indicator(None), Avatar::new(image("a.png")));
}
