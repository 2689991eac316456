use debugger_ui::geometry::{
    hsla, px, rems_from_px, AbsoluteLength, Hsla, Pixels, Point, Rems, Transformation,
};
use debugger_ui::icon::{
    Color, Icon, IconName, IconSize, IconSource, IconWithIndicator, Indicator, IndicatorKind,
};

#[test]
fn icon_sizes_in_rems() {
    assert_eq!(IconSize::Indicator.rems(), Rems(625));
    assert_eq!(IconSize::XSmall.rems(), Rems(750));
    assert_eq!(IconSize::Small.rems(), Rems(875));
    assert_eq!(IconSize::Medium.rems(), Rems(1000));
    assert_eq!(IconSize::XLarge.rems(), Rems(3000));
    assert_eq!(IconSize::Custom(Rems(1234)).rems(), Rems(1234));
    assert_eq!(IconSize::default(), IconSize::Medium);
}

#[test]
fn icon_squares() {
    let rem = px(16);
    let base_00 = px(0);
    let base_02 = px(2);
    assert_eq!(
        IconSize::Indicator.square_components(rem, base_00, base_02),
        (px(10), px(0))
    );
    assert_eq!(IconSize::Indicator.square(rem, base_00, base_02), px(10));
    assert_eq!(IconSize::XSmall.square_components(rem, base_00, base_02), (px(12), px(2)));
    assert_eq!(IconSize::Small.square(rem, base_00, base_02), px(18));
    assert_eq!(IconSize::Medium.square(rem, base_00, base_02), px(20));
    assert_eq!(IconSize::XLarge.square(rem, base_00, base_02), px(52));
    assert_eq!(
        IconSize::Custom(Rems(2000)).square_components(rem, base_00, base_02),
        (px(32), px(32))
    );
    assert_eq!(IconSize::Custom(Rems(2000)).square(rem, base_00, base_02), px(96));
    assert_eq!(
        IconSize::Custom(Rems(u64::MAX)).square(Pixels(u64::MAX), base_00, base_02),
        Pixels(u64::MAX)
    );
    assert_eq!(IconSize::Medium.square(px(16), base_00, Pixels(u64::MAX)), Pixels(u64::MAX));
}

#[test]
fn lengths() {
    assert_eq!(px(0), Pixels(0));
    assert_eq!(px(20), Pixels(20_000));
    assert_eq!(px(u32::MAX), Pixels(4_294_967_295_000));
    assert_eq!(rems_from_px(px(10)), Rems(625));
    assert_eq!(rems_from_px(Pixels(15)), Rems(0));
    assert_eq!(Rems(1500).to_pixels(px(16)), px(24));
    assert_eq!(Rems(1).to_pixels(Pixels(999)), Pixels(0));
    assert_eq!(Rems(u64::MAX).to_pixels(Pixels(1000)), Pixels(u64::MAX));
    assert_eq!(Rems(u64::MAX).to_pixels(Pixels(1001)), Pixels(u64::MAX));
    assert_eq!(AbsoluteLength::Pixels(px(3)).to_pixels(px(16)), px(3));
    assert_eq!(AbsoluteLength::Rems(Rems(500)).to_pixels(px(16)), px(8));
    assert_eq!(px(1).plus(px(2)), px(3));
    assert_eq!(Pixels(u64::MAX).plus(Pixels(1)), Pixels(u64::MAX));
    assert_eq!(Pixels(7).doubled(), Pixels(14));
    assert_eq!(Pixels(u64::MAX / 2 + 1).doubled(), Pixels(u64::MAX));
    assert_eq!(hsla(1, 1000, 1001, u16::MAX), Hsla { h: 1, s: 1000, l: 1000, a: 1000 });
}

#[test]
fn icons_are_built() {
    let star = Icon::new(IconName::Star);
    assert_eq!(star, Icon::new(IconName::Star).size(IconSize::Medium).color(Color::Default));
    assert_eq!(star, Icon::new(IconName::Star).custom_size(Rems(1000)));
    assert_eq!(star, Icon::new(IconName::Star).transform(Transformation::default()));
    assert_ne!(star, Icon::new(IconName::Bell));
    assert_ne!(star, Icon::new(IconName::Star).size(IconSize::Small));
    assert_ne!(star, Icon::new(IconName::Star).color(Color::Error));
    let turned = Transformation {
        scale_x: 1000,
        scale_y: 1000,
        translate: Point { x: Pixels(0), y: Pixels(0) },
        rotate: 1571,
    };
    assert_ne!(star, Icon::new(IconName::Star).transform(turned));
    assert_eq!(
        Icon::new(IconName::Star).size(IconSize::XLarge).size(IconSize::Custom(Rems(875))),
        Icon::new(IconName::Star).size(IconSize::Small)
    );
}

#[test]
fn icon_sources_by_path() {
    assert_eq!(
        IconSource::from_path("icons/file_icons/rust.svg".into()),
        IconSource::Svg("icons/file_icons/rust.svg".into())
    );
    assert_eq!(
        IconSource::from_path("icons/file_icons".into()),
        IconSource::Svg("icons/file_icons".into())
    );
    assert_eq!(
        IconSource::from_path("icons/file_icon".into()),
        IconSource::Image("icons/file_icon".into())
    );
    assert_eq!(
        IconSource::from_path("/home/me/theme/rust.png".into()),
        IconSource::Image("/home/me/theme/rust.png".into())
    );
    assert_eq!(IconSource::from_path("".into()), IconSource::Image("".into()));
    assert_ne!(
        Icon::from_path("icons/file_icons/rust.svg".into()),
        Icon::from_path("icons/rust.svg".into())
    );
}

#[test]
fn indicators_on_icons() {
    let dot = Indicator { kind: IndicatorKind::Dot, color: Color::Default, border_color: None };
    let red = Indicator { kind: IndicatorKind::Dot, color: Color::Error, border_color: None };
    let icon = || Icon::new(IconName::Bell);
    assert_eq!(
        IconWithIndicator::new(icon(), Some(dot)).indicator_color(Color::Error),
        IconWithIndicator::new(icon(), Some(red))
    );
    assert_eq!(
        IconWithIndicator::new(icon(), None).indicator_color(Color::Error),
        IconWithIndicator::new(icon(), None)
    );
    assert_eq!(
        IconWithIndicator::new(icon(), None).indicator(Some(red)),
        IconWithIndicator::new(icon(), Some(red))
    );
    let bordered = IconWithIndicator::new(icon(), Some(dot))
        .indicator_border_color(Some(hsla(0, 0, 0, 1000)));
    assert_ne!(bordered, IconWithIndicator::new(icon(), Some(dot)));
    assert_eq!(
        bordered.indicator_border_color(None),
        IconWithIndicator::new(icon(), Some(dot))
    );
}
