use keasyditor_core::models::klassy::enums::{
    BoldButtonIcons, ButtonBackgroundColors, ButtonCornerRadius, ButtonIconColors, ButtonIconStyle,
    ButtonShape, ButtonStateChecked, IconSize, KwinBorderSize, OnPoorIconContrast, ShadowSize,
    SystemIconSize, TitleAlignment, VaryColor, WindowOutlineStyle,
};

#[test]
fn button_shape_round_trip() {
    for variant in ButtonShape::all().iter() {
        let s = variant.value();
        let parsed = ButtonShape::from_value(s).unwrap();
        assert_eq!(*variant, parsed);
    }
}

#[test]
fn button_icon_style_round_trip() {
    for variant in ButtonIconStyle::all().iter() {
        let s = variant.value();
        let parsed = ButtonIconStyle::from_value(s).unwrap();
        assert_eq!(*variant, parsed);
    }
}

#[test]
fn shadow_size_round_trip() {
    for variant in ShadowSize::all().iter() {
        assert_eq!(ShadowSize::from_value(variant.value()), Some(*variant));
    }
}

#[test]
fn window_outline_style_round_trip() {
    for variant in WindowOutlineStyle::all().iter() {
        assert_eq!(WindowOutlineStyle::from_value(variant.value()), Some(*variant));
    }
}

#[test]
fn kwin_border_size_round_trip() {
    for variant in KwinBorderSize::all().iter() {
        assert_eq!(KwinBorderSize::from_value(variant.value()), Some(*variant));
    }
}

#[test]
fn unknown_value_returns_none() {
    assert_eq!(ButtonShape::from_value("NonExistent"), None);
    assert_eq!(ShadowSize::from_value(""), None);
    assert_eq!(TitleAlignment::from_value("invalid"), None);
}

#[test]
fn display_matches_value() {
    assert_eq!(ButtonShape::SmallCircle.value(), "ShapeSmallCircle");
    assert_eq!(ShadowSize::Medium.value(), "ShadowMedium");
}

#[test]
fn all_enums_have_variants() {
    assert_eq!(ButtonShape::all().len(), 5);
    assert_eq!(ButtonIconStyle::all().len(), 6);
    assert_eq!(ShadowSize::all().len(), 5);
    assert_eq!(TitleAlignment::all().len(), 4);
    assert_eq!(WindowOutlineStyle::all().len(), 7);
    assert_eq!(ButtonBackgroundColors::all().len(), 5);
    assert_eq!(IconSize::all().len(), 5);
    assert_eq!(SystemIconSize::all().len(), 4);
    assert_eq!(KwinBorderSize::all().len(), 9);
    assert_eq!(BoldButtonIcons::all().len(), 2);
    assert_eq!(ButtonCornerRadius::all().len(), 2);
    assert_eq!(OnPoorIconContrast::all().len(), 3);
    assert_eq!(ButtonIconColors::all().len(), 3);
    assert_eq!(ButtonStateChecked::all().len(), 2);
    assert_eq!(VaryColor::all().len(), 5);
}

#[test]
fn renamed_none_variants_keep_their_texts() {
    assert_eq!(ShadowSize::NoShadow.value(), "ShadowNone");
    assert_eq!(WindowOutlineStyle::NoOutline.value(), "WindowOutlineNone");
    assert_eq!(KwinBorderSize::NoBorder.value(), "None");
    assert_eq!(KwinBorderSize::from_value("None"), Some(KwinBorderSize::NoBorder));
}

#[test]
fn every_enum_round_trips() {
    for v in VaryColor::all().iter() {
        assert_eq!(VaryColor::from_value(v.value()), Some(*v));
    }
    for v in ButtonIconColors::all().iter() {
        assert_eq!(ButtonIconColors::from_value(v.value()), Some(*v));
    }
    for v in OnPoorIconContrast::all().iter() {
        assert_eq!(OnPoorIconContrast::from_value(v.value()), Some(*v));
    }
    for v in IconSize::all().iter() {
        assert_eq!(IconSize::from_value(v.value()), Some(*v));
    }
}
