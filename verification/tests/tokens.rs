use shoelace_ui::palette::{ColorToken, ColorValue, ColorVariant};
use shoelace_ui::style::{
    BadgeVariant, ButtonSize, ButtonVariant, CheckboxStyleClass, FontWeight, InputStyleClass,
    ScrollableClass, TextStyleClass, Transition, ZIndex,
};
use shoelace_ui::input::InputSize;

#[test]
fn color_token_holds_its_parts() {
    let token = ColorToken::new(ColorVariant::Neutral, ColorValue::C500);
    assert_eq!(token.variant, ColorVariant::Neutral);
    assert_eq!(token.value, ColorValue::C500);
    assert_eq!(token, ColorToken::new(ColorVariant::Neutral, ColorValue::C500));
    assert_ne!(token, ColorToken::new(ColorVariant::Sky, ColorValue::C500));
}

#[test]
fn style_defaults() {
    assert_eq!(BadgeVariant::default(), BadgeVariant::Primary);
    assert_eq!(ButtonVariant::default(), ButtonVariant::Default);
    assert_eq!(ButtonSize::default(), ButtonSize::Medium);
    assert_eq!(ScrollableClass::default(), ScrollableClass::Default);
    let checkbox_style = CheckboxStyleClass::default();
    assert!(!checkbox_style.is_checked && !checkbox_style.is_indeterminate);
}

#[test]
fn style_classes_carry_fields() {
    let input_style = InputStyleClass {
        size: InputSize::Large,
        disabled: false,
        filled: true,
        pill: false,
    };
    assert_eq!(input_style.size, InputSize::Large);
    assert!(input_style.filled);

    let text_style = TextStyleClass {
        color: Some(ColorToken::new(ColorVariant::Sky, ColorValue::C600)),
    };
    assert_eq!(text_style.color.unwrap().variant, ColorVariant::Sky);
}

#[test]
fn font_weights_ascend() {
    let w = FontWeight::default();
    assert_eq!(w.light, 300);
    assert_eq!(w.normal, 400);
    assert_eq!(w.semibold, 500);
    assert_eq!(w.bold, 700);
    assert!(w.light < w.normal && w.normal < w.semibold && w.semibold < w.bold);
}

#[test]
fn transitions_descend_from_x_slow_to_x_fast() {
    let t = Transition::default();
    assert_eq!(t.x_slow, 1000);
    assert_eq!(t.x_fast, 50);
    assert!(t.x_slow > t.slow && t.slow > t.medium && t.medium > t.fast && t.fast > t.x_fast);
}

#[test]
fn overlay_layers_stack_in_order() {
    let z = ZIndex::default();
    assert_eq!(z.drawer, 700);
    assert_eq!(z.tooltip, 1000);
    assert!(z.drawer < z.dialog && z.dialog < z.dropdown && z.dropdown < z.toast && z.toast < z.tooltip);
}
