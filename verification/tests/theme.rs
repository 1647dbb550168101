use batch_rename::theme::{
    Button, Color, Container, ProgressBar, Rule, Slider, TextInput, Theme, Toggler,
};

const SURFACE: Color = Color {
    r: 0x40,
    g: 0x44,
    b: 0x4B,
    a: 255,
};

const ACCENT: Color = Color {
    r: 0x6F,
    g: 0xFF,
    b: 0xE9,
    a: 255,
};

const ACTIVE: Color = Color {
    r: 0x72,
    g: 0x89,
    b: 0xDA,
    a: 255,
};

const HOVERED: Color = Color {
    r: 0x67,
    g: 0x7B,
    b: 0xC4,
    a: 255,
};

const WHITE: Color = Color {
    r: 255,
    g: 255,
    b: 255,
    a: 255,
};

#[test]
fn default_theme_is_dark() {
    assert_eq!(Theme::default(), Theme::Dark);
}

#[test]
fn container_has_dark_background_and_white_text() {
    let s = Theme::Dark.container().style();
    assert_eq!(
        s.background,
        Color {
            r: 0x36,
            g: 0x39,
            b: 0x3F,
            a: 255
        }
    );
    assert_eq!(s.text_color, WHITE);
    assert_eq!(s.border_width, 0);
}

#[test]
fn text_input_states_share_the_surface_background() {
    let t = TextInput;
    let active = t.active();
    assert_eq!(active.background, SURFACE);
    assert_eq!(active.border_radius, 2);
    assert_eq!(active.border_width, 0);
    let focused = t.focused();
    assert_eq!(focused.background, SURFACE);
    assert_eq!(focused.border_width, 1);
    assert_eq!(focused.border_color, ACCENT);
    let hovered = t.hovered();
    assert_eq!(hovered.border_width, 1);
    assert_eq!(hovered.border_color, Color { a: 77, ..ACCENT });
    assert_eq!(t.placeholder_color(), Color {
        r: 102,
        g: 102,
        b: 102,
        a: 255
    });
    assert_eq!(t.value_color(), WHITE);
    assert_eq!(t.selection_color(), ACTIVE);
}

#[test]
fn slider_handle_changes_color_by_interaction() {
    let s = Slider;
    let active = s.active();
    assert_eq!(active.rail_top, ACTIVE);
    assert_eq!(active.rail_bottom, Color { a: 26, ..ACTIVE });
    assert_eq!(active.handle.radius, 9);
    assert_eq!(active.handle.color, ACTIVE);
    assert_eq!(s.hovered().handle.color, HOVERED);
    assert_eq!(
        s.dragging().handle.color,
        Color {
            r: 217,
            g: 217,
            b: 217,
            a: 255
        }
    );
    assert_eq!(s.hovered().rail_top, active.rail_top);
}

#[test]
fn button_gains_a_white_border_when_pressed() {
    let b = Button;
    let active = b.active();
    assert_eq!(active.background, ACTIVE);
    assert_eq!(active.border_radius, 3);
    assert_eq!(active.text_color, WHITE);
    let hovered = b.hovered();
    assert_eq!(hovered.background, HOVERED);
    assert_eq!(hovered.border_width, 0);
    let pressed = b.pressed();
    assert_eq!(pressed.background, HOVERED);
    assert_eq!(pressed.border_width, 1);
    assert_eq!(pressed.border_color, WHITE);
}

#[test]
fn progress_bar_uses_surface_and_active() {
    let s = ProgressBar.style();
    assert_eq!(s.background, SURFACE);
    assert_eq!(s.bar, ACTIVE);
    assert_eq!(s.border_radius, 10);
}

#[test]
fn toggler_colors_depend_on_switch_position() {
    let t = Toggler;
    let on = t.active(true);
    assert_eq!(on.background, ACTIVE);
    assert_eq!(on.foreground, WHITE);
    assert_eq!(on.background_border, None);
    let off = t.active(false);
    assert_eq!(off.background, SURFACE);
    assert_eq!(off.foreground, ACTIVE);
    let on_hovered = t.hovered(true);
    assert_eq!(on_hovered.background, ACTIVE);
    assert_eq!(on_hovered.foreground, Color { a: 128, ..WHITE });
    let off_hovered = t.hovered(false);
    assert_eq!(off_hovered.foreground, Color { a: 128, ..ACTIVE });
    assert_eq!(off_hovered.foreground_border, None);
}

#[test]
fn rule_is_a_thin_padded_surface_line() {
    let s = Theme::Dark.rule().style();
    assert_eq!(s.color, SURFACE);
    assert_eq!(s.width, 2);
    assert_eq!(s.radius, 1);
    assert_eq!(s.fill_mode_padding, 15);
}
