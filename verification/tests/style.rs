use toon::{AnsiColor, Attributes, Color, Intensity, Rgb, Style};

#[test]
fn test_ansi() {
    let color = AnsiColor::new_rgb(2, 3, 4);
    assert_eq!(color.get(), 110);
    assert_eq!(color.rgb(), Some((2, 3, 4)));
    assert_eq!(color.grayscale(), None);

    let color = AnsiColor::new_grayscale(13);
    assert_eq!(color.get(), 244);
    assert_eq!(color.rgb(), None);
    assert_eq!(color.grayscale(), Some(13));

    let color = AnsiColor::new_grayscale(0);
    assert_eq!(color, AnsiColor::new_rgb(0, 0, 0));
    assert_eq!(color.get(), 16);
    assert_eq!(color.rgb(), Some((0, 0, 0)));
    assert_eq!(color.grayscale(), Some(0));

    let color = AnsiColor::new_grayscale(25);
    assert_eq!(color, AnsiColor::new_rgb(5, 5, 5));
    assert_eq!(color.get(), 231);
    assert_eq!(color.rgb(), Some((5, 5, 5)));
    assert_eq!(color.grayscale(), Some(25));
}

#[test]
fn ansi_color_set_and_convert() {
    let mut color = AnsiColor::new(16);
    color.set(255);
    assert_eq!(color.get(), 255);
    assert_eq!(color.grayscale(), Some(24));
    assert_eq!(color.rgb(), None);
    assert_eq!(u8::from(color), 255);
    assert_eq!(Color::from(color), Color::AnsiValue(AnsiColor::new(255)));
    assert_eq!(AnsiColor::new(232).grayscale(), Some(1));
    assert_eq!(AnsiColor::new(231).rgb(), Some((5, 5, 5)));
}

#[test]
fn color_new_ansi_maps_named_colors() {
    let named = [
        Color::Black,
        Color::DarkRed,
        Color::DarkGreen,
        Color::DarkYellow,
        Color::DarkBlue,
        Color::DarkMagenta,
        Color::DarkCyan,
        Color::LightGray,
        Color::DarkGray,
        Color::Red,
        Color::Green,
        Color::Yellow,
        Color::Blue,
        Color::Magenta,
        Color::Cyan,
        Color::White,
    ];
    for (value, color) in named.iter().enumerate() {
        assert_eq!(Color::new_ansi(value as u8), *color);
    }
    assert_eq!(Color::new_ansi(16), Color::AnsiValue(AnsiColor::new(16)));
    assert_eq!(Color::new_ansi(200), Color::AnsiValue(AnsiColor::new(200)));
}

#[test]
fn color_darken() {
    assert_eq!(Color::Black.darken(), Color::Black);
    assert_eq!(Color::DarkGray.darken(), Color::Black);
    assert_eq!(Color::LightGray.darken(), Color::DarkGray);
    assert_eq!(Color::White.darken(), Color::LightGray);
    assert_eq!(Color::Red.darken(), Color::DarkRed);
    assert_eq!(Color::DarkRed.darken(), Color::DarkRed);
    assert_eq!(Color::Cyan.darken(), Color::DarkCyan);
    assert_eq!(Color::Default.darken(), Color::Default);
    let rgb = Color::Rgb(Rgb::new(1, 2, 3));
    assert_eq!(rgb.darken(), rgb);
}

#[test]
fn rgb_opposite() {
    assert_eq!(Rgb::new(0, 255, 100).opposite(), Rgb::new(255, 0, 155));
    assert_eq!(Color::from(Rgb::new(1, 2, 3)), Color::Rgb(Rgb { r: 1, g: 2, b: 3 }));
}

#[test]
fn style_defaults_and_attributes() {
    let style = Style::default();
    assert_eq!(style.foreground, Color::Default);
    assert_eq!(style.background, Color::Default);
    assert_eq!(style.attributes, Attributes::new());
    assert_eq!(Attributes::default(), Attributes::new());
    assert_eq!(Intensity::default(), Intensity::Normal);
    assert_eq!(Color::default(), Color::Default);

    let attributes = Attributes::new().bold().italic().underlined().blinking().crossed_out();
    assert_eq!(attributes.intensity, Intensity::Bold);
    assert!(attributes.italic && attributes.underlined && attributes.blinking);
    assert!(attributes.crossed_out);
    assert_eq!(Attributes::new().dim().intensity, Intensity::Dim);
    assert!(!Attributes::new().bold().italic);

    let style = Style::new(Color::Red, Color::Blue, attributes);
    assert_eq!(style.foreground, Color::Red);
    assert_eq!(style.background, Color::Blue);
    assert_eq!(style.attributes, attributes);
    assert!(Intensity::Dim < Intensity::Normal && Intensity::Normal < Intensity::Bold);
}
