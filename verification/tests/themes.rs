use stonks_rs::theme::{color_cuts_fine, parse_color, theme_cuts_fine, ColorError, Rgb, Theme, ThemeConfig};

fn config(background: &str) -> ThemeConfig {
    ThemeConfig {
        background: background.to_string(),
        text: "#e6e6e6".to_string(),
        primary: "#64B4FF".to_string(),
        secondary: "#b4b4b4".to_string(),
        success: "#64c864".to_string(),
        warning: "#e6c850".to_string(),
        error: "#e65a5a".to_string(),
        border: "#3c3c3c".to_string(),
        muted: "#787878".to_string(),
    }
}

#[test]
fn colours_are_read_in_base_16() {
    assert_eq!(parse_color("#141414"), Ok(Rgb { r: 20, g: 20, b: 20 }));
    assert_eq!(parse_color("64B4ff"), Ok(Rgb { r: 100, g: 180, b: 255 }));
    assert_eq!(parse_color("##ff0001"), Ok(Rgb { r: 255, g: 0, b: 1 }));
    assert_eq!(parse_color("+f+f+f"), Ok(Rgb { r: 15, g: 15, b: 15 }));
    assert_eq!(parse_color("#12345"), Err(ColorError::InvalidLength(b"12345".to_vec())));
    assert_eq!(parse_color(""), Err(ColorError::InvalidLength(Vec::new())));
    assert_eq!(parse_color("#gg0000"), Err(ColorError::InvalidDigit));
    assert_eq!(parse_color("-10000"), Err(ColorError::InvalidDigit));
}

#[test]
fn colour_parts_agree_with_std() {
    for text in ["00", "7f", "Ff", "+a", "+", "-1", "g0", " 1"] {
        if text.len() == 2 {
            let padded = format!("{text}0000");
            let ours = parse_color(&padded).ok().map(|c| c.r);
            let theirs = u8::from_str_radix(text, 16).ok();
            assert_eq!(ours, theirs, "{text}");
        }
    }
}

#[test]
fn cuts_between_characters() {
    assert!(color_cuts_fine("#aabbcc"));
    assert!(color_cuts_fine("é"));
    assert!(!color_cuts_fine("aé123"));
    assert!(color_cuts_fine("zzaé1"));
    assert!(!color_cuts_fine("00aé1"));
}

#[test]
fn default_theme() {
    let t = Theme::default();
    assert_eq!(t.background, Rgb { r: 20, g: 20, b: 20 });
    assert_eq!(t.primary, Rgb { r: 100, g: 180, b: 255 });
    assert_eq!(t.muted, Rgb { r: 120, g: 120, b: 120 });
}

#[test]
fn theme_from_config() {
    let c = config("#141414");
    assert!(theme_cuts_fine(&c));
    let t = Theme::try_from(c).unwrap();
    assert_eq!(t, Theme::default());
    assert_eq!(Theme::try_from(config("red")), Err(ColorError::InvalidLength(b"red".to_vec())));
    let mut c = config("#141414");
    c.muted = "#12".to_string();
    c.text = "#zzzzzz".to_string();
    assert_eq!(Theme::try_from(c), Err(ColorError::InvalidDigit));
    let mut c = config("xx");
    c.text = "aé123".to_string();
    assert!(theme_cuts_fine(&c));
    let mut c = config("#141414");
    c.text = "aé123".to_string();
    assert!(!theme_cuts_fine(&c));
}
