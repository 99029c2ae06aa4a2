use twitch_types::{EmoteAnimationSetting, EmoteId, EmoteScale, EmoteThemeMode, EmoteUrlBuilder};

#[test]
fn url_builder_renders_chosen_settings() {
    let emote_id = EmoteId::new("emotesv2_dc24652ada1e4c84a5e3ceebae4de709");
    assert_eq!(
        emote_id.url().size_3x().dark_mode().render(),
        "https://static-cdn.jtvnw.net/emoticons/v2/emotesv2_dc24652ada1e4c84a5e3ceebae4de709/default/dark/3.0"
    );
}

#[test]
fn default_render_uses_defaults() {
    let emote_id = EmoteId::new("25");
    assert_eq!(
        emote_id.default_render(),
        "https://static-cdn.jtvnw.net/emoticons/v2/25/default/light/1.0"
    );
}

#[test]
fn builder_setters_override() {
    let emote_id = EmoteId::new("25");
    let url = EmoteUrlBuilder::new(&emote_id)
        .size_2x()
        .animation_animated()
        .dark_mode()
        .light_mode()
        .render();
    assert_eq!(url, "https://static-cdn.jtvnw.net/emoticons/v2/25/animated/light/2.0");
    let url = emote_id.url().animation_static().size_3x().size_1x().render();
    assert_eq!(url, "https://static-cdn.jtvnw.net/emoticons/v2/25/static/light/1.0");
    let url = emote_id.url().animation_static().animation_default().render();
    assert_eq!(url, "https://static-cdn.jtvnw.net/emoticons/v2/25/default/light/1.0");
}

#[test]
fn emote_setting_names() {
    assert_eq!(EmoteAnimationSetting::Static.to_string(), "static");
    assert_eq!(EmoteAnimationSetting::Animated.as_str(), "animated");
    assert_eq!(EmoteThemeMode::Dark.to_string(), "dark");
    assert_eq!(EmoteThemeMode::default(), EmoteThemeMode::Light);
    assert_eq!(EmoteScale::Size2_0.to_string(), "2.0");
    assert_eq!(EmoteScale::default(), EmoteScale::Size1_0);
}

#[test]
fn emote_setting_names_read_back() {
    assert_eq!(EmoteAnimationSetting::from_name("animated"), Some(EmoteAnimationSetting::Animated));
    assert_eq!(EmoteAnimationSetting::from_name("Animated"), None);
    assert_eq!(EmoteThemeMode::from_name("light"), Some(EmoteThemeMode::Light));
    assert_eq!(EmoteScale::from_name("3.0"), Some(EmoteScale::Size3_0));
    assert_eq!(EmoteScale::from_name("3"), None);
    for s in [EmoteScale::Size1_0, EmoteScale::Size2_0, EmoteScale::Size3_0] {
        assert_eq!(EmoteScale::from_name(s.as_str()), Some(s));
    }
}
