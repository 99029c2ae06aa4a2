//! Emote CDN URLs and the settings they are built from.

use vstd::prelude::*;
use vstd::string::StringExecFns;
use crate::ids::EmoteId;
use crate::text::{chars_of, contains_seq, find_seq, replace_first, replace_first_exec, string_of};

verus! {

/// Emote url template
pub const EMOTE_V2_URL_TEMPLATE: &'static str =
    "https://static-cdn.jtvnw.net/emoticons/v2/{{id}}/{{format}}/{{theme_mode}}/{{scale}}";

/// Start of every emote URL built without a custom template.
pub const EMOTE_V2_URL_PREFIX: &'static str = "https://static-cdn.jtvnw.net/emoticons/v2/";

/// Formats for an emote.
#[derive(Debug, Clone, Copy, PartialEq, Eq, Structural)]
pub enum EmoteAnimationSetting {
    /// Static
    Static,
    /// Animated
    Animated,
}

impl EmoteAnimationSetting {
    /// The value a JSON string stands for, if any.
    pub open spec fn parse_name(s: Seq<char>) -> Option<EmoteAnimationSetting> {
        if s == "static"@ {
            Some(EmoteAnimationSetting::Static)
        } else if s == "animated"@ {
            Some(EmoteAnimationSetting::Animated)
        } else {
            None
        }
    }

    /// The value a JSON string stands for, if any.
    pub fn from_name(s: &str) -> (r: Option<EmoteAnimationSetting>)
        ensures
            r == EmoteAnimationSetting::parse_name(s@),
    {
        if crate::text::str_eq(s, "static") {
            Some(EmoteAnimationSetting::Static)
        } else if crate::text::str_eq(s, "animated") {
            Some(EmoteAnimationSetting::Animated)
        } else {
            None
        }
    }

    /// The text shown for this value: its name.
    pub fn to_string(&self) -> (r: String)
        ensures
            r@ == self.name(),
    {
        self.as_str().to_owned()
    }

    /// The name of the setting in URLs and JSON.
    pub open spec fn name(self) -> Seq<char> {
        match self {
            EmoteAnimationSetting::Static => "static"@,
            EmoteAnimationSetting::Animated => "animated"@,
        }
    }

    /// The name of the setting in URLs and JSON.
    pub fn as_str(&self) -> (r: &'static str)
        ensures
            r@ == self.name(),
    {
        match self {
            EmoteAnimationSetting::Static => "static",
            EmoteAnimationSetting::Animated => "animated",
        }
    }
}

/// Reading back the name of a EmoteAnimationSetting gives the same value.
pub proof fn law_emote_animation_setting_name_round_trip(x: EmoteAnimationSetting)
    ensures
        EmoteAnimationSetting::parse_name(x.name()) == Some(x),
{
    reveal_strlit("static");
    reveal_strlit("animated");
    assert("static"@.len() != "animated"@.len());
}

/// Background themes available for an emote.
#[derive(Debug, Clone, Copy, PartialEq, Eq, Structural)]
pub enum EmoteThemeMode {
    /// Light
    Light,
    /// Dark
    Dark,
}

impl EmoteThemeMode {
    /// The value a JSON string stands for, if any.
    pub open spec fn parse_name(s: Seq<char>) -> Option<EmoteThemeMode> {
        if s == "light"@ {
            Some(EmoteThemeMode::Light)
        } else if s == "dark"@ {
            Some(EmoteThemeMode::Dark)
        } else {
            None
        }
    }

    /// The value a JSON string stands for, if any.
    pub fn from_name(s: &str) -> (r: Option<EmoteThemeMode>)
        ensures
            r == EmoteThemeMode::parse_name(s@),
    {
        if crate::text::str_eq(s, "light") {
            Some(EmoteThemeMode::Light)
        } else if crate::text::str_eq(s, "dark") {
            Some(EmoteThemeMode::Dark)
        } else {
            None
        }
    }

    /// The text shown for this value: its name.
    pub fn to_string(&self) -> (r: String)
        ensures
            r@ == self.name(),
    {
        self.as_str().to_owned()
    }

    /// The name of the theme in URLs and JSON.
    pub open spec fn name(self) -> Seq<char> {
        match self {
            EmoteThemeMode::Light => "light"@,
            EmoteThemeMode::Dark => "dark"@,
        }
    }

    /// The name of the theme in URLs and JSON.
    pub fn as_str(&self) -> (r: &'static str)
        ensures
            r@ == self.name(),
    {
        match self {
            EmoteThemeMode::Light => "light",
            EmoteThemeMode::Dark => "dark",
        }
    }
}

/// Reading back the name of a EmoteThemeMode gives the same value.
pub proof fn law_emote_theme_mode_name_round_trip(x: EmoteThemeMode)
    ensures
        EmoteThemeMode::parse_name(x.name()) == Some(x),
{
    reveal_strlit("light");
    reveal_strlit("dark");
    assert("light"@.len() != "dark"@.len());
}

impl Default for EmoteThemeMode {
    fn default() -> (r: Self)
        ensures
            r == EmoteThemeMode::Light,
    {
        EmoteThemeMode::Light
    }
}

/// Scales available for an emote.
#[derive(Debug, Clone, Copy, PartialEq, Eq, Structural)]
pub enum EmoteScale {
    /// 1.0
    Size1_0,
    /// 2.0
    Size2_0,
    /// 3.0
    Size3_0,
}

impl EmoteScale {
    /// The value a JSON string stands for, if any.
    pub open spec fn parse_name(s: Seq<char>) -> Option<EmoteScale> {
        if s == "1.0"@ {
            Some(EmoteScale::Size1_0)
        } else if s == "2.0"@ {
            Some(EmoteScale::Size2_0)
        } else if s == "3.0"@ {
            Some(EmoteScale::Size3_0)
        } else {
            None
        }
    }

    /// The value a JSON string stands for, if any.
    pub fn from_name(s: &str) -> (r: Option<EmoteScale>)
        ensures
            r == EmoteScale::parse_name(s@),
    {
        if crate::text::str_eq(s, "1.0") {
            Some(EmoteScale::Size1_0)
        } else if crate::text::str_eq(s, "2.0") {
            Some(EmoteScale::Size2_0)
        } else if crate::text::str_eq(s, "3.0") {
            Some(EmoteScale::Size3_0)
        } else {
            None
        }
    }

    /// The text shown for this value: its name.
    pub fn to_string(&self) -> (r: String)
        ensures
            r@ == self.name(),
    {
        self.as_str().to_owned()
    }

    /// The name of the scale in URLs and JSON.
    pub open spec fn name(self) -> Seq<char> {
        match self {
            EmoteScale::Size1_0 => "1.0"@,
            EmoteScale::Size2_0 => "2.0"@,
            EmoteScale::Size3_0 => "3.0"@,
        }
    }

    /// The name of the scale in URLs and JSON.
    pub fn as_str(&self) -> (r: &'static str)
        ensures
            r@ == self.name(),
    {
        match self {
            EmoteScale::Size1_0 => "1.0",
            EmoteScale::Size2_0 => "2.0",
            EmoteScale::Size3_0 => "3.0",
        }
    }
}

/// Reading back the name of a EmoteScale gives the same value.
pub proof fn law_emote_scale_name_round_trip(x: EmoteScale)
    ensures
        EmoteScale::parse_name(x.name()) == Some(x),
{
    reveal_strlit("1.0");
    reveal_strlit("2.0");
    reveal_strlit("3.0");
    assert("1.0"@[0] != "2.0"@[0]);
    assert("1.0"@[0] != "3.0"@[0]);
    assert("2.0"@[0] != "3.0"@[0]);
}

impl Default for EmoteScale {
    fn default() -> (r: Self)
        ensures
            r == EmoteScale::Size1_0,
    {
        EmoteScale::Size1_0
    }
}

/// The name of an animation setting in URLs; `default` when none is chosen.
pub open spec fn format_name(a: Option<EmoteAnimationSetting>) -> Seq<char> {
    match a {
        Some(s) => s.name(),
        None => "default"@,
    }
}

/// The emote URL in the standard layout.
pub open spec fn standard_emote_url(
    id: Seq<char>,
    animation: Option<EmoteAnimationSetting>,
    theme: EmoteThemeMode,
    scale: EmoteScale,
) -> Seq<char> {
    EMOTE_V2_URL_PREFIX@ + id + "/"@ + format_name(animation) + "/"@ + theme.name() + "/"@
        + scale.name()
}

/// A custom template with its four placeholders filled in, in order, each
/// at its first occurrence at that moment; none when a placeholder is
/// missing or braces remain afterwards.
pub open spec fn filled_template(p: EmoteUrlParts) -> Option<Seq<char>> {
    match replace_first(p.template, "{{id}}"@, p.id) {
        None => None,
        Some(t1) => match replace_first(t1, "{{format}}"@, format_name(p.animation_setting)) {
            None => None,
            Some(t2) => match replace_first(t2, "{{theme_mode}}"@, p.theme_mode.name()) {
                None => None,
                Some(t3) => match replace_first(t3, "{{scale}}"@, p.scale.name()) {
                    None => None,
                    Some(t4) => if contains_seq(t4, "{{"@) || contains_seq(t4, "}}"@) {
                        None
                    } else {
                        Some(t4)
                    },
                },
            },
        },
    }
}

/// The URL a builder renders: its filled-in template when that template is
/// not the standard one and fills in cleanly, else the standard layout.
pub open spec fn rendered_url(p: EmoteUrlParts) -> Seq<char> {
    if p.template != EMOTE_V2_URL_TEMPLATE@ && filled_template(p) is Some {
        filled_template(p)->0
    } else {
        standard_emote_url(p.id, p.animation_setting, p.theme_mode, p.scale)
    }
}

/// A builder that keeps the standard template renders its settings in the
/// standard layout; builders made by [`EmoteUrlBuilder::new`] or
/// [`EmoteId::url`] keep it through every setter.
pub proof fn law_standard_template_renders_standard_url(p: EmoteUrlParts)
    requires
        p.template == EMOTE_V2_URL_TEMPLATE@,
    ensures
        rendered_url(p) == standard_emote_url(p.id, p.animation_setting, p.theme_mode, p.scale),
{
}

/// What an [`EmoteUrlBuilder`] holds, as plain values.
pub struct EmoteUrlParts {
    /// The emote's id.
    pub id: Seq<char>,
    /// The chosen animation, if any.
    pub animation_setting: Option<EmoteAnimationSetting>,
    /// The theme.
    pub theme_mode: EmoteThemeMode,
    /// The scale.
    pub scale: EmoteScale,
    /// The URL template.
    pub template: Seq<char>,
}

/// Builder for emote URLs.
#[derive(Debug, Clone)]
pub struct EmoteUrlBuilder {
    id: EmoteId,
    animation_setting: Option<EmoteAnimationSetting>,
    theme_mode: EmoteThemeMode,
    scale: EmoteScale,
    template: String,
}

impl View for EmoteUrlBuilder {
    type V = EmoteUrlParts;

    closed spec fn view(&self) -> EmoteUrlParts {
        EmoteUrlParts {
            id: self.id@,
            animation_setting: self.animation_setting,
            theme_mode: self.theme_mode,
            scale: self.scale,
            template: self.template@,
        }
    }
}

/// The builder state for an id with the given settings and the standard
/// template.
pub open spec fn standard_parts(
    id: Seq<char>,
    animation: Option<EmoteAnimationSetting>,
    theme: EmoteThemeMode,
    scale: EmoteScale,
) -> EmoteUrlParts {
    EmoteUrlParts {
        id,
        animation_setting: animation,
        theme_mode: theme,
        scale,
        template: EMOTE_V2_URL_TEMPLATE@,
    }
}

impl EmoteUrlBuilder {
    /// Construct a new [`EmoteUrlBuilder`] from a [`EmoteId`]
    ///
    /// Defaults to `1.0` scale, `default` animation and `light` theme.
    pub fn new(id: &EmoteId) -> (r: EmoteUrlBuilder)
        ensures
            r@ == standard_parts(id@, None, EmoteThemeMode::Light, EmoteScale::Size1_0),
    {
        EmoteUrlBuilder {
            id: EmoteId::new(id.as_str()),
            animation_setting: None,
            theme_mode: EmoteThemeMode::default(),
            scale: EmoteScale::default(),
            template: EMOTE_V2_URL_TEMPLATE.to_owned(),
        }
    }

    /// Set size to 1.0
    pub fn size_1x(self) -> (r: Self)
        ensures
            r@ == (EmoteUrlParts { scale: EmoteScale::Size1_0, ..self@ }),
    {
        EmoteUrlBuilder { scale: EmoteScale::Size1_0, ..self }
    }

    /// Set size to 2.0
    pub fn size_2x(self) -> (r: Self)
        ensures
            r@ == (EmoteUrlParts { scale: EmoteScale::Size2_0, ..self@ }),
    {
        EmoteUrlBuilder { scale: EmoteScale::Size2_0, ..self }
    }

    /// Set size to 3.0
    pub fn size_3x(self) -> (r: Self)
        ensures
            r@ == (EmoteUrlParts { scale: EmoteScale::Size3_0, ..self@ }),
    {
        EmoteUrlBuilder { scale: EmoteScale::Size3_0, ..self }
    }

    /// Set theme to dark mode
    pub fn dark_mode(self) -> (r: Self)
        ensures
            r@ == (EmoteUrlParts { theme_mode: EmoteThemeMode::Dark, ..self@ }),
    {
        EmoteUrlBuilder { theme_mode: EmoteThemeMode::Dark, ..self }
    }

    /// Set theme to light mode
    pub fn light_mode(self) -> (r: Self)
        ensures
            r@ == (EmoteUrlParts { theme_mode: EmoteThemeMode::Light, ..self@ }),
    {
        EmoteUrlBuilder { theme_mode: EmoteThemeMode::Light, ..self }
    }

    /// Set animation mode to default
    pub fn animation_default(self) -> (r: Self)
        ensures
            r@ == (EmoteUrlParts { animation_setting: None, ..self@ }),
    {
        EmoteUrlBuilder { animation_setting: None, ..self }
    }

    /// Set animation mode to static
    pub fn animation_static(self) -> (r: Self)
        ensures
            r@ == (EmoteUrlParts {
                animation_setting: Some(EmoteAnimationSetting::Static),
                ..self@
            }),
    {
        EmoteUrlBuilder { animation_setting: Some(EmoteAnimationSetting::Static), ..self }
    }

    /// Set animation mode to animate
    pub fn animation_animated(self) -> (r: Self)
        ensures
            r@ == (EmoteUrlParts {
                animation_setting: Some(EmoteAnimationSetting::Animated),
                ..self@
            }),
    {
        EmoteUrlBuilder { animation_setting: Some(EmoteAnimationSetting::Animated), ..self }
    }

    /// The URL in the standard layout for this builder's settings.
    fn render_standard(&self) -> (r: String)
        ensures
            r@ == standard_emote_url(
                self@.id,
                self@.animation_setting,
                self@.theme_mode,
                self@.scale,
            ),
    {
        let mut url = EMOTE_V2_URL_PREFIX.to_owned();
        url.append(self.id.as_str());
        url.append("/");
        match &self.animation_setting {
            Some(a) => url.append(a.as_str()),
            None => url.append("default"),
        }
        url.append("/");
        url.append(self.theme_mode.as_str());
        url.append("/");
        url.append(self.scale.as_str());
        url
    }

    /// Fills the placeholders of this builder's template.
    fn fill_template(&self) -> (r: Option<String>)
        ensures
            r is Some <==> filled_template(self@) is Some,
            r matches Some(u) ==> filled_template(self@) == Some(u@),
    {
        let template = chars_of(self.template.as_str());
        let id = chars_of(self.id.as_str());
        let format = match &self.animation_setting {
            Some(a) => chars_of(a.as_str()),
            None => chars_of("default"),
        };
        let theme = chars_of(self.theme_mode.as_str());
        let scale = chars_of(self.scale.as_str());
        let t1 = match replace_first_exec(&template, &chars_of("{{id}}"), &id) {
            Some(t) => t,
            None => return None,
        };
        let t2 = match replace_first_exec(&t1, &chars_of("{{format}}"), &format) {
            Some(t) => t,
            None => return None,
        };
        let t3 = match replace_first_exec(&t2, &chars_of("{{theme_mode}}"), &theme) {
            Some(t) => t,
            None => return None,
        };
        let t4 = match replace_first_exec(&t3, &chars_of("{{scale}}"), &scale) {
            Some(t) => t,
            None => return None,
        };
        if find_seq(&t4, &chars_of("{{")) < t4.len() || find_seq(&t4, &chars_of("}}")) < t4.len() {
            None
        } else {
            Some(string_of(&t4))
        }
    }

    /// Create the URL for this emote.
    pub fn render(self) -> (r: String)
        ensures
            r@ == rendered_url(self@),
    {
        if !(self.template == EMOTE_V2_URL_TEMPLATE.to_owned()) {
            match self.fill_template() {
                Some(url) => return url,
                None => {},
            }
        }
        self.render_standard()
    }
}

impl EmoteId {
    /// Generates url for this emote.
    ///
    /// Generated URL will be `"https://static-cdn.jtvnw.net/emoticons/v2/{emote_id}/default/light/1.0"`
    pub fn default_render(&self) -> (r: String)
        ensures
            r@ == rendered_url(standard_parts(self@, None, EmoteThemeMode::Light, EmoteScale::Size1_0)),
            r@ == standard_emote_url(self@, None, EmoteThemeMode::Light, EmoteScale::Size1_0),
    {
        EmoteUrlBuilder {
            id: EmoteId::new(self.as_str()),
            animation_setting: None,
            theme_mode: EmoteThemeMode::Light,
            scale: EmoteScale::Size1_0,
            template: EMOTE_V2_URL_TEMPLATE.to_owned(),
        }.render()
    }

    /// Create a [`EmoteUrlBuilder`] for this emote
    pub fn url(&self) -> (r: EmoteUrlBuilder)
        ensures
            r@ == standard_parts(self@, None, EmoteThemeMode::Light, EmoteScale::Size1_0),
    {
        EmoteUrlBuilder::new(self)
    }
}

} // verus!
