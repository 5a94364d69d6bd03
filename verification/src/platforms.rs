//! Curated streaming platforms: their creation and edit forms and the theme
//! a curator gives them, written out as CSS custom properties.
use crate::error::{is_validation, validation, AppError};
use crate::films::{slug_of, slugify_public};
use crate::forms::{field_text, has_content, non_blank, non_empty};
use crate::text::{chars_of, join, owned, push_str, push_string, str_is, string_of, trim, trim_chars};
use vstd::prelude::*;

verus! {

/// The look a curator gives a platform.
#[derive(Debug, Clone)]
pub struct PlatformTheme {
    pub primary_color: Option<String>,
    pub secondary_color: Option<String>,
    pub accent_color: Option<String>,
    pub font_heading: Option<String>,
    pub font_body: Option<String>,
    pub border_radius: Option<String>,
    pub dark_mode: Option<bool>,
}

impl Default for PlatformTheme {
    fn default() -> (t: Self)
        ensures
            t.primary_color is None && t.secondary_color is None && t.accent_color is None
                && t.font_heading is None && t.font_body is None && t.border_radius is None
                && t.dark_mode is None,
    {
        PlatformTheme {
            primary_color: None,
            secondary_color: None,
            accent_color: None,
            font_heading: None,
            font_body: None,
            border_radius: None,
            dark_mode: None,
        }
    }
}

/// The declaration `name: value;` where the value is set.
pub open spec fn declaration(name: Seq<char>, value: Option<String>) -> Seq<Seq<char>> {
    match value {
        Some(v) => seq![name + ": "@ + v@ + ";"@],
        None => Seq::empty(),
    }
}

/// The palette a dark theme sets.
pub open spec fn dark_palette() -> Seq<Seq<char>> {
    seq![
        "--color-background: #0f172a;"@,
        "--color-surface: #1e293b;"@,
        "--color-text: #f1f5f9;"@,
        "--color-text-muted: #94a3b8;"@,
        "--color-border: #334155;"@,
    ]
}

/// The custom properties a theme sets, in order: the three colors, the two
/// fonts, the corner radius, then the dark palette where dark mode is on.
pub open spec fn theme_declarations(t: PlatformTheme) -> Seq<Seq<char>> {
    declaration("--color-primary"@, t.primary_color) + declaration(
        "--color-secondary"@,
        t.secondary_color,
    ) + declaration("--color-accent"@, t.accent_color) + declaration(
        "--font-heading"@,
        t.font_heading,
    ) + declaration("--font-body"@, t.font_body) + declaration("--radius-md"@, t.border_radius)
        + (if t.dark_mode == Some(true) {
        dark_palette()
    } else {
        Seq::empty()
    })
}

/// The style sheet of a theme: its declarations in one `:root` rule, or
/// nothing where it sets none.
pub open spec fn theme_css(t: PlatformTheme) -> Seq<char> {
    let d = theme_declarations(t);
    if d.len() == 0 {
        Seq::empty()
    } else {
        ":root { "@ + join(d, " "@) + " }"@
    }
}

fn push_declaration(props: &mut Vec<Vec<char>>, name: &str, value: &Option<String>)
    ensures
        crate::text::views(final(props)@) == crate::text::views(old(props)@) + declaration(name@, *value),
{
    let ghost before = crate::text::views(props@);
    match value {
        Some(v) => {
            let mut d = chars_of(name);
            push_str(&mut d, ": ");
            push_string(&mut d, v);
            push_str(&mut d, ";");
            props.push(d);
            assert(crate::text::views(props@) =~= before + declaration(name@, *value));
        },
        None => {
            assert(crate::text::views(props@) =~= before + declaration(name@, *value));
        },
    }
}

fn push_line(props: &mut Vec<Vec<char>>, line: &str)
    ensures
        crate::text::views(final(props)@) == crate::text::views(old(props)@).push(line@),
{
    let ghost before = crate::text::views(props@);
    props.push(chars_of(line));
    assert(crate::text::views(props@) =~= before.push(line@));
}

impl PlatformTheme {
    /// The theme as CSS overrides of the default custom properties.
    pub fn to_css_overrides(&self) -> (r: String)
        ensures
            r@ == theme_css(*self),
    {
        let mut props: Vec<Vec<char>> = Vec::new();
        assert(crate::text::views(props@) =~= Seq::<Seq<char>>::empty());
        push_declaration(&mut props, "--color-primary", &self.primary_color);
        push_declaration(&mut props, "--color-secondary", &self.secondary_color);
        push_declaration(&mut props, "--color-accent", &self.accent_color);
        push_declaration(&mut props, "--font-heading", &self.font_heading);
        push_declaration(&mut props, "--font-body", &self.font_body);
        push_declaration(&mut props, "--radius-md", &self.border_radius);
        let ghost before = crate::text::views(props@);
        let dark = match self.dark_mode {
            Some(b) => b,
            None => false,
        };
        if dark {
            push_line(&mut props, "--color-background: #0f172a;");
            push_line(&mut props, "--color-surface: #1e293b;");
            push_line(&mut props, "--color-text: #f1f5f9;");
            push_line(&mut props, "--color-text-muted: #94a3b8;");
            push_line(&mut props, "--color-border: #334155;");
            assert(crate::text::views(props@) =~= before + dark_palette());
        } else {
            assert(crate::text::views(props@) =~= before + Seq::<Seq<char>>::empty());
        }
        assert(crate::text::views(props@) =~= theme_declarations(*self));
        if props.len() == 0 {
            return string_of(Vec::new().as_slice());
        }
        let mut v = chars_of(":root { ");
        let joined = crate::text::join_chars(&props, chars_of(" ").as_slice());
        crate::text::append(&mut v, joined.as_slice());
        push_str(&mut v, " }");
        string_of(v.as_slice())
    }
}

/// The platform form.
#[derive(Debug, Clone)]
pub struct PlatformForm {
    pub name: String,
    pub description: Option<String>,
    pub monetization_model: Option<String>,
    pub primary_color: Option<String>,
    pub secondary_color: Option<String>,
    pub accent_color: Option<String>,
    pub font_heading: Option<String>,
    pub font_body: Option<String>,
    pub border_radius: Option<String>,
    pub dark_mode: Option<String>,
}

/// The form that puts a film on a platform.
#[derive(Debug, Clone)]
pub struct AddFilmForm {
    pub film_id: String,
    pub featured: Option<String>,
}

/// The field kept where it is not empty.
pub open spec fn kept_field(o: Option<String>, r: Option<String>) -> bool {
    &&& (r is Some <==> (o matches Some(s) && s@.len() > 0))
    &&& (r matches Some(s) ==> s@ == field_text(o))
}

/// The theme a platform form sets: each style field where it is not empty,
/// and dark mode on exactly where its box was ticked.
pub open spec fn theme_of(form: PlatformForm, t: PlatformTheme) -> bool {
    &&& kept_field(form.primary_color, t.primary_color)
    &&& kept_field(form.secondary_color, t.secondary_color)
    &&& kept_field(form.accent_color, t.accent_color)
    &&& kept_field(form.font_heading, t.font_heading)
    &&& kept_field(form.font_body, t.font_body)
    &&& kept_field(form.border_radius, t.border_radius)
    &&& t.dark_mode == Some(form.dark_mode is Some)
}

/// The theme a platform form sets.
pub fn form_to_theme(form: &PlatformForm) -> (t: PlatformTheme)
    ensures
        theme_of(*form, t),
{
    PlatformTheme {
        primary_color: non_empty(&form.primary_color),
        secondary_color: non_empty(&form.secondary_color),
        accent_color: non_empty(&form.accent_color),
        font_heading: non_empty(&form.font_heading),
        font_body: non_empty(&form.font_body),
        border_radius: non_empty(&form.border_radius),
        dark_mode: Some(form.dark_mode.is_some()),
    }
}

/// A platform about to be created.
#[derive(Debug, Clone)]
pub struct CreatePlatform {
    pub name: String,
    pub slug: String,
    pub description: Option<String>,
    pub monetization_model: Option<String>,
    pub status: String,
    pub theme: PlatformTheme,
}

/// The edits a platform form makes to an existing platform.
#[derive(Debug, Clone)]
pub struct PlatformChanges {
    pub name: String,
    pub description: Option<String>,
    pub monetization_model: Option<String>,
    pub theme: PlatformTheme,
}

/// The text field kept where it holds something besides whitespace.
pub open spec fn content_field(o: Option<String>, r: Option<String>) -> bool {
    &&& (r is Some <==> has_content(o))
    &&& (r matches Some(s) ==> s@ == field_text(o))
}

/// Reads a platform creation form; a blank name is refused. The platform
/// starts in setup, with the slug of its name.
pub fn prepare_platform(form: &PlatformForm) -> (r: Result<CreatePlatform, String>)
    ensures
        trim(form.name@).len() == 0 ==> (r matches Err(e) && e@ == "Name is required."@),
        trim(form.name@).len() > 0 ==> (r matches Ok(p) && p.name@ == trim(form.name@) && p.slug@
            == slug_of(form.name@) && content_field(form.description, p.description)
            && content_field(form.monetization_model, p.monetization_model) && p.status@
            == "setup"@ && theme_of(*form, p.theme)),
{
    let name = string_of(trim_chars(chars_of(form.name.as_str()).as_slice()).as_slice());
    if chars_of(name.as_str()).len() == 0 {
        return Err(owned("Name is required."));
    }
    Ok(CreatePlatform {
        name,
        slug: slugify_public(form.name.as_str()),
        description: non_blank(&form.description),
        monetization_model: non_blank(&form.monetization_model),
        status: owned("setup"),
        theme: form_to_theme(form),
    })
}

/// The platform, unless one with the same slug exists already.
pub fn accept_platform(p: CreatePlatform, slug_taken: bool) -> (r: Result<CreatePlatform, String>)
    ensures
        slug_taken ==> (r matches Err(e) && e@ == "A platform with this name already exists."@),
        !slug_taken ==> r == Ok::<CreatePlatform, String>(p),
{
    if slug_taken {
        Err(owned("A platform with this name already exists."))
    } else {
        Ok(p)
    }
}

/// Reads a platform edit form; a blank name is refused.
pub fn prepare_platform_update(form: &PlatformForm) -> (r: Result<PlatformChanges, AppError>)
    ensures
        trim(form.name@).len() == 0 ==> (r matches Err(e) && is_validation(e, "Name cannot be empty."@)),
        trim(form.name@).len() > 0 ==> (r matches Ok(c) && c.name@ == trim(form.name@)
            && content_field(form.description, c.description) && content_field(
            form.monetization_model,
            c.monetization_model,
        ) && theme_of(*form, c.theme)),
{
    let name = string_of(trim_chars(chars_of(form.name.as_str()).as_slice()).as_slice());
    if chars_of(name.as_str()).len() == 0 {
        return Err(validation("Name cannot be empty."));
    }
    Ok(PlatformChanges {
        name,
        description: non_blank(&form.description),
        monetization_model: non_blank(&form.monetization_model),
        theme: form_to_theme(form),
    })
}

/// Public pages show only active platforms; any other is not found.
pub fn require_active_platform(status: &str) -> (r: Result<(), AppError>)
    ensures
        r is Ok <==> status@ == "active"@,
        r matches Err(e) ==> e is NotFound,
{
    if str_is(status, "active") {
        Ok(())
    } else {
        Err(AppError::NotFound)
    }
}

} // verus!
