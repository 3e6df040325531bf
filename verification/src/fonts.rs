//! The plug-in's own font in front of the fonts that come with egui.

use vstd::prelude::*;

verus! {

/// The fonts that a context of egui uses.
#[verifier::external_type_specification]
#[verifier::external_body]
pub struct ExFontDefinitions(egui::FontDefinitions);

/// The name of the plug-in's font.
pub const PLUGIN_FONT: &'static str = "truce-egui";

/// The families that every text style of egui comes from.
#[derive(Clone, Copy, Debug, PartialEq, Eq, Structural)]
pub enum FontFamily {
    Proportional,
    Monospace,
}

/// The names of the fonts of each family, the preferred one first.
pub uninterp spec fn family_fonts(fonts: egui::FontDefinitions) -> Map<FontFamily, Seq<Seq<char>>>;

/// The font files, by name.
pub uninterp spec fn font_files(fonts: egui::FontDefinitions) -> Map<Seq<char>, Seq<u8>>;

/// The file that egui brings for a font of its own.
pub uninterp spec fn builtin_file(name: Seq<char>) -> Seq<u8>;

/// The fonts of a family, the preferred one first; none for a family that is
/// not there.
pub open spec fn fonts_of(fonts: egui::FontDefinitions, family: FontFamily) -> Seq<Seq<char>> {
    if family_fonts(fonts).contains_key(family) {
        family_fonts(fonts)[family]
    } else {
        Seq::empty()
    }
}

/// Every font that a family names has a file.
pub open spec fn every_font_has_a_file(fonts: egui::FontDefinitions) -> bool {
    forall|family: FontFamily, i: int|
        0 <= i < fonts_of(fonts, family).len() ==> font_files(fonts).contains_key(
            #[trigger] fonts_of(fonts, family)[i],
        )
}

/// The names of the fonts that come with egui, the preferred one first.
pub open spec fn builtin_fonts(family: FontFamily) -> Seq<Seq<char>> {
    match family {
        FontFamily::Proportional => seq![
            "Ubuntu-Light"@,
            "NotoEmoji-Regular"@,
            "emoji-icon-font"@,
        ],
        FontFamily::Monospace => seq![
            "Hack"@,
            "Ubuntu-Light"@,
            "NotoEmoji-Regular"@,
            "emoji-icon-font"@,
        ],
    }
}

/// A font comes with egui: the monospace family names all that do.
pub open spec fn is_builtin_font(name: Seq<char>) -> bool {
    builtin_fonts(FontFamily::Monospace).contains(name)
}

/// `egui::FontDefinitions::default`, with the feature `default_fonts`: the
/// fonts that come with egui, in both families, each with its own file, and no
/// other files.
#[verifier::external_body]
fn default_fonts() -> (fonts: egui::FontDefinitions)
    ensures
        fonts_of(fonts, FontFamily::Proportional) == builtin_fonts(FontFamily::Proportional),
        fonts_of(fonts, FontFamily::Monospace) == builtin_fonts(FontFamily::Monospace),
        forall|name: Seq<char>| #[trigger]
            font_files(fonts).contains_key(name) <==> is_builtin_font(name),
        forall|name: Seq<char>|
            is_builtin_font(name) ==> #[trigger] font_files(fonts)[name] == builtin_file(name),
{
    egui::FontDefinitions::default()
}

/// Both families of egui are made of fonts that come with it, and the plug-in's
/// font is none of them.
proof fn lemma_builtin_fonts()
    ensures
        forall|family: FontFamily, i: int|
            0 <= i < builtin_fonts(family).len() ==> is_builtin_font(
                #[trigger] builtin_fonts(family)[i],
            ),
        !is_builtin_font(PLUGIN_FONT@),
{
    let all = builtin_fonts(FontFamily::Monospace);
    assert forall|family: FontFamily, i: int| 0 <= i < builtin_fonts(family).len() implies
        is_builtin_font(#[trigger] builtin_fonts(family)[i]) by {
        let shift = if family == FontFamily::Monospace {
            0int
        } else {
            1int
        };
        assert(all[i + shift] == builtin_fonts(family)[i]);
    }
    reveal_strlit("truce-egui");
    reveal_strlit("Hack");
    reveal_strlit("Ubuntu-Light");
    reveal_strlit("NotoEmoji-Regular");
    reveal_strlit("emoji-icon-font");
    assert(PLUGIN_FONT@.len() == 10);
    assert(all[0].len() == 4 && all[1].len() == 12 && all[2].len() == 17 && all[3].len() == 15);
}

/// Enters a file, as `egui::FontData::from_static` takes it, under a name into
/// the files of `egui::FontDefinitions`. The families stay as they are.
#[verifier::external_body]
fn insert_font(fonts: &mut egui::FontDefinitions, name: &str, file: &'static [u8])
    ensures
        font_files(*final(fonts)) == font_files(*old(fonts)).insert(name@, file@),
        family_fonts(*final(fonts)) == family_fonts(*old(fonts)),
{
    let data = egui::FontData::from_static(file);
    fonts.font_data.insert(name.to_owned(), std::sync::Arc::new(data));
}

/// Puts a name in front of a family of `egui::FontDefinitions`, which is
/// created where it is not there. The files and the other families stay as they
/// are.
#[verifier::external_body]
fn prefer_in_family(fonts: &mut egui::FontDefinitions, family: FontFamily, name: &str)
    ensures
        family_fonts(*final(fonts)) == family_fonts(*old(fonts)).insert(
            family,
            seq![name@] + fonts_of(*old(fonts), family),
        ),
        font_files(*final(fonts)) == font_files(*old(fonts)),
{
    let family = match family {
        FontFamily::Proportional => egui::FontFamily::Proportional,
        FontFamily::Monospace => egui::FontFamily::Monospace,
    };
    fonts.families.entry(family).or_default().insert(0, name.to_owned());
}

/// Puts a font in front of both families.
pub fn prefer_font(fonts: &mut egui::FontDefinitions, name: &str, file: &'static [u8])
    ensures
        font_files(*final(fonts)) == font_files(*old(fonts)).insert(name@, file@),
        fonts_of(*final(fonts), FontFamily::Proportional) == seq![name@] + fonts_of(
            *old(fonts),
            FontFamily::Proportional,
        ),
        fonts_of(*final(fonts), FontFamily::Monospace) == seq![name@] + fonts_of(
            *old(fonts),
            FontFamily::Monospace,
        ),
        every_font_has_a_file(*old(fonts)) ==> every_font_has_a_file(*final(fonts)),
{
    insert_font(fonts, name, file);
    prefer_in_family(fonts, FontFamily::Proportional, name);
    prefer_in_family(fonts, FontFamily::Monospace, name);
    proof {
        if every_font_has_a_file(*old(fonts)) {
            assert forall|family: FontFamily, i: int|
                0 <= i < fonts_of(*fonts, family).len() implies font_files(*fonts).contains_key(
                #[trigger] fonts_of(*fonts, family)[i],
            ) by {
                if i > 0 {
                    assert(fonts_of(*fonts, family)[i] == fonts_of(*old(fonts), family)[i - 1]);
                }
            }
        }
    }
}

/// The fonts for an editor with its own font: that one is preferred in both
/// families, and the fonts that come with egui, each with the file that it has
/// there, stand in for the characters that it lacks. There are no other files.
pub fn font_definitions(file: &'static [u8]) -> (fonts: egui::FontDefinitions)
    ensures
        font_files(fonts).contains_key(PLUGIN_FONT@),
        font_files(fonts)[PLUGIN_FONT@] == file@,
        fonts_of(fonts, FontFamily::Proportional) == seq![PLUGIN_FONT@] + builtin_fonts(
            FontFamily::Proportional,
        ),
        fonts_of(fonts, FontFamily::Monospace) == seq![PLUGIN_FONT@] + builtin_fonts(
            FontFamily::Monospace,
        ),
        forall|name: Seq<char>| #[trigger]
            font_files(fonts).contains_key(name) <==> is_builtin_font(name) || name
                == PLUGIN_FONT@,
        forall|name: Seq<char>|
            is_builtin_font(name) ==> #[trigger] font_files(fonts)[name] == builtin_file(name),
        every_font_has_a_file(fonts),
{
    let mut fonts = default_fonts();
    proof {
        lemma_builtin_fonts();
        assert forall|family: FontFamily, i: int|
            0 <= i < fonts_of(fonts, family).len() implies font_files(fonts).contains_key(
            #[trigger] fonts_of(fonts, family)[i],
        ) by {
            assert(fonts_of(fonts, family) == builtin_fonts(family));
            assert(is_builtin_font(builtin_fonts(family)[i]));
        }
    }
    prefer_font(&mut fonts, PLUGIN_FONT, file);
    fonts
}

/// The fonts of a family are those that the family names, the first one first,
/// and each of them has a file where every font has one.
pub proof fn law_families_name_their_fonts(
    fonts: egui::FontDefinitions,
    family: FontFamily,
    i: int,
)
    ensures
        family_fonts(fonts).contains_key(family) ==> fonts_of(fonts, family) == family_fonts(
            fonts,
        )[family],
        !family_fonts(fonts).contains_key(family) ==> fonts_of(fonts, family).len() == 0,
        every_font_has_a_file(fonts) && family_fonts(fonts).contains_key(family) && 0 <= i
            < family_fonts(fonts)[family].len() ==> font_files(fonts).contains_key(
            family_fonts(fonts)[family][i],
        ),
{
    if family_fonts(fonts).contains_key(family) && 0 <= i < family_fonts(fonts)[family].len() {
        assert(fonts_of(fonts, family)[i] == family_fonts(fonts)[family][i]);
    }
}

/// An editor with its own font has that file under the name of that font, in
/// front of the fonts that come with egui, in both families, and those keep their
/// own files.
pub proof fn law_own_font_is_preferred(
    file: &'static [u8],
    fonts: egui::FontDefinitions,
    family: FontFamily,
)
    requires
        call_ensures(font_definitions, (file,), fonts),
    ensures
        fonts_of(fonts, family).len() > 0,
        fonts_of(fonts, family)[0] == PLUGIN_FONT@,
        font_files(fonts)[PLUGIN_FONT@] == file@,
        fonts_of(fonts, family).drop_first() == builtin_fonts(family),
        forall|name: Seq<char>|
            is_builtin_font(name) ==> #[trigger] font_files(fonts)[name] == builtin_file(name),
{
    assert(fonts_of(fonts, family).drop_first() =~= builtin_fonts(family));
}

} // verus!
