//! The editor as a plug-in configures it and as the host sees it.

use std::sync::Arc;
use vstd::prelude::*;

verus! {

/// The colours and shapes of egui's widgets.
#[verifier::external_type_specification]
#[verifier::external_body]
pub struct ExVisuals(egui::Visuals);

/// The editor of a plug-in with the parameters `P` and the user interface `U`.
pub struct EguiEditor<P: ?Sized, U> {
    pub params: Arc<P>,
    /// The size in logical points.
    pub size: (u32, u32),
    /// The host may resize the editor. A host only fits an editor to its pane
    /// where this is set; otherwise the editor stays at the size that it was
    /// built with.
    pub can_resize: bool,
    /// The bounds within which the host resizes the editor.
    pub min_size: (u32, u32),
    pub max_size: (u32, u32),
    /// The ratio of width to height that the host keeps, as numerator and
    /// denominator.
    pub aspect_ratio: Option<(u32, u32)>,
    pub ui: U,
    pub visuals: Option<egui::Visuals>,
    pub font: Option<&'static [u8]>,
}

/// What a host asks of an editor about its size.
pub trait EditorSizing {
    /// The size in logical points.
    fn size(&self) -> (u32, u32);

    /// Gives the editor another size, if it is one.
    fn set_size(&mut self, width: u32, height: u32) -> bool;

    /// Whether the host may resize the editor.
    fn can_resize(&self) -> bool;

    /// The least size that the editor accepts.
    fn min_size(&self) -> (u32, u32);

    /// The greatest size that the editor accepts.
    fn max_size(&self) -> (u32, u32);

    /// The ratio of width to height that the host keeps.
    fn aspect_ratio(&self) -> Option<(u32, u32)>;
}

impl<P: ?Sized, U> EguiEditor<P, U> {
    /// An editor of a fixed size, with the looks and the fonts of egui.
    pub fn new(params: Arc<P>, size: (u32, u32), ui: U) -> (editor: Self)
        ensures
            editor == Self::built(params, size, ui),
    {
        Self::with_ui_impl(params, size, ui)
    }

    /// An editor as it is before it is configured: it has a fixed size, any
    /// bounds will do, and looks and fonts are those of egui.
    pub open spec fn built(params: Arc<P>, size: (u32, u32), ui: U) -> Self {
        EguiEditor {
            params,
            size,
            can_resize: false,
            min_size: (1, 1),
            max_size: (u32::MAX, u32::MAX),
            aspect_ratio: None,
            ui,
            visuals: None,
            font: None,
        }
    }

    /// The editor with another size; zero one way or the other is no size.
    pub open spec fn resized(self, width: u32, height: u32) -> Self {
        if width != 0 && height != 0 {
            EguiEditor { size: (width, height), ..self }
        } else {
            self
        }
    }

    /// An editor of a fixed size, with the looks and the fonts of egui.
    pub fn with_ui_impl(params: Arc<P>, size: (u32, u32), ui: U) -> (editor: Self)
        ensures
            editor == Self::built(params, size, ui),
    {
        EguiEditor {
            params,
            size,
            can_resize: false,
            min_size: (1, 1),
            max_size: (u32::MAX, u32::MAX),
            aspect_ratio: None,
            ui,
            visuals: None,
            font: None,
        }
    }

    /// An editor of a fixed size, with the looks and the fonts of egui.
    pub fn with_ui(params: Arc<P>, size: (u32, u32), ui: U) -> (editor: Self)
        ensures
            editor == Self::built(params, size, ui),
    {
        Self::with_ui_impl(params, size, ui)
    }

    /// The editor with its own looks.
    #[must_use]
    pub fn with_visuals(self, visuals: egui::Visuals) -> (editor: Self)
        ensures
            editor == (EguiEditor { visuals: Some(visuals), ..self }),
    {
        let mut editor = self;
        editor.visuals = Some(visuals);
        editor
    }

    /// The editor with its own font.
    #[must_use]
    pub fn with_font(self, font: &'static [u8]) -> (editor: Self)
        ensures
            editor == (EguiEditor { font: Some(font), ..self }),
    {
        let mut editor = self;
        editor.font = Some(font);
        editor
    }

    /// The editor, open to being resized by the host or not.
    #[must_use]
    pub fn resizable(self, resizable: bool) -> (editor: Self)
        ensures
            editor == (EguiEditor { can_resize: resizable, ..self }),
    {
        let mut editor = self;
        editor.can_resize = resizable;
        editor
    }

    /// The editor with a least size in logical points.
    #[must_use]
    pub fn min_size(self, min: (u32, u32)) -> (editor: Self)
        ensures
            editor == (EguiEditor { min_size: min, ..self }),
    {
        let mut editor = self;
        editor.min_size = min;
        editor
    }

    /// The editor with a greatest size in logical points.
    #[must_use]
    pub fn max_size(self, max: (u32, u32)) -> (editor: Self)
        ensures
            editor == (EguiEditor { max_size: max, ..self }),
    {
        let mut editor = self;
        editor.max_size = max;
        editor
    }

    /// The editor with a ratio of width to height, as numerator and
    /// denominator, that the host keeps.
    #[must_use]
    pub fn aspect_ratio(self, ratio: Option<(u32, u32)>) -> (editor: Self)
        ensures
            editor == (EguiEditor { aspect_ratio: ratio, ..self }),
    {
        let mut editor = self;
        editor.aspect_ratio = ratio;
        editor
    }

    /// The editor as it is: sizes of a power of two mean nothing here.
    #[must_use]
    pub fn prefers_pow2(self, _prefers: bool) -> (editor: Self)
        ensures
            editor == self,
    {
        self
    }
}

impl<P: ?Sized, U> EditorSizing for EguiEditor<P, U> {
    fn size(&self) -> (size: (u32, u32))
        ensures
            size == self.size,
    {
        self.size
    }

    /// Takes a size, unless it is zero one way or the other, and says whether
    /// it did.
    fn set_size(&mut self, width: u32, height: u32) -> (taken: bool)
        ensures
            taken == (width != 0 && height != 0),
            *final(self) == old(self).resized(width, height),
    {
        if width == 0 || height == 0 {
            return false;
        }
        self.size = (width, height);
        true
    }

    fn can_resize(&self) -> (can: bool)
        ensures
            can == self.can_resize,
    {
        self.can_resize
    }

    fn min_size(&self) -> (min: (u32, u32))
        ensures
            min == self.min_size,
    {
        self.min_size
    }

    fn max_size(&self) -> (max: (u32, u32))
        ensures
            max == self.max_size,
    {
        self.max_size
    }

    fn aspect_ratio(&self) -> (ratio: Option<(u32, u32)>)
        ensures
            ratio == self.aspect_ratio,
    {
        self.aspect_ratio
    }
}

/// An editor starts with exactly what it was built from, at a fixed size without
/// bounds, with the looks and the fonts of egui. Another size changes nothing
/// but the size, and zero one way or the other changes nothing.
pub proof fn law_editor_keeps_what_it_was_given<P: ?Sized, U>(
    params: Arc<P>,
    ui: U,
    editor: EguiEditor<P, U>,
    width: u32,
    height: u32,
)
    ensures
        ({
            let built = EguiEditor::built(params, (width, height), ui);
            &&& built.params == params
            &&& built.size == (width, height)
            &&& built.ui == ui
            &&& !built.can_resize
            &&& built.min_size == (1u32, 1u32)
            &&& built.max_size == (u32::MAX, u32::MAX)
            &&& built.aspect_ratio is None
            &&& built.visuals is None
            &&& built.font is None
        }),
        width > 0 && height > 0 ==> editor.resized(width, height) == (EguiEditor {
            size: (width, height),
            ..editor
        }),
        width == 0 || height == 0 ==> editor.resized(width, height) == editor,
{
}

/// Each setting of an editor changes what it is named after and nothing else, and
/// whether a power of two is preferred changes nothing.
pub proof fn law_each_setting_changes_only_itself<P: ?Sized, U>(
    editor: EguiEditor<P, U>,
    visuals: egui::Visuals,
    font: &'static [u8],
    flag: bool,
    size: (u32, u32),
    ratio: Option<(u32, u32)>,
    looks: EguiEditor<P, U>,
    lettered: EguiEditor<P, U>,
    flexible: EguiEditor<P, U>,
    lower: EguiEditor<P, U>,
    upper: EguiEditor<P, U>,
    proportioned: EguiEditor<P, U>,
    rounded: EguiEditor<P, U>,
)
    requires
        call_ensures(EguiEditor::<P, U>::with_visuals, (editor, visuals), looks),
        call_ensures(EguiEditor::<P, U>::with_font, (editor, font), lettered),
        call_ensures(EguiEditor::<P, U>::resizable, (editor, flag), flexible),
        call_ensures(EguiEditor::<P, U>::min_size, (editor, size), lower),
        call_ensures(EguiEditor::<P, U>::max_size, (editor, size), upper),
        call_ensures(EguiEditor::<P, U>::aspect_ratio, (editor, ratio), proportioned),
        call_ensures(EguiEditor::<P, U>::prefers_pow2, (editor, flag), rounded),
    ensures
        looks == (EguiEditor { visuals: Some(visuals), ..editor }),
        lettered == (EguiEditor { font: Some(font), ..editor }),
        flexible == (EguiEditor { can_resize: flag, ..editor }),
        lower == (EguiEditor { min_size: size, ..editor }),
        upper == (EguiEditor { max_size: size, ..editor }),
        proportioned == (EguiEditor { aspect_ratio: ratio, ..editor }),
        rounded == editor,
{
}

/// However an editor is built, it has the parameters, the size, width first, and
/// the user interface that it was built from.
pub proof fn law_built_editor_has_its_size<P: ?Sized, U>(
    params: Arc<P>,
    width: u32,
    height: u32,
    ui: U,
    editor: EguiEditor<P, U>,
)
    requires
        call_ensures(EguiEditor::<P, U>::new, (params, (width, height), ui), editor) || call_ensures(
            EguiEditor::<P, U>::with_ui,
            (params, (width, height), ui),
            editor,
        ) || call_ensures(
            EguiEditor::<P, U>::with_ui_impl,
            (params, (width, height), ui),
            editor,
        ),
    ensures
        editor.params == params,
        editor.size == (width, height),
        editor.ui == ui,
        !editor.can_resize,
{
}

} // verus!
