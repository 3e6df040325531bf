//! The editor's configuration, its view, and its window.

use std::sync::Arc;
use truce_egui::editor::{EditorSizing, EguiEditor};
use truce_egui::fonts::font_definitions;
use truce_egui::lifecycle::{
    display_link_observers, pauses_display_link, preferred_fps, LifecycleNotification,
    IOS_DISPLAY_LINK_FPS,
};
use truce_egui::session::EditorSession;
use truce_egui::view::{
    editor_view_class_name, link_setup_steps, teardown_steps, text_input_setup_steps,
    view_setup_steps, OpenAction, OpenEvent, ParentHandle, TextInputStep, ViewStep,
};
use truce_egui::window::{
    actual_window_size, load_window_size, new_data, set_actual_window_size, store_window_size,
};
use truce_egui::windowed::{content_size, enable_resize, ResizeConstraints, ResizePlan};

#[test]
fn an_editor_starts_at_a_fixed_size() {
    let editor = EguiEditor::new(Arc::new(7u8), (800, 600), "ui");
    assert_eq!(editor.size(), (800, 600));
    assert!(!editor.can_resize());
    assert_eq!(EditorSizing::min_size(&editor), (1, 1));
    assert_eq!(EditorSizing::max_size(&editor), (u32::MAX, u32::MAX));
    assert_eq!(EditorSizing::aspect_ratio(&editor), None);
    assert!(editor.visuals.is_none() && editor.font.is_none());
    assert_eq!((*editor.params, editor.ui), (7, "ui"));
    let editor = EguiEditor::with_ui(Arc::new(1u8), (1, 2), ());
    assert_eq!(editor.size(), (1, 2));
}

#[test]
fn each_setting_changes_only_itself() {
    let editor = EguiEditor::new(Arc::new(()), (8, 6), ())
        .resizable(true)
        .min_size((2, 3))
        .max_size((20, 30))
        .aspect_ratio(Some((16, 9)))
        .with_font(b"font")
        .with_visuals(egui::Visuals::light())
        .prefers_pow2(true);
    assert!(editor.can_resize());
    assert_eq!(EditorSizing::min_size(&editor), (2, 3));
    assert_eq!(EditorSizing::max_size(&editor), (20, 30));
    assert_eq!(EditorSizing::aspect_ratio(&editor), Some((16, 9)));
    assert_eq!(editor.font, Some(&b"font"[..]));
    assert_eq!(editor.visuals, Some(egui::Visuals::light()));
    assert_eq!(editor.size(), (8, 6));
}

#[test]
fn zero_is_no_size() {
    let mut editor = EguiEditor::new(Arc::new(()), (8, 6), ());
    assert!(!editor.set_size(0, 4));
    assert!(!editor.set_size(4, 0));
    assert_eq!(editor.size(), (8, 6));
    assert!(editor.set_size(4, 5));
    assert_eq!(editor.size(), (4, 5));
}

#[test]
fn opening_goes_step_by_step() {
    let editor = EguiEditor::new(Arc::new(()), (8, 6), ());
    let requested = |parent| editor.open(OpenEvent::Requested { parent });
    assert_eq!(requested(ParentHandle::Other), OpenAction::RefuseParent);
    assert_eq!(requested(ParentHandle::UiKit { is_null: true }), OpenAction::Ignore);
    assert_eq!(
        requested(ParentHandle::UiKit { is_null: false }),
        OpenAction::InstallView { size: (8, 6) }
    );
    for (has_view, has_layer) in [(false, false), (false, true), (true, false)] {
        assert_eq!(
            editor.open(OpenEvent::Installed { has_view, has_layer }),
            OpenAction::TearDown
        );
    }
    assert_eq!(
        editor.open(OpenEvent::Installed { has_view: true, has_layer: true }),
        OpenAction::MakeRenderer
    );
    assert_eq!(editor.open(OpenEvent::RendererMade { made: false }), OpenAction::TearDown);
    assert_eq!(editor.open(OpenEvent::RendererMade { made: true }), OpenAction::Start);
}

#[test]
fn views_are_set_up_and_taken_down() {
    assert_eq!(
        view_setup_steps(true),
        vec![
            ViewStep::EnableTouches,
            ViewStep::SetContentScale,
            ViewStep::ConfigureLayer,
            ViewStep::PinSession,
            ViewStep::Attach,
        ]
    );
    assert!(view_setup_steps(false).is_empty());
    assert_eq!(
        link_setup_steps(true),
        vec![
            ViewStep::RetainLink,
            ViewStep::SetPreferredFps { fps: 30 },
            ViewStep::RegisterObservers,
            ViewStep::ScheduleLink,
        ]
    );
    assert!(link_setup_steps(false).is_empty());
    assert_eq!(
        teardown_steps(true, true, true),
        vec![
            ViewStep::UnregisterObservers,
            ViewStep::InvalidateLink,
            ViewStep::ReleaseLink,
            ViewStep::ClearSlot,
            ViewStep::ReclaimSession,
            ViewStep::Detach,
            ViewStep::ReleaseView,
        ]
    );
    assert_eq!(
        teardown_steps(true, false, false),
        vec![ViewStep::ClearSlot, ViewStep::Detach, ViewStep::ReleaseView]
    );
    assert_eq!(
        teardown_steps(false, true, false),
        vec![ViewStep::InvalidateLink, ViewStep::ReleaseLink]
    );
    assert!(teardown_steps(false, false, false).is_empty());
}

#[test]
fn the_text_field_is_set_up_in_the_view() {
    assert_eq!(
        text_input_setup_steps(true, true),
        vec![
            TextInputStep::HideFromAccessibility,
            TextInputStep::ObserveChanges { control_event: 1 << 17 },
            TextInputStep::ObserveReturn { control_event: 1 << 19 },
            TextInputStep::AddToView,
            TextInputStep::ReleaseAllocation,
        ]
    );
    assert!(text_input_setup_steps(false, true).is_empty());
    assert!(text_input_setup_steps(true, false).is_empty());
}

#[test]
fn class_names_end_in_the_hash() {
    for hash in [0u64, 9, 10, 15, 16, 255, 0xdead_beef, u64::MAX] {
        assert_eq!(editor_view_class_name(hash), format!("TruceEguiiOSEditorView_{:x}", hash));
    }
}

#[test]
fn the_display_link_rests_while_the_editor_is_hidden() {
    let observers = display_link_observers();
    assert_eq!(observers.len(), 12);
    assert_eq!(observers.iter().filter(|(_, pauses)| *pauses).count(), 6);
    assert_eq!(observers[0], (LifecycleNotification::ApplicationWillResignActive, true));
    assert_eq!(observers[4], (LifecycleNotification::ApplicationDidBecomeActive, false));
    assert_eq!(observers[9], (LifecycleNotification::ExtensionHostDidEnterBackground, true));
    assert_eq!(observers[11], (LifecycleNotification::ExtensionHostWillEnterForeground, false));
    assert!(pauses_display_link(LifecycleNotification::SceneWillDeactivate));
    assert!(!pauses_display_link(LifecycleNotification::SceneDidActivate));
    assert_eq!(preferred_fps(true, IOS_DISPLAY_LINK_FPS), Some(30));
    assert_eq!(preferred_fps(false, 30), None);
    assert_eq!(preferred_fps(true, 0), None);
    assert_eq!(preferred_fps(true, -1), None);
}

#[test]
fn the_window_size_is_read_back() {
    let ctx = egui::Context::default();
    assert_eq!(actual_window_size(&ctx), None);
    set_actual_window_size(&ctx, (640, 480));
    assert_eq!(actual_window_size(&ctx), Some((640, 480)));
    set_actual_window_size(&ctx, (641, 481));
    assert_eq!(actual_window_size(&ctx), Some((641, 481)));

    let mut data = new_data();
    let other = egui::Id::new("other");
    data.insert_temp(other, (7u32, 8u32));
    data.insert_temp(other, "text".to_owned());
    assert_eq!(load_window_size(&data), None);
    store_window_size(&mut data, (3, 4));
    store_window_size(&mut data, (1, 2));
    assert_eq!(load_window_size(&data), Some((1, 2)));
    assert_eq!(data.get_temp::<(u32, u32)>(other), Some((7, 8)));
    assert_eq!(data.get_temp::<String>(other).as_deref(), Some("text"));
    let id = egui::Id::new("truce_egui_actual_window_size");
    assert_eq!(data.get_temp::<(u32, u32)>(id), Some((1, 2)));
}

#[test]
fn no_window_size_is_kept_at_first() {
    let data = new_data();
    assert!(data.is_empty());
    assert_eq!(load_window_size(&data), None);
}

#[test]
fn the_window_size_is_not_divided_by_the_zoom() {
    let ctx = egui::Context::default();
    ctx.set_zoom_factor(2.0);
    let _ = ctx.run_ui(egui::RawInput::default(), |_| {});
    set_actual_window_size(&ctx, (640, 480));
    assert_eq!(actual_window_size(&ctx), Some((640, 480)));
    assert_eq!(ctx.zoom_factor(), 2.0);
}

#[test]
fn an_open_session_follows_its_editor() {
    let mut editor = EguiEditor::new(Arc::new(()), (8, 6), ());
    let mut session = EditorSession::new(editor.size(), false, false, egui::pos2(0.0, 0.0));
    for (width, height) in [(4, 5), (0, 9), (9, 0), (4, 5), (7, 7)] {
        let before = editor.size();
        let taken = editor.set_size(width, height);
        assert_eq!(session.resize_inner(width, height), taken && before != (width, height));
        assert_eq!((session.logical_w, session.logical_h), editor.size());
    }
    assert_eq!(editor.size(), (7, 7));
}

#[test]
fn the_own_font_comes_first() {
    let fonts = font_definitions(b"a font file");
    assert_eq!(&fonts.font_data["truce-egui"].font[..], b"a font file");
    let names = |family: &egui::FontFamily| -> Vec<&str> {
        fonts.families[family].iter().map(|name| name.as_str()).collect()
    };
    assert_eq!(
        names(&egui::FontFamily::Proportional),
        ["truce-egui", "Ubuntu-Light", "NotoEmoji-Regular", "emoji-icon-font"]
    );
    assert_eq!(
        names(&egui::FontFamily::Monospace),
        ["truce-egui", "Hack", "Ubuntu-Light", "NotoEmoji-Regular", "emoji-icon-font"]
    );
    let builtin = egui::FontDefinitions::default();
    assert_eq!(fonts.font_data.len(), builtin.font_data.len() + 1);
    for (name, data) in &builtin.font_data {
        assert_eq!(fonts.font_data[name].font, data.font);
    }
    for family in fonts.families.values() {
        assert!(family.iter().all(|name| fonts.font_data.contains_key(name)));
    }
}

#[test]
fn windows_become_resizable_within_bounds() {
    let constraints =
        ResizeConstraints { min_width: 100, min_height: 50, max_width: 900, max_height: 800 };
    assert_eq!(enable_resize(None, constraints), None);
    assert_eq!(
        enable_resize(Some(0b0111), constraints),
        Some(ResizePlan {
            style_mask: 0b1111,
            content_min_size: (100, 50),
            content_max_size: (900, 800),
        })
    );
    assert_eq!(enable_resize(Some(8), constraints).unwrap().style_mask, 8);
}

#[test]
fn content_is_at_least_one_point() {
    assert_eq!(content_size(None), None);
    assert_eq!(content_size(Some((0, 0))), Some((1, 1)));
    assert_eq!(content_size(Some((640, 0))), Some((640, 1)));
    assert_eq!(content_size(Some((640, 480))), Some((640, 480)));
}
