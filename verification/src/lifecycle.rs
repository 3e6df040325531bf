//! The display link runs only while the editor can be seen.

use vstd::prelude::*;

verus! {

/// How many frames per second the display link is asked for. A plug-in's editor
/// needs no more, and a host's battery lasts longer.
pub const IOS_DISPLAY_LINK_FPS: isize = 30;

/// The notifications about the application, its scene, and the host of an
/// extension.
#[derive(Clone, Copy, Debug, PartialEq, Eq, Structural)]
pub enum LifecycleNotification {
    ApplicationWillResignActive,
    ApplicationDidEnterBackground,
    SceneWillDeactivate,
    SceneDidEnterBackground,
    ApplicationDidBecomeActive,
    ApplicationWillEnterForeground,
    SceneDidActivate,
    SceneWillEnterForeground,
    ExtensionHostWillResignActive,
    ExtensionHostDidEnterBackground,
    ExtensionHostDidBecomeActive,
    ExtensionHostWillEnterForeground,
}

/// Whether the editor goes out of sight with a notification. It comes into sight
/// with the others.
pub open spec fn hides_editor(notification: LifecycleNotification) -> bool {
    match notification {
        LifecycleNotification::ApplicationWillResignActive => true,
        LifecycleNotification::ApplicationDidEnterBackground => true,
        LifecycleNotification::SceneWillDeactivate => true,
        LifecycleNotification::SceneDidEnterBackground => true,
        LifecycleNotification::ApplicationDidBecomeActive => false,
        LifecycleNotification::ApplicationWillEnterForeground => false,
        LifecycleNotification::SceneDidActivate => false,
        LifecycleNotification::SceneWillEnterForeground => false,
        LifecycleNotification::ExtensionHostWillResignActive => true,
        LifecycleNotification::ExtensionHostDidEnterBackground => true,
        LifecycleNotification::ExtensionHostDidBecomeActive => false,
        LifecycleNotification::ExtensionHostWillEnterForeground => false,
    }
}

/// The order in which the view is registered for the notifications.
pub open spec fn notifications() -> Seq<LifecycleNotification> {
    seq![
        LifecycleNotification::ApplicationWillResignActive,
        LifecycleNotification::ApplicationDidEnterBackground,
        LifecycleNotification::SceneWillDeactivate,
        LifecycleNotification::SceneDidEnterBackground,
        LifecycleNotification::ApplicationDidBecomeActive,
        LifecycleNotification::ApplicationWillEnterForeground,
        LifecycleNotification::SceneDidActivate,
        LifecycleNotification::SceneWillEnterForeground,
        LifecycleNotification::ExtensionHostWillResignActive,
        LifecycleNotification::ExtensionHostDidEnterBackground,
        LifecycleNotification::ExtensionHostDidBecomeActive,
        LifecycleNotification::ExtensionHostWillEnterForeground,
    ]
}

/// Whether a notification pauses the display link; the others let it run again.
pub fn pauses_display_link(notification: LifecycleNotification) -> (pauses: bool)
    ensures
        pauses == hides_editor(notification),
{
    match notification {
        LifecycleNotification::ApplicationWillResignActive => true,
        LifecycleNotification::ApplicationDidEnterBackground => true,
        LifecycleNotification::SceneWillDeactivate => true,
        LifecycleNotification::SceneDidEnterBackground => true,
        LifecycleNotification::ExtensionHostWillResignActive => true,
        LifecycleNotification::ExtensionHostDidEnterBackground => true,
        _ => false,
    }
}

/// The notifications that the view is registered for, each with whether it
/// pauses the display link.
pub fn display_link_observers() -> (observers: Vec<(LifecycleNotification, bool)>)
    ensures
        observers@.len() == notifications().len(),
        forall|i: int|
            0 <= i < observers@.len() ==> #[trigger] observers@[i] == (
                notifications()[i],
                hides_editor(notifications()[i]),
            ),
{
    let order = vec![
        LifecycleNotification::ApplicationWillResignActive,
        LifecycleNotification::ApplicationDidEnterBackground,
        LifecycleNotification::SceneWillDeactivate,
        LifecycleNotification::SceneDidEnterBackground,
        LifecycleNotification::ApplicationDidBecomeActive,
        LifecycleNotification::ApplicationWillEnterForeground,
        LifecycleNotification::SceneDidActivate,
        LifecycleNotification::SceneWillEnterForeground,
        LifecycleNotification::ExtensionHostWillResignActive,
        LifecycleNotification::ExtensionHostDidEnterBackground,
        LifecycleNotification::ExtensionHostDidBecomeActive,
        LifecycleNotification::ExtensionHostWillEnterForeground,
    ];
    assert(order@ =~= notifications());
    let mut observers: Vec<(LifecycleNotification, bool)> = Vec::new();
    for i in 0..order.len()
        invariant
            order@ == notifications(),
            observers@.len() == i,
            forall|j: int|
                0 <= j < i ==> #[trigger] observers@[j] == (
                    notifications()[j],
                    hides_editor(notifications()[j]),
                ),
    {
        observers.push((order[i], pauses_display_link(order[i])));
    }
    observers
}

/// The frame rate that a display link is asked for: none without a link, and
/// none that is not positive.
pub fn preferred_fps(has_link: bool, fps: isize) -> (request: Option<isize>)
    ensures
        request == if has_link && fps > 0 {
            Some(fps)
        } else {
            None
        },
{
    if has_link && fps > 0 {
        Some(fps)
    } else {
        None
    }
}

/// The view is registered for every notification, and for each only once.
pub proof fn law_every_notification_is_observed_once(notification: LifecycleNotification)
    ensures
        exists|i: int|
            0 <= i < notifications().len() && #[trigger] notifications()[i] == notification,
        forall|i: int, j: int|
            0 <= i < j < notifications().len() ==> notifications()[i] != notifications()[j],
{
    let all = notifications();
    match notification {
        LifecycleNotification::ApplicationWillResignActive => {
            assert(all[0] == notification);
        },
        LifecycleNotification::ApplicationDidEnterBackground => {
            assert(all[1] == notification);
        },
        LifecycleNotification::SceneWillDeactivate => {
            assert(all[2] == notification);
        },
        LifecycleNotification::SceneDidEnterBackground => {
            assert(all[3] == notification);
        },
        LifecycleNotification::ApplicationDidBecomeActive => {
            assert(all[4] == notification);
        },
        LifecycleNotification::ApplicationWillEnterForeground => {
            assert(all[5] == notification);
        },
        LifecycleNotification::SceneDidActivate => {
            assert(all[6] == notification);
        },
        LifecycleNotification::SceneWillEnterForeground => {
            assert(all[7] == notification);
        },
        LifecycleNotification::ExtensionHostWillResignActive => {
            assert(all[8] == notification);
        },
        LifecycleNotification::ExtensionHostDidEnterBackground => {
            assert(all[9] == notification);
        },
        LifecycleNotification::ExtensionHostDidBecomeActive => {
            assert(all[10] == notification);
        },
        LifecycleNotification::ExtensionHostWillEnterForeground => {
            assert(all[11] == notification);
        },
    }
}

/// The display link rests when the application, its scene or the host of an
/// extension resigns, is deactivated or goes to the background, and runs again
/// when it comes back.
pub proof fn law_link_rests_out_of_sight(notification: LifecycleNotification)
    ensures
        hides_editor(notification) <==> (notification
            == LifecycleNotification::ApplicationWillResignActive || notification
            == LifecycleNotification::ApplicationDidEnterBackground || notification
            == LifecycleNotification::SceneWillDeactivate || notification
            == LifecycleNotification::SceneDidEnterBackground || notification
            == LifecycleNotification::ExtensionHostWillResignActive || notification
            == LifecycleNotification::ExtensionHostDidEnterBackground),
        !hides_editor(notification) <==> (notification
            == LifecycleNotification::ApplicationDidBecomeActive || notification
            == LifecycleNotification::ApplicationWillEnterForeground || notification
            == LifecycleNotification::SceneDidActivate || notification
            == LifecycleNotification::SceneWillEnterForeground || notification
            == LifecycleNotification::ExtensionHostDidBecomeActive || notification
            == LifecycleNotification::ExtensionHostWillEnterForeground),
        IOS_DISPLAY_LINK_FPS == 30,
{
}

/// The view is registered for every notification, each with whether it hides the
/// editor; and a link that is there is asked for any frame rate that is one.
pub proof fn law_observers_cover_every_notification(
    observers: Vec<(LifecycleNotification, bool)>,
    notification: LifecycleNotification,
    pauses: bool,
    has_link: bool,
    fps: isize,
    request: Option<isize>,
)
    requires
        call_ensures(display_link_observers, (), observers),
        call_ensures(pauses_display_link, (notification,), pauses),
        call_ensures(preferred_fps, (has_link, fps), request),
    ensures
        observers@.contains((notification, pauses)),
        !observers@.contains((notification, !pauses)),
        request is Some <==> has_link && fps > 0,
        request matches Some(asked) ==> asked == fps,
{
    law_every_notification_is_observed_once(notification);
    let i = choose|i: int|
        0 <= i < notifications().len() && #[trigger] notifications()[i] == notification;
    assert(observers@[i] == (notification, pauses));
}

} // verus!
