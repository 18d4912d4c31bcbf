//! Native notification forwarding: the data handed in from the webview, the
//! user's notification settings, and the decision whether and how to show a
//! notification. Actually showing it (and playing a sound) is OS work the
//! host does with the payload this module decides on.

use vstd::prelude::*;

verus! {

/// Notification data received from the webview.
#[derive(Debug, Clone)]
pub struct NotificationData {
    pub id: String,
    pub title: String,
    pub body: String,
    pub icon_url: Option<String>,
    pub conversation_id: Option<String>,
    pub sender_name: Option<String>,
    pub sender_avatar: Option<String>,
    pub timestamp: Option<u64>,
    pub require_interaction: bool,
    pub silent: bool,
}

/// Per-user notification settings.
#[derive(Debug, Clone)]
pub struct NotificationSettings {
    pub enabled: bool,
    pub sound_enabled: bool,
    pub sound_path: Option<String>,
    pub do_not_disturb: bool,
    pub dnd_schedule: Option<DNDSchedule>,
    pub show_preview: bool,
    pub quick_reply_enabled: bool,
}

/// A Do-Not-Disturb schedule, both bounds in HH:MM form.
#[derive(Debug, Clone)]
pub struct DNDSchedule {
    pub start_time: String,
    pub end_time: String,
}

/// The notification service's state: the settings plus the temporary icon
/// files written on its behalf, remembered so they can be cleaned up.
#[derive(Debug)]
pub struct NotificationState {
    pub settings: NotificationSettings,
    pub temporary_icons: Vec<String>,
}

/// What the host passes to the OS notification API.
#[derive(Debug, Clone)]
pub struct NotificationPayload {
    pub id: String,
    pub title: String,
    pub body: String,
    pub icon_path: Option<String>,
    pub conversation_id: Option<String>,
    pub sender_name: Option<String>,
    pub silent: bool,
}

/// The decision taken for one notification.
pub enum NotificationDisposition {
    /// Notifications are disabled; show nothing.
    SuppressedDisabled,
    /// Do Not Disturb is active; show nothing.
    SuppressedDnd,
    /// The current time falls in the configured DND schedule; show nothing.
    SuppressedSchedule,
    /// Show this payload; the second component says whether to play a sound,
    /// the third which sound file to play (`None` for the system default).
    Show(NotificationPayload, bool, Option<String>),
}

/// An error of the notification service.
#[derive(Clone, Copy, Debug, PartialEq, Eq, Structural)]
pub enum NotificationError {
    /// The configured sound file does not exist.
    SoundFileMissing,
}

/// Whether the current time falls inside a configured DND schedule. The
/// schedule is recorded but not yet enforced, so no time falls inside it.
pub fn is_in_dnd_schedule(_schedule: &DNDSchedule) -> (r: bool)
    ensures
        r == false,
{
    false
}

impl NotificationState {
    /// The initial state: notifications on, sound off, no DND, previews on,
    /// quick reply off, no temporary icons.
    pub fn new() -> (r: Self)
        ensures
            r.settings.enabled,
            !r.settings.sound_enabled,
            r.settings.sound_path is None,
            !r.settings.do_not_disturb,
            r.settings.dnd_schedule is None,
            r.settings.show_preview,
            !r.settings.quick_reply_enabled,
            r.temporary_icons@.len() == 0,
    {
        NotificationState {
            settings: NotificationSettings {
                enabled: true,
                sound_enabled: false,
                sound_path: None,
                do_not_disturb: false,
                dnd_schedule: None,
                show_preview: true,
                quick_reply_enabled: false,
            },
            temporary_icons: Vec::new(),
        }
    }

    /// Decides whether to show `data`: nothing is shown while notifications
    /// are disabled or Do Not Disturb is on; otherwise the payload carries
    /// the data through, with the icon URL as the icon path, and sound
    /// playing follows the sound settings.
    pub fn show_notification(&self, data: &NotificationData) -> (r: NotificationDisposition)
        ensures
            !self.settings.enabled ==> r is SuppressedDisabled,
            self.settings.enabled && self.settings.do_not_disturb ==> r is SuppressedDnd,
            self.settings.enabled && !self.settings.do_not_disturb ==> (r matches
            NotificationDisposition::Show(p, sound, sound_path) && p.id@ == data.id@ && p.title@
                == data.title@ && p.body@ == data.body@ && p.icon_path == data.icon_url
                && p.conversation_id == data.conversation_id && p.sender_name == data.sender_name
                && p.silent == data.silent && sound == self.settings.sound_enabled && sound_path
                == self.settings.sound_path),
    {
        if !self.settings.enabled {
            return NotificationDisposition::SuppressedDisabled;
        }
        if self.settings.do_not_disturb {
            return NotificationDisposition::SuppressedDnd;
        }
        if let Some(schedule) = &self.settings.dnd_schedule {
            if is_in_dnd_schedule(schedule) {
                return NotificationDisposition::SuppressedSchedule;
            }
        }
        let payload = NotificationPayload {
            id: data.id.clone(),
            title: data.title.clone(),
            body: data.body.clone(),
            icon_path: clone_opt_string(&data.icon_url),
            conversation_id: clone_opt_string(&data.conversation_id),
            sender_name: clone_opt_string(&data.sender_name),
            silent: data.silent,
        };
        NotificationDisposition::Show(
            payload,
            self.settings.sound_enabled,
            clone_opt_string(&self.settings.sound_path),
        )
    }

    /// Turns Do Not Disturb on or off.
    pub fn set_dnd(&mut self, enabled: bool)
        ensures
            final(self).settings == (NotificationSettings {
                do_not_disturb: enabled,
                ..old(self).settings
            }),
            final(self).temporary_icons == old(self).temporary_icons,
    {
        self.settings.do_not_disturb = enabled;
    }

    /// Flips Do Not Disturb and reports the new value.
    pub fn toggle_dnd(&mut self) -> (r: bool)
        ensures
            r == !old(self).settings.do_not_disturb,
            final(self).settings == (NotificationSettings {
                do_not_disturb: r,
                ..old(self).settings
            }),
            final(self).temporary_icons == old(self).temporary_icons,
    {
        let new_value = !self.settings.do_not_disturb;
        self.settings.do_not_disturb = new_value;
        new_value
    }

    /// Turns notifications on or off.
    pub fn set_enabled(&mut self, enabled: bool)
        ensures
            final(self).settings == (NotificationSettings {
                enabled: enabled,
                ..old(self).settings
            }),
            final(self).temporary_icons == old(self).temporary_icons,
    {
        self.settings.enabled = enabled;
    }

    /// Turns notification sound on or off.
    pub fn set_sound_enabled(&mut self, enabled: bool)
        ensures
            final(self).settings == (NotificationSettings {
                sound_enabled: enabled,
                ..old(self).settings
            }),
            final(self).temporary_icons == old(self).temporary_icons,
    {
        self.settings.sound_enabled = enabled;
    }

    /// Turns message previews on or off.
    pub fn set_show_preview(&mut self, enabled: bool)
        ensures
            final(self).settings == (NotificationSettings {
                show_preview: enabled,
                ..old(self).settings
            }),
            final(self).temporary_icons == old(self).temporary_icons,
    {
        self.settings.show_preview = enabled;
    }

    /// Turns quick reply on or off.
    pub fn set_quick_reply_enabled(&mut self, enabled: bool)
        ensures
            final(self).settings == (NotificationSettings {
                quick_reply_enabled: enabled,
                ..old(self).settings
            }),
            final(self).temporary_icons == old(self).temporary_icons,
    {
        self.settings.quick_reply_enabled = enabled;
    }

    /// Sets the notification sound to a file the host has checked for
    /// existence; a missing file is rejected and changes nothing.
    pub fn set_notification_sound(&mut self, path: String, file_exists: bool) -> (r: Result<
        (),
        NotificationError,
    >)
        ensures
            file_exists ==> r is Ok && final(self).settings == (NotificationSettings {
                sound_path: Some(path),
                ..old(self).settings
            }),
            !file_exists ==> r == Err::<(), NotificationError>(
                NotificationError::SoundFileMissing,
            ) && *final(self) == *old(self),
            final(self).temporary_icons == old(self).temporary_icons,
    {
        if !file_exists {
            return Err(NotificationError::SoundFileMissing);
        }
        self.settings.sound_path = Some(path);
        Ok(())
    }

    /// The current settings.
    pub fn get_settings(&self) -> (r: &NotificationSettings)
        ensures
            r == &self.settings,
    {
        &self.settings
    }

    /// Remembers a temporary icon file for later cleanup.
    pub fn remember_icon(&mut self, path: String)
        ensures
            final(self).settings == old(self).settings,
            final(self).temporary_icons@ == old(self).temporary_icons@.push(path),
    {
        self.temporary_icons.push(path);
    }

    /// Forgets all temporary icon files and hands them back so the host can
    /// delete them.
    pub fn cleanup(&mut self) -> (r: Vec<String>)
        ensures
            final(self).settings == old(self).settings,
            final(self).temporary_icons@.len() == 0,
            r == old(self).temporary_icons,
    {
        let mut out: Vec<String> = Vec::new();
        core::mem::swap(&mut out, &mut self.temporary_icons);
        out
    }
}

/// The image element of a toast, when the payload carries an icon.
pub open spec fn toast_icon_xml(icon_path: Option<String>) -> Seq<char> {
    match icon_path {
        None => Seq::<char>::empty(),
        Some(icon) => "<image id=\"1\" src=\""@ + icon@ + "\"/>"@,
    }
}

/// The text elements of a toast: sender and body when a sender is known,
/// the body alone otherwise.
pub open spec fn toast_body_xml(sender_name: Option<String>, body: Seq<char>) -> Seq<char> {
    match sender_name {
        None => "<text id=\"1\">"@ + body + "</text>"@,
        Some(sender) => "<text id=\"1\">"@ + sender@ + "</text>\n            <text id=\"2\">"@
            + body + "</text>"@,
    }
}

/// The whole toast document around title, text elements and icon element.
pub open spec fn toast_xml_spec(title: Seq<char>, body_xml: Seq<char>, icon_xml: Seq<char>) -> Seq<
    char,
> {
    "<?xml version=\"1.0\" encoding=\"utf-8\"?>\n<toast>\n    <visual>\n        <binding template=\"ToastGeneric\">\n            <text>"@
        + title + "</text>\n            "@ + body_xml + "\n            "@ + icon_xml
        + "\n        </binding>\n    </visual>\n</toast>"@
}

/// The toast XML document the host hands to the OS notification API.
pub fn create_toast_xml(payload: &NotificationPayload) -> (r: String)
    ensures
        r@ == toast_xml_spec(
            payload.title@,
            toast_body_xml(payload.sender_name, payload.body@),
            toast_icon_xml(payload.icon_path),
        ),
{
    let icon_xml: String = match &payload.icon_path {
        None => String::new(),
        Some(icon) => {
            let s = crate::strutil::concat2("<image id=\"1\" src=\"", icon.as_str());
            crate::strutil::concat2(s.as_str(), "\"/>")
        },
    };
    let body_xml: String = match &payload.sender_name {
        None => {
            let s = crate::strutil::concat2("<text id=\"1\">", payload.body.as_str());
            crate::strutil::concat2(s.as_str(), "</text>")
        },
        Some(sender) => {
            let s = crate::strutil::concat2("<text id=\"1\">", sender.as_str());
            let s = crate::strutil::concat2(s.as_str(), "</text>\n            <text id=\"2\">");
            let s = crate::strutil::concat2(s.as_str(), payload.body.as_str());
            crate::strutil::concat2(s.as_str(), "</text>")
        },
    };
    let s = crate::strutil::concat2(
        "<?xml version=\"1.0\" encoding=\"utf-8\"?>\n<toast>\n    <visual>\n        <binding template=\"ToastGeneric\">\n            <text>",
        payload.title.as_str(),
    );
    let s = crate::strutil::concat2(s.as_str(), "</text>\n            ");
    let s = crate::strutil::concat2(s.as_str(), body_xml.as_str());
    let s = crate::strutil::concat2(s.as_str(), "\n            ");
    let s = crate::strutil::concat2(s.as_str(), icon_xml.as_str());
    crate::strutil::concat2(s.as_str(), "\n        </binding>\n    </visual>\n</toast>")
}

/// A copy of an optional string, character for character.
fn clone_opt_string(s: &Option<String>) -> (r: Option<String>)
    ensures
        r == *s,
{
    match s {
        None => None,
        Some(v) => Some(v.clone()),
    }
}

} // verus!
