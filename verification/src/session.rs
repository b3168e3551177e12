//! The client's interactive state: the profile dialog, the settings panel,
//! the error queue, and hosting or watching a room.

use vstd::prelude::*;

use std::collections::VecDeque;

use crate::capture::{sources_view, titled_windows, titled_windows_of, StreamTarget};
use crate::endpoint::{new_room_url, new_room_url_of, HTTP_SERVER_URL};
use crate::link::{invite_link, invite_scheme};
use crate::pacing::frame_delay_of;
use crate::text::{trim, trimmed};

verus! {

/// An error shown to the user, oldest first, until dismissed.
pub struct UiError {
    pub title: String,
    pub message: String,
}

/// An error as its title and message.
pub open spec fn error_view(e: UiError) -> (Seq<char>, Seq<char>) {
    (e.title@, e.message@)
}

/// The error shown when a host cannot reach the relay.
pub fn hosting_failure(detail: &str) -> (e: UiError)
    ensures
        e.title@ == "Hosting Connection Failed"@,
        e.message@ == "URL Configuration Error: "@ + detail@ + ". Check formatting strings."@,
{
    let mut message = String::from_str("URL Configuration Error: ");
    message.append(detail);
    message.append(". Check formatting strings.");
    UiError { title: String::from_str("Hosting Connection Failed"), message }
}

/// The error shown when a viewer cannot reach the relay.
pub fn join_failure(url: &str) -> (e: UiError)
    ensures
        e.title@ == "Join Error"@,
        e.message@ == "Connection failed: "@ + url@,
{
    let mut message = String::from_str("Connection failed: ");
    message.append(url);
    UiError { title: String::from_str("Join Error"), message }
}

/// The user name a session starts with: the saved one, or a placeholder
/// when none could be read.
pub fn initial_username(saved: Option<String>) -> (r: String)
    ensures
        saved matches Some(name) ==> r@ == name@,
        saved is None ==> r@ == "This is a Username btw"@,
{
    match saved {
        Some(name) => name,
        None => String::from_str("This is a Username btw"),
    }
}

/// The lowest frame rate the settings offer.
pub const MIN_FPS: u32 = 15;

/// The highest frame rate the settings offer, and the one a session starts with.
pub const MAX_FPS: u32 = 60;

/// The client's state, by its views.
pub struct SessionView {
    pub username: Seq<char>,
    pub room_code: Seq<char>,
    pub input_room_code: Seq<char>,
    pub max_fps: u32,
    pub target: StreamTarget,
    pub is_hosting: bool,
    pub is_watching: bool,
    pub settings_open: bool,
    pub username_modal_open: bool,
    pub has_texture: bool,
    pub frame_pending: bool,
    pub connected_users: Seq<Seq<char>>,
    pub errors: Seq<(Seq<char>, Seq<char>)>,
    pub monitors: Seq<(u32, Seq<char>)>,
    pub windows: Seq<(u32, Seq<char>)>,
}

/// A step's request to the surrounding program.
pub enum Effect {
    /// Nothing to do.
    Nothing,
    /// Store the user name for the next start.
    SaveUsername(String),
    /// List the monitors and windows that can be captured.
    ListSources,
    /// Publish the pause between frames, in milliseconds.
    StoreFrameDelay(u64),
    /// Ask the server at this URL for a new room code.
    RequestRoomCode(String),
    /// Put this text on the clipboard.
    CopyToClipboard(String),
    /// Start streaming to this room as this user.
    StartHosting { room: String, user: String },
    /// Start watching this room as this user.
    StartWatching { room: String, user: String },
    /// Stop streaming.
    StopHosting,
    /// Stop watching.
    StopWatching,
}

/// Whether the hosting flag after an effect is raised: raised by a start,
/// lowered by a stop, else as before.
pub open spec fn hosting_after(e: Effect, hosting: bool) -> bool {
    match e {
        Effect::StartHosting { .. } => true,
        Effect::StopHosting => false,
        _ => hosting,
    }
}

/// Whether the watching flag after an effect is raised: raised by a start,
/// lowered by a stop, else as before.
pub open spec fn watching_after(e: Effect, watching: bool) -> bool {
    match e {
        Effect::StartWatching { .. } => true,
        Effect::StopWatching => false,
        _ => watching,
    }
}

/// The running flags of the capture and viewing loops agree with the
/// session: a raised flag belongs to a session that hosts or watches.
pub open spec fn runs_within(v: SessionView, hosting: bool, watching: bool) -> bool {
    (hosting ==> v.is_hosting) && (watching ==> v.is_watching)
}

impl SessionView {
    /// The invariant of every session: it never hosts and watches at once,
    /// and its frame rate is one the settings offer.
    pub open spec fn valid(self) -> bool {
        &&& !(self.is_hosting && self.is_watching)
        &&& MIN_FPS <= self.max_fps <= MAX_FPS
    }

    /// The main window is shown (the profile dialog is closed).
    pub open spec fn shows_main(self) -> bool {
        !self.username_modal_open
    }

    /// Neither hosting nor watching.
    pub open spec fn is_idle(self) -> bool {
        !self.is_hosting && !self.is_watching
    }

    /// After typing a name into the profile dialog.
    pub open spec fn edited_username(self, name: Seq<char>) -> SessionView {
        if self.username_modal_open {
            SessionView { username: name, ..self }
        } else {
            self
        }
    }

    /// After saving the profile dialog.
    pub open spec fn saved_profile(self) -> SessionView {
        if self.username_modal_open {
            SessionView { username_modal_open: false, ..self }
        } else {
            self
        }
    }

    /// After clicking the settings button.
    pub open spec fn toggled_settings(self) -> SessionView {
        if self.shows_main() {
            SessionView { settings_open: !self.settings_open, ..self }
        } else {
            self
        }
    }

    /// After the capture sources are listed.
    pub open spec fn with_sources(
        self,
        monitors: Seq<(u32, Seq<char>)>,
        windows: Seq<(u32, Seq<char>)>,
    ) -> SessionView {
        SessionView { monitors, windows: titled_windows(windows), ..self }
    }

    /// The target is one of the listed sources.
    pub open spec fn lists(self, target: StreamTarget) -> bool {
        match target {
            StreamTarget::Monitor(id) => exists|i: int|
                0 <= i < self.monitors.len() && #[trigger] self.monitors[i].0 == id,
            StreamTarget::Window(id) => exists|i: int|
                0 <= i < self.windows.len() && #[trigger] self.windows[i].0 == id,
        }
    }

    /// After picking a source in the settings panel.
    pub open spec fn selected(self, target: StreamTarget) -> SessionView {
        if self.shows_main() && self.settings_open && self.lists(target) {
            SessionView { target, ..self }
        } else {
            self
        }
    }

    /// A frame rate the slider takes: a different value in the offered range.
    pub open spec fn takes_fps(self, fps: u32) -> bool {
        &&& self.shows_main()
        &&& self.settings_open
        &&& MIN_FPS <= fps <= MAX_FPS
        &&& fps != self.max_fps
    }

    /// After moving the frame-rate slider.
    pub open spec fn with_fps(self, fps: u32) -> SessionView {
        if self.takes_fps(fps) {
            SessionView { max_fps: fps, ..self }
        } else {
            self
        }
    }

    /// After closing the settings panel.
    pub open spec fn closed_settings(self) -> SessionView {
        if self.shows_main() {
            SessionView { settings_open: false, ..self }
        } else {
            self
        }
    }

    /// After an error is queued.
    pub open spec fn reported(self, e: (Seq<char>, Seq<char>)) -> SessionView {
        SessionView { errors: self.errors.push(e), ..self }
    }

    /// After dismissing the error on screen.
    pub open spec fn dismissed(self) -> SessionView {
        if self.shows_main() && self.errors.len() > 0 {
            SessionView { errors: self.errors.drop_first(), ..self }
        } else {
            self
        }
    }

    /// The "new code" button is shown.
    pub open spec fn can_request_code(self) -> bool {
        self.shows_main() && self.is_idle()
    }

    /// After the server answers a room request.
    pub open spec fn with_room_code(self, reply: Seq<char>) -> SessionView {
        SessionView { room_code: trimmed(reply), ..self }
    }

    /// A "copy invite link" button is shown.
    pub open spec fn can_copy_invite(self) -> bool {
        self.shows_main() && ((self.is_idle() && self.room_code.len() > 0) || self.is_hosting)
    }

    /// The "start live feed" button is shown.
    pub open spec fn can_start_feed(self) -> bool {
        self.shows_main() && self.is_idle() && self.room_code.len() > 0
    }

    /// After clicking "start live feed".
    pub open spec fn started_feed(self) -> SessionView {
        if self.can_start_feed() {
            SessionView { is_hosting: true, ..self }
        } else {
            self
        }
    }

    /// After typing into the room field.
    pub open spec fn edited_room_input(self, text: Seq<char>) -> SessionView {
        if self.shows_main() && self.is_idle() {
            SessionView { input_room_code: text, ..self }
        } else {
            self
        }
    }

    /// A click on "join stream" takes effect.
    pub open spec fn can_join(self) -> bool {
        self.shows_main() && self.is_idle() && self.input_room_code.len() > 0
    }

    /// After clicking "join stream".
    pub open spec fn joined(self) -> SessionView {
        if self.can_join() {
            SessionView { is_watching: true, ..self }
        } else {
            self
        }
    }

    /// After clicking "stop feed".
    pub open spec fn stopped_feed(self) -> SessionView {
        if self.shows_main() && self.is_hosting {
            SessionView { is_hosting: false, ..self }
        } else {
            self
        }
    }

    /// After clicking "leave feed": watching stops, and the rest of that
    /// repaint still takes a waiting frame, which becomes the picture.
    pub open spec fn left_feed(self) -> SessionView {
        if self.shows_main() && self.is_watching {
            SessionView {
                is_watching: false,
                has_texture: self.frame_pending,
                frame_pending: false,
                ..self
            }
        } else {
            self
        }
    }

    /// After a received frame is stored.
    pub open spec fn frame_arrived(self) -> SessionView {
        SessionView { frame_pending: true, ..self }
    }

    /// A repaint takes the waiting frame.
    pub open spec fn takes_frame(self) -> bool {
        self.shows_main() && self.is_watching && self.frame_pending
    }

    /// After a repaint.
    pub open spec fn repainted(self) -> SessionView {
        if self.takes_frame() {
            SessionView { has_texture: true, frame_pending: false, ..self }
        } else {
            self
        }
    }

    /// After the host learns who is connected.
    pub open spec fn with_users(self, users: Seq<Seq<char>>) -> SessionView {
        SessionView { connected_users: users, ..self }
    }
}

/// The client's state.
pub struct Session {
    pub username: String,
    pub room_code: String,
    pub input_room_code: String,
    pub max_fps: u32,
    pub target: StreamTarget,
    pub is_hosting: bool,
    pub is_watching: bool,
    pub settings_open: bool,
    pub username_modal_open: bool,
    pub has_texture: bool,
    pub frame_pending: bool,
    pub connected_users: Vec<String>,
    pub errors: VecDeque<UiError>,
    pub monitors: Vec<(u32, String)>,
    pub windows: Vec<(u32, String)>,
}

/// Names by their views.
pub open spec fn names_view(v: Seq<String>) -> Seq<Seq<char>> {
    v.map_values(|s: String| s@)
}

impl View for Session {
    type V = SessionView;

    open spec fn view(&self) -> SessionView {
        SessionView {
            username: self.username@,
            room_code: self.room_code@,
            input_room_code: self.input_room_code@,
            max_fps: self.max_fps,
            target: self.target,
            is_hosting: self.is_hosting,
            is_watching: self.is_watching,
            settings_open: self.settings_open,
            username_modal_open: self.username_modal_open,
            has_texture: self.has_texture,
            frame_pending: self.frame_pending,
            connected_users: names_view(self.connected_users@),
            errors: self.errors@.map_values(|e: UiError| error_view(e)),
            monitors: sources_view(self.monitors@),
            windows: sources_view(self.windows@),
        }
    }
}

impl Session {
    /// A session as the program starts it: the profile dialog open, the
    /// user name as saved, the join field prefilled, 60 frames per second,
    /// the given target, and nothing else set.
    pub fn new(username: String, initial_room: String, target: StreamTarget) -> (s: Session)
        ensures
            s@ == (SessionView {
                username: username@,
                room_code: Seq::empty(),
                input_room_code: initial_room@,
                max_fps: MAX_FPS,
                target,
                is_hosting: false,
                is_watching: false,
                settings_open: false,
                username_modal_open: true,
                has_texture: false,
                frame_pending: false,
                connected_users: Seq::empty(),
                errors: Seq::empty(),
                monitors: Seq::empty(),
                windows: Seq::empty(),
            }),
            s@.valid(),
    {
        let s = Session {
            username,
            room_code: String::new(),
            input_room_code: initial_room,
            max_fps: MAX_FPS,
            target,
            is_hosting: false,
            is_watching: false,
            settings_open: false,
            username_modal_open: true,
            has_texture: false,
            frame_pending: false,
            connected_users: Vec::new(),
            errors: VecDeque::new(),
            monitors: Vec::new(),
            windows: Vec::new(),
        };
        assert(s@.connected_users =~= Seq::empty());
        assert(s@.errors =~= Seq::empty());
        assert(s@.monitors =~= Seq::empty());
        assert(s@.windows =~= Seq::empty());
        s
    }

    /// Types into the user name field of the profile dialog.
    pub fn edit_username(&mut self, name: String)
        requires
            old(self)@.valid(),
        ensures
            final(self)@ == old(self)@.edited_username(name@),
            final(self)@.valid(),
    {
        if self.username_modal_open {
            self.username = name;
        }
    }

    /// Clicks "save" in the profile dialog: the dialog closes and the user
    /// name is stored.
    pub fn save_profile(&mut self) -> (r: Effect)
        requires
            old(self)@.valid(),
        ensures
            final(self)@ == old(self)@.saved_profile(),
            final(self)@.valid(),
            old(self).username_modal_open ==> (r matches Effect::SaveUsername(name) && name@
                == old(self)@.username),
            !old(self).username_modal_open ==> r is Nothing,
            forall|h: bool, w: bool|
                #[trigger] runs_within(old(self)@, h, w) ==> runs_within(
                    final(self)@,
                    hosting_after(r, h),
                    watching_after(r, w),
                ),
    {
        if self.username_modal_open {
            self.username_modal_open = false;
            Effect::SaveUsername(self.username.clone())
        } else {
            Effect::Nothing
        }
    }

    /// Clicks the settings button: the panel opens or closes; on opening,
    /// the capture sources are listed anew.
    pub fn toggle_settings(&mut self) -> (r: Effect)
        requires
            old(self)@.valid(),
        ensures
            final(self)@ == old(self)@.toggled_settings(),
            final(self)@.valid(),
            (old(self)@.shows_main() && !old(self).settings_open) ==> r is ListSources,
            !(old(self)@.shows_main() && !old(self).settings_open) ==> r is Nothing,
            forall|h: bool, w: bool|
                #[trigger] runs_within(old(self)@, h, w) ==> runs_within(
                    final(self)@,
                    hosting_after(r, h),
                    watching_after(r, w),
                ),
    {
        if self.username_modal_open {
            return Effect::Nothing;
        }
        self.settings_open = !self.settings_open;
        if self.settings_open {
            Effect::ListSources
        } else {
            Effect::Nothing
        }
    }

    /// Takes the listed capture sources: all monitors, and the windows
    /// whose title is not blank.
    pub fn set_sources(&mut self, monitors: Vec<(u32, String)>, windows: Vec<(u32, String)>)
        requires
            old(self)@.valid(),
        ensures
            final(self)@ == old(self)@.with_sources(sources_view(monitors@), sources_view(windows@)),
            final(self)@.valid(),
    {
        self.monitors = monitors;
        self.windows = titled_windows_of(&windows);
    }

    /// Whether the target is one of the listed sources.
    pub fn lists(&self, target: StreamTarget) -> (r: bool)
        ensures
            r == self@.lists(target),
    {
        let ghost v = self@;
        match target {
            StreamTarget::Monitor(id) => {
                let mut i: usize = 0;
                while i < self.monitors.len()
                    invariant
                        v == self@,
                        target == StreamTarget::Monitor(id),
                        0 <= i <= v.monitors.len(),
                        forall|k: int| 0 <= k < i ==> v.monitors[k].0 != id,
                    decreases v.monitors.len() - i,
                {
                    assert(v.monitors[i as int].0 == self.monitors@[i as int].0);
                    if self.monitors[i].0 == id {
                        assert(v.monitors[i as int].0 == id);
                        assert(0 <= i < v.monitors.len());
                        return true;
                    }
                    i = i + 1;
                }
                false
            },
            StreamTarget::Window(id) => {
                let mut i: usize = 0;
                while i < self.windows.len()
                    invariant
                        v == self@,
                        target == StreamTarget::Window(id),
                        0 <= i <= v.windows.len(),
                        forall|k: int| 0 <= k < i ==> v.windows[k].0 != id,
                    decreases v.windows.len() - i,
                {
                    assert(v.windows[i as int].0 == self.windows@[i as int].0);
                    if self.windows[i].0 == id {
                        assert(v.windows[i as int].0 == id);
                        assert(0 <= i < v.windows.len());
                        return true;
                    }
                    i = i + 1;
                }
                false
            },
        }
    }

    /// Picks a listed monitor or window in the settings panel.
    pub fn select_target(&mut self, target: StreamTarget)
        requires
            old(self)@.valid(),
        ensures
            final(self)@ == old(self)@.selected(target),
            final(self)@.valid(),
    {
        if !self.username_modal_open && self.settings_open && self.lists(target) {
            self.target = target;
        }
    }

    /// Moves the frame-rate slider: a new rate in the offered range is taken
    /// and the matching pause between frames is published.
    pub fn set_max_fps(&mut self, fps: u32) -> (r: Effect)
        requires
            old(self)@.valid(),
        ensures
            final(self)@ == old(self)@.with_fps(fps),
            final(self)@.valid(),
            old(self)@.takes_fps(fps) ==> (r matches Effect::StoreFrameDelay(ms) && ms
                == frame_delay_of(fps)),
            !old(self)@.takes_fps(fps) ==> r is Nothing,
            forall|h: bool, w: bool|
                #[trigger] runs_within(old(self)@, h, w) ==> runs_within(
                    final(self)@,
                    hosting_after(r, h),
                    watching_after(r, w),
                ),
    {
        if !self.username_modal_open && self.settings_open && MIN_FPS <= fps && fps <= MAX_FPS
            && fps != self.max_fps {
            self.max_fps = fps;
            Effect::StoreFrameDelay(1000 / (fps as u64))
        } else {
            Effect::Nothing
        }
    }

    /// Clicks "close panel" in the settings panel.
    pub fn close_settings(&mut self)
        requires
            old(self)@.valid(),
        ensures
            final(self)@ == old(self)@.closed_settings(),
            final(self)@.valid(),
    {
        if !self.username_modal_open {
            self.settings_open = false;
        }
    }

    /// Queues an error behind those already shown.
    pub fn report_error(&mut self, e: UiError)
        requires
            old(self)@.valid(),
        ensures
            final(self)@ == old(self)@.reported(error_view(e)),
            final(self)@.valid(),
    {
        self.errors.push_back(e);
        assert(self@.errors =~= old(self)@.errors.push(error_view(e)));
    }

    /// The error on screen: the oldest queued one, while the main window is
    /// shown.
    pub fn current_error(&self) -> (r: Option<&UiError>)
        ensures
            (self@.shows_main() && self@.errors.len() > 0) ==> (r matches Some(e) && error_view(
                *e,
            ) == self@.errors[0]),
            !(self@.shows_main() && self@.errors.len() > 0) ==> r is None,
    {
        if !self.username_modal_open && self.errors.len() > 0 {
            Some(&self.errors[0])
        } else {
            None
        }
    }

    /// Clicks "dismiss" on the error on screen.
    pub fn dismiss_error(&mut self)
        requires
            old(self)@.valid(),
        ensures
            final(self)@ == old(self)@.dismissed(),
            final(self)@.valid(),
    {
        if !self.username_modal_open && self.errors.len() > 0 {
            let _ = self.errors.pop_front();
            assert(self@.errors =~= old(self)@.errors.drop_first());
        }
    }

    /// Clicks "generate connection code": the server is asked for a room.
    pub fn request_room_code(&self) -> (r: Effect)
        ensures
            self@.can_request_code() ==> (r matches Effect::RequestRoomCode(url) && url@
                == new_room_url_of(HTTP_SERVER_URL@)),
            !self@.can_request_code() ==> r is Nothing,
    {
        if !self.username_modal_open && !self.is_hosting && !self.is_watching {
            Effect::RequestRoomCode(new_room_url(HTTP_SERVER_URL))
        } else {
            Effect::Nothing
        }
    }

    /// Takes the server's reply to a room request: its body, trimmed, is the
    /// room code.
    pub fn room_code_received(&mut self, reply: &str)
        requires
            old(self)@.valid(),
        ensures
            final(self)@ == old(self)@.with_room_code(reply@),
            final(self)@.valid(),
    {
        self.room_code = trim(reply);
    }

    /// Clicks a "copy invite link" button: the invite link of the room goes
    /// to the clipboard.
    pub fn copy_invite(&self) -> (r: Effect)
        ensures
            self@.can_copy_invite() ==> (r matches Effect::CopyToClipboard(text) && text@
                == invite_scheme() + self@.room_code),
            !self@.can_copy_invite() ==> r is Nothing,
    {
        if !self.username_modal_open && ((!self.is_hosting && !self.is_watching
            && !self.room_code.as_str().is_empty()) || self.is_hosting) {
            Effect::CopyToClipboard(invite_link(self.room_code.as_str()))
        } else {
            Effect::Nothing
        }
    }

    /// Clicks "start live feed": hosting starts in the room, as the user.
    pub fn start_feed(&mut self) -> (r: Effect)
        requires
            old(self)@.valid(),
        ensures
            final(self)@ == old(self)@.started_feed(),
            final(self)@.valid(),
            old(self)@.can_start_feed() ==> (r matches Effect::StartHosting { room, user } && room@
                == old(self)@.room_code && user@ == old(self)@.username),
            !old(self)@.can_start_feed() ==> r is Nothing,
            forall|h: bool, w: bool|
                #[trigger] runs_within(old(self)@, h, w) ==> runs_within(
                    final(self)@,
                    hosting_after(r, h),
                    watching_after(r, w),
                ),
    {
        if !self.username_modal_open && !self.is_hosting && !self.is_watching
            && !self.room_code.as_str().is_empty() {
            self.is_hosting = true;
            Effect::StartHosting { room: self.room_code.clone(), user: self.username.clone() }
        } else {
            Effect::Nothing
        }
    }

    /// Types into the room field.
    pub fn edit_room_input(&mut self, text: String)
        requires
            old(self)@.valid(),
        ensures
            final(self)@ == old(self)@.edited_room_input(text@),
            final(self)@.valid(),
    {
        if !self.username_modal_open && !self.is_hosting && !self.is_watching {
            self.input_room_code = text;
        }
    }

    /// Clicks "join stream": with a room typed, watching starts in that
    /// room, trimmed, as the user.
    pub fn join_stream(&mut self) -> (r: Effect)
        requires
            old(self)@.valid(),
        ensures
            final(self)@ == old(self)@.joined(),
            final(self)@.valid(),
            old(self)@.can_join() ==> (r matches Effect::StartWatching { room, user } && room@
                == trimmed(old(self)@.input_room_code) && user@ == old(self)@.username),
            !old(self)@.can_join() ==> r is Nothing,
            forall|h: bool, w: bool|
                #[trigger] runs_within(old(self)@, h, w) ==> runs_within(
                    final(self)@,
                    hosting_after(r, h),
                    watching_after(r, w),
                ),
    {
        if !self.username_modal_open && !self.is_hosting && !self.is_watching
            && !self.input_room_code.as_str().is_empty() {
            self.is_watching = true;
            Effect::StartWatching {
                room: trim(self.input_room_code.as_str()),
                user: self.username.clone(),
            }
        } else {
            Effect::Nothing
        }
    }

    /// Clicks "stop feed".
    pub fn stop_feed(&mut self) -> (r: Effect)
        requires
            old(self)@.valid(),
        ensures
            final(self)@ == old(self)@.stopped_feed(),
            final(self)@.valid(),
            (old(self)@.shows_main() && old(self).is_hosting) ==> r is StopHosting,
            !(old(self)@.shows_main() && old(self).is_hosting) ==> r is Nothing,
            forall|h: bool, w: bool|
                #[trigger] runs_within(old(self)@, h, w) ==> runs_within(
                    final(self)@,
                    hosting_after(r, h),
                    watching_after(r, w),
                ),
    {
        if !self.username_modal_open && self.is_hosting {
            self.is_hosting = false;
            Effect::StopHosting
        } else {
            Effect::Nothing
        }
    }

    /// Clicks "leave feed": watching stops; the picture goes, unless a
    /// received frame was waiting, which is taken and shown.
    pub fn leave_feed(&mut self) -> (r: Effect)
        requires
            old(self)@.valid(),
        ensures
            final(self)@ == old(self)@.left_feed(),
            final(self)@.valid(),
            (old(self)@.shows_main() && old(self).is_watching) ==> r is StopWatching,
            !(old(self)@.shows_main() && old(self).is_watching) ==> r is Nothing,
            forall|h: bool, w: bool|
                #[trigger] runs_within(old(self)@, h, w) ==> runs_within(
                    final(self)@,
                    hosting_after(r, h),
                    watching_after(r, w),
                ),
    {
        if !self.username_modal_open && self.is_watching {
            self.is_watching = false;
            self.has_texture = self.frame_pending;
            self.frame_pending = false;
            Effect::StopWatching
        } else {
            Effect::Nothing
        }
    }

    /// A received frame waits to be shown.
    pub fn frame_arrived(&mut self)
        requires
            old(self)@.valid(),
        ensures
            final(self)@ == old(self)@.frame_arrived(),
            final(self)@.valid(),
    {
        self.frame_pending = true;
    }

    /// A repaint: while watching, the waiting frame becomes the picture.
    /// Returns whether it did.
    pub fn repaint(&mut self) -> (r: bool)
        requires
            old(self)@.valid(),
        ensures
            final(self)@ == old(self)@.repainted(),
            final(self)@.valid(),
            r == old(self)@.takes_frame(),
    {
        if !self.username_modal_open && self.is_watching && self.frame_pending {
            self.has_texture = true;
            self.frame_pending = false;
            true
        } else {
            false
        }
    }

    /// Takes the list of users connected to the hosted room.
    pub fn users_listed(&mut self, users: Vec<String>)
        requires
            old(self)@.valid(),
        ensures
            final(self)@ == old(self)@.with_users(names_view(users@)),
            final(self)@.valid(),
    {
        self.connected_users = users;
    }
}

} // verus!
