//! What the platform is configured with, and the fatal condition it may be
//! in.

use vstd::prelude::*;
use vstd::string::*;

verus! {

/// How much the native library logs.
#[derive(Debug, Clone, Copy, PartialEq, Eq, Structural)]
pub enum TraceLevel {
    Off,
    Error,
    Warn,
    Info,
    Debug,
    Trace,
    All,
}

impl TraceLevel {
    /// The number of the level in the native library, which counts from the
    /// most talkative level up and keeps one number for a level of its own.
    pub open spec fn spec_native_level(self) -> i32 {
        match self {
            TraceLevel::All => 0,
            TraceLevel::Trace => 1,
            TraceLevel::Debug => 2,
            TraceLevel::Info => 3,
            TraceLevel::Warn => 4,
            TraceLevel::Error => 5,
            TraceLevel::Off => 7,
        }
    }

    /// The number that the native library knows the level by.
    pub fn native_level(self) -> (n: i32)
        ensures
            n == self.spec_native_level(),
    {
        match self {
            TraceLevel::All => 0,
            TraceLevel::Trace => 1,
            TraceLevel::Debug => 2,
            TraceLevel::Info => 3,
            TraceLevel::Warn => 4,
            TraceLevel::Error => 5,
            TraceLevel::Off => 7,
        }
    }
}

/// Why the process ends, when it ends on a failure. Each reason has an exit
/// code of its own, so that a calling script can tell them apart.
#[derive(Debug, Clone, Copy, PartialEq, Eq, Structural)]
pub enum ExitErrCode {
    EffectNotPermitted,
    NotYetImplemented,
    WebRTCConnectionError,
    WebRTCConnectionDisconnected,
    ErrFromRocInit,
    ErrFromRocRender,
    ResourceHeapFull,
}

impl ExitErrCode {
    /// The exit code of each reason.
    pub open spec fn spec_code(self) -> i32 {
        match self {
            ExitErrCode::EffectNotPermitted => 1,
            ExitErrCode::NotYetImplemented => 2,
            ExitErrCode::WebRTCConnectionError => 3,
            ExitErrCode::WebRTCConnectionDisconnected => 4,
            ExitErrCode::ErrFromRocInit => 5,
            ExitErrCode::ErrFromRocRender => 6,
            ExitErrCode::ResourceHeapFull => 7,
        }
    }

    /// The name of each reason, as the diagnostic screen shows it.
    pub open spec fn spec_name(self) -> Seq<char> {
        match self {
            ExitErrCode::EffectNotPermitted => "EffectNotPermitted"@,
            ExitErrCode::NotYetImplemented => "NotYetImplemented"@,
            ExitErrCode::WebRTCConnectionError => "WebRTCConnectionError"@,
            ExitErrCode::WebRTCConnectionDisconnected => "WebRTCConnectionDisconnected"@,
            ExitErrCode::ErrFromRocInit => "ErrFromRocInit"@,
            ExitErrCode::ErrFromRocRender => "ErrFromRocRender"@,
            ExitErrCode::ResourceHeapFull => "ResourceHeapFull"@,
        }
    }

    /// The exit code of the reason.
    pub fn code(self) -> (c: i32)
        ensures
            c == self.spec_code(),
    {
        match self {
            ExitErrCode::EffectNotPermitted => 1,
            ExitErrCode::NotYetImplemented => 2,
            ExitErrCode::WebRTCConnectionError => 3,
            ExitErrCode::WebRTCConnectionDisconnected => 4,
            ExitErrCode::ErrFromRocInit => 5,
            ExitErrCode::ErrFromRocRender => 6,
            ExitErrCode::ResourceHeapFull => 7,
        }
    }

    /// The name of the reason, as the diagnostic screen shows it.
    pub fn name(self) -> (s: &'static str)
        ensures
            s@ == self.spec_name(),
    {
        match self {
            ExitErrCode::EffectNotPermitted => "EffectNotPermitted",
            ExitErrCode::NotYetImplemented => "NotYetImplemented",
            ExitErrCode::WebRTCConnectionError => "WebRTCConnectionError",
            ExitErrCode::WebRTCConnectionDisconnected => "WebRTCConnectionDisconnected",
            ExitErrCode::ErrFromRocInit => "ErrFromRocInit",
            ExitErrCode::ErrFromRocRender => "ErrFromRocRender",
            ExitErrCode::ResourceHeapFull => "ResourceHeapFull",
        }
    }
}

/// The exit codes are small and positive, and two reasons never share one.
pub proof fn lemma_exit_codes_are_distinct(a: ExitErrCode, b: ExitErrCode)
    ensures
        1 <= a.spec_code() <= 7,
        a.spec_code() == b.spec_code() ==> a == b,
{
}

/// The settings of the platform and the state that the effects leave for the
/// next frame.
pub struct Config {
    pub title: String,
    pub width: i32,
    pub height: i32,
    /// An effect asked for the session to end.
    pub should_exit: bool,
    /// The fatal condition, if there is one: its message and its reason.
    pub should_exit_msg_code: Option<(String, ExitErrCode)>,
    pub fps_show: bool,
    pub fps_target: i32,
    /// The target frame rate was changed and is not applied yet.
    pub fps_target_dirty: bool,
    pub fps_position: (i32, i32),
    pub trace_log_level: TraceLevel,
    pub network_web_rtc_url: Option<String>,
}

impl Config {
    /// The settings a session starts with.
    pub open spec fn is_initial(&self) -> bool {
        &&& self.title@ == "Loading roc-ray app..."@
        &&& self.width == 200
        &&& self.height == 50
        &&& !self.should_exit
        &&& self.should_exit_msg_code is None
        &&& !self.fps_show
        &&& self.fps_target == 60
        &&& !self.fps_target_dirty
        &&& self.fps_position == (10i32, 10i32)
        &&& self.trace_log_level == TraceLevel::Info
        &&& self.network_web_rtc_url is None
    }

    /// The settings a session starts with.
    pub fn new() -> (c: Config)
        ensures
            c.is_initial(),
    {
        Config {
            title: String::from_str("Loading roc-ray app..."),
            width: 200,
            height: 50,
            should_exit: false,
            should_exit_msg_code: None,
            fps_show: false,
            fps_target: 60,
            fps_target_dirty: false,
            fps_position: (10, 10),
            trace_log_level: TraceLevel::Info,
            network_web_rtc_url: None,
        }
    }

    /// `other` differs from `self` in nothing but the fatal condition and the
    /// request to end.
    pub open spec fn same_settings(&self, other: &Config) -> bool {
        &&& self.title == other.title
        &&& self.width == other.width
        &&& self.height == other.height
        &&& self.fps_show == other.fps_show
        &&& self.fps_target == other.fps_target
        &&& self.fps_target_dirty == other.fps_target_dirty
        &&& self.fps_position == other.fps_position
        &&& self.trace_log_level == other.trace_log_level
        &&& self.network_web_rtc_url == other.network_web_rtc_url
    }

    /// Records a fatal condition. A later one takes the place of an earlier
    /// one; the frame loop shows the one that stands when it looks.
    pub fn set_fatal(&mut self, msg: String, code: ExitErrCode)
        ensures
            final(self).should_exit_msg_code == Some((msg, code)),
            final(self).should_exit == old(self).should_exit,
            old(self).same_settings(final(self)),
    {
        self.should_exit_msg_code = Some((msg, code));
    }

    /// Asks for the session to end after this frame.
    pub fn request_exit(&mut self)
        ensures
            final(self).should_exit,
            final(self).should_exit_msg_code == old(self).should_exit_msg_code,
            old(self).same_settings(final(self)),
    {
        self.should_exit = true;
    }

    /// Sets the title and the size of the window that is about to be made.
    pub fn set_window(&mut self, title: String, width: i32, height: i32)
        ensures
            *final(self) == (Config { title, width, height, ..*old(self) }),
    {
        self.title = title;
        self.width = width;
        self.height = height;
    }

    /// Sets a new target frame rate, to be applied at the next frame.
    pub fn set_target_fps(&mut self, rate: i32)
        ensures
            *final(self) == (Config { fps_target: rate, fps_target_dirty: true, ..*old(self) }),
    {
        self.fps_target_dirty = true;
        self.fps_target = rate;
    }

    /// The target frame rate to apply now, if it was changed since it was
    /// last applied. It then counts as applied.
    pub fn take_target_fps(&mut self) -> (rate: Option<i32>)
        ensures
            *final(self) == (Config { fps_target_dirty: false, ..*old(self) }),
            old(self).fps_target_dirty ==> rate == Some(old(self).fps_target),
            !old(self).fps_target_dirty ==> rate is None,
    {
        if self.fps_target_dirty {
            self.fps_target_dirty = false;
            Some(self.fps_target)
        } else {
            None
        }
    }

    /// Switches the frame-rate overlay on or off and places it.
    pub fn set_draw_fps(&mut self, show: bool, position: (i32, i32))
        ensures
            *final(self) == (Config { fps_show: show, fps_position: position, ..*old(self) }),
    {
        self.fps_show = show;
        self.fps_position = position;
    }

    /// Where to draw the frame-rate overlay in this frame, if it is on.
    pub fn fps_overlay(&self) -> (at: Option<(i32, i32)>)
        ensures
            at == if self.fps_show {
                Some(self.fps_position)
            } else {
                None
            },
    {
        if self.fps_show {
            Some(self.fps_position)
        } else {
            None
        }
    }

    /// Sets the room that the network bridge is to join.
    pub fn set_network_url(&mut self, url: String)
        ensures
            *final(self) == (Config { network_web_rtc_url: Some(url), ..*old(self) }),
    {
        self.network_web_rtc_url = Some(url);
    }
}

} // verus!
