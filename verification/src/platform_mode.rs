//! The effect-permission state machine.
//!
//! The platform is in exactly one [`PlatformMode`] at a time. Every effect the
//! application requests is checked against the mode: it is either permitted,
//! possibly moving the platform to another mode, or denied with a message
//! that names the effect and the mode.

use vstd::prelude::*;
use vstd::string::*;

verus! {

/// The phase the platform is in.
#[derive(Debug, Clone, Copy, PartialEq, Eq, Structural)]
pub enum PlatformMode {
    /// Before the native window exists.
    Init,
    /// The window and the devices exist, the application has not started.
    InitRaylib,
    /// Steady state, no drawing target is open.
    Render,
    /// An off-screen render target is open.
    TextureMode,
    /// An off-screen render target is open and a camera transform is applied.
    TextureModeDraw2D,
    /// The main framebuffer is open.
    FramebufferMode,
    /// The main framebuffer is open and a camera transform is applied.
    FramebufferModeDraw2D,
}

/// The operations the application may request from the platform.
#[derive(Debug, Clone, Copy, PartialEq, Eq, Structural)]
pub enum PlatformEffect {
    BeginDrawingFramebuffer,
    EndDrawingFramebuffer,
    BeginMode2D,
    EndMode2D,
    BeginDrawingTexture,
    EndDrawingTexture,
    CreateCamera,
    UpdateCamera,
    LoadTexture,
    CreateRenderTexture,
    TakeScreenshot,
    InitWindow,
    EndInitWindow,
    LogMsg,
    SetTargetFPS,
    GetScreenSize,
    SendMsgToPeer,
    LoadSound,
    LoadMusicStream,
    LoadFileToStr,
    PlaySound,
    PlayMusicStream,
    DrawCircle,
    DrawCircleGradient,
    DrawRectangleGradientV,
    DrawRectangleGradientH,
    SetDrawFPS,
    MeasureText,
    DrawText,
    DrawRectangle,
    DrawLine,
    DrawTextureRectangle,
}

/// What decides whether an effect is permitted, apart from the transitions.
#[derive(Debug, Clone, Copy, PartialEq, Eq, Structural)]
pub enum EffectClass {
    /// Permitted in every mode.
    Always,
    /// Permitted in every mode but [`PlatformMode::Init`].
    AfterInit,
    /// Permitted while a drawing target is open.
    Drawing,
    /// Permitted only as one of the transitions.
    Transition,
    /// No rule names the effect: it is denied in every mode.
    Unlisted,
}

impl PlatformEffect {
    /// The class of each effect.
    pub open spec fn spec_class(self) -> EffectClass {
        match self {
            PlatformEffect::SetDrawFPS
            | PlatformEffect::SetTargetFPS
            | PlatformEffect::MeasureText
            | PlatformEffect::LogMsg
            | PlatformEffect::SendMsgToPeer => EffectClass::Always,
            PlatformEffect::LoadFileToStr
            | PlatformEffect::UpdateCamera
            | PlatformEffect::CreateCamera
            | PlatformEffect::LoadSound
            | PlatformEffect::LoadMusicStream
            | PlatformEffect::LoadTexture
            | PlatformEffect::CreateRenderTexture => EffectClass::AfterInit,
            PlatformEffect::DrawCircle
            | PlatformEffect::DrawCircleGradient
            | PlatformEffect::DrawRectangleGradientV
            | PlatformEffect::DrawRectangleGradientH
            | PlatformEffect::DrawText
            | PlatformEffect::DrawRectangle
            | PlatformEffect::DrawLine
            | PlatformEffect::DrawTextureRectangle => EffectClass::Drawing,
            PlatformEffect::InitWindow
            | PlatformEffect::EndInitWindow
            | PlatformEffect::BeginDrawingFramebuffer
            | PlatformEffect::EndDrawingFramebuffer
            | PlatformEffect::BeginDrawingTexture
            | PlatformEffect::EndDrawingTexture
            | PlatformEffect::BeginMode2D
            | PlatformEffect::EndMode2D => EffectClass::Transition,
            PlatformEffect::PlaySound
            | PlatformEffect::PlayMusicStream
            | PlatformEffect::TakeScreenshot
            | PlatformEffect::GetScreenSize => EffectClass::Unlisted,
        }
    }

    /// The class of this effect.
    pub fn class(&self) -> (c: EffectClass)
        ensures
            c == self.spec_class(),
    {
        match self {
            PlatformEffect::SetDrawFPS
            | PlatformEffect::SetTargetFPS
            | PlatformEffect::MeasureText
            | PlatformEffect::LogMsg
            | PlatformEffect::SendMsgToPeer => EffectClass::Always,
            PlatformEffect::LoadFileToStr
            | PlatformEffect::UpdateCamera
            | PlatformEffect::CreateCamera
            | PlatformEffect::LoadSound
            | PlatformEffect::LoadMusicStream
            | PlatformEffect::LoadTexture
            | PlatformEffect::CreateRenderTexture => EffectClass::AfterInit,
            PlatformEffect::DrawCircle
            | PlatformEffect::DrawCircleGradient
            | PlatformEffect::DrawRectangleGradientV
            | PlatformEffect::DrawRectangleGradientH
            | PlatformEffect::DrawText
            | PlatformEffect::DrawRectangle
            | PlatformEffect::DrawLine
            | PlatformEffect::DrawTextureRectangle => EffectClass::Drawing,
            PlatformEffect::InitWindow
            | PlatformEffect::EndInitWindow
            | PlatformEffect::BeginDrawingFramebuffer
            | PlatformEffect::EndDrawingFramebuffer
            | PlatformEffect::BeginDrawingTexture
            | PlatformEffect::EndDrawingTexture
            | PlatformEffect::BeginMode2D
            | PlatformEffect::EndMode2D => EffectClass::Transition,
            PlatformEffect::PlaySound
            | PlatformEffect::PlayMusicStream
            | PlatformEffect::TakeScreenshot
            | PlatformEffect::GetScreenSize => EffectClass::Unlisted,
        }
    }
}

impl PlatformMode {
    /// A drawing target is open: the framebuffer or a render target, with or
    /// without a camera transform.
    pub open spec fn spec_is_draw_mode(self) -> bool {
        self == PlatformMode::FramebufferMode || self == PlatformMode::FramebufferModeDraw2D
            || self == PlatformMode::TextureMode || self == PlatformMode::TextureModeDraw2D
    }

    /// The platform has left [`PlatformMode::Init`].
    pub open spec fn spec_after_init(self) -> bool {
        self != PlatformMode::Init
    }

    /// The transition table: the mode that `effect` leads to from `self`, for
    /// the pairs of mode and effect that change the mode.
    pub open spec fn target(self, effect: PlatformEffect) -> Option<PlatformMode> {
        match (self, effect) {
            (PlatformMode::Init, PlatformEffect::InitWindow) => Some(PlatformMode::InitRaylib),
            (PlatformMode::InitRaylib, PlatformEffect::EndInitWindow) => Some(PlatformMode::Render),
            (PlatformMode::Render, PlatformEffect::BeginDrawingFramebuffer) => Some(
                PlatformMode::FramebufferMode,
            ),
            (PlatformMode::Render, PlatformEffect::BeginDrawingTexture) => Some(
                PlatformMode::TextureMode,
            ),
            (PlatformMode::FramebufferMode, PlatformEffect::EndDrawingFramebuffer) => Some(
                PlatformMode::Render,
            ),
            (PlatformMode::FramebufferMode, PlatformEffect::BeginMode2D) => Some(
                PlatformMode::FramebufferModeDraw2D,
            ),
            (PlatformMode::FramebufferModeDraw2D, PlatformEffect::EndMode2D) => Some(
                PlatformMode::FramebufferMode,
            ),
            (PlatformMode::TextureMode, PlatformEffect::EndDrawingTexture) => Some(
                PlatformMode::Render,
            ),
            (PlatformMode::TextureMode, PlatformEffect::BeginMode2D) => Some(
                PlatformMode::TextureModeDraw2D,
            ),
            (PlatformMode::TextureModeDraw2D, PlatformEffect::EndMode2D) => Some(
                PlatformMode::TextureMode,
            ),
            _ => None,
        }
    }

    /// The rule table: `effect` is permitted in `self` if the pair is one of
    /// the transitions, or if the class of the effect admits the mode.
    /// Everything else is denied.
    pub open spec fn permits(self, effect: PlatformEffect) -> bool {
        self.target(effect) is Some || match effect.spec_class() {
            EffectClass::Always => true,
            EffectClass::AfterInit => self.spec_after_init(),
            EffectClass::Drawing => self.spec_is_draw_mode(),
            EffectClass::Transition => false,
            EffectClass::Unlisted => false,
        }
    }

    /// The mode after `effect`: the target of the transition where the pair is
    /// one, else the mode itself.
    pub open spec fn next(self, effect: PlatformEffect) -> PlatformMode {
        match self.target(effect) {
            Some(mode) => mode,
            None => self,
        }
    }

    /// Whether a drawing target is open.
    pub fn is_draw_mode(&self) -> (b: bool)
        ensures
            b == self.spec_is_draw_mode(),
    {
        match self {
            PlatformMode::FramebufferMode
            | PlatformMode::FramebufferModeDraw2D
            | PlatformMode::TextureMode
            | PlatformMode::TextureModeDraw2D => true,
            _ => false,
        }
    }

    /// Whether the platform has left [`PlatformMode::Init`].
    pub fn not_init(&self) -> (b: bool)
        ensures
            b == self.spec_after_init(),
    {
        match self {
            PlatformMode::Init => false,
            _ => true,
        }
    }

    /// Whether the platform has left [`PlatformMode::Init`].
    pub fn after_init(&self) -> (b: bool)
        ensures
            b == self.spec_after_init(),
    {
        self.not_init()
    }

    /// The target of the transition that `effect` makes from this mode, if
    /// the pair is one.
    pub fn transition_target(&self, effect: PlatformEffect) -> (t: Option<PlatformMode>)
        ensures
            t == self.target(effect),
    {
        match (*self, effect) {
            (PlatformMode::Init, PlatformEffect::InitWindow) => Some(PlatformMode::InitRaylib),
            (PlatformMode::InitRaylib, PlatformEffect::EndInitWindow) => Some(PlatformMode::Render),
            (PlatformMode::Render, PlatformEffect::BeginDrawingFramebuffer) => Some(
                PlatformMode::FramebufferMode,
            ),
            (PlatformMode::Render, PlatformEffect::BeginDrawingTexture) => Some(
                PlatformMode::TextureMode,
            ),
            (PlatformMode::FramebufferMode, PlatformEffect::EndDrawingFramebuffer) => Some(
                PlatformMode::Render,
            ),
            (PlatformMode::FramebufferMode, PlatformEffect::BeginMode2D) => Some(
                PlatformMode::FramebufferModeDraw2D,
            ),
            (PlatformMode::FramebufferModeDraw2D, PlatformEffect::EndMode2D) => Some(
                PlatformMode::FramebufferMode,
            ),
            (PlatformMode::TextureMode, PlatformEffect::EndDrawingTexture) => Some(
                PlatformMode::Render,
            ),
            (PlatformMode::TextureMode, PlatformEffect::BeginMode2D) => Some(
                PlatformMode::TextureModeDraw2D,
            ),
            (PlatformMode::TextureModeDraw2D, PlatformEffect::EndMode2D) => Some(
                PlatformMode::TextureMode,
            ),
            _ => None,
        }
    }

    /// Whether `effect` is permitted in this mode. The transitions are looked
    /// at first, then the class of the effect.
    pub fn is_effect_permitted(&self, effect: PlatformEffect) -> (b: bool)
        ensures
            b == self.permits(effect),
    {
        if self.transition_target(effect).is_some() {
            return true;
        }
        match effect.class() {
            EffectClass::Always => true,
            EffectClass::AfterInit => self.after_init(),
            EffectClass::Drawing => self.is_draw_mode(),
            EffectClass::Transition => false,
            EffectClass::Unlisted => false,
        }
    }

    /// The mode after `effect`; the mode itself where the effect does not
    /// change the phase.
    pub fn transition(self, effect: PlatformEffect) -> (m: PlatformMode)
        ensures
            m == self.next(effect),
    {
        match self.transition_target(effect) {
            Some(mode) => mode,
            None => self,
        }
    }
}

impl PlatformEffect {
    /// The name of the effect, as it is written in messages.
    pub open spec fn spec_name(self) -> Seq<char> {
        match self {
            PlatformEffect::BeginDrawingFramebuffer => "BeginDrawingFramebuffer"@,
            PlatformEffect::EndDrawingFramebuffer => "EndDrawingFramebuffer"@,
            PlatformEffect::BeginMode2D => "BeginMode2D"@,
            PlatformEffect::EndMode2D => "EndMode2D"@,
            PlatformEffect::BeginDrawingTexture => "BeginDrawingTexture"@,
            PlatformEffect::EndDrawingTexture => "EndDrawingTexture"@,
            PlatformEffect::CreateCamera => "CreateCamera"@,
            PlatformEffect::UpdateCamera => "UpdateCamera"@,
            PlatformEffect::LoadTexture => "LoadTexture"@,
            PlatformEffect::CreateRenderTexture => "CreateRenderTexture"@,
            PlatformEffect::TakeScreenshot => "TakeScreenshot"@,
            PlatformEffect::InitWindow => "InitWindow"@,
            PlatformEffect::EndInitWindow => "EndInitWindow"@,
            PlatformEffect::LogMsg => "LogMsg"@,
            PlatformEffect::SetTargetFPS => "SetTargetFPS"@,
            PlatformEffect::GetScreenSize => "GetScreenSize"@,
            PlatformEffect::SendMsgToPeer => "SendMsgToPeer"@,
            PlatformEffect::LoadSound => "LoadSound"@,
            PlatformEffect::LoadMusicStream => "LoadMusicStream"@,
            PlatformEffect::LoadFileToStr => "LoadFileToStr"@,
            PlatformEffect::PlaySound => "PlaySound"@,
            PlatformEffect::PlayMusicStream => "PlayMusicStream"@,
            PlatformEffect::DrawCircle => "DrawCircle"@,
            PlatformEffect::DrawCircleGradient => "DrawCircleGradient"@,
            PlatformEffect::DrawRectangleGradientV => "DrawRectangleGradientV"@,
            PlatformEffect::DrawRectangleGradientH => "DrawRectangleGradientH"@,
            PlatformEffect::SetDrawFPS => "SetDrawFPS"@,
            PlatformEffect::MeasureText => "MeasureText"@,
            PlatformEffect::DrawText => "DrawText"@,
            PlatformEffect::DrawRectangle => "DrawRectangle"@,
            PlatformEffect::DrawLine => "DrawLine"@,
            PlatformEffect::DrawTextureRectangle => "DrawTextureRectangle"@,
        }
    }

    /// The name of the effect, as it is written in messages.
    pub fn name(&self) -> (s: &'static str)
        ensures
            s@ == self.spec_name(),
    {
        match self {
            PlatformEffect::BeginDrawingFramebuffer => "BeginDrawingFramebuffer",
            PlatformEffect::EndDrawingFramebuffer => "EndDrawingFramebuffer",
            PlatformEffect::BeginMode2D => "BeginMode2D",
            PlatformEffect::EndMode2D => "EndMode2D",
            PlatformEffect::BeginDrawingTexture => "BeginDrawingTexture",
            PlatformEffect::EndDrawingTexture => "EndDrawingTexture",
            PlatformEffect::CreateCamera => "CreateCamera",
            PlatformEffect::UpdateCamera => "UpdateCamera",
            PlatformEffect::LoadTexture => "LoadTexture",
            PlatformEffect::CreateRenderTexture => "CreateRenderTexture",
            PlatformEffect::TakeScreenshot => "TakeScreenshot",
            PlatformEffect::InitWindow => "InitWindow",
            PlatformEffect::EndInitWindow => "EndInitWindow",
            PlatformEffect::LogMsg => "LogMsg",
            PlatformEffect::SetTargetFPS => "SetTargetFPS",
            PlatformEffect::GetScreenSize => "GetScreenSize",
            PlatformEffect::SendMsgToPeer => "SendMsgToPeer",
            PlatformEffect::LoadSound => "LoadSound",
            PlatformEffect::LoadMusicStream => "LoadMusicStream",
            PlatformEffect::LoadFileToStr => "LoadFileToStr",
            PlatformEffect::PlaySound => "PlaySound",
            PlatformEffect::PlayMusicStream => "PlayMusicStream",
            PlatformEffect::DrawCircle => "DrawCircle",
            PlatformEffect::DrawCircleGradient => "DrawCircleGradient",
            PlatformEffect::DrawRectangleGradientV => "DrawRectangleGradientV",
            PlatformEffect::DrawRectangleGradientH => "DrawRectangleGradientH",
            PlatformEffect::SetDrawFPS => "SetDrawFPS",
            PlatformEffect::MeasureText => "MeasureText",
            PlatformEffect::DrawText => "DrawText",
            PlatformEffect::DrawRectangle => "DrawRectangle",
            PlatformEffect::DrawLine => "DrawLine",
            PlatformEffect::DrawTextureRectangle => "DrawTextureRectangle",
        }
    }
}

impl PlatformMode {
    /// The name of the mode, as it is written in messages.
    pub open spec fn spec_name(self) -> Seq<char> {
        match self {
            PlatformMode::Init => "Init"@,
            PlatformMode::InitRaylib => "InitRaylib"@,
            PlatformMode::Render => "Render"@,
            PlatformMode::TextureMode => "TextureMode"@,
            PlatformMode::TextureModeDraw2D => "TextureModeDraw2D"@,
            PlatformMode::FramebufferMode => "FramebufferMode"@,
            PlatformMode::FramebufferModeDraw2D => "FramebufferModeDraw2D"@,
        }
    }

    /// The name of the mode, as it is written in messages.
    pub fn name(&self) -> (s: &'static str)
        ensures
            s@ == self.spec_name(),
    {
        match self {
            PlatformMode::Init => "Init",
            PlatformMode::InitRaylib => "InitRaylib",
            PlatformMode::Render => "Render",
            PlatformMode::TextureMode => "TextureMode",
            PlatformMode::TextureModeDraw2D => "TextureModeDraw2D",
            PlatformMode::FramebufferMode => "FramebufferMode",
            PlatformMode::FramebufferModeDraw2D => "FramebufferModeDraw2D",
        }
    }
}

impl Default for PlatformMode {
    /// The platform starts before the native window exists.
    fn default() -> (m: PlatformMode)
        ensures
            m == PlatformMode::Init,
    {
        PlatformMode::Init
    }
}

/// The message of a denial: it names the effect and the mode.
pub open spec fn denial_message(mode: PlatformMode, effect: PlatformEffect) -> Seq<char> {
    "Effect "@ + effect.spec_name() + " not permitted in mode "@ + mode.spec_name()
}

/// Gates one effect against the mode and makes its transition.
///
/// A permitted effect moves `mode` to the mode the transition table gives, or
/// leaves it where the effect changes no phase. A denied effect leaves `mode`
/// as it is and returns the message that names both.
pub fn update(mode: &mut PlatformMode, effect: PlatformEffect) -> (r: Result<(), String>)
    ensures
        old(mode).permits(effect) ==> r is Ok && *final(mode) == old(mode).next(effect),
        !old(mode).permits(effect) ==> *final(mode) == *old(mode) && r is Err
            && r->Err_0@ == denial_message(*old(mode), effect),
{
    if mode.is_effect_permitted(effect) {
        *mode = mode.transition(effect);
        Ok(())
    } else {
        let mut msg = String::from_str("Effect ");
        msg.append(effect.name());
        msg.append(" not permitted in mode ");
        msg.append(mode.name());
        Err(msg)
    }
}

/// Every transition of the table is permitted.
pub proof fn lemma_transition_is_permitted(mode: PlatformMode, effect: PlatformEffect)
    requires
        mode.target(effect) is Some,
    ensures
        mode.permits(effect),
{
}

/// A pair of mode and effect that matches no rule is denied: an effect that
/// no rule names, an effect of the transitions outside the table, a drawing
/// effect while no target is open, and an effect that needs the window while
/// the platform is in `Init`. Nothing else is denied.
pub proof fn lemma_denied_outside_table(mode: PlatformMode, effect: PlatformEffect)
    ensures
        effect.spec_class() == EffectClass::Unlisted ==> !mode.permits(effect),
        effect.spec_class() == EffectClass::Transition && mode.target(effect) is None
            ==> !mode.permits(effect),
        effect.spec_class() == EffectClass::Drawing && !mode.spec_is_draw_mode() ==> !mode.permits(
            effect,
        ),
        effect.spec_class() == EffectClass::AfterInit && mode == PlatformMode::Init
            ==> !mode.permits(effect),
        !mode.permits(effect) ==> effect.spec_class() != EffectClass::Always,
        mode.permits(effect) <==> mode.target(effect) is Some || effect.spec_class()
            == EffectClass::Always || (effect.spec_class() == EffectClass::AfterInit && mode
            != PlatformMode::Init) || (effect.spec_class() == EffectClass::Drawing
            && mode.spec_is_draw_mode()),
{
}

/// Only an effect of the transitions changes the mode, and only where the
/// table holds the pair; a denied effect never does.
pub proof fn lemma_mode_changes_only_by_transition(mode: PlatformMode, effect: PlatformEffect)
    ensures
        mode.next(effect) != mode ==> effect.spec_class() == EffectClass::Transition
            && mode.target(effect) == Some(mode.next(effect)),
        !mode.permits(effect) ==> mode.next(effect) == mode,
{
}

/// No effect leads back to `Init`, and the only way out of it is the window.
pub proof fn lemma_init_is_left_once(mode: PlatformMode, effect: PlatformEffect)
    ensures
        mode != PlatformMode::Init ==> mode.next(effect) != PlatformMode::Init,
        mode == PlatformMode::Init && mode.next(effect) != mode ==> effect
            == PlatformEffect::InitWindow,
{
}

/// A drawing target is opened only from `Render`, and closing it or ending
/// the camera transform undoes what opened it.
pub proof fn lemma_begin_end_are_inverse(mode: PlatformMode)
    ensures
        mode.target(PlatformEffect::BeginDrawingFramebuffer) is Some ==> mode.next(
            PlatformEffect::BeginDrawingFramebuffer,
        ).next(PlatformEffect::EndDrawingFramebuffer) == mode,
        mode.target(PlatformEffect::BeginDrawingTexture) is Some ==> mode.next(
            PlatformEffect::BeginDrawingTexture,
        ).next(PlatformEffect::EndDrawingTexture) == mode,
        mode.target(PlatformEffect::BeginMode2D) is Some ==> mode.next(
            PlatformEffect::BeginMode2D,
        ).next(PlatformEffect::EndMode2D) == mode,
        mode.target(PlatformEffect::BeginDrawingFramebuffer) is Some ==> mode
            == PlatformMode::Render,
        mode.target(PlatformEffect::BeginDrawingTexture) is Some ==> mode == PlatformMode::Render,
{
}

} // verus!
