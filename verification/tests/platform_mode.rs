use roc_ray::platform_mode::{update, PlatformEffect, PlatformMode};

#[test]
fn test_initial_mode() {
    assert_eq!(PlatformMode::default(), PlatformMode::Init);
}

#[test]
fn test_begin_drawing_framebuffer() {
    let mut mode = PlatformMode::Render;
    update(&mut mode, PlatformEffect::BeginDrawingFramebuffer).unwrap();
    assert_eq!(mode, PlatformMode::FramebufferMode);
}

#[test]
fn test_end_drawing_framebuffer() {
    let mut mode = PlatformMode::FramebufferMode;
    update(&mut mode, PlatformEffect::EndDrawingFramebuffer).unwrap();
    assert_eq!(mode, PlatformMode::Render);
}

#[test]
fn test_begin_texture() {
    let mut mode = PlatformMode::Render;
    update(&mut mode, PlatformEffect::BeginDrawingTexture).unwrap();
    assert_eq!(mode, PlatformMode::TextureMode);
}

#[test]
fn test_end_texture() {
    let mut mode = PlatformMode::TextureMode;
    update(&mut mode, PlatformEffect::EndDrawingTexture).unwrap();
    assert_eq!(mode, PlatformMode::Render);
}

#[test]
fn test_begin_mode_2d_from_framebuffer() {
    let mut mode = PlatformMode::FramebufferMode;
    update(&mut mode, PlatformEffect::BeginMode2D).unwrap();
    assert_eq!(mode, PlatformMode::FramebufferModeDraw2D);
}

#[test]
fn test_end_mode_2d_to_framebuffer() {
    let mut mode = PlatformMode::FramebufferModeDraw2D;
    update(&mut mode, PlatformEffect::EndMode2D).unwrap();
    assert_eq!(mode, PlatformMode::FramebufferMode);
}

#[test]
fn test_begin_mode_2d_from_texture() {
    let mut mode = PlatformMode::TextureMode;
    update(&mut mode, PlatformEffect::BeginMode2D).unwrap();
    assert_eq!(mode, PlatformMode::TextureModeDraw2D);
}

#[test]
fn test_end_mode_2d_to_texture() {
    let mut mode = PlatformMode::TextureModeDraw2D;
    update(&mut mode, PlatformEffect::EndMode2D).unwrap();
    assert_eq!(mode, PlatformMode::TextureMode);
}

#[test]
fn test_init_to_init_raylib() {
    let mut mode = PlatformMode::Init;
    update(&mut mode, PlatformEffect::InitWindow).unwrap();
    assert_eq!(mode, PlatformMode::InitRaylib);
}

#[test]
fn test_init_raylib_to_render() {
    let mut mode = PlatformMode::InitRaylib;
    update(&mut mode, PlatformEffect::EndInitWindow).unwrap();
    assert_eq!(mode, PlatformMode::Render);
}

const MODES: [PlatformMode; 7] = [
    PlatformMode::Init,
    PlatformMode::InitRaylib,
    PlatformMode::Render,
    PlatformMode::TextureMode,
    PlatformMode::TextureModeDraw2D,
    PlatformMode::FramebufferMode,
    PlatformMode::FramebufferModeDraw2D,
];

const EFFECTS: [PlatformEffect; 32] = [
    PlatformEffect::BeginDrawingFramebuffer,
    PlatformEffect::EndDrawingFramebuffer,
    PlatformEffect::BeginMode2D,
    PlatformEffect::EndMode2D,
    PlatformEffect::BeginDrawingTexture,
    PlatformEffect::EndDrawingTexture,
    PlatformEffect::CreateCamera,
    PlatformEffect::UpdateCamera,
    PlatformEffect::LoadTexture,
    PlatformEffect::CreateRenderTexture,
    PlatformEffect::TakeScreenshot,
    PlatformEffect::InitWindow,
    PlatformEffect::EndInitWindow,
    PlatformEffect::LogMsg,
    PlatformEffect::SetTargetFPS,
    PlatformEffect::GetScreenSize,
    PlatformEffect::SendMsgToPeer,
    PlatformEffect::LoadSound,
    PlatformEffect::LoadMusicStream,
    PlatformEffect::LoadFileToStr,
    PlatformEffect::PlaySound,
    PlatformEffect::PlayMusicStream,
    PlatformEffect::DrawCircle,
    PlatformEffect::DrawCircleGradient,
    PlatformEffect::DrawRectangleGradientV,
    PlatformEffect::DrawRectangleGradientH,
    PlatformEffect::SetDrawFPS,
    PlatformEffect::MeasureText,
    PlatformEffect::DrawText,
    PlatformEffect::DrawRectangle,
    PlatformEffect::DrawLine,
    PlatformEffect::DrawTextureRectangle,
];

/// The ten transitions.
fn table(mode: PlatformMode, effect: PlatformEffect) -> Option<PlatformMode> {
    match (mode, effect) {
        (PlatformMode::Init, PlatformEffect::InitWindow) => Some(PlatformMode::InitRaylib),
        (PlatformMode::InitRaylib, PlatformEffect::EndInitWindow) => Some(PlatformMode::Render),
        (PlatformMode::Render, PlatformEffect::BeginDrawingFramebuffer) => Some(PlatformMode::FramebufferMode),
        (PlatformMode::Render, PlatformEffect::BeginDrawingTexture) => Some(PlatformMode::TextureMode),
        (PlatformMode::FramebufferMode, PlatformEffect::EndDrawingFramebuffer) => Some(PlatformMode::Render),
        (PlatformMode::FramebufferMode, PlatformEffect::BeginMode2D) => Some(PlatformMode::FramebufferModeDraw2D),
        (PlatformMode::FramebufferModeDraw2D, PlatformEffect::EndMode2D) => Some(PlatformMode::FramebufferMode),
        (PlatformMode::TextureMode, PlatformEffect::EndDrawingTexture) => Some(PlatformMode::Render),
        (PlatformMode::TextureMode, PlatformEffect::BeginMode2D) => Some(PlatformMode::TextureModeDraw2D),
        (PlatformMode::TextureModeDraw2D, PlatformEffect::EndMode2D) => Some(PlatformMode::TextureMode),
        _ => None,
    }
}

#[test]
fn every_pair_outside_the_rules_is_denied() {
    let mut permitted = 0;
    for mode in MODES {
        for effect in EFFECTS {
            let always = matches!(
                effect,
                PlatformEffect::SetDrawFPS | PlatformEffect::SetTargetFPS | PlatformEffect::MeasureText | PlatformEffect::LogMsg | PlatformEffect::SendMsgToPeer
            );
            let past_init = matches!(
                effect,
                PlatformEffect::LoadFileToStr
                    | PlatformEffect::UpdateCamera
                    | PlatformEffect::CreateCamera
                    | PlatformEffect::LoadSound
                    | PlatformEffect::LoadMusicStream
                    | PlatformEffect::LoadTexture
                    | PlatformEffect::CreateRenderTexture
            );
            let draws = matches!(
                effect,
                PlatformEffect::DrawCircle
                    | PlatformEffect::DrawCircleGradient
                    | PlatformEffect::DrawRectangleGradientV
                    | PlatformEffect::DrawRectangleGradientH
                    | PlatformEffect::DrawText
                    | PlatformEffect::DrawRectangle
                    | PlatformEffect::DrawLine
                    | PlatformEffect::DrawTextureRectangle
            );
            let open = matches!(
                mode,
                PlatformMode::FramebufferMode
                    | PlatformMode::FramebufferModeDraw2D
                    | PlatformMode::TextureMode
                    | PlatformMode::TextureModeDraw2D
            );
            let expected = table(mode, effect).is_some()
                || always
                || (past_init && mode != PlatformMode::Init)
                || (draws && open);
            assert_eq!(mode.is_effect_permitted(effect), expected, "{mode:?} {effect:?}");
            if expected {
                permitted += 1;
            }
        }
    }
    // 10 transitions, 5 effects in 7 modes, 7 effects in 6 modes, 8 in 4 modes.
    assert_eq!(permitted, 10 + 35 + 42 + 32);
}

#[test]
fn an_effect_that_no_rule_names_is_denied_in_every_mode() {
    for effect in [
        PlatformEffect::PlaySound,
        PlatformEffect::PlayMusicStream,
        PlatformEffect::TakeScreenshot,
        PlatformEffect::GetScreenSize,
    ] {
        for start in MODES {
            assert!(!start.is_effect_permitted(effect), "{start:?} {effect:?}");
            let mut mode = start;
            assert_eq!(
                update(&mut mode, effect),
                Err(format!(
                    "Effect {} not permitted in mode {}",
                    effect.name(),
                    start.name()
                ))
            );
            assert_eq!(mode, start);
        }
    }
}

#[test]
fn update_moves_the_mode_exactly_on_the_transitions() {
    for start in MODES {
        for effect in EFFECTS {
            let mut mode = start;
            let result = update(&mut mode, effect);
            assert_eq!(result.is_ok(), start.is_effect_permitted(effect));
            assert_eq!(mode, table(start, effect).unwrap_or(start));
            assert_eq!(start.transition(effect), table(start, effect).unwrap_or(start));
        }
    }
}

#[test]
fn a_denial_names_the_effect_and_the_mode() {
    let mut mode = PlatformMode::Init;
    let denied = update(&mut mode, PlatformEffect::DrawCircle);
    assert_eq!(
        denied,
        Err("Effect DrawCircle not permitted in mode Init".to_string())
    );
    assert_eq!(mode, PlatformMode::Init);

    let mut mode = PlatformMode::FramebufferModeDraw2D;
    let denied = update(&mut mode, PlatformEffect::EndDrawingFramebuffer);
    assert_eq!(
        denied,
        Err("Effect EndDrawingFramebuffer not permitted in mode FramebufferModeDraw2D".to_string())
    );
    assert_eq!(mode, PlatformMode::FramebufferModeDraw2D);
}

#[test]
fn names_are_the_names_of_the_variants() {
    for mode in MODES {
        assert_eq!(mode.name(), format!("{mode:?}"));
    }
    for effect in EFFECTS {
        assert_eq!(effect.name(), format!("{effect:?}"));
    }
}

#[test]
fn loading_resources_is_permitted_once_the_window_exists() {
    for effect in [
        PlatformEffect::CreateCamera,
        PlatformEffect::LoadSound,
        PlatformEffect::LoadMusicStream,
        PlatformEffect::LoadTexture,
        PlatformEffect::CreateRenderTexture,
    ] {
        assert!(!PlatformMode::Init.is_effect_permitted(effect));
        assert!(PlatformMode::InitRaylib.is_effect_permitted(effect));
        assert!(PlatformMode::Render.is_effect_permitted(effect));
        assert!(PlatformMode::TextureModeDraw2D.is_effect_permitted(effect));
    }
}

#[test]
fn session_from_init_to_a_drawn_frame() {
    let mut mode = PlatformMode::default();
    assert_eq!(mode, PlatformMode::Init);

    assert!(update(&mut mode, PlatformEffect::InitWindow).is_ok());
    assert_eq!(mode, PlatformMode::InitRaylib);

    assert!(update(&mut mode, PlatformEffect::DrawCircle).is_err());
    assert_eq!(mode, PlatformMode::InitRaylib);

    assert!(update(&mut mode, PlatformEffect::EndInitWindow).is_ok());
    assert_eq!(mode, PlatformMode::Render);

    assert!(update(&mut mode, PlatformEffect::BeginDrawingFramebuffer).is_ok());
    assert_eq!(mode, PlatformMode::FramebufferMode);

    assert!(update(&mut mode, PlatformEffect::DrawCircle).is_ok());
    assert_eq!(mode, PlatformMode::FramebufferMode);

    assert!(update(&mut mode, PlatformEffect::EndDrawingFramebuffer).is_ok());
    assert_eq!(mode, PlatformMode::Render);
}
