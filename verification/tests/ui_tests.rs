use whisper_typeless::app::RecordingState;
use whisper_typeless::ui::geometry::window_size;
use whisper_typeless::ui::hotkey::{
    parse_global_hotkey, parse_ptt_hotkey, parse_windows_vkey, MOD_ALT, MOD_CONTROL, MOD_SHIFT,
};
use whisper_typeless::ui::ptt::{
    modifier_key_ups, PTT_SHIFT, VK_CONTROL, VK_MENU, VK_SHIFT,
    ptt_handle_key, ptt_initial, ptt_set_enabled, ptt_set_hotkey, ptt_take_pending_release,
    KeyEvent, PttDecision, PTT_ALT, PTT_CTRL, VK_LCONTROL, VK_LMENU,
};
use whisper_typeless::ui::recording::{
    current_time_str, delivered_text, next_recording_state, toggle_action, wav_header, RecorderEvent,
    ToggleAction,
};
use whisper_typeless::ui::window_icon::{make_pixels, BG_NORMAL, BG_RECORD, WHITE};

#[test]
fn vkey_single_characters() {
    assert_eq!(parse_windows_vkey("a", 0), 'A' as u32);
    assert_eq!(parse_windows_vkey(" 7 ", 0), '7' as u32);
    assert_eq!(parse_windows_vkey("-", 0), 0xBD);
    assert_eq!(parse_windows_vkey("+", 0), 0xBB);
    assert_eq!(parse_windows_vkey("=", 0), 0xBB);
    assert_eq!(parse_windows_vkey("`", 0), 0xC0);
    assert_eq!(parse_windows_vkey("!", 99), 99);
    assert_eq!(parse_windows_vkey("", 42), 42);
    assert_eq!(parse_windows_vkey("   ", 42), 42);
}

#[test]
fn vkey_function_and_named_keys() {
    assert_eq!(parse_windows_vkey("F1", 0), 0x70);
    assert_eq!(parse_windows_vkey("f5", 0), 0x74);
    assert_eq!(parse_windows_vkey("F24", 0), 0x87);
    assert_eq!(parse_windows_vkey("F25", 7), 7);
    assert_eq!(parse_windows_vkey("F0", 7), 7);
    assert_eq!(parse_windows_vkey("space", 0), 0x20);
    assert_eq!(parse_windows_vkey("Page Up", 0), 0x21);
    assert_eq!(parse_windows_vkey("ESC", 0), 0x1B);
    assert_eq!(parse_windows_vkey("ArrowLeft", 0), 0x25);
    assert_eq!(parse_windows_vkey("Del", 0), 0x2E);
    assert_eq!(parse_windows_vkey("nothing", 5), 5);
}

#[test]
fn global_hotkey_parsing() {
    assert_eq!(parse_global_hotkey("Ctrl+Shift+W"), (MOD_CONTROL | MOD_SHIFT, 'W' as u32));
    assert_eq!(parse_global_hotkey("ctrl + alt + f9"), (MOD_CONTROL | MOD_ALT, 0x78));
    assert_eq!(parse_global_hotkey("Control+Q"), (MOD_CONTROL, 'Q' as u32));
    assert_eq!(parse_global_hotkey(""), (0, 'W' as u32));
    assert_eq!(parse_global_hotkey("Win+K"), (0, 'K' as u32));
    // A lone modifier is taken as the key, which is no key name: the default.
    assert_eq!(parse_global_hotkey("Ctrl+"), (0, 'W' as u32));
}

#[test]
fn ptt_hotkey_parsing() {
    assert_eq!(parse_ptt_hotkey("Ctrl+Alt+L"), (PTT_CTRL | PTT_ALT, 'L' as u32));
    assert_eq!(parse_ptt_hotkey("Shift+Space"), (4, 0x20));
    assert_eq!(parse_ptt_hotkey(""), (0, 'L' as u32));
}

fn key(vk: u32, is_down: bool) -> KeyEvent {
    KeyEvent { vk, is_down, injected: false }
}

#[test]
fn ptt_press_and_release_with_modifiers() {
    let l = 'L' as u32;
    let mut st = ptt_initial(l, PTT_CTRL | PTT_ALT, true);
    let pass = PttDecision { swallow: false, signal: None };
    assert_eq!(ptt_handle_key(&mut st, key(VK_LCONTROL, true)), pass);
    assert_eq!(ptt_handle_key(&mut st, key(VK_LMENU, true)), pass);
    let down = ptt_handle_key(&mut st, key(l, true));
    assert_eq!(down, PttDecision { swallow: true, signal: Some(true) });
    // Auto-repeat while held is swallowed without a second signal.
    assert_eq!(ptt_handle_key(&mut st, key(l, true)), PttDecision { swallow: true, signal: None });
    assert_eq!(ptt_take_pending_release(&mut st), PTT_CTRL | PTT_ALT);
    assert_eq!(ptt_take_pending_release(&mut st), 0);
    let up = ptt_handle_key(&mut st, key(l, false));
    assert_eq!(up, PttDecision { swallow: true, signal: Some(false) });
    assert_eq!(ptt_handle_key(&mut st, key(l, false)), pass);
}

#[test]
fn ptt_ignores_wrong_modifiers_injected_and_disabled() {
    let l = 'L' as u32;
    let pass = PttDecision { swallow: false, signal: None };
    let mut st = ptt_initial(l, PTT_CTRL, true);
    // Without Ctrl held the key passes.
    assert_eq!(ptt_handle_key(&mut st, key(l, true)), pass);
    // Injected events pass untouched.
    assert_eq!(
        ptt_handle_key(&mut st, KeyEvent { vk: VK_LCONTROL, is_down: true, injected: true }),
        pass
    );
    assert!(!st.ctrl_held);
    ptt_set_enabled(&mut st, false);
    assert_eq!(ptt_handle_key(&mut st, key(VK_LCONTROL, true)), pass);
    assert_eq!(ptt_handle_key(&mut st, key(l, true)), pass);
    ptt_set_enabled(&mut st, true);
    assert_eq!(ptt_handle_key(&mut st, key(l, true)).signal, Some(true));
    ptt_set_hotkey(&mut st, 'K' as u32, 0);
    assert!(!st.armed);
    assert_eq!(ptt_handle_key(&mut st, key(l, false)), pass);
}

#[test]
fn recording_toggle_and_states() {
    assert_eq!(toggle_action(true, false), ToggleAction::StopRecording);
    assert_eq!(toggle_action(false, true), ToggleAction::StartRecording);
    assert_eq!(toggle_action(false, false), ToggleAction::AskToDownloadModel);
    let press = |m| RecorderEvent::TogglePressed { model_present: m };
    assert_eq!(next_recording_state(RecordingState::Idle, press(true)), RecordingState::Recording);
    assert_eq!(next_recording_state(RecordingState::Idle, press(false)), RecordingState::Idle);
    assert_eq!(
        next_recording_state(RecordingState::Recording, press(false)),
        RecordingState::Processing
    );
    assert_eq!(
        next_recording_state(RecordingState::Processing, RecorderEvent::TranscriptionDone),
        RecordingState::Idle
    );
    assert_eq!(next_recording_state(RecordingState::Idle, RecorderEvent::StartFailed), RecordingState::Idle);
}

#[test]
fn wav_header_bytes() {
    let h = wav_header(100, 16000);
    assert_eq!(h.len(), 44);
    assert_eq!(&h[0..4], b"RIFF");
    assert_eq!(&h[4..8], &(236u32).to_le_bytes());
    assert_eq!(&h[8..16], b"WAVEfmt ");
    assert_eq!(&h[16..20], &16u32.to_le_bytes());
    assert_eq!(&h[20..24], &[1, 0, 1, 0]);
    assert_eq!(&h[24..28], &16000u32.to_le_bytes());
    assert_eq!(&h[28..32], &32000u32.to_le_bytes());
    assert_eq!(&h[32..36], &[2, 0, 16, 0]);
    assert_eq!(&h[36..40], b"data");
    assert_eq!(&h[40..44], &200u32.to_le_bytes());
}

#[test]
fn time_string_shape() {
    let s = current_time_str();
    let b = s.as_bytes();
    assert_eq!(b.len(), 8);
    assert_eq!(b[2], b':');
    assert_eq!(b[5], b':');
    assert!(s[0..2].parse::<u32>().unwrap() < 24);
}

#[test]
fn icon_pixels() {
    let idle = make_pixels(false);
    let rec = make_pixels(true);
    assert_eq!(idle.len(), 1024);
    // Corners are transparent.
    assert_eq!(idle[0], 0);
    assert_eq!(rec[31 * 32 + 31], 0);
    // Background away from the microphone.
    assert_eq!(idle[5 * 32 + 2], BG_NORMAL);
    assert_eq!(rec[5 * 32 + 2], BG_RECORD);
    // The microphone body is white in both.
    assert_eq!(idle[10 * 32 + 15], WHITE);
    // Stem on rows 24-27, columns 15-16; base bar on rows 27-28, columns 11-20.
    assert_eq!(idle[25 * 32 + 16], WHITE);
    assert_eq!(idle[27 * 32 + 11], WHITE);
    assert_eq!(idle[28 * 32 + 20], WHITE);
    assert_eq!(idle[28 * 32 + 10], BG_NORMAL);
    assert_eq!(idle[29 * 32 + 15], BG_NORMAL);
    assert_eq!(idle[31 * 32 + 15], BG_NORMAL);
    // Capsule on rows 3-17, columns 11-20; stand arc on rows 18-24.
    assert_eq!(idle[3 * 32 + 15], WHITE);
    assert_eq!(idle[3 * 32 + 14], BG_NORMAL);
    assert_eq!(idle[10 * 32 + 10], BG_NORMAL);
    assert_eq!(idle[10 * 32 + 20], WHITE);
    assert_eq!(idle[17 * 32 + 15], WHITE);
    assert_eq!(idle[18 * 32 + 15], BG_NORMAL);
    assert_eq!(idle[18 * 32 + 9], WHITE);
    assert_eq!(idle[24 * 32 + 15], WHITE);
    assert_eq!(rec[10 * 32 + 15], WHITE);
}

#[test]
fn window_sizes() {
    assert_eq!(window_size(false, true), (560, 680));
    assert_eq!(window_size(true, false), (380, 52));
    assert_eq!(window_size(true, true), (380, 540));
}

#[test]
fn delivered_text_trims_converts_and_drops_empty() {
    assert_eq!(delivered_text("  你好  ", false, "zh-TW"), Some("你好".to_string()));
    assert_eq!(delivered_text("   ", false, "zh-TW"), None);
    assert_eq!(delivered_text("", true, "zh-TW"), None);
    assert_eq!(delivered_text(" 软件 ", true, "zh-TW"), Some("軟體".to_string()));
    assert_eq!(delivered_text(" 软件 ", true, "raw"), Some("软件".to_string()));
}

#[test]
fn modifier_releases_in_order() {
    assert_eq!(modifier_key_ups(0), Vec::<u32>::new());
    assert_eq!(modifier_key_ups(PTT_ALT | PTT_CTRL | PTT_SHIFT), vec![VK_CONTROL, VK_MENU, VK_SHIFT]);
    assert_eq!(modifier_key_ups(PTT_ALT), vec![VK_MENU]);
}
