use whisper_typeless::output::formatter::{FormatterConfig, OutputFormatter};
use whisper_typeless::output::injector::FocusedWindowInjector;
use whisper_typeless::output::{delivery_steps, output_plan, DeliveryStep, OutputMode};

#[test]
fn formatter_appends_newline() {
    let config = FormatterConfig {
        append_newline: true,
        append_space: false,
        add_timestamp: false,
    };
    let f = OutputFormatter::new(config);
    let result = f.format("Hello");
    assert!(result.ends_with('\n'));
}

#[test]
fn formatter_no_append() {
    let config = FormatterConfig {
        append_newline: false,
        append_space: false,
        add_timestamp: false,
    };
    let f = OutputFormatter::new(config);
    let result = f.format("Hello");
    assert_eq!(result, "Hello");
}

#[test]
fn formatter_appends_space() {
    let config = FormatterConfig {
        append_newline: false,
        append_space: true,
        add_timestamp: false,
    };
    let f = OutputFormatter::new(config);
    let result = f.format("Hello");
    assert!(result.ends_with(' '));
}

#[test]
fn formatter_newline_wins_over_space() {
    let f = OutputFormatter::new(FormatterConfig {
        append_newline: true,
        append_space: true,
        add_timestamp: false,
    });
    assert_eq!(f.format("Hi"), "Hi\n");
}

#[test]
fn formatter_timestamp_prefix_at_given_time() {
    let f = OutputFormatter::new(FormatterConfig {
        append_newline: false,
        append_space: false,
        add_timestamp: true,
    });
    // 1 day + 01:02:03
    assert_eq!(f.format_at("text", 86_400 + 3_723), "[01:02:03] text");
}

#[test]
fn formatter_timestamp_prefix_shape() {
    let f = OutputFormatter::new(FormatterConfig {
        append_newline: true,
        append_space: false,
        add_timestamp: true,
    });
    let r = f.format("x");
    assert_eq!(r.len(), "[00:00:00] x\n".len());
    assert!(r.starts_with('['));
    assert!(r.ends_with("] x\n"));
}

#[test]
fn formatter_default_config_and_update() {
    let mut f = OutputFormatter::new(FormatterConfig::default());
    assert_eq!(f.format("a"), "a\n");
    f.update(FormatterConfig {
        append_newline: false,
        append_space: true,
        add_timestamp: false,
    });
    assert_eq!(f.format("a"), "a ");
}

#[test]
fn injector_delays() {
    assert_eq!(FocusedWindowInjector::new().inject_delay_ms, 50);
    assert_eq!(FocusedWindowInjector::default().inject_delay_ms, 50);
    let mut i = FocusedWindowInjector::with_delay(120);
    assert_eq!(i.inject_delay_ms, 120);
    i.set_delay(7);
    assert_eq!(i.inject_delay_ms, 7);
}

#[test]
fn output_plans_per_mode() {
    let p = output_plan(&OutputMode::ClipboardAndInject);
    assert!(p.write_clipboard && p.paste_shortcut && !p.type_text && !p.append_to_file);
    let p = output_plan(&OutputMode::ClipboardOnly);
    assert!(p.write_clipboard && !p.paste_shortcut && !p.type_text && !p.append_to_file);
    let p = output_plan(&OutputMode::InjectToFocused);
    assert!(!p.write_clipboard && !p.paste_shortcut && p.type_text && !p.append_to_file);
    let p = output_plan(&OutputMode::FileAppend(std::path::PathBuf::from("out.txt")));
    assert!(!p.write_clipboard && !p.paste_shortcut && !p.type_text && p.append_to_file);
    let p = output_plan(&OutputMode::NoOutput);
    assert!(!p.write_clipboard && !p.paste_shortcut && !p.type_text && !p.append_to_file);
    assert!(matches!(OutputMode::default(), OutputMode::ClipboardAndInject));
}

#[test]
fn delivery_steps_follow_the_paste_flow() {
    let paste = delivery_steps(&OutputMode::ClipboardAndInject, 50, true);
    assert_eq!(
        paste,
        vec![
            DeliveryStep::WriteClipboard,
            DeliveryStep::Wait { ms: 50 },
            DeliveryStep::PasteShortcut,
            DeliveryStep::Wait { ms: 100 },
            DeliveryStep::ClearClipboard
        ]
    );
    assert_eq!(delivery_steps(&OutputMode::ClipboardAndInject, 50, false).len(), 4);
    assert_eq!(
        delivery_steps(&OutputMode::InjectToFocused, 20, true),
        vec![DeliveryStep::Wait { ms: 20 }, DeliveryStep::TypeText]
    );
    assert_eq!(delivery_steps(&OutputMode::ClipboardOnly, 50, true), vec![DeliveryStep::WriteClipboard]);
    assert!(delivery_steps(&OutputMode::NoOutput, 50, true).is_empty());
}
