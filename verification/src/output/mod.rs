//! Delivery of finished text: formatting and the choice of destinations.

pub mod formatter;
pub mod injector;

use vstd::prelude::*;

pub use formatter::OutputFormatter;
pub use injector::FocusedWindowInjector;

verus! {

/// `std::path::PathBuf`, carried through opaquely.
#[verifier::external_type_specification]
#[verifier::external_body]
pub struct ExPathBuf(std::path::PathBuf);

/// Where finished text goes.
#[derive(Debug)]
pub enum OutputMode {
    ClipboardOnly,
    InjectToFocused,
    ClipboardAndInject,
    FileAppend(std::path::PathBuf),
    NoOutput,
}

impl Default for OutputMode {
    fn default() -> (r: Self)
        ensures
            r is ClipboardAndInject,
    {
        OutputMode::ClipboardAndInject
    }
}

/// The steps that deliver one piece of formatted text, in this order:
/// write it to the clipboard, type it into the focused window, send the
/// paste shortcut, append it to the mode's file.
#[derive(Debug, Clone, Copy, PartialEq, Eq, Structural)]
pub struct OutputPlan {
    pub write_clipboard: bool,
    pub type_text: bool,
    pub paste_shortcut: bool,
    pub append_to_file: bool,
}

/// The delivery steps that `mode` asks for.
pub open spec fn plan_for(mode: OutputMode) -> OutputPlan {
    match mode {
        OutputMode::ClipboardOnly => OutputPlan {
            write_clipboard: true,
            type_text: false,
            paste_shortcut: false,
            append_to_file: false,
        },
        OutputMode::InjectToFocused => OutputPlan {
            write_clipboard: false,
            type_text: true,
            paste_shortcut: false,
            append_to_file: false,
        },
        OutputMode::ClipboardAndInject => OutputPlan {
            write_clipboard: true,
            type_text: false,
            paste_shortcut: true,
            append_to_file: false,
        },
        OutputMode::FileAppend(_) => OutputPlan {
            write_clipboard: false,
            type_text: false,
            paste_shortcut: false,
            append_to_file: true,
        },
        OutputMode::NoOutput => OutputPlan {
            write_clipboard: false,
            type_text: false,
            paste_shortcut: false,
            append_to_file: false,
        },
    }
}

/// Executable [`plan_for`]: what the output router does for `mode`.
pub fn output_plan(mode: &OutputMode) -> (r: OutputPlan)
    ensures
        r == plan_for(*mode),
{
    match mode {
        OutputMode::ClipboardOnly => OutputPlan {
            write_clipboard: true,
            type_text: false,
            paste_shortcut: false,
            append_to_file: false,
        },
        OutputMode::InjectToFocused => OutputPlan {
            write_clipboard: false,
            type_text: true,
            paste_shortcut: false,
            append_to_file: false,
        },
        OutputMode::ClipboardAndInject => OutputPlan {
            write_clipboard: true,
            type_text: false,
            paste_shortcut: true,
            append_to_file: false,
        },
        OutputMode::FileAppend(_) => OutputPlan {
            write_clipboard: false,
            type_text: false,
            paste_shortcut: false,
            append_to_file: true,
        },
        OutputMode::NoOutput => OutputPlan {
            write_clipboard: false,
            type_text: false,
            paste_shortcut: false,
            append_to_file: false,
        },
    }
}

/// One step of delivering a piece of formatted text.
#[derive(Debug, Clone, Copy, PartialEq, Eq, Structural)]
pub enum DeliveryStep {
    /// Put the text on the clipboard.
    WriteClipboard,
    /// Wait this many milliseconds.
    Wait { ms: u64 },
    /// Type the text into the focused window.
    TypeText,
    /// Send the paste shortcut (Ctrl+V, Cmd+V on macOS) to the focused window.
    PasteShortcut,
    /// Empty the clipboard again.
    ClearClipboard,
    /// Append the text to the mode's file.
    AppendToFile,
}

/// How long delivery waits after pasting before the clipboard may be cleared.
pub const PASTE_SETTLE_MS: u64 = 100;

/// The delivery steps for `mode`, in the order they run: clipboard only
/// writes the clipboard; typing waits the injection delay, then types;
/// clipboard-and-paste writes the clipboard, waits the delay, pastes, waits
/// for the paste to settle and, when asked, clears the clipboard; file mode
/// appends; no output does nothing.
pub open spec fn delivery_steps_of(mode: OutputMode, inject_delay_ms: u64, clear_clipboard_after: bool) -> Seq<DeliveryStep> {
    match mode {
        OutputMode::ClipboardOnly => seq![DeliveryStep::WriteClipboard],
        OutputMode::InjectToFocused => seq![DeliveryStep::Wait { ms: inject_delay_ms }, DeliveryStep::TypeText],
        OutputMode::ClipboardAndInject => seq![
            DeliveryStep::WriteClipboard,
            DeliveryStep::Wait { ms: inject_delay_ms },
            DeliveryStep::PasteShortcut,
            DeliveryStep::Wait { ms: PASTE_SETTLE_MS },
        ] + if clear_clipboard_after {
            seq![DeliveryStep::ClearClipboard]
        } else {
            Seq::<DeliveryStep>::empty()
        },
        OutputMode::FileAppend(_) => seq![DeliveryStep::AppendToFile],
        OutputMode::NoOutput => Seq::<DeliveryStep>::empty(),
    }
}

/// Executable [`delivery_steps_of`].
pub fn delivery_steps(mode: &OutputMode, inject_delay_ms: u64, clear_clipboard_after: bool) -> (r: Vec<DeliveryStep>)
    ensures
        r@ == delivery_steps_of(*mode, inject_delay_ms, clear_clipboard_after),
{
    let mut steps: Vec<DeliveryStep> = Vec::new();
    match mode {
        OutputMode::ClipboardOnly => {
            steps.push(DeliveryStep::WriteClipboard);
        },
        OutputMode::InjectToFocused => {
            steps.push(DeliveryStep::Wait { ms: inject_delay_ms });
            steps.push(DeliveryStep::TypeText);
        },
        OutputMode::ClipboardAndInject => {
            steps.push(DeliveryStep::WriteClipboard);
            steps.push(DeliveryStep::Wait { ms: inject_delay_ms });
            steps.push(DeliveryStep::PasteShortcut);
            steps.push(DeliveryStep::Wait { ms: PASTE_SETTLE_MS });
            if clear_clipboard_after {
                steps.push(DeliveryStep::ClearClipboard);
            }
        },
        OutputMode::FileAppend(_) => {
            steps.push(DeliveryStep::AppendToFile);
        },
        OutputMode::NoOutput => {},
    }
    assert(steps@ =~= delivery_steps_of(*mode, inject_delay_ms, clear_clipboard_after));
    steps
}

} // verus!
