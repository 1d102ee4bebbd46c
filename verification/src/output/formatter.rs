//! Final decoration of delivered text: time stamp prefix and separator.

use vstd::prelude::*;

use crate::text::{pad_dec, push_padded, push_str, string_of};

verus! {

/// `std::time::SystemTime`, carried through opaquely.
#[verifier::external_type_specification]
#[verifier::external_body]
pub struct ExSystemTime(std::time::SystemTime);

/// `SystemTime::now`: the current wall-clock time.
#[verifier::external_body]
fn system_time_now() -> std::time::SystemTime {
    std::time::SystemTime::now()
}

/// `SystemTime::duration_since(UNIX_EPOCH)`: the time elapsed since the
/// epoch, `None` for a time before it. Nothing is stated of the value: it is
/// the clock's.
#[verifier::external_body]
fn duration_since_epoch(t: &std::time::SystemTime) -> Option<std::time::Duration> {
    t.duration_since(std::time::UNIX_EPOCH).ok()
}

/// `Duration::as_secs`: the whole seconds of a duration. Nothing is stated
/// of the value: a `Duration` has no model here.
#[verifier::external_body]
fn duration_secs(d: &std::time::Duration) -> u64 {
    d.as_secs()
}

/// Seconds since the Unix epoch now, 0 when the clock is before it. The
/// value is the wall clock's and is not stated.
pub fn unix_time_secs() -> u64 {
    let now = system_time_now();
    match duration_since_epoch(&now) {
        Some(d) => duration_secs(&d),
        None => 0,
    }
}

/// `HH:MM:SS` of the time of day `secs` seconds after midnight UTC of the
/// epoch, shifted by `offset_h` hours.
pub open spec fn hms(secs: nat, offset_h: nat) -> Seq<char> {
    pad_dec(((secs % 86400) / 3600 + offset_h) % 24, 2) + seq![':'] + pad_dec((secs % 3600) / 60, 2)
        + seq![':'] + pad_dec(secs % 60, 2)
}

/// [`hms`] as a `String`.
pub fn clock_hms(secs: u64, offset_h: u64) -> (r: String)
    requires
        offset_h < 24,
    ensures
        r@ == hms(secs as nat, offset_h as nat),
{
    let mut out: Vec<char> = Vec::new();
    push_padded(&mut out, ((secs % 86400) / 3600 + offset_h) % 24, 2);
    out.push(':');
    push_padded(&mut out, (secs % 3600) / 60, 2);
    out.push(':');
    push_padded(&mut out, secs % 60, 2);
    assert(out@ =~= hms(secs as nat, offset_h as nat));
    string_of(out.as_slice())
}

/// What is appended after each delivered piece of text, and whether it is
/// prefixed with the time.
#[derive(Debug, Clone, Copy, PartialEq, Eq, Structural)]
pub struct FormatterConfig {
    pub append_newline: bool,
    pub append_space: bool,
    pub add_timestamp: bool,
}

impl Default for FormatterConfig {
    fn default() -> (r: Self)
        ensures
            r.append_newline,
            !r.append_space,
            !r.add_timestamp,
    {
        FormatterConfig { append_newline: true, append_space: false, add_timestamp: false }
    }
}

/// `text` formatted under `cfg` with the time stamp taken at `secs`.
pub open spec fn formatted(cfg: FormatterConfig, text: Seq<char>, secs: nat) -> Seq<char> {
    let head = if cfg.add_timestamp {
        "["@ + hms(secs, 0) + "] "@
    } else {
        Seq::<char>::empty()
    };
    let tail = if cfg.append_newline {
        "\n"@
    } else if cfg.append_space {
        " "@
    } else {
        Seq::<char>::empty()
    };
    head + text + tail
}

/// Decorates delivered text according to its configuration.
pub struct OutputFormatter {
    pub config: FormatterConfig,
}

impl OutputFormatter {
    /// A formatter with `config`.
    pub fn new(config: FormatterConfig) -> (r: Self)
        ensures
            r.config == config,
    {
        OutputFormatter { config }
    }

    /// `text` with the time-of-day prefix when enabled, followed by a newline
    /// or else a space when either is enabled.
    pub fn format(&self, text: &str) -> (r: String)
        ensures
            exists|t: u64| r@ == formatted(self.config, text@, t as nat),
            !self.config.add_timestamp ==> r@ == formatted(self.config, text@, 0),
    {
        let secs = if self.config.add_timestamp {
            unix_time_secs()
        } else {
            0
        };
        self.format_at(text, secs)
    }

    /// [`OutputFormatter::format`] with the time stamp taken at `secs`.
    pub fn format_at(&self, text: &str, secs: u64) -> (r: String)
        ensures
            r@ == formatted(self.config, text@, secs as nat),
    {
        let mut out: Vec<char> = Vec::new();
        if self.config.add_timestamp {
            let now = clock_hms(secs, 0);
            push_str(&mut out, "[");
            push_str(&mut out, now.as_str());
            push_str(&mut out, "] ");
        }
        push_str(&mut out, text);
        if self.config.append_newline {
            push_str(&mut out, "\n");
        } else if self.config.append_space {
            push_str(&mut out, " ");
        }
        assert(out@ =~= formatted(self.config, text@, secs as nat));
        string_of(out.as_slice())
    }

    /// Replaces the configuration.
    pub fn update(&mut self, config: FormatterConfig)
        ensures
            final(self).config == config,
    {
        self.config = config;
    }
}

} // verus!
