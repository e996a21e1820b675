//! Playback state, status snapshots and duration formatting.

use vstd::prelude::*;
use crate::text::{decimal, decimal2, push_char, push_decimal, push_decimal2};

verus! {

/// Current playback state.
#[derive(Debug, Clone, Copy, PartialEq, Eq, Structural)]
pub enum PlaybackState {
    Stopped,
    Playing,
    Paused,
    Buffering,
}

impl PlaybackState {
    pub open spec fn spec_text(self) -> Seq<char> {
        match self {
            PlaybackState::Stopped => "stopped"@,
            PlaybackState::Playing => "playing"@,
            PlaybackState::Paused => "paused"@,
            PlaybackState::Buffering => "buffering"@,
        }
    }

    /// The display name: "stopped", "playing", "paused" or "buffering".
    pub fn to_string(&self) -> (res: String)
        ensures
            res@ == self.spec_text(),
    {
        match self {
            PlaybackState::Stopped => String::from_str("stopped"),
            PlaybackState::Playing => String::from_str("playing"),
            PlaybackState::Paused => String::from_str("paused"),
            PlaybackState::Buffering => String::from_str("buffering"),
        }
    }
}

/// Playback status snapshot. Times are in milliseconds; the volume is the
/// whole percentage (0..=100) of the engine's volume.
#[derive(Debug, Clone, Copy, PartialEq, Eq, Structural)]
pub struct PlaybackStatus {
    pub state: PlaybackState,
    pub current_item: Option<u128>,
    pub position_ms: u64,
    pub duration_ms: Option<u64>,
    pub volume_percent: u8,
    pub muted: bool,
}

impl PlaybackStatus {
    /// The status of a stopped player: nothing loaded, position zero, full
    /// volume, not muted.
    pub fn stopped() -> (s: PlaybackStatus)
        ensures
            s == (PlaybackStatus {
                state: PlaybackState::Stopped,
                current_item: None,
                position_ms: 0,
                duration_ms: None,
                volume_percent: 100,
                muted: false,
            }),
    {
        PlaybackStatus {
            state: PlaybackState::Stopped,
            current_item: None,
            position_ms: 0,
            duration_ms: None,
            volume_percent: 100,
            muted: false,
        }
    }

    /// The fraction of the track played, as a numerator and a denominator
    /// (position and duration in milliseconds); `None` without a known,
    /// non-zero duration.
    pub fn progress_parts(&self) -> (res: Option<(u64, u64)>)
        ensures
            res == match self.duration_ms {
                Some(d) => if d != 0 { Some((self.position_ms, d)) } else { None },
                None => None,
            },
    {
        match self.duration_ms {
            Some(d) => if d != 0 { Some((self.position_ms, d)) } else { None },
            None => None,
        }
    }
}

/// `secs` rendered as H:MM:SS when there are whole hours, else M:SS.
pub open spec fn duration_text(secs: nat) -> Seq<char> {
    let hours = secs / 3600;
    let mins = (secs % 3600) / 60;
    let s = secs % 60;
    if hours > 0 {
        decimal(hours) + seq![':'] + decimal2(mins) + seq![':'] + decimal2(s)
    } else {
        decimal(mins) + seq![':'] + decimal2(s)
    }
}

/// Format a duration given in whole seconds as H:MM:SS or M:SS.
pub fn format_duration(total_secs: u64) -> (res: String)
    ensures
        res@ == duration_text(total_secs as nat),
{
    let hours = total_secs / 3600;
    let mins = (total_secs % 3600) / 60;
    let secs = total_secs % 60;
    let mut s = String::new();
    if hours > 0 {
        push_decimal(&mut s, hours);
        push_char(&mut s, ':');
        push_decimal2(&mut s, mins);
    } else {
        push_decimal(&mut s, mins);
    }
    push_char(&mut s, ':');
    push_decimal2(&mut s, secs);
    s
}

} // verus!
