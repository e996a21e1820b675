//! One-line text renderings of the player's state for the terminal
//! interface: status bar, queue summary, library entries and statistics.

use vstd::prelude::*;
use crate::library::{items_view, Library, LibraryView};
use crate::media::{MediaItem, MediaItemView, MediaType};
use crate::queue::{PlayQueue, RepeatMode};
use crate::seqs::keep;
use crate::status::{duration_text, format_duration, PlaybackState, PlaybackStatus};
use crate::text::{decimal, push_decimal, push_str};

verus! {

/// The status bar's icon for a playback state.
pub open spec fn state_icon(s: PlaybackState) -> Seq<char> {
    match s {
        PlaybackState::Playing => ">>"@,
        PlaybackState::Paused => "||"@,
        PlaybackState::Stopped => "[]"@,
        PlaybackState::Buffering => ".."@,
    }
}

/// A duration in milliseconds as the interface shows it (whole seconds).
pub open spec fn ms_text(ms: u64) -> Seq<char> {
    duration_text((ms / 1000) as nat)
}

/// The status bar: state icon, "artist - title" (or just the title when
/// there is no artist), position and duration, and the volume.
pub open spec fn status_bar_text(status: PlaybackStatus, item: Option<MediaItemView>) -> Seq<char> {
    let title = match item {
        Some(i) => i.title,
        None => "No media loaded"@,
    };
    let artist = match item {
        Some(i) => match i.artist {
            Some(a) => a,
            None => Seq::empty(),
        },
        None => Seq::empty(),
    };
    let duration = match status.duration_ms {
        Some(d) => ms_text(d),
        None => "--:--"@,
    };
    let volume = if status.muted { "MUTE"@ } else { decimal(status.volume_percent as nat) + "%"@ };
    let head = if artist.len() == 0 {
        state_icon(status.state) + " "@ + title
    } else {
        state_icon(status.state) + " "@ + artist + " - "@ + title
    };
    head + "  ["@ + ms_text(status.position_ms) + " / "@ + duration + "]  Vol: "@ + volume
}

/// Renders the playback status bar.
pub fn render_status_bar(status: &PlaybackStatus, item: Option<&MediaItem>) -> (res: String)
    ensures
        res@ == status_bar_text(*status, match item {
            Some(i) => Some(i@),
            None => None,
        }),
{
    let icon = match status.state {
        PlaybackState::Playing => ">>",
        PlaybackState::Paused => "||",
        PlaybackState::Stopped => "[]",
        PlaybackState::Buffering => "..",
    };
    let mut out = String::from_str(icon);
    push_str(&mut out, " ");
    let title: &str = match item {
        Some(i) => i.title.as_str(),
        None => "No media loaded",
    };
    let artist: &str = match item {
        Some(i) => match &i.artist {
            Some(a) => a.as_str(),
            None => "",
        },
        None => "",
    };
    if !artist.is_empty() {
        push_str(&mut out, artist);
        push_str(&mut out, " - ");
    }
    push_str(&mut out, title);
    let ghost head = out@;
    push_str(&mut out, "  [");
    let position = format_duration(status.position_ms / 1000);
    push_str(&mut out, position.as_str());
    push_str(&mut out, " / ");
    match status.duration_ms {
        Some(d) => {
            let dur = format_duration(d / 1000);
            push_str(&mut out, dur.as_str());
        },
        None => push_str(&mut out, "--:--"),
    }
    push_str(&mut out, "]  Vol: ");
    if status.muted {
        push_str(&mut out, "MUTE");
    } else {
        push_decimal(&mut out, status.volume_percent as u64);
        push_str(&mut out, "%");
    }
    proof {
        let it = match item {
            Some(i) => Some(i@),
            None => None::<MediaItemView>,
        };
        reveal_strlit("");
        assert(title@ == match it {
            Some(i) => i.title,
            None => "No media loaded"@,
        });
        assert(artist@ =~= match it {
            Some(i) => match i.artist {
                Some(a) => a,
                None => Seq::empty(),
            },
            None => Seq::empty(),
        });
        assert(head =~= if artist@.len() == 0 {
            state_icon(status.state) + " "@ + title@
        } else {
            state_icon(status.state) + " "@ + artist@ + " - "@ + title@
        });
        assert(out@ =~= status_bar_text(*status, it));
    }
    out
}

/// The queue summary: "Queue: position/length", then the repeat and
/// shuffle marks.
pub open spec fn queue_summary_text(items_len: nat, position: Option<usize>, repeat: RepeatMode, shuffle: bool) -> Seq<char> {
    let pos = match position {
        Some(p) => decimal((p + 1) as nat) + "/"@ + decimal(items_len),
        None => "0/"@ + decimal(items_len),
    };
    let rep = match repeat {
        RepeatMode::Off => Seq::empty(),
        RepeatMode::One => " [R1]"@,
        RepeatMode::All => " [RA]"@,
    };
    let shuf = if shuffle { " [S]"@ } else { Seq::empty() };
    "Queue: "@ + pos + rep + shuf
}

/// Renders the play queue summary.
pub fn render_queue_summary(queue: &PlayQueue) -> (res: String)
    requires
        match queue@.position {
            Some(p) => p < usize::MAX,
            None => true,
        },
    ensures
        res@ == queue_summary_text(queue@.items.len(), queue@.position, queue@.repeat_mode, queue@.shuffle),
{
    let mut out = String::from_str("Queue: ");
    match queue.position {
        Some(p) => {
            push_decimal(&mut out, (p + 1) as u64);
            push_str(&mut out, "/");
        },
        None => push_str(&mut out, "0/"),
    }
    push_decimal(&mut out, queue.items.len() as u64);
    match queue.repeat_mode {
        RepeatMode::Off => {},
        RepeatMode::One => push_str(&mut out, " [R1]"),
        RepeatMode::All => push_str(&mut out, " [RA]"),
    }
    if queue.shuffle {
        push_str(&mut out, " [S]");
    }
    proof {
        assert(out@ =~= queue_summary_text(queue@.items.len(), queue@.position, queue@.repeat_mode, queue@.shuffle));
    }
    out
}

/// `n` right-aligned in a field of three characters.
pub open spec fn pad3(n: nat) -> Seq<char> {
    if n < 10 {
        "  "@ + decimal(n)
    } else if n < 100 {
        " "@ + decimal(n)
    } else {
        decimal(n)
    }
}

/// A library entry: "  n. artist - title [duration] (type)", numbered
/// from one, with "Unknown" for a missing artist and "?:??" for a missing
/// duration.
pub open spec fn library_item_text(item: MediaItemView, index: nat) -> Seq<char> {
    let duration = match item.duration_ms {
        Some(d) => ms_text(d),
        None => "?:??"@,
    };
    let artist = match item.artist {
        Some(a) => a,
        None => "Unknown"@,
    };
    pad3(index + 1) + ". "@ + artist + " - "@ + item.title + " ["@ + duration + "] ("@ + item.media_type.spec_text() + ")"@
}

/// Renders a library item as a single line.
pub fn render_library_item(item: &MediaItem, index: usize) -> (res: String)
    requires
        index < usize::MAX,
    ensures
        res@ == library_item_text(item@, index as nat),
{
    let n = (index + 1) as u64;
    let mut out = String::new();
    if n < 10 {
        push_str(&mut out, "  ");
    } else if n < 100 {
        push_str(&mut out, " ");
    }
    push_decimal(&mut out, n);
    push_str(&mut out, ". ");
    match &item.artist {
        Some(a) => push_str(&mut out, a.as_str()),
        None => push_str(&mut out, "Unknown"),
    }
    push_str(&mut out, " - ");
    push_str(&mut out, item.title.as_str());
    push_str(&mut out, " [");
    match item.duration_ms {
        Some(d) => {
            let t = format_duration(d / 1000);
            push_str(&mut out, t.as_str());
        },
        None => push_str(&mut out, "?:??"),
    }
    push_str(&mut out, "] (");
    let ty = item.media_type.to_string();
    push_str(&mut out, ty.as_str());
    push_str(&mut out, ")");
    proof {
        assert(out@ =~= library_item_text(item@, index as nat));
    }
    out
}

/// The total of the known durations of `items`, in milliseconds.
pub open spec fn total_duration_ms(items: Seq<MediaItemView>) -> nat
    decreases items.len(),
{
    if items.len() == 0 {
        0
    } else {
        total_duration_ms(items.drop_last()) + match items.last().duration_ms {
            Some(d) => d as nat,
            None => 0,
        }
    }
}

/// The library statistics line.
pub open spec fn library_stats_text(lib: LibraryView) -> Seq<char> {
    "Library: "@ + decimal(lib.items.len()) + " items ("@
        + decimal(keep(lib.items, |it: MediaItemView| it.media_type == MediaType::Audio).len()) + " audio, "@
        + decimal(keep(lib.items, |it: MediaItemView| it.media_type == MediaType::Video).len()) + " video), "@
        + decimal(lib.playlists.len()) + " playlists, total: "@ + duration_text(total_duration_ms(lib.items) / 1000)
}

/// Renders the library statistics: counts of items by type, playlists,
/// and the total duration.
pub fn render_library_stats(library: &Library) -> (res: String)
    requires
        total_duration_ms(library@.items) <= u64::MAX,
    ensures
        res@ == library_stats_text(library@),
{
    let audio = library.audio_items();
    let video = library.video_items();
    let mut total: u64 = 0;
    let mut i: usize = 0;
    while i < library.items.len()
        invariant
            i <= library.items.len(),
            total == total_duration_ms(library@.items.take(i as int)),
            total_duration_ms(library@.items) <= u64::MAX,
        decreases library.items.len() - i,
    {
        proof {
            assert(library@.items.take(i + 1).drop_last() =~= library@.items.take(i as int));
            lemma_total_prefix(library@.items, i + 1);
        }
        match library.items[i].duration_ms {
            Some(d) => total = total + d,
            None => {},
        }
        i = i + 1;
    }
    assert(library@.items.take(i as int) =~= library@.items);
    let mut out = String::from_str("Library: ");
    push_decimal(&mut out, library.items.len() as u64);
    push_str(&mut out, " items (");
    push_decimal(&mut out, audio.len() as u64);
    push_str(&mut out, " audio, ");
    push_decimal(&mut out, video.len() as u64);
    push_str(&mut out, " video), ");
    push_decimal(&mut out, library.playlists.len() as u64);
    push_str(&mut out, " playlists, total: ");
    let t = format_duration(total / 1000);
    push_str(&mut out, t.as_str());
    proof {
        assert(audio@.len() == crate::library::item_refs_view(audio@).len());
        assert(video@.len() == crate::library::item_refs_view(video@).len());
        assert(out@ =~= library_stats_text(library@));
    }
    out
}

/// The total over a prefix is at most the total over the whole.
proof fn lemma_total_prefix(items: Seq<MediaItemView>, n: int)
    requires
        0 <= n <= items.len(),
    ensures
        total_duration_ms(items.take(n)) <= total_duration_ms(items),
    decreases items.len() - n,
{
    if n < items.len() {
        lemma_total_prefix(items, n + 1);
        assert(items.take(n + 1).drop_last() =~= items.take(n));
    } else {
        assert(items.take(n) =~= items);
    }
}

} // verus!
