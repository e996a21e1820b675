//! Equalizer names and presets: the ten bands' display names and the gain
//! tables of the named presets, in whole decibels. Filtering audio happens
//! outside the library.

use vstd::prelude::*;
use crate::text::text_eq;

verus! {

/// The display name of each band, by index; "?" past the last band.
pub open spec fn band_label(band: nat) -> Seq<char> {
    if band == 0 { "31 Hz"@ }
    else if band == 1 { "62 Hz"@ }
    else if band == 2 { "125 Hz"@ }
    else if band == 3 { "250 Hz"@ }
    else if band == 4 { "500 Hz"@ }
    else if band == 5 { "1 kHz"@ }
    else if band == 6 { "2 kHz"@ }
    else if band == 7 { "4 kHz"@ }
    else if band == 8 { "8 kHz"@ }
    else if band == 9 { "16 kHz"@ }
    else { "?"@ }
}

/// The display name of an equalizer band.
pub fn band_name(band: usize) -> (res: String)
    ensures
        res@ == band_label(band as nat),
{
    let s = if band == 0 { "31 Hz" }
    else if band == 1 { "62 Hz" }
    else if band == 2 { "125 Hz" }
    else if band == 3 { "250 Hz" }
    else if band == 4 { "500 Hz" }
    else if band == 5 { "1 kHz" }
    else if band == 6 { "2 kHz" }
    else if band == 7 { "4 kHz" }
    else if band == 8 { "8 kHz" }
    else if band == 9 { "16 kHz" }
    else { "?" };
    String::from_str(s)
}

/// The names of the presets, in the order the interface cycles through
/// them.
pub open spec fn preset_list() -> Seq<Seq<char>> {
    seq!["flat"@, "rock"@, "pop"@, "jazz"@, "classical"@, "bass"@, "treble"@, "vocal"@, "electronic"@, "acoustic"@]
}

/// The names of the equalizer presets.
pub fn preset_names() -> (res: Vec<String>)
    ensures
        res.deep_view() == preset_list(),
{
    let mut v: Vec<String> = Vec::new();
    v.push(String::from_str("flat"));
    v.push(String::from_str("rock"));
    v.push(String::from_str("pop"));
    v.push(String::from_str("jazz"));
    v.push(String::from_str("classical"));
    v.push(String::from_str("bass"));
    v.push(String::from_str("treble"));
    v.push(String::from_str("vocal"));
    v.push(String::from_str("electronic"));
    v.push(String::from_str("acoustic"));
    assert(v.deep_view() =~= preset_list());
    v
}

/// The band gains, in decibels, of a named preset; any other name (and
/// "flat") gives all zeros.
pub open spec fn preset_gains(name: Seq<char>) -> Seq<int> {
    if name == "rock"@ {
        seq![4, 3, 1, -1, -2, 0, 2, 3, 4, 4]
    } else if name == "pop"@ {
        seq![-1, 1, 3, 4, 3, 0, -1, 0, 1, 2]
    } else if name == "jazz"@ {
        seq![2, 1, 0, 1, -1, -1, 0, 1, 2, 3]
    } else if name == "classical"@ {
        seq![0, 0, 0, 0, 0, 0, -2, -3, -2, 0]
    } else if name == "bass"@ {
        seq![6, 5, 4, 2, 0, 0, 0, 0, 0, 0]
    } else if name == "treble"@ {
        seq![0, 0, 0, 0, 0, 0, 2, 4, 5, 6]
    } else if name == "vocal"@ {
        seq![-2, -1, 0, 2, 4, 4, 3, 1, 0, -1]
    } else if name == "electronic"@ {
        seq![5, 4, 1, 0, -2, 0, 1, 3, 4, 5]
    } else if name == "acoustic"@ {
        seq![2, 1, 0, 1, 2, 1, 2, 3, 2, 1]
    } else {
        seq![0, 0, 0, 0, 0, 0, 0, 0, 0, 0]
    }
}

/// The band gains of a preset, in whole decibels. Every gain lies within
/// the equalizer's range of plus or minus twelve decibels.
pub fn preset_bands_db(name: &str) -> (res: [i8; 10])
    ensures
        res@.map_values(|g: i8| g as int) == preset_gains(name@),
        forall|k: int| 0 <= k < 10 ==> -12 <= #[trigger] res@[k] <= 12,
{
    let r: [i8; 10] = if text_eq(name, "rock") {
        [4, 3, 1, -1, -2, 0, 2, 3, 4, 4]
    } else if text_eq(name, "pop") {
        [-1, 1, 3, 4, 3, 0, -1, 0, 1, 2]
    } else if text_eq(name, "jazz") {
        [2, 1, 0, 1, -1, -1, 0, 1, 2, 3]
    } else if text_eq(name, "classical") {
        [0, 0, 0, 0, 0, 0, -2, -3, -2, 0]
    } else if text_eq(name, "bass") {
        [6, 5, 4, 2, 0, 0, 0, 0, 0, 0]
    } else if text_eq(name, "treble") {
        [0, 0, 0, 0, 0, 0, 2, 4, 5, 6]
    } else if text_eq(name, "vocal") {
        [-2, -1, 0, 2, 4, 4, 3, 1, 0, -1]
    } else if text_eq(name, "electronic") {
        [5, 4, 1, 0, -2, 0, 1, 3, 4, 5]
    } else if text_eq(name, "acoustic") {
        [2, 1, 0, 1, 2, 1, 2, 3, 2, 1]
    } else {
        [0, 0, 0, 0, 0, 0, 0, 0, 0, 0]
    };
    assert(r@.map_values(|g: i8| g as int) =~= preset_gains(name@));
    r
}

} // verus!
