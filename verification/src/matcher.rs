//! Filename classification against the four capture-date naming conventions,
//! first match wins:
//!
//! 1. `IMG_<8 digits>_<6 digits>...jpg`
//! 2. `VID_<8 digits>_<6 digits>...mp4`
//! 3. `IMG-<8 digits>-WA<digits>...jpg` (date only)
//! 4. `Screenshot_<8 digits>-<6 digits>...jpg`
//!
//! The free tail of each convention may hold any bytes except a newline, as a
//! dot-matches-anything-but-newline wildcard reads it, and the extension is
//! matched case-sensitively at the very end of the name.

use crate::digits::{all_digits, digits_in_range, is_ascii_digit};
use vstd::prelude::*;

verus! {

/// A classified filename with its extracted digit groups; `NoMatch` names
/// every file that no convention covers.
#[derive(Clone, Debug, PartialEq, Eq)]
pub enum FileClass {
    NoMatch,
    ImgWithTime { date: Vec<u8>, time: Vec<u8> },
    VidWithTime { date: Vec<u8>, time: Vec<u8> },
    ImgDateOnly { date: Vec<u8> },
    Screenshot { date: Vec<u8>, time: Vec<u8> },
}

/// The bare convention tag of a classification, without the captured digits.
#[derive(Clone, Copy, PartialEq, Eq, Structural, Debug)]
pub enum MatchKind {
    Unmatched,
    ImgWithTime,
    VidWithTime,
    ImgDateOnly,
    Screenshot,
}

/// No byte of `s` is a newline.
pub open spec fn no_newline(s: Seq<u8>) -> bool {
    forall|i: int| 0 <= i < s.len() ==> #[trigger] s[i] != 10
}

/// The last four bytes of `s` spell `.jpg`.
pub open spec fn ends_jpg(s: Seq<u8>) -> bool {
    &&& s.len() >= 4
    &&& s[s.len() - 4] == 46
    &&& s[s.len() - 3] == 106
    &&& s[s.len() - 2] == 112
    &&& s[s.len() - 1] == 103
}

/// The last four bytes of `s` spell `.mp4`.
pub open spec fn ends_mp4(s: Seq<u8>) -> bool {
    &&& s.len() >= 4
    &&& s[s.len() - 4] == 46
    &&& s[s.len() - 3] == 109
    &&& s[s.len() - 2] == 112
    &&& s[s.len() - 1] == 52
}

/// `IMG_<8 digits>_<6 digits>` then a newline-free tail ending in `.jpg`.
pub open spec fn img_time_match(s: Seq<u8>) -> bool {
    &&& s.len() >= 23
    &&& s[0] == 73
    &&& s[1] == 77
    &&& s[2] == 71
    &&& s[3] == 95
    &&& all_digits(s.subrange(4, 12))
    &&& s[12] == 95
    &&& all_digits(s.subrange(13, 19))
    &&& ends_jpg(s)
    &&& no_newline(s.subrange(19, s.len() - 4))
}

/// `VID_<8 digits>_<6 digits>` then a newline-free tail ending in `.mp4`.
pub open spec fn vid_time_match(s: Seq<u8>) -> bool {
    &&& s.len() >= 23
    &&& s[0] == 86
    &&& s[1] == 73
    &&& s[2] == 68
    &&& s[3] == 95
    &&& all_digits(s.subrange(4, 12))
    &&& s[12] == 95
    &&& all_digits(s.subrange(13, 19))
    &&& ends_mp4(s)
    &&& no_newline(s.subrange(19, s.len() - 4))
}

/// `IMG-<8 digits>-WA` then at least one digit, then a newline-free tail
/// ending in `.jpg`.
pub open spec fn img_date_only_match(s: Seq<u8>) -> bool {
    &&& s.len() >= 20
    &&& s[0] == 73
    &&& s[1] == 77
    &&& s[2] == 71
    &&& s[3] == 45
    &&& all_digits(s.subrange(4, 12))
    &&& s[12] == 45
    &&& s[13] == 87
    &&& s[14] == 65
    &&& is_ascii_digit(s[15])
    &&& ends_jpg(s)
    &&& no_newline(s.subrange(16, s.len() - 4))
}

/// `Screenshot_<8 digits>-<6 digits>` then a newline-free tail ending in
/// `.jpg`.
pub open spec fn screenshot_match(s: Seq<u8>) -> bool {
    &&& s.len() >= 30
    &&& s[0] == 83
    &&& s[1] == 99
    &&& s[2] == 114
    &&& s[3] == 101
    &&& s[4] == 101
    &&& s[5] == 110
    &&& s[6] == 115
    &&& s[7] == 104
    &&& s[8] == 111
    &&& s[9] == 116
    &&& s[10] == 95
    &&& all_digits(s.subrange(11, 19))
    &&& s[19] == 45
    &&& all_digits(s.subrange(20, 26))
    &&& ends_jpg(s)
    &&& no_newline(s.subrange(26, s.len() - 4))
}

/// Which convention, if any, a filename falls under, in evaluation order:
/// image with time, video with time, image date-only, screenshot.
pub open spec fn match_kind_spec(s: Seq<u8>) -> MatchKind {
    if img_time_match(s) {
        MatchKind::ImgWithTime
    } else if vid_time_match(s) {
        MatchKind::VidWithTime
    } else if img_date_only_match(s) {
        MatchKind::ImgDateOnly
    } else if screenshot_match(s) {
        MatchKind::Screenshot
    } else {
        MatchKind::Unmatched
    }
}

/// The tag of a classification.
pub open spec fn kind_of(c: FileClass) -> MatchKind {
    match c {
        FileClass::NoMatch => MatchKind::Unmatched,
        FileClass::ImgWithTime { .. } => MatchKind::ImgWithTime,
        FileClass::VidWithTime { .. } => MatchKind::VidWithTime,
        FileClass::ImgDateOnly { .. } => MatchKind::ImgDateOnly,
        FileClass::Screenshot { .. } => MatchKind::Screenshot,
    }
}

/// A classification other than `NoMatch`: the file belongs to the matched
/// ("dated") set.
pub open spec fn is_matched(c: FileClass) -> bool {
    !(c is NoMatch)
}

/// Checks that no byte of `s[from..to]` is a newline.
fn newline_free(s: &[u8], from: usize, to: usize) -> (r: bool)
    requires
        from <= to <= s@.len(),
    ensures
        r == no_newline(s@.subrange(from as int, to as int)),
{
    let mut i: usize = from;
    while i < to
        invariant
            from <= i <= to <= s@.len(),
            forall|j: int| from <= j < i ==> #[trigger] s@[j] != 10,
        decreases to - i,
    {
        if s[i] == 10 {
            assert(!no_newline(s@.subrange(from as int, to as int))) by {
                assert(s@.subrange(from as int, to as int)[i - from] == s@[i as int]);
            }
            return false;
        }
        i = i + 1;
    }
    assert(no_newline(s@.subrange(from as int, to as int))) by {
        assert forall|j: int| 0 <= j < to - from implies #[trigger] s@.subrange(
            from as int,
            to as int,
        )[j] != 10 by {
            assert(s@.subrange(from as int, to as int)[j] == s@[from + j]);
        }
    }
    true
}

/// Copies `s[from..to]` into a fresh vector.
fn copy_range(s: &[u8], from: usize, to: usize) -> (r: Vec<u8>)
    requires
        from <= to <= s@.len(),
    ensures
        r@ == s@.subrange(from as int, to as int),
{
    let mut out: Vec<u8> = Vec::new();
    let mut i: usize = from;
    while i < to
        invariant
            from <= i <= to <= s@.len(),
            out@ =~= s@.subrange(from as int, i as int),
        decreases to - i,
    {
        out.push(s[i]);
        i = i + 1;
    }
    assert(out@ =~= s@.subrange(from as int, to as int));
    out
}

/// Decides [`img_time_match`].
fn is_img_time(name: &[u8]) -> (r: bool)
    ensures
        r == img_time_match(name@),
{
    let n = name.len();
    if n < 23 {
        return false;
    }
    name[0] == 73 && name[1] == 77 && name[2] == 71 && name[3] == 95 && digits_in_range(
        name,
        4,
        12,
    ) && name[12] == 95 && digits_in_range(name, 13, 19) && name[n - 4] == 46 && name[n - 3] == 106
        && name[n - 2] == 112 && name[n - 1] == 103 && newline_free(name, 19, n - 4)
}

/// Decides [`vid_time_match`].
fn is_vid_time(name: &[u8]) -> (r: bool)
    ensures
        r == vid_time_match(name@),
{
    let n = name.len();
    if n < 23 {
        return false;
    }
    name[0] == 86 && name[1] == 73 && name[2] == 68 && name[3] == 95 && digits_in_range(
        name,
        4,
        12,
    ) && name[12] == 95 && digits_in_range(name, 13, 19) && name[n - 4] == 46 && name[n - 3] == 109
        && name[n - 2] == 112 && name[n - 1] == 52 && newline_free(name, 19, n - 4)
}

/// Decides [`img_date_only_match`].
fn is_img_date_only(name: &[u8]) -> (r: bool)
    ensures
        r == img_date_only_match(name@),
{
    let n = name.len();
    if n < 20 {
        return false;
    }
    name[0] == 73 && name[1] == 77 && name[2] == 71 && name[3] == 45 && digits_in_range(
        name,
        4,
        12,
    ) && name[12] == 45 && name[13] == 87 && name[14] == 65 && name[15] >= 48 && name[15] <= 57
        && name[n - 4] == 46 && name[n - 3] == 106 && name[n - 2] == 112 && name[n - 1] == 103
        && newline_free(name, 16, n - 4)
}

/// Decides [`screenshot_match`].
fn is_screenshot(name: &[u8]) -> (r: bool)
    ensures
        r == screenshot_match(name@),
{
    let n = name.len();
    if n < 30 {
        return false;
    }
    name[0] == 83 && name[1] == 99 && name[2] == 114 && name[3] == 101 && name[4] == 101
        && name[5] == 110 && name[6] == 115 && name[7] == 104 && name[8] == 111 && name[9] == 116
        && name[10] == 95 && digits_in_range(name, 11, 19) && name[19] == 45 && digits_in_range(
        name,
        20,
        26,
    ) && name[n - 4] == 46 && name[n - 3] == 106 && name[n - 2] == 112 && name[n - 1] == 103
        && newline_free(name, 26, n - 4)
}

/// Classifies a filename against the four conventions, first match wins, and
/// extracts the date and time digit groups of the winning one.
pub fn classify_filename(name: &[u8]) -> (r: FileClass)
    ensures
        kind_of(r) == match_kind_spec(name@),
        r matches FileClass::ImgWithTime { date, time } ==> date@ == name@.subrange(4, 12) && time@
            == name@.subrange(13, 19),
        r matches FileClass::VidWithTime { date, time } ==> date@ == name@.subrange(4, 12) && time@
            == name@.subrange(13, 19),
        r matches FileClass::ImgDateOnly { date } ==> date@ == name@.subrange(4, 12),
        r matches FileClass::Screenshot { date, time } ==> date@ == name@.subrange(11, 19) && time@
            == name@.subrange(20, 26),
{
    if is_img_time(name) {
        FileClass::ImgWithTime { date: copy_range(name, 4, 12), time: copy_range(name, 13, 19) }
    } else if is_vid_time(name) {
        FileClass::VidWithTime { date: copy_range(name, 4, 12), time: copy_range(name, 13, 19) }
    } else if is_img_date_only(name) {
        FileClass::ImgDateOnly { date: copy_range(name, 4, 12) }
    } else if is_screenshot(name) {
        FileClass::Screenshot { date: copy_range(name, 11, 19), time: copy_range(name, 20, 26) }
    } else {
        FileClass::NoMatch
    }
}

} // verus!
