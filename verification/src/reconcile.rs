//! The per-file decision pipeline: build the candidate date-time from the
//! extracted digits, weigh it against the embedded capture date, and name the
//! side effects the file is owed. Everything here is a pure function of its
//! arguments; in particular no decision depends on the dry-run flag, which
//! only gates whether any effect is handed out at all.

use crate::datetime::{
    dt_from_digits, dt_lt, datetime_before, datetime_from_digits, format_spec,
    lemma_format_round_trip, lemma_format_round_trip_date_only, DateTime,
};
use crate::matcher::{is_matched, kind_of, match_kind_spec, FileClass, MatchKind};
use vstd::prelude::*;

verus! {

/// The metadata-level outcome chosen for one classified file.
#[derive(Clone, Copy, PartialEq, Eq, Structural, Debug)]
pub enum MetaAction {
    /// Rewrite the embedded capture date to the candidate value.
    RewriteExif(DateTime),
    /// Set the filesystem modification time to the candidate value.
    SetModifiedTime(DateTime),
    /// The embedded date is already consistent or more precise.
    NoChange,
    /// The digit groups name no real date-time: report, mutate nothing.
    ParseFailure,
    /// No metadata work applies (unmatched file, or a video file).
    NotApplicable,
}

/// A side effect requested for one file; the caller performs it.
#[derive(Clone, Copy, PartialEq, Eq, Structural, Debug)]
pub enum Effect {
    /// Have the external metadata tool set the capture date to this value.
    WriteExifDate(DateTime),
    /// Set the file's last-modified time to this value, keeping its
    /// last-access time.
    SetModifiedTime(DateTime),
    /// Move the file into the output directory, flat, under its own name.
    Relocate,
}

/// Embedded metadata is inspected only for image files among the matched
/// conventions; video files never reach the metadata stage.
pub open spec fn needs_metadata_spec(c: FileClass) -> bool {
    c is ImgWithTime || c is ImgDateOnly || c is Screenshot
}

/// Decides [`needs_metadata_spec`].
pub fn needs_metadata_read(class: &FileClass) -> (r: bool)
    ensures
        r == needs_metadata_spec(*class),
{
    match class {
        FileClass::ImgWithTime { .. } => true,
        FileClass::ImgDateOnly { .. } => true,
        FileClass::Screenshot { .. } => true,
        _ => false,
    }
}

/// The candidate date-time of a classification: date and time digits
/// combined, the date at midnight where no time group was captured, and
/// nothing for an unmatched file or digits naming no real date.
pub open spec fn candidate_spec(c: FileClass) -> Option<DateTime> {
    match c {
        FileClass::NoMatch => None,
        FileClass::ImgWithTime { date, time } => dt_from_digits(date@, Some(time@)),
        FileClass::VidWithTime { date, time } => dt_from_digits(date@, Some(time@)),
        FileClass::ImgDateOnly { date } => dt_from_digits(date@, None),
        FileClass::Screenshot { date, time } => dt_from_digits(date@, Some(time@)),
    }
}

/// Builds the candidate date-time of a classification.
pub fn candidate_of(class: &FileClass) -> (r: Option<DateTime>)
    ensures
        r == candidate_spec(*class),
{
    match class {
        FileClass::NoMatch => None,
        FileClass::ImgWithTime { date, time } => datetime_from_digits(
            date,
            &Some(time.clone()),
        ),
        FileClass::VidWithTime { date, time } => datetime_from_digits(date, &Some(time.clone())),
        FileClass::ImgDateOnly { date } => datetime_from_digits(date, &None),
        FileClass::Screenshot { date, time } => datetime_from_digits(date, &Some(time.clone())),
    }
}

/// The reconciliation rule. For an image file with both values at hand: a
/// rewrite exactly when the candidate is strictly earlier than the embedded
/// date; no embedded date routes to a filesystem timestamp correction; an
/// unparseable candidate is a reported failure with no mutation.
pub open spec fn plan_spec(c: FileClass, embedded: Option<DateTime>) -> MetaAction {
    if !needs_metadata_spec(c) {
        MetaAction::NotApplicable
    } else {
        match candidate_spec(c) {
            None => MetaAction::ParseFailure,
            Some(cand) => match embedded {
                Some(emb) => if dt_lt(cand, emb) {
                    MetaAction::RewriteExif(cand)
                } else {
                    MetaAction::NoChange
                },
                None => MetaAction::SetModifiedTime(cand),
            },
        }
    }
}

/// Chooses the metadata-level outcome for a classified file, given the
/// embedded capture date if one was found.
pub fn plan_metadata(class: &FileClass, embedded: Option<DateTime>) -> (r: MetaAction)
    ensures
        r == plan_spec(*class, embedded),
{
    if !needs_metadata_read(class) {
        return MetaAction::NotApplicable;
    }
    match candidate_of(class) {
        None => MetaAction::ParseFailure,
        Some(cand) => match embedded {
            Some(emb) => if datetime_before(&cand, &emb) {
                MetaAction::RewriteExif(cand)
            } else {
                MetaAction::NoChange
            },
            None => MetaAction::SetModifiedTime(cand),
        },
    }
}

/// Every matched file is relocated when an output directory was supplied;
/// unmatched files never are.
pub open spec fn relocate_spec(c: FileClass, have_output: bool) -> bool {
    is_matched(c) && have_output
}

/// Decides [`relocate_spec`].
pub fn should_relocate(class: &FileClass, have_output: bool) -> (r: bool)
    ensures
        r == relocate_spec(*class, have_output),
{
    match class {
        FileClass::NoMatch => false,
        _ => have_output,
    }
}

/// The effect a metadata outcome asks for, if any.
pub open spec fn meta_effects_spec(c: FileClass, embedded: Option<DateTime>) -> Seq<Effect> {
    match plan_spec(c, embedded) {
        MetaAction::RewriteExif(dt) => seq![Effect::WriteExifDate(dt)],
        MetaAction::SetModifiedTime(dt) => seq![Effect::SetModifiedTime(dt)],
        MetaAction::NoChange => Seq::empty(),
        MetaAction::ParseFailure => Seq::empty(),
        MetaAction::NotApplicable => Seq::empty(),
    }
}

/// All effects one file is owed: the metadata effect, then relocation. A dry
/// run is owed none at all.
pub open spec fn effects_spec(
    c: FileClass,
    embedded: Option<DateTime>,
    have_output: bool,
    dry_run: bool,
) -> Seq<Effect> {
    if dry_run {
        Seq::empty()
    } else {
        meta_effects_spec(c, embedded) + if relocate_spec(c, have_output) {
            seq![Effect::Relocate]
        } else {
            Seq::empty()
        }
    }
}

/// Lists the effects to perform for one classified file, in order.
pub fn file_effects(
    class: &FileClass,
    embedded: Option<DateTime>,
    have_output: bool,
    dry_run: bool,
) -> (r: Vec<Effect>)
    ensures
        r@ == effects_spec(*class, embedded, have_output, dry_run),
{
    let mut out: Vec<Effect> = Vec::new();
    if dry_run {
        assert(out@ =~= effects_spec(*class, embedded, have_output, dry_run));
        return out;
    }
    match plan_metadata(class, embedded) {
        MetaAction::RewriteExif(dt) => out.push(Effect::WriteExifDate(dt)),
        MetaAction::SetModifiedTime(dt) => out.push(Effect::SetModifiedTime(dt)),
        MetaAction::NoChange => (),
        MetaAction::ParseFailure => (),
        MetaAction::NotApplicable => (),
    }
    if should_relocate(class, have_output) {
        out.push(Effect::Relocate);
    }
    assert(out@ =~= effects_spec(*class, embedded, have_output, dry_run));
    out
}

/// The `YYYY:MM:DD HH:MM:SS` rendering that a date digit group `d` and a time
/// digit group `t` dictate, digit for digit.
pub open spec fn digits_rendering(d: Seq<u8>, t: Seq<u8>) -> Seq<u8> {
    seq![
        d[0],
        d[1],
        d[2],
        d[3],
        58u8,
        d[4],
        d[5],
        58u8,
        d[6],
        d[7],
        32u8,
        t[0],
        t[1],
        58u8,
        t[2],
        t[3],
        58u8,
        t[4],
        t[5],
    ]
}

/// Round trip of the extracted digits: whenever a classified filename's
/// candidate parses, re-formatting it reproduces exactly the digit groups
/// extracted from the name, and a date-only match renders with a midnight
/// time.
pub proof fn lemma_candidate_round_trip(c: FileClass)
    requires
        candidate_spec(c) is Some,
    ensures
        c matches FileClass::ImgWithTime { date, time } ==> format_spec(
            candidate_spec(c).unwrap(),
        ) == digits_rendering(date@, time@),
        c matches FileClass::VidWithTime { date, time } ==> format_spec(
            candidate_spec(c).unwrap(),
        ) == digits_rendering(date@, time@),
        c matches FileClass::Screenshot { date, time } ==> format_spec(
            candidate_spec(c).unwrap(),
        ) == digits_rendering(date@, time@),
        c matches FileClass::ImgDateOnly { date } ==> format_spec(candidate_spec(c).unwrap())
            == digits_rendering(date@, seq![48u8, 48, 48, 48, 48, 48]),
{
    match c {
        FileClass::NoMatch => (),
        FileClass::ImgWithTime { date, time } => lemma_format_round_trip(date@, time@),
        FileClass::VidWithTime { date, time } => lemma_format_round_trip(date@, time@),
        FileClass::Screenshot { date, time } => lemma_format_round_trip(date@, time@),
        FileClass::ImgDateOnly { date } => {
            lemma_format_round_trip_date_only(date@);
            assert(format_spec(candidate_spec(c).unwrap()) =~= digits_rendering(
                date@,
                seq![48u8, 48, 48, 48, 48, 48],
            ));
        }
    }
}

/// A metadata rewrite is requested if and only if the file is an image of a
/// matched convention, its digits parse, an embedded date is present, and the
/// candidate is strictly earlier than the embedded date; the rewritten value
/// is then the candidate itself. A candidate equal to or later than the
/// embedded date, or an absent embedded date, never yields a rewrite.
pub proof fn lemma_rewrite_iff_candidate_earlier(c: FileClass, embedded: Option<DateTime>)
    ensures
        (plan_spec(c, embedded) is RewriteExif) <==> (needs_metadata_spec(c) && candidate_spec(c)
            is Some && embedded is Some && dt_lt(
            candidate_spec(c).unwrap(),
            embedded.unwrap(),
        )),
        plan_spec(c, embedded) matches MetaAction::RewriteExif(dt) ==> dt == candidate_spec(
            c,
        ).unwrap(),
        embedded is None && needs_metadata_spec(c) && candidate_spec(c) is Some ==> plan_spec(
            c,
            embedded,
        ) == MetaAction::SetModifiedTime(candidate_spec(c).unwrap()),
{
}

/// A dry run is owed no effect whatever the file, the embedded date, or the
/// output directory; and since neither classification nor planning takes the
/// dry-run flag, both come out identical to a normal run's.
pub proof fn lemma_dry_run_no_effects(c: FileClass, embedded: Option<DateTime>, have_output: bool)
    ensures
        effects_spec(c, embedded, have_output, true) == Seq::<Effect>::empty(),
{
}

/// A filename no convention covers classifies as `NoMatch`, reaches neither
/// the metadata stage nor the timestamp stage, and is not relocated even when
/// an output directory was supplied.
pub proof fn lemma_unmatched_file_untouched(
    name: Seq<u8>,
    c: FileClass,
    embedded: Option<DateTime>,
    have_output: bool,
    dry_run: bool,
)
    requires
        match_kind_spec(name) == MatchKind::Unmatched,
        kind_of(c) == match_kind_spec(name),
    ensures
        c == FileClass::NoMatch,
        !needs_metadata_spec(c),
        plan_spec(c, embedded) == MetaAction::NotApplicable,
        !relocate_spec(c, have_output),
        effects_spec(c, embedded, have_output, dry_run) == Seq::<Effect>::empty(),
{
    assert(effects_spec(c, embedded, have_output, dry_run) =~= Seq::<Effect>::empty());
}

} // verus!
