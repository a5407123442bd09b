//! Lyrics resolution: which lyrics variant applies to a track, the single
//! storage update that records it, and whether observers are told to reload
//! the track.
//!
//! Storage and notification are done by the caller: a plan names the update
//! to make, and `complete` decides the result once the caller has tried it.

use vstd::prelude::*;
use vstd::string::*;

verus! {

/// What a lyrics provider reported for a track.
#[derive(Debug, PartialEq, Eq)]
pub enum LyricsOutcome {
    /// Time-tagged lyrics, then the plain text.
    SyncedLyrics(String, String),
    /// Plain lyrics only.
    UnsyncedLyrics(String),
    Instrumental,
    NotFound,
}

/// A provider's answer before classification.
#[derive(Debug, PartialEq, Eq)]
pub struct RawLyrics {
    pub plain_lyrics: Option<String>,
    pub synced_lyrics: Option<String>,
    pub instrumental: bool,
}

/// The one storage update that records a resolution.
#[derive(Debug, PartialEq, Eq)]
pub enum StorageUpdate {
    /// Store both texts.
    SyncedLyrics { synced: String, plain: String },
    /// Store the plain text; the synced text is cleared.
    PlainLyrics { plain: String },
    /// Mark the track instrumental.
    Instrumental,
    /// Clear both texts.
    NullLyrics,
}

/// What to do for a track: one update, and whether to notify a reload once
/// it is stored.
#[derive(Debug, PartialEq, Eq)]
pub struct LyricsPlan {
    pub track_id: i64,
    pub update: StorageUpdate,
    pub reload: bool,
    pub message: String,
}

/// Why a resolution failed.
#[derive(Debug, Clone, Copy, PartialEq, Eq, Structural)]
pub enum LyricsError {
    /// The provider had no lyrics for the track.
    NotFound,
    /// The storage update failed.
    Storage,
}

/// How a resolution ended: the result for the caller, and the track whose
/// view observers are told to reload, if any.
#[derive(Debug, PartialEq, Eq)]
pub struct LyricsCompletion {
    pub result: Result<String, LyricsError>,
    pub reload_track_id: Option<i64>,
}

/// Whether the regular expression `pattern` matches somewhere in `text`.
pub uninterp spec fn regex_finds(pattern: Seq<char>, text: Seq<char>) -> bool;

/// Relies on regex's `Regex::new` and `Regex::is_match`: whether `pattern`
/// matches anywhere in `text`. A pattern that does not compile matches
/// nothing.
#[verifier::external_body]
fn regex_is_match(pattern: &str, text: &str) -> (r: bool)
    ensures
        r == regex_finds(pattern@, text@),
{
    match regex::Regex::new(pattern) {
        Ok(re) => re.is_match(text),
        Err(_) => false,
    }
}

/// The instrumental marker in synced text: `[au: instrumental]`, in any
/// case, the space after the colon optional.
pub const INSTRUMENTAL_MARKER: &'static str = r"(?i)\[au: ?instrumental\]";

/// Whether synced text carries the instrumental marker.
pub fn has_instrumental_marker(synced: &str) -> (r: bool)
    ensures
        r == regex_finds(INSTRUMENTAL_MARKER@, synced@),
{
    regex_is_match(INSTRUMENTAL_MARKER, synced)
}

/// The update for lyrics that a user submitted: instrumental when the
/// synced text is marked, else the synced text when there is some, else the
/// plain text when there is some, else clearing both.
pub open spec fn user_update(plain: String, synced: String, marked: bool) -> StorageUpdate {
    if marked {
        StorageUpdate::Instrumental
    } else if synced@.len() > 0 {
        StorageUpdate::SyncedLyrics { synced, plain }
    } else if plain@.len() > 0 {
        StorageUpdate::PlainLyrics { plain }
    } else {
        StorageUpdate::NullLyrics
    }
}

/// How submitted lyrics are classified: marked synced text is instrumental
/// whatever the plain text; unmarked, non-empty synced text is stored as
/// synced lyrics with the plain text; empty texts clear the stored lyrics.
pub proof fn lemma_user_classification(plain: String, synced: String, marked: bool)
    ensures
        marked ==> user_update(plain, synced, marked) == StorageUpdate::Instrumental,
        (!marked && synced@.len() > 0) ==> user_update(plain, synced, marked)
            == (StorageUpdate::SyncedLyrics { synced, plain }),
        (!marked && synced@.len() == 0 && plain@.len() == 0) ==> user_update(plain, synced, marked)
            == StorageUpdate::NullLyrics,
        (!marked && synced@.len() == 0 && plain@.len() > 0) ==> user_update(plain, synced, marked)
            == (StorageUpdate::PlainLyrics { plain }),
{
}

/// Classifies submitted lyrics, given whether the synced text carries the
/// instrumental marker.
pub fn classify_user_lyrics(plain: String, synced: String, marked: bool) -> (r: StorageUpdate)
    ensures
        r == user_update(plain, synced, marked),
{
    if marked {
        StorageUpdate::Instrumental
    } else if !synced.as_str().is_empty() {
        StorageUpdate::SyncedLyrics { synced, plain }
    } else if !plain.as_str().is_empty() {
        StorageUpdate::PlainLyrics { plain }
    } else {
        StorageUpdate::NullLyrics
    }
}

/// The plan for lyrics that a user submitted, given whether the synced text
/// carries the instrumental marker: observers always reload.
pub fn plan_marked_user_lyrics(track_id: i64, plain: String, synced: String, marked: bool) -> (r:
    LyricsPlan)
    ensures
        r.track_id == track_id,
        r.update == user_update(plain, synced, marked),
        r.reload,
        r.message@ == "Lyrics saved successfully"@,
{
    let update = classify_user_lyrics(plain, synced, marked);
    LyricsPlan {
        track_id,
        update,
        reload: true,
        message: String::from_str("Lyrics saved successfully"),
    }
}

/// The plan for lyrics that a user submitted.
pub fn plan_user_lyrics(track_id: i64, plain: String, synced: String) -> (r: LyricsPlan)
    ensures
        r.track_id == track_id,
        r.update == user_update(plain, synced, regex_finds(INSTRUMENTAL_MARKER@, synced@)),
        r.reload,
        r.message@ == "Lyrics saved successfully"@,
{
    let marked = has_instrumental_marker(synced.as_str());
    plan_marked_user_lyrics(track_id, plain, synced, marked)
}

/// A text that is present and not empty.
pub open spec fn has_text(text: Option<String>) -> bool {
    text matches Some(t) && t@.len() > 0
}

/// Classifies a provider's raw answer: instrumental when flagged so, else
/// the synced text when there is some (with the plain text, empty when
/// absent), else the plain text when there is some, else not found.
pub fn outcome_from_raw(raw: RawLyrics) -> (r: LyricsOutcome)
    ensures
        raw.instrumental ==> r is Instrumental,
        (!raw.instrumental && has_text(raw.synced_lyrics)) ==> (r matches LyricsOutcome::SyncedLyrics(
            rs,
            rp,
        ) && Some(rs) == raw.synced_lyrics && (raw.plain_lyrics is Some ==> Some(rp)
            == raw.plain_lyrics) && (raw.plain_lyrics is None ==> rp@.len() == 0)),
        (!raw.instrumental && !has_text(raw.synced_lyrics) && has_text(raw.plain_lyrics)) ==> (r
            matches LyricsOutcome::UnsyncedLyrics(rp) && Some(rp) == raw.plain_lyrics),
        (!raw.instrumental && !has_text(raw.synced_lyrics) && !has_text(raw.plain_lyrics)) ==> r
            is NotFound,
{
    if raw.instrumental {
        return LyricsOutcome::Instrumental;
    }
    let synced_present = match &raw.synced_lyrics {
        Some(s) => !s.as_str().is_empty(),
        None => false,
    };
    let plain_present = match &raw.plain_lyrics {
        Some(p) => !p.as_str().is_empty(),
        None => false,
    };
    if synced_present {
        let synced = match raw.synced_lyrics {
            Some(s) => s,
            None => String::new(),
        };
        let plain = match raw.plain_lyrics {
            Some(p) => p,
            None => String::new(),
        };
        LyricsOutcome::SyncedLyrics(synced, plain)
    } else if plain_present {
        let plain = match raw.plain_lyrics {
            Some(p) => p,
            None => String::new(),
        };
        LyricsOutcome::UnsyncedLyrics(plain)
    } else {
        LyricsOutcome::NotFound
    }
}

/// The update for a provider's outcome; `None` when it found nothing.
pub open spec fn provider_update(outcome: LyricsOutcome) -> Option<StorageUpdate> {
    match outcome {
        LyricsOutcome::SyncedLyrics(synced, plain) => Some(
            StorageUpdate::SyncedLyrics { synced, plain },
        ),
        LyricsOutcome::UnsyncedLyrics(plain) => Some(StorageUpdate::PlainLyrics { plain }),
        LyricsOutcome::Instrumental => Some(StorageUpdate::Instrumental),
        LyricsOutcome::NotFound => None,
    }
}

/// The message reported once a provider's outcome is stored.
pub open spec fn provider_message(outcome: LyricsOutcome) -> Seq<char> {
    match outcome {
        LyricsOutcome::SyncedLyrics(_, _) => "Synced lyrics downloaded"@,
        LyricsOutcome::UnsyncedLyrics(_) => "Plain lyrics downloaded"@,
        LyricsOutcome::Instrumental => "Marked track as instrumental"@,
        LyricsOutcome::NotFound => Seq::empty(),
    }
}

/// The plan for a provider's outcome: not found is an error with no update;
/// lyrics are stored and observers reload; an instrumental track is marked
/// without a reload.
pub fn plan_provider_lyrics(track_id: i64, outcome: LyricsOutcome) -> (r: Result<
    LyricsPlan,
    LyricsError,
>)
    ensures
        provider_update(outcome) is None <==> r == Err::<LyricsPlan, LyricsError>(
            LyricsError::NotFound,
        ),
        provider_update(outcome) is Some ==> (r matches Ok(plan) && plan.track_id == track_id
            && Some(plan.update) == provider_update(outcome) && plan.reload == !(
        outcome is Instrumental) && plan.message@ == provider_message(outcome)),
{
    match outcome {
        LyricsOutcome::SyncedLyrics(synced, plain) => Ok(
            LyricsPlan {
                track_id,
                update: StorageUpdate::SyncedLyrics { synced, plain },
                reload: true,
                message: String::from_str("Synced lyrics downloaded"),
            },
        ),
        LyricsOutcome::UnsyncedLyrics(plain) => Ok(
            LyricsPlan {
                track_id,
                update: StorageUpdate::PlainLyrics { plain },
                reload: true,
                message: String::from_str("Plain lyrics downloaded"),
            },
        ),
        LyricsOutcome::Instrumental => Ok(
            LyricsPlan {
                track_id,
                update: StorageUpdate::Instrumental,
                reload: false,
                message: String::from_str("Marked track as instrumental"),
            },
        ),
        LyricsOutcome::NotFound => Err(LyricsError::NotFound),
    }
}

/// Ends a resolution once the caller has tried the plan's update: when it
/// was stored, the plan's message, and the track to reload if the plan asks
/// for it; when it failed, a storage error and no notification.
pub fn complete(plan: LyricsPlan, stored: bool) -> (r: LyricsCompletion)
    ensures
        stored ==> r.result == Ok::<String, LyricsError>(plan.message),
        !stored ==> r.result == Err::<String, LyricsError>(LyricsError::Storage),
        r.reload_track_id == (if stored && plan.reload {
            Some(plan.track_id)
        } else {
            None
        }),
{
    if stored {
        let reload_track_id = if plan.reload {
            Some(plan.track_id)
        } else {
            None
        };
        LyricsCompletion { result: Ok(plan.message), reload_track_id }
    } else {
        LyricsCompletion { result: Err(LyricsError::Storage), reload_track_id: None }
    }
}

} // verus!
