use lrcget_core::lyrics::{
    classify_user_lyrics, complete, has_instrumental_marker, outcome_from_raw,
    plan_marked_user_lyrics, plan_provider_lyrics, plan_user_lyrics, LyricsError, LyricsOutcome,
    RawLyrics, StorageUpdate,
};

fn s(text: &str) -> String {
    text.to_string()
}

#[test]
fn marker_variants_are_instrumental() {
    for marker in ["[au: instrumental]", "[au:instrumental]", "[AU: Instrumental]", "[au:INSTRUMENTAL]"] {
        assert!(has_instrumental_marker(marker));
        let plan = plan_user_lyrics(3, s("some plain words"), s(marker));
        assert_eq!(plan.update, StorageUpdate::Instrumental);
        assert_eq!(plan.track_id, 3);
        assert!(plan.reload);
    }
}

#[test]
fn marker_inside_longer_text() {
    assert!(has_instrumental_marker("[ti: Song]\n[au: instrumental]\n"));
}

#[test]
fn near_markers_are_not_instrumental() {
    assert!(!has_instrumental_marker(""));
    assert!(!has_instrumental_marker("[au:  instrumental]"));
    assert!(!has_instrumental_marker("[au instrumental]"));
    assert!(!has_instrumental_marker("[00:01.00] instrumental"));
}

#[test]
fn empty_input_clears_lyrics() {
    let plan = plan_user_lyrics(4, s(""), s(""));
    assert_eq!(plan.update, StorageUpdate::NullLyrics);
    assert!(plan.reload);
    assert_eq!(plan.message, "Lyrics saved successfully");
}

#[test]
fn synced_without_marker_is_synced() {
    let plan = plan_user_lyrics(5, s("la la"), s("[00:01.00] la la"));
    assert_eq!(
        plan.update,
        StorageUpdate::SyncedLyrics { synced: s("[00:01.00] la la"), plain: s("la la") }
    );
}

#[test]
fn plain_only_is_plain() {
    let plan = plan_user_lyrics(6, s("la la"), s(""));
    assert_eq!(plan.update, StorageUpdate::PlainLyrics { plain: s("la la") });
}

#[test]
fn classification_follows_the_marker_flag() {
    assert_eq!(classify_user_lyrics(s("a"), s("b"), true), StorageUpdate::Instrumental);
    assert_eq!(
        classify_user_lyrics(s("a"), s("b"), false),
        StorageUpdate::SyncedLyrics { synced: s("b"), plain: s("a") }
    );
    let plan = plan_marked_user_lyrics(9, s(""), s(""), true);
    assert_eq!(plan.update, StorageUpdate::Instrumental);
}

#[test]
fn provider_not_found_scenario() {
    let plan = plan_provider_lyrics(7, LyricsOutcome::NotFound);
    assert_eq!(plan, Err(LyricsError::NotFound));
}

#[test]
fn provider_synced_reloads() {
    let plan = plan_provider_lyrics(7, LyricsOutcome::SyncedLyrics(s("[00:01.00] x"), s("x"))).unwrap();
    assert_eq!(plan.update, StorageUpdate::SyncedLyrics { synced: s("[00:01.00] x"), plain: s("x") });
    assert!(plan.reload);
    assert_eq!(plan.message, "Synced lyrics downloaded");
}

#[test]
fn provider_plain_reloads() {
    let plan = plan_provider_lyrics(7, LyricsOutcome::UnsyncedLyrics(s("x"))).unwrap();
    assert_eq!(plan.update, StorageUpdate::PlainLyrics { plain: s("x") });
    assert!(plan.reload);
    assert_eq!(plan.message, "Plain lyrics downloaded");
}

#[test]
fn provider_instrumental_does_not_reload() {
    let plan = plan_provider_lyrics(7, LyricsOutcome::Instrumental).unwrap();
    assert_eq!(plan.update, StorageUpdate::Instrumental);
    assert!(!plan.reload);
    let done = complete(plan, true);
    assert_eq!(done.result, Ok(s("Marked track as instrumental")));
    assert_eq!(done.reload_track_id, None);
}

#[test]
fn stored_update_notifies_reload() {
    let plan = plan_provider_lyrics(8, LyricsOutcome::UnsyncedLyrics(s("x"))).unwrap();
    let done = complete(plan, true);
    assert_eq!(done.result, Ok(s("Plain lyrics downloaded")));
    assert_eq!(done.reload_track_id, Some(8));
}

#[test]
fn failed_update_reports_storage_error() {
    let plan = plan_user_lyrics(8, s("x"), s(""));
    let done = complete(plan, false);
    assert_eq!(done.result, Err(LyricsError::Storage));
    assert_eq!(done.reload_track_id, None);
}

#[test]
fn raw_answers_are_classified() {
    let raw = |plain: Option<&str>, synced: Option<&str>, instrumental: bool| RawLyrics {
        plain_lyrics: plain.map(s),
        synced_lyrics: synced.map(s),
        instrumental,
    };
    assert_eq!(outcome_from_raw(raw(Some("p"), Some("s"), true)), LyricsOutcome::Instrumental);
    assert_eq!(
        outcome_from_raw(raw(Some("p"), Some("s"), false)),
        LyricsOutcome::SyncedLyrics(s("s"), s("p"))
    );
    assert_eq!(
        outcome_from_raw(raw(None, Some("s"), false)),
        LyricsOutcome::SyncedLyrics(s("s"), s(""))
    );
    assert_eq!(outcome_from_raw(raw(Some("p"), Some(""), false)), LyricsOutcome::UnsyncedLyrics(s("p")));
    assert_eq!(outcome_from_raw(raw(Some("p"), None, false)), LyricsOutcome::UnsyncedLyrics(s("p")));
    assert_eq!(outcome_from_raw(raw(Some(""), None, false)), LyricsOutcome::NotFound);
    assert_eq!(outcome_from_raw(raw(None, None, false)), LyricsOutcome::NotFound);
}

#[test]
fn applied_answer_matches_downloaded_outcome() {
    let raw = RawLyrics { plain_lyrics: Some(s("x")), synced_lyrics: Some(s("[00:01.00] x")), instrumental: false };
    let applied = complete(plan_provider_lyrics(2, outcome_from_raw(raw)).unwrap(), true);
    let downloaded = complete(
        plan_provider_lyrics(2, LyricsOutcome::SyncedLyrics(s("[00:01.00] x"), s("x"))).unwrap(),
        true,
    );
    assert_eq!(applied, downloaded);
    assert_eq!(applied.result, Ok(s("Synced lyrics downloaded")));
    assert_eq!(applied.reload_track_id, Some(2));
}
