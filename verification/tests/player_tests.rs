use music_bot::commands::play::Play;
use music_bot::commands::queue::Queue;
use music_bot::commands::shuffle::Shuffle;
use music_bot::commands::play::{LoadedTracks, PlayFailure};
use music_bot::commands::queue::NowPlaying;
use music_bot::track::{SongMetadata, TrackInfo};
use std::collections::VecDeque;
use std::time::Duration;

fn track(author: &str, title: &str, uri: Option<&str>) -> TrackInfo {
    TrackInfo {
        author: author.to_string(),
        title: title.to_string(),
        uri: uri.map(|u| u.to_string()),
    }
}

#[test]
fn track_labels() {
    assert_eq!(track("A", "T", Some("https://u")).label(), "[A - T](<https://u>)");
    assert_eq!(track("A", "T", None).label(), "A - T");
}

#[test]
fn addresses_pass_through_other_terms_are_searched() {
    assert_eq!(Play::search_query("https://youtu.be/x"), "https://youtu.be/x");
    assert_eq!(Play::search_query("never gonna"), "ytsearch:never gonna");
    assert_eq!(Play::search_query(""), "ytsearch:");
    assert_eq!(Play::search_query("htt"), "ytsearch:htt");
}

#[test]
fn enqueue_one_track() {
    let p = Play::plan_enqueue(&LoadedTracks::Track(track("A", "T", Some("u")))).unwrap();
    assert_eq!(p.take, 1);
    assert_eq!(p.message, "Added to queue: [A - T](<u>)");
}

#[test]
fn enqueue_first_search_result() {
    let loaded = LoadedTracks::Search(vec![track("A", "T", None), track("B", "U", None)]);
    let p = Play::plan_enqueue(&loaded).unwrap();
    assert_eq!(p.take, 1);
    assert_eq!(p.message, "Added to queue: A - T");
}

#[test]
fn enqueue_whole_playlist() {
    let loaded = LoadedTracks::Playlist(
        "Mix".to_string(),
        vec![track("A", "T", None), track("B", "U", None), track("C", "V", None)],
    );
    let p = Play::plan_enqueue(&loaded).unwrap();
    assert_eq!(p.take, 3);
    assert_eq!(p.message, "Added playlist to queue: Mix");
}

#[test]
fn nothing_loaded_plans_nothing() {
    assert!(Play::plan_enqueue(&LoadedTracks::Nothing).is_none());
}

#[test]
fn when_playback_starts() {
    assert!(Play::should_start(false, true));
    assert!(!Play::should_start(true, true));
    assert!(!Play::should_start(false, false));
    assert!(Play::start_after_enqueue(false, false, true));
    assert!(!Play::start_after_enqueue(true, false, true));
    assert!(!Play::start_after_enqueue(false, true, true));
}

#[test]
fn search_from_words() {
    let words = vec!["never".to_string(), "gonna".to_string(), "give".to_string()];
    assert_eq!(Play::words_search(&words), Ok("never gonna give".to_string()));
    assert_eq!(Play::words_search(&vec![]), Ok(String::new()));
    let url = vec!["https://youtu.be/x".to_string()];
    assert_eq!(Play::words_search(&url), Err("Cannot be a url".to_string()));
}

#[test]
fn playing_reply_text() {
    let song = SongMetadata { title: Some("Song".to_string()), duration: Some(Duration::from_secs(200)) };
    assert_eq!(Play::playing_reply(&song, "E"), "Playing **Song** (`03:20`)\nEEEEEEE");
    let unknown = SongMetadata { title: None, duration: None };
    assert_eq!(Play::playing_reply(&unknown, ":)"), "Playing **idk lmfao** (`00:00`)\n:):):):):):):)");
}

#[test]
fn now_playing_line() {
    let now = Some(NowPlaying { track: track("A", "T", Some("u")), position_ms: 125_999 });
    assert_eq!(Queue::now_playing(&now), "Now playing: [A - T](<u>) | 02:05");
    let long = Some(NowPlaying { track: track("A", "T", None), position_ms: 6_000_000 });
    assert_eq!(Queue::now_playing(&long), "Now playing: A - T | 100:00");
    assert_eq!(Queue::now_playing(&None), "Now playing: nothing");
}

#[test]
fn queue_lists_at_most_nine() {
    let tracks: Vec<TrackInfo> = (0..12).map(|i| track("A", &format!("T{}", i), None)).collect();
    let l = Queue::listing(&tracks, 12);
    assert_eq!(l.lines().count(), 9);
    assert!(l.starts_with("1 -> A - T0\n2 -> A - T1"));
    assert!(l.ends_with("9 -> A - T8"));
    assert_eq!(Queue::listing(&tracks, 2), "1 -> A - T0\n2 -> A - T1");
    assert_eq!(Queue::listing(&tracks, 0), "");
    assert_eq!(Queue::listing(&tracks[..1].to_vec(), 5), "1 -> A - T0");
}

#[test]
fn queue_message() {
    let tracks = vec![track("A", "T", Some("u")), track("B", "U", None)];
    assert_eq!(
        Queue::message(&None, &tracks, 2),
        "Now playing: nothing\n\n1 -> [A - T](<u>)\n2 -> B - U"
    );
}

#[test]
fn song_listing_text_of_queue() {
    let songs = vec![
        SongMetadata { title: Some("One".to_string()), duration: Some(Duration::from_secs(65)) },
        SongMetadata { title: None, duration: None },
    ];
    assert_eq!(
        Queue::song_listing(&songs),
        "1: **One** (`01:05`)\n2: **idk lmfao** (`00:00`)\n"
    );
    assert_eq!(Queue::song_listing(&vec![]), "");
}

#[test]
fn shuffle_keeps_first_and_items() {
    let mut q: VecDeque<u32> = (0..40).collect();
    let mut changed = false;
    for _ in 0..5 {
        let before: Vec<u32> = q.iter().copied().collect();
        Shuffle::shuffle_queue(&mut q);
        assert_eq!(q[0], 0);
        let mut sorted: Vec<u32> = q.iter().copied().collect();
        if sorted != before {
            changed = true;
        }
        sorted.sort();
        assert_eq!(sorted, (0..40).collect::<Vec<u32>>());
    }
    assert!(changed);
}

#[test]
fn shuffle_small_queues() {
    let mut empty: VecDeque<u32> = VecDeque::new();
    Shuffle::shuffle_queue(&mut empty);
    assert!(empty.is_empty());
    let mut one: VecDeque<u32> = VecDeque::from(vec![7]);
    Shuffle::shuffle_queue(&mut one);
    assert_eq!(one, VecDeque::from(vec![7]));
    let mut two: VecDeque<u32> = VecDeque::from(vec![7, 8]);
    Shuffle::shuffle_queue(&mut two);
    assert_eq!(two, VecDeque::from(vec![7, 8]));
}

#[test]
fn shuffle_replies() {
    assert_eq!(Shuffle::reply(true), "The queue has been shuffled");
    assert_eq!(Shuffle::reply(false), "Queue is currently empty");
}

#[test]
fn play_failure_replies() {
    assert_eq!(Play::failure_reply(PlayFailure::NoSource), "Error sourcing url");
    assert_eq!(Play::failure_reply(PlayFailure::UnknownEmoji), "bruh idk what emoji that is");
    assert_eq!(Play::failure_reply(PlayFailure::NoVoiceChannel), "Not in a voice channel to play in");
    assert_eq!(Play::no_player_reply(), "Join the bot to a voice channel first.");
    assert_eq!(Play::empty_queue_reply(), "The queue is empty.");
    assert_eq!(Queue::no_player_reply(), "Join the bot to a voice channel first.");
    assert_eq!(Queue::no_queue_reply(), "Queue is currently empty");
}
