use my_cloud_music::cover_cache::{
    cover_key, fingerprint_bytes, full_cover_file_name, thumbnail_file_name, CacheSweep, FileStamp,
    COVER_CACHE_LIMIT_BYTES,
};
use my_cloud_music::engine::{AudioCommand, Volume};
use my_cloud_music::error::CommandError;
use my_cloud_music::library::{is_renamed_file, is_scanned_file, lyrics_from_tags, song_from_probe, ProbedFile};
use my_cloud_music::media::{now_playing_metadata, playback_report, PlaybackReport};
use my_cloud_music::rename::{
    clean_name, process_file, render_name, sanitize_filename, FileNameParts, RenameConfig, TrackTags,
};
use my_cloud_music::text::{
    contains_text, text_before, decimal_text, replace_text, same_text, two_digit_text,
};

fn parts(name: &str, stem: &str, ext: &str) -> FileNameParts {
    FileNameParts {
        path: format!("/music/{}", name),
        name: name.to_string(),
        stem: Some(stem.to_string()),
        extension: ext.to_string(),
    }
}

fn config(mode: &str, track: bool, source: bool) -> RenameConfig {
    RenameConfig {
        mode: mode.to_string(),
        template: "{artist} - {title}".to_string(),
        remove_track_prefix: track,
        remove_source_prefix: source,
    }
}

fn tags(title: &str, artist: &str) -> TrackTags {
    TrackTags { title: title.to_string(), artist: artist.to_string(), album: "Album".to_string(), year: Some(1999), track: Some(7) }
}

#[test]
fn command_error_fields() {
    let e = CommandError::new("TARGET_NOT_FOUND", "missing");
    assert_eq!(e.code, "TARGET_NOT_FOUND");
    assert_eq!(e.message, "missing");
    let io = CommandError::io_error("denied".to_string());
    assert_eq!((io.code.as_str(), io.message.as_str()), ("IO_ERROR", "denied"));
    let other = CommandError::unknown("boom".to_string());
    assert_eq!((other.code.as_str(), other.message.as_str()), ("UNKNOWN_ERROR", "boom"));
}

#[test]
fn metadata_absent_cover_and_duration_are_none() {
    let m = now_playing_metadata("T".to_string(), "A".to_string(), "B".to_string(), String::new(), 0);
    assert_eq!((m.title.as_str(), m.artist.as_str(), m.album.as_str()), ("T", "A", "B"));
    assert_eq!(m.cover, None);
    assert_eq!(m.duration_secs, None);
    let m = now_playing_metadata("T".to_string(), "A".to_string(), "B".to_string(), "file:///c.jpg".to_string(), 215);
    assert_eq!(m.cover, Some("file:///c.jpg".to_string()));
    assert_eq!(m.duration_secs, Some(215));
}

#[test]
fn playback_reports_per_command() {
    assert_eq!(playback_report(&AudioCommand::Play("a".to_string())), Some(PlaybackReport { playing: true, position_secs: Some(0) }));
    assert_eq!(playback_report(&AudioCommand::Pause), Some(PlaybackReport { playing: false, position_secs: None }));
    assert_eq!(playback_report(&AudioCommand::Resume), Some(PlaybackReport { playing: true, position_secs: None }));
    assert_eq!(playback_report(&AudioCommand::Seek(42, false)), Some(PlaybackReport { playing: false, position_secs: Some(42) }));
    assert_eq!(playback_report(&AudioCommand::SetVolume(Volume { bits: 0 })), None);
    assert_eq!(playback_report(&AudioCommand::SetOutputDevice(None)), None);
}

#[test]
fn text_helpers() {
    assert_eq!(replace_text("{a}-{a}", "{a}", "xy"), "xy-xy");
    assert_eq!(replace_text("aaa", "aa", "b"), "ba");
    assert_eq!(replace_text("abc", "zz", "q"), "abc");
    assert_eq!(replace_text("", "x", "y"), "");
    assert_eq!(decimal_text(0), "0");
    assert_eq!(decimal_text(1999), "1999");
    assert_eq!(decimal_text(u32::MAX), "4294967295");
    assert_eq!(two_digit_text(7), "07");
    assert_eq!(two_digit_text(12), "12");
    assert_eq!(two_digit_text(123), "123");
    assert_eq!(sanitize_filename("  hi there \t"), "hi there");
    assert!(same_text("héllo", "héllo"));
    assert!(!same_text("abc", "abd"));
    assert!(!same_text("abc", "ab"));
    assert!(contains_text("[ar:x]\n[00:12.00]la", "[00:"));
    assert!(!contains_text("plain", "[00:"));
    assert!(contains_text("x", ""));
    assert!(is_scanned_file("FLAC"));
}

#[test]
fn sanitize_replaces_reserved_characters() {
    assert_eq!(sanitize_filename("a<b>:c"), "a_b__c");
    assert_eq!(sanitize_filename(" AC/DC - T.N.T? "), "AC_DC - T.N.T_");
    assert_eq!(sanitize_filename("\"x\"|y\\z*"), "_x__y_z_");
    assert_eq!(sanitize_filename(""), "");
}

#[test]
fn template_uses_all_fields() {
    let t = tags("Song", "Band");
    assert_eq!(render_name("{track}. {artist} - {title} ({album}, {year})", &t, "flac"), "07. Band - Song (Album, 1999).flac");
    let bare = TrackTags { title: "S".to_string(), artist: String::new(), album: String::new(), year: None, track: None };
    assert_eq!(render_name("{track}{title}{year}", &bare, "mp3"), "S.mp3");
    assert_eq!(render_name("{artist}: {title}", &tags("Why?", "A"), "mp3"), "A_ Why_.mp3");
}

#[test]
fn tags_mode_renames_from_tags() {
    let p = parts("track01.mp3", "track01", "mp3");
    let r = process_file(&p, &config("tags", false, false), &Some(tags("Song", "Band")));
    assert_eq!(r.original_path, "/music/track01.mp3");
    assert_eq!(r.original_name, "track01.mp3");
    assert_eq!(r.new_name, "Band - Song.mp3");
    assert_eq!(r.status, "tags");
    assert_eq!(r.error, None);
}

#[test]
fn tags_mode_skips_correct_names_and_missing_tags() {
    let p = parts("Band - Song.mp3", "Band - Song", "mp3");
    let r = process_file(&p, &config("tags", false, false), &Some(tags("Song", "Band")));
    assert_eq!((r.new_name.as_str(), r.status.as_str()), ("Band - Song.mp3", "skipped"));
    assert_eq!(r.error, Some("Already named correctly".to_string()));
    let r = process_file(&p, &config("tags", true, true), &None);
    assert_eq!(r.status, "skipped");
    assert_eq!(r.error, Some("Missing tags".to_string()));
    let r = process_file(&p, &config("tags", true, true), &Some(tags("", "Band")));
    assert_eq!(r.error, Some("Missing tags".to_string()));
}

#[test]
fn rules_mode_strips_prefixes() {
    let p = parts("01 - Song.mp3", "01 - Song", "mp3");
    let r = process_file(&p, &config("rules", true, false), &Some(tags("X", "Y")));
    assert_eq!((r.new_name.as_str(), r.status.as_str()), ("Song.mp3", "rules"));
    assert_eq!(r.error, None);
    let p = parts("[web] 02. Song .flac", "[web] 02. Song ", "flac");
    assert_eq!(clean_name(&p, &config("rules", true, true)), "02. Song.flac");
    let r = process_file(&p, &config("rules", false, true), &None);
    assert_eq!(r.new_name, "02. Song.flac");
    let p = parts("Song.mp3", "Song", "mp3");
    let r = process_file(&p, &config("rules", true, true), &None);
    assert_eq!(r.status, "skipped");
    assert_eq!(r.error, Some("No rules matched or missing tags".to_string()));
}

#[test]
fn auto_mode_falls_back_to_rules() {
    let p = parts("03 Song.mp3", "03 Song", "mp3");
    let r = process_file(&p, &config("auto", true, false), &None);
    assert_eq!((r.new_name.as_str(), r.status.as_str()), ("Song.mp3", "rules"));
    let r = process_file(&p, &config("auto", true, false), &Some(tags("Song", "Band")));
    assert_eq!((r.new_name.as_str(), r.status.as_str()), ("Band - Song.mp3", "tags"));
    let same = parts("Band - Song.mp3", "Band - Song", "mp3");
    let r = process_file(&same, &config("auto", true, false), &Some(tags("Song", "Band")));
    assert_eq!(r.status, "skipped");
    assert_eq!(r.error, Some("No rules matched or missing tags".to_string()));
}

#[test]
fn unknown_mode_and_stemless_files_are_skipped() {
    let p = parts("01 - Song.mp3", "01 - Song", "mp3");
    let r = process_file(&p, &config("other", true, true), &Some(tags("Song", "Band")));
    assert_eq!(r.status, "skipped");
    let no_stem = FileNameParts { path: "/m/x".to_string(), name: "x".to_string(), stem: None, extension: String::new() };
    assert_eq!(clean_name(&no_stem, &config("rules", true, true)), "x");
}

#[test]
fn fingerprint_layout() {
    let b = fingerprint_bytes(FileStamp::Known { len: 1, modified_secs: 2 }, "a.mp3");
    assert_eq!(b, vec![0, 0, 0, 0, 0, 0, 0, 1, 0, 0, 0, 0, 0, 0, 0, 2, b'a', b'.', b'm', b'p', b'3']);
    let b = fingerprint_bytes(FileStamp::Unreadable { now_secs: 0x0102030405060708 }, "é");
    assert_eq!(b, vec![1, 2, 3, 4, 5, 6, 7, 8, 0xc3, 0xa9]);
}

#[test]
fn cover_key_is_hex_sha256_of_fingerprint() {
    let k = cover_key(FileStamp::Known { len: 1, modified_secs: 2 }, "a.mp3");
    assert_eq!(k, "c375755a73b3de8c8fadd72146eb3b0d0b747c28b0cfc513f2b8c8fe69f627e6");
    let k = cover_key(FileStamp::Unreadable { now_secs: 7 }, "x");
    assert_eq!(k, "9cd4018ffe6e6dcc0a7a46994f7160ed6cdbf4d549f0ff2ddb006fb2352a51cf");
    assert_eq!(thumbnail_file_name("ab"), "ab_thumb.jpg");
    assert_eq!(full_cover_file_name("ab"), "ab_full.jpg");
}

#[test]
fn cache_sweep_removes_until_under_limit() {
    let sizes = vec![300u64, 200, 100];
    let mut sweep = CacheSweep::start(&sizes, 250);
    assert_eq!(sweep.total, 600);
    let mut removed = 0;
    for len in &sizes {
        if !sweep.over_limit() {
            break;
        }
        sweep.removed(*len);
        removed += 1;
    }
    assert_eq!(removed, 2);
    assert_eq!(sweep.total, 100);
    assert!(!CacheSweep::start(&vec![], COVER_CACHE_LIMIT_BYTES).over_limit());
    assert_eq!(CacheSweep::start(&vec![u64::MAX, 5], 0).total, u64::MAX);
    let mut s = CacheSweep::start(&vec![3], 0);
    s.removed(10);
    assert_eq!(s.total, 0);
    assert_eq!(COVER_CACHE_LIMIT_BYTES, 524_288_000);
}

#[test]
fn extensions_taken_in() {
    assert!(is_scanned_file("MP3"));
    assert!(is_scanned_file("flac"));
    assert!(is_scanned_file("Wav"));
    assert!(!is_scanned_file("ogg"));
    assert!(is_renamed_file("OGG"));
    assert!(is_renamed_file("m4a"));
    assert!(!is_renamed_file("txt"));
}

#[test]
fn song_defaults() {
    let s = song_from_probe("a.mp3".to_string(), "/m/a.mp3".to_string(), None);
    assert_eq!((s.title.as_str(), s.artist.as_str(), s.album.as_str(), s.duration), ("", "未知歌手", "未知专辑", 0));
    assert_eq!(s.cover, None);
    let probe = ProbedFile { duration_secs: 201, title: Some("T".to_string()), artist: None, album: Some("B".to_string()) };
    let s = song_from_probe("a.mp3".to_string(), "/m/a.mp3".to_string(), Some(probe));
    assert_eq!((s.name.as_str(), s.path.as_str()), ("a.mp3", "/m/a.mp3"));
    assert_eq!((s.title.as_str(), s.artist.as_str(), s.album.as_str(), s.duration), ("T", "未知歌手", "B", 201));
}

#[test]
fn lyrics_choice() {
    let comments = vec!["nice song".to_string(), "[00:01.00]first".to_string(), "[00:02.00]second".to_string()];
    assert_eq!(lyrics_from_tags(Some("words".to_string()), &comments), Some("words".to_string()));
    assert_eq!(lyrics_from_tags(None, &comments), Some("[00:01.00]first".to_string()));
    assert_eq!(lyrics_from_tags(None, &vec!["nice".to_string()]), None);
    assert_eq!(lyrics_from_tags(None, &vec![]), None);
}

fn preview(name: &str, status: &str) -> my_cloud_music::rename::RenamePreview {
    my_cloud_music::rename::RenamePreview {
        original_path: format!("/m/{}", name),
        original_name: name.to_string(),
        new_name: name.to_string(),
        status: status.to_string(),
        error: None,
    }
}

#[test]
fn previews_list_changes_first_then_by_name() {
    let v = vec![
        preview("c.mp3", "skipped"),
        preview("b.mp3", "rules"),
        preview("a.mp3", "skipped"),
        preview("d.mp3", "tags"),
        preview("a.mp3", "tags"),
    ];
    let r = my_cloud_music::rename::order_previews(v);
    let got: Vec<(String, String)> = r.iter().map(|p| (p.original_name.clone(), p.status.clone())).collect();
    let want = vec![
        ("a.mp3", "tags"),
        ("b.mp3", "rules"),
        ("d.mp3", "tags"),
        ("a.mp3", "skipped"),
        ("c.mp3", "skipped"),
    ];
    let want: Vec<(String, String)> = want.into_iter().map(|(a, b)| (a.to_string(), b.to_string())).collect();
    assert_eq!(got, want);
    assert!(my_cloud_music::rename::order_previews(vec![]).is_empty());
}

#[test]
fn previews_with_equal_keys_keep_their_order() {
    let mut first = preview("same.mp3", "skipped");
    first.original_path = "/one/same.mp3".to_string();
    let mut second = preview("same.mp3", "skipped");
    second.original_path = "/two/same.mp3".to_string();
    let r = my_cloud_music::rename::order_previews(vec![first, second]);
    assert_eq!(r[0].original_path, "/one/same.mp3");
    assert_eq!(r[1].original_path, "/two/same.mp3");
}

#[test]
fn text_order_follows_character_codes() {
    assert!(text_before("a", "b"));
    assert!(text_before("ab", "abc"));
    assert!(!text_before("abc", "ab"));
    assert!(!text_before("abc", "abc"));
    assert!(text_before("Z", "a"));
    assert!(text_before("", "a"));
    assert!(!text_before("é", "z"));
    assert_eq!(text_before("x1", "x2"), "x1" < "x2");
}

fn song(path: &str) -> my_cloud_music::library::Song {
    my_cloud_music::library::Song {
        name: path.rsplit('/').next().unwrap().to_string(),
        title: String::new(),
        path: path.to_string(),
        artist: String::new(),
        album: String::new(),
        duration: 0,
        cover: None,
    }
}

fn entry(folder: &str, name: Option<&str>, path: &str) -> my_cloud_music::library::FolderSong {
    my_cloud_music::library::FolderSong {
        folder_path: folder.to_string(),
        folder_name: name.map(|n| n.to_string()),
        song: song(path),
    }
}

#[test]
fn songs_group_into_folders_by_name() {
    let entries = vec![
        entry("/m/rock", Some("rock"), "/m/rock/1.mp3"),
        entry("/m/jazz", Some("jazz"), "/m/jazz/1.mp3"),
        entry("/m/rock", Some("rock"), "/m/rock/2.mp3"),
        entry("/", None, "/x.mp3"),
    ];
    let groups = my_cloud_music::library::group_by_folder(entries);
    let names: Vec<&str> = groups.iter().map(|g| g.name.as_str()).collect();
    assert_eq!(names, vec!["jazz", "rock", "未知文件夹"]);
    assert_eq!(groups[1].path, "/m/rock");
    let rock: Vec<&str> = groups[1].songs.iter().map(|s| s.path.as_str()).collect();
    assert_eq!(rock, vec!["/m/rock/1.mp3", "/m/rock/2.mp3"]);
    assert_eq!(groups[0].songs.len(), 1);
    assert_eq!(groups[2].songs[0].path, "/x.mp3");
    assert!(my_cloud_music::library::group_by_folder(vec![]).is_empty());
}
