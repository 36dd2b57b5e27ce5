use rnmd::{
    Action, FileTask, canonical_name, classify_lowered, classify_media, collect_tasks, count_renamed, digest_hex,
    extension, hex_upper, plan_rename, settle, walk_depth_limit, Algo, DigestStream, EntryKind,
    FFmpegApp, FailReason, MediaKind, Outcome, Plan, Root, RunConfig, WalkEntry,
};
use std::collections::HashSet;

const MD5_EMPTY: &str = "D41D8CD98F00B204E9800998ECF8427E";
const BLAKE3_EMPTY: &str = "AF1349B9F5F9A1A6A0404DEA36DCC9499BCB25C9ADC112B7CC9A93CAE41F3262";

/// Runs the per-file decisions over files in one directory, in order, the
/// way a run does when no two tasks overlap in time.
fn run_in_order(dir: &mut HashSet<String>, files: &[(&str, &[u8])], algo: Algo) -> usize {
    let mut outcomes = Vec::new();
    for (name, content) in files {
        let hex = digest_hex(algo, content);
        let candidate = canonical_name(name, &hex);
        let plan = plan_rename(name, &candidate, dir.contains(&candidate));
        let done = match &plan {
            Plan::Rename(target) => {
                dir.remove(*name);
                dir.insert(target.clone());
                true
            }
            Plan::Skip => false,
        };
        outcomes.push(settle(plan, done));
    }
    count_renamed(&outcomes)
}

#[test]
fn hex_upper_renders_each_byte() {
    assert_eq!(hex_upper(&[]), "");
    assert_eq!(hex_upper(&[0x00, 0x0f, 0xa5, 0xff]), "000FA5FF");
}

#[test]
fn empty_input_digests() {
    assert_eq!(digest_hex(Algo::Md5, &[]), MD5_EMPTY);
    assert_eq!(digest_hex(Algo::Blake3, &[]), BLAKE3_EMPTY);
}

#[test]
fn known_digests_of_abc() {
    assert_eq!(digest_hex(Algo::Md5, b"abc"), "900150983CD24FB0D6963F7D28E17F72");
    assert_eq!(
        digest_hex(Algo::Blake3, b"abc"),
        "6437B3AC38465133FFB63B75273A8DB548C558465D79DB03FD359C6CD5BD9D85"
    );
}

#[test]
fn digest_widths() {
    assert_eq!(digest_hex(Algo::Md5, b"some bytes").len(), 32);
    assert_eq!(digest_hex(Algo::Blake3, b"some bytes").len(), 64);
}

#[test]
fn hashing_twice_gives_the_same_digest() {
    let data: Vec<u8> = (0..10_000u32).map(|i| (i * 7 % 251) as u8).collect();
    for algo in [Algo::Md5, Algo::Blake3] {
        let whole = digest_hex(algo, &data);
        assert_eq!(digest_hex(algo, &data), whole);
        let mut stream = DigestStream::new(algo);
        for chunk in data.chunks(333) {
            stream.absorb(chunk);
        }
        assert_eq!(stream.finish(), whole);
    }
}

#[test]
fn different_content_different_digest() {
    assert_ne!(digest_hex(Algo::Md5, b"a"), digest_hex(Algo::Md5, b"b"));
    assert_ne!(digest_hex(Algo::Blake3, b"a"), digest_hex(Algo::Blake3, b"b"));
    assert_ne!(digest_hex(Algo::Md5, b"a"), digest_hex(Algo::Blake3, b"a"));
}

#[test]
fn extension_follows_the_last_dot() {
    assert_eq!(extension("clip.mp4"), Some("mp4"));
    assert_eq!(extension("archive.tar.gz"), Some("gz"));
    assert_eq!(extension("README"), None);
    assert_eq!(extension(".profile"), None);
    assert_eq!(extension(".config.toml"), Some("toml"));
    assert_eq!(extension("trailing."), Some(""));
    assert_eq!(extension(""), None);
}

#[test]
fn canonical_name_keeps_extension_case() {
    assert_eq!(canonical_name("Photo.JPG", "ABCD"), "ABCD.JPG");
    assert_eq!(canonical_name("notes", "ABCD"), "ABCD");
    assert_eq!(canonical_name("trailing.", "ABCD"), "ABCD");
    assert_eq!(canonical_name(".profile", "ABCD"), "ABCD");
    assert_eq!(canonical_name("a.tar.gz", "ABCD"), "ABCD.gz");
}

#[test]
fn plan_skips_taken_or_own_name() {
    assert!(matches!(plan_rename("a.txt", "FF.txt", false), Plan::Rename(ref n) if n == "FF.txt"));
    assert!(matches!(plan_rename("a.txt", "FF.txt", true), Plan::Skip));
    assert!(matches!(plan_rename("FF.txt", "FF.txt", false), Plan::Skip));
}

#[test]
fn settle_maps_each_case() {
    assert!(matches!(settle(Plan::Skip, true), Outcome::SkippedExists));
    assert!(matches!(settle(Plan::Rename("X".to_string()), true), Outcome::Renamed(ref n) if n == "X"));
    assert!(matches!(
        settle(Plan::Rename("X".to_string()), false),
        Outcome::Failed(FailReason::Rename)
    ));
}

#[test]
fn count_renamed_counts_only_renames() {
    assert_eq!(count_renamed(&Vec::new()), 0);
    let outcomes = vec![
        Outcome::Renamed("A".to_string()),
        Outcome::SkippedExists,
        Outcome::Failed(FailReason::Open),
        Outcome::Failed(FailReason::Read),
        Outcome::Renamed("B".to_string()),
    ];
    assert_eq!(count_renamed(&outcomes), 2);
}

#[test]
fn second_run_renames_nothing() {
    let files: Vec<(String, Vec<u8>)> = vec![
        ("a.txt".to_string(), b"alpha".to_vec()),
        ("b".to_string(), b"beta".to_vec()),
        ("c.tar.gz".to_string(), b"gamma".to_vec()),
    ];
    let mut dir: HashSet<String> = files.iter().map(|f| f.0.clone()).collect();
    let first: Vec<(&str, &[u8])> = files.iter().map(|f| (f.0.as_str(), f.1.as_slice())).collect();
    assert_eq!(run_in_order(&mut dir, &first, Algo::Blake3), 3);
    let renamed: Vec<(String, Vec<u8>)> = files
        .iter()
        .map(|f| (canonical_name(&f.0, &digest_hex(Algo::Blake3, &f.1)), f.1.clone()))
        .collect();
    let second: Vec<(&str, &[u8])> = renamed.iter().map(|f| (f.0.as_str(), f.1.as_slice())).collect();
    assert_eq!(run_in_order(&mut dir, &second, Algo::Blake3), 0);
}

#[test]
fn identical_files_rename_once() {
    let mut dir: HashSet<String> = ["one.bin", "two.bin"].iter().map(|s| s.to_string()).collect();
    let files: Vec<(&str, &[u8])> = vec![("one.bin", b"same"), ("two.bin", b"same")];
    assert_eq!(run_in_order(&mut dir, &files, Algo::Md5), 1);
    let canonical = format!("{}.bin", digest_hex(Algo::Md5, b"same"));
    assert!(dir.contains(&canonical));
    assert!(dir.contains("two.bin"));
    assert!(!dir.contains("one.bin"));
}

#[test]
fn empty_file_takes_the_empty_digest_name() {
    let mut dir: HashSet<String> = ["empty.log".to_string()].into_iter().collect();
    let files: Vec<(&str, &[u8])> = vec![("empty.log", b"")];
    assert_eq!(run_in_order(&mut dir, &files, Algo::Md5), 1);
    assert!(dir.contains(&format!("{}.log", MD5_EMPTY)));
}

#[test]
fn duplicate_clip_scenario() {
    let clip: &[u8] = b"\x00\x00\x00\x18ftypmp42 distinct clip bytes";
    let mut dir: HashSet<String> = ["clip.mp4", "clip_copy.mp4"].iter().map(|s| s.to_string()).collect();
    let files: Vec<(&str, &[u8])> = vec![("clip.mp4", clip), ("clip_copy.mp4", clip)];
    assert_eq!(run_in_order(&mut dir, &files, Algo::Blake3), 1);
    let canonical = format!("{}.mp4", digest_hex(Algo::Blake3, clip));
    assert_eq!(canonical.len(), 64 + 4);
    assert!(dir.contains(&canonical));
    assert!(dir.contains("clip_copy.mp4"));
}

fn entry(id: usize, depth: usize, kind: EntryKind) -> WalkEntry {
    WalkEntry { id, depth, kind }
}

#[test]
fn depth_limit_by_recursion() {
    assert_eq!(walk_depth_limit(false), Some(1));
    assert_eq!(walk_depth_limit(true), None);
}

#[test]
fn collect_honours_depth() {
    let roots = vec![Root::Dir(vec![
        entry(0, 0, EntryKind::Dir),
        entry(1, 1, EntryKind::File),
        entry(2, 1, EntryKind::Dir),
        entry(3, 2, EntryKind::File),
    ])];
    assert_eq!(collect_tasks(&roots, false), vec![1]);
    assert_eq!(collect_tasks(&roots, true), vec![1, 3]);
}

#[test]
fn collect_mixed_roots() {
    let roots = vec![
        Root::File(7),
        Root::Other,
        Root::Dir(vec![entry(8, 1, EntryKind::Other), entry(9, 1, EntryKind::File)]),
        Root::File(7),
    ];
    assert_eq!(collect_tasks(&roots, false), vec![7, 9, 7]);
    assert_eq!(collect_tasks(&Vec::new(), true), Vec::<usize>::new());
}

#[test]
fn run_config_defaults() {
    let c = RunConfig::default();
    assert!(!c.recursive);
    assert_eq!(c.algo, Algo::Blake3);
    assert_eq!(Algo::default(), Algo::Blake3);
}

#[test]
fn media_classification() {
    assert_eq!(classify_lowered("mp4"), MediaKind::Video);
    assert_eq!(classify_lowered("aac"), MediaKind::Audio);
    assert_eq!(classify_lowered("MP4"), MediaKind::Other);
    assert_eq!(classify_media("movie.MKV"), MediaKind::Video);
    assert_eq!(classify_media("song.Mp3"), MediaKind::Audio);
    assert_eq!(classify_media("notes.txt"), MediaKind::Other);
    assert_eq!(classify_media("mp4"), MediaKind::Other);
}

#[test]
fn ffmpeg_selection_fills_empty_slots() {
    let mut app = FFmpegApp::new();
    assert!(!app.can_execute());
    assert!(app.offer_dropped("/v/a.mp4".into(), "a.mp4"));
    assert!(!app.offer_dropped("/v/b.avi".into(), "b.avi"));
    assert!(!app.offer_dropped("/v/c.txt".into(), "c.txt"));
    assert!(app.offer_dropped("/v/d.M4A".into(), "d.M4A"));
    assert_eq!(app.video_path, Some("/v/a.mp4".into()));
    assert_eq!(app.audio_path, Some("/v/d.M4A".into()));
    assert!(app.can_execute());
}

#[test]
fn ffmpeg_clear_state_keeps_status() {
    let mut app = FFmpegApp::new();
    app.offer_dropped("/v/a.mp4".into(), "a.mp4");
    app.output_path = Some("/out.mp4".into());
    app.delete_orig = true;
    app.status_message = "done".to_string();
    app.clear_state();
    assert!(app.video_path.is_none());
    assert!(app.audio_path.is_none());
    assert!(app.output_path.is_none());
    assert!(!app.delete_orig);
    assert_eq!(app.status_message, "done");
}

#[test]
fn task_renames_when_name_is_free() {
    let mut task = FileTask::new("photo.JPG".to_string(), Algo::Md5);
    assert_eq!(task.on_chunk(b"ab"), Action::ReadMore);
    assert_eq!(task.on_chunk(b"c"), Action::ReadMore);
    let candidate = "900150983CD24FB0D6963F7D28E17F72.JPG".to_string();
    assert_eq!(task.on_end_of_file(), Action::CheckTarget(candidate.clone()));
    assert_eq!(task.on_target_checked(false), Action::Rename(candidate.clone()));
    assert_eq!(task.on_renamed(true), Action::Finish);
    assert!(matches!(task.into_outcome(), Some(Outcome::Renamed(ref n)) if *n == candidate));
}

#[test]
fn task_skips_when_name_is_taken() {
    let mut task = FileTask::new("empty".to_string(), Algo::Blake3);
    assert_eq!(task.on_end_of_file(), Action::CheckTarget(BLAKE3_EMPTY.to_string()));
    assert_eq!(task.on_target_checked(true), Action::Finish);
    assert!(matches!(task.into_outcome(), Some(Outcome::SkippedExists)));
}

#[test]
fn task_skips_when_already_canonical() {
    let mut task = FileTask::new(format!("{}.txt", MD5_EMPTY), Algo::Md5);
    task.on_end_of_file();
    assert_eq!(task.on_target_checked(false), Action::Finish);
    assert!(matches!(task.into_outcome(), Some(Outcome::SkippedExists)));
}

#[test]
fn task_failures_are_terminal() {
    let mut task = FileTask::new("a.bin".to_string(), Algo::Md5);
    assert_eq!(task.on_failure(FailReason::Read), Action::Finish);
    assert_eq!(task.on_chunk(b"more"), Action::Finish);
    assert_eq!(task.on_end_of_file(), Action::Finish);
    assert_eq!(task.on_renamed(true), Action::Finish);
    assert_eq!(task.on_failure(FailReason::Open), Action::Finish);
    assert!(matches!(task.into_outcome(), Some(Outcome::Failed(FailReason::Read))));

    let mut lost = FileTask::new("b.bin".to_string(), Algo::Blake3);
    lost.on_end_of_file();
    lost.on_target_checked(false);
    assert_eq!(lost.on_renamed(false), Action::Finish);
    assert!(matches!(lost.into_outcome(), Some(Outcome::Failed(FailReason::Rename))));
}

#[test]
fn unfinished_task_has_no_outcome() {
    let task = FileTask::new("c".to_string(), Algo::Md5);
    assert!(task.into_outcome().is_none());
}
