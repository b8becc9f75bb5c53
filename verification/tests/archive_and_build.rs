use container_broker::archive::{is_tar_normal_path, pack, unpack, FileEntry};
use container_broker::ids::{archive_file_name, staged_archive_path, staging_dir, BuildRequest};
use container_broker::image_build::{build_submission, frame_lines, BuildFrame, StreamDrain};

fn entry(path: &str, data: &[u8]) -> FileEntry {
    FileEntry { path: String::from(path), data: data.to_vec() }
}

#[test]
fn pack_round_trip_reproduces_files() {
    let entries = vec![
        entry("Dockerfile", b"FROM scratch\nCOPY . /app\n"),
        entry("src/main.txt", b"hello container"),
        entry("empty.txt", b""),
    ];
    let archive = pack(&entries).expect("packing an ordinary file set succeeds");
    let back = unpack(&archive).expect("a packed archive re-extracts");
    assert_eq!(back.len(), entries.len());
    for (a, b) in entries.iter().zip(back.iter()) {
        assert_eq!(a.path, b.path);
        assert_eq!(a.data, b.data);
    }
}

#[test]
fn pack_round_trip_empty_set() {
    let entries: Vec<FileEntry> = vec![];
    let archive = pack(&entries).expect("packing no files succeeds");
    let back = unpack(&archive).expect("an empty archive re-extracts");
    assert_eq!(back.len(), 0);
}

#[test]
fn pack_round_trip_long_path_and_binary_data() {
    let long_path = "a/".repeat(90) + "leaf.bin";
    let data: Vec<u8> = (0u16..=255).map(|b| b as u8).collect();
    let entries = vec![FileEntry { path: long_path.clone(), data: data.clone() }];
    let archive = pack(&entries).expect("packing a long path succeeds");
    let back = unpack(&archive).expect("the archive re-extracts");
    assert_eq!(back.len(), 1);
    assert_eq!(back[0].path, long_path);
    assert_eq!(back[0].data, data);
}

#[test]
fn unpack_rejects_garbage() {
    let garbage = vec![0u8, 1, 2, 3, 4, 5, 6, 7];
    assert!(unpack(&garbage).is_err());
}

#[test]
fn pack_round_trip_keeps_dotfile_paths_byte_for_byte() {
    let entries = vec![
        entry(".dockerignore", b"tmp\n"),
        entry("conf/.hidden", b"secret"),
        entry("a.b/c.d", b"dots inside components"),
    ];
    let archive = pack(&entries).expect("dotfile names are tar-normal");
    let back = unpack(&archive).expect("the archive re-extracts");
    for (a, b) in entries.iter().zip(back.iter()) {
        assert_eq!(a.path, b.path);
        assert_eq!(a.data, b.data);
    }
}

#[test]
fn pack_rejects_paths_outside_tar_normal_form() {
    let bad_paths = [
        "",
        "/absolute",
        "a//b",
        "./x",
        "a/./b",
        ".",
        "..",
        "a/..",
        "a/../b",
        "trailing/",
        "a/.",
        "nul\0byte",
    ];
    for bad in bad_paths {
        let err = pack(&vec![entry(bad, b"d")]).expect_err(bad);
        assert_eq!(err.cause, bad);
    }
}

#[test]
fn tar_normal_path_predicate() {
    assert!(is_tar_normal_path("Dockerfile"));
    assert!(is_tar_normal_path(".hidden"));
    assert!(is_tar_normal_path("..three-dots-is-a-name..."));
    assert!(is_tar_normal_path("a/b c/d.txt"));
    assert!(!is_tar_normal_path(""));
    assert!(!is_tar_normal_path("/a"));
    assert!(!is_tar_normal_path("a//b"));
    assert!(!is_tar_normal_path("./a"));
    assert!(!is_tar_normal_path("a/.."));
    assert!(!is_tar_normal_path("a\0b"));
}

#[test]
fn build_ids_are_pairwise_distinct() {
    let mut ids = Vec::new();
    for _ in 0..64 {
        let req = BuildRequest::new(String::from("./tmp/project"));
        assert_eq!(req.source_path, "./tmp/project");
        assert_eq!(req.build_id.chars().count(), 36);
        ids.push(req.build_id);
    }
    for i in 0..ids.len() {
        for j in (i + 1)..ids.len() {
            assert_ne!(ids[i], ids[j]);
        }
    }
}

#[test]
fn archive_paths_key_off_build_id() {
    assert_eq!(staging_dir(), "./tmp/containers");
    assert_eq!(archive_file_name("abc-123"), "abc-123.tar.gz");
    assert_eq!(staged_archive_path("abc-123"), "./tmp/containers/abc-123.tar.gz");
}

#[test]
fn build_submission_tags_with_build_id() {
    let s = build_submission("id-1234");
    assert_eq!(s.dockerfile_name, "Dockerfile");
    assert_eq!(s.tag, "id-1234");
    assert!(s.remove_intermediate);
}

#[test]
fn stream_drain_normalizes_and_orders_log() {
    let frames = vec![
        BuildFrame::LogLine(String::from("Step 1/3\n")),
        BuildFrame::LogLine(String::from("")),
        BuildFrame::LogLine(String::from("Step 2/3\n")),
        BuildFrame::Auxiliary,
        BuildFrame::LogLine(String::from("Step 3/3\n")),
    ];
    let log = frame_lines(frames);
    assert_eq!(log, vec!["Step 1/3", "Step 2/3", "Step 3/3"]);
}

#[test]
fn stream_drain_drops_newline_only_and_keeps_inner_newlines() {
    let frames = vec![
        BuildFrame::LogLine(String::from("\n\n")),
        BuildFrame::LogLine(String::from("a\nb\n")),
    ];
    let log = frame_lines(frames);
    assert_eq!(log, vec!["a\nb"]);
}

#[test]
fn lenient_finish_ignores_transport_errors() {
    let mut drain = StreamDrain::new();
    drain.push_frame(BuildFrame::LogLine(String::from("pulling base\n")));
    drain.push_frame(BuildFrame::TransportError(String::from("connection reset")));
    drain.push_frame(BuildFrame::LogLine(String::from("done\n")));
    assert!(drain.saw_transport_error());
    let res = drain.finish(String::from("build-1"), false).expect("lenient drain succeeds");
    assert_eq!(res.image_id, "build-1");
    assert_eq!(res.log, vec!["pulling base", "done"]);
}

#[test]
fn strict_finish_fails_on_transport_error_with_log() {
    let mut drain = StreamDrain::new();
    drain.push_frame(BuildFrame::LogLine(String::from("pulling base\n")));
    drain.push_frame(BuildFrame::TransportError(String::from("connection reset")));
    let err = drain.finish(String::from("build-2"), true).expect_err("strict drain fails");
    assert_eq!(err.reason, "transport error while draining build stream");
    assert_eq!(err.log, vec!["pulling base"]);
}

#[test]
fn clean_stream_succeeds_in_strict_mode() {
    let mut drain = StreamDrain::new();
    drain.push_frame(BuildFrame::LogLine(String::from("Step 1/1\n")));
    drain.push_frame(BuildFrame::Auxiliary);
    assert!(!drain.saw_transport_error());
    let res = drain.finish(String::from("build-3"), true).expect("clean drain succeeds");
    assert_eq!(res.image_id, "build-3");
    assert_eq!(res.log, vec!["Step 1/1"]);
}
