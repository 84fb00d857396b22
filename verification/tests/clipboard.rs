use shared_clipboard::store::SharedStore;

const TTL: u64 = 3600;

#[test]
fn empty_initial_state() {
    let store = SharedStore::new(0);
    let snap = store.get_snapshot(0);
    assert_eq!(snap.text, "");
    assert!(snap.file.is_none());
}

#[test]
fn empty_initial_state_much_later() {
    let store = SharedStore::new(5);
    let snap = store.get_snapshot(5 + TTL + 1000);
    assert_eq!(snap.text, "");
    assert!(snap.file.is_none());
}

#[test]
fn set_text_round_trip() {
    let mut store = SharedStore::new(0);
    store.set_text(String::from("hello world"), 1);
    let snap = store.get_snapshot(1);
    assert_eq!(snap.text, "hello world");
    assert!(snap.file.is_none());
}

#[test]
fn set_empty_text_round_trip() {
    let mut store = SharedStore::new(0);
    store.set_text(String::from("something"), 1);
    store.set_text(String::new(), 2);
    let snap = store.get_snapshot(2);
    assert_eq!(snap.text, "");
}

#[test]
fn text_write_keeps_file() {
    let mut store = SharedStore::new(0);
    store.set_file(String::from("a.txt"), b"hi".to_vec(), 1);
    store.set_text(String::from("hello"), 2);
    let snap = store.get_snapshot(2);
    assert_eq!(snap.text, "hello");
    let file = snap.file.expect("file should still be present");
    assert_eq!(file.name, "a.txt");
    assert_eq!(file.bytes, b"hi".to_vec());
}

#[test]
fn file_write_keeps_text() {
    let mut store = SharedStore::new(0);
    store.set_text(String::from("note"), 1);
    store.set_file(String::from("b.bin"), vec![0, 255, 7], 2);
    let snap = store.get_snapshot(2);
    assert_eq!(snap.text, "note");
    let file = snap.file.expect("file should be present");
    assert_eq!(file.name, "b.bin");
    assert_eq!(file.bytes, vec![0, 255, 7]);
}

#[test]
fn expiry_clears_read() {
    let mut store = SharedStore::new(0);
    store.set_text(String::from("x"), 10);
    store.set_file(String::from("f.txt"), b"data".to_vec(), 10);
    let snap = store.get_snapshot(10 + TTL + 1);
    assert_eq!(snap.text, "");
    assert!(snap.file.is_none());
}

#[test]
fn not_expired_at_exact_ttl() {
    let mut store = SharedStore::new(0);
    store.set_text(String::from("x"), 10);
    let snap = store.get_snapshot(10 + TTL);
    assert_eq!(snap.text, "x");
}

#[test]
fn expired_one_second_past_ttl() {
    let mut store = SharedStore::new(0);
    store.set_text(String::from("x"), 10);
    let snap = store.get_snapshot(10 + TTL + 1);
    assert_eq!(snap.text, "");
}

#[test]
fn shared_clock_file_write_refreshes_text() {
    let mut store = SharedStore::new(0);
    store.set_text(String::from("t"), 0);
    store.set_file(String::from("f.bin"), vec![1, 2], 3000);
    // 3700 is past the text write's own TTL, but within the file write's.
    let snap = store.get_snapshot(3700);
    assert_eq!(snap.text, "t");
    let file = snap.file.expect("file should be present");
    assert_eq!(file.name, "f.bin");
}

#[test]
fn shared_clock_text_write_refreshes_file() {
    let mut store = SharedStore::new(0);
    store.set_file(String::from("f.bin"), vec![1, 2], 0);
    store.set_text(String::from("t"), 3000);
    let snap = store.get_snapshot(3700);
    let file = snap.file.expect("file should be present");
    assert_eq!(file.name, "f.bin");
    assert_eq!(file.bytes, vec![1, 2]);
}

#[test]
fn upload_overwrites_whole_file() {
    let mut store = SharedStore::new(0);
    store.set_file(String::from("a.txt"), b"1234".to_vec(), 1);
    store.set_file(String::from("b.txt"), b"56".to_vec(), 2);
    let file = store.get_file_for_download(2).expect("file should be present");
    assert_eq!(file.name, "b.txt");
    assert_eq!(file.bytes, b"56".to_vec());
}

#[test]
fn download_before_any_upload() {
    let store = SharedStore::new(0);
    assert!(store.get_file_for_download(0).is_none());
}

#[test]
fn download_honors_ttl() {
    let mut store = SharedStore::new(0);
    store.set_file(String::from("a.txt"), b"1234".to_vec(), 1);
    assert!(store.get_file_for_download(1 + TTL + 1).is_none());
}

#[test]
fn download_and_snapshot_agree() {
    let mut store = SharedStore::new(0);
    store.set_file(String::from("a.txt"), b"abc".to_vec(), 1);
    let when: u64 = 100;
    let snap = store.get_snapshot(when);
    let download = store.get_file_for_download(when);
    let snap_file = snap.file.expect("file in snapshot");
    let down_file = download.expect("file for download");
    assert_eq!(snap_file.name, down_file.name);
    assert_eq!(snap_file.bytes, down_file.bytes);
}

#[test]
fn overwrite_after_expiry_resets_clock() {
    let mut store = SharedStore::new(0);
    store.set_text(String::from("x"), 0);
    // Expired for this read, but the stored state is untouched...
    let snap = store.get_snapshot(TTL + 500);
    assert_eq!(snap.text, "");
    // ...so a later write still lands and resets the shared clock.
    store.set_text(String::from("y"), TTL + 600);
    let snap = store.get_snapshot(TTL + 700);
    assert_eq!(snap.text, "y");
}

#[test]
fn last_writer_wins_over_a_run_of_writes() {
    let mut store = SharedStore::new(0);
    store.set_text(String::from("one"), 1);
    store.set_file(String::from("f1"), vec![1], 2);
    store.set_text(String::from("two"), 3);
    store.set_file(String::from("f2"), vec![2, 2], 4);
    store.set_text(String::from("three"), 5);
    let snap = store.get_snapshot(5);
    // The text of the last text write, the file of the last file write.
    assert_eq!(snap.text, "three");
    let file = snap.file.expect("file should be present");
    assert_eq!(file.name, "f2");
    assert_eq!(file.bytes, vec![2, 2]);
}

#[test]
fn snapshot_is_a_copy_not_the_store() {
    let mut store = SharedStore::new(0);
    store.set_text(String::from("keep"), 1);
    store.set_file(String::from("k.txt"), vec![9], 1);
    let mut snap = store.get_snapshot(1);
    snap.text.push('!');
    if let Some(file) = &mut snap.file {
        file.bytes.push(0);
    }
    let again = store.get_snapshot(2);
    assert_eq!(again.text, "keep");
    assert_eq!(again.file.expect("file").bytes, vec![9]);
}
