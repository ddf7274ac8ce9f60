use nuba::cache::OpenFileCache;
use nuba::patch::check_hunk_ranges;
use nuba::service::{
    create_dir_response, create_file_response, finish_read, finish_write, on_close, plan_remove,
    plan_write, read_cached_response, removed_response, route, route_error_response, Body,
    EntryKind, Method, Operation, Removal, Response, RouteError, Status,
};

const EMPTY_TO_HELLO: &str = "--- original\n+++ modified\n@@ -0,0 +1 @@\n+hello\n\\ No newline at end of file\n";

fn text_of(r: &Response) -> String {
    match &r.body {
        Body::Text(t) => t.clone(),
        Body::Data(_) => panic!("expected a message"),
    }
}

fn data_of(r: &Response) -> Vec<u8> {
    match &r.body {
        Body::Data(d) => d.clone(),
        Body::Text(_) => panic!("expected content"),
    }
}

#[test]
fn create_write_read_close_remove() {
    let path = "/.tmp/a.txt";
    let mut cache: OpenFileCache<u32> = OpenFileCache::new();

    assert_eq!(route(Method::Get, "/create_file", Some(path)), Ok(Operation::CreateFile));
    let r = create_file_response(path, Ok(()));
    assert_eq!(r.status, Status::Success);
    assert_eq!(text_of(&r), "GET created file /.tmp/a.txt");

    assert_eq!(route(Method::Post, "/write", Some(path)), Ok(Operation::Write));
    assert!(!cache.contains(path));
    let patched = match plan_write(Ok(Vec::new()), EMPTY_TO_HELLO.as_bytes()) {
        Ok(v) => v,
        Err(_) => panic!("the patch applies to empty content"),
    };
    assert_eq!(patched, b"hello".to_vec());
    let r = finish_write(&mut cache, path, Ok(7));
    assert_eq!(r.status, Status::Success);
    assert_eq!(text_of(&r), "POST write to file /.tmp/a.txt");

    assert_eq!(route(Method::Get, "/read", Some(path)), Ok(Operation::Read));
    assert_eq!(cache.get(path), Some(&7));
    let r = read_cached_response(Ok(patched));
    assert_eq!(r.status, Status::Success);
    assert_eq!(data_of(&r), b"hello".to_vec());

    assert_eq!(route(Method::Get, "/close", Some(path)), Ok(Operation::Close));
    let r = on_close(&mut cache, path);
    assert_eq!(r.status, Status::Success);
    assert_eq!(text_of(&r), "GET close file /.tmp/a.txt");

    assert_eq!(route(Method::Get, "/remove", Some(path)), Ok(Operation::Remove));
    let removal = match plan_remove(&mut cache, path, Ok(EntryKind::File)) {
        Ok(m) => m,
        Err(_) => panic!("a file is removable"),
    };
    assert_eq!(removal, Removal::File);
    let r = removed_response(path, removal, Ok(()));
    assert_eq!(r.status, Status::Success);
    assert_eq!(text_of(&r), "GET remove file /.tmp/a.txt");
}

#[test]
fn read_of_missing_path() {
    let path = "/nonexistent";
    let mut cache: OpenFileCache<u32> = OpenFileCache::new();
    assert_eq!(route(Method::Get, "/read", Some(path)), Ok(Operation::Read));
    assert_eq!(cache.get(path), None);
    let msg = "No such file or directory (os error 2)";
    let r = finish_read(&mut cache, path, Err(msg.to_string()));
    assert_eq!(r.status, Status::NotAcceptable);
    assert!(text_of(&r).contains("No such file or directory"));
    assert!(!cache.contains(path));
}

#[test]
fn two_reads_of_a_new_path() {
    let mut cache: OpenFileCache<u32> = OpenFileCache::new();
    finish_read(&mut cache, "/other", Ok((1, b"x".to_vec())));
    let first = finish_read(&mut cache, "/p", Ok((2, b"abc".to_vec())));
    assert_eq!(data_of(&first), b"abc".to_vec());
    assert_eq!(cache.get("/p"), Some(&2));
    assert_eq!(cache.get("/other"), Some(&1));
    let second = read_cached_response(Ok(b"abc".to_vec()));
    assert_eq!(data_of(&second), data_of(&first));
}

#[test]
fn write_applies_the_patch_to_the_current_content() {
    let pre = b"one\ntwo\nthree\n".to_vec();
    let patch = "--- a\n+++ b\n@@ -1,3 +1,3 @@\n one\n-two\n+TWO\n three\n";
    let v = match plan_write(Ok(pre), patch.as_bytes()) {
        Ok(v) => v,
        Err(_) => panic!("the patch applies"),
    };
    assert_eq!(v, b"one\nTWO\nthree\n".to_vec());
}

#[test]
fn write_with_mismatched_patch_fails() {
    let patch = "--- a\n+++ b\n@@ -1,1 +1,1 @@\n-two\n+TWO\n";
    match plan_write(Ok(b"one\n".to_vec()), patch.as_bytes()) {
        Ok(_) => panic!("the patch does not apply"),
        Err(r) => {
            assert_eq!(r.status, Status::NotAcceptable);
            assert_eq!(text_of(&r), "error applying hunk #1");
        }
    }
}

#[test]
fn write_with_unparsable_patch_fails() {
    let patch = "@@ this is no hunk\n";
    match plan_write(Ok(b"one\n".to_vec()), patch.as_bytes()) {
        Ok(_) => panic!("the patch does not parse"),
        Err(r) => assert_eq!(r.status, Status::NotAcceptable),
    }
}

#[test]
fn write_when_content_cannot_be_read() {
    match plan_write(Err("denied".to_string()), EMPTY_TO_HELLO.as_bytes()) {
        Ok(_) => panic!("nothing to patch"),
        Err(r) => {
            assert_eq!(r.status, Status::NotAcceptable);
            assert_eq!(text_of(&r), "denied");
        }
    }
}

#[test]
fn failed_store_keeps_cache() {
    let mut cache: OpenFileCache<u32> = OpenFileCache::new();
    finish_write(&mut cache, "/f", Ok(1));
    let r = finish_write(&mut cache, "/f", Err("disk full".to_string()));
    assert_eq!(r.status, Status::NotAcceptable);
    assert_eq!(text_of(&r), "disk full");
    assert_eq!(cache.get("/f"), Some(&1));
    finish_write(&mut cache, "/f", Ok(2));
    assert_eq!(cache.get("/f"), Some(&2));
}

#[test]
fn close_of_uncached_path_fails() {
    let mut cache: OpenFileCache<u32> = OpenFileCache::new();
    let r = on_close(&mut cache, "/never");
    assert_eq!(r.status, Status::NotAcceptable);
    assert_eq!(text_of(&r), "Not exists");
}

#[test]
fn close_evicts_cached_path() {
    let mut cache: OpenFileCache<u32> = OpenFileCache::new();
    finish_read(&mut cache, "/c", Ok((3, Vec::new())));
    assert!(cache.contains("/c"));
    on_close(&mut cache, "/c");
    assert!(!cache.contains("/c"));
    assert_eq!(cache.get("/c"), None);
}

#[test]
fn remove_directory_and_unopened_path() {
    let mut cache: OpenFileCache<u32> = OpenFileCache::new();
    let removal = plan_remove(&mut cache, "/d", Ok(EntryKind::Directory)).ok().unwrap();
    assert_eq!(removal, Removal::Directory);
    let r = removed_response("/d", removal, Ok(()));
    assert_eq!(text_of(&r), "GET remove directory /d");
}

#[test]
fn remove_evicts_cached_path() {
    let mut cache: OpenFileCache<u32> = OpenFileCache::new();
    finish_read(&mut cache, "/e", Ok((5, Vec::new())));
    assert!(plan_remove(&mut cache, "/e", Ok(EntryKind::File)).is_ok());
    assert!(!cache.contains("/e"));
}

#[test]
fn remove_of_other_entry_kind_fails() {
    let mut cache: OpenFileCache<u32> = OpenFileCache::new();
    match plan_remove(&mut cache, "/dev/null", Ok(EntryKind::Other)) {
        Ok(_) => panic!("not a file or a directory"),
        Err(r) => {
            assert_eq!(r.status, Status::NotAcceptable);
            assert_eq!(text_of(&r), "Unsupported file type");
        }
    }
}

#[test]
fn remove_reports_filesystem_failures() {
    let mut cache: OpenFileCache<u32> = OpenFileCache::new();
    let r = plan_remove(&mut cache, "/x", Err("gone".to_string())).err().unwrap();
    assert_eq!(text_of(&r), "gone");
    let r = removed_response("/x", Removal::File, Err("busy".to_string()));
    assert_eq!(r.status, Status::NotAcceptable);
    assert_eq!(text_of(&r), "busy");
}

#[test]
fn create_responses() {
    let r = create_dir_response("/.tmp/d", Ok(()));
    assert_eq!(text_of(&r), "GET created dir /.tmp/d");
    let r = create_file_response("/no/such/dir/f", Err("No such file or directory (os error 2)".to_string()));
    assert_eq!(r.status, Status::NotAcceptable);
}

#[test]
fn routing_errors() {
    assert_eq!(route(Method::Get, "/read", None), Err(RouteError::EmptyQuery));
    assert_eq!(route(Method::Get, "/read", Some("")), Err(RouteError::EmptyQuery));
    assert_eq!(route(Method::Get, "/nowhere", None), Err(RouteError::EmptyQuery));
    assert_eq!(route(Method::Get, "/write", Some("/f")), Err(RouteError::UnsupportedRoute));
    assert_eq!(route(Method::Post, "/read", Some("/f")), Err(RouteError::UnsupportedRoute));
    assert_eq!(route(Method::Other, "/read", Some("/f")), Err(RouteError::UnsupportedRoute));
    assert_eq!(route(Method::Get, "/create_dir", Some("/f")), Ok(Operation::CreateDir));
    let r = route_error_response(RouteError::EmptyQuery);
    assert_eq!(r.status, Status::NotAcceptable);
    assert_eq!(text_of(&r), "Empty query");
    let r = route_error_response(RouteError::UnsupportedRoute);
    assert_eq!(r.status, Status::NotFound);
    assert_eq!(text_of(&r), "Unsupported route");
}

#[test]
fn cache_insert_replaces_and_remove_returns() {
    let mut cache: OpenFileCache<u32> = OpenFileCache::new();
    assert_eq!(cache.insert("/a", 1), None);
    assert_eq!(cache.insert("/b", 2), None);
    assert_eq!(cache.insert("/a", 3), Some(1));
    assert_eq!(cache.get("/a"), Some(&3));
    assert_eq!(cache.remove("/b"), Some(2));
    assert_eq!(cache.remove("/b"), None);
    assert!(cache.contains("/a"));
    assert!(!cache.contains("/A"));
}

#[test]
fn patch_with_oversized_hunk_range_fails() {
    let patch = "@@ -18446744073709551615,1 +1,1 @@\n-a\n+b\n@@ -1,0 +1,0 @@\n";
    match plan_write(Ok(b"a\n".to_vec()), patch.as_bytes()) {
        Ok(_) => panic!("the patch is refused"),
        Err(r) => {
            assert_eq!(r.status, Status::NotAcceptable);
            assert_eq!(text_of(&r), "Invalid patch: hunk range number too long");
        }
    }
}

#[test]
fn long_numbers_outside_hunk_headers_are_fine() {
    assert!(check_hunk_ranges(b"@@ -1,1 +1,1 @@\n-a\n+12345678901234\n"));
    assert!(check_hunk_ranges(b"@@ -123456789,1 +1,1 @@\n"));
    assert!(!check_hunk_ranges(b"@@ -1234567890,1 +1,1 @@\n"));
    assert!(!check_hunk_ranges(b"x\n@@ -1,1 +99999999999,1 @@\n"));
    let patch = "--- a\n+++ b\n@@ -1 +1 @@\n-old\n+12345678901234\n";
    let v = match plan_write(Ok(b"old\n".to_vec()), patch.as_bytes()) {
        Ok(v) => v,
        Err(_) => panic!("the patch applies"),
    };
    assert_eq!(v, b"12345678901234\n".to_vec());
}

#[test]
fn unparsable_patch_carries_the_parser_message() {
    match plan_write(Ok(b"one\n".to_vec()), b"@@ this is no hunk\n") {
        Ok(_) => panic!("the patch does not parse"),
        Err(r) => assert!(!text_of(&r).is_empty()),
    }
}

#[test]
fn long_numbers_in_function_context_are_fine() {
    assert!(check_hunk_ranges(b"@@ -1 +1 @@ id 20240101120000\n"));
    assert!(check_hunk_ranges(b"@@ -00000000000001,1 +1 @@\n"));
    assert!(!check_hunk_ranges(b"@@ -1 +10000000000 @@ id\n"));
    let patch = "--- a\n+++ b\n@@ -1 +1 @@ id 20240101120000\n-old\n+new\n";
    let v = match plan_write(Ok(b"old\n".to_vec()), patch.as_bytes()) {
        Ok(v) => v,
        Err(_) => panic!("the patch applies"),
    };
    assert_eq!(v, b"new\n".to_vec());
}
