use s3_wayfinder::tui::{App, Key, Request, Screen, Step};

fn names(v: &[&str]) -> Vec<String> {
    v.iter().map(|s| s.to_string()).collect()
}

fn call(r: Request<String>) -> Step<String> {
    Step::Call(r)
}

/// A browser on the bucket screen with the given buckets.
fn with_buckets(v: &[&str]) -> App {
    let (mut app, request) = App::launch();
    assert_eq!(request, Request::ListBuckets);
    assert_eq!(app.handle_listing(Ok(names(v))), Step::Idle);
    app
}

#[test]
fn launch_waits_for_buckets() {
    let (app, request) = App::launch();
    assert_eq!(request, Request::ListBuckets);
    assert!(app.items().is_empty());
    assert_eq!(app.selected(), None);
    assert_eq!(app.status(), "");
    assert_eq!(app.screen(), &Screen::Buckets);
    assert_eq!(app.endpoint(), "/");
    assert_eq!(app.list_title(), " Buckets ");
}

#[test]
fn first_listing_connects() {
    let app = with_buckets(&["a", "b"]);
    assert_eq!(app.items(), &names(&["a", "b"]));
    assert_eq!(app.selected(), Some(0));
    assert_eq!(app.status(), "Connected to S3");
}

#[test]
fn first_listing_failure() {
    let (mut app, _) = App::launch();
    assert_eq!(app.handle_listing(Err("no network".to_string())), Step::Idle);
    assert_eq!(app.status(), "Error: no network");
    assert!(app.items().is_empty());
    assert_eq!(app.selected(), None);
}

#[test]
fn empty_first_listing_selects_nothing() {
    let app = with_buckets(&[]);
    assert_eq!(app.selected(), None);
    assert_eq!(app.status(), "Connected to S3");
}

#[test]
fn down_and_up_wrap_around() {
    let mut app = with_buckets(&["a", "b", "c"]);
    app.handle_key(Key::Down);
    assert_eq!(app.selected(), Some(1));
    app.handle_key(Key::Down);
    app.handle_key(Key::Down);
    assert_eq!(app.selected(), Some(0));
    app.handle_key(Key::Up);
    assert_eq!(app.selected(), Some(2));
    app.handle_key(Key::Up);
    assert_eq!(app.selected(), Some(1));
}

#[test]
fn up_undoes_down() {
    let mut app = with_buckets(&["a", "b", "c"]);
    for _ in 0..3 {
        let before = app.selected();
        app.handle_key(Key::Down);
        app.handle_key(Key::Up);
        assert_eq!(app.selected(), before);
        app.handle_key(Key::Down);
    }
}

#[test]
fn arrows_on_empty_list() {
    let mut app = with_buckets(&[]);
    assert!(app.key_is_safe(Key::Up));
    app.handle_key(Key::Up);
    assert_eq!(app.selected(), Some(0));
    assert!(!app.key_is_safe(Key::Down));
    assert!(!app.key_is_safe(Key::Char('d')));
    assert!(!app.key_is_safe(Key::Delete));
    assert!(app.key_is_safe(Key::Char('c')));
    assert_eq!(app.handle_key(Key::Enter), Step::Idle);
    app.set_selected(None);
    assert!(app.key_is_safe(Key::Down));
    app.handle_key(Key::Down);
    assert_eq!(app.selected(), Some(0));
}

#[test]
fn enter_opens_bucket() {
    let mut app = with_buckets(&["a", "b"]);
    app.handle_key(Key::Down);
    let step = app.handle_key(Key::Enter);
    assert_eq!(step, call(Request::ListObjects { bucket: "b".to_string() }));
    assert_eq!(app.status(), "Loading objects for b...");
    assert_eq!(app.handle_listing(Ok(names(&["x", "y"]))), Step::Idle);
    assert_eq!(app.screen(), &Screen::Objects { bucket: "b".to_string() });
    assert_eq!(app.items(), &names(&["x", "y"]));
    assert_eq!(app.selected(), Some(0));
    assert_eq!(app.status(), "Viewing bucket: b");
    assert_eq!(app.endpoint(), "/b");
    assert_eq!(app.list_title(), " Objects in b ");
}

#[test]
fn failed_open_stays_on_buckets() {
    let mut app = with_buckets(&["a"]);
    app.handle_key(Key::Enter);
    app.handle_listing(Err("denied".to_string()));
    assert_eq!(app.screen(), &Screen::Buckets);
    assert_eq!(app.items(), &names(&["a"]));
    assert_eq!(app.status(), "Error: denied");
}

#[test]
fn enter_on_object_names_it() {
    let mut app = with_buckets(&["b"]);
    app.handle_key(Key::Enter);
    app.handle_listing(Ok(names(&["x", "y"])));
    app.handle_key(Key::Down);
    assert_eq!(app.handle_key(Key::Enter), Step::Idle);
    assert_eq!(app.status(), "Selected object y in b");
}

#[test]
fn back_to_buckets() {
    let mut app = with_buckets(&["a", "b"]);
    app.handle_key(Key::Enter);
    app.handle_listing(Ok(names(&["x"])));
    assert_eq!(app.handle_key(Key::Esc), call(Request::ListBuckets));
    assert_eq!(app.status(), "Loading buckets...");
    app.handle_listing(Ok(names(&["a", "b", "c"])));
    assert_eq!(app.screen(), &Screen::Buckets);
    assert_eq!(app.items(), &names(&["a", "b", "c"]));
    assert_eq!(app.status(), "Connected to S3");
    assert_eq!(app.handle_key(Key::Backspace), Step::Idle);
    assert_eq!(app.handle_key(Key::Esc), Step::Idle);
}

#[test]
fn backspace_goes_back_too() {
    let mut app = with_buckets(&["a"]);
    app.handle_key(Key::Enter);
    app.handle_listing(Ok(names(&["x"])));
    assert_eq!(app.handle_key(Key::Backspace), call(Request::ListBuckets));
}

#[test]
fn refresh_each_screen() {
    let mut app = with_buckets(&["a"]);
    assert_eq!(app.handle_key(Key::Char('r')), call(Request::ListBuckets));
    assert_eq!(app.status(), "Refreshing buckets...");
    app.handle_listing(Ok(names(&["a", "z"])));
    assert_eq!(app.status(), "Connected to S3");
    app.handle_key(Key::Enter);
    app.handle_listing(Ok(names(&["x"])));
    assert_eq!(
        app.handle_key(Key::Char('r')),
        call(Request::ListObjects { bucket: "a".to_string() })
    );
    assert_eq!(app.status(), "Refreshing objects in bucket a...");
    app.handle_listing(Ok(names(&[])));
    assert_eq!(app.selected(), None);
    assert_eq!(app.status(), "Viewing bucket: a");
}

#[test]
fn mark_and_paste_copies_into_current_bucket() {
    let mut app = with_buckets(&["dst", "src"]);
    app.handle_key(Key::Down);
    app.handle_key(Key::Enter);
    app.handle_listing(Ok(names(&["one", "two"])));
    app.handle_key(Key::Down);
    assert_eq!(app.handle_key(Key::Char('c')), Step::Idle);
    app.handle_key(Key::Esc);
    app.handle_listing(Ok(names(&["dst", "src"])));
    assert_eq!(app.handle_key(Key::Char('p')), Step::Idle);
    app.handle_key(Key::Enter);
    app.handle_listing(Ok(names(&["old"])));
    let step = app.handle_key(Key::Char('p'));
    assert_eq!(
        step,
        call(Request::CopyObject {
            source_bucket: "src".to_string(),
            source_key: "two".to_string(),
            dest_bucket: "dst".to_string(),
            dest_key: "two_copy".to_string(),
        })
    );
    assert_eq!(app.status(), "Copying object two from bucket src...");
    assert_eq!(
        app.handle_completion(Ok(())),
        call(Request::ListObjects { bucket: "dst".to_string() })
    );
    assert_eq!(app.status(), "Copied object two to two_copy in bucket dst");
    assert_eq!(app.handle_listing(Ok(names(&["old", "two_copy"]))), Step::Idle);
    assert_eq!(app.items(), &names(&["old", "two_copy"]));
    assert_eq!(app.selected(), Some(0));
    assert_eq!(app.status(), "Copied object two to two_copy in bucket dst");
}

#[test]
fn paste_without_mark_does_nothing() {
    let mut app = with_buckets(&["a"]);
    app.handle_key(Key::Enter);
    app.handle_listing(Ok(names(&["x"])));
    assert_eq!(app.handle_key(Key::Char('p')), Step::Idle);
    assert_eq!(app.status(), "Viewing bucket: a");
}

#[test]
fn mark_on_buckets_does_nothing() {
    let mut app = with_buckets(&["a"]);
    app.handle_key(Key::Char('c'));
    app.handle_key(Key::Enter);
    app.handle_listing(Ok(names(&["x"])));
    assert_eq!(app.handle_key(Key::Char('p')), Step::Idle);
}

#[test]
fn failed_copy_reports_error() {
    let mut app = with_buckets(&["a"]);
    app.handle_key(Key::Enter);
    app.handle_listing(Ok(names(&["x"])));
    app.handle_key(Key::Char('c'));
    app.handle_key(Key::Char('p'));
    assert_eq!(app.handle_completion(Err("AccessDenied".to_string())), Step::Idle);
    assert_eq!(app.status(), "Error: AccessDenied");
    assert_eq!(app.items(), &names(&["x"]));
}

#[test]
fn delete_object_then_reload() {
    let mut app = with_buckets(&["a"]);
    app.handle_key(Key::Enter);
    app.handle_listing(Ok(names(&["x", "y"])));
    let step = app.handle_key(Key::Char('d'));
    assert_eq!(
        step,
        call(Request::DeleteObject { bucket: "a".to_string(), key: "x".to_string() })
    );
    assert_eq!(app.status(), "Deleting object x from bucket a...");
    assert_eq!(
        app.handle_completion(Ok(())),
        call(Request::ListObjects { bucket: "a".to_string() })
    );
    assert_eq!(app.status(), "Deleted object x from bucket a");
    app.handle_listing(Ok(names(&["y"])));
    assert_eq!(app.items(), &names(&["y"]));
    assert_eq!(app.status(), "Deleted object x from bucket a");
    assert_eq!(app.screen(), &Screen::Objects { bucket: "a".to_string() });
}

#[test]
fn delete_key_removes_bucket() {
    let mut app = with_buckets(&["a", "b"]);
    app.handle_key(Key::Down);
    let step = app.handle_key(Key::Delete);
    assert_eq!(step, call(Request::DeleteBucket { bucket: "b".to_string() }));
    assert_eq!(app.status(), "Deleting bucket b...");
    assert_eq!(app.handle_completion(Ok(())), call(Request::ListBuckets));
    assert_eq!(app.status(), "Deleted bucket b");
    app.handle_listing(Ok(names(&["a"])));
    assert_eq!(app.items(), &names(&["a"]));
    assert_eq!(app.selected(), Some(0));
    assert_eq!(app.status(), "Deleted bucket b");
}

#[test]
fn failed_reload_reports_error() {
    let mut app = with_buckets(&["a"]);
    app.handle_key(Key::Char('d'));
    app.handle_completion(Ok(()));
    app.handle_listing(Err("timeout".to_string()));
    assert_eq!(app.status(), "Error: timeout");
    assert_eq!(app.items(), &names(&["a"]));
}

#[test]
fn unrequested_outcomes_are_ignored() {
    let mut app = with_buckets(&["a"]);
    assert_eq!(app.handle_listing(Ok(names(&["z"]))), Step::Idle);
    assert_eq!(app.handle_completion(Err("x".to_string())), Step::Idle);
    assert_eq!(app.items(), &names(&["a"]));
    assert_eq!(app.status(), "Connected to S3");
}

#[test]
fn quit_and_other_keys() {
    let mut app = with_buckets(&["a"]);
    assert_eq!(app.handle_key(Key::Char('q')), Step::Quit);
    assert_eq!(app.handle_key(Key::Char('z')), Step::Idle);
    assert_eq!(app.handle_key(Key::Other), Step::Idle);
    assert_eq!(app.status(), "Connected to S3");
    assert_eq!(app.selected(), Some(0));
}
