use miniblog::errors::BlogError;
use miniblog::pipeline::{Command, Event, Outcome, Pipeline};

fn part(name: &str) -> Event {
    Event::Part { name: Some(name.to_string()), file_name: None }
}

fn file_part(name: &str, file_name: &str) -> Event {
    Event::Part { name: Some(name.to_string()), file_name: Some(file_name.to_string()) }
}

fn ok_text(s: &str) -> Event {
    Event::Text(Ok(s.to_string()))
}

/// Feeds a username and a content part, so the draft is complete.
fn feed_required(p: &mut Pipeline, username: &str, content: &str) {
    assert!(matches!(p.step(part("username")), Command::ReadText));
    assert!(matches!(p.step(ok_text(username)), Command::NextPart));
    assert!(matches!(p.step(part("post_content")), Command::ReadText));
    assert!(matches!(p.step(ok_text(content)), Command::NextPart));
}

#[test]
fn simple_submission_commits_one_record() {
    let mut p = Pipeline::new("app/uploads".to_string());
    feed_required(&mut p, "alice", "hello");
    let cmd = p.step(Event::End);
    match cmd {
        Command::Insert(rec) => {
            assert_eq!(rec.username, "alice");
            assert_eq!(rec.content, "hello");
            assert!(rec.image_path.is_none());
            assert!(rec.avatar_url.is_none());
        }
        _ => panic!("expected an insert"),
    }
    let done = p.step(Event::Inserted(Ok(())));
    match done {
        Command::Respond(Outcome::Redirect(t)) => assert_eq!(t, "/home"),
        _ => panic!("expected a redirect"),
    }
}

#[test]
fn missing_username_is_rejected() {
    let mut p = Pipeline::new("app/uploads".to_string());
    assert!(matches!(p.step(part("post_content")), Command::ReadText));
    assert!(matches!(p.step(ok_text("hello")), Command::NextPart));
    match p.step(Event::End) {
        Command::Respond(Outcome::Failure(BlogError::Validation(m))) => {
            assert_eq!(m, "Username is required");
        }
        _ => panic!("expected a validation failure"),
    }
}

#[test]
fn missing_content_is_rejected() {
    let mut p = Pipeline::new("app/uploads".to_string());
    assert!(matches!(p.step(part("username")), Command::ReadText));
    assert!(matches!(p.step(ok_text("alice")), Command::NextPart));
    match p.step(Event::End) {
        Command::Respond(Outcome::Failure(BlogError::Validation(m))) => {
            assert_eq!(m, "Content is required");
        }
        _ => panic!("expected a validation failure"),
    }
}

#[test]
fn empty_submission_is_rejected() {
    let mut p = Pipeline::new("app/uploads".to_string());
    match p.step(Event::End) {
        Command::Respond(Outcome::Failure(BlogError::Validation(m))) => {
            assert_eq!(m, "Username is required");
        }
        _ => panic!("expected a validation failure"),
    }
}

#[test]
fn unknown_part_changes_nothing() {
    let mut with_extra = Pipeline::new("app/uploads".to_string());
    assert!(matches!(with_extra.step(part("foo")), Command::NextPart));
    feed_required(&mut with_extra, "alice", "hello");

    let mut without = Pipeline::new("app/uploads".to_string());
    feed_required(&mut without, "alice", "hello");

    let a = with_extra.step(Event::End);
    let b = without.step(Event::End);
    match (a, b) {
        (Command::Insert(ra), Command::Insert(rb)) => {
            assert_eq!(ra.username, rb.username);
            assert_eq!(ra.content, rb.content);
            assert_eq!(ra.image_path, rb.image_path);
            assert_eq!(ra.avatar_url, rb.avatar_url);
        }
        _ => panic!("expected two inserts"),
    }
}

#[test]
fn nameless_part_is_ignored() {
    let mut p = Pipeline::new("app/uploads".to_string());
    let cmd = p.step(Event::Part { name: None, file_name: Some("a.png".to_string()) });
    assert!(matches!(cmd, Command::NextPart));
}

#[test]
fn wrong_extension_image_is_silently_ignored() {
    let mut p = Pipeline::new("app/uploads".to_string());
    assert!(matches!(p.step(file_part("post_image", "photo.jpg")), Command::NextPart));
    feed_required(&mut p, "alice", "hello");
    match p.step(Event::End) {
        Command::Insert(rec) => assert!(rec.image_path.is_none()),
        _ => panic!("expected an insert"),
    }
}

#[test]
fn png_image_is_stored_and_referenced() {
    let mut p = Pipeline::new("app/uploads".to_string());
    assert!(matches!(p.step(file_part("post_image", "photo.png")), Command::ReadImage));
    let bytes = vec![1u8, 2, 3, 4];
    let name = match p.step(Event::Image(Ok(bytes.clone()))) {
        Command::WriteAsset(name, data) => {
            assert_eq!(data, bytes);
            assert!(name.ends_with(".png"));
            assert_eq!(name.len(), 40);
            name
        }
        _ => panic!("expected a write"),
    };
    assert!(matches!(p.step(Event::Written(Ok(()))), Command::NextPart));
    feed_required(&mut p, "alice", "hello");
    match p.step(Event::End) {
        Command::Insert(rec) => {
            assert_eq!(rec.image_path.unwrap(), format!("app/uploads/{name}"));
            assert!(rec.avatar_url.is_none());
        }
        _ => panic!("expected an insert"),
    }
}

#[test]
fn empty_image_body_is_ignored() {
    let mut p = Pipeline::new("app/uploads".to_string());
    assert!(matches!(p.step(file_part("post_image", "photo.png")), Command::ReadImage));
    assert!(matches!(p.step(Event::Image(Ok(Vec::new()))), Command::NextPart));
    feed_required(&mut p, "alice", "hello");
    match p.step(Event::End) {
        Command::Insert(rec) => assert!(rec.image_path.is_none()),
        _ => panic!("expected an insert"),
    }
}

#[test]
fn avatar_round_trip_preserves_bytes() {
    let mut p = Pipeline::new("app/uploads".to_string());
    assert!(matches!(p.step(part("avatar_url")), Command::ReadText));
    let url = "http://example.test/pic";
    match p.step(ok_text(url)) {
        Command::FetchAvatar(u) => assert_eq!(u, url),
        _ => panic!("expected a fetch"),
    }
    let body = vec![9u8, 8, 7];
    let name = match p.step(Event::Fetched(Ok(body.clone()))) {
        Command::WriteAsset(name, data) => {
            assert_eq!(data, body);
            assert!(name.ends_with(".png"));
            name
        }
        _ => panic!("expected a write"),
    };
    assert!(matches!(p.step(Event::Written(Ok(()))), Command::NextPart));
    feed_required(&mut p, "alice", "hello");
    match p.step(Event::End) {
        Command::Insert(rec) => {
            assert_eq!(rec.avatar_url.unwrap(), format!("app/uploads/{name}"));
        }
        _ => panic!("expected an insert"),
    }
}

#[test]
fn empty_avatar_url_is_skipped() {
    let mut p = Pipeline::new("app/uploads".to_string());
    assert!(matches!(p.step(part("avatar_url")), Command::ReadText));
    assert!(matches!(p.step(ok_text("")), Command::NextPart));
}

#[test]
fn repeated_field_last_write_wins() {
    let mut p = Pipeline::new("app/uploads".to_string());
    assert!(matches!(p.step(part("username")), Command::ReadText));
    assert!(matches!(p.step(ok_text("first")), Command::NextPart));
    feed_required(&mut p, "second", "hello");
    match p.step(Event::End) {
        Command::Insert(rec) => assert_eq!(rec.username, "second"),
        _ => panic!("expected an insert"),
    }
}

#[test]
fn text_decode_failure_fails_the_request() {
    let mut p = Pipeline::new("app/uploads".to_string());
    assert!(matches!(p.step(part("username")), Command::ReadText));
    match p.step(Event::Text(Err("boom".to_string()))) {
        Command::Respond(Outcome::Failure(BlogError::Form(m))) => {
            assert_eq!(m, "Failed to read username: boom");
        }
        _ => panic!("expected a form failure"),
    }
}

#[test]
fn image_read_failure_fails_the_request() {
    let mut p = Pipeline::new("app/uploads".to_string());
    assert!(matches!(p.step(file_part("post_image", "a.png")), Command::ReadImage));
    match p.step(Event::Image(Err("boom".to_string()))) {
        Command::Respond(Outcome::Failure(BlogError::Form(m))) => {
            assert_eq!(m, "Failed to read image data: boom");
        }
        _ => panic!("expected a form failure"),
    }
}

#[test]
fn avatar_fetch_failure_fails_the_request() {
    let mut p = Pipeline::new("app/uploads".to_string());
    assert!(matches!(p.step(part("avatar_url")), Command::ReadText));
    assert!(matches!(p.step(ok_text("http://x.test/")), Command::FetchAvatar(_)));
    match p.step(Event::Fetched(Err("nope".to_string()))) {
        Command::Respond(Outcome::Failure(BlogError::Network(m))) => {
            assert_eq!(m, "Failed to save avatar: nope");
        }
        _ => panic!("expected a network failure"),
    }
}

#[test]
fn image_write_failure_fails_the_request() {
    let mut p = Pipeline::new("app/uploads".to_string());
    assert!(matches!(p.step(file_part("post_image", "a.png")), Command::ReadImage));
    assert!(matches!(p.step(Event::Image(Ok(vec![1u8]))), Command::WriteAsset(_, _)));
    match p.step(Event::Written(Err("disk full".to_string()))) {
        Command::Respond(Outcome::Failure(BlogError::FileOperation(m))) => {
            assert_eq!(m, "Failed to save file: disk full");
        }
        _ => panic!("expected a file failure"),
    }
}

#[test]
fn avatar_write_failure_fails_the_request() {
    let mut p = Pipeline::new("app/uploads".to_string());
    assert!(matches!(p.step(part("avatar_url")), Command::ReadText));
    assert!(matches!(p.step(ok_text("http://x.test/")), Command::FetchAvatar(_)));
    assert!(matches!(p.step(Event::Fetched(Ok(vec![1u8]))), Command::WriteAsset(_, _)));
    match p.step(Event::Written(Err("disk full".to_string()))) {
        Command::Respond(Outcome::Failure(BlogError::FileOperation(m))) => {
            assert_eq!(m, "Failed to save avatar to fs: disk full");
        }
        _ => panic!("expected a file failure"),
    }
}

#[test]
fn insert_failure_reports_database_error_and_stops() {
    let mut p = Pipeline::new("app/uploads".to_string());
    assert!(matches!(p.step(file_part("post_image", "a.png")), Command::ReadImage));
    assert!(matches!(p.step(Event::Image(Ok(vec![5u8]))), Command::WriteAsset(_, _)));
    assert!(matches!(p.step(Event::Written(Ok(()))), Command::NextPart));
    feed_required(&mut p, "alice", "hello");
    assert!(matches!(p.step(Event::End), Command::Insert(_)));
    // The image file was already written; the failing insert answers with
    // the database error and commands nothing further — the command
    // vocabulary has no deletion, so the written file is left orphaned.
    match p.step(Event::Inserted(Err("db down".to_string()))) {
        Command::Respond(Outcome::Failure(e)) => {
            assert!(matches!(e, BlogError::Database(_)));
            assert_eq!(e.message(), "Database error: db down");
        }
        _ => panic!("expected a database failure"),
    }
    assert!(!p.expects(&Event::End));
    assert!(!p.expects(&part("username")));
}
