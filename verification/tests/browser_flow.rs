use s3_browser_tool::browser::{
    App, ContextMenu, Dialog, Effect, FileArea, FileRow, Message, Overlay, TITLE,
};

type Pos = (i32, i32);

fn started(bucket: &str) -> App<Pos> {
    let (app, effect) = App::new(bucket.to_string(), (0, 0));
    assert_eq!(effect, Effect::CreateClient);
    app
}

fn keys(names: &[&str]) -> Vec<String> {
    names.iter().map(|s| s.to_string()).collect()
}

#[test]
fn title_is_fixed() {
    assert_eq!(TITLE, "S3 Browser Tool");
}

#[test]
fn new_app_initializes() {
    let app = started("photos");
    assert_eq!(app.bucket, "photos");
    assert_eq!(app.status, "Initializing...");
    assert!(!app.connected);
    assert!(!app.loading);
    assert!(app.files.is_empty());
    assert_eq!(app.context_menu, None);
    assert_eq!(app.dialog, None);
    let screen = app.screen();
    assert!(!screen.refresh_enabled);
    assert_eq!(
        screen.file_area,
        FileArea::Hint("Enter a bucket name and click Connect".to_string())
    );
    assert_eq!(screen.overlay, Overlay::Hidden);
}

#[test]
fn launch_with_bucket_lists_it() {
    let mut app = started("photos");
    let effect = app.update(Message::ClientReady);
    assert_eq!(effect, Effect::ListObjects { bucket: "photos".to_string() });
    assert!(app.connected);
    assert!(app.loading);
    assert_eq!(app.status, "Loading...");
    assert_eq!(app.screen().file_area, FileArea::Loading);
    assert!(!app.screen().refresh_enabled);
}

#[test]
fn launch_without_bucket_waits() {
    let mut app = started("");
    let effect = app.update(Message::ClientReady);
    assert_eq!(effect, Effect::Nothing);
    assert!(app.connected);
    assert!(!app.loading);
    assert_eq!(app.status, "Ready");
    assert_eq!(app.screen().file_area, FileArea::Hint("No objects in bucket".to_string()));
}

#[test]
fn connect_before_client_does_nothing() {
    let mut app = started("photos");
    let effect = app.update(Message::Connect);
    assert_eq!(effect, Effect::Nothing);
    assert_eq!(app.status, "Initializing...");
    assert!(!app.loading);
}

#[test]
fn connect_with_empty_bucket_does_nothing() {
    let mut app = started("");
    app.update(Message::ClientReady);
    assert_eq!(app.update(Message::Connect), Effect::Nothing);
    assert_eq!(app.update(Message::Refresh), Effect::Nothing);
    assert_eq!(app.status, "Ready");
}

#[test]
fn switching_bucket_and_connecting_lists_new_bucket() {
    let mut app = started("");
    app.update(Message::ClientReady);
    assert_eq!(app.update(Message::BucketChanged("logs".to_string())), Effect::Nothing);
    assert_eq!(app.bucket, "logs");
    let effect = app.update(Message::Connect);
    assert_eq!(effect, Effect::ListObjects { bucket: "logs".to_string() });
}

#[test]
fn loaded_files_are_counted_and_striped() {
    let mut app = started("photos");
    app.update(Message::ClientReady);
    let effect = app.update(Message::FilesLoaded(Ok(keys(&["a.jpg", "b.jpg", "c.jpg"]))));
    assert_eq!(effect, Effect::Nothing);
    assert!(!app.loading);
    assert_eq!(app.status, "3 objects");
    assert_eq!(app.files, keys(&["a.jpg", "b.jpg", "c.jpg"]));
    let screen = app.screen();
    assert!(screen.refresh_enabled);
    assert_eq!(
        screen.file_area,
        FileArea::Rows(vec![
            FileRow { key: "a.jpg".to_string(), even: true },
            FileRow { key: "b.jpg".to_string(), even: false },
            FileRow { key: "c.jpg".to_string(), even: true },
        ])
    );
}

#[test]
fn many_files_counted_in_decimal() {
    let mut app = started("photos");
    app.update(Message::ClientReady);
    let files: Vec<String> = (0..1234).map(|i| format!("k{i}")).collect();
    app.update(Message::FilesLoaded(Ok(files)));
    assert_eq!(app.status, "1234 objects");
}

#[test]
fn empty_listing_counts_zero() {
    let mut app = started("photos");
    app.update(Message::ClientReady);
    app.update(Message::FilesLoaded(Ok(Vec::new())));
    assert_eq!(app.status, "0 objects");
    assert_eq!(app.screen().file_area, FileArea::Hint("No objects in bucket".to_string()));
}

#[test]
fn failed_listing_keeps_old_files() {
    let mut app = started("photos");
    app.update(Message::ClientReady);
    app.update(Message::FilesLoaded(Ok(keys(&["a"]))));
    app.update(Message::Refresh);
    assert!(app.loading);
    app.update(Message::FilesLoaded(Err("AccessDenied: denied".to_string())));
    assert!(!app.loading);
    assert_eq!(app.status, "Error: AccessDenied: denied");
    assert_eq!(app.files, keys(&["a"]));
}

#[test]
fn right_click_opens_menu_at_pointer() {
    let mut app = started("photos");
    app.update(Message::MouseMoved((40, 75)));
    assert_eq!(app.mouse_pos, (40, 75));
    app.update(Message::FileRightClicked("a.jpg".to_string()));
    assert_eq!(
        app.context_menu,
        Some(ContextMenu { key: "a.jpg".to_string(), pos: (40, 75) })
    );
    assert_eq!(
        app.screen().overlay,
        Overlay::ContextMenu { key: "a.jpg".to_string(), pos: (40, 75) }
    );
    app.update(Message::MouseMoved((1, 2)));
    assert_eq!(app.context_menu.as_ref().unwrap().pos, (40, 75));
    app.update(Message::CloseContextMenu);
    assert_eq!(app.context_menu, None);
    assert_eq!(app.screen().overlay, Overlay::Hidden);
}

#[test]
fn refresh_closes_context_menu() {
    let mut app = started("photos");
    app.update(Message::ClientReady);
    app.update(Message::FilesLoaded(Ok(keys(&["a"]))));
    app.update(Message::FileRightClicked("a".to_string()));
    let effect = app.update(Message::Refresh);
    assert_eq!(effect, Effect::ListObjects { bucket: "photos".to_string() });
    assert_eq!(app.context_menu, None);
}

#[test]
fn delete_flow_asks_for_confirmation() {
    let mut app = started("photos");
    app.update(Message::ClientReady);
    app.update(Message::FilesLoaded(Ok(keys(&["a.jpg"]))));
    app.update(Message::FileRightClicked("a.jpg".to_string()));
    let effect = app.update(Message::ConfirmDeleteFile("a.jpg".to_string()));
    assert_eq!(effect, Effect::Nothing);
    assert_eq!(app.context_menu, None);
    assert_eq!(app.dialog, Some(Dialog::ConfirmDelete { key: "a.jpg".to_string() }));
    assert_eq!(
        app.screen().overlay,
        Overlay::ConfirmDelete {
            key: "a.jpg".to_string(),
            prompt: "Delete 'a.jpg'?".to_string()
        }
    );
    let effect = app.update(Message::DeleteConfirmed);
    assert_eq!(
        effect,
        Effect::Delete { bucket: "photos".to_string(), key: "a.jpg".to_string() }
    );
    assert_eq!(app.dialog, None);
    assert_eq!(app.status, "Deleting a.jpg...");
    let effect = app.update(Message::FileDeleted(Ok(())));
    assert_eq!(effect, Effect::ListObjects { bucket: "photos".to_string() });
    assert_eq!(app.status, "Loading...");
}

#[test]
fn delete_cancelled_sends_nothing() {
    let mut app = started("photos");
    app.update(Message::ClientReady);
    app.update(Message::ConfirmDeleteFile("a.jpg".to_string()));
    assert_eq!(app.update(Message::CancelDialog), Effect::Nothing);
    assert_eq!(app.dialog, None);
    assert_eq!(app.update(Message::DeleteConfirmed), Effect::Nothing);
}

#[test]
fn delete_error_reported() {
    let mut app = started("photos");
    app.update(Message::ClientReady);
    let effect = app.update(Message::FileDeleted(Err("NoSuchKey: gone".to_string())));
    assert_eq!(effect, Effect::Nothing);
    assert_eq!(app.status, "Delete error: NoSuchKey: gone");
}

#[test]
fn delete_confirmed_without_client_closes_dialog() {
    let mut app = started("photos");
    app.update(Message::ConfirmDeleteFile("a.jpg".to_string()));
    assert_eq!(app.update(Message::DeleteConfirmed), Effect::Nothing);
    assert_eq!(app.dialog, None);
    assert_eq!(app.status, "Initializing...");
}

#[test]
fn upload_flow_uses_file_name_as_key() {
    let mut app = started("photos");
    app.update(Message::ClientReady);
    app.update(Message::FileRightClicked("x".to_string()));
    app.update(Message::ShowUploadDialog);
    assert_eq!(app.context_menu, None);
    assert_eq!(app.dialog, Some(Dialog::Upload { path: String::new() }));
    assert_eq!(app.update(Message::PickFile), Effect::PickFile);
    app.update(Message::FilePicked(Some("/home/me/pics/cat.png".to_string())));
    assert_eq!(
        app.screen().overlay,
        Overlay::UploadDialog { path: "/home/me/pics/cat.png".to_string() }
    );
    let effect = app.update(Message::ConfirmUpload);
    assert_eq!(
        effect,
        Effect::Upload {
            bucket: "photos".to_string(),
            path: "/home/me/pics/cat.png".to_string(),
            key: "cat.png".to_string(),
        }
    );
    assert_eq!(app.dialog, None);
    assert_eq!(app.status, "Uploading cat.png...");
    let effect = app.update(Message::FileUploaded(Ok(())));
    assert_eq!(effect, Effect::ListObjects { bucket: "photos".to_string() });
}

#[test]
fn upload_path_typed_by_hand() {
    let mut app = started("photos");
    app.update(Message::ClientReady);
    app.update(Message::ShowUploadDialog);
    app.update(Message::UploadPathChanged("notes.txt".to_string()));
    assert_eq!(app.dialog, Some(Dialog::Upload { path: "notes.txt".to_string() }));
    let effect = app.update(Message::ConfirmUpload);
    assert_eq!(
        effect,
        Effect::Upload {
            bucket: "photos".to_string(),
            path: "notes.txt".to_string(),
            key: "notes.txt".to_string(),
        }
    );
}

#[test]
fn upload_path_without_file_name_is_used_as_key() {
    let mut app = started("photos");
    app.update(Message::ClientReady);
    app.update(Message::ShowUploadDialog);
    app.update(Message::UploadPathChanged("a/..".to_string()));
    let effect = app.update(Message::ConfirmUpload);
    assert_eq!(
        effect,
        Effect::Upload {
            bucket: "photos".to_string(),
            path: "a/..".to_string(),
            key: "a/..".to_string(),
        }
    );
}

#[test]
fn upload_path_change_ignored_without_upload_dialog() {
    let mut app = started("photos");
    app.update(Message::UploadPathChanged("x".to_string()));
    assert_eq!(app.dialog, None);
    app.update(Message::ConfirmDeleteFile("k".to_string()));
    app.update(Message::UploadPathChanged("x".to_string()));
    assert_eq!(app.dialog, Some(Dialog::ConfirmDelete { key: "k".to_string() }));
}

#[test]
fn cancelled_pick_keeps_dialog() {
    let mut app = started("photos");
    app.update(Message::ShowUploadDialog);
    app.update(Message::UploadPathChanged("x".to_string()));
    assert_eq!(app.update(Message::FilePicked(None)), Effect::Nothing);
    assert_eq!(app.dialog, Some(Dialog::Upload { path: "x".to_string() }));
}

#[test]
fn confirm_upload_on_delete_dialog_closes_it() {
    let mut app = started("photos");
    app.update(Message::ClientReady);
    app.update(Message::ConfirmDeleteFile("k".to_string()));
    assert_eq!(app.update(Message::ConfirmUpload), Effect::Nothing);
    assert_eq!(app.dialog, None);
}

#[test]
fn upload_error_reported() {
    let mut app = started("photos");
    app.update(Message::ClientReady);
    assert_eq!(
        app.update(Message::FileUploaded(Err("io: missing".to_string()))),
        Effect::Nothing
    );
    assert_eq!(app.status, "Upload error: io: missing");
}

#[test]
fn upload_complete_without_bucket_keeps_status() {
    let mut app = started("");
    app.update(Message::ClientReady);
    assert_eq!(app.update(Message::FileUploaded(Ok(()))), Effect::Nothing);
    assert_eq!(app.status, "Upload complete");
    assert_eq!(app.update(Message::FileDeleted(Ok(()))), Effect::Nothing);
    assert_eq!(app.status, "Deleted");
}

#[test]
fn dialog_drawn_over_context_menu() {
    let mut app = started("photos");
    app.update(Message::FileRightClicked("a".to_string()));
    app.update(Message::FilePicked(Some("p".to_string())));
    assert!(app.context_menu.is_some());
    assert_eq!(app.screen().overlay, Overlay::UploadDialog { path: "p".to_string() });
}

#[test]
fn screen_repeats_bucket_and_status() {
    let app = started("photos");
    let screen = app.screen();
    assert_eq!(screen.bucket, "photos");
    assert_eq!(screen.status, "Initializing...");
}
