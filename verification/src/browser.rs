use vstd::prelude::*;
use vstd::string::*;

use crate::paths::{upload_key, upload_key_spec};
use crate::text::{decimal, decimal_string};

verus! {

/// The title of the browser window.
pub const TITLE: &'static str = "S3 Browser Tool";

/// The modal dialog that the browser may show.
#[derive(Debug, Clone, PartialEq)]
pub enum Dialog {
    /// Asks for the path of a local file to upload.
    Upload { path: String },
    /// Asks for confirmation before an object is deleted.
    ConfirmDelete { key: String },
}

pub enum DialogView {
    Upload { path: Seq<char> },
    ConfirmDelete { key: Seq<char> },
}

impl View for Dialog {
    type V = DialogView;

    open spec fn view(&self) -> DialogView {
        match self {
            Dialog::Upload { path } => DialogView::Upload { path: path@ },
            Dialog::ConfirmDelete { key } => DialogView::ConfirmDelete { key: key@ },
        }
    }
}

/// The menu opened by a right click on an object, at the pointer position
/// `pos` of that moment.
#[derive(Debug, Clone, PartialEq)]
pub struct ContextMenu<P> {
    pub key: String,
    pub pos: P,
}

pub struct ContextMenuView<P> {
    pub key: Seq<char>,
    pub pos: P,
}

impl<P> View for ContextMenu<P> {
    type V = ContextMenuView<P>;

    open spec fn view(&self) -> ContextMenuView<P> {
        ContextMenuView { key: self.key@, pos: self.pos }
    }
}

/// What happens to the browser: a user action, or the outcome of work that
/// an earlier effect started.  `P` is a pointer position, carried and never
/// inspected.
#[derive(Debug, PartialEq)]
pub enum Message<P> {
    BucketChanged(String),
    Connect,
    /// The S3 client has been set up.
    ClientReady,
    Refresh,
    FilesLoaded(Result<Vec<String>, String>),
    FileRightClicked(String),
    CloseContextMenu,
    ShowUploadDialog,
    PickFile,
    FilePicked(Option<String>),
    UploadPathChanged(String),
    ConfirmUpload,
    FileUploaded(Result<(), String>),
    ConfirmDeleteFile(String),
    DeleteConfirmed,
    FileDeleted(Result<(), String>),
    CancelDialog,
    MouseMoved(P),
}

pub enum MessageView<P> {
    BucketChanged(Seq<char>),
    Connect,
    ClientReady,
    Refresh,
    FilesLoaded(Result<Seq<Seq<char>>, Seq<char>>),
    FileRightClicked(Seq<char>),
    CloseContextMenu,
    ShowUploadDialog,
    PickFile,
    FilePicked(Option<Seq<char>>),
    UploadPathChanged(Seq<char>),
    ConfirmUpload,
    FileUploaded(Result<(), Seq<char>>),
    ConfirmDeleteFile(Seq<char>),
    DeleteConfirmed,
    FileDeleted(Result<(), Seq<char>>),
    CancelDialog,
    MouseMoved(P),
}

impl<P> View for Message<P> {
    type V = MessageView<P>;

    open spec fn view(&self) -> MessageView<P> {
        match self {
            Message::BucketChanged(s) => MessageView::BucketChanged(s@),
            Message::Connect => MessageView::Connect,
            Message::ClientReady => MessageView::ClientReady,
            Message::Refresh => MessageView::Refresh,
            Message::FilesLoaded(r) => MessageView::FilesLoaded(
                match r {
                    Ok(files) => Ok(files.deep_view()),
                    Err(e) => Err(e@),
                },
            ),
            Message::FileRightClicked(k) => MessageView::FileRightClicked(k@),
            Message::CloseContextMenu => MessageView::CloseContextMenu,
            Message::ShowUploadDialog => MessageView::ShowUploadDialog,
            Message::PickFile => MessageView::PickFile,
            Message::FilePicked(p) => MessageView::FilePicked(
                match p {
                    Some(p) => Some(p@),
                    None => None,
                },
            ),
            Message::UploadPathChanged(p) => MessageView::UploadPathChanged(p@),
            Message::ConfirmUpload => MessageView::ConfirmUpload,
            Message::FileUploaded(r) => MessageView::FileUploaded(
                match r {
                    Ok(()) => Ok(()),
                    Err(e) => Err(e@),
                },
            ),
            Message::ConfirmDeleteFile(k) => MessageView::ConfirmDeleteFile(k@),
            Message::DeleteConfirmed => MessageView::DeleteConfirmed,
            Message::FileDeleted(r) => MessageView::FileDeleted(
                match r {
                    Ok(()) => Ok(()),
                    Err(e) => Err(e@),
                },
            ),
            Message::CancelDialog => MessageView::CancelDialog,
            Message::MouseMoved(p) => MessageView::MouseMoved(*p),
        }
    }
}

/// Work that the browser asks its caller to do; the caller reports the
/// outcome back as a message.
#[derive(Debug, Clone, PartialEq)]
pub enum Effect {
    /// Nothing to do.
    Nothing,
    /// Set up the S3 client; report `ClientReady`.
    CreateClient,
    /// List the keys of the bucket; report `FilesLoaded`.
    ListObjects { bucket: String },
    /// Open a file picker; report `FilePicked`.
    PickFile,
    /// Upload the local file `path` under `key`; report `FileUploaded`.
    Upload { bucket: String, path: String, key: String },
    /// Delete the object `key`; report `FileDeleted`.
    Delete { bucket: String, key: String },
}

pub enum EffectView {
    Nothing,
    CreateClient,
    ListObjects { bucket: Seq<char> },
    PickFile,
    Upload { bucket: Seq<char>, path: Seq<char>, key: Seq<char> },
    Delete { bucket: Seq<char>, key: Seq<char> },
}

impl View for Effect {
    type V = EffectView;

    open spec fn view(&self) -> EffectView {
        match self {
            Effect::Nothing => EffectView::Nothing,
            Effect::CreateClient => EffectView::CreateClient,
            Effect::ListObjects { bucket } => EffectView::ListObjects { bucket: bucket@ },
            Effect::PickFile => EffectView::PickFile,
            Effect::Upload { bucket, path, key } => EffectView::Upload {
                bucket: bucket@,
                path: path@,
                key: key@,
            },
            Effect::Delete { bucket, key } => EffectView::Delete { bucket: bucket@, key: key@ },
        }
    }
}

/// The state of the browser window.
#[derive(Debug, Clone, PartialEq)]
pub struct App<P> {
    /// The bucket name in the text field.
    pub bucket: String,
    /// The object keys last listed.
    pub files: Vec<String>,
    /// The status line.
    pub status: String,
    /// Whether the S3 client has been set up.
    pub connected: bool,
    /// Whether a listing is under way.
    pub loading: bool,
    /// The last known pointer position.
    pub mouse_pos: P,
    pub context_menu: Option<ContextMenu<P>>,
    pub dialog: Option<Dialog>,
}

#[verifier::ext_equal]
pub struct AppView<P> {
    pub bucket: Seq<char>,
    pub files: Seq<Seq<char>>,
    pub status: Seq<char>,
    pub connected: bool,
    pub loading: bool,
    pub mouse_pos: P,
    pub context_menu: Option<ContextMenuView<P>>,
    pub dialog: Option<DialogView>,
}

impl<P> View for App<P> {
    type V = AppView<P>;

    open spec fn view(&self) -> AppView<P> {
        AppView {
            bucket: self.bucket@,
            files: self.files.deep_view(),
            status: self.status@,
            connected: self.connected,
            loading: self.loading,
            mouse_pos: self.mouse_pos,
            context_menu: match self.context_menu {
                Some(c) => Some(c@),
                None => None,
            },
            dialog: match self.dialog {
                Some(d) => Some(d@),
                None => None,
            },
        }
    }
}

/// The browser as it starts, with the bucket name it was configured with and
/// the pointer at `origin`; it first asks for the S3 client.
pub open spec fn initial<P>(bucket: Seq<char>, origin: P) -> (AppView<P>, EffectView) {
    (
        AppView {
            bucket,
            files: Seq::empty(),
            status: "Initializing..."@,
            connected: false,
            loading: false,
            mouse_pos: origin,
            context_menu: None,
            dialog: None,
        },
        EffectView::CreateClient,
    )
}

/// Reloading the object list: only with a client and a bucket name; it
/// closes the context menu and marks the list as loading.
pub open spec fn refresh<P>(s: AppView<P>) -> (AppView<P>, EffectView) {
    if !s.connected || s.bucket.len() == 0 {
        (s, EffectView::Nothing)
    } else {
        (
            AppView { loading: true, context_menu: None, status: "Loading..."@, ..s },
            EffectView::ListObjects { bucket: s.bucket },
        )
    }
}

/// How the browser answers a message: its next state and the work it asks for.
pub open spec fn step<P>(s: AppView<P>, m: MessageView<P>) -> (AppView<P>, EffectView) {
    match m {
        MessageView::BucketChanged(b) => (AppView { bucket: b, ..s }, EffectView::Nothing),
        MessageView::Connect => refresh(s),
        MessageView::Refresh => refresh(s),
        MessageView::ClientReady => {
            let s1 = AppView { connected: true, status: "Ready"@, ..s };
            if s1.bucket.len() != 0 {
                refresh(s1)
            } else {
                (s1, EffectView::Nothing)
            }
        },
        MessageView::FilesLoaded(r) => match r {
            Ok(files) => (
                AppView {
                    loading: false,
                    status: decimal(files.len()) + " objects"@,
                    files,
                    ..s
                },
                EffectView::Nothing,
            ),
            Err(e) => (
                AppView { loading: false, status: "Error: "@ + e, ..s },
                EffectView::Nothing,
            ),
        },
        MessageView::FileRightClicked(key) => (
            AppView { context_menu: Some(ContextMenuView { key, pos: s.mouse_pos }), ..s },
            EffectView::Nothing,
        ),
        MessageView::CloseContextMenu => (AppView { context_menu: None, ..s }, EffectView::Nothing),
        MessageView::ShowUploadDialog => (
            AppView {
                context_menu: None,
                dialog: Some(DialogView::Upload { path: Seq::empty() }),
                ..s
            },
            EffectView::Nothing,
        ),
        MessageView::PickFile => (s, EffectView::PickFile),
        MessageView::FilePicked(p) => match p {
            Some(path) => (
                AppView { dialog: Some(DialogView::Upload { path }), ..s },
                EffectView::Nothing,
            ),
            None => (s, EffectView::Nothing),
        },
        MessageView::UploadPathChanged(path) => match s.dialog {
            Some(DialogView::Upload { .. }) => (
                AppView { dialog: Some(DialogView::Upload { path }), ..s },
                EffectView::Nothing,
            ),
            _ => (s, EffectView::Nothing),
        },
        MessageView::ConfirmUpload => {
            let s1 = AppView { dialog: None, ..s };
            match s.dialog {
                Some(DialogView::Upload { path }) => if s.connected {
                    let key = upload_key_spec(path);
                    (
                        AppView { status: "Uploading "@ + key + "..."@, ..s1 },
                        EffectView::Upload { bucket: s.bucket, path, key },
                    )
                } else {
                    (s1, EffectView::Nothing)
                },
                _ => (s1, EffectView::Nothing),
            }
        },
        MessageView::FileUploaded(r) => match r {
            Ok(()) => refresh(AppView { status: "Upload complete"@, ..s }),
            Err(e) => (AppView { status: "Upload error: "@ + e, ..s }, EffectView::Nothing),
        },
        MessageView::ConfirmDeleteFile(key) => (
            AppView {
                context_menu: None,
                dialog: Some(DialogView::ConfirmDelete { key }),
                ..s
            },
            EffectView::Nothing,
        ),
        MessageView::DeleteConfirmed => {
            let s1 = AppView { dialog: None, ..s };
            match s.dialog {
                Some(DialogView::ConfirmDelete { key }) => if s.connected {
                    (
                        AppView { status: "Deleting "@ + key + "..."@, ..s1 },
                        EffectView::Delete { bucket: s.bucket, key },
                    )
                } else {
                    (s1, EffectView::Nothing)
                },
                _ => (s1, EffectView::Nothing),
            }
        },
        MessageView::FileDeleted(r) => match r {
            Ok(()) => refresh(AppView { status: "Deleted"@, ..s }),
            Err(e) => (AppView { status: "Delete error: "@ + e, ..s }, EffectView::Nothing),
        },
        MessageView::CancelDialog => (AppView { dialog: None, ..s }, EffectView::Nothing),
        MessageView::MouseMoved(p) => (AppView { mouse_pos: p, ..s }, EffectView::Nothing),
    }
}

/// One line of the object list: the key, and whether the line is at an even
/// position (lines alternate in shade).
#[derive(Debug, Clone, PartialEq)]
pub struct FileRow {
    pub key: String,
    pub even: bool,
}

pub struct FileRowView {
    pub key: Seq<char>,
    pub even: bool,
}

impl View for FileRow {
    type V = FileRowView;

    open spec fn view(&self) -> FileRowView {
        FileRowView { key: self.key@, even: self.even }
    }
}

/// What the object panel shows.
#[derive(Debug, Clone, PartialEq)]
pub enum FileArea {
    /// A listing is under way.
    Loading,
    /// There is nothing to list; the text says why.
    Hint(String),
    /// The objects, one row each, in listing order.
    Rows(Vec<FileRow>),
}

pub enum FileAreaView {
    Loading,
    Hint(Seq<char>),
    Rows(Seq<FileRowView>),
}

impl View for FileArea {
    type V = FileAreaView;

    open spec fn view(&self) -> FileAreaView {
        match self {
            FileArea::Loading => FileAreaView::Loading,
            FileArea::Hint(t) => FileAreaView::Hint(t@),
            FileArea::Rows(rows) => FileAreaView::Rows(rows@.map_values(|r: FileRow| r@)),
        }
    }
}

/// What is drawn over the main window.
#[derive(Debug, Clone, PartialEq)]
pub enum Overlay<P> {
    Hidden,
    UploadDialog { path: String },
    /// The delete confirmation, with the question it asks.
    ConfirmDelete { key: String, prompt: String },
    ContextMenu { key: String, pos: P },
}

pub enum OverlayView<P> {
    Hidden,
    UploadDialog { path: Seq<char> },
    ConfirmDelete { key: Seq<char>, prompt: Seq<char> },
    ContextMenu { key: Seq<char>, pos: P },
}

impl<P> View for Overlay<P> {
    type V = OverlayView<P>;

    open spec fn view(&self) -> OverlayView<P> {
        match self {
            Overlay::Hidden => OverlayView::Hidden,
            Overlay::UploadDialog { path } => OverlayView::UploadDialog { path: path@ },
            Overlay::ConfirmDelete { key, prompt } => OverlayView::ConfirmDelete {
                key: key@,
                prompt: prompt@,
            },
            Overlay::ContextMenu { key, pos } => OverlayView::ContextMenu { key: key@, pos: *pos },
        }
    }
}

/// Everything that the window shows that depends on the state.
#[derive(Debug, Clone, PartialEq)]
pub struct Screen<P> {
    pub bucket: String,
    pub status: String,
    /// Whether the Refresh button can be pressed.
    pub refresh_enabled: bool,
    pub file_area: FileArea,
    pub overlay: Overlay<P>,
}

pub struct ScreenView<P> {
    pub bucket: Seq<char>,
    pub status: Seq<char>,
    pub refresh_enabled: bool,
    pub file_area: FileAreaView,
    pub overlay: OverlayView<P>,
}

impl<P> View for Screen<P> {
    type V = ScreenView<P>;

    open spec fn view(&self) -> ScreenView<P> {
        ScreenView {
            bucket: self.bucket@,
            status: self.status@,
            refresh_enabled: self.refresh_enabled,
            file_area: self.file_area@,
            overlay: self.overlay@,
        }
    }
}

/// The rows for a list of keys.
pub open spec fn rows_of(files: Seq<Seq<char>>) -> Seq<FileRowView> {
    Seq::new(files.len(), |i: int| FileRowView { key: files[i], even: i % 2 == 0 })
}

/// The question asked before `key` is deleted.
pub open spec fn delete_prompt(key: Seq<char>) -> Seq<char> {
    "Delete '"@ + key + "'?"@
}

/// What the window shows in state `s`.  A dialog is drawn over the context
/// menu when both are open.
pub open spec fn screen_of<P>(s: AppView<P>) -> ScreenView<P> {
    ScreenView {
        bucket: s.bucket,
        status: s.status,
        refresh_enabled: !s.loading && s.connected,
        file_area: if s.loading {
            FileAreaView::Loading
        } else if s.files.len() == 0 {
            FileAreaView::Hint(
                if !s.connected {
                    "Enter a bucket name and click Connect"@
                } else {
                    "No objects in bucket"@
                },
            )
        } else {
            FileAreaView::Rows(rows_of(s.files))
        },
        overlay: match s.dialog {
            Some(DialogView::Upload { path }) => OverlayView::UploadDialog { path },
            Some(DialogView::ConfirmDelete { key }) => OverlayView::ConfirmDelete {
                key,
                prompt: delete_prompt(key),
            },
            None => match s.context_menu {
                Some(c) => OverlayView::ContextMenu { key: c.key, pos: c.pos },
                None => OverlayView::Hidden,
            },
        },
    }
}

impl<P: Copy> App<P> {
    /// The browser as it starts: `bucket` is the configured bucket name and
    /// `origin` the initial pointer position.
    pub fn new(bucket: String, origin: P) -> (r: (App<P>, Effect))
        ensures
            (r.0@, r.1@) == initial(bucket@, origin),
    {
        let app = App {
            bucket,
            files: Vec::new(),
            status: String::from_str("Initializing..."),
            connected: false,
            loading: false,
            mouse_pos: origin,
            context_menu: None,
            dialog: None,
        };
        proof {
            assert(app@ =~= initial(bucket@, origin).0);
        }
        (app, Effect::CreateClient)
    }

    fn do_refresh(&mut self) -> (effect: Effect)
        ensures
            (final(self)@, effect@) == refresh(old(self)@),
    {
        if !self.connected || self.bucket.as_str().is_empty() {
            return Effect::Nothing;
        }
        self.loading = true;
        self.context_menu = None;
        self.status = String::from_str("Loading...");
        Effect::ListObjects { bucket: self.bucket.clone() }
    }

    /// Answers `message`: updates the state and returns the work to be done.
    pub fn update(&mut self, message: Message<P>) -> (effect: Effect)
        ensures
            (final(self)@, effect@) == step(old(self)@, message@),
    {
        match message {
            Message::BucketChanged(s) => {
                self.bucket = s;
                Effect::Nothing
            },
            Message::Connect => self.do_refresh(),
            Message::Refresh => self.do_refresh(),
            Message::ClientReady => {
                self.connected = true;
                self.status = String::from_str("Ready");
                if !self.bucket.as_str().is_empty() {
                    self.do_refresh()
                } else {
                    Effect::Nothing
                }
            },
            Message::FilesLoaded(result) => {
                self.loading = false;
                match result {
                    Ok(files) => {
                        self.status = decimal_string(files.len()).concat(" objects");
                        self.files = files;
                    },
                    Err(e) => {
                        self.status = String::from_str("Error: ").concat(e.as_str());
                    },
                }
                Effect::Nothing
            },
            Message::FileRightClicked(key) => {
                self.context_menu = Some(ContextMenu { key, pos: self.mouse_pos });
                Effect::Nothing
            },
            Message::CloseContextMenu => {
                self.context_menu = None;
                Effect::Nothing
            },
            Message::ShowUploadDialog => {
                self.context_menu = None;
                self.dialog = Some(Dialog::Upload { path: String::new() });
                Effect::Nothing
            },
            Message::PickFile => Effect::PickFile,
            Message::FilePicked(picked) => {
                match picked {
                    Some(path) => {
                        self.dialog = Some(Dialog::Upload { path });
                    },
                    None => {},
                }
                Effect::Nothing
            },
            Message::UploadPathChanged(path) => {
                let is_upload = match &self.dialog {
                    Some(Dialog::Upload { .. }) => true,
                    _ => false,
                };
                if is_upload {
                    self.dialog = Some(Dialog::Upload { path });
                }
                Effect::Nothing
            },
            Message::ConfirmUpload => {
                let dialog = self.dialog.take();
                match dialog {
                    Some(Dialog::Upload { path }) => {
                        if !self.connected {
                            return Effect::Nothing;
                        }
                        let key = upload_key(path.as_str());
                        self.status = String::from_str("Uploading ").concat(key.as_str()).concat(
                            "...",
                        );
                        Effect::Upload { bucket: self.bucket.clone(), path, key }
                    },
                    _ => Effect::Nothing,
                }
            },
            Message::FileUploaded(result) => match result {
                Ok(()) => {
                    self.status = String::from_str("Upload complete");
                    self.do_refresh()
                },
                Err(e) => {
                    self.status = String::from_str("Upload error: ").concat(e.as_str());
                    Effect::Nothing
                },
            },
            Message::ConfirmDeleteFile(key) => {
                self.context_menu = None;
                self.dialog = Some(Dialog::ConfirmDelete { key });
                Effect::Nothing
            },
            Message::DeleteConfirmed => {
                let dialog = self.dialog.take();
                match dialog {
                    Some(Dialog::ConfirmDelete { key }) => {
                        if !self.connected {
                            return Effect::Nothing;
                        }
                        self.status = String::from_str("Deleting ").concat(key.as_str()).concat(
                            "...",
                        );
                        Effect::Delete { bucket: self.bucket.clone(), key }
                    },
                    _ => Effect::Nothing,
                }
            },
            Message::FileDeleted(result) => match result {
                Ok(()) => {
                    self.status = String::from_str("Deleted");
                    self.do_refresh()
                },
                Err(e) => {
                    self.status = String::from_str("Delete error: ").concat(e.as_str());
                    Effect::Nothing
                },
            },
            Message::CancelDialog => {
                self.dialog = None;
                Effect::Nothing
            },
            Message::MouseMoved(pos) => {
                self.mouse_pos = pos;
                Effect::Nothing
            },
        }
    }

    /// What the window shows now.
    pub fn screen(&self) -> (r: Screen<P>)
        ensures
            r@ == screen_of(self@),
    {
        let file_area = if self.loading {
            FileArea::Loading
        } else if self.files.len() == 0 {
            if !self.connected {
                FileArea::Hint(String::from_str("Enter a bucket name and click Connect"))
            } else {
                FileArea::Hint(String::from_str("No objects in bucket"))
            }
        } else {
            let ghost files = self.files.deep_view();
            let mut rows: Vec<FileRow> = Vec::new();
            let n = self.files.len();
            let mut i: usize = 0;
            while i < n
                invariant
                    n == self.files@.len(),
                    files == self.files.deep_view(),
                    0 <= i <= n,
                    rows@.map_values(|r: FileRow| r@) =~= rows_of(files).take(i as int),
                decreases n - i,
            {
                let row = FileRow { key: self.files[i].clone(), even: i % 2 == 0 };
                let ghost before = rows@;
                rows.push(row);
                proof {
                    assert(rows@ =~= before.push(row));
                    assert(rows@.map_values(|r: FileRow| r@) =~= before.map_values(
                        |r: FileRow| r@,
                    ).push(row@));
                    assert(rows_of(files).take(i as int + 1) =~= rows_of(files).take(
                        i as int,
                    ).push(rows_of(files)[i as int]));
                }
                i = i + 1;
            }
            proof {
                assert(rows_of(files).take(n as int) =~= rows_of(files));
            }
            FileArea::Rows(rows)
        };
        let overlay = match &self.dialog {
            Some(Dialog::Upload { path }) => Overlay::UploadDialog { path: path.clone() },
            Some(Dialog::ConfirmDelete { key }) => {
                let prompt = String::from_str("Delete '").concat(key.as_str()).concat("'?");
                Overlay::ConfirmDelete { key: key.clone(), prompt }
            },
            None => match &self.context_menu {
                Some(c) => Overlay::ContextMenu { key: c.key.clone(), pos: c.pos },
                None => Overlay::Hidden,
            },
        };
        Screen {
            bucket: self.bucket.clone(),
            status: self.status.clone(),
            refresh_enabled: !self.loading && self.connected,
            file_area,
            overlay,
        }
    }
}

} // verus!
