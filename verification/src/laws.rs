//! Properties of the browser that span several messages or hold of every
//! state.

use vstd::prelude::*;

use crate::browser::{
    initial, rows_of, screen_of, step, AppView, ContextMenuView, DialogView, EffectView,
    FileAreaView, MessageView, OverlayView,
};
use crate::paths::upload_key_spec;
use crate::text::decimal;

verus! {

/// On launch the browser asks for the S3 client; once the client is ready it
/// lists the configured bucket at once when a bucket was configured, and
/// otherwise waits with the status "Ready".
pub proof fn law_launch_lists_configured_bucket<P>(bucket: Seq<char>, origin: P)
    ensures
        initial(bucket, origin).1 == EffectView::CreateClient,
        bucket.len() != 0 ==> step(initial(bucket, origin).0, MessageView::ClientReady).1
            == (EffectView::ListObjects { bucket }),
        bucket.len() != 0 ==> step(initial(bucket, origin).0, MessageView::ClientReady).0.loading,
        bucket.len() == 0 ==> step(initial(bucket, origin).0, MessageView::ClientReady).1
            == EffectView::Nothing,
        bucket.len() == 0 ==> step(initial(bucket, origin).0, MessageView::ClientReady).0.status
            == "Ready"@,
        step(initial(bucket, origin).0, MessageView::ClientReady).0.connected,
{
}

/// Typing a bucket name and pressing Connect lists that bucket, once the
/// client is ready.
pub proof fn law_connect_lists_entered_bucket<P>(s: AppView<P>, b: Seq<char>)
    requires
        s.connected,
        b.len() != 0,
    ensures
        step(step(s, MessageView::BucketChanged(b)).0, MessageView::Connect).1
            == (EffectView::ListObjects { bucket: b }),
{
}

/// A listing is only ever requested for the bucket in the text field, when
/// that name is not empty and the client is ready; the list then shows as
/// loading and the context menu is closed.
pub proof fn law_listing_requests<P>(s: AppView<P>, m: MessageView<P>)
    ensures
        step(s, m).1 matches EffectView::ListObjects { bucket } ==> {
            &&& bucket == step(s, m).0.bucket
            &&& bucket.len() != 0
            &&& step(s, m).0.connected
            &&& step(s, m).0.loading
            &&& step(s, m).0.context_menu is None
            &&& step(s, m).0.status == "Loading..."@
        },
{
}

/// An object is deleted only after the user confirmed its deletion in the
/// dialog: the request names the key of that dialog and the bucket in the
/// text field, and the dialog closes.
pub proof fn law_delete_needs_confirmation<P>(s: AppView<P>, m: MessageView<P>)
    ensures
        step(s, m).1 matches EffectView::Delete { bucket, key } ==> {
            &&& m is DeleteConfirmed
            &&& s.dialog == Some(DialogView::ConfirmDelete { key })
            &&& bucket == s.bucket
            &&& s.connected
            &&& step(s, m).0.dialog is None
        },
{
}

/// A file is uploaded only from the upload dialog, with the path shown in it,
/// under the key derived from that path.
pub proof fn law_upload_from_dialog<P>(s: AppView<P>, m: MessageView<P>)
    ensures
        step(s, m).1 matches EffectView::Upload { bucket, path, key } ==> {
            &&& m is ConfirmUpload
            &&& s.dialog == Some(DialogView::Upload { path })
            &&& key == upload_key_spec(path)
            &&& bucket == s.bucket
            &&& s.connected
            &&& step(s, m).0.dialog is None
        },
{
}

/// Once the client is ready it stays ready.
pub proof fn law_client_kept<P>(s: AppView<P>, m: MessageView<P>)
    requires
        s.connected,
    ensures
        step(s, m).0.connected,
{
}

/// Work on the bucket is only asked for when the client is ready.
pub proof fn law_requests_need_client<P>(s: AppView<P>, m: MessageView<P>)
    ensures
        (step(s, m).1 is ListObjects || step(s, m).1 is Upload || step(s, m).1 is Delete)
            ==> step(s, m).0.connected,
{
}

/// Confirming or cancelling closes whatever dialog was open.
pub proof fn law_dialog_closes<P>(s: AppView<P>, m: MessageView<P>)
    requires
        m is ConfirmUpload || m is DeleteConfirmed || m is CancelDialog,
    ensures
        step(s, m).0.dialog is None,
{
}

/// A successful upload or deletion is followed by a new listing, when the
/// client is ready and a bucket is named.
pub proof fn law_success_reloads<P>(s: AppView<P>)
    requires
        s.connected,
        s.bucket.len() != 0,
    ensures
        step(s, MessageView::FileUploaded(Ok(()))).1 == (EffectView::ListObjects {
            bucket: s.bucket,
        }),
        step(s, MessageView::FileDeleted(Ok(()))).1 == (EffectView::ListObjects {
            bucket: s.bucket,
        }),
{
}

/// A loaded listing replaces the list, ends the loading state, is counted in
/// the status line, and is shown row by row in listing order.
pub proof fn law_loaded_list_shown<P>(s: AppView<P>, files: Seq<Seq<char>>)
    ensures
        step(s, MessageView::FilesLoaded(Ok(files))).0.files == files,
        !step(s, MessageView::FilesLoaded(Ok(files))).0.loading,
        step(s, MessageView::FilesLoaded(Ok(files))).0.status == decimal(files.len())
            + " objects"@,
        files.len() != 0 ==> screen_of(step(s, MessageView::FilesLoaded(Ok(files))).0).file_area
            == FileAreaView::Rows(rows_of(files)),
        files.len() != 0 ==> forall|i: int|
            0 <= i < files.len() ==> #[trigger] rows_of(files)[i].key == files[i],
{
}

/// A failed listing keeps the list that was shown and reports the error.
pub proof fn law_failed_load_keeps_list<P>(s: AppView<P>, e: Seq<char>)
    ensures
        step(s, MessageView::FilesLoaded(Err(e))).0.files == s.files,
        !step(s, MessageView::FilesLoaded(Err(e))).0.loading,
        step(s, MessageView::FilesLoaded(Err(e))).0.status == "Error: "@ + e,
{
}

/// Moving the pointer changes nothing but the remembered position.
pub proof fn law_pointer_moves_only<P>(s: AppView<P>, p: P)
    ensures
        step(s, MessageView::MouseMoved(p)) == (AppView { mouse_pos: p, ..s }, EffectView::Nothing),
{
}

/// A right click opens the context menu for that key where the pointer was
/// last seen.
pub proof fn law_context_menu_at_pointer<P>(s: AppView<P>, key: Seq<char>)
    ensures
        step(s, MessageView::FileRightClicked(key)).0.context_menu == Some(
            ContextMenuView { key, pos: s.mouse_pos },
        ),
{
}

/// Refresh can be pressed exactly when the client is ready and no listing is
/// under way.
pub proof fn law_refresh_enabled<P>(s: AppView<P>)
    ensures
        screen_of(s).refresh_enabled <==> (s.connected && !s.loading),
{
}

/// A dialog, when open, is drawn over the context menu.
pub proof fn law_dialog_over_menu<P>(s: AppView<P>)
    requires
        s.dialog is Some,
    ensures
        !(screen_of(s).overlay is ContextMenu),
        !(screen_of(s).overlay is Hidden),
{
}

/// A listing is only ever under way once the client is ready: this holds of
/// the starting state and every message keeps it.
pub proof fn law_loading_needs_client<P>(bucket: Seq<char>, origin: P, s: AppView<P>, m: MessageView<P>)
    ensures
        initial(bucket, origin).0.loading ==> initial(bucket, origin).0.connected,
        (s.loading ==> s.connected) ==> (step(s, m).0.loading ==> step(s, m).0.connected),
{
}

/// Connect and Refresh list the bucket named in the text field whenever the
/// client is ready and the name is not empty, whatever the list shows: the
/// list is marked as loading, the context menu closes, the status reads
/// "Loading...", and nothing else changes.  Otherwise both leave the state
/// as it was and ask for nothing.
pub proof fn law_refresh_lists_bucket<P>(s: AppView<P>)
    ensures
        s.connected && s.bucket.len() != 0 ==> {
            &&& step(s, MessageView::Refresh).1 == (EffectView::ListObjects { bucket: s.bucket })
            &&& step(s, MessageView::Connect).1 == (EffectView::ListObjects { bucket: s.bucket })
            &&& step(s, MessageView::Refresh).0 == (AppView {
                loading: true,
                context_menu: None,
                status: "Loading..."@,
                ..s
            })
            &&& step(s, MessageView::Connect).0 == step(s, MessageView::Refresh).0
        },
        !(s.connected && s.bucket.len() != 0) ==> {
            &&& step(s, MessageView::Refresh) == (s, EffectView::Nothing)
            &&& step(s, MessageView::Connect) == (s, EffectView::Nothing)
        },
{
}

/// Editing the path in the open upload dialog replaces the path it held by
/// the text typed, and a following confirmation uploads exactly that path,
/// under the key derived from it, when the client is ready.
pub proof fn law_typed_path_replaces<P>(s: AppView<P>, before: Seq<char>, typed: Seq<char>)
    requires
        s.dialog == Some(DialogView::Upload { path: before }),
    ensures
        step(s, MessageView::UploadPathChanged(typed)).0 == (AppView {
            dialog: Some(DialogView::Upload { path: typed }),
            ..s
        }),
        step(s, MessageView::UploadPathChanged(typed)).1 == EffectView::Nothing,
        s.connected ==> step(step(s, MessageView::UploadPathChanged(typed)).0, MessageView::ConfirmUpload).1
            == (EffectView::Upload { bucket: s.bucket, path: typed, key: upload_key_spec(typed) }),
{
}

/// Asking to delete an object opens the confirmation for exactly that key,
/// and confirming it then deletes exactly that object from the bucket in the
/// text field, when the client is ready.
pub proof fn law_delete_targets_chosen_key<P>(s: AppView<P>, key: Seq<char>)
    ensures
        step(s, MessageView::ConfirmDeleteFile(key)).0.dialog == Some(
            DialogView::ConfirmDelete { key },
        ),
        step(s, MessageView::ConfirmDeleteFile(key)).0.context_menu is None,
        screen_of(step(s, MessageView::ConfirmDeleteFile(key)).0).overlay
            == (OverlayView::<P>::ConfirmDelete { key, prompt: "Delete '"@ + key + "'?"@ }),
        s.connected ==> step(step(s, MessageView::ConfirmDeleteFile(key)).0, MessageView::DeleteConfirmed).1
            == (EffectView::Delete { bucket: s.bucket, key }),
{
}

/// With no dialog open, an open context menu is drawn for its own key at its
/// own position; after a right click on an object with no dialog open, that
/// is the clicked key at the last pointer position.
pub proof fn law_context_menu_shown<P>(s: AppView<P>, key: Seq<char>, pos: P)
    requires
        s.dialog is None,
    ensures
        s.context_menu == Some(ContextMenuView { key, pos }) ==> screen_of(s).overlay
            == (OverlayView::ContextMenu { key, pos }),
        screen_of(step(s, MessageView::FileRightClicked(key)).0).overlay
            == (OverlayView::ContextMenu { key, pos: s.mouse_pos }),
{
}

/// Messages that touch one part of the state change only that part and ask
/// for no work (picking a file asks for the picker and changes nothing).
pub proof fn law_local_messages<P>(s: AppView<P>, b: Seq<char>, picked: Seq<char>)
    ensures
        step(s, MessageView::BucketChanged(b)) == (AppView { bucket: b, ..s }, EffectView::Nothing),
        step(s, MessageView::CloseContextMenu) == (
            AppView { context_menu: None, ..s },
            EffectView::Nothing,
        ),
        step(s, MessageView::CancelDialog) == (AppView { dialog: None, ..s }, EffectView::Nothing),
        step(s, MessageView::PickFile) == (s, EffectView::PickFile),
        step(s, MessageView::FilePicked(None)) == (s, EffectView::Nothing),
        step(s, MessageView::FilePicked(Some(picked))) == (
            AppView { dialog: Some(DialogView::Upload { path: picked }), ..s },
            EffectView::Nothing,
        ),
        step(s, MessageView::ShowUploadDialog) == (
            AppView {
                context_menu: None,
                dialog: Some(DialogView::Upload { path: Seq::empty() }),
                ..s
            },
            EffectView::Nothing,
        ),
        !(s.dialog matches Some(DialogView::Upload { .. })) ==> step(
            s,
            MessageView::UploadPathChanged(picked),
        ) == (s, EffectView::Nothing),
{
}

/// Confirming an upload closes the dialog; with the upload dialog open and
/// the client ready it reports "Uploading <key>..." and uploads, otherwise
/// nothing else changes and no work is asked for.
pub proof fn law_confirm_upload<P>(s: AppView<P>, path: Seq<char>)
    ensures
        s.dialog == Some(DialogView::Upload { path }) && s.connected ==> step(
            s,
            MessageView::ConfirmUpload,
        ) == (
            AppView {
                dialog: None,
                status: "Uploading "@ + upload_key_spec(path) + "..."@,
                ..s
            },
            EffectView::Upload { bucket: s.bucket, path, key: upload_key_spec(path) },
        ),
        !(s.dialog matches Some(DialogView::Upload { .. }) && s.connected) ==> step(
            s,
            MessageView::ConfirmUpload,
        ) == (AppView { dialog: None, ..s }, EffectView::Nothing),
{
}

/// Confirming a deletion closes the dialog; with the confirmation for `key`
/// open and the client ready it reports "Deleting <key>..." and deletes that
/// key, otherwise nothing else changes and no work is asked for.
pub proof fn law_confirm_delete<P>(s: AppView<P>, key: Seq<char>)
    ensures
        s.dialog == Some(DialogView::ConfirmDelete { key }) && s.connected ==> step(
            s,
            MessageView::DeleteConfirmed,
        ) == (
            AppView { dialog: None, status: "Deleting "@ + key + "..."@, ..s },
            EffectView::Delete { bucket: s.bucket, key },
        ),
        !(s.dialog matches Some(DialogView::ConfirmDelete { .. }) && s.connected) ==> step(
            s,
            MessageView::DeleteConfirmed,
        ) == (AppView { dialog: None, ..s }, EffectView::Nothing),
{
}

/// The outcome of an upload or a deletion is reported in the status line: a
/// failure with its message and nothing more; a success by the listing that
/// follows it, or, where none can be made, by "Upload complete" or "Deleted".
pub proof fn law_outcome_reported<P>(s: AppView<P>, e: Seq<char>)
    ensures
        step(s, MessageView::FileUploaded(Err(e))) == (
            AppView { status: "Upload error: "@ + e, ..s },
            EffectView::Nothing,
        ),
        step(s, MessageView::FileDeleted(Err(e))) == (
            AppView { status: "Delete error: "@ + e, ..s },
            EffectView::Nothing,
        ),
        !(s.connected && s.bucket.len() != 0) ==> step(s, MessageView::FileUploaded(Ok(())))
            == (AppView { status: "Upload complete"@, ..s }, EffectView::Nothing),
        !(s.connected && s.bucket.len() != 0) ==> step(s, MessageView::FileDeleted(Ok(())))
            == (AppView { status: "Deleted"@, ..s }, EffectView::Nothing),
        s.connected && s.bucket.len() != 0 ==> step(s, MessageView::FileUploaded(Ok(()))).0
            == (AppView { loading: true, context_menu: None, status: "Loading..."@, ..s }),
        s.connected && s.bucket.len() != 0 ==> step(s, MessageView::FileDeleted(Ok(()))).0
            == (AppView { loading: true, context_menu: None, status: "Loading..."@, ..s }),
{
}

/// The client becoming ready marks it ready and sets the status to "Ready";
/// with a bucket named it goes on to list it as Refresh does.
pub proof fn law_client_ready<P>(s: AppView<P>)
    ensures
        s.bucket.len() == 0 ==> step(s, MessageView::ClientReady) == (
            AppView { connected: true, status: "Ready"@, ..s },
            EffectView::Nothing,
        ),
        s.bucket.len() != 0 ==> step(s, MessageView::ClientReady) == (
            AppView {
                connected: true,
                loading: true,
                context_menu: None,
                status: "Loading..."@,
                ..s
            },
            EffectView::ListObjects { bucket: s.bucket },
        ),
{
}

/// A loaded or failed listing changes nothing but the list, the loading mark
/// and the status line, and asks for no work.
pub proof fn law_files_loaded_frame<P>(s: AppView<P>, files: Seq<Seq<char>>, e: Seq<char>)
    ensures
        step(s, MessageView::FilesLoaded(Ok(files))) == (
            AppView { loading: false, status: decimal(files.len()) + " objects"@, files, ..s },
            EffectView::Nothing,
        ),
        step(s, MessageView::FilesLoaded(Err(e))) == (
            AppView { loading: false, status: "Error: "@ + e, ..s },
            EffectView::Nothing,
        ),
{
}

/// The window shows the bucket name and status line as they are; the object
/// panel shows the loading mark while a listing is under way, else a hint
/// when there are no objects, else one row per object in listing order with
/// alternating shade starting at the first; an open dialog is drawn as it is.
pub proof fn law_screen_contents<P>(s: AppView<P>)
    ensures
        screen_of(s).bucket == s.bucket,
        screen_of(s).status == s.status,
        s.loading ==> screen_of(s).file_area == FileAreaView::Loading,
        !s.loading && s.files.len() == 0 && s.connected ==> screen_of(s).file_area
            == FileAreaView::Hint("No objects in bucket"@),
        !s.loading && s.files.len() == 0 && !s.connected ==> screen_of(s).file_area
            == FileAreaView::Hint("Enter a bucket name and click Connect"@),
        !s.loading && s.files.len() != 0 ==> (screen_of(s).file_area matches FileAreaView::Rows(
            rows,
        ) && rows.len() == s.files.len() && forall|i: int|
            0 <= i < rows.len() ==> #[trigger] rows[i].key == s.files[i] && rows[i].even == (i
                % 2 == 0)),
        s.dialog matches Some(DialogView::Upload { path }) ==> screen_of(s).overlay
            == (OverlayView::<P>::UploadDialog { path }),
        s.dialog matches Some(DialogView::ConfirmDelete { key }) ==> screen_of(s).overlay
            == (OverlayView::<P>::ConfirmDelete { key, prompt: "Delete '"@ + key + "'?"@ }),
        s.dialog is None && s.context_menu is None ==> screen_of(s).overlay == OverlayView::<
            P,
        >::Hidden,
{
}

/// A right click and a request to delete change only the context menu and
/// the dialog, and ask for no work.
pub proof fn law_menu_messages_frame<P>(s: AppView<P>, key: Seq<char>)
    ensures
        step(s, MessageView::FileRightClicked(key)) == (
            AppView { context_menu: Some(ContextMenuView { key, pos: s.mouse_pos }), ..s },
            EffectView::Nothing,
        ),
        step(s, MessageView::ConfirmDeleteFile(key)) == (
            AppView {
                context_menu: None,
                dialog: Some(DialogView::ConfirmDelete { key }),
                ..s
            },
            EffectView::Nothing,
        ),
{
}

} // verus!
