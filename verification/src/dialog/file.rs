use vstd::prelude::*;

use super::state::{collect_present, present, spec_poll, spec_send, SharedState};

verus! {

/// Defines a file picker dialogue.
#[derive(Clone)]
pub struct FileDialog<'a> {
    /// The action the file dialogue is to perform.
    pub action: FileDialogAction<'a>,
}

/// The action to configure the file dialogue for.
///
/// Paths are held as strings.
#[derive(Clone)]
pub enum FileDialogAction<'a> {
    /// Pick a file or files.
    Pick { extensions: Vec<&'a str> },
    /// Pick an image.
    PickImage { use_camera: bool },
    /// Browse for files. Could be the same as `Pick`,
    /// but on iOS it gives a more full featured file
    /// browser.
    Browse,
    /// Export files.
    Export { paths: Vec<String> },
}

/// The result when a file dialogue completes.
#[derive(Debug, Clone)]
pub enum FileDialogResult {
    /// The result when file picking was cancelled.
    Cancelled,
    /// The result when the file dialogue completes.
    Complete { selected_paths: Vec<String> },
}

impl<'a> FileDialog<'a> {
    /// Creates a new file dialogue for exporting a file.
    pub fn export(path: &str) -> (d: Self)
        ensures
            d.action is Export,
            d.action->paths@.len() == 1,
            d.action->paths@[0]@ == path@,
    {
        let action = FileDialogAction::Export { paths: vec![path.to_owned()] };
        FileDialog { action }
    }

    /// Creates a new file browser dialogue.
    pub fn browser() -> (d: Self)
        ensures
            d.action is Browse,
    {
        FileDialog { action: FileDialogAction::Browse }
    }

    /// Creates a new file picker dialogue.
    pub fn picker(extensions: Vec<&'a str>) -> (d: Self)
        ensures
            d.action == (FileDialogAction::Pick { extensions }),
    {
        FileDialog { action: FileDialogAction::Pick { extensions } }
    }

    /// Creates a new image picker dialogue.
    pub fn image_picker() -> (d: Self)
        ensures
            d.action == (FileDialogAction::PickImage { use_camera: false }),
    {
        FileDialog { action: FileDialogAction::PickImage { use_camera: false } }
    }

    /// Launches the camera to import an image.
    pub fn camera() -> (d: Self)
        ensures
            d.action == (FileDialogAction::PickImage { use_camera: true }),
    {
        FileDialog { action: FileDialogAction::PickImage { use_camera: true } }
    }
}

/// The future for the file picker: it resolves to the result that the presented
/// picker sends.
pub struct FileDialogFuture<W> {
    /// The state shared with the presented picker.
    pub state: SharedState<FileDialogResult, W>,
}

/// Whether `r` completes with exactly the paths `paths`.
pub open spec fn completes_with(r: FileDialogResult, paths: Seq<String>) -> bool {
    r matches FileDialogResult::Complete { selected_paths } && selected_paths@ == paths
}

impl<W> FileDialogFuture<W> {
    /// Creates a future that has no result yet.
    pub fn new() -> (f: Self)
        ensures
            f.state.result is None,
            f.state.waker is None,
    {
        FileDialogFuture { state: SharedState::new() }
    }

    /// Polls the future: `Some` when the picker has sent a result, otherwise `None`, after
    /// registering `waker`.
    pub fn poll(&mut self, waker: W) -> (ready: Option<FileDialogResult>)
        ensures
            (final(self).state, ready) == spec_poll(old(self).state, waker),
    {
        self.state.poll(waker)
    }

    /// Sends a result to the future; returns the waker to wake, if any.
    pub fn send_result(&mut self, result: FileDialogResult) -> (to_wake: Option<W>)
        ensures
            (final(self).state, to_wake) == spec_send(old(self).state, result),
    {
        self.state.send_result(result)
    }

    /// Cancels the selection.
    pub fn cancel(&mut self) -> (to_wake: Option<W>)
        ensures
            (final(self).state, to_wake) == spec_send(old(self).state, FileDialogResult::Cancelled),
    {
        self.send_result(FileDialogResult::Cancelled)
    }

    /// Called when items are picked: `paths` holds the path of each picked item, `None`
    /// where an item has none; the picker completes with the paths that are present.
    pub fn did_pick_urls(&mut self, paths: &Vec<Option<String>>) -> (to_wake: Option<W>)
        ensures
            final(self).state.result matches Some(r) && completes_with(r, present(paths@)),
            final(self).state.waker is None,
            to_wake == old(self).state.waker,
    {
        let selected_paths = collect_present(paths);
        self.send_result(FileDialogResult::Complete { selected_paths })
    }

    /// Called when one item is picked: with a path, the picker completes with it; without
    /// one, nothing is sent.
    pub fn did_pick_url(&mut self, path: Option<String>) -> (to_wake: Option<W>)
        ensures
            path is None ==> *final(self) == *old(self) && to_wake is None,
            path is Some ==> {
                &&& final(self).state.result matches Some(r) && completes_with(r, seq![path->0])
                &&& final(self).state.waker is None
                &&& to_wake == old(self).state.waker
            },
    {
        match path {
            None => None,
            Some(p) => {
                let mut selected_paths: Vec<String> = Vec::new();
                selected_paths.push(p);
                assert(selected_paths@ =~= seq![p]);
                self.send_result(FileDialogResult::Complete { selected_paths })
            },
        }
    }
}

} // verus!
