//! The walk over the entries of a playlist that finds the entries missing from
//! a view directory and links them to their files in the music library.
//!
//! The walk alternates outside work (a remote `ls`, a look at the local file
//! system, a remote or local link) with decisions. The decisions stand here, as
//! a state machine: each call of [`LinkWalker::step`] takes the outcome of the
//! previous action and gives the next action.

use vstd::prelude::*;
use vstd::utf8::{decode_utf8, encode_utf8, is_char_boundary};
use crate::paths::{
    file_scheme, lemma_uri_rewrite_keeps_relative_path, after_bytes, cuts_at, library_path_for_uri, path_parent, path_parent_of, utf8_len,
    view_path_for_uri, FILE_SCHEME_BYTES,
};
use crate::text::{concat2, owned};

verus! {

/// Which walk: `MissingLinks` checks, on the remote machine, the view paths of
/// `file://` URIs under the library root; `RemoteView` and `LocalView` check
/// `view_root` followed by a relative URI, remotely or on this machine.
#[derive(Clone, Copy, PartialEq, Eq, Structural, Debug)]
pub enum LinkMode {
    MissingLinks,
    RemoteView,
    LocalView,
}

/// Where the walk stands.
#[derive(Clone, Copy, PartialEq, Eq, Structural, Debug)]
pub enum LinkPhase {
    /// Nothing issued yet.
    Start,
    /// The check of the current entry was issued.
    Checking,
    /// The link of the current entry was issued.
    Linking,
    /// Every entry was handled.
    Finished,
    /// An entry could not be handled; the walk stops there.
    Failed,
}

/// The outcome of the previous action, handed to the walk.
#[derive(Clone, Copy, PartialEq, Eq, Structural, Debug)]
pub enum LinkEvent {
    /// Start the walk.
    Begin,
    /// Exit status of a remote check.
    RemoteStatus(i32),
    /// Whether the view file of a local check exists.
    LocalExists(bool),
    /// The link that was asked for has been made.
    Linked,
}

/// What the caller does next.
#[derive(Debug)]
pub enum LinkAction {
    /// Run `command` on the remote machine and report its exit status.
    RemoteCheck { index: usize, command: String },
    /// Run `command` on the remote machine (it makes `directory` and links
    /// `view_file` to `library_file`), then report `Linked`.
    RemoteLink {
        index: usize,
        directory: String,
        library_file: String,
        view_file: String,
        command: String,
    },
    /// Tell whether `view_file` exists on this machine.
    LocalCheck { index: usize, view_file: String },
    /// Create `directory` with its parents, hard-link `view_file` to
    /// `library_file`, then report `Linked`.
    LocalLink { index: usize, directory: String, library_file: String, view_file: String },
    /// Entry `index` cannot be handled: its paths cannot be formed, or its view
    /// file has no parent directory.
    Abort { index: usize },
    /// All entries were handled.
    Finished,
}

/// The mathematical form of a [`LinkAction`].
pub enum LinkDirective {
    RemoteCheck { index: nat, command: Seq<char> },
    RemoteLink {
        index: nat,
        directory: Seq<char>,
        library_file: Seq<char>,
        view_file: Seq<char>,
        command: Seq<char>,
    },
    LocalCheck { index: nat, view_file: Seq<char> },
    LocalLink { index: nat, directory: Seq<char>, library_file: Seq<char>, view_file: Seq<char> },
    Abort { index: nat },
    Finished,
}

impl View for LinkAction {
    type V = LinkDirective;

    open spec fn view(&self) -> LinkDirective {
        match *self {
            LinkAction::RemoteCheck { index, command } => LinkDirective::RemoteCheck {
                index: index as nat,
                command: command@,
            },
            LinkAction::RemoteLink { index, directory, library_file, view_file, command } =>
                LinkDirective::RemoteLink {
                index: index as nat,
                directory: directory@,
                library_file: library_file@,
                view_file: view_file@,
                command: command@,
            },
            LinkAction::LocalCheck { index, view_file } => LinkDirective::LocalCheck {
                index: index as nat,
                view_file: view_file@,
            },
            LinkAction::LocalLink { index, directory, library_file, view_file } =>
                LinkDirective::LocalLink {
                index: index as nat,
                directory: directory@,
                library_file: library_file@,
                view_file: view_file@,
            },
            LinkAction::Abort { index } => LinkDirective::Abort { index: index as nat },
            LinkAction::Finished => LinkDirective::Finished,
        }
    }
}

/// The remote command that tells whether `view_file` exists (exit status 0).
pub open spec fn check_command(view_file: Seq<char>) -> Seq<char> {
    "ls -1 \""@ + view_file + "\""@
}

/// The remote command that makes `directory` and hard-links `view_file` to
/// `library_file`.
pub open spec fn link_command(
    directory: Seq<char>,
    library_file: Seq<char>,
    view_file: Seq<char>,
) -> Seq<char> {
    "mkdir -p \""@ + directory + "\"; "@ + "ln \""@ + library_file + "\" \""@ + view_file + "\""@
}

/// The view file and the library file of the entry `uri`, in this order, or
/// `None` where they cannot be formed.
pub open spec fn entry_paths(
    mode: LinkMode,
    library_root: Seq<char>,
    view_root: Seq<char>,
    uri: Seq<char>,
) -> Option<(Seq<char>, Seq<char>)> {
    match mode {
        LinkMode::MissingLinks => {
            let n = FILE_SCHEME_BYTES + utf8_len(library_root);
            if n <= usize::MAX && cuts_at(uri, n) && cuts_at(uri, FILE_SCHEME_BYTES as int) {
                Some((view_root + after_bytes(uri, n), after_bytes(uri, FILE_SCHEME_BYTES as int)))
            } else {
                None
            }
        },
        _ => Some((view_root + uri, library_root + uri)),
    }
}

/// The mathematical form of a [`LinkWalker`].
pub struct LinkWalkerView {
    pub mode: LinkMode,
    pub library_root: Seq<char>,
    pub view_root: Seq<char>,
    pub uris: Seq<Seq<char>>,
    /// The entry being handled (or, once finished, the number of entries).
    pub next: nat,
    pub phase: LinkPhase,
    /// The paths of the entry being handled.
    pub view_file: Seq<char>,
    pub library_file: Seq<char>,
}

/// The walk issues the check of entry `i`, or finishes when there is none.
pub open spec fn issue(w: LinkWalkerView, i: nat) -> (LinkWalkerView, LinkDirective) {
    if i >= w.uris.len() {
        (LinkWalkerView { next: i, phase: LinkPhase::Finished, ..w }, LinkDirective::Finished)
    } else {
        match entry_paths(w.mode, w.library_root, w.view_root, w.uris[i as int]) {
            None => (
                LinkWalkerView { next: i, phase: LinkPhase::Failed, ..w },
                LinkDirective::Abort { index: i },
            ),
            Some((view_file, library_file)) => (
                LinkWalkerView {
                    next: i,
                    phase: LinkPhase::Checking,
                    view_file: view_file,
                    library_file: library_file,
                    ..w
                },
                if w.mode is LocalView {
                    LinkDirective::LocalCheck { index: i, view_file: view_file }
                } else {
                    LinkDirective::RemoteCheck { index: i, command: check_command(view_file) }
                },
            ),
        }
    }
}

/// The walk links the current entry, whose view file was found missing.
pub open spec fn link(w: LinkWalkerView) -> (LinkWalkerView, LinkDirective) {
    match path_parent_of(w.view_file) {
        None => (
            LinkWalkerView { phase: LinkPhase::Failed, ..w },
            LinkDirective::Abort { index: w.next },
        ),
        Some(directory) => (
            LinkWalkerView { phase: LinkPhase::Linking, ..w },
            if w.mode is LocalView {
                LinkDirective::LocalLink {
                    index: w.next,
                    directory: directory,
                    library_file: w.library_file,
                    view_file: w.view_file,
                }
            } else {
                LinkDirective::RemoteLink {
                    index: w.next,
                    directory: directory,
                    library_file: w.library_file,
                    view_file: w.view_file,
                    command: link_command(directory, w.library_file, w.view_file),
                }
            },
        ),
    }
}

/// The events that the walk takes in each phase.
pub open spec fn accepts(w: LinkWalkerView, event: LinkEvent) -> bool {
    match event {
        LinkEvent::Begin => w.phase is Start,
        LinkEvent::RemoteStatus(_) => w.phase is Checking && !(w.mode is LocalView),
        LinkEvent::LocalExists(_) => w.phase is Checking && w.mode is LocalView,
        LinkEvent::Linked => w.phase is Linking,
    }
}

/// One step of the walk: a found view file moves on to the next entry, a
/// missing one is linked, and a made link moves on to the next entry.
pub open spec fn transition(w: LinkWalkerView, event: LinkEvent) -> (LinkWalkerView, LinkDirective) {
    match event {
        LinkEvent::Begin => issue(w, 0),
        LinkEvent::RemoteStatus(status) => if status == 0 {
            issue(w, w.next + 1)
        } else {
            link(w)
        },
        LinkEvent::LocalExists(exists) => if exists {
            issue(w, w.next + 1)
        } else {
            link(w)
        },
        LinkEvent::Linked => issue(w, w.next + 1),
    }
}

/// The remote command that tells whether `view_file` exists.
pub fn remote_check_command(view_file: &str) -> (c: String)
    ensures
        c@ == check_command(view_file@),
        c@ == "ls -1 \""@ + view_file@ + "\""@,
{
    let mut c = owned("ls -1 \"");
    c.append(view_file);
    c.append("\"");
    c
}

/// The remote command that makes `directory` and links `view_file` to `library_file`.
pub fn remote_link_command(directory: &str, library_file: &str, view_file: &str) -> (c: String)
    ensures
        c@ == link_command(directory@, library_file@, view_file@),
        c@ == "mkdir -p \""@ + directory@ + "\"; "@ + "ln \""@ + library_file@ + "\" \""@ + view_file@
            + "\""@,
{
    let mut c = owned("mkdir -p \"");
    c.append(directory);
    c.append("\"; ");
    c.append("ln \"");
    c.append(library_file);
    c.append("\" \"");
    c.append(view_file);
    c.append("\"");
    c
}

/// The view file and the library file of an entry.
pub fn entry_paths_of(mode: LinkMode, library_root: &str, view_root: &str, uri: &str) -> (r: Option<
    (String, String),
>)
    requires
        utf8_len(library_root@) <= usize::MAX,
    ensures
        match r {
            Some((v, l)) => entry_paths(mode, library_root@, view_root@, uri@) == Some((v@, l@)),
            None => entry_paths(mode, library_root@, view_root@, uri@) is None,
        },
        !(mode is MissingLinks) ==> (r matches Some((v, l)) && v@ == view_root@ + uri@ && l@
            == library_root@ + uri@),
        mode is MissingLinks ==> (r is Some <==> (7 + encode_utf8(library_root@).len()
            <= usize::MAX && is_char_boundary(
            encode_utf8(uri@),
            7 + encode_utf8(library_root@).len() as int,
        ) && is_char_boundary(encode_utf8(uri@), 7))),
        mode is MissingLinks ==> (r matches Some((v, l)) ==> {
            &&& v@ == view_root@ + decode_utf8(
                encode_utf8(uri@).subrange(
                    7 + encode_utf8(library_root@).len() as int,
                    encode_utf8(uri@).len() as int,
                ),
            )
            &&& l@ == decode_utf8(encode_utf8(uri@).subrange(7, encode_utf8(uri@).len() as int))
        }),
{
    match mode {
        LinkMode::MissingLinks => match view_path_for_uri(uri, library_root, view_root) {
            Some(v) => match library_path_for_uri(uri) {
                Some(l) => Some((v, l)),
                None => None,
            },
            None => None,
        },
        _ => Some((concat2(view_root, uri), concat2(library_root, uri))),
    }
}

/// The state of a walk over the entries `uris`.
pub struct LinkWalker {
    mode: LinkMode,
    library_root: String,
    view_root: String,
    uris: Vec<String>,
    next: usize,
    phase: LinkPhase,
    view_file: String,
    library_file: String,
}

impl View for LinkWalker {
    type V = LinkWalkerView;

    closed spec fn view(&self) -> LinkWalkerView {
        LinkWalkerView {
            mode: self.mode,
            library_root: self.library_root@,
            view_root: self.view_root@,
            uris: self.uris.deep_view(),
            next: self.next as nat,
            phase: self.phase,
            view_file: self.view_file@,
            library_file: self.library_file@,
        }
    }
}

impl LinkWalker {
    /// The walk is in a consistent state.
    pub closed spec fn wf(&self) -> bool {
        &&& utf8_len(self.library_root@) <= usize::MAX
        &&& self.next <= self.uris.len()
        &&& (self.phase is Checking || self.phase is Linking) ==> self.next < self.uris.len()
    }

    /// A walk over `uris` that has not started.
    pub fn new(mode: LinkMode, library_root: &str, view_root: &str, uris: Vec<String>) -> (w: Self)
        requires
            utf8_len(library_root@) <= usize::MAX,
        ensures
            w.wf(),
            w@ == (LinkWalkerView {
                mode: mode,
                library_root: library_root@,
                view_root: view_root@,
                uris: uris.deep_view(),
                next: 0,
                phase: LinkPhase::Start,
                view_file: Seq::empty(),
                library_file: Seq::empty(),
            }),
    {
        LinkWalker {
            mode,
            library_root: owned(library_root),
            view_root: owned(view_root),
            uris,
            next: 0,
            phase: LinkPhase::Start,
            view_file: String::new(),
            library_file: String::new(),
        }
    }

    /// Whether `step` takes `event` now.
    pub fn accepts(&self, event: LinkEvent) -> (b: bool)
        ensures
            b == accepts(self@, event),
    {
        match event {
            LinkEvent::Begin => matches!(self.phase, LinkPhase::Start),
            LinkEvent::RemoteStatus(_) => matches!(self.phase, LinkPhase::Checking) && !matches!(
                self.mode,
                LinkMode::LocalView
            ),
            LinkEvent::LocalExists(_) => matches!(self.phase, LinkPhase::Checking) && matches!(
                self.mode,
                LinkMode::LocalView
            ),
            LinkEvent::Linked => matches!(self.phase, LinkPhase::Linking),
        }
    }

    fn issue_at(&mut self, i: usize) -> (action: LinkAction)
        requires
            old(self).wf(),
            i <= old(self).uris.len(),
        ensures
            final(self).wf(),
            (final(self)@, action@) == issue(old(self)@, i as nat),
    {
        self.next = i;
        if i >= self.uris.len() {
            self.phase = LinkPhase::Finished;
            return LinkAction::Finished;
        }
        let paths = entry_paths_of(
            self.mode,
            self.library_root.as_str(),
            self.view_root.as_str(),
            self.uris[i].as_str(),
        );
        match paths {
            None => {
                self.phase = LinkPhase::Failed;
                LinkAction::Abort { index: i }
            },
            Some((view_file, library_file)) => {
                self.phase = LinkPhase::Checking;
                let action = match self.mode {
                    LinkMode::LocalView => LinkAction::LocalCheck {
                        index: i,
                        view_file: view_file.clone(),
                    },
                    _ => LinkAction::RemoteCheck {
                        index: i,
                        command: remote_check_command(view_file.as_str()),
                    },
                };
                self.view_file = view_file;
                self.library_file = library_file;
                action
            },
        }
    }

    fn link_current(&mut self) -> (action: LinkAction)
        requires
            old(self).wf(),
            old(self).phase is Checking,
        ensures
            final(self).wf(),
            (final(self)@, action@) == link(old(self)@),
    {
        match path_parent(self.view_file.as_str()) {
            None => {
                self.phase = LinkPhase::Failed;
                LinkAction::Abort { index: self.next }
            },
            Some(directory) => {
                self.phase = LinkPhase::Linking;
                match self.mode {
                    LinkMode::LocalView => LinkAction::LocalLink {
                        index: self.next,
                        directory,
                        library_file: self.library_file.clone(),
                        view_file: self.view_file.clone(),
                    },
                    _ => {
                        let command = remote_link_command(
                            directory.as_str(),
                            self.library_file.as_str(),
                            self.view_file.as_str(),
                        );
                        LinkAction::RemoteLink {
                            index: self.next,
                            directory,
                            library_file: self.library_file.clone(),
                            view_file: self.view_file.clone(),
                            command,
                        }
                    },
                }
            },
        }
    }

    /// Takes the outcome of the previous action and gives the next action.
    pub fn step(&mut self, event: LinkEvent) -> (action: LinkAction)
        requires
            old(self).wf(),
            accepts(old(self)@, event),
        ensures
            final(self).wf(),
            (final(self)@, action@) == transition(old(self)@, event),
    {
        match event {
            LinkEvent::Begin => self.issue_at(0),
            LinkEvent::RemoteStatus(status) => {
                if status == 0 {
                    self.issue_at(self.next + 1)
                } else {
                    self.link_current()
                }
            },
            LinkEvent::LocalExists(exists) => {
                if exists {
                    self.issue_at(self.next + 1)
                } else {
                    self.link_current()
                }
            },
            LinkEvent::Linked => self.issue_at(self.next + 1),
        }
    }
}

/// The directive links an entry.
pub open spec fn is_link(d: LinkDirective) -> bool {
    d is RemoteLink || d is LocalLink
}

/// The directive checks an entry.
pub open spec fn is_check(d: LinkDirective) -> bool {
    d is RemoteCheck || d is LocalCheck
}

/// The entry that a directive concerns, if any.
pub open spec fn directive_index(d: LinkDirective) -> Option<nat> {
    match d {
        LinkDirective::RemoteCheck { index, .. } => Some(index),
        LinkDirective::RemoteLink { index, .. } => Some(index),
        LinkDirective::LocalCheck { index, .. } => Some(index),
        LinkDirective::LocalLink { index, .. } => Some(index),
        LinkDirective::Abort { index } => Some(index),
        LinkDirective::Finished => None,
    }
}

/// The check outcome says that the view file is missing.
pub open spec fn reports_missing(event: LinkEvent) -> bool {
    match event {
        LinkEvent::RemoteStatus(status) => status != 0,
        LinkEvent::LocalExists(exists) => !exists,
        _ => false,
    }
}

/// A link is asked for only right after the check of the same entry, and
/// only when that check found its view file missing; the link joins the
/// checked view file to the entry's library file.
pub proof fn lemma_link_only_when_missing(w: LinkWalkerView, event: LinkEvent)
    requires
        accepts(w, event),
    ensures
        is_link(transition(w, event).1) ==> {
            &&& w.phase is Checking
            &&& reports_missing(event)
            &&& directive_index(transition(w, event).1) == Some(w.next)
            &&& transition(w, event).0.view_file == w.view_file
            &&& transition(w, event).0.library_file == w.library_file
        },
        w.phase is Checking && reports_missing(event) ==> !is_check(transition(w, event).1),
{
}

/// The entries are taken in order, one after the other: a step stays on the
/// current entry or moves to the next one, and every check concerns the entry
/// the walk then stands on.
pub proof fn lemma_walk_in_order(w: LinkWalkerView, event: LinkEvent)
    requires
        accepts(w, event),
    ensures
        event is Begin ==> transition(w, event).0.next == 0,
        !(event is Begin) ==> transition(w, event).0.next == w.next || transition(w, event).0.next
            == w.next + 1,
        is_check(transition(w, event).1) ==> directive_index(transition(w, event).1) == Some(
            transition(w, event).0.next,
        ),
        transition(w, event).1 is Finished <==> transition(w, event).0.phase is Finished,
        transition(w, event).1 is Finished ==> transition(w, event).0.next >= w.uris.len(),
        transition(w, event).0.uris == w.uris,
        transition(w, event).0.mode == w.mode,
{
}

/// A bound on the steps left in a walk.
pub open spec fn steps_left(w: LinkWalkerView) -> int {
    match w.phase {
        LinkPhase::Start => 2 * w.uris.len() as int + 1,
        LinkPhase::Checking => 2 * (w.uris.len() - w.next),
        LinkPhase::Linking => 2 * (w.uris.len() - w.next) - 1,
        LinkPhase::Finished => 0,
        LinkPhase::Failed => 0,
    }
}

/// Every step that the walk takes brings it closer to its end, so that a walk
/// over a finite list of entries ends.
pub proof fn lemma_walk_ends(w: LinkWalkerView, event: LinkEvent)
    requires
        accepts(w, event),
        (w.phase is Checking || w.phase is Linking) ==> w.next < w.uris.len(),
    ensures
        0 <= steps_left(transition(w, event).0) < steps_left(w),
{
}

/// In the walk for missing links, an entry `file://` + library root +
/// relative path is checked at the view root followed by the relative path,
/// and linked to the library root followed by the same relative path.
pub proof fn lemma_missing_links_paths(
    library_root: Seq<char>,
    view_root: Seq<char>,
    relative: Seq<char>,
)
    requires
        FILE_SCHEME_BYTES + utf8_len(library_root) <= usize::MAX,
    ensures
        entry_paths(
            LinkMode::MissingLinks,
            library_root,
            view_root,
            file_scheme() + library_root + relative,
        ) == Some((view_root + relative, library_root + relative)),
{
    lemma_uri_rewrite_keeps_relative_path(library_root, relative);
}

/// In the view walks, an entry's view file and library file are the view root
/// and the library root followed by the entry.
pub proof fn lemma_view_walk_paths(
    mode: LinkMode,
    library_root: Seq<char>,
    view_root: Seq<char>,
    uri: Seq<char>,
)
    requires
        !(mode is MissingLinks),
    ensures
        entry_paths(mode, library_root, view_root, uri) == Some(
            (view_root + uri, library_root + uri),
        ),
{
}

/// The scheme that starts every entry URI of the music library.
pub open spec fn scheme_chars() -> Seq<char> {
    seq!['f', 'i', 'l', 'e', ':', '/', '/']
}

/// When a remote check reports the view file missing (a nonzero status), the
/// walk asks, for the entry it just checked, for the remote command that makes
/// the view file's parent directory and hard-links the view file to the library
/// file: `ln` takes the library file first and creates the view file. Without a
/// parent directory the walk aborts on that entry.
pub proof fn lemma_remote_link_command(w: LinkWalkerView, status: i32)
    requires
        w.phase is Checking,
        !(w.mode is LocalView),
        status != 0,
    ensures
        transition(w, LinkEvent::RemoteStatus(status)).0.next == w.next,
        transition(w, LinkEvent::RemoteStatus(status)).0.view_file == w.view_file,
        transition(w, LinkEvent::RemoteStatus(status)).0.library_file == w.library_file,
        match path_parent_of(w.view_file) {
            Some(d) => {
                &&& transition(w, LinkEvent::RemoteStatus(status)).0.phase is Linking
                &&& transition(w, LinkEvent::RemoteStatus(status)).1 == (LinkDirective::RemoteLink {
                    index: w.next,
                    directory: d,
                    library_file: w.library_file,
                    view_file: w.view_file,
                    command: "mkdir -p \""@ + d + "\"; "@ + "ln \""@ + w.library_file + "\" \""@
                        + w.view_file + "\""@,
                })
            },
            None => {
                &&& transition(w, LinkEvent::RemoteStatus(status)).0.phase is Failed
                &&& transition(w, LinkEvent::RemoteStatus(status)).1 == (LinkDirective::Abort {
                    index: w.next,
                })
            },
        },
{
}

/// When a local check reports the view file missing, the walk asks to make
/// the view file's parent directory and to hard-link the view file to the
/// library file of the entry it just checked (or aborts without a parent).
pub proof fn lemma_local_link(w: LinkWalkerView)
    requires
        w.phase is Checking,
        w.mode is LocalView,
    ensures
        transition(w, LinkEvent::LocalExists(false)).0.next == w.next,
        match path_parent_of(w.view_file) {
            Some(d) => {
                &&& transition(w, LinkEvent::LocalExists(false)).0.phase is Linking
                &&& transition(w, LinkEvent::LocalExists(false)).1 == (LinkDirective::LocalLink {
                    index: w.next,
                    directory: d,
                    library_file: w.library_file,
                    view_file: w.view_file,
                })
            },
            None => {
                &&& transition(w, LinkEvent::LocalExists(false)).0.phase is Failed
                &&& transition(w, LinkEvent::LocalExists(false)).1 == (LinkDirective::Abort {
                    index: w.next,
                })
            },
        },
{
}

/// The walk starts at the first entry; a check that finds the view file
/// (status 0, or the file exists) and a made link both move it to the next
/// entry, whatever the mode. There it issues the check of that entry, or
/// finishes when no entry is left. In the view walks the entry's view file is
/// the view root followed by the entry and its library file the library root
/// followed by the entry; the check is a remote `ls -1` of the view file, or a
/// local look at it.
pub proof fn lemma_moves_to_next_entry(w: LinkWalkerView, event: LinkEvent)
    requires
        accepts(w, event),
        match event {
            LinkEvent::Begin => true,
            LinkEvent::RemoteStatus(status) => status == 0,
            LinkEvent::LocalExists(exists) => exists,
            LinkEvent::Linked => true,
        },
        (w.phase is Checking || w.phase is Linking) ==> w.next < w.uris.len(),
    ensures
        ({
            let i: nat = if event is Begin { 0 } else { w.next + 1 };
            let (w2, d) = transition(w, event);
            &&& w2.next == i
            &&& w2.uris == w.uris
            &&& w2.mode == w.mode
            &&& w2.library_root == w.library_root
            &&& w2.view_root == w.view_root
            &&& i == w.uris.len() ==> w2.phase is Finished && d is Finished
            &&& (i < w.uris.len() && !(w.mode is MissingLinks)) ==> {
                &&& w2.phase is Checking
                &&& w2.view_file == w.view_root + w.uris[i as int]
                &&& w2.library_file == w.library_root + w.uris[i as int]
                &&& d == if w.mode is LocalView {
                    LinkDirective::LocalCheck { index: i, view_file: w.view_root + w.uris[i as int] }
                } else {
                    LinkDirective::RemoteCheck {
                        index: i,
                        command: "ls -1 \""@ + (w.view_root + w.uris[i as int]) + "\""@,
                    }
                }
            }
        }),
{
}

/// In the walk for missing links, when the walk moves to an entry that is
/// `file://` followed by the library root and a relative path, it checks on
/// the remote machine the view root followed by that relative path, and keeps
/// the library root followed by the same relative path as the entry's library
/// file.
pub proof fn lemma_missing_links_next_check(w: LinkWalkerView, event: LinkEvent, relative: Seq<char>)
    requires
        accepts(w, event),
        w.mode is MissingLinks,
        match event {
            LinkEvent::Begin => true,
            LinkEvent::RemoteStatus(status) => status == 0,
            LinkEvent::LocalExists(exists) => exists,
            LinkEvent::Linked => true,
        },
        (if event is Begin { 0 } else { w.next + 1 }) < w.uris.len(),
        w.uris[if event is Begin { 0int } else { w.next as int + 1 }] == scheme_chars() + w.library_root
            + relative,
        FILE_SCHEME_BYTES + utf8_len(w.library_root) <= usize::MAX,
    ensures
        ({
            let i: nat = if event is Begin { 0 } else { w.next + 1 };
            let (w2, d) = transition(w, event);
            &&& w2.next == i
            &&& w2.phase is Checking
            &&& w2.view_file == w.view_root + relative
            &&& w2.library_file == w.library_root + relative
            &&& d == (LinkDirective::RemoteCheck {
                index: i,
                command: "ls -1 \""@ + (w.view_root + relative) + "\""@,
            })
        }),
{
    assert(scheme_chars() =~= file_scheme());
    lemma_uri_rewrite_keeps_relative_path(w.library_root, relative);
}

/// A walk for missing links over one entry `file://` + library root +
/// relative path, whose view file is found missing: it first checks the view
/// root followed by the relative path, then makes its parent directory and
/// hard-links it to the library root followed by the relative path.
pub proof fn lemma_missing_links_walk(
    library_root: Seq<char>,
    view_root: Seq<char>,
    relative: Seq<char>,
    status: i32,
)
    requires
        FILE_SCHEME_BYTES + utf8_len(library_root) <= usize::MAX,
        status != 0,
    ensures
        ({
            let w0 = LinkWalkerView {
                mode: LinkMode::MissingLinks,
                library_root: library_root,
                view_root: view_root,
                uris: seq![scheme_chars() + library_root + relative],
                next: 0,
                phase: LinkPhase::Start,
                view_file: Seq::empty(),
                library_file: Seq::empty(),
            };
            let (w1, d1) = transition(w0, LinkEvent::Begin);
            let (w2, d2) = transition(w1, LinkEvent::RemoteStatus(status));
            &&& d1 == (LinkDirective::RemoteCheck {
                index: 0,
                command: "ls -1 \""@ + (view_root + relative) + "\""@,
            })
            &&& match path_parent_of(view_root + relative) {
                Some(d) => d2 == (LinkDirective::RemoteLink {
                    index: 0,
                    directory: d,
                    library_file: library_root + relative,
                    view_file: view_root + relative,
                    command: "mkdir -p \""@ + d + "\"; "@ + "ln \""@ + (library_root + relative)
                        + "\" \""@ + (view_root + relative) + "\""@,
                }),
                None => d2 == (LinkDirective::Abort { index: 0 }),
            }
        }),
{
    let w0 = LinkWalkerView {
        mode: LinkMode::MissingLinks,
        library_root: library_root,
        view_root: view_root,
        uris: seq![scheme_chars() + library_root + relative],
        next: 0,
        phase: LinkPhase::Start,
        view_file: Seq::empty(),
        library_file: Seq::empty(),
    };
    lemma_missing_links_next_check(w0, LinkEvent::Begin, relative);
    let w1 = transition(w0, LinkEvent::Begin).0;
    lemma_remote_link_command(w1, status);
}

/// In the walk for missing links, when the walk moves to an entry, it cuts
/// the scheme and the library root off the entry's URI by their byte length
/// (seven bytes and the library root's), puts the view root in their place and
/// checks that path on the remote machine, keeping the URI without its seven
/// scheme bytes as the library file. Where either cut falls inside a character
/// or past the end, it aborts on that entry.
pub proof fn lemma_missing_links_next_entry(w: LinkWalkerView, event: LinkEvent)
    requires
        accepts(w, event),
        w.mode is MissingLinks,
        match event {
            LinkEvent::Begin => true,
            LinkEvent::RemoteStatus(status) => status == 0,
            LinkEvent::LocalExists(exists) => exists,
            LinkEvent::Linked => true,
        },
        (if event is Begin { 0 } else { w.next + 1 }) < w.uris.len(),
    ensures
        ({
            let i: nat = if event is Begin { 0 } else { w.next + 1 };
            let uri = w.uris[i as int];
            let bytes = encode_utf8(uri);
            let n: int = 7 + encode_utf8(w.library_root).len() as int;
            let (w2, d) = transition(w, event);
            &&& w2.next == i
            &&& if n <= usize::MAX && is_char_boundary(bytes, n) && is_char_boundary(bytes, 7) {
                let view_file = w.view_root + decode_utf8(bytes.subrange(n, bytes.len() as int));
                &&& w2.phase is Checking
                &&& w2.view_file == view_file
                &&& w2.library_file == decode_utf8(bytes.subrange(7, bytes.len() as int))
                &&& d == (LinkDirective::RemoteCheck {
                    index: i,
                    command: "ls -1 \""@ + view_file + "\""@,
                })
            } else {
                &&& w2.phase is Failed
                &&& d == (LinkDirective::Abort { index: i })
            }
        }),
{
}

/// The walk takes, in each phase, exactly the event that answers its last
/// directive: `Begin` before anything, a remote exit status (any) or a local
/// existence answer after a check of its kind, and `Linked` after a link; a
/// finished or failed walk takes nothing.
pub proof fn lemma_accepted_events(w: LinkWalkerView, status: i32, exists: bool)
    ensures
        accepts(w, LinkEvent::Begin) <==> w.phase is Start,
        accepts(w, LinkEvent::RemoteStatus(status)) <==> (w.phase is Checking && (w.mode
            is MissingLinks || w.mode is RemoteView)),
        accepts(w, LinkEvent::LocalExists(exists)) <==> (w.phase is Checking && w.mode is LocalView),
        accepts(w, LinkEvent::Linked) <==> w.phase is Linking,
{
}

/// An action and its directive carry the same entry index and the same texts.
pub proof fn lemma_action_directive(a: LinkAction)
    ensures
        match a {
            LinkAction::RemoteCheck { index, command } => a@ == (LinkDirective::RemoteCheck {
                index: index as nat,
                command: command@,
            }),
            LinkAction::RemoteLink { index, directory, library_file, view_file, command } => a@
                == (LinkDirective::RemoteLink {
                index: index as nat,
                directory: directory@,
                library_file: library_file@,
                view_file: view_file@,
                command: command@,
            }),
            LinkAction::LocalCheck { index, view_file } => a@ == (LinkDirective::LocalCheck {
                index: index as nat,
                view_file: view_file@,
            }),
            LinkAction::LocalLink { index, directory, library_file, view_file } => a@
                == (LinkDirective::LocalLink {
                index: index as nat,
                directory: directory@,
                library_file: library_file@,
                view_file: view_file@,
            }),
            LinkAction::Abort { index } => a@ == (LinkDirective::Abort { index: index as nat }),
            LinkAction::Finished => a@ == LinkDirective::Finished,
        },
{
}

} // verus!
