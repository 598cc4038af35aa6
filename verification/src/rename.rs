//! One entry of the tree: what is done with its name, with its content and
//! with its children, and what is said about it.
//!
//! The library decides and the program around it acts. For each entry the
//! program hands [`handle_work`] an event, performs the action that comes
//! back, and hands in what came of it, until the action is to finish or to
//! abort.

use vstd::prelude::*;
use crate::errors::{invalid_name_text, utf8_conversion, ConvertToUtf8};
use crate::report::{
    header, header_text, no_name, no_name_text, open_failed, open_failed_text, out_of_turn,
    out_of_turn_text, read_failed, read_failed_text, rename_failed, rename_failed_text, renamed,
    renamed_text, replaced, replaced_text, skipped, skipped_text, undetected, undetected_text,
    unencodable_text, undecodable_text, unnamed, unnamed_text, write_failed, write_failed_text,
};
use crate::substitute::{replace, substitution, substitution_view};
use crate::transcode::{
    decode_as, decoded, decoded_text, detect_label, detected_label, encode_as, encoded,
    encoded_bytes, label_known,
};

verus! {

broadcast use vstd::string::group_string_axioms;

/// Which aspects of an entry are subject to substitution.
#[derive(Debug, Copy, Clone, PartialEq, Eq)]
pub enum RenameMode {
    Both,
    NameOnly,
    ContentOnly,
}

impl RenameMode {
    /// Whether names are rewritten under this scope.
    pub open spec fn replaces_name(self) -> bool {
        !(self is ContentOnly)
    }

    /// Whether contents are rewritten under this scope.
    pub open spec fn replaces_content(self) -> bool {
        !(self is NameOnly)
    }

    pub fn is_replace_name(&self) -> (r: bool)
        ensures
            r == self.replaces_name(),
    {
        match self {
            RenameMode::ContentOnly => false,
            _ => true,
        }
    }

    pub fn is_replace_content(&self) -> (r: bool)
        ensures
            r == self.replaces_content(),
    {
        match self {
            RenameMode::NameOnly => false,
            _ => true,
        }
    }

    /// The scope that rewrites exactly the named aspects; there is none that
    /// rewrites nothing.
    pub fn from_targets(replace_name: bool, replace_content: bool) -> (r: Option<RenameMode>)
        ensures
            r is None <==> !replace_name && !replace_content,
            r matches Some(mode) ==> mode.replaces_name() == replace_name
                && mode.replaces_content() == replace_content,
    {
        match (replace_name, replace_content) {
            (true, true) => Some(RenameMode::Both),
            (true, false) => Some(RenameMode::NameOnly),
            (false, true) => Some(RenameMode::ContentOnly),
            _ => None,
        }
    }

    /// The scope that two switches ask for, of which the first wins: names
    /// only, contents only, or both where neither is set.
    pub fn from_switches(name_only: bool, content_only: bool) -> (mode: RenameMode)
        ensures
            mode == if name_only {
                RenameMode::NameOnly
            } else if content_only {
                RenameMode::ContentOnly
            } else {
                RenameMode::Both
            },
    {
        if name_only {
            RenameMode::NameOnly
        } else if content_only {
            RenameMode::ContentOnly
        } else {
            RenameMode::Both
        }
    }
}

/// What is done with the name of an entry.
#[derive(Debug, PartialEq, Eq)]
pub enum NameStep {
    /// The name holds nothing to replace.
    Keep,
    /// The entry gets this name.
    Rename(String),
    /// The name cannot be worked with; the reason is reported.
    Skip(String),
    /// The sweep cannot go on; the reason is its last word.
    Fatal(String),
}

/// The model of a [`NameStep`].
pub enum NameStepView {
    Keep,
    Rename(Seq<char>),
    Skip(Seq<char>),
    Fatal(Seq<char>),
}

impl View for NameStep {
    type V = NameStepView;

    open spec fn view(&self) -> NameStepView {
        match self {
            NameStep::Keep => NameStepView::Keep,
            NameStep::Rename(name) => NameStepView::Rename(name@),
            NameStep::Skip(why) => NameStepView::Skip(why@),
            NameStep::Fatal(why) => NameStepView::Fatal(why@),
        }
    }
}

/// The step that follows from a substitution in a name: a new name where
/// something was replaced, none where nothing was, the end of the sweep
/// where the substitution was refused.
pub open spec fn name_step_after(done: Result<(Seq<char>, nat), Seq<char>>) -> NameStepView {
    match done {
        Err(complaint) => NameStepView::Fatal(complaint),
        Ok((name, count)) => if count > 0 {
            NameStepView::Rename(name)
        } else {
            NameStepView::Keep
        },
    }
}

/// What is done with the name of an entry, given its last path component as
/// the system holds it.
pub open spec fn name_step(
    name: Option<Seq<u8>>,
    find: Seq<char>,
    replace: Seq<char>,
    use_regex: bool,
) -> NameStepView {
    match name {
        None => NameStepView::Skip(no_name_text()),
        Some(bytes) => match utf8_conversion(bytes) {
            Err(shown) => NameStepView::Skip(invalid_name_text(shown)),
            Ok(text) => name_step_after(substitution(text, find, replace, use_regex)),
        },
    }
}

/// The step that follows from a substitution in a name.
pub fn name_outcome(done: Result<(String, usize), String>) -> (step: NameStep)
    ensures
        step@ == name_step_after(substitution_view(done)),
{
    match done {
        Err(complaint) => NameStep::Fatal(complaint),
        Ok((name, count)) => if count > 0 {
            NameStep::Rename(name)
        } else {
            NameStep::Keep
        },
    }
}

/// Decides what is done with the name of an entry.
pub fn process_file_name(name: Option<&[u8]>, find: &str, repl: &str, use_regex: bool) -> (step:
    NameStep)
    ensures
        step@ == name_step(
            match name {
                Some(bytes) => Some(bytes@),
                None => None,
            },
            find@,
            repl@,
            use_regex,
        ),
{
    match name {
        None => NameStep::Skip(no_name()),
        Some(bytes) => match bytes.convert_to_utf_8() {
            Err(err) => NameStep::Skip(err.message()),
            Ok(text) => name_outcome(replace(text, find, repl, use_regex)),
        },
    }
}

/// What is done with the content of a file.
#[derive(Debug, PartialEq, Eq)]
pub enum ContentStep {
    /// The content holds nothing to replace.
    Keep,
    /// So many matches were replaced, and these are the file's new bytes.
    Rewrite(usize, Vec<u8>),
    /// The file is left alone; the reason is reported.
    Skip(String),
    /// The sweep cannot go on; the reason is its last word.
    Fatal(String),
}

/// The model of a [`ContentStep`].
pub enum ContentStepView {
    Keep,
    Rewrite(nat, Seq<u8>),
    Skip(Seq<char>),
    Fatal(Seq<char>),
}

impl View for ContentStep {
    type V = ContentStepView;

    open spec fn view(&self) -> ContentStepView {
        match self {
            ContentStep::Keep => ContentStepView::Keep,
            ContentStep::Rewrite(count, bytes) => ContentStepView::Rewrite(*count as nat, bytes@),
            ContentStep::Skip(why) => ContentStepView::Skip(why@),
            ContentStep::Fatal(why) => ContentStepView::Fatal(why@),
        }
    }
}

/// The step that follows from what the encoder made of a rewritten text in
/// which `count` matches were replaced; no answer means that the encoding
/// is not known.
pub open spec fn content_step_after(
    path: Seq<char>,
    count: nat,
    answer: Option<Result<Seq<u8>, Seq<char>>>,
) -> ContentStepView {
    match answer {
        Some(Ok(bytes)) => ContentStepView::Rewrite(count, bytes),
        Some(Err(why)) => ContentStepView::Skip(unencodable_text(path, why)),
        None => ContentStepView::Skip(undetected_text(path)),
    }
}

/// What is done with the content of a file, given its bytes. An empty file
/// is kept. Bytes whose encoding is not found, or does not fit them, are
/// skipped. Otherwise the text is rewritten; where nothing was replaced the
/// file is kept, and where something was, the new text is encoded as the
/// old one was.
pub open spec fn content_step(
    path: Seq<char>,
    bytes: Seq<u8>,
    find: Seq<char>,
    replace: Seq<char>,
    use_regex: bool,
) -> ContentStepView {
    if bytes.len() == 0 {
        ContentStepView::Keep
    } else {
        match detected_label(bytes) {
            None => ContentStepView::Skip(undetected_text(path)),
            Some(label) => if !label_known(label) {
                ContentStepView::Skip(undetected_text(path))
            } else {
                match decoded(label, bytes) {
                    Err(why) => ContentStepView::Skip(undecodable_text(path, why)),
                    Ok(text) => match substitution(text, find, replace, use_regex) {
                        Err(complaint) => ContentStepView::Fatal(complaint),
                        Ok((new_text, count)) => if count == 0 {
                            ContentStepView::Keep
                        } else {
                            content_step_after(path, count, Some(encoded(label, new_text)))
                        },
                    },
                }
            },
        }
    }
}

/// The step that follows from what the encoder made of a rewritten text in
/// which `count` matches were replaced.
pub fn content_outcome(path: &str, count: usize, answer: Option<Result<Vec<u8>, String>>) -> (step:
    ContentStep)
    ensures
        step@ == content_step_after(
            path@,
            count as nat,
            match answer {
                Some(Ok(bytes)) => Some(Ok(bytes@)),
                Some(Err(why)) => Some(Err(why@)),
                None => None,
            },
        ),
{
    match encoded_bytes(path, answer) {
        Ok(bytes) => ContentStep::Rewrite(count, bytes),
        Err(why) => ContentStep::Skip(why),
    }
}

/// Decides what is done with the content of a file.
pub fn process_file_content(
    path: &str,
    buffer: &[u8],
    find: &str,
    repl: &str,
    use_regex: bool,
) -> (step: ContentStep)
    ensures
        step@ == content_step(path@, buffer@, find@, repl@, use_regex),
{
    if buffer.len() == 0 {
        return ContentStep::Keep;
    }
    let label = match detect_label(buffer) {
        Some(label) => label,
        None => {
            return ContentStep::Skip(undetected(path));
        },
    };
    let text = match decoded_text(path, decode_as(label.as_str(), buffer)) {
        Ok(text) => text,
        Err(why) => {
            return ContentStep::Skip(why);
        },
    };
    match replace(text.as_str(), find, repl, use_regex) {
        Err(complaint) => ContentStep::Fatal(complaint),
        Ok((new_text, count)) => {
            if count == 0 {
                ContentStep::Keep
            } else {
                content_outcome(path, count, encode_as(label.as_str(), new_text.as_str()))
            }
        },
    }
}

/// One entry of the tree that awaits processing, with the parameters of
/// the sweep. The path is the entry's path as it is shown.
#[derive(Debug, PartialEq, Eq)]
pub struct RenameWork {
    pub path: String,
    pub find: String,
    pub replace: String,
    pub use_regex: bool,
    pub mode: RenameMode,
    pub is_root: bool,
    pub silence: bool,
}

/// The model of a [`RenameWork`].
pub struct WorkView {
    pub path: Seq<char>,
    pub find: Seq<char>,
    pub replace: Seq<char>,
    pub use_regex: bool,
    pub mode: RenameMode,
    pub is_root: bool,
    pub silence: bool,
}

impl View for RenameWork {
    type V = WorkView;

    open spec fn view(&self) -> WorkView {
        WorkView {
            path: self.path@,
            find: self.find@,
            replace: self.replace@,
            use_regex: self.use_regex,
            mode: self.mode,
            is_root: self.is_root,
            silence: self.silence,
        }
    }
}

impl WorkView {
    /// The unit for an entry of the directory that this unit stands for.
    pub open spec fn child(self, path: Seq<char>) -> WorkView {
        WorkView { path, is_root: false, ..self }
    }

    /// The units for the entries of the directory, one for each and in
    /// their order.
    pub open spec fn children(self, paths: Seq<Seq<char>>) -> Seq<WorkView> {
        Seq::new(paths.len(), |i: int| self.child(paths[i]))
    }
}

/// The texts of some strings.
pub open spec fn texts(strings: Seq<String>) -> Seq<Seq<char>> {
    Seq::new(strings.len(), |i: int| strings[i]@)
}

/// The models of some units.
pub open spec fn works(units: Seq<RenameWork>) -> Seq<WorkView> {
    Seq::new(units.len(), |i: int| units[i]@)
}

impl RenameWork {
    /// The unit that a sweep starts with: the entry at which it begins,
    /// which keeps its name.
    pub fn root(
        path: String,
        find: String,
        replace: String,
        use_regex: bool,
        mode: RenameMode,
        silence: bool,
    ) -> (unit: RenameWork)
        ensures
            unit@ == (WorkView {
                path: path@,
                find: find@,
                replace: replace@,
                use_regex,
                mode,
                is_root: true,
                silence,
            }),
    {
        RenameWork { path, find, replace, use_regex, mode, is_root: true, silence }
    }

    /// The unit for an entry of the directory that this unit stands for.
    pub fn child(&self, path: String) -> (unit: RenameWork)
        ensures
            unit@ == self@.child(path@),
    {
        RenameWork {
            path,
            find: self.find.clone(),
            replace: self.replace.clone(),
            use_regex: self.use_regex,
            mode: self.mode,
            is_root: false,
            silence: self.silence,
        }
    }

    /// The units for the entries of the directory, one for each and in
    /// their order.
    pub fn children(&self, paths: &Vec<String>) -> (units: Vec<RenameWork>)
        ensures
            works(units@) == self@.children(texts(paths@)),
    {
        let mut units: Vec<RenameWork> = Vec::new();
        let mut i: usize = 0;
        while i < paths.len()
            invariant
                i <= paths.len(),
                units@.len() == i,
                forall|j: int| 0 <= j < i ==> (#[trigger] units@[j])@ == self@.child(paths@[j]@),
            decreases paths.len() - i,
        {
            units.push(self.child(paths[i].clone()));
            i += 1;
        }
        assert(works(units@) =~= self@.children(texts(paths@)));
        units
    }
}

/// Where the processing of an entry stands: what was asked, and not yet
/// answered.
#[derive(Debug, Copy, Clone, PartialEq, Eq)]
pub enum Stage {
    /// Nothing was asked yet.
    Fresh,
    /// The entry's name was asked for.
    Naming,
    /// The entry is being renamed.
    Renaming,
    /// The entry's kind was asked for.
    Inspecting,
    /// The file's bytes were asked for.
    Reading,
    /// The file's new bytes are being written; so many matches were
    /// replaced in them.
    Writing(usize),
    /// The directory's entries were asked for.
    Listing,
    /// Nothing more is asked.
    Done,
}

/// An entry in processing: the unit, the stage, and what there is to say
/// about it so far.
#[derive(Debug, PartialEq, Eq)]
pub struct Progress {
    pub work: RenameWork,
    pub stage: Stage,
    pub output: String,
    pub modified: bool,
}

/// The model of a [`Progress`].
pub struct ProgressView {
    pub work: WorkView,
    pub stage: Stage,
    pub output: Seq<char>,
    pub modified: bool,
}

impl View for Progress {
    type V = ProgressView;

    open spec fn view(&self) -> ProgressView {
        ProgressView {
            work: self.work@,
            stage: self.stage,
            output: self.output@,
            modified: self.modified,
        }
    }
}

/// What the program hands in: the start, or what came of the last action.
#[derive(Debug, PartialEq, Eq)]
pub enum Event {
    /// The unit was taken from the queue.
    Begin,
    /// The last component of the entry's path, as the system holds it.
    Name(Option<Vec<u8>>),
    /// The entry was renamed; this is its new path as it is shown.
    Renamed(String),
    /// The system refused to rename the entry to this path.
    RenameFailed(String),
    /// Whether the entry is a regular file.
    Kind(bool),
    /// The system did not tell the entry's kind; its reason.
    KindFailed(String),
    /// The bytes of the file.
    Content(Vec<u8>),
    /// The file could not be opened; the system's reason.
    OpenFailed(String),
    /// The file could not be read; the system's reason.
    ReadFailed(String),
    /// The file holds its new bytes.
    Written,
    /// The file could not be written.
    WriteFailed,
    /// The paths of the directory's entries, as they are shown.
    Children(Vec<String>),
    /// The directory could not be listed; the system's reason.
    ListFailed(String),
}

/// The model of an [`Event`].
pub enum EventView {
    Begin,
    Name(Option<Seq<u8>>),
    Renamed(Seq<char>),
    RenameFailed(Seq<char>),
    Kind(bool),
    KindFailed(Seq<char>),
    Content(Seq<u8>),
    OpenFailed(Seq<char>),
    ReadFailed(Seq<char>),
    Written,
    WriteFailed,
    Children(Seq<Seq<char>>),
    ListFailed(Seq<char>),
}

impl View for Event {
    type V = EventView;

    open spec fn view(&self) -> EventView {
        match self {
            Event::Begin => EventView::Begin,
            Event::Name(name) => EventView::Name(
                match name {
                    Some(bytes) => Some(bytes@),
                    None => None,
                },
            ),
            Event::Renamed(to) => EventView::Renamed(to@),
            Event::RenameFailed(to) => EventView::RenameFailed(to@),
            Event::Kind(is_file) => EventView::Kind(*is_file),
            Event::KindFailed(why) => EventView::KindFailed(why@),
            Event::Content(bytes) => EventView::Content(bytes@),
            Event::OpenFailed(why) => EventView::OpenFailed(why@),
            Event::ReadFailed(why) => EventView::ReadFailed(why@),
            Event::Written => EventView::Written,
            Event::WriteFailed => EventView::WriteFailed,
            Event::Children(paths) => EventView::Children(texts(paths@)),
            Event::ListFailed(why) => EventView::ListFailed(why@),
        }
    }
}

/// What the program is to do next.
#[derive(Debug, PartialEq, Eq)]
pub enum Action {
    /// Hand in the last component of the entry's path.
    FetchName,
    /// Rename the entry to this name, in its directory.
    Rename(String),
    /// Hand in the entry's kind.
    Inspect,
    /// Hand in the file's bytes.
    Read,
    /// Replace the file's bytes by these.
    Write(Vec<u8>),
    /// Hand in the directory's entries.
    List,
    /// The entry is done: print the text, if there is one, and put the
    /// units on the queue.
    Finish(Option<String>, Vec<RenameWork>),
    /// End the sweep with this message.
    Abort(String),
}

/// The model of an [`Action`].
pub enum ActionView {
    FetchName,
    Rename(Seq<char>),
    Inspect,
    Read,
    Write(Seq<u8>),
    List,
    Finish(Option<Seq<char>>, Seq<WorkView>),
    Abort(Seq<char>),
}

impl View for Action {
    type V = ActionView;

    open spec fn view(&self) -> ActionView {
        match self {
            Action::FetchName => ActionView::FetchName,
            Action::Rename(name) => ActionView::Rename(name@),
            Action::Inspect => ActionView::Inspect,
            Action::Read => ActionView::Read,
            Action::Write(bytes) => ActionView::Write(bytes@),
            Action::List => ActionView::List,
            Action::Finish(said, units) => ActionView::Finish(
                match said {
                    Some(text) => Some(text@),
                    None => None,
                },
                works(units@),
            ),
            Action::Abort(why) => ActionView::Abort(why@),
        }
    }
}

impl ProgressView {
    /// The unit as it is when it is taken from the queue.
    pub open spec fn fresh(work: WorkView) -> ProgressView {
        ProgressView { work, stage: Stage::Fresh, output: header_text(work.path), modified: false }
    }

    /// The question for the next stage is asked.
    pub open spec fn ask(self, stage: Stage, action: ActionView) -> (ProgressView, ActionView) {
        (ProgressView { stage, ..self }, action)
    }

    /// Something more is said about the entry.
    pub open spec fn say(self, line: Seq<char>) -> ProgressView {
        ProgressView { output: self.output + line, modified: true, ..self }
    }

    /// What is printed when the entry is done: all that was said, unless
    /// the sweep is silent or nothing happened.
    pub open spec fn said(self) -> Option<Seq<char>> {
        if !self.work.silence && self.modified {
            Some(self.output)
        } else {
            None
        }
    }

    /// The entry is done, and these units follow from it.
    pub open spec fn finish(self, units: Seq<WorkView>) -> (ProgressView, ActionView) {
        (ProgressView { stage: Stage::Done, ..self }, ActionView::Finish(self.said(), units))
    }

    /// The sweep ends.
    pub open spec fn abort(self, why: Seq<char>) -> (ProgressView, ActionView) {
        (ProgressView { stage: Stage::Done, ..self }, ActionView::Abort(why))
    }

    /// The name is dealt with: the kind is asked for.
    pub open spec fn inspect(self) -> (ProgressView, ActionView) {
        self.ask(Stage::Inspecting, ActionView::Inspect)
    }

    /// The step that an event leads to: the new state and the action.
    ///
    /// A unit that is not the root, under a scope that covers names, has its
    /// name dealt with first. Then its kind decides: a directory is listed
    /// and its entries follow as units; a file has its content dealt with
    /// where the scope covers contents. What the system refuses for one
    /// entry is reported and ends this entry. What it refuses when it is
    /// asked for a kind or a listing, a substitution that is refused, and an
    /// answer out of turn end the sweep.
    pub open spec fn step(self, event: EventView) -> (ProgressView, ActionView) {
        match (self.stage, event) {
            (Stage::Fresh, EventView::Begin) => if !self.work.is_root
                && self.work.mode.replaces_name() {
                self.ask(Stage::Naming, ActionView::FetchName)
            } else {
                self.inspect()
            },
            (Stage::Naming, EventView::Name(name)) => match name_step(
                name,
                self.work.find,
                self.work.replace,
                self.work.use_regex,
            ) {
                NameStepView::Keep => self.inspect(),
                NameStepView::Rename(to) => self.ask(Stage::Renaming, ActionView::Rename(to)),
                NameStepView::Skip(why) => self.say(unnamed_text(why)).finish(Seq::empty()),
                NameStepView::Fatal(why) => self.abort(why),
            },
            (Stage::Renaming, EventView::Renamed(to)) => ProgressView {
                work: WorkView { path: to, ..self.work },
                ..self
            }.say(renamed_text(to)).inspect(),
            (Stage::Renaming, EventView::RenameFailed(to)) => self.say(
                unnamed_text(rename_failed_text(self.work.path, to)),
            ).finish(Seq::empty()),
            (Stage::Inspecting, EventView::Kind(is_file)) => if !is_file {
                self.ask(Stage::Listing, ActionView::List)
            } else if self.work.mode.replaces_content() {
                self.ask(Stage::Reading, ActionView::Read)
            } else {
                self.finish(Seq::empty())
            },
            (Stage::Inspecting, EventView::KindFailed(why)) => self.abort(why),
            (Stage::Reading, EventView::Content(bytes)) => match content_step(
                self.work.path,
                bytes,
                self.work.find,
                self.work.replace,
                self.work.use_regex,
            ) {
                ContentStepView::Keep => self.finish(Seq::empty()),
                ContentStepView::Rewrite(count, out) => self.ask(
                    Stage::Writing(count as usize),
                    ActionView::Write(out),
                ),
                ContentStepView::Skip(why) => self.say(skipped_text(why)).finish(Seq::empty()),
                ContentStepView::Fatal(why) => self.abort(why),
            },
            (Stage::Reading, EventView::OpenFailed(why)) => self.say(
                skipped_text(open_failed_text(self.work.path, why)),
            ).finish(Seq::empty()),
            (Stage::Reading, EventView::ReadFailed(why)) => self.say(
                skipped_text(read_failed_text(self.work.path, why)),
            ).finish(Seq::empty()),
            (Stage::Writing(count), EventView::Written) => self.say(
                replaced_text(count as nat),
            ).finish(Seq::empty()),
            (Stage::Writing(_), EventView::WriteFailed) => self.say(
                skipped_text(write_failed_text(self.work.path)),
            ).finish(Seq::empty()),
            (Stage::Listing, EventView::Children(paths)) => self.finish(
                self.work.children(paths),
            ),
            (Stage::Listing, EventView::ListFailed(why)) => self.abort(why),
            _ => self.abort(out_of_turn_text()),
        }
    }
}

impl Progress {
    /// The unit as it is when it is taken from the queue.
    pub fn new(work: RenameWork) -> (progress: Progress)
        ensures
            progress@ == ProgressView::fresh(work@),
            progress@.in_order(),
    {
        let output = header(work.path.as_str());
        Progress { work, stage: Stage::Fresh, output, modified: false }
    }

    fn say(&mut self, line: String)
        ensures
            final(self)@ == old(self)@.say(line@),
    {
        self.output.append(line.as_str());
        self.modified = true;
    }

    fn finish(&mut self, units: Vec<RenameWork>) -> (action: Action)
        ensures
            (final(self)@, action@) == old(self)@.finish(works(units@)),
    {
        self.stage = Stage::Done;
        if !self.work.silence && self.modified {
            Action::Finish(Some(self.output.clone()), units)
        } else {
            Action::Finish(None, units)
        }
    }

    fn finish_alone(&mut self) -> (action: Action)
        ensures
            (final(self)@, action@) == old(self)@.finish(Seq::empty()),
    {
        let units: Vec<RenameWork> = Vec::new();
        assert(works(units@) =~= Seq::<WorkView>::empty());
        self.finish(units)
    }

    fn abort(&mut self, why: String) -> (action: Action)
        ensures
            (final(self)@, action@) == old(self)@.abort(why@),
    {
        self.stage = Stage::Done;
        Action::Abort(why)
    }

    fn inspect(&mut self) -> (action: Action)
        ensures
            (final(self)@, action@) == old(self)@.inspect(),
    {
        self.stage = Stage::Inspecting;
        Action::Inspect
    }
}

/// Takes one step in the processing of an entry: from the state and what
/// the program hands in, to the new state and what the program is to do.
pub fn handle_work(progress: &mut Progress, event: Event) -> (action: Action)
    ensures
        (final(progress)@, action@) == old(progress)@.step(event@),
        old(progress)@.in_order() ==> final(progress)@.in_order(),
{
    match (progress.stage, event) {
        (Stage::Fresh, Event::Begin) => {
            if !progress.work.is_root && progress.work.mode.is_replace_name() {
                progress.stage = Stage::Naming;
                Action::FetchName
            } else {
                progress.inspect()
            }
        },
        (Stage::Naming, Event::Name(name)) => {
            let step = match &name {
                Some(bytes) => process_file_name(
                    Some(bytes.as_slice()),
                    progress.work.find.as_str(),
                    progress.work.replace.as_str(),
                    progress.work.use_regex,
                ),
                None => process_file_name(
                    None,
                    progress.work.find.as_str(),
                    progress.work.replace.as_str(),
                    progress.work.use_regex,
                ),
            };
            match step {
                NameStep::Keep => progress.inspect(),
                NameStep::Rename(to) => {
                    progress.stage = Stage::Renaming;
                    Action::Rename(to)
                },
                NameStep::Skip(why) => {
                    progress.say(unnamed(why.as_str()));
                    progress.finish_alone()
                },
                NameStep::Fatal(why) => progress.abort(why),
            }
        },
        (Stage::Renaming, Event::Renamed(to)) => {
            let line = renamed(to.as_str());
            progress.work.path = to;
            progress.say(line);
            progress.inspect()
        },
        (Stage::Renaming, Event::RenameFailed(to)) => {
            let why = rename_failed(progress.work.path.as_str(), to.as_str());
            progress.say(unnamed(why.as_str()));
            progress.finish_alone()
        },
        (Stage::Inspecting, Event::Kind(is_file)) => {
            if !is_file {
                progress.stage = Stage::Listing;
                Action::List
            } else if progress.work.mode.is_replace_content() {
                progress.stage = Stage::Reading;
                Action::Read
            } else {
                progress.finish_alone()
            }
        },
        (Stage::Inspecting, Event::KindFailed(why)) => progress.abort(why),
        (Stage::Reading, Event::Content(bytes)) => {
            let step = process_file_content(
                progress.work.path.as_str(),
                bytes.as_slice(),
                progress.work.find.as_str(),
                progress.work.replace.as_str(),
                progress.work.use_regex,
            );
            match step {
                ContentStep::Keep => progress.finish_alone(),
                ContentStep::Rewrite(count, out) => {
                    progress.stage = Stage::Writing(count);
                    Action::Write(out)
                },
                ContentStep::Skip(why) => {
                    progress.say(skipped(why.as_str()));
                    progress.finish_alone()
                },
                ContentStep::Fatal(why) => progress.abort(why),
            }
        },
        (Stage::Reading, Event::OpenFailed(why)) => {
            let why = open_failed(progress.work.path.as_str(), why.as_str());
            progress.say(skipped(why.as_str()));
            progress.finish_alone()
        },
        (Stage::Reading, Event::ReadFailed(why)) => {
            let why = read_failed(progress.work.path.as_str(), why.as_str());
            progress.say(skipped(why.as_str()));
            progress.finish_alone()
        },
        (Stage::Writing(count), Event::Written) => {
            progress.say(replaced(count));
            progress.finish_alone()
        },
        (Stage::Writing(_), Event::WriteFailed) => {
            let why = write_failed(progress.work.path.as_str());
            progress.say(skipped(why.as_str()));
            progress.finish_alone()
        },
        (Stage::Listing, Event::Children(paths)) => {
            let units = progress.work.children(&paths);
            progress.finish(units)
        },
        (Stage::Listing, Event::ListFailed(why)) => progress.abort(why),
        _ => progress.abort(out_of_turn()),
    }
}

impl Stage {
    /// How many answers the processing of an entry can still take.
    pub open spec fn distance(self) -> nat {
        match self {
            Stage::Fresh => 6,
            Stage::Naming => 5,
            Stage::Renaming => 4,
            Stage::Inspecting => 3,
            Stage::Reading => 2,
            Stage::Writing(_) => 1,
            Stage::Listing => 1,
            Stage::Done => 0,
        }
    }
}

impl WorkView {
    /// The same unit in a silent sweep.
    pub open spec fn hushed(self) -> WorkView {
        WorkView { silence: true, ..self }
    }
}

impl ActionView {
    /// The same action in a silent sweep: nothing is printed, and the units
    /// that follow are silent too.
    pub open spec fn hushed(self) -> ActionView {
        match self {
            ActionView::Finish(_, units) => ActionView::Finish(
                None,
                Seq::new(units.len(), |i: int| units[i].hushed()),
            ),
            other => other,
        }
    }
}

impl ProgressView {
    /// The stage fits the unit: a name is dealt with only for a unit that
    /// is not the root and under a scope that covers names, a content only
    /// under a scope that covers contents.
    pub open spec fn in_order(self) -> bool {
        &&& (self.stage is Naming || self.stage is Renaming) ==> !self.work.is_root
            && self.work.mode.replaces_name()
        &&& (self.stage is Reading || self.stage is Writing) ==> self.work.mode.replaces_content()
    }

    /// The same state in a silent sweep.
    pub open spec fn hushed(self) -> ProgressView {
        ProgressView { work: self.work.hushed(), ..self }
    }
}

/// A unit that is taken from the queue is in order.
pub proof fn law_fresh_is_in_order(work: WorkView)
    ensures
        ProgressView::fresh(work).in_order(),
{
}

/// A step keeps the state in order and leaves the parameters of the sweep
/// as they are.
pub proof fn law_step_keeps_order(pre: ProgressView, event: EventView)
    requires
        pre.in_order(),
    ensures
        pre.step(event).0.in_order(),
        pre.step(event).0.work == (WorkView { path: pre.step(event).0.work.path, ..pre.work }),
{
}

/// The scope bounds what is done: an entry is renamed only where it is not
/// the root and the scope covers names, and a file is read or written only
/// where the scope covers contents.
pub proof fn law_scope_bounds_actions(pre: ProgressView, event: EventView)
    requires
        pre.in_order(),
    ensures
        ({
            let action = pre.step(event).1;
            &&& (action is FetchName || action is Rename) ==> !pre.work.is_root
                && pre.work.mode.replaces_name()
            &&& (action is Read || action is Write) ==> pre.work.mode.replaces_content()
        }),
{
}

/// The root is never renamed: no step asks for its name or gives it a new
/// one, and its path stays.
pub proof fn law_root_keeps_its_name(pre: ProgressView, event: EventView)
    requires
        pre.in_order(),
        pre.work.is_root,
    ensures
        !(pre.step(event).1 is FetchName),
        !(pre.step(event).1 is Rename),
        pre.step(event).0.work.path == pre.work.path,
{
}

/// Every step brings the entry nearer to its end, and the entry is done
/// exactly when the action is to finish or to abort: a unit takes at most
/// six answers.
pub proof fn law_step_advances(pre: ProgressView, event: EventView)
    ensures
        pre.stage.distance() > 0 ==> pre.step(event).0.stage.distance() < pre.stage.distance(),
        pre.step(event).0.stage is Done <==> (pre.step(event).1 is Finish || pre.step(
            event,
        ).1 is Abort),
{
}

/// A directory fans out into one unit for each of its entries, in their
/// order: the unit has the entry's path, is no root, and carries the
/// parameters of the sweep.
pub proof fn law_one_unit_per_entry(pre: ProgressView, paths: Seq<Seq<char>>)
    requires
        pre.stage is Listing,
    ensures
        pre.step(EventView::Children(paths)).1 matches ActionView::Finish(said, units) && {
            &&& said == pre.said()
            &&& units.len() == paths.len()
            &&& forall|i: int|
                0 <= i < paths.len() ==> #[trigger] units[i] == (WorkView {
                    path: paths[i],
                    is_root: false,
                    ..pre.work
                })
        },
{
}

/// A silent sweep prints nothing.
pub proof fn law_silence_says_nothing(pre: ProgressView, event: EventView)
    requires
        pre.work.silence,
    ensures
        pre.step(event).1 matches ActionView::Finish(said, _) ==> said is None,
{
}

/// Silence changes the words only: the silent sweep takes the same steps
/// and asks for the same actions, but for what is printed.
pub proof fn law_silence_changes_only_words(pre: ProgressView, event: EventView)
    ensures
        pre.hushed().step(event).0 == pre.step(event).0.hushed(),
        pre.hushed().step(event).1 == pre.step(event).1.hushed(),
{
    let loud = pre.step(event).1;
    let quiet = pre.hushed().step(event).1;
    match loud {
        ActionView::Finish(_, units) => {
            let hushed_units = Seq::new(units.len(), |i: int| units[i].hushed());
            match quiet {
                ActionView::Finish(said, quiet_units) => {
                    assert(quiet_units =~= hushed_units);
                },
                _ => {},
            }
        },
        _ => {},
    }
}

/// A file is rewritten only where something was replaced in it: a content
/// without a match is never written.
pub proof fn law_rewrite_needs_a_match(
    path: Seq<char>,
    bytes: Seq<u8>,
    find: Seq<char>,
    replace: Seq<char>,
    use_regex: bool,
)
    ensures
        content_step(path, bytes, find, replace, use_regex) matches ContentStepView::Rewrite(
            count,
            _,
        ) ==> count > 0,
{
}

/// Replacing a string by itself, literally, leaves every name as it is: the
/// entry is kept, or renamed to the name it has.
pub proof fn law_same_replacement_keeps_name(name: Seq<u8>, find: Seq<char>)
    ensures
        match name_step(Some(name), find, find, false) {
            NameStepView::Keep => true,
            NameStepView::Rename(to) => utf8_conversion(name) == Ok::<Seq<char>, Seq<char>>(to),
            NameStepView::Skip(_) => utf8_conversion(name) is Err,
            NameStepView::Fatal(_) => find.len() == 0,
        },
{
    if let Ok(text) = utf8_conversion(name) {
        crate::substitute::law_same_replacement_keeps_text(text, find);
    }
}

/// Replacing a string by itself, literally, leaves every text as it is:
/// where the file is written, the text that is encoded is the text that was
/// decoded.
pub proof fn law_same_replacement_keeps_content(path: Seq<char>, bytes: Seq<u8>, find: Seq<char>)
    ensures
        content_step(path, bytes, find, find, false) matches ContentStepView::Rewrite(_, out)
            ==> (detected_label(bytes) matches Some(label) && decoded(label, bytes) matches Ok(
            text,
        ) && encoded(label, text) == Ok::<Seq<u8>, Seq<char>>(out)),
{
    if let Some(label) = detected_label(bytes) {
        if let Ok(text) = decoded(label, bytes) {
            crate::substitute::law_same_replacement_keeps_text(text, find);
        }
    }
}

} // verus!
