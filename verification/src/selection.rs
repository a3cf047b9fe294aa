//! The search for one wallpaper among the candidates, as a machine of states.
//!
//! The machine decides; whoever drives it acts. Each step hands out an action
//! (list a directory, read a file, fetch a picture, ask for the background
//! that is set, look whether a file is there, write a file) and takes the
//! outcome of the action before as an event. The candidates are tried in
//! their order, and the first that passes every check is the result.

use crate::configuration::Configuration;
use crate::configuration::ConfigurationView;
use crate::image::header_of;
use crate::image::usable;
use crate::cache::cached_at;
use crate::cache::is_cache_hit;
use crate::cache::lemma_cached_at;
use crate::cache::texts;
use crate::filename::join;
use crate::filename::path_in;
use crate::wallpaper::views;
use crate::wallpaper::Wallpaper;
use crate::wallpaper::WallpaperView;
use vstd::prelude::*;

verus! {

/// What the machine waits for.
#[derive(Debug, Copy, Clone, PartialEq, Eq, Structural)]
pub enum Phase {
    /// The names of the files in the directory in which pictures are kept.
    Listing,
    /// The bytes of the file in which the candidate was found.
    Reading,
    /// The picture of the candidate, from its address.
    Downloading,
    /// The path of the background that is set now.
    Checking,
    /// Whether the file of the candidate is there already.
    Probing,
    /// The outcome of writing the file of the candidate.
    Writing,
    /// Nothing: the search is over.
    Done,
}

/// What the driver is asked to do next.
#[derive(Debug, PartialEq, Eq)]
pub enum Action {
    /// List the names of the regular files that lie directly in `dir`.
    ListDirectory { dir: String },
    /// Read the bytes of the file at `path`.
    ReadFile { path: String },
    /// Fetch the bytes behind the address `url`.
    Download { url: String },
    /// Ask for the path of the background that is set now.
    QueryBackground,
    /// Look whether there is a regular file at `path`.
    Probe { path: String },
    /// Make the directory `dir` where it is missing, and write `data` to a new
    /// file at `path`.
    Write { dir: String, path: String, data: Vec<u8> },
    /// Stop: the search is over, with the wallpaper that was found, if any.
    Finish(Option<Wallpaper>),
}

/// The outcome of the action before.
#[derive(Debug, PartialEq, Eq)]
pub enum Event {
    /// The names of the files in the directory, in the order in which it hands
    /// them out, or `None` where it cannot be read.
    Entries(Option<Vec<String>>),
    /// The bytes of the file, or `None` where it cannot be read.
    Contents(Option<Vec<u8>>),
    /// The bytes behind the address, or why they could not be fetched.
    Response(Result<Vec<u8>, String>),
    /// The path of the background that is set now, or `None` where it is
    /// unknown.
    Background(Option<String>),
    /// Whether the file is there.
    Exists(bool),
    /// Whether the file was written, or why not.
    Written(Result<(), String>),
}

/// The mathematical value of an `Action`.
pub ghost enum ActionView {
    ListDirectory { dir: Seq<char> },
    ReadFile { path: Seq<char> },
    Download { url: Seq<char> },
    QueryBackground,
    Probe { path: Seq<char> },
    Write { dir: Seq<char>, path: Seq<char>, data: Seq<u8> },
    Finish(Option<WallpaperView>),
}

/// The mathematical value of an `Event`.
pub ghost enum EventView {
    Entries(Option<Seq<Seq<char>>>),
    Contents(Option<Seq<u8>>),
    Response(Result<Seq<u8>, Seq<char>>),
    Background(Option<Seq<char>>),
    Exists(bool),
    Written(Result<(), Seq<char>>),
}

impl View for Action {
    type V = ActionView;

    open spec fn view(&self) -> ActionView {
        match self {
            Action::ListDirectory { dir } => ActionView::ListDirectory { dir: dir@ },
            Action::ReadFile { path } => ActionView::ReadFile { path: path@ },
            Action::Download { url } => ActionView::Download { url: url@ },
            Action::QueryBackground => ActionView::QueryBackground,
            Action::Probe { path } => ActionView::Probe { path: path@ },
            Action::Write { dir, path, data } => ActionView::Write {
                dir: dir@,
                path: path@,
                data: data@,
            },
            Action::Finish(Some(wallpaper)) => ActionView::Finish(Some(wallpaper@)),
            Action::Finish(None) => ActionView::Finish(None),
        }
    }
}

impl View for Event {
    type V = EventView;

    open spec fn view(&self) -> EventView {
        match self {
            Event::Entries(Some(names)) => EventView::Entries(Some(texts(names@))),
            Event::Entries(None) => EventView::Entries(None),
            Event::Contents(Some(data)) => EventView::Contents(Some(data@)),
            Event::Contents(None) => EventView::Contents(None),
            Event::Response(Ok(data)) => EventView::Response(Ok(data@)),
            Event::Response(Err(reason)) => EventView::Response(Err(reason@)),
            Event::Background(Some(path)) => EventView::Background(Some(path@)),
            Event::Background(None) => EventView::Background(None),
            Event::Exists(there) => EventView::Exists(*there),
            Event::Written(Ok(_)) => EventView::Written(Ok(())),
            Event::Written(Err(reason)) => EventView::Written(Err(reason@)),
        }
    }
}

impl EventView {
    /// Whether this event is the outcome of the action that the machine waits
    /// for in the given phase.
    pub open spec fn answers(self, phase: Phase) -> bool {
        match (phase, self) {
            (Phase::Listing, EventView::Entries(_)) => true,
            (Phase::Reading, EventView::Contents(_)) => true,
            (Phase::Downloading, EventView::Response(_)) => true,
            (Phase::Checking, EventView::Background(_)) => true,
            (Phase::Probing, EventView::Exists(_)) => true,
            (Phase::Writing, EventView::Written(_)) => true,
            _ => false,
        }
    }
}

/// The mathematical value of a `Selection`.
pub ghost struct SelectionView {
    /// The configuration of the run.
    pub config: ConfigurationView,
    /// The candidates, as the feed offered them.
    pub candidates: Seq<WallpaperView>,
    /// The place of the candidate that is tried now.
    pub index: nat,
    /// What the machine waits for.
    pub phase: Phase,
    /// The candidate that is tried now, with what is known of it so far.
    pub current: Option<WallpaperView>,
    /// Whether the candidate that is tried now was found on disk.
    pub cached: bool,
    /// The bytes of the candidate that is tried now, once they are fetched.
    pub data: Seq<u8>,
}

impl SelectionView {
    /// While the search goes on there is a candidate that is tried.
    pub open spec fn wf(self) -> bool {
        self.phase != Phase::Done ==> self.index < self.candidates.len() && self.current is Some
    }

    /// The machine as it turns to the candidate at `index`, or ends the
    /// search without a result where there is none.
    pub open spec fn turn_to(self, index: nat) -> (SelectionView, ActionView) {
        if index < self.candidates.len() {
            (
                SelectionView {
                    index,
                    phase: Phase::Listing,
                    current: Some(self.candidates[index as int]),
                    cached: false,
                    data: Seq::empty(),
                    ..self
                },
                ActionView::ListDirectory { dir: self.config.output_dir },
            )
        } else {
            (
                SelectionView {
                    index: self.candidates.len(),
                    phase: Phase::Done,
                    current: None,
                    cached: false,
                    data: Seq::empty(),
                    ..self
                },
                ActionView::Finish(None),
            )
        }
    }

    /// The machine as it gives the candidate up and turns to the next.
    pub open spec fn reject(self) -> (SelectionView, ActionView) {
        self.turn_to(self.index + 1)
    }

    /// The machine as it ends the search with `wallpaper` as the result.
    pub open spec fn accept(self, wallpaper: WallpaperView) -> (SelectionView, ActionView) {
        (
            SelectionView { phase: Phase::Done, current: None, data: Seq::empty(), ..self },
            ActionView::Finish(Some(wallpaper)),
        )
    }

    /// The machine once the size of `wallpaper`, the candidate, is known or
    /// known to be out of reach: it goes on to ask for the background that is
    /// set where the picture meets the configuration, and gives the
    /// candidate up where it does not.
    pub open spec fn judge(self, wallpaper: WallpaperView) -> (SelectionView, ActionView) {
        if wallpaper.meets(self.config) {
            (
                SelectionView { phase: Phase::Checking, current: Some(wallpaper), ..self },
                ActionView::QueryBackground,
            )
        } else {
            self.reject()
        }
    }

    /// The machine at the start of the search.
    pub open spec fn begin(config: ConfigurationView, candidates: Seq<WallpaperView>) -> (
        SelectionView,
        ActionView,
    ) {
        (SelectionView {
            config,
            candidates,
            index: 0,
            phase: Phase::Done,
            current: None,
            cached: false,
            data: Seq::empty(),
        }).turn_to(0)
    }

    /// The next state of the machine, and the action that it asks for, once
    /// the event has come in. Of an event that does not answer the phase this
    /// says nothing of use: the machine takes no such event.
    pub open spec fn next(self, event: EventView) -> (SelectionView, ActionView) {
        let current = self.current->0;
        let dir = self.config.output_dir;
        match (self.phase, event) {
            (Phase::Listing, EventView::Entries(names)) => {
                let found = match names {
                    Some(names) => match cached_at(names, current.filename()) {
                        Some(at) => Some(path_in(dir, names[at])),
                        None => None,
                    },
                    None => None,
                };
                match found {
                    Some(path) => (
                        SelectionView {
                            phase: Phase::Reading,
                            current: Some(current.kept_in(path)),
                            cached: true,
                            ..self
                        },
                        ActionView::ReadFile { path },
                    ),
                    None => (
                        SelectionView { phase: Phase::Downloading, ..self },
                        ActionView::Download { url: current.url },
                    ),
                }
            },
            (Phase::Reading, EventView::Contents(data)) => match data {
                Some(data) => self.judge(current.with_header(header_of(data))),
                None => self.judge(current),
            },
            (Phase::Downloading, EventView::Response(response)) => match response {
                Ok(data) => if usable(header_of(data)) {
                    (SelectionView { data, ..self }).judge(current.with_header(header_of(data)))
                } else {
                    self.reject()
                },
                Err(_) => self.reject(),
            },
            (Phase::Checking, EventView::Background(active)) => {
                if current.is_current(active) {
                    self.reject()
                } else if self.cached {
                    self.accept(current)
                } else {
                    (
                        SelectionView { phase: Phase::Probing, ..self },
                        ActionView::Probe { path: current.path_in(dir) },
                    )
                }
            },
            (Phase::Probing, EventView::Exists(there)) => {
                if there {
                    self.accept(current.kept_in(current.path_in(dir)))
                } else {
                    (
                        SelectionView { phase: Phase::Writing, data: Seq::empty(), ..self },
                        ActionView::Write { dir, path: current.path_in(dir), data: self.data },
                    )
                }
            },
            (Phase::Writing, EventView::Written(outcome)) => match outcome {
                Ok(_) => self.accept(current.kept_in(current.path_in(dir))),
                Err(_) => self.reject(),
            },
            _ => (self, ActionView::Finish(None)),
        }
    }
}

impl SelectionView {
    /// What holds of every state that the machine reaches: while the search
    /// goes on, the candidate that is tried is the one at `index` of the list,
    /// with what has been learnt of it; it has passed the checks that lie
    /// behind the phase; and a candidate that was found on disk has its file.
    pub open spec fn inv(self) -> bool {
        &&& self.wf()
        &&& self.phase != Phase::Done ==> {
            &&& self.current->0.title == self.candidates[self.index as int].title
            &&& self.current->0.url == self.candidates[self.index as int].url
            &&& self.cached ==> self.current->0.file is Some
            &&& self.candidates[self.index as int].wf() ==> self.current->0.wf()
        }
        &&& self.phase == Phase::Listing || self.phase == Phase::Downloading ==> !self.cached
        &&& self.phase == Phase::Checking || self.phase == Phase::Probing || self.phase
            == Phase::Writing ==> self.current->0.meets(self.config)
        &&& self.phase == Phase::Probing || self.phase == Phase::Writing ==> !self.cached
    }

    /// Whether the machine, fed the events one by one, asks at some step to
    /// fetch the picture of the candidate at `index`. Feeding stops at the
    /// first event that does not answer the phase.
    pub open spec fn fetches(self, events: Seq<EventView>, index: nat) -> bool
        decreases events.len(),
    {
        if events.len() == 0 || !events.first().answers(self.phase) {
            false
        } else {
            let (after, action) = self.next(events.first());
            (action is Download && after.index == index) || after.fetches(
                events.drop_first(),
                index,
            )
        }
    }

    /// Whether the machine is through with fetching for the candidate at
    /// `index`: it tries a later one, or the search is over, or the candidate
    /// was found on disk and is being read or checked.
    pub open spec fn settled(self, index: nat) -> bool {
        ||| self.index > index
        ||| self.phase == Phase::Done
        ||| self.index == index && self.cached && (self.phase == Phase::Reading || self.phase
            == Phase::Checking)
    }
}

/// The start of a search is a state of the machine in good order.
pub proof fn lemma_begin_inv(config: ConfigurationView, candidates: Seq<WallpaperView>)
    ensures
        SelectionView::begin(config, candidates).0.inv(),
{
}

/// A step keeps the machine in good order. It stays with the candidate that
/// is tried, or turns to the one that follows it in the list: the candidates
/// are tried in their order, none is passed over and none is tried again.
pub proof fn lemma_next_inv(state: SelectionView, event: EventView)
    requires
        state.inv(),
        event.answers(state.phase),
    ensures
        ({
            let after = state.next(event).0;
            &&& after.inv()
            &&& after.config == state.config
            &&& after.candidates == state.candidates
            &&& after.index == state.index || after.index == state.index + 1
            &&& after.index == state.index ==> after.phase != Phase::Listing
            &&& after.index == state.index + 1 ==> after.phase == Phase::Listing || after.phase
                == Phase::Done
        }),
{
}

/// Whatever the search ends with is one of the candidates, at the place at
/// which the machine stood; its picture meets the configuration, and it has a
/// file. And the search ends at once: the machine waits for nothing more.
pub proof fn lemma_result_is_acceptable(
    state: SelectionView,
    event: EventView,
    wallpaper: WallpaperView,
)
    requires
        state.inv(),
        event.answers(state.phase),
        state.next(event).1 == ActionView::Finish(Some(wallpaper)),
    ensures
        wallpaper.meets(state.config),
        wallpaper.file is Some,
        wallpaper.title == state.candidates[state.index as int].title,
        wallpaper.url == state.candidates[state.index as int].url,
        state.candidates[state.index as int].wf() ==> wallpaper.wf(),
        state.next(event).0.phase == Phase::Done,
        event is Background ==> !wallpaper.is_current(event->Background_0),
{
}

/// A candidate that is the background that is set already is given up,
/// however well it meets the configuration.
pub proof fn lemma_current_background_is_rejected(state: SelectionView, active: Option<Seq<char>>)
    requires
        state.inv(),
        state.phase == Phase::Checking,
        state.current->0.is_current(active),
    ensures
        state.next(EventView::Background(active)) == state.reject(),
        !(state.next(EventView::Background(active)).1 is Finish && state.next(
            EventView::Background(active),
        ).1->Finish_0 is Some),
{
}

impl Phase {
    /// How far a phase lies behind the listing of the directory, with which
    /// every candidate begins.
    pub open spec fn rank(self) -> nat {
        match self {
            Phase::Listing => 0,
            Phase::Reading => 1,
            Phase::Downloading => 1,
            Phase::Checking => 2,
            Phase::Probing => 3,
            Phase::Writing => 4,
            Phase::Done => 5,
        }
    }
}

impl ActionView {
    /// Whether this is an action for whose outcome the machine waits in the
    /// given phase.
    pub open spec fn asked_in(self, phase: Phase) -> bool {
        match (self, phase) {
            (ActionView::ListDirectory { .. }, Phase::Listing) => true,
            (ActionView::ReadFile { .. }, Phase::Reading) => true,
            (ActionView::Download { .. }, Phase::Downloading) => true,
            (ActionView::QueryBackground, Phase::Checking) => true,
            (ActionView::Probe { .. }, Phase::Probing) => true,
            (ActionView::Write { .. }, Phase::Writing) => true,
            (ActionView::Finish(_), Phase::Done) => true,
            _ => false,
        }
    }
}

impl SelectionView {
    /// A bound on the number of steps that the machine can still take: five
    /// for the candidate that is tried, less those that lie behind it, and
    /// five for each candidate that follows.
    pub open spec fn steps_left(self) -> nat {
        if self.phase == Phase::Done || self.index >= self.candidates.len() {
            0
        } else {
            ((self.candidates.len() - self.index) * 5 - self.phase.rank()) as nat
        }
    }
}

/// Every step brings the machine nearer to its end, and the action that it
/// asks for is one for whose outcome it then waits.
pub proof fn lemma_step_makes_progress(state: SelectionView, event: EventView)
    requires
        state.inv(),
        event.answers(state.phase),
    ensures
        state.next(event).0.steps_left() < state.steps_left(),
        state.next(event).1.asked_in(state.next(event).0.phase),
{
    let after = state.next(event).0;
    let left = state.candidates.len() - state.index;
    assert(left * 5 >= 5) by (nonlinear_arith)
        requires
            left >= 1,
    ;
    if after.index == state.index + 1 && after.phase != Phase::Done {
        assert((left - 1) * 5 == left * 5 - 5) by (nonlinear_arith);
    }
}

/// Keeping a picture that is on disk already is keeping it once more without
/// writing: where the file is there, the machine asks for nothing to be
/// written and ends with the same wallpaper, under the same path, with which
/// it ends where the file was missing and has been written.
pub proof fn lemma_persisting_is_idempotent(state: SelectionView)
    requires
        state.inv(),
        state.phase == Phase::Probing,
    ensures
        ({
            let there = state.next(EventView::Exists(true));
            let missing = state.next(EventView::Exists(false));
            let written = missing.0.next(EventView::Written(Ok(())));
            let kept = state.current->0.kept_in(state.current->0.path_in(state.config.output_dir));
            &&& there.1 == ActionView::Finish(Some(kept))
            &&& missing.1 == (ActionView::Write {
                dir: state.config.output_dir,
                path: state.current->0.path_in(state.config.output_dir),
                data: state.data,
            })
            &&& written.1 == there.1
        }),
{
}

/// A candidate that was found on disk is neither fetched nor written: while
/// the machine is with it, it asks for no picture from the network, does not
/// look for the file under its own name, and writes no file. It stays with a
/// candidate that was found on disk until it ends or turns to the next.
pub proof fn lemma_found_on_disk_is_left_as_it_is(state: SelectionView, event: EventView)
    requires
        state.inv(),
        state.cached,
        event.answers(state.phase),
    ensures
        ({
            let (after, asked) = state.next(event);
            &&& !(asked is Download)
            &&& !(asked is Probe)
            &&& !(asked is Write)
            &&& after.index == state.index && after.phase != Phase::Done ==> after.cached
            &&& asked matches ActionView::Finish(Some(wallpaper)) ==> wallpaper.file
                == state.current->0.file
        }),
{
}

/// Once the machine is through with fetching for a candidate, it never asks
/// to fetch that candidate's picture, whatever events come in.
pub proof fn lemma_settled_never_fetches(state: SelectionView, events: Seq<EventView>, index: nat)
    requires
        state.inv(),
        state.settled(index),
    ensures
        !state.fetches(events, index),
    decreases events.len(),
{
    if events.len() > 0 && events.first().answers(state.phase) {
        let (after, action) = state.next(events.first());
        lemma_next_inv(state, events.first());
        lemma_settled_never_fetches(after, events.drop_first(), index);
    }
}

/// A candidate that is found on disk is never fetched: where the directory
/// holds a file whose name begins with the file name of the candidate, the
/// machine asks to read that file, and whatever events follow, it does not
/// ask to fetch the candidate's picture.
pub proof fn lemma_found_on_disk_is_not_fetched(
    state: SelectionView,
    names: Seq<Seq<char>>,
    at: int,
    events: Seq<EventView>,
)
    requires
        state.inv(),
        state.phase == Phase::Listing,
        is_cache_hit(names, state.current->0.filename(), at),
    ensures
        state.next(EventView::Entries(Some(names))).1 == (ActionView::ReadFile {
            path: path_in(state.config.output_dir, names[at]),
        }),
        !state.next(EventView::Entries(Some(names))).0.fetches(events, state.index),
        !state.fetches(seq![EventView::Entries(Some(names))] + events, state.index),
{
    let listing = EventView::Entries(Some(names));
    lemma_cached_at(names, state.current->0.filename(), at);
    lemma_next_inv(state, listing);
    let after = state.next(listing).0;
    lemma_settled_never_fetches(after, events, state.index);
    assert((seq![listing] + events).drop_first() =~= events);
}

/// The state of the machine. That it is in good order is for `Selection` to
/// keep, which holds it.
struct Search {
    config: Configuration,
    candidates: Vec<Wallpaper>,
    index: usize,
    phase: Phase,
    current: Option<Wallpaper>,
    cached: bool,
    data: Vec<u8>,
}

impl View for Search {
    type V = SelectionView;

    closed spec fn view(&self) -> SelectionView {
        SelectionView {
            config: self.config@,
            candidates: views(self.candidates@),
            index: self.index as nat,
            phase: self.phase,
            current: match self.current {
                Some(wallpaper) => Some(wallpaper@),
                None => None,
            },
            cached: self.cached,
            data: self.data@,
        }
    }
}

impl Search {
    fn start(config: Configuration, candidates: Vec<Wallpaper>) -> (r: (Search, Action))
        ensures
            (r.0@, r.1@) == SelectionView::begin(config@, views(candidates@)),
            r.0@.wf(),
    {
        let selection = Search {
            config,
            candidates,
            index: 0,
            phase: Phase::Done,
            current: None,
            cached: false,
            data: Vec::new(),
        };
        selection.turn_to(0)
    }

    fn turn_to(self, index: usize) -> (r: (Search, Action))
        ensures
            (r.0@, r.1@) == self@.turn_to(index as nat),
            r.0@.wf(),
    {
        if index < self.candidates.len() {
            let current = self.candidates[index].clone();
            let dir = self.config.output_dir.clone();
            (
                Search {
                    config: self.config,
                    candidates: self.candidates,
                    index,
                    phase: Phase::Listing,
                    current: Some(current),
                    cached: false,
                    data: Vec::new(),
                },
                Action::ListDirectory { dir },
            )
        } else {
            let end: usize = self.candidates.len();
            (
                Search {
                    config: self.config,
                    candidates: self.candidates,
                    index: end,
                    phase: Phase::Done,
                    current: None,
                    cached: false,
                    data: Vec::new(),
                },
                Action::Finish(None),
            )
        }
    }

    fn reject(self) -> (r: (Search, Action))
        requires
            self@.index < self@.candidates.len(),
        ensures
            (r.0@, r.1@) == self@.reject(),
            r.0@.wf(),
    {
        let index: usize = self.index;
        let total: usize = self.candidates.len();
        assert(index < total);
        self.turn_to(index + 1)
    }

    fn accept(self, wallpaper: Wallpaper) -> (r: (Search, Action))
        ensures
            (r.0@, r.1@) == self@.accept(wallpaper@),
            r.0@.wf(),
    {
        (
            Search {
                config: self.config,
                candidates: self.candidates,
                index: self.index,
                phase: Phase::Done,
                current: None,
                cached: self.cached,
                data: Vec::new(),
            },
            Action::Finish(Some(wallpaper)),
        )
    }

    fn judge(self, wallpaper: Wallpaper) -> (r: (Search, Action))
        requires
            self@.index < self@.candidates.len(),
        ensures
            (r.0@, r.1@) == self@.judge(wallpaper@),
            r.0@.wf(),
    {
        if wallpaper.meets(&self.config) {
            (
                Search {
                    config: self.config,
                    candidates: self.candidates,
                    index: self.index,
                    phase: Phase::Checking,
                    current: Some(wallpaper),
                    cached: self.cached,
                    data: self.data,
                },
                Action::QueryBackground,
            )
        } else {
            self.reject()
        }
    }

    fn step(self, event: Event) -> (r: (Search, Action))
        requires
            self@.wf(),
            event@.answers(self@.phase),
        ensures
            (r.0@, r.1@) == self@.next(event@),
            r.0@.wf(),
    {
        let mut selection = self;
        let mut current = match selection.current.take() {
            Some(current) => current,
            None => {
                return (selection, Action::Finish(None));
            },
        };
        match event {
            Event::Entries(names) => {
                let found = match names {
                    Some(names) => {
                        match current.update_state(selection.config.output_dir.as_str(), &names) {
                            Some(at) => {
                                proof {
                                    let name = self@.current->0.filename();
                                    lemma_cached_at(texts(names@), name, at as int);
                                }
                                true
                            },
                            None => false,
                        }
                    },
                    None => false,
                };
                if found {
                    let path = match &current.file {
                        Some(path) => path.clone(),
                        None => String::new(),
                    };
                    selection.phase = Phase::Reading;
                    selection.cached = true;
                    selection.current = Some(current);
                    (selection, Action::ReadFile { path })
                } else {
                    let url = current.url.clone();
                    selection.phase = Phase::Downloading;
                    selection.current = Some(current);
                    (selection, Action::Download { url })
                }
            },
            Event::Contents(data) => {
                match data {
                    Some(data) => {
                        let _ = current.update_with_image_data(data.as_slice());
                    },
                    None => {},
                }
                selection.current = None;
                selection.judge(current)
            },
            Event::Response(response) => match current.download(response) {
                Ok(data) => {
                    selection.data = data;
                    selection.judge(current)
                },
                Err(_) => selection.reject(),
            },
            Event::Background(active) => {
                let set_now = match &active {
                    Some(path) => current.is_current(Some(path.as_str())),
                    None => current.is_current(None),
                };
                if set_now {
                    selection.reject()
                } else if selection.cached {
                    selection.accept(current)
                } else {
                    let path = join(
                        selection.config.output_dir.as_str(),
                        current.construct_filename().as_str(),
                    );
                    selection.phase = Phase::Probing;
                    selection.current = Some(current);
                    (selection, Action::Probe { path })
                }
            },
            Event::Exists(there) => {
                if there {
                    let _ = current.save(selection.config.output_dir.as_str(), Ok(()));
                    selection.accept(current)
                } else {
                    let dir = selection.config.output_dir.clone();
                    let path = join(dir.as_str(), current.construct_filename().as_str());
                    let mut data: Vec<u8> = Vec::new();
                    std::mem::swap(&mut data, &mut selection.data);
                    selection.phase = Phase::Writing;
                    selection.current = Some(current);
                    (selection, Action::Write { dir, path, data })
                }
            },
            Event::Written(outcome) => {
                match current.save(selection.config.output_dir.as_str(), outcome) {
                    Ok(_) => selection.accept(current),
                    Err(_) => selection.reject(),
                }
            },
        }
    }
}

/// The search for one wallpaper among the candidates.
pub struct Selection {
    search: Search,
}

impl View for Selection {
    type V = SelectionView;

    closed spec fn view(&self) -> SelectionView {
        self.search@
    }
}

impl Selection {
    /// The machine is in good order.
    #[verifier::type_invariant]
    closed spec fn in_order(self) -> bool {
        self.search@.inv()
    }

    /// Starts the search among the candidates, which are tried in their
    /// order. The first action is to list the directory in which pictures are
    /// kept, or to stop where there is no candidate.
    pub fn start(config: Configuration, candidates: Vec<Wallpaper>) -> (r: (Selection, Action))
        ensures
            (r.0@, r.1@) == SelectionView::begin(config@, views(candidates@)),
            r.0@.inv(),
    {
        let (search, action) = Search::start(config, candidates);
        proof {
            lemma_begin_inv(config@, views(candidates@));
        }
        (Selection { search }, action)
    }

    /// What the machine waits for.
    pub fn phase(&self) -> (phase: Phase)
        ensures
            phase == self@.phase,
    {
        self.search.phase
    }

    /// Whether the event is the outcome of the action that the machine waits
    /// for.
    pub fn awaits(&self, event: &Event) -> (r: bool)
        ensures
            r == event@.answers(self@.phase),
    {
        match (self.search.phase, event) {
            (Phase::Listing, Event::Entries(_)) => true,
            (Phase::Reading, Event::Contents(_)) => true,
            (Phase::Downloading, Event::Response(_)) => true,
            (Phase::Checking, Event::Background(_)) => true,
            (Phase::Probing, Event::Exists(_)) => true,
            (Phase::Writing, Event::Written(_)) => true,
            _ => false,
        }
    }

    /// Takes the outcome of the action that the machine asked for, and hands
    /// out the next action. The event has to answer the phase: `awaits` tells
    /// whether it does.
    pub fn step(self, event: Event) -> (r: (Selection, Action))
        requires
            event@.answers(self@.phase),
        ensures
            (r.0@, r.1@) == self@.next(event@),
            r.0@.inv(),
    {
        proof {
            use_type_invariant(&self);
            lemma_next_inv(self@, event@);
        }
        let (search, action) = self.search.step(event);
        (Selection { search }, action)
    }

    /// Takes an event where it is the outcome of the action that the machine
    /// asked for, as `step` does. Any other event is refused, and the machine
    /// comes back as it was.
    pub fn try_step(self, event: Event) -> (r: Result<(Selection, Action), Selection>)
        ensures
            match r {
                Ok(stepped) => event@.answers(self@.phase) && (stepped.0@, stepped.1@)
                    == self@.next(event@) && stepped.0@.inv(),
                Err(same) => !event@.answers(self@.phase) && same@ == self@,
            },
    {
        if self.awaits(&event) {
            Ok(self.step(event))
        } else {
            Err(self)
        }
    }
}

} // verus!
