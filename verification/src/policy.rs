//! What the search finds, said without the machine: the first candidate, in
//! the order of the list, that is found on disk or can be fetched, whose
//! picture meets the configuration, that is not the background already, and
//! that is on disk in the end. The machine of [`crate::selection`] finds
//! exactly that, in a world that answers the same question the same way.

use crate::cache::cached_at;
use crate::cache::is_cache_hit;
use crate::cache::lemma_cached_at;
use crate::configuration::ConfigurationView;
use crate::filename::path_in;
use crate::image::header_of;
use crate::image::usable;
use crate::selection::lemma_next_inv;
use crate::selection::lemma_step_makes_progress;
use crate::selection::ActionView;
use crate::selection::EventView;
use crate::selection::Phase;
use crate::selection::SelectionView;
use crate::wallpaper::WallpaperView;
use vstd::prelude::*;

verus! {

/// What lies outside the search, as far as the search can tell: what each
/// action would find. It is the same whenever it is asked: nothing but the
/// search touches the directory while the search runs.
pub ghost struct World {
    /// The names of the files in a directory, or `None` where it cannot be
    /// read.
    pub entries: spec_fn(Seq<char>) -> Option<Seq<Seq<char>>>,
    /// The bytes of the file at a path, or `None` where it cannot be read.
    pub contents: spec_fn(Seq<char>) -> Option<Seq<u8>>,
    /// The bytes behind an address, or why they cannot be fetched.
    pub pictures: spec_fn(Seq<char>) -> Result<Seq<u8>, Seq<char>>,
    /// The path of the background that is set, or `None` where it is unknown.
    pub background: Option<Seq<char>>,
    /// Whether there is a regular file at a path.
    pub present: spec_fn(Seq<char>) -> bool,
    /// Whether bytes can be written to a path in a directory, or why not.
    pub written: spec_fn(Seq<char>, Seq<char>, Seq<u8>) -> Result<(), Seq<char>>,
}

impl World {
    /// The outcome of an action in this world.
    pub open spec fn answer(self, action: ActionView) -> EventView {
        match action {
            ActionView::ListDirectory { dir } => EventView::Entries((self.entries)(dir)),
            ActionView::ReadFile { path } => EventView::Contents((self.contents)(path)),
            ActionView::Download { url } => EventView::Response((self.pictures)(url)),
            ActionView::QueryBackground => EventView::Background(self.background),
            ActionView::Probe { path } => EventView::Exists((self.present)(path)),
            ActionView::Write { dir, path, data } => EventView::Written(
                (self.written)(dir, path, data),
            ),
            ActionView::Finish(_) => EventView::Exists(false),
        }
    }

    /// What becomes of one candidate in this world: the wallpaper as the
    /// search would hand it out, or `None` where the search would give the
    /// candidate up.
    ///
    /// A candidate that is found on disk is read there and never fetched; it
    /// passes where its picture meets the configuration and it is not the
    /// background. A candidate that is not found is fetched; it passes where
    /// its picture can be fetched, is in a format that can serve, meets the
    /// configuration, is not the background, and is on disk already or can
    /// be written.
    pub open spec fn verdict(self, config: ConfigurationView, candidate: WallpaperView) -> Option<
        WallpaperView,
    > {
        let dir = config.output_dir;
        let found = match (self.entries)(dir) {
            Some(names) => match cached_at(names, candidate.filename()) {
                Some(at) => Some(path_in(dir, names[at])),
                None => None,
            },
            None => None,
        };
        match found {
            Some(path) => {
                let kept = candidate.kept_in(path);
                let seen = match (self.contents)(path) {
                    Some(data) => kept.with_header(header_of(data)),
                    None => kept,
                };
                if seen.meets(config) && !seen.is_current(self.background) {
                    Some(seen)
                } else {
                    None
                }
            },
            None => match (self.pictures)(candidate.url) {
                Ok(data) => {
                    let seen = candidate.with_header(header_of(data));
                    let path = seen.path_in(dir);
                    if usable(header_of(data)) && seen.meets(config) && !seen.is_current(
                        self.background,
                    ) && ((self.present)(path) || (self.written)(dir, path, data) is Ok) {
                        Some(seen.kept_in(path))
                    } else {
                        None
                    }
                },
                Err(_) => None,
            },
        }
    }

    /// The first of the candidates from the place `from` on that passes, as
    /// the search would hand it out, or `None` where none of them passes.
    pub open spec fn first_accepted(
        self,
        config: ConfigurationView,
        candidates: Seq<WallpaperView>,
        from: nat,
    ) -> Option<WallpaperView>
        decreases candidates.len() - from,
    {
        if from >= candidates.len() {
            None
        } else {
            match self.verdict(config, candidates[from as int]) {
                Some(wallpaper) => Some(wallpaper),
                None => self.first_accepted(config, candidates, from + 1),
            }
        }
    }

    /// What the machine ends with where it starts in `state`, has asked for
    /// `action`, and every action that it asks for is answered by this world.
    pub open spec fn found(self, state: SelectionView, action: ActionView) -> Option<WallpaperView>
        decreases state.steps_left(),
    {
        if action is Finish {
            action->Finish_0
        } else if state.inv() && action.asked_in(state.phase) {
            let event = self.answer(action);
            let (after, asked) = state.next(event);
            proof {
                lemma_step_makes_progress(state, event);
            }
            self.found(after, asked)
        } else {
            None
        }
    }

    /// The actions that the machine asks for, one after the other, where it
    /// starts in `state`, has asked for `action`, and every action is
    /// answered by this world. The last of them ends the search.
    pub open spec fn actions(self, state: SelectionView, action: ActionView) -> Seq<ActionView>
        decreases state.steps_left(),
    {
        if !(action is Finish) && state.inv() && action.asked_in(state.phase) {
            let event = self.answer(action);
            let (after, asked) = state.next(event);
            proof {
                lemma_step_makes_progress(state, event);
            }
            seq![action] + self.actions(after, asked)
        } else {
            seq![action]
        }
    }
}

/// A candidate that passes has passed every check: as it is handed out it is
/// the candidate with what was learnt of it, its picture meets the
/// configuration, it is not the background that is set, and it has a file.
pub proof fn lemma_verdict_passes(
    world: World,
    config: ConfigurationView,
    candidate: WallpaperView,
    wallpaper: WallpaperView,
)
    requires
        world.verdict(config, candidate) == Some(wallpaper),
    ensures
        wallpaper.title == candidate.title,
        wallpaper.url == candidate.url,
        wallpaper.meets(config),
        !wallpaper.is_current(world.background),
        wallpaper.file is Some,
        candidate.wf() ==> wallpaper.wf(),
{
}

/// The first candidate that passes is the first: every candidate before it
/// is given up. Where none is handed out, every candidate is given up.
pub proof fn lemma_first_accepted_is_first(
    world: World,
    config: ConfigurationView,
    candidates: Seq<WallpaperView>,
    from: nat,
)
    ensures
        match world.first_accepted(config, candidates, from) {
            Some(wallpaper) => exists|at: int|
                {
                    &&& from <= at < candidates.len()
                    &&& #[trigger] world.verdict(config, candidates[at]) == Some(wallpaper)
                    &&& forall|before: int|
                        from <= before < at ==> world.verdict(
                            config,
                            #[trigger] candidates[before],
                        ) is None
                },
            None => forall|at: int|
                from <= at < candidates.len() ==> world.verdict(config, #[trigger] candidates[at])
                    is None,
        },
    decreases candidates.len() - from,
{
    if from < candidates.len() {
        lemma_first_accepted_is_first(world, config, candidates, from + 1);
        match world.verdict(config, candidates[from as int]) {
            Some(wallpaper) => {
                // The candidate at `from` is the first, with none before it.
                assert(world.verdict(config, candidates[from as int]) == Some(wallpaper));
            },
            None => {
                // The first from `from + 1` on is the first from `from` on.
            },
        }
    }
}

/// Where the feed offers nothing, the search asks nothing of the world and
/// finds nothing.
pub proof fn lemma_nothing_offered_nothing_found(world: World, config: ConfigurationView)
    ensures
        SelectionView::begin(config, Seq::empty()).1 == ActionView::Finish(None),
        world.found(
            SelectionView::begin(config, Seq::empty()).0,
            SelectionView::begin(config, Seq::empty()).1,
        ) is None,
{
}

/// A candidate that lies on disk is the result as it lies there. Where the
/// directory holds a file whose name begins with the file name of the only
/// candidate, the file can be read, and the picture in it meets the
/// configuration and is not the background, the search asks to list the
/// directory, to read that file and for the background, and ends. It fetches
/// nothing and writes nothing. The result is the candidate with its title and
/// address, with the path of the file that was there, and with the format and
/// the size that the bytes of the file tell.
pub proof fn lemma_found_on_disk_is_the_result(
    world: World,
    config: ConfigurationView,
    candidate: WallpaperView,
    names: Seq<Seq<char>>,
    at: int,
    data: Seq<u8>,
)
    requires
        candidate == WallpaperView::fresh(candidate.title, candidate.url),
        (world.entries)(config.output_dir) == Some(names),
        is_cache_hit(names, candidate.filename(), at),
        (world.contents)(path_in(config.output_dir, names[at])) == Some(data),
        candidate.with_header(header_of(data)).meets(config),
        !candidate.with_header(header_of(data)).is_current(world.background),
    ensures
        ({
            let path = path_in(config.output_dir, names[at]);
            let (start, asked) = SelectionView::begin(config, seq![candidate]);
            let result = candidate.with_header(header_of(data)).kept_in(path);
            &&& world.found(start, asked) == Some(result)
            &&& world.actions(start, asked) == seq![
                ActionView::ListDirectory { dir: config.output_dir },
                ActionView::ReadFile { path },
                ActionView::QueryBackground,
                ActionView::Finish(Some(result)),
            ]
            &&& result.title == candidate.title
            &&& result.url == candidate.url
            &&& result.file == Some(path)
            &&& usable(header_of(data))
            &&& header_of(data)->0.supported() == Some((result.format->0, result.dimensions->0))
            &&& result.wf()
        }),
{
    let path = path_in(config.output_dir, names[at]);
    let candidates = seq![candidate];
    lemma_cached_at(names, candidate.filename(), at);
    lemma_search_finds_the_first(world, config, candidates);
    assert(world.first_accepted(config, candidates, 1) is None);
    let (s0, a0) = SelectionView::begin(config, candidates);
    lemma_found_after_step(world, s0, a0);
    let (s1, a1) = s0.next(world.answer(a0));
    lemma_found_after_step(world, s1, a1);
    let (s2, a2) = s1.next(world.answer(a1));
    lemma_found_after_step(world, s2, a2);
    let (s3, a3) = s2.next(world.answer(a2));
    assert(world.actions(s3, a3) =~= seq![a3]);
    assert(world.actions(s2, a2) =~= seq![a2, a3]);
    assert(world.actions(s1, a1) =~= seq![a1, a2, a3]);
    assert(world.actions(s0, a0) =~= seq![a0, a1, a2, a3]);
}

/// One step of the machine in a world does not change what the machine ends
/// with.
proof fn lemma_found_after_step(world: World, state: SelectionView, action: ActionView)
    requires
        state.inv(),
        action.asked_in(state.phase),
        !(action is Finish),
    ensures
        ({
            let (after, asked) = state.next(world.answer(action));
            &&& world.found(state, action) == world.found(after, asked)
            &&& after.inv()
            &&& asked.asked_in(after.phase)
        }),
{
    let event = world.answer(action);
    lemma_next_inv(state, event);
    lemma_step_makes_progress(state, event);
}

/// From the moment at which the machine turns to the candidate at `index`,
/// it ends with the first candidate from there on that passes.
proof fn lemma_found_from(world: World, state: SelectionView, index: nat)
    ensures
        ({
            let (turned, asked) = state.turn_to(index);
            world.found(turned, asked) == world.first_accepted(
                state.config,
                state.candidates,
                index,
            )
        }),
    decreases state.candidates.len() - index,
{
    let (s0, a0) = state.turn_to(index);
    if index < state.candidates.len() {
        lemma_found_from(world, state, index + 1);
        lemma_found_after_step(world, s0, a0);
        let (s1, a1) = s0.next(world.answer(a0));
        if !(a1 is Finish) {
            lemma_found_after_step(world, s1, a1);
            let (s2, a2) = s1.next(world.answer(a1));
            if s2.index == index && !(a2 is Finish) {
                lemma_found_after_step(world, s2, a2);
                let (s3, a3) = s2.next(world.answer(a2));
                if s3.index == index && !(a3 is Finish) {
                    lemma_found_after_step(world, s3, a3);
                    let (s4, a4) = s3.next(world.answer(a3));
                    if s4.index == index && !(a4 is Finish) {
                        lemma_found_after_step(world, s4, a4);
                    }
                }
            }
        }
    }
}

/// The search finds the first candidate that passes: where every action of
/// the machine is answered by the same world, the machine ends with the
/// first candidate, in the order of the list, of which that world says that
/// it passes, and with nothing where the world says so of none.
pub proof fn lemma_search_finds_the_first(
    world: World,
    config: ConfigurationView,
    candidates: Seq<WallpaperView>,
)
    ensures
        ({
            let (start, asked) = SelectionView::begin(config, candidates);
            world.found(start, asked) == world.first_accepted(config, candidates, 0)
        }),
{
    let blank = SelectionView {
        config,
        candidates,
        index: 0,
        phase: Phase::Done,
        current: None,
        cached: false,
        data: Seq::empty(),
    };
    lemma_found_from(world, blank, 0);
}

} // verus!
