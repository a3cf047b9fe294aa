//! What a run is asked to do: the query, the constraints on the picture, and
//! where pictures are kept. Settings come from several sources, each of which
//! may leave a setting open; combined, they must make a configuration.

use crate::ratio::Ratio;
use crate::reddit::lemma_span_required;
use crate::reddit::Mode;
use crate::reddit::QueryFault;
use crate::text::copy_text;
use crate::text::lowercase;
use crate::text::optional_lowercase;
use crate::text::same_text;
use crate::text::text_view;
use vstd::prelude::*;

verus! {

/// The settings of one source. A setting that the source leaves open is `None`.
#[derive(Debug, PartialEq, Eq)]
pub struct Settings {
    pub mode: Option<Mode>,
    pub min_ratio: Option<Ratio>,
    pub max_ratio: Option<Ratio>,
    pub min_res: Option<Ratio>,
    pub query_size: Option<u8>,
    pub run_every: Option<String>,
    pub output_dir: Option<String>,
    pub random: Option<bool>,
    pub subreddit: Option<String>,
}

/// What the command line says, argument by argument, before it is read as
/// settings. Bounds and sizes are numbers already; mode, span and the random
/// switch are the texts that were typed.
#[derive(Debug, PartialEq, Eq)]
pub struct Arguments {
    pub mode: Option<String>,
    pub span: Option<String>,
    pub min_ratio: Option<Ratio>,
    pub max_ratio: Option<Ratio>,
    pub min_res: Option<Ratio>,
    pub query_size: Option<u8>,
    pub run_every: Option<String>,
    pub output_dir: Option<String>,
    /// The value that was given to the random switch, if any.
    pub random: Option<String>,
    /// Whether the random switch was given at all.
    pub random_given: bool,
    pub subreddit: Option<String>,
}

/// The settings of a run.
#[derive(Debug, PartialEq, Eq)]
pub struct Configuration {
    /// The order in which the feed lists its posts.
    pub mode: Mode,
    /// The least ratio of width to height that a picture may have, if any.
    pub min_ratio: Option<Ratio>,
    /// The greatest ratio of width to height that a picture may have, if any.
    pub max_ratio: Option<Ratio>,
    /// The least number of megapixels that a picture may have, if any.
    pub min_res: Option<Ratio>,
    /// How many posts the feed is asked for.
    pub query_size: u8,
    /// When to search again, as a cron expression, if at all.
    pub run_every: Option<String>,
    /// The directory in which pictures are kept.
    pub output_dir: String,
    /// Whether the posts are tried in random order.
    pub random: bool,
    /// The feed to search.
    pub subreddit: String,
}

/// The mathematical value of `Settings`.
pub ghost struct SettingsView {
    pub mode: Option<Mode>,
    pub min_ratio: Option<Ratio>,
    pub max_ratio: Option<Ratio>,
    pub min_res: Option<Ratio>,
    pub query_size: Option<u8>,
    pub run_every: Option<Seq<char>>,
    pub output_dir: Option<Seq<char>>,
    pub random: Option<bool>,
    pub subreddit: Option<Seq<char>>,
}

/// The mathematical value of `Arguments`.
pub ghost struct ArgumentsView {
    pub mode: Option<Seq<char>>,
    pub span: Option<Seq<char>>,
    pub min_ratio: Option<Ratio>,
    pub max_ratio: Option<Ratio>,
    pub min_res: Option<Ratio>,
    pub query_size: Option<u8>,
    pub run_every: Option<Seq<char>>,
    pub output_dir: Option<Seq<char>>,
    pub random: Option<Seq<char>>,
    pub random_given: bool,
    pub subreddit: Option<Seq<char>>,
}

impl View for Arguments {
    type V = ArgumentsView;

    open spec fn view(&self) -> ArgumentsView {
        ArgumentsView {
            mode: text_view(self.mode),
            span: text_view(self.span),
            min_ratio: self.min_ratio,
            max_ratio: self.max_ratio,
            min_res: self.min_res,
            query_size: self.query_size,
            run_every: text_view(self.run_every),
            output_dir: text_view(self.output_dir),
            random: text_view(self.random),
            random_given: self.random_given,
            subreddit: text_view(self.subreddit),
        }
    }
}

impl ArgumentsView {
    /// Arguments are well formed when the bounds that they give are
    /// fractions.
    pub open spec fn wf(self) -> bool {
        &&& self.min_ratio matches Some(bound) ==> bound.wf()
        &&& self.max_ratio matches Some(bound) ==> bound.wf()
        &&& self.min_res matches Some(bound) ==> bound.wf()
    }

    /// Why the arguments make no query: the fault of the mode that they
    /// give, where it cannot be read or lacks the span that it needs.
    /// Arguments that give no mode have no such fault, whatever they say of
    /// the span.
    pub open spec fn mode_fault(self) -> Option<QueryFault> {
        match self.mode {
            Some(mode) => match Mode::parsed(lowercase(mode), optional_lowercase(self.span)) {
                Ok(_) => None,
                Err(fault) => Some(fault),
            },
            None => None,
        }
    }

    /// The mode that the arguments ask for, where they give one and it has
    /// no fault.
    pub open spec fn mode_setting(self) -> Option<Mode> {
        match self.mode {
            Some(mode) => match Mode::parsed(lowercase(mode), optional_lowercase(self.span)) {
                Ok(mode) => Some(mode),
                Err(_) => None,
            },
            None => None,
        }
    }

    /// What the arguments say of the random order: a value says yes where it
    /// is `true` in any letter case, and no else; the switch without a value
    /// says yes.
    pub open spec fn random_setting(self) -> Option<bool> {
        match self.random {
            Some(value) => Some(lowercase(value) == "true"@),
            None => if self.random_given {
                Some(true)
            } else {
                None
            },
        }
    }

    /// The settings that the arguments make, where their mode has no fault.
    pub open spec fn settings(self) -> SettingsView {
        SettingsView {
            mode: self.mode_setting(),
            min_ratio: self.min_ratio,
            max_ratio: self.max_ratio,
            min_res: self.min_res,
            query_size: self.query_size,
            run_every: self.run_every,
            output_dir: self.output_dir,
            random: self.random_setting(),
            subreddit: self.subreddit,
        }
    }
}

/// The mathematical value of a `Configuration`.
pub ghost struct ConfigurationView {
    pub mode: Mode,
    pub min_ratio: Option<Ratio>,
    pub max_ratio: Option<Ratio>,
    pub min_res: Option<Ratio>,
    pub query_size: u8,
    pub run_every: Option<Seq<char>>,
    pub output_dir: Seq<char>,
    pub random: bool,
    pub subreddit: Seq<char>,
}

impl Clone for Configuration {
    /// A copy of this configuration.
    fn clone(&self) -> (copy: Configuration)
        ensures
            copy@ == self@,
    {
        Configuration {
            mode: self.mode,
            min_ratio: self.min_ratio,
            max_ratio: self.max_ratio,
            min_res: self.min_res,
            query_size: self.query_size,
            run_every: copy_text(&self.run_every),
            output_dir: self.output_dir.clone(),
            random: self.random,
            subreddit: self.subreddit.clone(),
        }
    }
}

impl View for Settings {
    type V = SettingsView;

    open spec fn view(&self) -> SettingsView {
        SettingsView {
            mode: self.mode,
            min_ratio: self.min_ratio,
            max_ratio: self.max_ratio,
            min_res: self.min_res,
            query_size: self.query_size,
            run_every: text_view(self.run_every),
            output_dir: text_view(self.output_dir),
            random: self.random,
            subreddit: text_view(self.subreddit),
        }
    }
}

impl View for Configuration {
    type V = ConfigurationView;

    open spec fn view(&self) -> ConfigurationView {
        ConfigurationView {
            mode: self.mode,
            min_ratio: self.min_ratio,
            max_ratio: self.max_ratio,
            min_res: self.min_res,
            query_size: self.query_size,
            run_every: text_view(self.run_every),
            output_dir: self.output_dir@,
            random: self.random,
            subreddit: self.subreddit@,
        }
    }
}

impl ConfigurationView {
    /// A configuration is well formed when its bounds are fractions.
    pub open spec fn wf(self) -> bool {
        &&& self.min_ratio matches Some(bound) ==> bound.wf()
        &&& self.max_ratio matches Some(bound) ==> bound.wf()
        &&& self.min_res matches Some(bound) ==> bound.wf()
    }
}

/// The later of two optional values, where the later one is set, else the
/// earlier one.
pub open spec fn later<T>(earlier: Option<T>, later: Option<T>) -> Option<T> {
    if later is Some {
        later
    } else {
        earlier
    }
}

impl SettingsView {
    /// Settings are well formed when the bounds that they set are fractions.
    pub open spec fn wf(self) -> bool {
        &&& self.min_ratio matches Some(bound) ==> bound.wf()
        &&& self.max_ratio matches Some(bound) ==> bound.wf()
        &&& self.min_res matches Some(bound) ==> bound.wf()
    }

    /// The settings of a source that leaves everything open.
    pub open spec fn open() -> SettingsView {
        SettingsView {
            mode: None,
            min_ratio: None,
            max_ratio: None,
            min_res: None,
            query_size: None,
            run_every: None,
            output_dir: None,
            random: None,
            subreddit: None,
        }
    }

    /// The settings that hold where no source says otherwise.
    pub open spec fn defaults() -> SettingsView {
        SettingsView {
            query_size: Some(50u8),
            output_dir: Some("image-out"@),
            random: Some(false),
            subreddit: Some("EarthPorn"@),
            ..SettingsView::open()
        }
    }

    /// The configuration that these settings make, or the message that names
    /// the first setting that it needs and they leave open.
    pub open spec fn made(self) -> Result<ConfigurationView, Seq<char>> {
        match self.missing() {
            Some(name) => Err(missing_message(name)),
            None => Ok(self.configuration()),
        }
    }

    /// These settings, overridden by each setting that `other` does not leave
    /// open.
    pub open spec fn overridden_by(self, other: SettingsView) -> SettingsView {
        SettingsView {
            mode: later(self.mode, other.mode),
            min_ratio: later(self.min_ratio, other.min_ratio),
            max_ratio: later(self.max_ratio, other.max_ratio),
            min_res: later(self.min_res, other.min_res),
            query_size: later(self.query_size, other.query_size),
            run_every: later(self.run_every, other.run_every),
            output_dir: later(self.output_dir, other.output_dir),
            random: later(self.random, other.random),
            subreddit: later(self.subreddit, other.subreddit),
        }
    }

    /// The settings of several sources as one: each setting has the value of
    /// the last source that does not leave it open.
    pub open spec fn combined(sources: Seq<SettingsView>) -> SettingsView
        decreases sources.len(),
    {
        if sources.len() == 0 {
            SettingsView::open()
        } else {
            SettingsView::combined(sources.drop_last()).overridden_by(sources.last())
        }
    }

    /// The name of the first setting that a configuration needs and these
    /// settings leave open, if there is one.
    pub open spec fn missing(self) -> Option<Seq<char>> {
        if self.mode is None {
            Some("mode"@)
        } else if self.query_size is None {
            Some("query_size"@)
        } else if self.output_dir is None {
            Some("output_dir"@)
        } else if self.random is None {
            Some("random"@)
        } else if self.subreddit is None {
            Some("subreddit"@)
        } else {
            None
        }
    }

    /// The configuration that these settings make, where none that it needs is
    /// left open.
    pub open spec fn configuration(self) -> ConfigurationView {
        ConfigurationView {
            mode: self.mode->0,
            min_ratio: self.min_ratio,
            max_ratio: self.max_ratio,
            min_res: self.min_res,
            query_size: self.query_size->0,
            run_every: self.run_every,
            output_dir: self.output_dir->0,
            random: self.random->0,
            subreddit: self.subreddit->0,
        }
    }
}

/// The outcome of loading the configuration file: `None` where there is no
/// file, else its settings, or why they could not be read.
pub open spec fn file_view(file: Option<Result<Settings, String>>) -> Option<
    Result<SettingsView, Seq<char>>,
> {
    match file {
        Some(Ok(settings)) => Some(Ok(settings@)),
        Some(Err(message)) => Some(Err(message@)),
        None => None,
    }
}

/// The mathematical value of the outcome of making a configuration.
pub open spec fn made_view(r: Result<Configuration, String>) -> Result<
    ConfigurationView,
    Seq<char>,
> {
    match r {
        Ok(config) => Ok(config@),
        Err(message) => Err(message@),
    }
}

impl ConfigurationView {
    /// The configuration of a run, made of the defaults, the configuration
    /// file where there is one, and the arguments of the command line; each
    /// overrides what comes before it. Arguments whose mode has a fault make
    /// no configuration, whatever the other sources say; nor does a file that
    /// could not be read, nor settings that leave open what is needed.
    pub open spec fn init(
        file: Option<Result<SettingsView, Seq<char>>>,
        arguments: ArgumentsView,
    ) -> Result<ConfigurationView, Seq<char>> {
        match arguments.mode_fault() {
            Some(fault) => Err(fault.message()),
            None => match file {
                Some(Err(message)) => Err(message),
                Some(Ok(settings)) => SettingsView::combined(
                    seq![SettingsView::defaults(), settings, arguments.settings()],
                ).made(),
                None => SettingsView::combined(
                    seq![SettingsView::defaults(), arguments.settings()],
                ).made(),
            },
        }
    }
}

/// A mode on the command line that cannot be read, or that lacks the span
/// that it needs, is fatal: no configuration is made, whatever the
/// configuration file and the defaults say of the mode.
pub proof fn lemma_refused_mode_is_fatal(
    file: Option<Result<SettingsView, Seq<char>>>,
    arguments: ArgumentsView,
)
    requires
        arguments.mode_fault() is Some,
    ensures
        ConfigurationView::init(file, arguments) == Err::<ConfigurationView, Seq<char>>(
            arguments.mode_fault()->0.message(),
        ),
{
}

/// `Top` and `Controversial` on the command line without a span make no
/// configuration.
pub proof fn lemma_mode_without_span_is_fatal(
    file: Option<Result<SettingsView, Seq<char>>>,
    arguments: ArgumentsView,
)
    requires
        arguments.mode matches Some(mode) && (lowercase(mode) == "top"@ || lowercase(mode)
            == "controversial"@),
        arguments.span is None,
    ensures
        ConfigurationView::init(file, arguments) == Err::<ConfigurationView, Seq<char>>(
            QueryFault::SpanRequired.message(),
        ),
{
    lemma_span_required(lowercase(arguments.mode->0));
}

/// Where a configuration is made, its mode is the one that the command line
/// gives, if it gives one.
pub proof fn lemma_given_mode_is_used(
    file: Option<Result<SettingsView, Seq<char>>>,
    arguments: ArgumentsView,
)
    requires
        arguments.mode is Some,
        ConfigurationView::init(file, arguments) is Ok,
    ensures
        arguments.mode_setting() == Some(ConfigurationView::init(file, arguments)->Ok_0.mode),
{
    reveal_with_fuel(SettingsView::combined, 4);
}

/// The text that says that the setting of the given name is missing.
pub open spec fn missing_message(name: Seq<char>) -> Seq<char> {
    "Required setting '"@ + name + "' missing"@
}

fn missing_error(name: &str) -> (text: String)
    ensures
        text@ == missing_message(name@),
{
    let mut text = "Required setting '".to_owned();
    text.append(name);
    text.append("' missing");
    text
}

fn later_text(earlier: Option<String>, later_one: &Option<String>) -> (r: Option<String>)
    ensures
        text_view(r) == later(text_view(earlier), text_view(*later_one)),
{
    match later_one {
        Some(text) => Some(text.clone()),
        None => earlier,
    }
}

fn later_value<T: Copy>(earlier: Option<T>, later_one: Option<T>) -> (r: Option<T>)
    ensures
        r == later(earlier, later_one),
{
    match later_one {
        Some(_) => later_one,
        None => earlier,
    }
}

impl Default for Settings {
    /// The settings that hold where no source says otherwise: fifty posts of
    /// `EarthPorn`, in the order of the feed, kept in `image-out`.
    fn default() -> (r: Settings)
        ensures
            r@ == SettingsView::defaults(),
            r@.wf(),
    {
        Settings {
            mode: None,
            min_ratio: None,
            max_ratio: None,
            min_res: None,
            query_size: Some(50),
            run_every: None,
            output_dir: Some("image-out".to_owned()),
            random: Some(false),
            subreddit: Some("EarthPorn".to_owned()),
        }
    }
}

impl Configuration {
    /// Makes the configuration of a run of the defaults, the configuration
    /// file and the arguments of the command line. `file` is the outcome of
    /// loading the file: `None` where there is none. A fault of the
    /// arguments comes first, then one of the file, then a setting that is
    /// missing.
    pub fn init(file: Option<Result<Settings, String>>, arguments: Arguments) -> (r: Result<
        Configuration,
        String,
    >)
        ensures
            made_view(r) == ConfigurationView::init(file_view(file), arguments@),
    {
        let given = match Settings::from_arguments(arguments) {
            Ok(given) => given,
            Err(message) => {
                return Err(message);
            },
        };
        let ghost loaded = file_view(file);
        let mut sources: Vec<Settings> = Vec::new();
        sources.push(Settings::default());
        match file {
            Some(Ok(settings)) => {
                sources.push(settings);
            },
            Some(Err(message)) => {
                return Err(message);
            },
            None => {},
        }
        sources.push(given);
        proof {
            let views = sources@.map_values(|s: Settings| s@);
            match loaded {
                Some(Ok(settings)) => {
                    assert(views =~= seq![SettingsView::defaults(), settings, given@]);
                },
                _ => {
                    assert(views =~= seq![SettingsView::defaults(), given@]);
                },
            }
        }
        match Settings::combine(sources) {
            Ok(combined) => combined.into_config(),
            Err(message) => Err(message),
        }
    }
}

impl Settings {
    /// The settings that the arguments of the command line make. A mode that
    /// cannot be read, or that lacks the span that it needs, makes no query
    /// and no settings: this fails then, with the message of the fault, and
    /// in no other case.
    pub fn from_arguments(arguments: Arguments) -> (r: Result<Settings, String>)
        ensures
            match r {
                Ok(settings) => arguments@.mode_fault() is None && settings@
                    == arguments@.settings() && (arguments@.wf() ==> settings@.wf()),
                Err(message) => arguments@.mode_fault() matches Some(fault) && message@
                    == fault.message(),
            },
    {
        let mode = match &arguments.mode {
            Some(mode) => {
                let span = match &arguments.span {
                    Some(span) => Some(span.as_str()),
                    None => None,
                };
                match Mode::from_identifier(mode.as_str(), span) {
                    Ok(mode) => Some(mode),
                    Err(fault) => {
                        return Err(fault.message());
                    },
                }
            },
            None => None,
        };
        let random = match &arguments.random {
            Some(value) => Some(same_text(value.to_lowercase().as_str(), "true")),
            None => if arguments.random_given {
                Some(true)
            } else {
                None
            },
        };
        Ok(
            Settings {
                mode,
                min_ratio: arguments.min_ratio,
                max_ratio: arguments.max_ratio,
                min_res: arguments.min_res,
                query_size: arguments.query_size,
                run_every: arguments.run_every,
                output_dir: arguments.output_dir,
                random,
                subreddit: arguments.subreddit,
            },
        )
    }

    /// Combines the settings of several sources: each setting gets the value
    /// of the last source that sets it. This never fails.
    pub fn combine(settings: Vec<Settings>) -> (r: Result<Settings, String>)
        ensures
            r matches Ok(combined) && combined@ == SettingsView::combined(
                settings@.map_values(|s: Settings| s@),
            ) && ((forall|i: int| 0 <= i < settings@.len() ==> (#[trigger] settings@[i])@.wf())
                ==> combined@.wf()),
    {
        let mut combined = Settings {
            mode: None,
            min_ratio: None,
            max_ratio: None,
            min_res: None,
            query_size: None,
            run_every: None,
            output_dir: None,
            random: None,
            subreddit: None,
        };
        let ghost views = settings@.map_values(|s: Settings| s@);
        let mut i: usize = 0;
        while i < settings.len()
            invariant
                i <= settings.len(),
                views == settings@.map_values(|s: Settings| s@),
                combined@ == SettingsView::combined(views.take(i as int)),
                (forall|k: int| 0 <= k < settings@.len() ==> (#[trigger] settings@[k])@.wf())
                    ==> combined@.wf(),
            decreases settings.len() - i,
        {
            let source = &settings[i];
            proof {
                assert(views.take(i + 1).drop_last() =~= views.take(i as int));
            }
            combined =
            Settings {
                mode: later_value(combined.mode, source.mode),
                min_ratio: later_value(combined.min_ratio, source.min_ratio),
                max_ratio: later_value(combined.max_ratio, source.max_ratio),
                min_res: later_value(combined.min_res, source.min_res),
                query_size: later_value(combined.query_size, source.query_size),
                run_every: later_text(combined.run_every, &source.run_every),
                output_dir: later_text(combined.output_dir, &source.output_dir),
                random: later_value(combined.random, source.random),
                subreddit: later_text(combined.subreddit, &source.subreddit),
            };
            i += 1;
        }
        assert(views.take(settings.len() as int) =~= views);
        Ok(combined)
    }

    /// Makes a configuration of these settings. It fails where a setting that
    /// the configuration needs is left open, and names the first such setting.
    pub fn into_config(self) -> (r: Result<Configuration, String>)
        ensures
            match r {
                Ok(config) => self@.missing() is None && config@ == self@.configuration() && (
                self@.wf() ==> config@.wf()),
                Err(message) => self@.missing() matches Some(name) && message@
                    == missing_message(name),
            },
    {
        let mode = match self.mode {
            Some(mode) => mode,
            None => return Err(missing_error("mode")),
        };
        let query_size = match self.query_size {
            Some(query_size) => query_size,
            None => return Err(missing_error("query_size")),
        };
        let output_dir = match self.output_dir {
            Some(output_dir) => output_dir,
            None => return Err(missing_error("output_dir")),
        };
        let random = match self.random {
            Some(random) => random,
            None => return Err(missing_error("random")),
        };
        let subreddit = match self.subreddit {
            Some(subreddit) => subreddit,
            None => return Err(missing_error("subreddit")),
        };
        Ok(
            Configuration {
                mode,
                min_ratio: self.min_ratio,
                max_ratio: self.max_ratio,
                min_res: self.min_res,
                query_size,
                run_every: self.run_every,
                output_dir,
                random,
                subreddit,
            },
        )
    }
}

} // verus!
