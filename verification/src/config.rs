//! Settings gathered layer by layer: the configuration file first, the
//! command-line arguments on top of it. A later layer overrides an earlier
//! one field by field, and what it leaves out stays as it was.

use vstd::prelude::*;
use crate::context::{lemma_greeting_is_shown_when_due, App, Notice};
use crate::date::{today, CalendarDate, MAX_YEAR, MIN_YEAR};
use crate::error::{AgeError, FormatError};
use crate::format::DateFormat;
use crate::specifier::{DateSpecifier, DateSpecifierView};
use crate::verbosity::Verbosity;
use crate::year::spec_parse_year;

verus! {

/// The command-line arguments, as they were given.
#[derive(Debug)]
pub struct Args {
    /// Increase message verbosity
    pub verbose: bool,
    /// Silence all output except the age
    pub quiet: bool,
    /// Override today's date
    pub date: Option<String>,
    /// Override today's date, but just the year
    pub year: Option<String>,
    /// The birthday
    pub birthday: Option<String>,
    /// Just the year of birth
    pub birthyear: Option<String>,
    /// The date format, as a pattern such as `MDY/`
    pub format: Option<String>,
}

/// The contents of the configuration file.
#[derive(Debug)]
pub struct ConfigFile {
    pub birthday: Option<String>,
    pub birthyear: Option<String>,
    pub format: Option<DateFormat>,
}

/// The settings gathered so far.
#[derive(Debug)]
pub struct LayeredAppConfigBuilder {
    pub birthday: Option<DateSpecifier>,
    pub current_date: Option<DateSpecifier>,
    pub format: DateFormat,
    pub verbosity: Verbosity,
}

/// An optional text as an optional sequence of characters.
pub open spec fn text_of(text: Option<String>) -> Option<Seq<char>> {
    match text {
        Some(t) => Some(t@),
        None => None,
    }
}

/// An optional specifier as an optional view.
pub open spec fn specifier_of(specifier: Option<DateSpecifier>) -> Option<DateSpecifierView> {
    match specifier {
        Some(s) => Some(s@),
        None => None,
    }
}

/// What [`Args`] holds, as sequences of characters.
pub struct ArgsView {
    pub verbose: bool,
    pub quiet: bool,
    pub date: Option<Seq<char>>,
    pub year: Option<Seq<char>>,
    pub birthday: Option<Seq<char>>,
    pub birthyear: Option<Seq<char>>,
    pub format: Option<Seq<char>>,
}

/// What [`ConfigFile`] holds, as sequences of characters.
pub struct ConfigFileView {
    pub birthday: Option<Seq<char>>,
    pub birthyear: Option<Seq<char>>,
    pub format: Option<DateFormat>,
}

/// What [`LayeredAppConfigBuilder`] holds, as sequences of characters.
pub struct BuilderView {
    pub birthday: Option<DateSpecifierView>,
    pub current_date: Option<DateSpecifierView>,
    pub format: DateFormat,
    pub verbosity: Verbosity,
}

impl View for Args {
    type V = ArgsView;

    open spec fn view(&self) -> ArgsView {
        ArgsView {
            verbose: self.verbose,
            quiet: self.quiet,
            date: text_of(self.date),
            year: text_of(self.year),
            birthday: text_of(self.birthday),
            birthyear: text_of(self.birthyear),
            format: text_of(self.format),
        }
    }
}

impl View for ConfigFile {
    type V = ConfigFileView;

    open spec fn view(&self) -> ConfigFileView {
        ConfigFileView {
            birthday: text_of(self.birthday),
            birthyear: text_of(self.birthyear),
            format: self.format,
        }
    }
}

impl View for LayeredAppConfigBuilder {
    type V = BuilderView;

    open spec fn view(&self) -> BuilderView {
        BuilderView {
            birthday: specifier_of(self.birthday),
            current_date: specifier_of(self.current_date),
            format: self.format,
            verbosity: self.verbosity,
        }
    }
}

/// The configuration file as a layer, where there is one to be read.
pub open spec fn file_of(file: Option<ConfigFile>) -> Option<ConfigFileView> {
    match file {
        Some(f) => Some(f@),
        None => None,
    }
}

/// What one layer says of a date: the full date where the layer gives one;
/// else the year alone where it gives that; else nothing.
pub open spec fn layer_choice(full: Option<Seq<char>>, year: Option<Seq<char>>) -> Option<
    DateSpecifierView,
> {
    match full {
        Some(text) => Some(DateSpecifierView::Full(text)),
        None => match year {
            Some(text) => Some(DateSpecifierView::YearOnly(text)),
            None => None,
        },
    }
}

/// A setting after a layer: what the layer says where it says something,
/// else what stood before.
pub open spec fn overridden<T>(earlier: Option<T>, later: Option<T>) -> Option<T> {
    match later {
        Some(_) => later,
        None => earlier,
    }
}

impl ArgsView {
    /// The output level that the switches ask for.
    pub open spec fn verbosity(self) -> Verbosity {
        Verbosity::spec_from_flags(self.verbose, self.quiet)
    }
}

impl BuilderView {
    /// The settings before any layer: no dates, month-day-year with a
    /// slash, level `Normal`.
    pub open spec fn initial() -> BuilderView {
        BuilderView {
            birthday: None,
            current_date: None,
            format: DateFormat::MDY { separator: '/' },
            verbosity: Verbosity::Normal,
        }
    }

    /// The same settings at another output level.
    pub open spec fn with_verbosity(self, verbosity: Verbosity) -> BuilderView {
        BuilderView { verbosity, ..self }
    }

    /// The settings after the layer of a configuration file. The file
    /// says nothing of the reference date.
    pub open spec fn with_file(self, file: ConfigFileView) -> BuilderView {
        BuilderView {
            birthday: overridden(self.birthday, layer_choice(file.birthday, file.birthyear)),
            current_date: self.current_date,
            format: match file.format {
                Some(format) => format,
                None => self.format,
            },
            verbosity: self.verbosity,
        }
    }

    /// The settings after the file layer, where the file may be missing:
    /// a missing file changes nothing.
    pub open spec fn stack_file_layer(self, file: Option<ConfigFileView>) -> BuilderView {
        match file {
            Some(f) => self.with_file(f),
            None => self,
        }
    }

    /// What is said of the file layer: a missing file is mentioned at
    /// level `Verbose` only.
    pub open spec fn file_notice(self, file: Option<ConfigFileView>) -> Option<Notice> {
        if file is None && self.verbosity == Verbosity::Verbose {
            Some(Notice::ConfigFileUnreadable)
        } else {
            None
        }
    }

    /// The settings after the layer of command-line arguments, or the
    /// error of a format pattern that cannot be read.
    pub open spec fn stack_args_layer(self, args: ArgsView) -> Result<BuilderView, AgeError> {
        let format = match args.format {
            Some(pattern) => DateFormat::spec_from_str(pattern),
            None => Ok(self.format),
        };
        match format {
            Ok(format) => Ok(
                BuilderView {
                    birthday: overridden(
                        self.birthday,
                        layer_choice(args.birthday, args.birthyear),
                    ),
                    current_date: overridden(
                        self.current_date,
                        layer_choice(args.date, args.year),
                    ),
                    format,
                    verbosity: self.verbosity,
                },
            ),
            Err(e) => Err(AgeError::FormatParse(e)),
        }
    }

    /// No reference date was given, so the host's date stands in for it.
    pub open spec fn falls_back_on_today(self) -> bool {
        self.current_date is None
    }

    /// The resolved settings, where `today` is the host's date.
    ///
    /// Without a birthday there are none. Both dates are read under the
    /// template of the one format that is left after all layers. A
    /// greeting is wished only where the birthday names month and day and
    /// a reference date was given: against the host's date none is wished.
    pub open spec fn build(self, today: CalendarDate) -> Result<App, AgeError> {
        let template = self.format.spec_fmt_string();
        match self.birthday {
            None => Err(AgeError::MissingBirthday),
            Some(birthday) => match birthday.resolve(template) {
                Err(e) => Err(e),
                Ok(born) => match self.current_date {
                    Some(current) => match current.resolve(template) {
                        Err(e) => Err(e),
                        Ok(date) => Ok(
                            App {
                                birthday: born,
                                current_date: date,
                                verbosity: self.verbosity,
                                wish_happy_birthday: birthday.is_full(),
                            },
                        ),
                    },
                    None => Ok(
                        App {
                            birthday: born,
                            current_date: today,
                            verbosity: self.verbosity,
                            wish_happy_birthday: false,
                        },
                    ),
                },
            },
        }
    }
}

impl Args {
    /// The output level that the switches ask for: `verbose` before
    /// `quiet`, and `Normal` without either.
    pub fn verbosity(&self) -> (level: Verbosity)
        ensures
            level == self@.verbosity(),
    {
        Verbosity::from_flags(self.verbose, self.quiet)
    }
}

/// The specifier that one layer gives for a date, if it gives any: the
/// full date before the year alone.
pub fn layer_specifier(full: &Option<String>, year: &Option<String>) -> (choice: Option<
    DateSpecifier,
>)
    ensures
        specifier_of(choice) == layer_choice(text_of(*full), text_of(*year)),
{
    match full {
        Some(text) => Some(DateSpecifier::full(text.as_str())),
        None => match year {
            Some(text) => Some(DateSpecifier::year(text.as_str())),
            None => None,
        },
    }
}

impl LayeredAppConfigBuilder {
    /// The settings before any layer.
    pub fn new() -> (builder: LayeredAppConfigBuilder)
        ensures
            builder@ == BuilderView::initial(),
    {
        LayeredAppConfigBuilder {
            birthday: None,
            current_date: None,
            format: DateFormat::default(),
            verbosity: Verbosity::Normal,
        }
    }

    /// Sets the output level.
    pub fn verbosity(self, verbosity: Verbosity) -> (builder: LayeredAppConfigBuilder)
        ensures
            builder@ == self@.with_verbosity(verbosity),
    {
        let mut builder = self;
        builder.verbosity = verbosity;
        builder
    }

    /// Lays the command-line arguments over the settings. Each of
    /// birthday, reference date and format is replaced where the
    /// arguments give it and kept where they do not.
    pub fn stack_args_layer(self, args: &Args) -> (stacked: Result<
        LayeredAppConfigBuilder,
        AgeError,
    >)
        ensures
            match stacked {
                Ok(builder) => self@.stack_args_layer(args@) == Ok::<BuilderView, AgeError>(
                    builder@,
                ),
                Err(e) => self@.stack_args_layer(args@) == Err::<BuilderView, AgeError>(e),
            },
    {
        let mut builder = self;
        match layer_specifier(&args.birthday, &args.birthyear) {
            Some(birthday) => {
                builder.birthday = Some(birthday);
            },
            None => {},
        }
        match layer_specifier(&args.date, &args.year) {
            Some(date) => {
                builder.current_date = Some(date);
            },
            None => {},
        }
        match &args.format {
            Some(pattern) => match DateFormat::from_str(pattern.as_str()) {
                Ok(format) => {
                    builder.format = format;
                },
                Err(e) => {
                    return Err(AgeError::FormatParse(e));
                },
            },
            None => {},
        }
        Ok(builder)
    }

    /// Lays the configuration file over the settings, where `file` is what
    /// was read of it, or `None` if it could not be read or understood.
    /// Gives the new settings, and what to say of the file.
    pub fn stack_file_layer(self, file: Option<ConfigFile>) -> (stacked: (
        LayeredAppConfigBuilder,
        Option<Notice>,
    ))
        ensures
            stacked.0@ == self@.stack_file_layer(file_of(file)),
            stacked.1 == self@.file_notice(file_of(file)),
    {
        let mut builder = self;
        match file {
            None => {
                let notice = if builder.verbosity == Verbosity::Verbose {
                    Some(Notice::ConfigFileUnreadable)
                } else {
                    None
                };
                (builder, notice)
            },
            Some(config) => {
                match layer_specifier(&config.birthday, &config.birthyear) {
                    Some(birthday) => {
                        builder.birthday = Some(birthday);
                    },
                    None => {},
                }
                match config.format {
                    Some(format) => {
                        builder.format = format;
                    },
                    None => {},
                }
                (builder, None)
            },
        }
    }

    /// Resolves the settings, with `today` as the host's date.
    pub fn build_on(&self, today: CalendarDate) -> (app: Result<App, AgeError>)
        ensures
            app == self@.build(today),
            today.valid() ==> (app matches Ok(a) ==> a.birthday.valid() && a.current_date.valid()),
    {
        let template = self.format.as_fmt_string();
        let birthday = match &self.birthday {
            Some(birthday) => birthday,
            None => {
                return Err(AgeError::MissingBirthday);
            },
        };
        let born = match birthday.to_naive_date(template.as_str()) {
            Ok(date) => date,
            Err(e) => {
                return Err(e);
            },
        };
        match &self.current_date {
            Some(current) => match current.to_naive_date(template.as_str()) {
                Ok(date) => Ok(
                    App {
                        birthday: born,
                        current_date: date,
                        verbosity: self.verbosity,
                        wish_happy_birthday: birthday.is_full(),
                    },
                ),
                Err(e) => Err(e),
            },
            None => Ok(
                App {
                    birthday: born,
                    current_date: today,
                    verbosity: self.verbosity,
                    wish_happy_birthday: false,
                },
            ),
        }
    }

    /// Resolves the settings. The host's clock is read only where no
    /// reference date was given.
    pub fn build(&self) -> (app: Result<App, AgeError>)
        ensures
            self@.falls_back_on_today() ==> exists|day: CalendarDate|
                day.valid() && app == #[trigger] self@.build(day),
            !self@.falls_back_on_today() ==> forall|day: CalendarDate|
                app == #[trigger] self@.build(day),
            app matches Ok(a) ==> a.birthday.valid() && a.current_date.valid(),
    {
        match &self.current_date {
            Some(_) => {
                // With a reference date given, the result is the same for
                // every host date: any valid one serves.
                let unread = CalendarDate { year: 1970, month: 1, day: 1 };
                let app = self.build_on(unread);
                proof {
                    assert forall|day: CalendarDate| app == #[trigger] self@.build(day) by {
                        lemma_given_date_needs_no_clock(self@, unread, day);
                    }
                }
                app
            },
            None => self.build_on(today()),
        }
    }
}

/// With a reference date given, the host's date has no part in the result.
pub proof fn lemma_given_date_needs_no_clock(
    settings: BuilderView,
    one_day: CalendarDate,
    another_day: CalendarDate,
)
    requires
        !settings.falls_back_on_today(),
    ensures
        settings.build(one_day) == settings.build(another_day),
{
}

/// Within one layer a full date wins over a year alone: where the layer
/// gives both, the full date is its choice, whatever the year says.
pub proof fn lemma_full_date_wins_within_layer(full: Seq<char>, year: Option<Seq<char>>)
    ensures
        layer_choice(Some(full), year) == Some(DateSpecifierView::Full(full)),
        layer_choice(None, year) == match year {
            Some(text) => Some(DateSpecifierView::YearOnly(text)),
            None => None::<DateSpecifierView>,
        },
{
}

/// A layer replaces the birthday exactly where it gives one, by a full
/// date or by a year, and leaves it alone otherwise. The same holds of the
/// reference date in the layer of arguments, which the file never touches.
pub proof fn lemma_layer_overrides_field_by_field(
    settings: BuilderView,
    file: ConfigFileView,
    args: ArgsView,
)
    ensures
        settings.with_file(file).birthday == match layer_choice(file.birthday, file.birthyear) {
            Some(choice) => Some(choice),
            None => settings.birthday,
        },
        settings.with_file(file).current_date == settings.current_date,
        settings.with_file(file).verbosity == settings.verbosity,
        settings.stack_args_layer(args) matches Ok(after) ==> {
            &&& after.birthday == match layer_choice(args.birthday, args.birthyear) {
                Some(choice) => Some(choice),
                None => settings.birthday,
            }
            &&& after.current_date == match layer_choice(args.date, args.year) {
                Some(choice) => Some(choice),
                None => settings.current_date,
            }
            &&& after.verbosity == settings.verbosity
        },
{
}

/// The arguments are laid over the file, so they win: whatever birthday
/// the file gave, a birthday or a year of birth among the arguments
/// replaces it, and the file's birthday stands only where the arguments
/// give neither. A format among the arguments likewise replaces the
/// file's.
pub proof fn lemma_arguments_win_over_file(
    settings: BuilderView,
    file: Option<ConfigFileView>,
    args: ArgsView,
)
    ensures
        settings.stack_file_layer(file).stack_args_layer(args) matches Ok(after) ==> {
            &&& layer_choice(args.birthday, args.birthyear) matches Some(choice)
                ==> after.birthday == Some(choice)
            &&& layer_choice(args.birthday, args.birthyear) is None ==> after.birthday
                == settings.stack_file_layer(file).birthday
            &&& args.format matches Some(pattern) ==> DateFormat::spec_from_str(pattern) == Ok::<
                DateFormat,
                FormatError,
            >(after.format)
            &&& args.format is None ==> after.format == settings.stack_file_layer(file).format
        },
        settings.stack_file_layer(file).stack_args_layer(args) is Err <==> (args.format matches Some(
            pattern,
        ) && DateFormat::spec_from_str(pattern) is Err),
{
}

/// A year of birth among the arguments, with no birthday beside it,
/// overrides a full birthday of the file: the birthday is then the first
/// of January of that year, under every format.
pub proof fn lemma_year_argument_overrides_file_birthday(
    settings: BuilderView,
    file: ConfigFileView,
    args: ArgsView,
    year_text: Seq<char>,
    year: i32,
    today: CalendarDate,
)
    requires
        file.birthday is Some,
        args.birthday is None,
        args.birthyear == Some(year_text),
        spec_parse_year(year_text) == Some(year),
        MIN_YEAR <= year <= MAX_YEAR,
        settings.with_file(file).stack_args_layer(args) is Ok,
    ensures
        ({
            let after = settings.with_file(file).stack_args_layer(args)->Ok_0;
            &&& after.birthday == Some(DateSpecifierView::YearOnly(year_text))
            &&& after.build(today) matches Ok(app) ==> app.birthday == (CalendarDate {
                year,
                month: 1,
                day: 1,
            })
        }),
{
}

/// Without a birthday in any layer there is no result but
/// [`AgeError::MissingBirthday`], whatever else was set and whatever the
/// host's date.
pub proof fn lemma_missing_birthday(settings: BuilderView, today: CalendarDate)
    requires
        settings.birthday is None,
    ensures
        settings.build(today) == Err::<App, AgeError>(AgeError::MissingBirthday),
{
}

/// The settings before any layer hold no birthday, and a layer that gives
/// none adds none: resolving them fails with
/// [`AgeError::MissingBirthday`].
pub proof fn lemma_no_layer_no_birthday(
    file: Option<ConfigFileView>,
    args: ArgsView,
    verbosity: Verbosity,
    today: CalendarDate,
)
    requires
        match file {
            Some(f) => f.birthday is None && f.birthyear is None,
            None => true,
        },
        args.birthday is None,
        args.birthyear is None,
    ensures
        BuilderView::initial().with_verbosity(verbosity).stack_file_layer(file).stack_args_layer(
            args,
        ) matches Ok(after) ==> after.build(today) == Err::<App, AgeError>(
            AgeError::MissingBirthday,
        ),
{
}

/// The greeting is shown exactly where the level is at least `Normal`, a
/// reference date was given, the birthday names month and day, and the
/// reference date has the birthday's month and day.
pub proof fn lemma_greeting_conditions(settings: BuilderView, today: CalendarDate, app: App)
    requires
        settings.build(today) == Ok::<App, AgeError>(app),
    ensures
        app.spec_notices().contains(Notice::HappyBirthday) <==> {
            &&& settings.verbosity.spec_at_least(Verbosity::Normal)
            &&& settings.current_date is Some
            &&& settings.birthday matches Some(birthday) && birthday.is_full()
            &&& app.current_date.spec_same_month_and_day(app.birthday)
        },
{
    lemma_greeting_is_shown_when_due(app);
}

/// Without a reference date in any layer no greeting is shown, not even
/// where the host's date is the birthday.
pub proof fn lemma_no_greeting_against_host_date(
    settings: BuilderView,
    today: CalendarDate,
    app: App,
)
    requires
        settings.current_date is None,
        settings.build(today) == Ok::<App, AgeError>(app),
    ensures
        app.current_date == today,
        !app.wish_happy_birthday,
        !app.spec_notices().contains(Notice::HappyBirthday),
{
    lemma_greeting_is_shown_when_due(app);
}

/// Both dates are read under the one format that is left after all
/// layers: a format set by a later layer governs dates given by an earlier
/// one.
pub proof fn lemma_dates_are_read_under_final_format(
    settings: BuilderView,
    today: CalendarDate,
    app: App,
)
    requires
        settings.build(today) == Ok::<App, AgeError>(app),
    ensures
        settings.birthday matches Some(birthday) && birthday.resolve(
            settings.format.spec_fmt_string(),
        ) == Ok::<CalendarDate, AgeError>(app.birthday),
        settings.current_date matches Some(current) ==> current.resolve(
            settings.format.spec_fmt_string(),
        ) == Ok::<CalendarDate, AgeError>(app.current_date),
        app.verbosity == settings.verbosity,
{
}

} // verus!
