//! The invocation builder: a configuration of flags and an optional target,
//! rendered into an argument list in one fixed order.

use vstd::prelude::*;
use vstd::string::StringExecFns;

verus! {

/// How the tool formats its log output (`--log-format`).
#[derive(Debug, Clone, Copy, PartialEq, Eq, Structural)]
pub enum NixFlakeLogFormat {
    Raw,
    InternalJson,
    Bar,
    BarWithLogs,
}

impl NixFlakeLogFormat {
    /// The word the tool expects after `--log-format`.
    pub open spec fn word(self) -> Seq<char> {
        match self {
            NixFlakeLogFormat::Raw => "raw"@,
            NixFlakeLogFormat::InternalJson => "internal-json"@,
            NixFlakeLogFormat::Bar => "bar"@,
            NixFlakeLogFormat::BarWithLogs => "bar-with-logs"@,
        }
    }

    /// The word the tool expects after `--log-format`.
    pub fn as_arg(self) -> (word: String)
        ensures
            word@ == self.word(),
    {
        match self {
            NixFlakeLogFormat::Raw => "raw".to_owned(),
            NixFlakeLogFormat::InternalJson => "internal-json".to_owned(),
            NixFlakeLogFormat::Bar => "bar".to_owned(),
            NixFlakeLogFormat::BarWithLogs => "bar-with-logs".to_owned(),
        }
    }
}

/// Where a standard stream of the child process goes.
#[derive(Debug, Clone, Copy, PartialEq, Eq, Structural)]
pub enum StreamTarget {
    /// Nothing was asked for: the way the process is started decides.
    Unset,
    /// Captured for the caller.
    Piped,
    /// Passed through to the caller's own stream.
    Inherit,
}

/// A command that can be run: the program, its arguments in order, and where
/// its output streams go.
#[derive(Debug, Clone, PartialEq, Eq)]
pub struct Invocation {
    pub program: String,
    pub args: Vec<String>,
    pub stdout: StreamTarget,
    pub stderr: StreamTarget,
}

/// What an [`Invocation`] says, as mathematical values.
pub struct InvocationView {
    pub program: Seq<char>,
    pub args: Seq<Seq<char>>,
    pub stdout: StreamTarget,
    pub stderr: StreamTarget,
}

impl View for Invocation {
    type V = InvocationView;

    open spec fn view(&self) -> InvocationView {
        InvocationView {
            program: self.program@,
            args: self.args.deep_view(),
            stdout: self.stdout,
            stderr: self.stderr,
        }
    }
}

/// The path of the tool.
pub open spec fn nix_program() -> Seq<char> {
    "/nix/var/nix/profiles/default/bin/nix"@
}

/// The tool with no arguments and no stream set.
pub fn nix_cmd() -> (cmd: Invocation)
    ensures
        cmd@ == (InvocationView {
            program: nix_program(),
            args: Seq::empty(),
            stdout: StreamTarget::Unset,
            stderr: StreamTarget::Unset,
        }),
{
    let cmd = Invocation {
        program: "/nix/var/nix/profiles/default/bin/nix".to_owned(),
        args: Vec::new(),
        stdout: StreamTarget::Unset,
        stderr: StreamTarget::Unset,
    };
    assert(cmd.args.deep_view() =~= Seq::<Seq<char>>::empty());
    cmd
}

/// The options of a `flake show` run, as mathematical values.
pub struct Settings {
    pub all_systems: bool,
    pub json: bool,
    pub legacy: bool,
    pub impure: bool,
    pub recreate_lock_file: bool,
    pub debug: bool,
    pub verbosity_level: nat,
    pub log_format: Option<NixFlakeLogFormat>,
    pub url: Option<Seq<char>>,
}

impl Settings {
    /// Every option at its default: all switches off, verbosity 0, no log
    /// format and no target.
    pub open spec fn initial() -> Settings {
        Settings {
            all_systems: false,
            json: false,
            legacy: false,
            impure: false,
            recreate_lock_file: false,
            debug: false,
            verbosity_level: 0,
            log_format: None,
            url: None,
        }
    }
}

/// One option together with the value it is given.
pub enum Setting {
    AllSystems(bool),
    Json(bool),
    Legacy(bool),
    Impure(bool),
    RecreateLockFile(bool),
    Debug(bool),
    VerbosityLevel(nat),
    LogFormat(Option<NixFlakeLogFormat>),
    Url(Seq<char>),
}

impl Setting {
    /// Whether two settings are for the same option.
    pub open spec fn same_option(self, other: Setting) -> bool {
        match (self, other) {
            (Setting::AllSystems(_), Setting::AllSystems(_)) => true,
            (Setting::Json(_), Setting::Json(_)) => true,
            (Setting::Legacy(_), Setting::Legacy(_)) => true,
            (Setting::Impure(_), Setting::Impure(_)) => true,
            (Setting::RecreateLockFile(_), Setting::RecreateLockFile(_)) => true,
            (Setting::Debug(_), Setting::Debug(_)) => true,
            (Setting::VerbosityLevel(_), Setting::VerbosityLevel(_)) => true,
            (Setting::LogFormat(_), Setting::LogFormat(_)) => true,
            (Setting::Url(_), Setting::Url(_)) => true,
            _ => false,
        }
    }
}

impl Settings {
    /// The options after one of them is set: that option has the new value
    /// and the others keep theirs.
    pub open spec fn with(self, setting: Setting) -> Settings {
        match setting {
            Setting::AllSystems(all_systems) => Settings { all_systems, ..self },
            Setting::Json(json) => Settings { json, ..self },
            Setting::Legacy(legacy) => Settings { legacy, ..self },
            Setting::Impure(impure) => Settings { impure, ..self },
            Setting::RecreateLockFile(recreate_lock_file) => Settings {
                recreate_lock_file,
                ..self
            },
            Setting::Debug(debug) => Settings { debug, ..self },
            Setting::VerbosityLevel(verbosity_level) => Settings { verbosity_level, ..self },
            Setting::LogFormat(log_format) => Settings { log_format, ..self },
            Setting::Url(url) => Settings { url: Some(url), ..self },
        }
    }
}

/// The argument for a switch: the flag when it is on, nothing when it is off.
pub open spec fn switch(on: bool, flag: Seq<char>) -> Seq<Seq<char>> {
    if on {
        seq![flag]
    } else {
        Seq::empty()
    }
}

/// A dash followed by `level` times the letter `v`.
pub open spec fn verbosity_flag(level: nat) -> Seq<char> {
    seq!['-'] + Seq::new(level, |i: int| 'v')
}

/// The verbosity argument: none at level 0.
pub open spec fn verbosity_part(level: nat) -> Seq<Seq<char>> {
    if level > 0 {
        seq![verbosity_flag(level)]
    } else {
        Seq::empty()
    }
}

/// The target argument, when a target is set.
pub open spec fn target_part(url: Option<Seq<char>>) -> Seq<Seq<char>> {
    match url {
        Some(target) => seq![target],
        None => Seq::empty(),
    }
}

/// The two log format arguments, when a log format is set.
pub open spec fn log_format_part(format: Option<NixFlakeLogFormat>) -> Seq<Seq<char>> {
    match format {
        Some(f) => seq!["--log-format"@, f.word()],
        None => Seq::empty(),
    }
}

/// The argument list for a configuration: the two subcommand words, the
/// target, then each option that is set, always in this order.
pub open spec fn arguments(s: Settings) -> Seq<Seq<char>> {
    seq!["flake"@, "show"@]
        + target_part(s.url)
        + switch(s.all_systems, "--all-systems"@)
        + switch(s.json, "--json"@)
        + switch(s.legacy, "--legacy"@)
        + switch(s.impure, "--impure"@)
        + switch(s.recreate_lock_file, "--recreate-lock-file"@)
        + switch(s.debug, "--debug"@)
        + verbosity_part(s.verbosity_level)
        + log_format_part(s.log_format)
}

/// The command that a configuration is rendered into: the tool with the
/// arguments of [`arguments`], its standard output captured and its standard
/// error passed through.
pub open spec fn built(s: Settings) -> InvocationView {
    InvocationView {
        program: nix_program(),
        args: arguments(s),
        stdout: StreamTarget::Piped,
        stderr: StreamTarget::Inherit,
    }
}

/// Rendering is deterministic: two builders with the same options give the
/// same command, argument for argument.
pub proof fn lemma_same_options_same_command(a: NixFlakeShowBuilder, b: NixFlakeShowBuilder)
    requires
        a@ == b@,
    ensures
        built(a@) == built(b@),
        arguments(a@) == arguments(b@),
{
}

/// The order in which two different options are set changes neither the
/// options nor the command they render to.
pub proof fn lemma_setting_order_is_irrelevant(options: Settings, first: Setting, second: Setting)
    requires
        !first.same_option(second),
    ensures
        options.with(first).with(second) == options.with(second).with(first),
        built(options.with(first).with(second)) == built(options.with(second).with(first)),
{
    assert(options.with(first).with(second) == options.with(second).with(first)) by {
        match first {
            Setting::AllSystems(_) => {},
            Setting::Json(_) => {},
            Setting::Legacy(_) => {},
            Setting::Impure(_) => {},
            Setting::RecreateLockFile(_) => {},
            Setting::Debug(_) => {},
            Setting::VerbosityLevel(_) => {},
            Setting::LogFormat(_) => {},
            Setting::Url(_) => {},
        }
    }
}

/// Where one option is set twice, the later value stands.
pub proof fn lemma_later_setting_stands(options: Settings, first: Setting, second: Setting)
    requires
        first.same_option(second),
    ensures
        options.with(first).with(second) == options.with(second),
{
}

/// Accumulates the options of a `flake show` run.
#[derive(Debug)]
pub struct NixFlakeShowBuilder {
    all_systems: bool,
    json: bool,
    legacy: bool,
    impure: bool,
    recreate_lock_file: bool,
    debug: bool,
    verbosity_level: usize,
    log_format: Option<NixFlakeLogFormat>,
    url: Option<String>,
}

impl View for NixFlakeShowBuilder {
    type V = Settings;

    closed spec fn view(&self) -> Settings {
        Settings {
            all_systems: self.all_systems,
            json: self.json,
            legacy: self.legacy,
            impure: self.impure,
            recreate_lock_file: self.recreate_lock_file,
            debug: self.debug,
            verbosity_level: self.verbosity_level as nat,
            log_format: self.log_format,
            url: self.url.deep_view(),
        }
    }
}

/// Appends one argument.
fn push_arg(args: &mut Vec<String>, arg: String)
    ensures
        final(args).deep_view() == old(args).deep_view().push(arg@),
{
    args.push(arg);
    assert(args.deep_view() =~= old(args).deep_view().push(arg@));
}

/// Appends `flag` when the switch is on.
fn push_switch(args: &mut Vec<String>, on: bool, flag: &str)
    ensures
        final(args).deep_view() == old(args).deep_view() + switch(on, flag@),
{
    if on {
        push_arg(args, flag.to_owned());
    }
    assert(args.deep_view() =~= old(args).deep_view() + switch(on, flag@));
}

/// The two subcommand words every argument list starts with.
fn subcommand() -> (args: Vec<String>)
    ensures
        args.deep_view() == seq!["flake"@, "show"@],
{
    let mut args: Vec<String> = Vec::new();
    args.push("flake".to_owned());
    args.push("show".to_owned());
    assert(args.deep_view() =~= seq!["flake"@, "show"@]);
    args
}

/// Appends the target when one is set.
fn push_target(args: &mut Vec<String>, url: &Option<String>)
    ensures
        final(args).deep_view() == old(args).deep_view() + target_part(url.deep_view()),
{
    if let Some(target) = url {
        push_arg(args, target.clone());
    }
    assert(args.deep_view() =~= old(args).deep_view() + target_part(url.deep_view()));
}

/// Appends the verbosity flag unless the level is 0.
fn push_verbosity(args: &mut Vec<String>, level: usize)
    ensures
        final(args).deep_view() == old(args).deep_view() + verbosity_part(level as nat),
{
    if level > 0 {
        push_arg(args, render_verbosity(level));
    }
    assert(args.deep_view() =~= old(args).deep_view() + verbosity_part(level as nat));
}

/// Appends `--log-format` and the format's word when a format is set.
fn push_log_format(args: &mut Vec<String>, format: Option<NixFlakeLogFormat>)
    ensures
        final(args).deep_view() == old(args).deep_view() + log_format_part(format),
{
    if let Some(f) = format {
        push_arg(args, "--log-format".to_owned());
        push_arg(args, f.as_arg());
    }
    assert(args.deep_view() =~= old(args).deep_view() + log_format_part(format));
}

/// Builds the verbosity flag for a level.
fn render_verbosity(level: usize) -> (flag: String)
    ensures
        flag@ == verbosity_flag(level as nat),
{
    let mut flag = "-".to_owned();
    proof {
        reveal_strlit("-");
        reveal_strlit("v");
        assert(flag@ =~= verbosity_flag(0));
    }
    let mut i: usize = 0;
    while i < level
        invariant
            i <= level,
            flag@ == verbosity_flag(i as nat),
            "v"@ == seq!['v'],
        decreases level - i,
    {
        flag.append("v");
        i = i + 1;
        assert(flag@ =~= verbosity_flag(i as nat));
    }
    flag
}

impl NixFlakeShowBuilder {
    /// Asks for every platform, not only the current one.
    pub fn all_systems(self, all_systems: bool) -> (r: Self)
        ensures
            r@ == self@.with(Setting::AllSystems(all_systems)),
    {
        let mut r = self;
        r.all_systems = all_systems;
        r
    }

    /// Asks for machine-readable output.
    pub fn json(self, json: bool) -> (r: Self)
        ensures
            r@ == self@.with(Setting::Json(json)),
    {
        let mut r = self;
        r.json = json;
        r
    }

    /// Turns legacy-mode enumeration on or off.
    pub fn legacy(self, legacy: bool) -> (r: Self)
        ensures
            r@ == self@.with(Setting::Legacy(legacy)),
    {
        let mut r = self;
        r.legacy = legacy;
        r
    }

    /// Allows or forbids impure evaluation.
    pub fn impure(self, impure: bool) -> (r: Self)
        ensures
            r@ == self@.with(Setting::Impure(impure)),
    {
        let mut r = self;
        r.impure = impure;
        r
    }

    /// Asks for the lock file to be made anew, or not.
    pub fn recreate_lock_file(self, recreate_lock_file: bool) -> (r: Self)
        ensures
            r@ == self@.with(Setting::RecreateLockFile(recreate_lock_file)),
    {
        let mut r = self;
        r.recreate_lock_file = recreate_lock_file;
        r
    }

    /// Turns the tool's internal diagnostics on or off.
    pub fn debug(self, debug: bool) -> (r: Self)
        ensures
            r@ == self@.with(Setting::Debug(debug)),
    {
        let mut r = self;
        r.debug = debug;
        r
    }

    /// Sets how many times the verbosity flag is repeated.
    pub fn verbosity_level(self, verbosity_level: usize) -> (r: Self)
        ensures
            r@ == self@.with(Setting::VerbosityLevel(verbosity_level as nat)),
    {
        let mut r = self;
        r.verbosity_level = verbosity_level;
        r
    }

    /// Sets the log format, or leaves it to the tool with `None`.
    pub fn log_format(self, log_format: Option<NixFlakeLogFormat>) -> (r: Self)
        ensures
            r@ == self@.with(Setting::LogFormat(log_format)),
    {
        let mut r = self;
        r.log_format = log_format;
        r
    }

    /// Sets the target: the path or URI of the source to enumerate.
    pub fn url(self, url: String) -> (r: Self)
        ensures
            r@ == self@.with(Setting::Url(url@)),
    {
        let mut r = self;
        r.url = Some(url);
        r
    }

    /// Renders the configuration: the tool's path, the arguments of
    /// [`arguments`], standard output captured and standard error passed
    /// through. Nothing is run.
    pub fn build(&self) -> (cmd: Invocation)
        ensures
            cmd@ == built(self@),
    {
        let mut cmd = nix_cmd();
        let mut args = subcommand();
        push_target(&mut args, &self.url);
        push_switch(&mut args, self.all_systems, "--all-systems");
        push_switch(&mut args, self.json, "--json");
        push_switch(&mut args, self.legacy, "--legacy");
        push_switch(&mut args, self.impure, "--impure");
        push_switch(&mut args, self.recreate_lock_file, "--recreate-lock-file");
        push_switch(&mut args, self.debug, "--debug");
        push_verbosity(&mut args, self.verbosity_level);
        push_log_format(&mut args, self.log_format);
        cmd.args = args;
        cmd.stdout = StreamTarget::Piped;
        cmd.stderr = StreamTarget::Inherit;
        cmd
    }
}

impl Default for NixFlakeShowBuilder {
    fn default() -> (r: Self)
        ensures
            r@ == Settings::initial(),
    {
        NixFlakeShowBuilder {
            all_systems: false,
            json: false,
            legacy: false,
            impure: false,
            recreate_lock_file: false,
            debug: false,
            verbosity_level: 0,
            log_format: None,
            url: None,
        }
    }
}

/// A builder with every option at its default.
pub fn flake_show() -> (r: NixFlakeShowBuilder)
    ensures
        r@ == Settings::initial(),
{
    NixFlakeShowBuilder::default()
}

} // verus!
