//! The console's command state machine: what one line of input does to the
//! session's configuration, and what the console is to do next.

use crate::result::{OutputFormat, INVALID_FORMAT};
use crate::text::{split_once, split_once_spec, starts_with, str_eq, trim, trimmed};
use vstd::prelude::*;

verus! {

/// The directory that results are written to unless the session names another.
pub const DEFAULT_OUTPUT_PATH: &'static str = ".gcue";

/// The usage of the `format` command.
pub const FORMAT_USAGE: &'static str = "Usage: format <csv/json>";

/// The usage of the `output` command.
pub const OUTPUT_USAGE: &'static str = "Usage: output <PATH>";

/// The usage of the `write` command.
pub const WRITE_USAGE: &'static str = "Usage: write on/off";

/// The banner of the console.
pub const BANNER: &'static str = "
   __ _  ___ _   _  ___
  / _` |/ __| | | |/ _ \\
 | (_| | (__| |_| |  __/
  \\__, |\\___|\\__,_|\\___|
  |___/";

/// The reference of the console's commands.
pub const COMMANDS: &'static str = " commands
   help / :h                      show help
   clear                          clear screen
   format <csv/json>              set output format
   output <PATH>                  set output path
   output reset                   reset output path to gcue's default
   write on/off                   turn writing output on/off
   bye / exit / quit / :q         quit";

/// The reference of the console's keys.
pub const KEYMAPS: &'static str = " keymaps
   <up> / <down>                  scroll through query history
   ctrl+r                         search query history
   ctrl+c                         discard the line
   ctrl+d                         quit";

/// The session's configuration.
#[derive(Debug, Clone, PartialEq, Eq)]
pub struct ConsoleConfig {
    pub format: OutputFormat,
    pub output_path: String,
    pub write: bool,
}

/// What a configuration is.
pub struct ConfigView {
    pub format: OutputFormat,
    pub output_path: Seq<char>,
    pub write: bool,
}

impl View for ConsoleConfig {
    type V = ConfigView;

    open spec fn view(&self) -> ConfigView {
        ConfigView { format: self.format, output_path: self.output_path@, write: self.write }
    }
}

/// What the console does after a line of input.
#[derive(Debug, Clone, PartialEq, Eq)]
pub enum ConsoleAction {
    /// Prompt again.
    Nothing,
    /// Save the history and leave the loop.
    Exit,
    /// Clear the screen.
    ClearScreen,
    /// Show what `Console::help` gives: the banner, the configuration and
    /// the references of commands and keys.
    ShowHelp,
    /// Show a notice.
    Info(String),
    /// Show an error; the configuration is as it was.
    Error(String),
    /// Add the text to the history and run it as a query.
    Query(String),
}

/// What an action is.
pub enum ActionView {
    Nothing,
    Exit,
    ClearScreen,
    ShowHelp,
    Info(Seq<char>),
    Error(Seq<char>),
    Query(Seq<char>),
}

impl View for ConsoleAction {
    type V = ActionView;

    open spec fn view(&self) -> ActionView {
        match self {
            ConsoleAction::Nothing => ActionView::Nothing,
            ConsoleAction::Exit => ActionView::Exit,
            ConsoleAction::ClearScreen => ActionView::ClearScreen,
            ConsoleAction::ShowHelp => ActionView::ShowHelp,
            ConsoleAction::Info(s) => ActionView::Info(s@),
            ConsoleAction::Error(s) => ActionView::Error(s@),
            ConsoleAction::Query(s) => ActionView::Query(s@),
        }
    }
}

/// The configuration that a console starts with.
pub open spec fn default_config() -> ConfigView {
    ConfigView { format: OutputFormat::Csv, output_path: DEFAULT_OUTPUT_PATH@, write: false }
}

/// What the `format` command does: with a format's name behind the first
/// space, the format is set; with another argument, or with none, nothing
/// changes.
pub open spec fn format_command(cfg: ConfigView, cmd: Seq<char>) -> (ConfigView, ActionView) {
    match split_once_spec(cmd, " "@) {
        Some((_, arg)) => match OutputFormat::parsed(arg) {
            Some(f) => (
                ConfigView { format: f, ..cfg },
                ActionView::Info("output format set to: "@ + arg),
            ),
            None => (cfg, ActionView::Error(INVALID_FORMAT@)),
        },
        None => (cfg, ActionView::Error(FORMAT_USAGE@)),
    }
}

/// What the `output` command does: `reset` behind the first space sets the
/// default directory, anything else there is the new directory.
pub open spec fn output_command(cfg: ConfigView, cmd: Seq<char>) -> (ConfigView, ActionView) {
    match split_once_spec(cmd, " "@) {
        Some((_, arg)) => if arg == "reset"@ {
            (
                ConfigView { output_path: DEFAULT_OUTPUT_PATH@, ..cfg },
                ActionView::Info("output path changed to gcue's default: "@ + DEFAULT_OUTPUT_PATH@),
            )
        } else {
            (
                ConfigView { output_path: arg, ..cfg },
                ActionView::Info("output path changed to: "@ + arg),
            )
        },
        None => (cfg, ActionView::Error(OUTPUT_USAGE@)),
    }
}

/// What the `write` command does: `on` or `off` behind the first space sets
/// the switch.
pub open spec fn write_command(cfg: ConfigView, cmd: Seq<char>) -> (ConfigView, ActionView) {
    match split_once_spec(cmd, " "@) {
        Some((_, arg)) => if arg == "on"@ {
            (ConfigView { write: true, ..cfg }, ActionView::Info("writing output turned ON"@))
        } else if arg == "off"@ {
            (ConfigView { write: false, ..cfg }, ActionView::Info("writing output turned OFF"@))
        } else {
            (cfg, ActionView::Error(WRITE_USAGE@))
        },
        None => (cfg, ActionView::Error(WRITE_USAGE@)),
    }
}

/// What a trimmed line of input does to the configuration, and the action
/// that it asks for.
pub open spec fn dispatched(cfg: ConfigView, cmd: Seq<char>) -> (ConfigView, ActionView) {
    if cmd == ""@ {
        (cfg, ActionView::Nothing)
    } else if cmd == "bye"@ || cmd == "exit"@ || cmd == "quit"@ || cmd == ":q"@ {
        (cfg, ActionView::Exit)
    } else if cmd == "clear"@ {
        (cfg, ActionView::ClearScreen)
    } else if cmd == "help"@ || cmd == ":h"@ {
        (cfg, ActionView::ShowHelp)
    } else if "format"@.is_prefix_of(cmd) {
        format_command(cfg, cmd)
    } else if "output"@.is_prefix_of(cmd) {
        output_command(cfg, cmd)
    } else if "write"@.is_prefix_of(cmd) {
        write_command(cfg, cmd)
    } else {
        (cfg, ActionView::Query(cmd))
    }
}

/// A line that is answered with an error leaves the configuration as it
/// was, and so does every line that is no `format`, `output` or `write`
/// command.
pub proof fn lemma_error_keeps_config(cfg: ConfigView, cmd: Seq<char>)
    ensures
        dispatched(cfg, cmd).1 is Error ==> dispatched(cfg, cmd).0 == cfg,
        !(dispatched(cfg, cmd).1 is Info) ==> dispatched(cfg, cmd).0 == cfg,
{
}

/// The lines that show a configuration.
pub open spec fn config_text(cfg: ConfigView) -> Seq<char> {
    " config\n   output format                  "@ + cfg.format.spec_extension()
        + "\n   output path                    "@ + cfg.output_path
        + "\n   write output                   "@ + if cfg.write {
        "ON"@
    } else {
        "OFF"@
    }
}

/// The help: the connection, the configuration, and the references of
/// commands and keys.
pub open spec fn help_text(db_uri: Seq<char>, cfg: ConfigView) -> Seq<char> {
    " connected to: "@ + db_uri + "\n\n"@ + config_text(cfg) + "\n\n"@ + COMMANDS@ + "\n"@
        + KEYMAPS@ + "\n"@
}

/// What the console shows at its start and for a help line: the banner,
/// then the help.
pub open spec fn help_screen_text(db_uri: Seq<char>, cfg: ConfigView) -> Seq<char> {
    BANNER@ + "\n\n"@ + help_text(db_uri, cfg)
}

/// What the console shows at its start and for a help line.
pub fn help_screen(db_uri: &str, config: &ConsoleConfig) -> (r: String)
    ensures
        r@ == help_screen_text(db_uri@, config@),
{
    let help = print_help(db_uri, config);
    let r = print_banner().concat(help.as_str());
    r
}

/// The banner, followed by an empty line.
pub fn print_banner() -> (r: String)
    ensures
        r@ == BANNER@ + "\n\n"@,
{
    String::from_str(BANNER).concat("\n\n")
}

/// The help for a connection and a configuration.
pub fn print_help(db_uri: &str, config: &ConsoleConfig) -> (r: String)
    ensures
        r@ == help_text(db_uri@, config@),
{
    let switch = if config.write {
        "ON"
    } else {
        "OFF"
    };
    let config_help = String::from_str(" config\n   output format                  ").concat(
        config.format.extension(),
    ).concat("\n   output path                    ").concat(config.output_path.as_str()).concat(
        "\n   write output                   ",
    ).concat(switch);
    String::from_str(" connected to: ").concat(db_uri).concat("\n\n").concat(
        config_help.as_str(),
    ).concat("\n\n").concat(COMMANDS).concat("\n").concat(KEYMAPS).concat("\n")
}

/// The console: the connection it shows, where its history lives, and the
/// session's configuration.
#[derive(Debug, Clone)]
pub struct Console {
    db_uri: String,
    history_file_path: String,
    config: ConsoleConfig,
}

impl Console {
    /// The connection that the console shows.
    pub closed spec fn spec_db_uri(&self) -> Seq<char> {
        self.db_uri@
    }

    /// The path of the history file.
    pub closed spec fn spec_history_file_path(&self) -> Seq<char> {
        self.history_file_path@
    }

    /// The session's configuration.
    pub closed spec fn spec_config(&self) -> ConfigView {
        self.config@
    }

    /// A console with the default configuration: CSV, the default directory,
    /// writing off.
    pub fn new(db_uri: String, history_file_path: String) -> (r: Console)
        ensures
            r.spec_db_uri() == db_uri@,
            r.spec_history_file_path() == history_file_path@,
            r.spec_config() == default_config(),
    {
        Console {
            db_uri,
            history_file_path,
            config: ConsoleConfig {
                format: OutputFormat::Csv,
                output_path: String::from_str(DEFAULT_OUTPUT_PATH),
                write: false,
            },
        }
    }

    /// The connection that the console shows.
    pub fn db_uri(&self) -> (r: &str)
        ensures
            r@ == self.spec_db_uri(),
    {
        self.db_uri.as_str()
    }

    /// The path of the history file.
    pub fn history_file_path(&self) -> (r: &str)
        ensures
            r@ == self.spec_history_file_path(),
    {
        self.history_file_path.as_str()
    }

    /// The session's configuration.
    pub fn config(&self) -> (r: &ConsoleConfig)
        ensures
            r@ == self.spec_config(),
    {
        &self.config
    }

    /// What the console shows at its start and for a help line: the banner
    /// again, the connection, the configuration as it now stands, and the
    /// references of commands and keys.
    pub fn help(&self) -> (r: String)
        ensures
            r@ == help_screen_text(self.spec_db_uri(), self.spec_config()),
    {
        help_screen(self.db_uri.as_str(), &self.config)
    }

    /// Takes one line of input: trims it, changes the configuration as a
    /// built-in command says, and tells what the console is to do next. A
    /// line that is no built-in command is a query.
    pub fn step(&mut self, line: &str) -> (action: ConsoleAction)
        ensures
            (final(self).spec_config(), action@) == dispatched(
                old(self).spec_config(),
                trimmed(line@),
            ),
            final(self).spec_db_uri() == old(self).spec_db_uri(),
            final(self).spec_history_file_path() == old(self).spec_history_file_path(),
    {
        let cmd = trim(line);
        if str_eq(cmd, "") {
            ConsoleAction::Nothing
        } else if str_eq(cmd, "bye") || str_eq(cmd, "exit") || str_eq(cmd, "quit") || str_eq(
            cmd,
            ":q",
        ) {
            ConsoleAction::Exit
        } else if str_eq(cmd, "clear") {
            ConsoleAction::ClearScreen
        } else if str_eq(cmd, "help") || str_eq(cmd, ":h") {
            ConsoleAction::ShowHelp
        } else if starts_with(cmd, "format") {
            match split_once(cmd, " ") {
                Some((_, arg)) => match OutputFormat::from_str(arg) {
                    Ok(f) => {
                        self.config.format = f;
                        ConsoleAction::Info(String::from_str("output format set to: ").concat(arg))
                    },
                    Err(e) => ConsoleAction::Error(String::from_str(e)),
                },
                None => ConsoleAction::Error(String::from_str(FORMAT_USAGE)),
            }
        } else if starts_with(cmd, "output") {
            match split_once(cmd, " ") {
                Some((_, arg)) => {
                    if str_eq(arg, "reset") {
                        self.config.output_path = String::from_str(DEFAULT_OUTPUT_PATH);
                        ConsoleAction::Info(
                            String::from_str("output path changed to gcue's default: ").concat(
                                DEFAULT_OUTPUT_PATH,
                            ),
                        )
                    } else {
                        self.config.output_path = String::from_str(arg);
                        ConsoleAction::Info(
                            String::from_str("output path changed to: ").concat(arg),
                        )
                    }
                },
                None => ConsoleAction::Error(String::from_str(OUTPUT_USAGE)),
            }
        } else if starts_with(cmd, "write") {
            match split_once(cmd, " ") {
                Some((_, arg)) => {
                    if str_eq(arg, "on") {
                        self.config.write = true;
                        ConsoleAction::Info(String::from_str("writing output turned ON"))
                    } else if str_eq(arg, "off") {
                        self.config.write = false;
                        ConsoleAction::Info(String::from_str("writing output turned OFF"))
                    } else {
                        ConsoleAction::Error(String::from_str(WRITE_USAGE))
                    }
                },
                None => ConsoleAction::Error(String::from_str(WRITE_USAGE)),
            }
        } else {
            ConsoleAction::Query(String::from_str(cmd))
        }
    }
}

} // verus!
