use gcue::console::{
    help_screen, print_banner, print_help, Console, ConsoleAction, ConsoleConfig, BANNER,
    DEFAULT_OUTPUT_PATH,
};
use gcue::result::OutputFormat;

fn console() -> Console {
    Console::new("bolt://127.0.0.1:7687".to_string(), "/tmp/history.txt".to_string())
}

fn default_config() -> ConsoleConfig {
    ConsoleConfig { format: OutputFormat::Csv, output_path: ".gcue".to_string(), write: false }
}

#[test]
fn banner_and_help_are_printed_correctly() {
    let console_config = ConsoleConfig {
        format: OutputFormat::Csv,
        output_path: DEFAULT_OUTPUT_PATH.to_string(),
        write: false,
    };

    let mut result = print_banner();
    result.push_str(&print_help(
        "https://db.cluster-cf0abc1xyzjk.us-east-1.neptune.amazonaws.com:8182",
        &console_config,
    ));

    let expected = "
   __ _  ___ _   _  ___
  / _` |/ __| | | |/ _ \\
 | (_| | (__| |_| |  __/
  \\__, |\\___|\\__,_|\\___|
  |___/

 connected to: https://db.cluster-cf0abc1xyzjk.us-east-1.neptune.amazonaws.com:8182

 config
   output format                  csv
   output path                    .gcue
   write output                   OFF

 commands
   help / :h                      show help
   clear                          clear screen
   format <csv/json>              set output format
   output <PATH>                  set output path
   output reset                   reset output path to gcue's default
   write on/off                   turn writing output on/off
   bye / exit / quit / :q         quit
 keymaps
   <up> / <down>                  scroll through query history
   ctrl+r                         search query history
   ctrl+c                         discard the line
   ctrl+d                         quit
";
    assert_eq!(result, expected);
}

#[test]
fn help_line_shows_the_banner_again_and_the_configuration_as_it_stands() {
    let mut c = console();
    assert_eq!(c.step("write on"), ConsoleAction::Info("writing output turned ON".to_string()));
    let before = c.config().clone();
    assert_eq!(c.step("help"), ConsoleAction::ShowHelp);
    assert_eq!(c.config(), &before);
    let shown = c.help();
    assert!(shown.starts_with(BANNER));
    assert!(shown.contains(" connected to: bolt://127.0.0.1:7687\n"));
    assert!(shown.contains("   output format                  csv\n"));
    assert!(shown.contains("   output path                    .gcue\n"));
    assert!(shown.contains("   write output                   ON\n"));
    assert!(shown.contains(" commands\n"));
    assert!(shown.contains(" keymaps\n"));
    assert_eq!(shown, help_screen("bolt://127.0.0.1:7687", c.config()));
    let mut expected = print_banner();
    expected.push_str(&print_help("bolt://127.0.0.1:7687", c.config()));
    assert_eq!(shown, expected);
    assert_eq!(c.step(":h"), ConsoleAction::ShowHelp);
    assert_eq!(c.step("bye"), ConsoleAction::Exit);
}

#[test]
fn help_shows_the_current_configuration() {
    let config =
        ConsoleConfig { format: OutputFormat::Json, output_path: "out dir".to_string(), write: true };
    let help = print_help("bolt://h", &config);
    assert!(help.starts_with(" connected to: bolt://h\n\n config\n"));
    assert!(help.contains("   output format                  json\n"));
    assert!(help.contains("   output path                    out dir\n"));
    assert!(help.contains("   write output                   ON\n"));
}

#[test]
fn new_console_has_the_default_configuration() {
    let c = console();
    assert_eq!(c.config(), &default_config());
    assert_eq!(c.db_uri(), "bolt://127.0.0.1:7687");
    assert_eq!(c.history_file_path(), "/tmp/history.txt");
}

#[test]
fn empty_line_does_nothing() {
    let mut c = console();
    assert_eq!(c.step(""), ConsoleAction::Nothing);
    assert_eq!(c.step("   \t "), ConsoleAction::Nothing);
    assert_eq!(c.config(), &default_config());
}

#[test]
fn exit_words_leave_the_loop() {
    for line in ["bye", "exit", "quit", ":q", "  quit  ", "\texit\n"] {
        let mut c = console();
        assert_eq!(c.step(line), ConsoleAction::Exit);
        assert_eq!(c.config(), &default_config());
    }
}

#[test]
fn clear_and_help_are_built_in() {
    let mut c = console();
    assert_eq!(c.step("clear"), ConsoleAction::ClearScreen);
    assert_eq!(c.step("help"), ConsoleAction::ShowHelp);
    assert_eq!(c.step(" :h "), ConsoleAction::ShowHelp);
    assert_eq!(c.config(), &default_config());
}

#[test]
fn format_xml_reports_the_allowed_values_and_changes_nothing() {
    let mut c = console();
    let action = c.step("format xml");
    assert_eq!(
        action,
        ConsoleAction::Error("invalid format provided; allowed values: [csv, json]".to_string())
    );
    assert_eq!(c.config(), &default_config());
    assert_eq!(c.step("format json"), ConsoleAction::Info("output format set to: json".to_string()));
}

#[test]
fn format_sets_the_format() {
    let mut c = console();
    assert_eq!(c.step("format json"), ConsoleAction::Info("output format set to: json".to_string()));
    assert_eq!(c.config().format, OutputFormat::Json);
    assert_eq!(
        c.step("  format   csv  "),
        ConsoleAction::Info("output format set to:   csv".to_string())
    );
    assert_eq!(c.config().format, OutputFormat::Csv);
    assert_eq!(c.config().output_path, ".gcue");
    assert!(!c.config().write);
}

#[test]
fn format_without_argument_shows_usage() {
    let mut c = console();
    assert_eq!(c.step("format"), ConsoleAction::Error("Usage: format <csv/json>".to_string()));
    assert_eq!(c.step("formatjson"), ConsoleAction::Error("Usage: format <csv/json>".to_string()));
    assert_eq!(c.config(), &default_config());
}

#[test]
fn output_sets_and_resets_the_directory() {
    let mut c = console();
    assert_eq!(
        c.step("output /tmp/my results"),
        ConsoleAction::Info("output path changed to: /tmp/my results".to_string())
    );
    assert_eq!(c.config().output_path, "/tmp/my results");
    assert_eq!(
        c.step("output reset"),
        ConsoleAction::Info("output path changed to gcue's default: .gcue".to_string())
    );
    assert_eq!(c.config(), &default_config());
    assert_eq!(c.step("output"), ConsoleAction::Error("Usage: output <PATH>".to_string()));
}

#[test]
fn write_turns_writing_on_and_off() {
    let mut c = console();
    assert_eq!(c.step("write on"), ConsoleAction::Info("writing output turned ON".to_string()));
    assert!(c.config().write);
    assert_eq!(c.step("write off"), ConsoleAction::Info("writing output turned OFF".to_string()));
    assert!(!c.config().write);
    for line in ["write", "write maybe", "write  on", "write ON"] {
        assert_eq!(c.step(line), ConsoleAction::Error("Usage: write on/off".to_string()));
        assert!(!c.config().write);
    }
}

#[test]
fn anything_else_is_a_query() {
    let mut c = console();
    assert_eq!(
        c.step("  MATCH (n) RETURN n LIMIT 5;  "),
        ConsoleAction::Query("MATCH (n) RETURN n LIMIT 5;".to_string())
    );
    assert_eq!(c.step("byebye"), ConsoleAction::Query("byebye".to_string()));
    assert_eq!(c.step("Help"), ConsoleAction::Query("Help".to_string()));
    assert_eq!(c.config(), &default_config());
    assert_eq!(c.db_uri(), "bolt://127.0.0.1:7687");
}
